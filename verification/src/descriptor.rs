//! The native method that the JVM binding registers: its class, its name and
//! its JVM type signature.

use crate::jni::{string_type, string_type_chars};
use vstd::prelude::*;
use vstd::string::StringExecFns;

verus! {

/// A native method as the JVM looks it up: by name and type signature. The
/// function pointer that completes the binding is added where the method is
/// registered.
#[derive(Debug, PartialEq, Eq)]
pub struct NativeMethodDescriptor {
    pub name: String,
    pub signature: String,
}

/// What a descriptor says, as two sequences of characters.
pub struct DescriptorView {
    pub name: Seq<char>,
    pub signature: Seq<char>,
}

impl View for NativeMethodDescriptor {
    type V = DescriptorView;

    open spec fn view(&self) -> DescriptorView {
        DescriptorView { name: self.name@, signature: self.signature@ }
    }
}

/// The JVM type signature of a method with one argument: the argument's type
/// in round brackets, then the result's type.
pub open spec fn method_signature_chars(argument: Seq<char>, result: Seq<char>) -> Seq<char> {
    seq!['('] + argument + seq![')'] + result
}

/// The fully qualified name of the class that declares the native method.
pub open spec fn target_class_chars() -> Seq<char> {
    "oxi/test/OxiTest"@
}

/// The name under which the class declares the native method.
pub open spec fn hello_name_chars() -> Seq<char> {
    "helloNative"@
}

/// The type signature of the native method: a string in, a string out.
pub open spec fn hello_signature_chars() -> Seq<char> {
    method_signature_chars(string_type_chars(), string_type_chars())
}

/// Composes the type signature of a one-argument method from the type
/// signatures of its argument and of its result.
pub fn method_signature(argument: &str, result: &str) -> (sig: String)
    ensures
        sig@ == method_signature_chars(argument@, result@),
{
    proof {
        reveal_strlit("(");
        reveal_strlit(")");
        assert("("@ =~= seq!['(']);
        assert(")"@ =~= seq![')']);
    }
    let mut sig = String::from_str("(");
    sig.append(argument);
    sig.append(")");
    sig.append(result);
    sig
}

/// The class that the load hook looks up.
pub fn target_class() -> (name: &'static str)
    ensures
        name@ == target_class_chars(),
{
    "oxi/test/OxiTest"
}

/// The descriptor of the one native method this library binds.
pub fn hello_method() -> (method: NativeMethodDescriptor)
    ensures
        method@.name == hello_name_chars(),
        method@.signature == hello_signature_chars(),
{
    let java_string = string_type();
    NativeMethodDescriptor {
        name: String::from_str("helloNative"),
        signature: method_signature(java_string, java_string),
    }
}

/// The signature of the bound method, written out: it is the one that a
/// caller hands to the JVM to invoke the method by name.
pub proof fn lemma_hello_signature()
    ensures
        hello_signature_chars() == "(Ljava/lang/String;)Ljava/lang/String;"@,
{
    reveal_strlit("Ljava/lang/String;");
    reveal_strlit("(Ljava/lang/String;)Ljava/lang/String;");
    assert(hello_signature_chars() =~= "(Ljava/lang/String;)Ljava/lang/String;"@);
}

} // verus!
