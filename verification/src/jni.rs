//! What the library takes from the JNI bindings: the handles of a running
//! JVM, the calls that are made on them, two status codes, the type signature
//! of a Java string, and the text of a binding error.
//!
//! Nothing in this file is proved. A contract here repeats what the bindings
//! define. A call into the JVM has no contract: what it returns is up to the
//! JVM, and all that is relied on is that it returns.

use robusta_jni::convert::{Signature, TryFromJavaValue, TryIntoJavaValue};
use robusta_jni::jni::errors::Error;
use robusta_jni::jni::objects::{JClass, JObject, JString};
use robusta_jni::jni::{JNIEnv, JavaVM, NativeMethod};
use vstd::prelude::*;

verus! {

/// The error type of the JNI bindings, carried through as an opaque value.
#[verifier::external_type_specification]
#[verifier::external_body]
pub struct ExError(robusta_jni::jni::errors::Error);

/// A Java VM, as the load hook receives it.
#[verifier::external_type_specification]
#[verifier::external_body]
pub struct ExJavaVM(robusta_jni::jni::JavaVM);

/// The JNI environment of one thread.
#[verifier::external_type_specification]
#[verifier::external_body]
pub struct ExJNIEnv<'a>(robusta_jni::jni::JNIEnv<'a>);

/// A reference to a Java class.
#[verifier::external_type_specification]
#[verifier::external_body]
pub struct ExJClass<'a>(robusta_jni::jni::objects::JClass<'a>);

/// A reference to a Java string, or the null reference.
#[verifier::external_type_specification]
#[verifier::external_body]
pub struct ExJString<'a>(robusta_jni::jni::objects::JString<'a>);

/// A native method ready to be registered: name, type signature and the
/// address of the function.
#[verifier::external_type_specification]
#[verifier::external_body]
pub struct ExNativeMethod(robusta_jni::jni::NativeMethod);

/// The JNI version that a load hook reports on success.
pub open spec fn version_code() -> int {
    0x0001_0004
}

/// The status that a load hook reports when loading must be refused.
pub open spec fn error_code() -> int {
    -1
}

/// The JVM type signature of `java.lang.String`.
pub open spec fn string_type_chars() -> Seq<char> {
    "Ljava/lang/String;"@
}

/// Whether a string reference is the null reference.
pub uninterp spec fn is_null_reference(reference: JString) -> bool;

/// The text that the derived `Debug` impl of the bindings' error type gives
/// for an error.
pub uninterp spec fn error_text_chars(err: Error) -> Seq<char>;

/// Reads `jni::sys::JNI_VERSION_1_4`, which the bindings define as
/// `0x00010004`.
#[verifier::external_body]
pub(crate) fn jni_version() -> (code: i32)
    ensures
        code == version_code(),
{
    robusta_jni::jni::sys::JNI_VERSION_1_4
}

/// Reads `jni::sys::JNI_ERR`, which the bindings define as `-1`.
#[verifier::external_body]
pub(crate) fn jni_error() -> (code: i32)
    ensures
        code == error_code(),
{
    robusta_jni::jni::sys::JNI_ERR
}

/// Reads `Signature::SIG_TYPE` of `JString`, which robusta_jni defines as
/// the string `Ljava/lang/String;`.
#[verifier::external_body]
pub(crate) fn string_type() -> (sig: &'static str)
    ensures
        sig@ == string_type_chars(),
{
    <JString as Signature>::SIG_TYPE
}

/// Renders a binding error with its derived `Debug` impl, as `{:?}` does.
/// The text depends on the error alone; the contract gives it its name and
/// says nothing of what it holds.
#[verifier::external_body]
pub(crate) fn error_text(err: &Error) -> (text: String)
    ensures
        text@ == error_text_chars(*err),
{
    format!("{:?}", err)
}

/// Calls `JavaVM::get_env`: the environment of the current thread, or an
/// error if the thread is not attached to the VM.
#[verifier::external_body]
pub(crate) fn get_env<'a>(vm: &'a JavaVM) -> (env: Result<JNIEnv<'a>, Error>)
{
    vm.get_env()
}

/// Calls `JNIEnv::find_class`: the class of this fully qualified name, or an
/// error if the JVM finds none.
#[verifier::external_body]
pub(crate) fn find_class<'a>(env: &JNIEnv<'a>, name: &str) -> (class: Result<JClass<'a>, Error>)
{
    env.find_class(name)
}

/// Calls `JNIEnv::register_native_methods` with the one method given.
#[verifier::external_body]
pub(crate) fn register_native<'a>(
    env: &JNIEnv<'a>,
    class: JClass<'a>,
    method: NativeMethod,
) -> (registered: Result<(), Error>)
{
    env.register_native_methods(class, &[method])
}

/// Calls robusta_jni's `TryFromJavaValue::try_from` for `String`, which
/// reads the characters of a Java string; the null reference gives an error.
#[verifier::external_body]
pub(crate) fn get_string<'a>(env: &JNIEnv<'a>, name: JString<'a>) -> (converted: Result<
    String,
    Error,
>)
{
    TryFromJavaValue::try_from(name, env)
}

/// Calls robusta_jni's `TryIntoJavaValue::try_into` for `String`, which
/// makes a new Java string of the text with `JNIEnv::new_string`. That call
/// turns a null result of the JVM into an error, so a reference that comes
/// back is not null.
#[verifier::external_body]
pub(crate) fn new_string<'a>(env: &JNIEnv<'a>, text: String) -> (converted: Result<
    JString<'a>,
    Error,
>)
    ensures
        converted matches Ok(reference) ==> !is_null_reference(reference),
{
    TryIntoJavaValue::try_into(text, env)
}

/// Calls `JNIEnv::throw_new`: makes an exception of the class with the
/// message and leaves it pending in the JVM.
#[verifier::external_body]
pub(crate) fn throw_new<'a>(env: &JNIEnv<'a>, class: &str, message: &str) -> (thrown: Result<
    (),
    Error,
>)
{
    env.throw_new(class, message)
}

/// Makes the null reference with `JObject::null`, as a string reference.
#[verifier::external_body]
pub(crate) fn null_string<'a>() -> (reference: JString<'a>)
    ensures
        is_null_reference(reference),
{
    JString::from(JObject::null())
}

} // verus!
