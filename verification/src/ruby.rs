//! The method that the binding for the C-based interpreter registers:
//! a singleton method on a module nested in a namespace module.

use vstd::prelude::*;
use vstd::string::StringExecFns;

verus! {

/// A singleton method as the interpreter is told of it: the two modules that
/// lead to it, its name, and the number of arguments it takes.
#[derive(Debug, PartialEq, Eq)]
pub struct SingletonMethod {
    pub namespace: String,
    pub module: String,
    pub name: String,
    pub arity: i32,
}

/// What a singleton method says, with its strings as sequences of characters.
pub struct SingletonMethodView {
    pub namespace: Seq<char>,
    pub module: Seq<char>,
    pub name: Seq<char>,
    pub arity: int,
}

impl View for SingletonMethod {
    type V = SingletonMethodView;

    open spec fn view(&self) -> SingletonMethodView {
        SingletonMethodView {
            namespace: self.namespace@,
            module: self.module@,
            name: self.name@,
            arity: self.arity as int,
        }
    }
}

/// The method that is registered: `hello`, with one argument, on the module
/// `Test` inside the module `Oxi`.
pub open spec fn hello_method_view() -> SingletonMethodView {
    SingletonMethodView { namespace: "Oxi"@, module: "Test"@, name: "hello"@, arity: 1 }
}

/// The registration of the one method this library offers the interpreter.
pub fn hello_method() -> (method: SingletonMethod)
    ensures
        method@ == hello_method_view(),
{
    SingletonMethod {
        namespace: String::from_str("Oxi"),
        module: String::from_str("Test"),
        name: String::from_str("hello"),
        arity: 1,
    }
}

} // verus!
