//! One call of the native method on the JVM side.
//!
//! The incoming Java string is converted to a `String`, greeted, and the
//! greeting converted back to a Java string. Either conversion can fail. What
//! follows from each outcome is decided by `answer` and `hand_back`: the
//! greeting to convert, the reference to return, or the exception to throw.
//! After a throw the null reference is returned; a failure never turns into
//! an empty or partial greeting.

use crate::greeting::{greet, greeting_chars};
use crate::jni::{
    error_text, error_text_chars, get_string, is_null_reference, new_string, null_string, throw_new,
};
use robusta_jni::jni::errors::Error;
use robusta_jni::jni::objects::JString;
use robusta_jni::jni::JNIEnv;
use vstd::prelude::*;
use vstd::string::StringExecFns;

verus! {

/// An exception to throw into the JVM: the class to instantiate and the
/// message to give it.
#[derive(Debug, PartialEq, Eq)]
pub struct Thrown {
    pub class: String,
    pub message: String,
}

/// An exception, with its strings as sequences of characters.
pub struct ThrownView {
    pub class: Seq<char>,
    pub message: Seq<char>,
}

impl View for Thrown {
    type V = ThrownView;

    open spec fn view(&self) -> ThrownView {
        ThrownView { class: self.class@, message: self.message@ }
    }
}

/// The class of every exception this library throws.
pub open spec fn runtime_exception_chars() -> Seq<char> {
    "java/lang/RuntimeException"@
}

/// A runtime exception with the given message.
pub fn runtime_exception(message: String) -> (thrown: Thrown)
    ensures
        thrown@ == (ThrownView { class: runtime_exception_chars(), message: message@ }),
{
    Thrown { class: String::from_str("java/lang/RuntimeException"), message }
}

/// The exception for a failed conversion: a runtime exception whose message
/// is the error as the bindings render it for debugging. The error's own type
/// does not reach the JVM.
pub open spec fn failure_of(err: Error) -> ThrownView {
    ThrownView { class: runtime_exception_chars(), message: error_text_chars(err) }
}

/// Makes the exception for a failed conversion.
pub fn conversion_failed(err: &Error) -> (thrown: Thrown)
    ensures
        thrown@ == failure_of(*err),
{
    runtime_exception(error_text(err))
}

/// Takes the outcome of converting the incoming name. A name gives its
/// greeting, which is to be converted next; a failure gives the exception to
/// throw.
pub fn answer(converted: Result<String, Error>) -> (step: Result<String, Thrown>)
    ensures
        match converted {
            Ok(name) => step matches Ok(text) && text@ == greeting_chars(name@),
            Err(err) => step matches Err(thrown) && thrown@ == failure_of(err),
        },
{
    match converted {
        Ok(name) => Ok(greet(name.as_str())),
        Err(err) => Err(conversion_failed(&err)),
    }
}

/// Takes the outcome of converting the greeting to a reference of the host.
/// The reference is returned as it is; a failure gives the exception to
/// throw.
pub fn hand_back<H>(converted: Result<H, Error>) -> (outcome: Result<H, Thrown>)
    ensures
        match converted {
            Ok(reference) => outcome == Ok::<H, Thrown>(reference),
            Err(err) => outcome matches Err(thrown) && thrown@ == failure_of(err),
        },
{
    match converted {
        Ok(reference) => Ok(reference),
        Err(err) => Err(conversion_failed(&err)),
    }
}

/// Ends a call. A reference is returned as it is, with nothing thrown. An
/// exception is thrown into the JVM and handed back beside the null
/// reference. Whether the throw itself succeeds is not looked at: if it does
/// not, the JVM raises an exception of its own.
pub fn settle<'a>(env: &JNIEnv<'a>, outcome: Result<JString<'a>, Thrown>) -> (reply: (
    JString<'a>,
    Option<Thrown>,
))
    ensures
        match outcome {
            Ok(reference) => reply.0 == reference && reply.1.is_none(),
            Err(thrown) => is_null_reference(reply.0) && reply.1 == Some(thrown),
        },
{
    match outcome {
        Ok(reference) => (reference, None),
        Err(thrown) => {
            let _ = throw_new(env, thrown.class.as_str(), thrown.message.as_str());
            (null_string(), Some(thrown))
        },
    }
}

/// The native method: greets the Java string `name` with a new Java string.
/// The reply is the reference to hand to the JVM, and beside it what was
/// thrown. If both conversions succeed, nothing is thrown and the reference
/// is not null. If either fails, a runtime exception is thrown and the
/// reference is null: there is no null reply without a throw, and no reply
/// made from a failed conversion.
pub fn hello<'a>(env: &JNIEnv<'a>, name: JString<'a>) -> (reply: (JString<'a>, Option<Thrown>))
    ensures
        match reply.1 {
            Some(thrown) => thrown@.class == runtime_exception_chars() && is_null_reference(
                reply.0,
            ),
            None => !is_null_reference(reply.0),
        },
{
    let outcome = match answer(get_string(env, name)) {
        Ok(text) => hand_back(new_string(env, text)),
        Err(thrown) => Err(thrown),
    };
    settle(env, outcome)
}

} // verus!
