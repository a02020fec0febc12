//! The greeting: a fixed prefix followed by the caller's name.

use vstd::prelude::*;
use vstd::string::StringExecFns;

verus! {

/// The characters that every greeting starts with.
pub open spec fn prefix_chars() -> Seq<char> {
    "Hello, "@
}

/// The greeting for `name`: the prefix, then the name exactly as given.
pub open spec fn greeting_chars(name: Seq<char>) -> Seq<char> {
    prefix_chars() + name
}

/// The prefix as a string.
pub fn prefix() -> (r: &'static str)
    ensures
        r@ == prefix_chars(),
{
    "Hello, "
}

/// Builds the greeting for `name`. Nothing of the name is inspected or
/// changed: an empty name gives the bare prefix, and a name that itself
/// starts with the prefix is greeted like any other.
pub fn greet(name: &str) -> (r: String)
    ensures
        r@ == greeting_chars(name@),
{
    let mut out = String::from_str(prefix());
    out.append(name);
    out
}

/// A greeting is the prefix, seven characters long, with the whole name
/// behind it: it is never empty, and the name can be read back from it.
pub proof fn lemma_greeting_shape(name: Seq<char>)
    ensures
        greeting_chars(name).len() == 7 + name.len(),
        greeting_chars(name).subrange(0, 7) == prefix_chars(),
        greeting_chars(name).subrange(7, greeting_chars(name).len() as int) == name,
{
    reveal_strlit("Hello, ");
    assert(greeting_chars(name).subrange(0, 7) =~= prefix_chars());
    assert(greeting_chars(name).subrange(7, greeting_chars(name).len() as int) =~= name);
}

} // verus!
