use oxi_test::call::{answer, conversion_failed, hand_back, runtime_exception, Thrown};
use oxi_test::greeting::{greet, prefix};
use robusta_jni::jni::errors::{Error, JniError};

#[test]
fn test_simple_hello() {
    assert_eq!("Hello, world", greet("world"));
}

#[test]
fn lib_test_simple_hello() {
    let val: String = answer(Ok(String::from("world"))).unwrap();
    assert_eq!(val, "Hello, world");
}

#[test]
fn prefix_is_the_literal() {
    assert_eq!(prefix(), "Hello, ");
    assert_eq!(prefix().chars().count(), 7);
}

#[test]
fn greeting_of_empty_name_is_the_prefix() {
    assert_eq!(greet(""), "Hello, ");
}

#[test]
fn greeting_keeps_the_name_unchanged() {
    assert_eq!(greet("  Ada Lovelace \n"), "Hello,   Ada Lovelace \n");
    assert_eq!(greet("Hello, "), "Hello, Hello, ");
    assert_eq!(greet("wörld ✓ 世界"), "Hello, wörld ✓ 世界");
}

#[test]
fn greeting_is_prefix_plus_name_for_many_names() {
    for name in ["a", "world", "x y z", "\u{0}", "ß", "🦀🦀", "Oxi::Test"] {
        let greeting = greet(name);
        assert_eq!(greeting, format!("Hello, {}", name));
        assert_eq!(greeting.chars().count(), 7 + name.chars().count());
        assert_eq!(&greeting[7..], name);
    }
}

#[test]
fn answer_greets_through_the_jvm_path() {
    for name in ["", "world", "wörld ✓ 世界"] {
        assert_eq!(answer(Ok(String::from(name))), Ok(format!("Hello, {}", name)));
    }
}

#[test]
fn answer_throws_on_a_failed_conversion() {
    let step = answer(Err(Error::NullPtr("get_string obj argument")));
    let thrown = step.unwrap_err();
    assert_eq!(thrown.class, "java/lang/RuntimeException");
    assert_eq!(thrown.message, "NullPtr(\"get_string obj argument\")");
}

#[test]
fn answer_never_yields_an_empty_greeting_on_failure() {
    let step = answer(Err(Error::JavaException));
    assert!(step.is_err());
    assert_ne!(step, Ok(String::new()));
    assert_eq!(step.unwrap_err().message, "JavaException");
}

#[test]
fn hand_back_returns_the_reference_unchanged() {
    assert_eq!(hand_back(Ok(41u64)), Ok(41u64));
    assert_eq!(
        hand_back(Ok(String::from("Hello, world"))),
        Ok(String::from("Hello, world"))
    );
}

#[test]
fn hand_back_throws_on_a_failed_conversion() {
    let outcome: Result<u64, Thrown> = hand_back(Err(Error::JniCall(JniError::NoMemory)));
    let thrown = outcome.unwrap_err();
    assert_eq!(thrown.class, "java/lang/RuntimeException");
    assert_eq!(thrown.message, "JniCall(NoMemory)");
}

#[test]
fn conversion_failed_carries_the_debug_text() {
    let err = Error::ThrowFailed(-3);
    let expected = format!("{:?}", err);
    let thrown = conversion_failed(&err);
    assert_eq!(thrown.class, "java/lang/RuntimeException");
    assert_eq!(thrown.message, expected);
    assert_eq!(thrown.message, "ThrowFailed(-3)");
}

#[test]
fn runtime_exception_keeps_the_message() {
    let thrown = runtime_exception(String::from("something bad happened"));
    assert_eq!(
        thrown,
        Thrown {
            class: String::from("java/lang/RuntimeException"),
            message: String::from("something bad happened"),
        }
    );
    assert_eq!(runtime_exception(String::new()).message, "");
}
