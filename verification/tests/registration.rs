use oxi_test::descriptor::{method_signature, target_class, NativeMethodDescriptor};
use oxi_test::load::{advance, load_status, start, status, step, LoadState};
use oxi_test::ruby::SingletonMethod;
use robusta_jni::jni::errors::{Error, JniError};
use robusta_jni::jni::sys::{JNI_ERR, JNI_VERSION_1_4};

#[test]
fn method_signature_wraps_the_argument() {
    assert_eq!(method_signature("I", "V"), "(I)V");
    assert_eq!(method_signature("", ""), "()");
    assert_eq!(
        method_signature("Ljava/util/List;", "Lorg/jruby/Ruby;"),
        "(Ljava/util/List;)Lorg/jruby/Ruby;"
    );
}

#[test]
fn native_method_is_hello_native() {
    let method = oxi_test::descriptor::hello_method();
    assert_eq!(
        method,
        NativeMethodDescriptor {
            name: String::from("helloNative"),
            signature: String::from("(Ljava/lang/String;)Ljava/lang/String;"),
        }
    );
}

#[test]
fn target_class_is_the_declaring_class() {
    assert_eq!(target_class(), "oxi/test/OxiTest");
}

#[test]
fn singleton_method_is_oxi_test_hello() {
    let method = oxi_test::ruby::hello_method();
    assert_eq!(
        method,
        SingletonMethod {
            namespace: String::from("Oxi"),
            module: String::from("Test"),
            name: String::from("hello"),
            arity: 1,
        }
    );
}

#[test]
fn load_starts_unloaded() {
    assert_eq!(start(), LoadState::Unloaded);
    assert_eq!(status(start()), JNI_ERR);
}

#[test]
fn load_succeeds_step_by_step() {
    let state = advance(start(), true);
    assert_eq!(state, LoadState::EnvironmentFound);
    assert_eq!(status(state), JNI_ERR);

    let state = advance(state, true);
    assert_eq!(state, LoadState::ClassFound);
    assert_eq!(status(state), JNI_ERR);

    let state = advance(state, true);
    assert_eq!(state, LoadState::Loaded);
    assert_eq!(status(state), JNI_VERSION_1_4);
    assert_eq!(status(state), 0x0001_0004);
}

#[test]
fn load_fails_at_each_step() {
    let no_environment = advance(start(), false);
    assert_eq!(no_environment, LoadState::LoadFailed);

    let no_class = advance(advance(start(), true), false);
    assert_eq!(no_class, LoadState::LoadFailed);

    let not_registered = advance(advance(advance(start(), true), true), false);
    assert_eq!(not_registered, LoadState::LoadFailed);

    assert_eq!(status(LoadState::LoadFailed), JNI_ERR);
    assert_eq!(status(LoadState::LoadFailed), -1);
}

#[test]
fn load_end_states_stay() {
    for report in [true, false] {
        assert_eq!(advance(LoadState::Loaded, report), LoadState::Loaded);
        assert_eq!(advance(LoadState::LoadFailed, report), LoadState::LoadFailed);
    }
}

#[test]
fn load_status_is_the_version_only_if_all_succeed() {
    for environment in [true, false] {
        for class in [true, false] {
            for registered in [true, false] {
                let expected = if environment && class && registered {
                    JNI_VERSION_1_4
                } else {
                    JNI_ERR
                };
                assert_eq!(load_status(environment, class, registered), expected);

                let end = advance(advance(advance(start(), environment), class), registered);
                assert_eq!(status(end), expected);
                assert_eq!(end == LoadState::Loaded, environment && class && registered);
            }
        }
    }
    assert_eq!(load_status(true, true, true), 65540);
    assert_eq!(load_status(true, false, true), -1);
}

#[test]
fn step_follows_the_outcome() {
    let found: Result<u8, Error> = Ok(7);
    let detached: Result<u8, Error> = Err(Error::JniCall(JniError::ThreadDetached));
    let missing: Result<(), Error> = Err(Error::JavaException);
    let bound: Result<(), Error> = Ok(());

    assert_eq!(step(start(), &found), LoadState::EnvironmentFound);
    assert_eq!(step(start(), &detached), LoadState::LoadFailed);
    assert_eq!(step(LoadState::EnvironmentFound, &found), LoadState::ClassFound);
    assert_eq!(step(LoadState::EnvironmentFound, &missing), LoadState::LoadFailed);
    assert_eq!(step(LoadState::ClassFound, &bound), LoadState::Loaded);
    assert_eq!(step(LoadState::ClassFound, &missing), LoadState::LoadFailed);
    assert_eq!(step(LoadState::LoadFailed, &bound), LoadState::LoadFailed);
    assert_eq!(status(step(LoadState::ClassFound, &missing)), JNI_ERR);
    assert_eq!(status(step(LoadState::ClassFound, &bound)), JNI_VERSION_1_4);
}
