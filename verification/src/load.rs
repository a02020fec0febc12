//! The load hook of the JVM binding.
//!
//! The hook does three things in order: it obtains the environment of the
//! current thread, looks up the target class, and registers the native method
//! on it. Each of them can fail, and the first failure ends the attempt. How
//! far an attempt has come is a `LoadState`; the status that the hook hands
//! back follows from the state in which the attempt ends.

use crate::descriptor::target_class;
use crate::jni::{
    error_code, find_class, get_env, jni_error, jni_version, register_native, version_code,
};
use robusta_jni::jni::errors::Error;
use robusta_jni::jni::{JavaVM, NativeMethod};
use vstd::prelude::*;

verus! {

/// How far one load attempt has come.
#[derive(Debug, Clone, Copy, PartialEq, Eq, Structural)]
pub enum LoadState {
    /// Nothing has been done yet.
    Unloaded,
    /// The environment of the current thread is at hand.
    EnvironmentFound,
    /// The target class is at hand.
    ClassFound,
    /// The native method is bound: the attempt succeeded.
    Loaded,
    /// A step failed: the attempt is over.
    LoadFailed,
}

/// Whether the attempt is over, one way or the other.
pub open spec fn is_terminal(state: LoadState) -> bool {
    state == LoadState::Loaded || state == LoadState::LoadFailed
}

/// The state after the pending step succeeded or failed. A state in which
/// the attempt is over has no pending step and stays as it is.
pub open spec fn state_after(state: LoadState, succeeded: bool) -> LoadState {
    match state {
        LoadState::Unloaded => if succeeded {
            LoadState::EnvironmentFound
        } else {
            LoadState::LoadFailed
        },
        LoadState::EnvironmentFound => if succeeded {
            LoadState::ClassFound
        } else {
            LoadState::LoadFailed
        },
        LoadState::ClassFound => if succeeded {
            LoadState::Loaded
        } else {
            LoadState::LoadFailed
        },
        LoadState::Loaded => LoadState::Loaded,
        LoadState::LoadFailed => LoadState::LoadFailed,
    }
}

/// The status with which the hook returns from a state: the JNI version once
/// the method is bound, the error status from every other state.
pub open spec fn status_in(state: LoadState) -> int {
    if state == LoadState::Loaded {
        version_code()
    } else {
        error_code()
    }
}

/// The state in which an attempt ends when its three steps turn out as
/// given. The outcome of a step that is never reached plays no part.
pub open spec fn final_state(environment: bool, class: bool, registered: bool) -> LoadState {
    state_after(
        state_after(state_after(LoadState::Unloaded, environment), class),
        registered,
    )
}

/// The state in which every load attempt starts.
pub fn start() -> (state: LoadState)
    ensures
        state == LoadState::Unloaded,
{
    LoadState::Unloaded
}

/// Takes in whether the pending step succeeded.
pub fn advance(state: LoadState, succeeded: bool) -> (next: LoadState)
    ensures
        next == state_after(state, succeeded),
{
    match state {
        LoadState::Unloaded => if succeeded {
            LoadState::EnvironmentFound
        } else {
            LoadState::LoadFailed
        },
        LoadState::EnvironmentFound => if succeeded {
            LoadState::ClassFound
        } else {
            LoadState::LoadFailed
        },
        LoadState::ClassFound => if succeeded {
            LoadState::Loaded
        } else {
            LoadState::LoadFailed
        },
        LoadState::Loaded => LoadState::Loaded,
        LoadState::LoadFailed => LoadState::LoadFailed,
    }
}

/// The status with which the hook returns from `state`.
pub fn status(state: LoadState) -> (code: i32)
    ensures
        code == status_in(state),
{
    match state {
        LoadState::Loaded => jni_version(),
        _ => jni_error(),
    }
}

/// The status of a whole attempt, from the outcomes of its three steps: the
/// JNI version if all of them succeeded, the error status otherwise.
pub fn load_status(environment: bool, class: bool, registered: bool) -> (code: i32)
    ensures
        code == status_in(final_state(environment, class, registered)),
        code == if environment && class && registered {
            version_code()
        } else {
            error_code()
        },
{
    status(advance(advance(advance(start(), environment), class), registered))
}

/// Takes in the outcome of the pending step, as the JVM gave it.
pub fn step<T>(state: LoadState, outcome: &Result<T, Error>) -> (next: LoadState)
    ensures
        next == state_after(state, outcome is Ok),
{
    match outcome {
        Ok(_) => advance(state, true),
        Err(_) => advance(state, false),
    }
}

/// Runs one attempt against the JVM and says where it ended. Each step is
/// made only if the one before it succeeded, and the state follows from the
/// outcomes of the steps that were made.
fn attempt(vm: &JavaVM, method: NativeMethod) -> (state: LoadState)
    ensures
        is_terminal(state),
{
    let environment = get_env(vm);
    let state = step(start(), &environment);
    match environment {
        Ok(env) => {
            let class = find_class(&env, target_class());
            let state = step(state, &class);
            match class {
                Ok(class) => {
                    let registered = register_native(&env, class, method);
                    step(state, &registered)
                },
                Err(_) => state,
            }
        },
        Err(_) => state,
    }
}

/// The load hook: binds `method` to the target class in `vm` and returns the
/// JNI version, or the error status if the environment, the class or the
/// registration cannot be had. `method` is the native method of this library
/// with the address of its function.
pub fn on_load(vm: &JavaVM, method: NativeMethod) -> (code: i32)
    ensures
        code == version_code() || code == error_code(),
{
    status(attempt(vm, method))
}

/// An attempt ends after its three steps, bound exactly if each of them
/// succeeded and failed otherwise.
pub proof fn lemma_attempt_ends(environment: bool, class: bool, registered: bool)
    ensures
        is_terminal(final_state(environment, class, registered)),
        final_state(environment, class, registered) == LoadState::Loaded <==> environment && class
            && registered,
{
}

/// A failure is final: a failed step ends the attempt, and it stays failed
/// whatever is reported to it later.
pub proof fn lemma_failure_is_final(state: LoadState, later: bool)
    requires
        state != LoadState::Loaded,
    ensures
        state_after(state, false) == LoadState::LoadFailed,
        state_after(LoadState::LoadFailed, later) == LoadState::LoadFailed,
        status_in(LoadState::LoadFailed) == error_code(),
{
}

} // verus!
