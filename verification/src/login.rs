//! The sign-in handler's check of what a service sends back: the `state`
//! parameter must be the secret that the app put into the sign-in link.
use vstd::prelude::*;
use crate::updater::same_text;

verus! {

/// Why a sign-in callback is refused before its code is exchanged.
#[derive(Clone, Copy, Debug, PartialEq, Eq, Structural)]
pub enum CallbackError {
    /// The `state` parameter is not the app's CSRF secret.
    CsrfMismatch,
}

/// A callback goes on only if its `state` is the app's CSRF secret.
pub fn check_callback_state(state: &str, secret: &str) -> (r: Result<(), CallbackError>)
    ensures
        r is Ok <==> state@ == secret@,
        r is Err ==> r == Err::<(), CallbackError>(CallbackError::CsrfMismatch),
{
    if same_text(state, secret) {
        Ok(())
    } else {
        Err(CallbackError::CsrfMismatch)
    }
}

} // verus!
