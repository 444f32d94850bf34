//! Session validation: the decision of whether a session's stored user id
//! grants access. Reading the session store itself is the caller's
//! business; the decision is made here, on the plain outcome of that read.

use vstd::prelude::*;

verus! {

/// Why a session was rejected.
#[derive(PartialEq, Eq, Debug)]
pub enum SessionValidationError {
    /// The session holds no user id.
    NotLoggedIn,
    /// The session store itself failed, with its message.
    UnexpectedError(String),
}

/// Decides a session from what the session store returned: a held user id
/// is accepted (the caller then renews the session), an empty session is
/// `NotLoggedIn`, and a store failure is passed through as unexpected.
pub fn validate_session(user_id: Result<Option<i32>, String>) -> (r: Result<
    i32,
    SessionValidationError,
>)
    ensures
        match user_id {
            Ok(Some(id)) => r == Ok::<i32, SessionValidationError>(id),
            Ok(None) => r == Err::<i32, SessionValidationError>(
                SessionValidationError::NotLoggedIn,
            ),
            Err(m) => (r matches Err(SessionValidationError::UnexpectedError(m2)) && m2@ == m@),
        },
{
    match user_id {
        Ok(Some(id)) => Ok(id),
        Ok(None) => Err(SessionValidationError::NotLoggedIn),
        Err(m) => Err(SessionValidationError::UnexpectedError(m)),
    }
}

} // verus!
