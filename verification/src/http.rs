//! The status a transport answers with.

use vstd::prelude::*;
use crate::errors::GenericError;
use crate::users::models::User;

verus! {

/// The status of a request that was served.
pub const STATUS_OK: u16 = 200;

/// The status of a request that failed, whatever the kind of the failure.
pub const STATUS_BAD_REQUEST: u16 = 400;

/// The status for the result of a login, a refresh or a user operation:
/// every failure is answered alike.
pub fn status_of<T>(result: &Result<T, GenericError>) -> (status: u16)
    ensures
        status == if result is Ok {
            STATUS_OK
        } else {
            STATUS_BAD_REQUEST
        },
{
    match result {
        Ok(_) => STATUS_OK,
        Err(_) => STATUS_BAD_REQUEST,
    }
}

/// The status for a session probe: served exactly when the request's user
/// was resolved by the authenticator.
pub fn session_status(current_user: &User) -> (status: u16)
    ensures
        status == if current_user@.id is Some {
            STATUS_OK
        } else {
            STATUS_BAD_REQUEST
        },
{
    if current_user.is_authenticated() {
        STATUS_OK
    } else {
        STATUS_BAD_REQUEST
    }
}

} // verus!
