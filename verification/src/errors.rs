//! Failure kinds shared by every component.

use vstd::prelude::*;

verus! {

/// The class of a failure. The classes stay distinct inside the library even
/// where a transport later folds several of them into one response.
#[derive(Clone, Copy, Debug, PartialEq, Eq, Structural)]
pub enum ErrorKind {
    /// No user, email or token matched.
    NotFound,
    /// The secret did not match, or a token was refused.
    Unauthorized,
    /// The caller holds none of the grants a route asks for.
    Forbidden,
    /// The email or username is already taken.
    Conflict,
    /// A token or a password hash could not be produced.
    Internal,
}

/// A failure with its class and a fixed human-readable message.
#[derive(Clone, Copy, Debug, PartialEq, Eq)]
pub struct GenericError {
    pub kind: ErrorKind,
    pub message: &'static str,
}

impl GenericError {
    /// The value of [`GenericError::not_found`].
    pub open spec fn spec_not_found() -> GenericError {
        GenericError { kind: ErrorKind::NotFound, message: "Not found" }
    }

    /// The value of [`GenericError::invalid_credentials`].
    pub open spec fn spec_invalid_credentials() -> GenericError {
        GenericError { kind: ErrorKind::Unauthorized, message: "Invalid credentials" }
    }

    /// The value of [`GenericError::invalid_token`].
    pub open spec fn spec_invalid_token() -> GenericError {
        GenericError { kind: ErrorKind::Unauthorized, message: "Error validating token" }
    }

    /// The value of [`GenericError::forbidden`].
    pub open spec fn spec_forbidden() -> GenericError {
        GenericError { kind: ErrorKind::Forbidden, message: "Forbidden" }
    }

    /// The value of [`GenericError::already_exists`].
    pub open spec fn spec_already_exists() -> GenericError {
        GenericError { kind: ErrorKind::Conflict, message: "User already exists" }
    }

    /// The value of [`GenericError::token_not_issued`].
    pub open spec fn spec_token_not_issued() -> GenericError {
        GenericError { kind: ErrorKind::Internal, message: "Token could not be issued" }
    }

    /// The value of [`GenericError::password_not_hashed`].
    pub open spec fn spec_password_not_hashed() -> GenericError {
        GenericError { kind: ErrorKind::Internal, message: "Password could not be hashed" }
    }

    /// No user matched the email, username or token that was looked up.
    pub fn not_found() -> (e: GenericError)
        ensures
            e == GenericError::spec_not_found(),
    {
        GenericError { kind: ErrorKind::NotFound, message: "Not found" }
    }

    /// The password did not match the stored hash.
    pub fn invalid_credentials() -> (e: GenericError)
        ensures
            e == GenericError::spec_invalid_credentials(),
    {
        GenericError { kind: ErrorKind::Unauthorized, message: "Invalid credentials" }
    }

    /// A presented token was malformed, forged or expired.
    pub fn invalid_token() -> (e: GenericError)
        ensures
            e == GenericError::spec_invalid_token(),
    {
        GenericError { kind: ErrorKind::Unauthorized, message: "Error validating token" }
    }

    /// The caller's grants do not meet the route's requirement.
    pub fn forbidden() -> (e: GenericError)
        ensures
            e == GenericError::spec_forbidden(),
    {
        GenericError { kind: ErrorKind::Forbidden, message: "Forbidden" }
    }

    /// A user with the same email or username is already registered.
    pub fn already_exists() -> (e: GenericError)
        ensures
            e == GenericError::spec_already_exists(),
    {
        GenericError { kind: ErrorKind::Conflict, message: "User already exists" }
    }

    /// A token could not be issued.
    pub fn token_not_issued() -> (e: GenericError)
        ensures
            e == GenericError::spec_token_not_issued(),
    {
        GenericError { kind: ErrorKind::Internal, message: "Token could not be issued" }
    }

    /// A password could not be hashed.
    pub fn password_not_hashed() -> (e: GenericError)
        ensures
            e == GenericError::spec_password_not_hashed(),
    {
        GenericError { kind: ErrorKind::Internal, message: "Password could not be hashed" }
    }

    /// The message as an owned string.
    pub fn to_string(&self) -> (s: String)
        ensures
            s@ == self.message@,
    {
        self.message.to_owned()
    }
}

/// Why the token codec refused a token.
#[derive(Clone, Copy, Debug, PartialEq, Eq, Structural)]
pub enum InvalidToken {
    /// The token is malformed or its signature does not match the key.
    Untrusted,
    /// The signature matches but the expiry instant has passed.
    Expired,
}

} // verus!
