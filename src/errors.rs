use vstd::prelude::*;

use crate::forms::FieldIssue;

verus! {

/// Failures of registration.
#[derive(Debug)]
pub enum RegistrationError {
    /// The form breaks the listed rules; the client can correct it.
    InvalidData(Vec<FieldIssue>),
    /// The store failed; nothing the client can correct.
    DatabaseError(String),
    /// The identifier is already registered; carries the field name.
    NotUniqueError(String),
    /// The hashing algorithm failed.
    PasswordHashError(argon2::password_hash::Error),
}

impl From<argon2::password_hash::Error> for RegistrationError {
    fn from(err: argon2::password_hash::Error) -> (r: Self)
        ensures
            r == RegistrationError::PasswordHashError(err),
    {
        RegistrationError::PasswordHashError(err)
    }
}

impl vstd::std_specs::convert::FromSpecImpl<argon2::password_hash::Error> for RegistrationError {
    open spec fn obeys_from_spec() -> bool {
        true
    }

    open spec fn from_spec(err: argon2::password_hash::Error) -> Self {
        RegistrationError::PasswordHashError(err)
    }
}

/// Failures of authentication. `UserNotFound` and
/// `PasswordVerificationError` must look the same to a client.
#[derive(Debug)]
pub enum AuthError {
    /// The stored hash string is malformed, or hashing failed.
    PasswordHashError(argon2::password_hash::Error),
    /// The password does not match the stored hash.
    PasswordVerificationError(argon2::password_hash::Error),
    UserNotFound,
}

/// Failures of the session manager.
#[derive(Debug)]
pub enum SessionError {
    /// The session exists but its expiry (seconds since the epoch) has passed.
    SessionExpired(i64),
    SessionNotFound,
    /// The token does not have the shape of a session token.
    InvalidToken,
    DatabaseError(String),
    /// The session points at a user that no longer exists.
    UserNotFound,
}

} // verus!
