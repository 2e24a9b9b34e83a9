use argon2::password_hash::{PasswordHasher, PasswordVerifier, SaltString};
use argon2::Argon2;
use rand::rngs::OsRng;
use vstd::prelude::*;
use vstd::utf8::*;

use crate::errors::AuthError;

verus! {

#[verifier::external_type_specification]
#[verifier::external_body]
pub struct ExHashLibraryError(argon2::password_hash::Error);

/// Whether argon2's `PasswordHash::new` parses a string as a PHC hash string.
pub uninterp spec fn phc_parses(phc: Seq<char>) -> bool;

/// Whether argon2's `verify_password` (through `Argon2::default()`) accepts
/// these password bytes against this PHC hash string.
pub uninterp spec fn argon2_accepts(password: Seq<u8>, phc: Seq<char>) -> bool;

/// The bytes that are hashed for a password: its UTF-8 encoding.
pub open spec fn password_bytes(password: Seq<char>) -> Seq<u8> {
    encode_utf8(password)
}

/// A stored hash verifies a password: it is a well-formed self-describing
/// hash, and the digest recomputed from the password matches it.
pub open spec fn hash_verifies(password: Seq<char>, phc: Seq<char>) -> bool {
    phc_parses(phc) && argon2_accepts(password_bytes(password), phc)
}

/// Relies on password-hash's `SaltString::generate` with `OsRng`, which
/// always draws a 16-byte salt, and on argon2's
/// `PasswordHasher::hash_password` through `Argon2::default()`. With that salt
/// and the default parameters the only failure is a password over
/// `u32::MAX` bytes. The PHC string returned (algorithm, version, parameters,
/// salt and digest) parses again, and `verify_password` recomputes the same
/// digest from the same password with the salt and parameters it embeds.
#[verifier::external_body]
fn argon2_hash(password: &[u8]) -> (r: Result<String, argon2::password_hash::Error>)
    ensures
        password@.len() <= u32::MAX ==> r is Ok,
        r matches Ok(h) ==> phc_parses(h@) && argon2_accepts(password@, h@),
{
    let salt = SaltString::generate(&mut OsRng);
    match Argon2::default().hash_password(password, &salt) {
        Ok(hash) => Ok(hash.to_string()),
        Err(e) => Err(e),
    }
}

/// Relies on argon2's `PasswordHash::new`, which parses the stored PHC string,
/// and `PasswordVerifier::verify_password` through `Argon2::default()`, which
/// checks the password against it. The outer error is the parse failure.
#[verifier::external_body]
fn argon2_verify(password: &[u8], phc: &str) -> (r: Result<
    Result<(), argon2::password_hash::Error>,
    argon2::password_hash::Error,
>)
    ensures
        r is Ok <==> phc_parses(phc@),
        r matches Ok(v) ==> (v is Ok <==> argon2_accepts(password@, phc@)),
{
    match argon2::password_hash::PasswordHash::new(phc) {
        Ok(parsed) => Ok(Argon2::default().verify_password(password, &parsed)),
        Err(e) => Err(e),
    }
}

/// A failure of the hashing algorithm itself.
#[derive(Debug)]
pub struct PasswordHashError(pub argon2::password_hash::Error);

impl From<argon2::password_hash::Error> for PasswordHashError {
    fn from(err: argon2::password_hash::Error) -> (r: Self)
        ensures
            r == PasswordHashError(err),
    {
        PasswordHashError(err)
    }
}

impl vstd::std_specs::convert::FromSpecImpl<argon2::password_hash::Error> for PasswordHashError {
    open spec fn obeys_from_spec() -> bool {
        true
    }

    open spec fn from_spec(err: argon2::password_hash::Error) -> Self {
        PasswordHashError(err)
    }
}

/// Hashes a password with a fresh random salt, drawn for this call, into a self-describing hash
/// string, which then verifies that same password.
pub fn hash_password(password: &str) -> (r: Result<String, PasswordHashError>)
    ensures
        password_bytes(password@).len() <= u32::MAX ==> r is Ok,
        r matches Ok(h) ==> hash_verifies(password@, h@),
{
    let bytes = password.as_bytes();
    match argon2_hash(bytes) {
        Ok(h) => Ok(h),
        Err(e) => Err(PasswordHashError(e)),
    }
}

/// The three outcomes of checking a password against a stored hash.
#[derive(PartialEq, Eq, Structural, Clone, Copy, Debug)]
pub enum PasswordCheck {
    Match,
    Mismatch,
    MalformedHash,
}

pub open spec fn password_check(password: Seq<char>, phc: Seq<char>) -> PasswordCheck {
    if !phc_parses(phc) {
        PasswordCheck::MalformedHash
    } else if !argon2_accepts(password_bytes(password), phc) {
        PasswordCheck::Mismatch
    } else {
        PasswordCheck::Match
    }
}

/// Checks a password against a stored hash string. A hash string that does
/// not parse gives `PasswordHashError`, a password that does not match gives
/// `PasswordVerificationError`.
pub fn verify_password(password: &str, hash: &str) -> (r: Result<(), AuthError>)
    ensures
        match password_check(password@, hash@) {
            PasswordCheck::Match => r is Ok,
            PasswordCheck::Mismatch => r matches Err(AuthError::PasswordVerificationError(_)),
            PasswordCheck::MalformedHash => r matches Err(AuthError::PasswordHashError(_)),
        },
{
    let bytes = password.as_bytes();
    match argon2_verify(bytes, hash) {
        Ok(Ok(())) => Ok(()),
        Ok(Err(e)) => Err(AuthError::PasswordVerificationError(e)),
        Err(e) => Err(AuthError::PasswordHashError(e)),
    }
}

} // verus!
