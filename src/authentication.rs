use vstd::prelude::*;

use crate::errors::AuthError;
use crate::forms::{IdentifierKind, LoginFormData};
use crate::password::{password_check, verify_password, PasswordCheck};
use crate::store::{find_identifier, find_user, AuthStore, StoreView};

verus! {

/// The outcomes of a login attempt.
#[derive(PartialEq, Eq, Structural, Clone, Copy, Debug)]
pub enum LoginOutcome {
    /// The password matches; carries the user's key.
    Accepted(u64),
    /// No record of the identifier, or no user behind it.
    UnknownUser,
    /// The stored hash string is malformed.
    MalformedHash,
    WrongPassword,
}

/// What signing in with an identifier and a password gives on a store.
pub open spec fn login_outcome(v: StoreView, id: (IdentifierKind, Seq<char>), password: Seq<char>) -> LoginOutcome {
    match find_identifier(v, id) {
        None => LoginOutcome::UnknownUser,
        Some(i) => match find_user(v, v.identifiers[i].user_id) {
            None => LoginOutcome::UnknownUser,
            Some(j) => match password_check(password, v.users[j].password_hash) {
                PasswordCheck::MalformedHash => LoginOutcome::MalformedHash,
                PasswordCheck::Mismatch => LoginOutcome::WrongPassword,
                PasswordCheck::Match => LoginOutcome::Accepted(v.users[j].id),
            },
        },
    }
}

pub open spec fn agrees_with_login(r: Result<u64, AuthError>, o: LoginOutcome) -> bool {
    match o {
        LoginOutcome::Accepted(uid) => r == Ok::<u64, AuthError>(uid),
        LoginOutcome::UnknownUser => r matches Err(AuthError::UserNotFound),
        LoginOutcome::MalformedHash => r matches Err(AuthError::PasswordHashError(_)),
        LoginOutcome::WrongPassword => r matches Err(AuthError::PasswordVerificationError(_)),
    }
}

/// Looks up the identifier's record, then its user, then verifies the
/// password against the stored hash; returns the user's key.
pub fn authenticate(store: &AuthStore, form: LoginFormData) -> (r: Result<u64, AuthError>)
    ensures
        agrees_with_login(r, login_outcome(store@, form.identifier@, form.password@)),
{
    let i = match store.identifier_index(&form.identifier) {
        Some(i) => i,
        None => {
            return Err(AuthError::UserNotFound);
        },
    };
    let user_id = store.identifiers_user(i);
    let j = match store.user_index(user_id) {
        Some(j) => j,
        None => {
            return Err(AuthError::UserNotFound);
        },
    };
    let user = store.user_at(j);
    match verify_password(form.password.as_str(), user.password_hash.as_str()) {
        Ok(()) => Ok(user.id),
        Err(e) => Err(e),
    }
}

} // verus!
