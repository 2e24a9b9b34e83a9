use vstd::prelude::*;

use crate::errors::RegistrationError;
use crate::forms::{
    registration_issues, FieldIssue, Identifier, IdentifierKind, RegistrationFormData,
};
use crate::password::{hash_password, hash_verifies, password_bytes, PasswordHashError};
use crate::records::CreateUser;
use crate::store::{after_user_created, identifier_taken, AuthStore, StoreView};

verus! {

/// What a successful registration did: the user got the next key, and the
/// store gained that user, with a hash that verifies the password, and the
/// record of its identifier, in one step.
pub open spec fn registered(
    old: StoreView,
    new: StoreView,
    name: Seq<char>,
    id: (IdentifierKind, Seq<char>),
    password: Seq<char>,
    now: i64,
    uid: u64,
) -> bool {
    &&& uid == old.next_id
    &&& old.next_id < u64::MAX
    &&& new == after_user_created(old, name, id, new.users.last().password_hash, now)
    &&& hash_verifies(password, new.users.last().password_hash)
}

fn check_identifier_unused(store: &AuthStore, identifier: &Identifier) -> (r: Result<
    (),
    RegistrationError,
>)
    ensures
        r is Ok <==> !identifier_taken(store@, identifier@),
        r is Err ==> (r matches Err(RegistrationError::NotUniqueError(f)) && f@
            == identifier@.0.spec_name()),
{
    match store.identifier_index(identifier) {
        Some(_) => Err(RegistrationError::NotUniqueError(identifier.kind().as_str().to_owned())),
        None => Ok(()),
    }
}

impl RegistrationFormData {
    /// Fails with `NotUniqueError`, naming the identifier's kind, when the
    /// identifier is already registered.
    pub fn validate_uniqueness(&self, store: &AuthStore) -> (r: Result<(), RegistrationError>)
        ensures
            r is Ok <==> !identifier_taken(store@, self.identifier@),
            r is Err ==> (r matches Err(RegistrationError::NotUniqueError(f)) && f@
                == self.identifier@.0.spec_name()),
    {
        check_identifier_unused(store, &self.identifier)
    }
}

/// The registration form as the registration page submits it.
#[derive(Clone, Debug)]
pub struct FormData {
    pub name: String,
    pub identifier: Identifier,
    pub password: String,
}

impl FormData {
    pub fn into_registration(self) -> (r: RegistrationFormData)
        ensures
            r.name@ == self.name@,
            r.identifier@ == self.identifier@,
            r.password@ == self.password@,
    {
        RegistrationFormData { name: self.name, identifier: self.identifier, password: self.password }
    }

    /// Same rules as `RegistrationFormData::validate`.
    pub fn validate(&self) -> (r: Result<(), Vec<FieldIssue>>)
        ensures
            r is Ok <==> registration_issues(
                self.name@,
                self.identifier@,
                self.password@,
            ).len() == 0,
            r matches Err(v) ==> v@ == registration_issues(
                self.name@,
                self.identifier@,
                self.password@,
            ),
    {
        let form = RegistrationFormData {
            name: self.name.clone(),
            identifier: self.identifier.duplicate(),
            password: self.password.clone(),
        };
        form.validate()
    }

    /// Fails with `NotUniqueError`, naming the identifier's kind, when the
    /// identifier is already registered.
    pub fn validate_uniqueness(&self, store: &AuthStore) -> (r: Result<(), RegistrationError>)
        ensures
            r is Ok <==> !identifier_taken(store@, self.identifier@),
            r is Err ==> (r matches Err(RegistrationError::NotUniqueError(f)) && f@
                == self.identifier@.0.spec_name()),
    {
        check_identifier_unused(store, &self.identifier)
    }
}

/// Registers a user: checks the form, checks that the identifier is new and
/// that a key is left, hashes the password, then creates the user and its identifier record in
/// one atomic step. Returns the new user's key. On every failure the store is
/// left as it was.
pub fn register_user(store: &mut AuthStore, form: RegistrationFormData, now: i64) -> (r: Result<
    u64,
    RegistrationError,
>)
    requires
        old(store).wf(),
    ensures
        final(store).wf(),
        r is Err ==> final(store)@ == old(store)@,
        form.spec_issues().len() > 0 ==> (r matches Err(RegistrationError::InvalidData(v)) && v@
            == form.spec_issues()),
        form.spec_issues().len() == 0 && identifier_taken(old(store)@, form.identifier@) ==> (r matches Err(
            RegistrationError::NotUniqueError(f),
        ) && f@ == form.identifier@.0.spec_name()),
        form.spec_issues().len() == 0 && !identifier_taken(old(store)@, form.identifier@)
            && old(store)@.next_id == u64::MAX ==> (r matches Err(
            RegistrationError::DatabaseError(_),
        )),
        form.spec_issues().len() == 0 && !identifier_taken(old(store)@, form.identifier@)
            && old(store)@.next_id < u64::MAX ==> (r is Ok || r matches Err(
            RegistrationError::PasswordHashError(_),
        )),
        form.spec_issues().len() == 0 && !identifier_taken(old(store)@, form.identifier@)
            && old(store)@.next_id < u64::MAX && password_bytes(form.password@).len()
            <= u32::MAX ==> r is Ok,
        r matches Ok(uid) ==> registered(
            old(store)@,
            final(store)@,
            form.name@,
            form.identifier@,
            form.password@,
            now,
            uid,
        ),
{
    match form.validate() {
        Ok(()) => {},
        Err(issues) => {
            return Err(RegistrationError::InvalidData(issues));
        },
    }
    match form.validate_uniqueness(store) {
        Ok(()) => {},
        Err(e) => {
            return Err(e);
        },
    }
    if !store.has_key_left() {
        return Err(RegistrationError::DatabaseError("no key left for a new user".to_owned()));
    }
    let hash = match hash_password(form.password.as_str()) {
        Ok(h) => h,
        Err(PasswordHashError(e)) => {
            return Err(RegistrationError::PasswordHashError(e));
        },
    };
    let ghost hash_view = hash@;
    let user = CreateUser { display_name: form.name, password_hash: hash };
    let r = store.create_user_with_identifier(user, form.identifier, now);
    proof {
        if r is Ok {
            assert(final(store)@.users.last().password_hash == hash_view);
        }
    }
    r
}

} // verus!
