use vstd::prelude::*;

use crate::forms::{Identifier, IdentifierKind};

verus! {

/// A user account. Only the self-describing password hash is kept, never
/// the password.
#[derive(Debug)]
pub struct User {
    pub id: u64,
    pub created_at: i64,
    pub display_name: String,
    pub password_hash: String,
    pub role: String,
    pub updated_at: i64,
}

pub struct UserView {
    pub id: u64,
    pub created_at: i64,
    pub display_name: Seq<char>,
    pub password_hash: Seq<char>,
    pub role: Seq<char>,
    pub updated_at: i64,
}

impl View for User {
    type V = UserView;

    open spec fn view(&self) -> UserView {
        UserView {
            id: self.id,
            created_at: self.created_at,
            display_name: self.display_name@,
            password_hash: self.password_hash@,
            role: self.role@,
            updated_at: self.updated_at,
        }
    }
}

impl User {
    pub fn duplicate(&self) -> (r: User)
        ensures
            r@ == self@,
    {
        User {
            id: self.id,
            created_at: self.created_at,
            display_name: self.display_name.clone(),
            password_hash: self.password_hash.clone(),
            role: self.role.clone(),
            updated_at: self.updated_at,
        }
    }
}

/// Binds an identifier to the user who signs in with it.
#[derive(Debug)]
pub struct UserIdentifier {
    pub identifier: Identifier,
    pub user_id: u64,
    pub created_at: i64,
    pub updated_at: i64,
}

pub struct UserIdentifierView {
    pub identifier: (IdentifierKind, Seq<char>),
    pub user_id: u64,
    pub created_at: i64,
    pub updated_at: i64,
}

impl View for UserIdentifier {
    type V = UserIdentifierView;

    open spec fn view(&self) -> UserIdentifierView {
        UserIdentifierView {
            identifier: self.identifier@,
            user_id: self.user_id,
            created_at: self.created_at,
            updated_at: self.updated_at,
        }
    }
}

/// A server-side session: the bearer token, its owner and its absolute
/// expiry, in seconds since the epoch.
#[derive(Debug)]
pub struct Session {
    pub id: u64,
    pub user_id: u64,
    pub session_token: String,
    pub expires_at: i64,
    pub created_at: i64,
}

pub struct SessionView {
    pub id: u64,
    pub user_id: u64,
    pub session_token: Seq<char>,
    pub expires_at: i64,
    pub created_at: i64,
}

impl View for Session {
    type V = SessionView;

    open spec fn view(&self) -> SessionView {
        SessionView {
            id: self.id,
            user_id: self.user_id,
            session_token: self.session_token@,
            expires_at: self.expires_at,
            created_at: self.created_at,
        }
    }
}

impl Session {
    pub fn duplicate(&self) -> (r: Session)
        ensures
            r@ == self@,
    {
        Session {
            id: self.id,
            user_id: self.user_id,
            session_token: self.session_token.clone(),
            expires_at: self.expires_at,
            created_at: self.created_at,
        }
    }
}

/// The fields of a user that are set when it is created.
#[derive(Debug)]
pub struct CreateUser {
    pub display_name: String,
    pub password_hash: String,
}

/// The fields of an identifier record that are set when it is created.
#[derive(Debug)]
pub struct CreateUserIdentifier {
    pub identifier: Identifier,
    pub user_id: u64,
}

/// The fields of a user that may change after creation.
#[derive(Debug)]
pub struct UpdateUser {
    pub display_name: Option<String>,
    pub role: Option<String>,
    pub updated_at: i64,
}

/// The fields of a session that are set when it is created.
#[derive(Debug)]
pub struct CreateSession {
    pub user_id: u64,
    pub session_token: String,
    pub expires_at: i64,
}

/// A merge update of a session: each field that is `Some` replaces the
/// stored one, the others stay.
#[derive(Debug)]
pub struct UpdateSession {
    pub session_token: Option<String>,
    pub expires_at: Option<i64>,
}

pub open spec fn merged_session(s: SessionView, u: UpdateSession) -> SessionView {
    SessionView {
        session_token: match u.session_token {
            Some(t) => t@,
            None => s.session_token,
        },
        expires_at: match u.expires_at {
            Some(e) => e,
            None => s.expires_at,
        },
        ..s
    }
}

impl Session {
    /// Applies a merge update in place.
    pub fn merge(&mut self, update: UpdateSession)
        ensures
            final(self)@ == merged_session(old(self)@, update),
    {
        match update.session_token {
            Some(t) => {
                self.session_token = t;
            },
            None => {},
        }
        match update.expires_at {
            Some(e) => {
                self.expires_at = e;
            },
            None => {},
        }
    }
}

} // verus!
