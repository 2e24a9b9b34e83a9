use vstd::prelude::*;

use crate::authentication::{login_outcome, LoginOutcome};
use crate::forms::IdentifierKind;
use crate::password::{
    argon2_accepts, hash_verifies, password_bytes, password_check, phc_parses, PasswordCheck,
};
use crate::registration::registered;
use crate::sessions::{
    expiry_extended, session_status, token_rotated, SessionStatus,
    SESSION_DURATION_SECS,
};
use crate::store::{
    after_session_created, find_identifier, find_session_by_token, find_session_of_user, find_user,
    identifier_taken,
    lemma_last_match_facts, token_other_than, with_sessions_kept, StoreView,
};
use crate::token::is_valid_session_token;

verus! {

/// After a successful registration, signing in with the same identifier and
/// password is accepted and yields the key that registration returned.
pub proof fn lemma_register_then_authenticate(
    old: StoreView,
    new: StoreView,
    name: Seq<char>,
    id: (IdentifierKind, Seq<char>),
    password: Seq<char>,
    now: i64,
    uid: u64,
)
    requires
        registered(old, new, name, id, password, now, uid),
    ensures
        login_outcome(new, id, password) == LoginOutcome::Accepted(uid),
{
}

/// After a successful registration the identifier counts as registered, so
/// a second registration of it is refused with the uniqueness error and
/// leaves the store as it was.
pub proof fn lemma_registered_identifier_taken(
    old: StoreView,
    new: StoreView,
    name: Seq<char>,
    id: (IdentifierKind, Seq<char>),
    password: Seq<char>,
    now: i64,
    uid: u64,
)
    requires
        registered(old, new, name, id, password, now, uid),
    ensures
        identifier_taken(new, id),
{
}

/// A hash made from a password verifies that password.
pub proof fn lemma_fresh_hash_verifies(password: Seq<char>, hash: Seq<char>)
    requires
        hash_verifies(password, hash),
    ensures
        password_check(password, hash) == PasswordCheck::Match,
{
}

/// Signing in with a password that the stored, well-formed hash does not
/// accept is refused as a wrong password, and never accepted.
pub proof fn lemma_wrong_password_refused(
    v: StoreView,
    id: (IdentifierKind, Seq<char>),
    password: Seq<char>,
)
    requires
        find_identifier(v, id) is Some,
        find_user(v, v.identifiers[find_identifier(v, id)->0].user_id) is Some,
        ({
            let h = v.users[find_user(v, v.identifiers[find_identifier(v, id)->0].user_id)->0].password_hash;
            phc_parses(h) && !argon2_accepts(password_bytes(password), h)
        }),
    ensures
        login_outcome(v, id, password) == LoginOutcome::WrongPassword,
{
}

/// A session created at `now` is active, for its owner, from `now` up to
/// one session duration later, and expired at any later time. The users are
/// untouched, so the owner resolves as before.
pub proof fn lemma_new_session_lifecycle(
    v: StoreView,
    uid: u64,
    token: Seq<char>,
    now: i64,
    at: i64,
)
    requires
        is_valid_session_token(token),
        now <= i64::MAX - SESSION_DURATION_SECS,
    ensures
        ({
            let created = after_session_created(
                v,
                uid,
                token,
                (now + SESSION_DURATION_SECS) as i64,
                now,
            );
            &&& session_status(created, token, now) == SessionStatus::Active(uid)
            &&& find_user(created, uid) == find_user(v, uid)
            &&& now <= at <= now + SESSION_DURATION_SECS ==> session_status(created, token, at)
                == SessionStatus::Active(uid)
            &&& at > now + SESSION_DURATION_SECS ==> session_status(created, token, at)
                == SessionStatus::Expired((now + SESSION_DURATION_SECS) as i64)
        }),
{
}

/// Rotating the token of a user's session changes its token and keeps its
/// expiry, owner and key.
pub proof fn lemma_rotation_keeps_expiry(old: StoreView, new: StoreView, uid: u64, t: Seq<char>)
    requires
        token_rotated(old, new, uid, t),
    ensures
        ({
            let i = find_session_of_user(old, uid)->0;
            &&& new.sessions[i].session_token == t
            &&& new.sessions[i].expires_at == old.sessions[i].expires_at
            &&& new.sessions[i].user_id == old.sessions[i].user_id
            &&& new.sessions[i].id == old.sessions[i].id
            &&& new.sessions.len() == old.sessions.len()
        }),
{
    lemma_last_match_facts(old.sessions, crate::store::owned_by(uid));
}

/// Extending a session adds one duration to its previous expiry, whatever
/// the present time.
pub proof fn lemma_extension_from_previous_expiry(old: StoreView, new: StoreView, uid: u64)
    requires
        expiry_extended(old, new, uid),
    ensures
        ({
            let i = find_session_of_user(old, uid)->0;
            &&& old.sessions[i].expires_at <= i64::MAX - SESSION_DURATION_SECS
                ==> new.sessions[i].expires_at == old.sessions[i].expires_at
                + SESSION_DURATION_SECS
            &&& new.sessions[i].session_token == old.sessions[i].session_token
            &&& new.sessions[i].user_id == old.sessions[i].user_id
        }),
{
    lemma_last_match_facts(old.sessions, crate::store::owned_by(uid));
}

proof fn lemma_filter_twice<A>(s: Seq<A>, p: spec_fn(A) -> bool)
    ensures
        s.filter(p).filter(p) == s.filter(p),
    decreases s.len(),
{
    reveal(Seq::filter);
    if s.len() > 0 {
        lemma_filter_twice(s.drop_last(), p);
        let f = s.drop_last().filter(p);
        if p(s.last()) {
            assert(f.push(s.last()).drop_last() =~= f);
        }
    }
}

/// Deleting a session by token twice leaves the store as deleting it once:
/// the second deletion finds nothing and changes nothing. Afterwards no
/// session has that token.
pub proof fn lemma_delete_session_idempotent(v: StoreView, token: Seq<char>)
    ensures
        ({
            let once = with_sessions_kept(v, token_other_than(token));
            &&& with_sessions_kept(once, token_other_than(token)) == once
            &&& find_session_by_token(once, token) is None
        }),
{
    let p = token_other_than(token);
    lemma_filter_twice(v.sessions, p);
    let once = with_sessions_kept(v, p);
    assert(with_sessions_kept(once, p) =~= once);
    v.sessions.filter_lemma(p);
    lemma_last_match_facts(once.sessions, crate::store::has_token(token));
    if find_session_by_token(once, token) is Some {
        let k = find_session_by_token(once, token)->0;
        assert(p(once.sessions[k]));
    }
}

} // verus!
