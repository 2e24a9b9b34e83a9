use vstd::prelude::*;

use crate::errors::SessionError;
use crate::records::{CreateSession, SessionView, UpdateSession, User};
use crate::store::{
    after_session_created, find_session_by_token, find_session_of_user, find_user,
    token_other_than, unexpired_at, with_session, with_sessions_kept, AuthStore, StoreView,
};
use crate::token::{
    generate_token, is_url_safe_char, is_valid_session_token, validate_session_token,
};

verus! {

/// Made of the URL-safe base64 alphabet, as every generated token is.
pub open spec fn is_url_safe_token(t: Seq<char>) -> bool {
    forall|i: int| 0 <= i < t.len() ==> is_url_safe_char(#[trigger] t[i])
}

/// How long a session lasts, and how much each extension adds: one hour.
pub const SESSION_DURATION_SECS: i64 = 3600;

/// What a token designates on a store at a given time.
#[derive(PartialEq, Eq, Structural, Clone, Copy, Debug)]
pub enum SessionStatus {
    /// Rejected by the shape guard; the store is not consulted.
    Malformed,
    /// No session has this token.
    Unknown,
    /// The session has expired at the given time.
    Expired(i64),
    /// The session is active; carries its owner's key.
    Active(u64),
}

/// Active means present and `now <= expires_at`; expired means
/// `now > expires_at`.
pub open spec fn session_status(v: StoreView, token: Seq<char>, now: i64) -> SessionStatus {
    if !is_valid_session_token(token) {
        SessionStatus::Malformed
    } else {
        match find_session_by_token(v, token) {
            None => SessionStatus::Unknown,
            Some(i) => if now > v.sessions[i].expires_at {
                SessionStatus::Expired(v.sessions[i].expires_at)
            } else {
                SessionStatus::Active(v.sessions[i].user_id)
            },
        }
    }
}

/// An expiry pushed one session duration further, held at the largest
/// timestamp.
pub open spec fn extended_expiry(e: i64) -> i64 {
    if e <= i64::MAX - SESSION_DURATION_SECS {
        (e + SESSION_DURATION_SECS) as i64
    } else {
        i64::MAX
    }
}

/// The user's latest session now carries token `t`; nothing else changed.
pub open spec fn token_rotated(old: StoreView, new: StoreView, uid: u64, t: Seq<char>) -> bool {
    match find_session_of_user(old, uid) {
        Some(i) => new == with_session(
            old,
            i,
            SessionView { session_token: t, ..old.sessions[i] },
        ),
        None => false,
    }
}

/// The user's latest session now expires one duration after its previous
/// expiry; nothing else changed.
pub open spec fn expiry_extended(old: StoreView, new: StoreView, uid: u64) -> bool {
    match find_session_of_user(old, uid) {
        Some(i) => new == with_session(
            old,
            i,
            SessionView { expires_at: extended_expiry(old.sessions[i].expires_at), ..old.sessions[i] },
        ),
        None => false,
    }
}

/// Both of the above, in one update.
pub open spec fn token_rotated_and_expiry_extended(
    old: StoreView,
    new: StoreView,
    uid: u64,
    t: Seq<char>,
) -> bool {
    match find_session_of_user(old, uid) {
        Some(i) => new == with_session(
            old,
            i,
            SessionView {
                session_token: t,
                expires_at: extended_expiry(old.sessions[i].expires_at),
                ..old.sessions[i]
            },
        ),
        None => false,
    }
}

fn extend(e: i64) -> (r: i64)
    ensures
        r == extended_expiry(e),
{
    if e <= i64::MAX - SESSION_DURATION_SECS {
        e + SESSION_DURATION_SECS
    } else {
        i64::MAX
    }
}

/// Issues a session for a user: a fresh token that expires one duration
/// after `now`. Returns the token.
pub fn create_session(store: &mut AuthStore, user_id: u64, now: i64) -> (r: Result<
    String,
    SessionError,
>)
    requires
        old(store).wf(),
        now <= i64::MAX - SESSION_DURATION_SECS,
    ensures
        final(store).wf(),
        old(store)@.next_id == u64::MAX ==> (r matches Err(SessionError::DatabaseError(_))
            && final(store)@ == old(store)@),
        old(store)@.next_id < u64::MAX ==> (r matches Ok(t) && is_valid_session_token(t@)
            && is_url_safe_token(t@) && final(store)@ == after_session_created(
            old(store)@,
            user_id,
            t@,
            (now + SESSION_DURATION_SECS) as i64,
            now,
        )),
{
    let session_token = generate_token();
    let ghost token_view = session_token@;
    let expires_at = now + SESSION_DURATION_SECS;
    let session = CreateSession { user_id, session_token: session_token.clone(), expires_at };
    match store.create_session_record(session, now) {
        Ok(_) => Ok(session_token),
        Err(e) => Err(e),
    }
}

/// Resolves a session token to its user: the token's shape first, then the
/// session, then its expiry, then its owner.
pub fn get_user_by_session(store: &AuthStore, session_token: &str, now: i64) -> (r: Result<
    User,
    SessionError,
>)
    ensures
        match session_status(store@, session_token@, now) {
            SessionStatus::Malformed => r matches Err(SessionError::InvalidToken),
            SessionStatus::Unknown => r matches Err(SessionError::SessionNotFound),
            SessionStatus::Expired(e) => r matches Err(SessionError::SessionExpired(x)) && x == e,
            SessionStatus::Active(uid) => match find_user(store@, uid) {
                Some(j) => r matches Ok(u) && u@ == store@.users[j],
                None => r matches Err(SessionError::UserNotFound),
            },
        },
{
    match validate_session_token(session_token) {
        Ok(()) => {},
        Err(e) => {
            return Err(e);
        },
    }
    let t = session_token.to_owned();
    let i = match store.session_index_by_token(&t) {
        Some(i) => i,
        None => {
            return Err(SessionError::SessionNotFound);
        },
    };
    let session = store.session_at(i);
    if now > session.expires_at {
        return Err(SessionError::SessionExpired(session.expires_at));
    }
    match store.user_by_id(session.user_id) {
        Some(user) => Ok(user),
        None => Err(SessionError::UserNotFound),
    }
}

/// Deletes the sessions with this token. A token that designates no session
/// is no error; only a malformed one is refused.
pub fn delete_session(store: &mut AuthStore, session_token: &str) -> (r: Result<(), SessionError>)
    requires
        old(store).wf(),
    ensures
        final(store).wf(),
        !is_valid_session_token(session_token@) ==> (r matches Err(SessionError::InvalidToken)
            && final(store)@ == old(store)@),
        is_valid_session_token(session_token@) ==> (r is Ok && final(store)@ == with_sessions_kept(
            old(store)@,
            token_other_than(session_token@),
        )),
{
    match validate_session_token(session_token) {
        Ok(()) => {},
        Err(e) => {
            return Err(e);
        },
    }
    store.delete_sessions_with_token(session_token);
    Ok(())
}

/// Gives the user's latest session a fresh token; its expiry stays.
pub fn update_session_token(store: &mut AuthStore, user_id: u64) -> (r: Result<String, SessionError>)
    requires
        old(store).wf(),
    ensures
        final(store).wf(),
        find_session_of_user(old(store)@, user_id) is None ==> (r matches Err(
            SessionError::SessionNotFound,
        ) && final(store)@ == old(store)@),
        find_session_of_user(old(store)@, user_id) is Some ==> (r matches Ok(t)
            && is_valid_session_token(t@) && token_rotated(old(store)@, final(store)@, user_id, t@)),
{
    let i = match store.session_index_of_user(user_id) {
        Some(i) => i,
        None => {
            return Err(SessionError::SessionNotFound);
        },
    };
    let new_session_token = generate_token();
    let update = UpdateSession { session_token: Some(new_session_token.clone()), expires_at: None };
    store.merge_session(i, update);
    proof {
        let old_s = old(store)@.sessions[i as int];
        assert(final(store)@ == with_session(
            old(store)@,
            i as int,
            SessionView { session_token: new_session_token@, ..old_s },
        ));
    }
    Ok(new_session_token)
}

/// Pushes the expiry of the user's latest session one duration past its
/// current expiry (not past the present time).
pub fn update_session_expiry(store: &mut AuthStore, user_id: u64) -> (r: Result<(), SessionError>)
    requires
        old(store).wf(),
    ensures
        final(store).wf(),
        find_session_of_user(old(store)@, user_id) is None ==> (r matches Err(
            SessionError::SessionNotFound,
        ) && final(store)@ == old(store)@),
        find_session_of_user(old(store)@, user_id) is Some ==> (r is Ok && expiry_extended(
            old(store)@,
            final(store)@,
            user_id,
        )),
{
    let i = match store.session_index_of_user(user_id) {
        Some(i) => i,
        None => {
            return Err(SessionError::SessionNotFound);
        },
    };
    let new_expires_at = extend(store.session_at(i).expires_at);
    let update = UpdateSession { session_token: None, expires_at: Some(new_expires_at) };
    store.merge_session(i, update);
    proof {
        let old_s = old(store)@.sessions[i as int];
        assert(final(store)@ == with_session(
            old(store)@,
            i as int,
            SessionView { expires_at: extended_expiry(old_s.expires_at), ..old_s },
        ));
    }
    Ok(())
}

/// Gives the user's latest session a fresh token and pushes its expiry one
/// duration past its current expiry, in one update.
pub fn update_session_expiry_and_token(store: &mut AuthStore, user_id: u64) -> (r: Result<
    String,
    SessionError,
>)
    requires
        old(store).wf(),
    ensures
        final(store).wf(),
        find_session_of_user(old(store)@, user_id) is None ==> (r matches Err(
            SessionError::SessionNotFound,
        ) && final(store)@ == old(store)@),
        find_session_of_user(old(store)@, user_id) is Some ==> (r matches Ok(t)
            && is_valid_session_token(t@) && token_rotated_and_expiry_extended(
            old(store)@,
            final(store)@,
            user_id,
            t@,
        )),
{
    let i = match store.session_index_of_user(user_id) {
        Some(i) => i,
        None => {
            return Err(SessionError::SessionNotFound);
        },
    };
    let new_expires_at = extend(store.session_at(i).expires_at);
    let new_session_token = generate_token();
    let update = UpdateSession {
        session_token: Some(new_session_token.clone()),
        expires_at: Some(new_expires_at),
    };
    store.merge_session(i, update);
    proof {
        let old_s = old(store)@.sessions[i as int];
        assert(final(store)@ == with_session(
            old(store)@,
            i as int,
            SessionView {
                session_token: new_session_token@,
                expires_at: extended_expiry(old_s.expires_at),
                ..old_s
            },
        ));
    }
    Ok(new_session_token)
}

/// Deletes every session that has expired at `now`.
pub fn cleanup_expired_sessions(store: &mut AuthStore, now: i64) -> (r: Result<(), SessionError>)
    requires
        old(store).wf(),
    ensures
        final(store).wf(),
        r is Ok,
        final(store)@ == with_sessions_kept(old(store)@, unexpired_at(now)),
{
    store.delete_sessions_expired_at(now);
    Ok(())
}

} // verus!
