use vstd::prelude::*;

use vstd::pervasive::VecAdditionalExecFns;

use crate::errors::{RegistrationError, SessionError};
use crate::forms::{Identifier, IdentifierKind};
use crate::records::{
    merged_session, CreateSession, CreateUser, Session, SessionView, UpdateSession, User,
    UserIdentifier, UserIdentifierView, UserView,
};

verus! {

/// Last index of `s` whose element satisfies `p`.
pub open spec fn last_match<T>(s: Seq<T>, p: spec_fn(T) -> bool) -> Option<int>
    decreases s.len(),
{
    if s.len() == 0 {
        None
    } else if p(s.last()) {
        Some(s.len() - 1)
    } else {
        last_match(s.drop_last(), p)
    }
}

proof fn lemma_last_match_step<T>(s: Seq<T>, p: spec_fn(T) -> bool, i: int)
    requires
        0 < i <= s.len(),
    ensures
        last_match(s.take(i), p) == if p(s[i - 1]) {
            Some(i - 1)
        } else {
            last_match(s.take(i - 1), p)
        },
{
    assert(s.take(i).drop_last() =~= s.take(i - 1));
}

proof fn lemma_last_match_whole<T>(s: Seq<T>, p: spec_fn(T) -> bool)
    ensures
        last_match(s.take(s.len() as int), p) == last_match(s, p),
        last_match(s.take(0), p) is None,
{
    assert(s.take(s.len() as int) =~= s);
}

/// What `last_match` finds: a match after which nothing matches, or no
/// match at all.
pub proof fn lemma_last_match_facts<T>(s: Seq<T>, p: spec_fn(T) -> bool)
    ensures
        last_match(s, p) matches Some(k) ==> 0 <= k < s.len() && p(s[k]) && forall|j: int|
            k < j < s.len() ==> !p(#[trigger] s[j]),
        last_match(s, p) is None ==> forall|j: int| 0 <= j < s.len() ==> !p(#[trigger] s[j]),
    decreases s.len(),
{
    if s.len() > 0 {
        lemma_last_match_facts(s.drop_last(), p);
        assert forall|j: int| 0 <= j < s.len() - 1 implies s.drop_last()[j] == s[j] by {}
    }
}

pub open spec fn has_identifier(id: (IdentifierKind, Seq<char>)) -> spec_fn(UserIdentifierView) -> bool {
    |r: UserIdentifierView| r.identifier == id
}

pub open spec fn has_user_id(uid: u64) -> spec_fn(UserView) -> bool {
    |u: UserView| u.id == uid
}

pub open spec fn has_token(token: Seq<char>) -> spec_fn(SessionView) -> bool {
    |s: SessionView| s.session_token == token
}

pub open spec fn owned_by(uid: u64) -> spec_fn(SessionView) -> bool {
    |s: SessionView| s.user_id == uid
}

/// The contents of an identity store.
pub struct StoreView {
    pub users: Seq<UserView>,
    pub identifiers: Seq<UserIdentifierView>,
    pub sessions: Seq<SessionView>,
    /// The key that the next created record receives.
    pub next_id: u64,
}

/// The record of an identifier; the latest one if, against the invariant,
/// there were several.
pub open spec fn find_identifier(v: StoreView, id: (IdentifierKind, Seq<char>)) -> Option<int> {
    last_match(v.identifiers, has_identifier(id))
}

pub open spec fn identifier_taken(v: StoreView, id: (IdentifierKind, Seq<char>)) -> bool {
    find_identifier(v, id) is Some
}

pub open spec fn find_user(v: StoreView, uid: u64) -> Option<int> {
    last_match(v.users, has_user_id(uid))
}

/// The most recently created session with this token.
pub open spec fn find_session_by_token(v: StoreView, token: Seq<char>) -> Option<int> {
    last_match(v.sessions, has_token(token))
}

/// The most recently created session of this user.
pub open spec fn find_session_of_user(v: StoreView, uid: u64) -> Option<int> {
    last_match(v.sessions, owned_by(uid))
}

pub open spec fn user_exists(users: Seq<UserView>, uid: u64) -> bool {
    exists|j: int| 0 <= j < users.len() && #[trigger] users[j].id == uid
}

/// The store's invariant: keys below `next_id` and distinct, each
/// identifier registered once, and no identifier without its user.
pub open spec fn well_formed(v: StoreView) -> bool {
    &&& forall|i: int| 0 <= i < v.users.len() ==> #[trigger] v.users[i].id < v.next_id
    &&& forall|i: int| 0 <= i < v.sessions.len() ==> #[trigger] v.sessions[i].id < v.next_id
    &&& forall|i: int, j: int|
        0 <= i < j < v.users.len() ==> #[trigger] v.users[i].id != #[trigger] v.users[j].id
    &&& forall|i: int, j: int|
        0 <= i < j < v.identifiers.len() ==> #[trigger] v.identifiers[i].identifier
            != #[trigger] v.identifiers[j].identifier
    &&& forall|i: int|
        0 <= i < v.identifiers.len() ==> user_exists(v.users, #[trigger] v.identifiers[i].user_id)
}

/// The role that a new user gets.
pub open spec fn default_role() -> Seq<char> {
    "user"@
}

/// The store after one atomic creation of a user and of the record of its
/// identifier, both stamped `now`; the user gets the next key.
pub open spec fn after_user_created(
    v: StoreView,
    name: Seq<char>,
    id: (IdentifierKind, Seq<char>),
    hash: Seq<char>,
    now: i64,
) -> StoreView {
    StoreView {
        users: v.users.push(
            UserView {
                id: v.next_id,
                created_at: now,
                display_name: name,
                password_hash: hash,
                role: default_role(),
                updated_at: now,
            },
        ),
        identifiers: v.identifiers.push(
            UserIdentifierView { identifier: id, user_id: v.next_id, created_at: now, updated_at: now },
        ),
        sessions: v.sessions,
        next_id: (v.next_id + 1) as u64,
    }
}

/// The store after a new session is created; it gets the next key.
pub open spec fn after_session_created(
    v: StoreView,
    uid: u64,
    token: Seq<char>,
    expires_at: i64,
    now: i64,
) -> StoreView {
    StoreView {
        sessions: v.sessions.push(
            SessionView {
                id: v.next_id,
                user_id: uid,
                session_token: token,
                expires_at,
                created_at: now,
            },
        ),
        next_id: (v.next_id + 1) as u64,
        ..v
    }
}

/// The store with the session at index `i` replaced.
pub open spec fn with_session(v: StoreView, i: int, s: SessionView) -> StoreView {
    StoreView { sessions: v.sessions.update(i, s), ..v }
}

/// The store keeping only the sessions that satisfy `keep`.
pub open spec fn with_sessions_kept(v: StoreView, keep: spec_fn(SessionView) -> bool) -> StoreView {
    StoreView { sessions: v.sessions.filter(keep), ..v }
}

pub open spec fn token_other_than(token: Seq<char>) -> spec_fn(SessionView) -> bool {
    |s: SessionView| s.session_token != token
}

/// Sessions that have not expired at `now`: expired means `now > expires_at`.
pub open spec fn unexpired_at(now: i64) -> spec_fn(SessionView) -> bool {
    |s: SessionView| !(now > s.expires_at)
}

pub proof fn lemma_user_created_well_formed(
    v: StoreView,
    name: Seq<char>,
    id: (IdentifierKind, Seq<char>),
    hash: Seq<char>,
    now: i64,
)
    requires
        well_formed(v),
        !identifier_taken(v, id),
        v.next_id < u64::MAX,
    ensures
        well_formed(after_user_created(v, name, id, hash, now)),
{
    let nv = after_user_created(v, name, id, hash, now);
    lemma_last_match_facts(v.identifiers, has_identifier(id));
    assert forall|i: int| 0 <= i < nv.identifiers.len() implies user_exists(
        nv.users,
        #[trigger] nv.identifiers[i].user_id,
    ) by {
        if i < v.identifiers.len() {
            let j = choose|j: int| 0 <= j < v.users.len() && #[trigger] v.users[j].id == v.identifiers[i].user_id;
            assert(nv.users[j] == v.users[j]);
        } else {
            assert(nv.users[v.users.len() as int].id == v.next_id);
        }
    }
    assert forall|i: int, j: int| 0 <= i < j < nv.identifiers.len() implies #[trigger] nv.identifiers[i].identifier
        != #[trigger] nv.identifiers[j].identifier by {
        if j == v.identifiers.len() {
            assert(!has_identifier(id)(v.identifiers[i]));
        }
    }
}

pub proof fn lemma_session_created_well_formed(
    v: StoreView,
    uid: u64,
    token: Seq<char>,
    expires_at: i64,
    now: i64,
)
    requires
        well_formed(v),
        v.next_id < u64::MAX,
    ensures
        well_formed(after_session_created(v, uid, token, expires_at, now)),
{
    let nv = after_session_created(v, uid, token, expires_at, now);
    assert forall|i: int| 0 <= i < nv.identifiers.len() implies user_exists(
        nv.users,
        #[trigger] nv.identifiers[i].user_id,
    ) by {
        assert(user_exists(v.users, v.identifiers[i].user_id));
    }
}

pub proof fn lemma_session_replaced_well_formed(v: StoreView, i: int, s: SessionView)
    requires
        well_formed(v),
        0 <= i < v.sessions.len(),
        s.id == v.sessions[i].id,
    ensures
        well_formed(with_session(v, i, s)),
{
    let nv = with_session(v, i, s);
    assert forall|k: int| 0 <= k < nv.identifiers.len() implies user_exists(
        nv.users,
        #[trigger] nv.identifiers[k].user_id,
    ) by {
        assert(user_exists(v.users, v.identifiers[k].user_id));
    }
}

pub proof fn lemma_sessions_kept_well_formed(v: StoreView, keep: spec_fn(SessionView) -> bool)
    requires
        well_formed(v),
    ensures
        well_formed(with_sessions_kept(v, keep)),
{
    let nv = with_sessions_kept(v, keep);
    assert forall|i: int| 0 <= i < nv.sessions.len() implies #[trigger] nv.sessions[i].id
        < nv.next_id by {
        assert(nv.sessions.contains(nv.sessions[i]));
        v.sessions.lemma_filter_contains_rev(keep, nv.sessions[i]);
    }
    assert forall|k: int| 0 <= k < nv.identifiers.len() implies user_exists(
        nv.users,
        #[trigger] nv.identifiers[k].user_id,
    ) by {
        assert(user_exists(v.users, v.identifiers[k].user_id));
    }
}

/// An in-memory identity store: users, the identifiers they sign in with,
/// and their sessions. Creating a user together with its identifier is one
/// atomic step, and the store refuses a second record of an identifier.
pub struct AuthStore {
    users: Vec<User>,
    identifiers: Vec<UserIdentifier>,
    sessions: Vec<Session>,
    next_id: u64,
}

impl View for AuthStore {
    type V = StoreView;

    closed spec fn view(&self) -> StoreView {
        StoreView {
            users: self.users@.map_values(|u: User| u@),
            identifiers: self.identifiers@.map_values(|r: UserIdentifier| r@),
            sessions: self.sessions@.map_values(|s: Session| s@),
            next_id: self.next_id,
        }
    }
}

impl AuthStore {
    pub closed spec fn wf(&self) -> bool {
        well_formed(self@)
    }

    /// An empty store.
    pub fn new() -> (r: AuthStore)
        ensures
            r.wf(),
            r@.users.len() == 0,
            r@.identifiers.len() == 0,
            r@.sessions.len() == 0,
            r@.next_id == 1,
    {
        let r = AuthStore {
            users: Vec::new(),
            identifiers: Vec::new(),
            sessions: Vec::new(),
            next_id: 1,
        };
        assert(r@.users =~= Seq::<UserView>::empty());
        assert(r@.identifiers =~= Seq::<UserIdentifierView>::empty());
        assert(r@.sessions =~= Seq::<SessionView>::empty());
        r
    }

    /// Whether a key is left for one more record.
    pub fn has_key_left(&self) -> (r: bool)
        ensures
            r == (self@.next_id < u64::MAX),
    {
        self.next_id < u64::MAX
    }

    pub fn user_count(&self) -> (r: usize)
        ensures
            r == self@.users.len(),
    {
        self.users.len()
    }

    pub fn identifier_count(&self) -> (r: usize)
        ensures
            r == self@.identifiers.len(),
    {
        self.identifiers.len()
    }

    pub fn session_count(&self) -> (r: usize)
        ensures
            r == self@.sessions.len(),
    {
        self.sessions.len()
    }

    /// Point lookup of the record of an identifier.
    pub fn identifier_index(&self, id: &Identifier) -> (r: Option<usize>)
        ensures
            match r {
                Some(i) => find_identifier(self@, id@) == Some(i as int) && i < self@.identifiers.len(),
                None => find_identifier(self@, id@) is None,
            },
    {
        let ghost v = self@.identifiers;
        let ghost p = has_identifier(id@);
        proof {
            lemma_last_match_whole(v, p);
        }
        let mut i: usize = self.identifiers.len();
        while i > 0
            invariant
                v == self@.identifiers,
                p == has_identifier(id@),
                i <= v.len(),
                last_match(v, p) == last_match(v.take(i as int), p),
            decreases i,
        {
            proof {
                lemma_last_match_step(v, p, i as int);
            }
            if self.identifiers[i - 1].identifier.same_as(id) {
                return Some(i - 1);
            }
            i = i - 1;
        }
        None
    }

    /// Point lookup of a user by key.
    pub fn user_index(&self, uid: u64) -> (r: Option<usize>)
        ensures
            match r {
                Some(i) => find_user(self@, uid) == Some(i as int) && i < self@.users.len(),
                None => find_user(self@, uid) is None,
            },
    {
        let ghost v = self@.users;
        let ghost p = has_user_id(uid);
        proof {
            lemma_last_match_whole(v, p);
        }
        let mut i: usize = self.users.len();
        while i > 0
            invariant
                v == self@.users,
                p == has_user_id(uid),
                i <= v.len(),
                last_match(v, p) == last_match(v.take(i as int), p),
            decreases i,
        {
            proof {
                lemma_last_match_step(v, p, i as int);
            }
            if self.users[i - 1].id == uid {
                return Some(i - 1);
            }
            i = i - 1;
        }
        None
    }

    /// Point lookup of the most recent session with a token.
    pub fn session_index_by_token(&self, token: &String) -> (r: Option<usize>)
        ensures
            match r {
                Some(i) => find_session_by_token(self@, token@) == Some(i as int) && i < self@.sessions.len(),
                None => find_session_by_token(self@, token@) is None,
            },
    {
        let ghost v = self@.sessions;
        let ghost p = has_token(token@);
        proof {
            lemma_last_match_whole(v, p);
        }
        let mut i: usize = self.sessions.len();
        while i > 0
            invariant
                v == self@.sessions,
                p == has_token(token@),
                i <= v.len(),
                last_match(v, p) == last_match(v.take(i as int), p),
            decreases i,
        {
            proof {
                lemma_last_match_step(v, p, i as int);
            }
            if self.sessions[i - 1].session_token == *token {
                return Some(i - 1);
            }
            i = i - 1;
        }
        None
    }

    /// Point lookup of the most recent session of a user.
    pub fn session_index_of_user(&self, uid: u64) -> (r: Option<usize>)
        ensures
            match r {
                Some(i) => find_session_of_user(self@, uid) == Some(i as int) && i < self@.sessions.len(),
                None => find_session_of_user(self@, uid) is None,
            },
    {
        let ghost v = self@.sessions;
        let ghost p = owned_by(uid);
        proof {
            lemma_last_match_whole(v, p);
        }
        let mut i: usize = self.sessions.len();
        while i > 0
            invariant
                v == self@.sessions,
                p == owned_by(uid),
                i <= v.len(),
                last_match(v, p) == last_match(v.take(i as int), p),
            decreases i,
        {
            proof {
                lemma_last_match_step(v, p, i as int);
            }
            if self.sessions[i - 1].user_id == uid {
                return Some(i - 1);
            }
            i = i - 1;
        }
        None
    }

    /// The user with this key, if any.
    pub fn user_by_id(&self, uid: u64) -> (r: Option<User>)
        ensures
            match find_user(self@, uid) {
                Some(i) => r matches Some(u) && u@ == self@.users[i],
                None => r is None,
            },
    {
        match self.user_index(uid) {
            Some(i) => Some(self.users[i].duplicate()),
            None => None,
        }
    }

    /// The most recent session with this token, if any; no shape check.
    pub fn session_by_token(&self, token: &str) -> (r: Option<Session>)
        ensures
            match find_session_by_token(self@, token@) {
                Some(i) => r matches Some(s) && s@ == self@.sessions[i],
                None => r is None,
            },
    {
        let t = token.to_owned();
        match self.session_index_by_token(&t) {
            Some(i) => Some(self.sessions[i].duplicate()),
            None => None,
        }
    }
}

impl AuthStore {
    pub fn user_at(&self, i: usize) -> (r: &User)
        requires
            i < self@.users.len(),
        ensures
            r@ == self@.users[i as int],
    {
        &self.users[i]
    }

    /// The key of the user that the identifier record at index `i` belongs to.
    pub fn identifiers_user(&self, i: usize) -> (r: u64)
        requires
            i < self@.identifiers.len(),
        ensures
            r == self@.identifiers[i as int].user_id,
    {
        self.identifiers[i].user_id
    }

    pub fn session_at(&self, i: usize) -> (r: &Session)
        requires
            i < self@.sessions.len(),
        ensures
            r@ == self@.sessions[i as int],
    {
        &self.sessions[i]
    }

    /// Creates a user and the record of its identifier in one atomic step:
    /// both are stored, or on any failure neither. The store itself refuses
    /// an identifier that is already registered.
    pub fn create_user_with_identifier(
        &mut self,
        user: CreateUser,
        identifier: Identifier,
        now: i64,
    ) -> (r: Result<u64, RegistrationError>)
        requires
            old(self).wf(),
        ensures
            final(self).wf(),
            r is Err ==> final(self)@ == old(self)@,
            identifier_taken(old(self)@, identifier@) ==> (r matches Err(
                RegistrationError::NotUniqueError(f),
            ) && f@ == identifier@.0.spec_name()),
            !identifier_taken(old(self)@, identifier@) && old(self)@.next_id == u64::MAX ==> (r matches Err(
                RegistrationError::DatabaseError(_),
            )),
            !identifier_taken(old(self)@, identifier@) && old(self)@.next_id < u64::MAX ==> (r
                == Ok::<u64, RegistrationError>(old(self)@.next_id) && final(self)@
                == after_user_created(
                old(self)@,
                user.display_name@,
                identifier@,
                user.password_hash@,
                now,
            )),
    {
        if self.identifier_index(&identifier).is_some() {
            return Err(RegistrationError::NotUniqueError(identifier.kind().as_str().to_owned()));
        }
        if self.next_id == u64::MAX {
            return Err(RegistrationError::DatabaseError("no key left for a new user".to_owned()));
        }
        let ghost old_v = self@;
        let ghost id_view = identifier@;
        let uid = self.next_id;
        let role = "user".to_owned();
        proof {
            reveal_strlit("user");
        }
        self.users.push(
            User {
                id: uid,
                created_at: now,
                display_name: user.display_name,
                password_hash: user.password_hash,
                role,
                updated_at: now,
            },
        );
        self.identifiers.push(
            UserIdentifier { identifier, user_id: uid, created_at: now, updated_at: now },
        );
        self.next_id = uid + 1;
        proof {
            let target = after_user_created(old_v, user.display_name@, id_view, user.password_hash@, now);
            assert(self@.users =~= target.users);
            assert(self@.identifiers =~= target.identifiers);
            assert(self@.sessions =~= target.sessions);
            lemma_user_created_well_formed(old_v, user.display_name@, id_view, user.password_hash@, now);
        }
        Ok(uid)
    }

    /// Creates a session record; it gets the next key, which is returned.
    pub fn create_session_record(&mut self, session: CreateSession, now: i64) -> (r: Result<
        u64,
        SessionError,
    >)
        requires
            old(self).wf(),
        ensures
            final(self).wf(),
            old(self)@.next_id == u64::MAX ==> (r matches Err(SessionError::DatabaseError(_))
                && final(self)@ == old(self)@),
            old(self)@.next_id < u64::MAX ==> (r == Ok::<u64, SessionError>(old(self)@.next_id)
                && final(self)@ == after_session_created(
                old(self)@,
                session.user_id,
                session.session_token@,
                session.expires_at,
                now,
            )),
    {
        if self.next_id == u64::MAX {
            return Err(SessionError::DatabaseError("no key left for a new session".to_owned()));
        }
        let ghost old_v = self@;
        let ghost token = session.session_token@;
        let sid = self.next_id;
        self.sessions.push(
            Session {
                id: sid,
                user_id: session.user_id,
                session_token: session.session_token,
                expires_at: session.expires_at,
                created_at: now,
            },
        );
        self.next_id = sid + 1;
        proof {
            let target = after_session_created(old_v, session.user_id, token, session.expires_at, now);
            assert(self@.users =~= target.users);
            assert(self@.identifiers =~= target.identifiers);
            assert(self@.sessions =~= target.sessions);
            lemma_session_created_well_formed(old_v, session.user_id, token, session.expires_at, now);
        }
        Ok(sid)
    }

    /// Merges an update into the session at index `i`, in place.
    pub fn merge_session(&mut self, i: usize, update: UpdateSession)
        requires
            old(self).wf(),
            i < old(self)@.sessions.len(),
        ensures
            final(self).wf(),
            final(self)@ == with_session(
                old(self)@,
                i as int,
                merged_session(old(self)@.sessions[i as int], update),
            ),
    {
        let ghost old_v = self@;
        let ghost u = update;
        let mut s = self.sessions[i].duplicate();
        s.merge(update);
        self.sessions.set(i, s);
        proof {
            let target = with_session(old_v, i as int, merged_session(old_v.sessions[i as int], u));
            assert(self@.sessions =~= target.sessions);
            assert(self@.users =~= target.users);
            assert(self@.identifiers =~= target.identifiers);
            lemma_session_replaced_well_formed(old_v, i as int, target.sessions[i as int]);
        }
    }

    /// Deletes every session with this token; none is no error.
    pub fn delete_sessions_with_token(&mut self, token: &str)
        requires
            old(self).wf(),
        ensures
            final(self).wf(),
            final(self)@ == with_sessions_kept(old(self)@, token_other_than(token@)),
    {
        let ghost old_v = self@;
        let ghost p = token_other_than(token@);
        let t = token.to_owned();
        let mut kept: Vec<Session> = Vec::new();
        let mut i: usize = 0;
        while i < self.sessions.len()
            invariant
                self@ == old_v,
                p == token_other_than(token@),
                t@ == token@,
                i <= self@.sessions.len(),
                kept@.map_values(|s: Session| s@) == old_v.sessions.take(i as int).filter(p),
            decreases self@.sessions.len() - i,
        {
            proof {
                reveal(Seq::filter);
                assert(old_v.sessions.take(i + 1).drop_last() =~= old_v.sessions.take(i as int));
            }
            let ghost before = kept@;
            if self.sessions[i].session_token != t {
                kept.push(self.sessions[i].duplicate());
                assert(kept@.map_values(|s: Session| s@) =~= before.map_values(|s: Session| s@).push(
                    old_v.sessions[i as int],
                ));
            }
            i = i + 1;
        }
        proof {
            assert(old_v.sessions.take(old_v.sessions.len() as int) =~= old_v.sessions);
        }
        self.sessions = kept;
        proof {
            let target = with_sessions_kept(old_v, p);
            assert(self@.sessions =~= target.sessions);
            assert(self@.users =~= target.users);
            assert(self@.identifiers =~= target.identifiers);
            lemma_sessions_kept_well_formed(old_v, p);
        }
    }

    /// Deletes every session that has expired at `now`.
    pub fn delete_sessions_expired_at(&mut self, now: i64)
        requires
            old(self).wf(),
        ensures
            final(self).wf(),
            final(self)@ == with_sessions_kept(old(self)@, unexpired_at(now)),
    {
        let ghost old_v = self@;
        let ghost p = unexpired_at(now);
        let mut kept: Vec<Session> = Vec::new();
        let mut i: usize = 0;
        while i < self.sessions.len()
            invariant
                self@ == old_v,
                p == unexpired_at(now),
                i <= self@.sessions.len(),
                kept@.map_values(|s: Session| s@) == old_v.sessions.take(i as int).filter(p),
            decreases self@.sessions.len() - i,
        {
            proof {
                reveal(Seq::filter);
                assert(old_v.sessions.take(i + 1).drop_last() =~= old_v.sessions.take(i as int));
            }
            let ghost before = kept@;
            if !(now > self.sessions[i].expires_at) {
                kept.push(self.sessions[i].duplicate());
                assert(kept@.map_values(|s: Session| s@) =~= before.map_values(|s: Session| s@).push(
                    old_v.sessions[i as int],
                ));
            }
            i = i + 1;
        }
        proof {
            assert(old_v.sessions.take(old_v.sessions.len() as int) =~= old_v.sessions);
        }
        self.sessions = kept;
        proof {
            let target = with_sessions_kept(old_v, p);
            assert(self@.sessions =~= target.sessions);
            assert(self@.users =~= target.users);
            assert(self@.identifiers =~= target.identifiers);
            lemma_sessions_kept_well_formed(old_v, p);
        }
    }
}

} // verus!
