//! In-memory session store for authenticated web-server sessions.
//!
//! Sessions are keyed by an opaque, randomly generated token (never a
//! predictable identifier) and expire a fixed time after creation. Time is
//! measured in nanoseconds on the store's own monotonic clock.

use vstd::prelude::*;
use vstd::hash_map::StringHashMap;
use std::time::Instant;
use crate::hex::{generate_token, is_hex_lower};

verus! {

#[verifier::external_type_specification]
#[verifier::external_body]
pub struct ExInstant(Instant);

/// A resolved, still-valid session.
#[derive(Debug, Clone, PartialEq, Eq)]
pub struct Session {
    pub user_id: i64,
    pub username: String,
}

/// What the store keeps per token.
#[derive(Debug)]
pub struct StoredSession {
    pub user_id: i64,
    pub username: String,
    /// Expiry on the store's clock, in nanoseconds since the store was made.
    pub expires_at: u128,
}

/// A stored session as plain values.
pub struct SessionRecord {
    pub user_id: i64,
    pub username: Seq<char>,
    pub expires_at: u128,
}

impl View for StoredSession {
    type V = SessionRecord;

    open spec fn view(&self) -> SessionRecord {
        SessionRecord { user_id: self.user_id, username: self.username@, expires_at: self.expires_at }
    }
}

/// The instant the store's clock counts from (`Instant::now`).
#[verifier::external_body]
fn clock_start() -> (r: Instant) {
    Instant::now()
}

/// Nanoseconds elapsed on the monotonic clock since `start`
/// (`Instant::elapsed`, then `Duration::as_nanos`); the reading is the
/// machine's.
#[verifier::external_body]
fn nanos_since(start: &Instant) -> (r: u128) {
    start.elapsed().as_nanos()
}

/// In-memory session store keyed by opaque token.
pub struct SessionStore {
    sessions: StringHashMap<StoredSession>,
    ttl: u128,
    start: Instant,
}

/// When a session created at `now` expires (the clock saturates rather than
/// wraps).
pub open spec fn expiry(now: u128, ttl: u128) -> u128 {
    if now + ttl <= u128::MAX {
        (now + ttl) as u128
    } else {
        u128::MAX
    }
}

/// The outcome of looking `token` up at time `now` in `m`: the session when
/// it is stored and has not expired, and the map afterwards (an expired
/// session is evicted).
pub open spec fn lookup(m: Map<Seq<char>, SessionRecord>, token: Seq<char>, now: u128) -> (
    Option<(i64, Seq<char>)>,
    Map<Seq<char>, SessionRecord>,
) {
    if m.contains_key(token) {
        if m[token].expires_at > now {
            (Some((m[token].user_id, m[token].username)), m)
        } else {
            (None, m.remove(token))
        }
    } else {
        (None, m)
    }
}

/// A session as plain values.
pub open spec fn session_view(s: Option<Session>) -> Option<(i64, Seq<char>)> {
    match s {
        Some(x) => Some((x.user_id, x.username@)),
        None => None,
    }
}

impl View for SessionStore {
    type V = Map<Seq<char>, SessionRecord>;

    closed spec fn view(&self) -> Map<Seq<char>, SessionRecord> {
        self.sessions@.map_values(|s: StoredSession| s@)
    }
}

impl SessionStore {
    /// The lifetime of a session, in nanoseconds.
    pub closed spec fn ttl(&self) -> u128 {
        self.ttl
    }

    /// An empty store whose sessions live for `ttl_nanos` nanoseconds
    /// after their creation.
    pub fn new(ttl_nanos: u128) -> (s: Self)
        ensures
            s@ == Map::<Seq<char>, SessionRecord>::empty(),
            s.ttl() == ttl_nanos,
    {
        let s = SessionStore { sessions: StringHashMap::new(), ttl: ttl_nanos, start: clock_start() };
        proof {
            assert(s@ =~= Map::<Seq<char>, SessionRecord>::empty());
        }
        s
    }

    /// Store a session for `user_id`/`username` under `token`, created at
    /// time `now`.
    pub fn insert_at(&mut self, token: String, user_id: i64, username: &str, now: u128)
        ensures
            final(self)@ == old(self)@.insert(
                token@,
                SessionRecord { user_id, username: username@, expires_at: expiry(now, old(self).ttl()) },
            ),
            final(self).ttl() == old(self).ttl(),
    {
        let expires_at = match now.checked_add(self.ttl) {
            Some(t) => t,
            None => u128::MAX,
        };
        let stored = StoredSession { user_id, username: username.to_owned(), expires_at };
        let ghost old_map = self.sessions@;
        self.sessions.insert(token, stored);
        proof {
            assert(self.sessions@.map_values(|s: StoredSession| s@) =~= old_map.map_values(
                |s: StoredSession| s@,
            ).insert(token@, stored@));
        }
    }

    /// Create a session and return its fresh token (64 lowercase hex
    /// digits). When the OS random source cannot supply a token, nothing is
    /// stored and its error comes back.
    pub fn create(&mut self, user_id: i64, username: &str) -> (token: Result<String, String>)
        ensures
            token matches Ok(t) ==> t@.len() == 64,
            token matches Ok(t) ==> forall|i: int|
                0 <= i < t@.len() ==> is_hex_lower(#[trigger] t@[i]),
            token matches Ok(t) ==> exists|now: u128|
                final(self)@ == old(self)@.insert(
                    t@,
                    SessionRecord {
                        user_id,
                        username: username@,
                        expires_at: expiry(now, old(self).ttl()),
                    },
                ),
            token is Err ==> final(self)@ == old(self)@,
            final(self).ttl() == old(self).ttl(),
    {
        let token = generate_token()?;
        let now = nanos_since(&self.start);
        let result = token.clone();
        self.insert_at(token, user_id, username, now);
        Ok(result)
    }

    /// Look `token` up at time `now`: the session when it exists and has
    /// not expired; an expired session is dropped.
    pub fn get_at(&mut self, token: &str, now: u128) -> (r: Option<Session>)
        ensures
            (session_view(r), final(self)@) == lookup(old(self)@, token@, now),
            final(self).ttl() == old(self).ttl(),
    {
        let ghost old_map = self.sessions@;
        let found = match self.sessions.get(token) {
            Some(s) => if s.expires_at > now {
                Some(Session { user_id: s.user_id, username: s.username.clone() })
            } else {
                None
            },
            None => return None,
        };
        if found.is_none() {
            self.sessions.remove(token);
            proof {
                assert(self.sessions@.map_values(|s: StoredSession| s@) =~= old_map.map_values(
                    |s: StoredSession| s@,
                ).remove(token@));
            }
        }
        found
    }

    /// Look `token` up now.
    pub fn get(&mut self, token: &str) -> (r: Option<Session>)
        ensures
            exists|now: u128| (session_view(r), final(self)@) == lookup(old(self)@, token@, now),
            final(self).ttl() == old(self).ttl(),
    {
        let now = nanos_since(&self.start);
        self.get_at(token, now)
    }

    /// Forget the session under `token`, if any.
    pub fn remove(&mut self, token: &str)
        ensures
            final(self)@ == old(self)@.remove(token@),
            final(self).ttl() == old(self).ttl(),
    {
        let ghost old_map = self.sessions@;
        self.sessions.remove(token);
        proof {
            assert(self.sessions@.map_values(|s: StoredSession| s@) =~= old_map.map_values(
                |s: StoredSession| s@,
            ).remove(token@));
        }
    }
}

/// A session read back before its expiry is exactly the one that was
/// stored under its token, and the store is left as it was.
pub proof fn stored_session_is_found(
    m: Map<Seq<char>, SessionRecord>,
    token: Seq<char>,
    rec: SessionRecord,
    now: u128,
)
    requires
        now < rec.expires_at,
    ensures
        lookup(m.insert(token, rec), token, now) == (
            Some((rec.user_id, rec.username)),
            m.insert(token, rec),
        ),
{
}

/// A session created at `now` with a positive lifetime is still valid at
/// `now`, so creating and then reading back at once yields it.
pub proof fn fresh_session_is_valid(now: u128, ttl: u128)
    requires
        ttl > 0,
        now < u128::MAX,
    ensures
        now < expiry(now, ttl),
{
}

/// After a token is removed, looking it up finds nothing and changes nothing.
pub proof fn removed_session_is_gone(m: Map<Seq<char>, SessionRecord>, token: Seq<char>, now: u128)
    ensures
        lookup(m.remove(token), token, now) == (
            None::<(i64, Seq<char>)>,
            m.remove(token),
        ),
{
}

/// A token the store never issued (or already forgot) resolves to nothing.
pub proof fn unknown_token_is_rejected(m: Map<Seq<char>, SessionRecord>, token: Seq<char>, now: u128)
    requires
        !m.contains_key(token),
    ensures
        lookup(m, token, now) == (None::<(i64, Seq<char>)>, m),
{
}

/// An expired session is refused and evicted; every other session is left
/// untouched by a lookup.
pub proof fn expired_session_is_evicted(
    m: Map<Seq<char>, SessionRecord>,
    token: Seq<char>,
    other: Seq<char>,
    now: u128,
)
    requires
        m.contains_key(token),
        m[token].expires_at <= now,
        other != token,
    ensures
        lookup(m, token, now).0 is None,
        lookup(m, token, now).1 == m.remove(token),
        lookup(m, token, now).1.contains_key(other) == m.contains_key(other),
        m.contains_key(other) ==> lookup(m, token, now).1[other] == m[other],
{
}

/// A session created at time `t` in a store whose lifetime is `ttl` is
/// found, exactly as created, at every time before `t + ttl`, and from then
/// on it is refused and evicted. (A lifetime that would run past the end of
/// the clock lasts until the clock's last reading.)
pub proof fn session_lives_its_lifetime(
    m: Map<Seq<char>, SessionRecord>,
    token: Seq<char>,
    user_id: i64,
    username: Seq<char>,
    t: u128,
    ttl: u128,
    now: u128,
)
    ensures
        ({
            let created = m.insert(
                token,
                SessionRecord { user_id, username, expires_at: expiry(t, ttl) },
            );
            &&& (now < t + ttl && now < u128::MAX) ==> lookup(created, token, now) == (
                Some((user_id, username)),
                created,
            )
            &&& now >= t + ttl ==> lookup(created, token, now) == (
                None::<(i64, Seq<char>)>,
                created.remove(token),
            )
        }),
{
}

} // verus!
