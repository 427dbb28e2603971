//! Login sessions: the in-memory cache in front of the `sessions` table, the
//! session ids, and the login status reported to the client.

use vstd::prelude::*;
use vstd::hash_map::StringHashMap;

verus! {

broadcast use {vstd::string::group_string_axioms, vstd::hash_map::group_hash_map_axioms};

/// The length of a session id.
pub const SESSION_ID_LEN: usize = 32;

/// Who a session belongs to.
#[derive(Debug)]
pub struct SessionData {
    pub user_id: i64,
    pub email: String,
    pub name: String,
}

/// A session, as plain values.
pub struct SessionView {
    pub user_id: int,
    pub email: Seq<char>,
    pub name: Seq<char>,
}

impl View for SessionData {
    type V = SessionView;

    open spec fn view(&self) -> SessionView {
        SessionView { user_id: self.user_id as int, email: self.email@, name: self.name@ }
    }
}

impl SessionData {
    /// A copy of this session.
    pub fn copied(&self) -> (r: SessionData)
        ensures
            r@ == self@,
    {
        SessionData { user_id: self.user_id, email: self.email.clone(), name: self.name.clone() }
    }
}

/// An ASCII letter or digit: the characters of a session id.
pub open spec fn is_alphanumeric(c: char) -> bool {
    ('A' <= c && c <= 'Z') || ('a' <= c && c <= 'z') || ('0' <= c && c <= '9')
}

/// `rand`'s `Alphanumeric` distribution, sampled `len` times from the thread
/// generator into a string. Claimed: the result has `len` characters, each an
/// ASCII letter or digit; which ones is chance and is not stated.
#[verifier::external_body]
pub(crate) fn random_alphanumeric(len: usize) -> (s: String)
    ensures
        s@.len() == len,
        forall|i: int| 0 <= i < s@.len() ==> is_alphanumeric(#[trigger] s@[i]),
{
    rand::distributions::DistString::sample_string(
        &rand::distributions::Alphanumeric,
        &mut rand::thread_rng(),
        len,
    )
}

/// A fresh session id: 32 random ASCII letters and digits.
pub fn new_session_id() -> (s: String)
    ensures
        s@.len() == SESSION_ID_LEN,
        forall|i: int| 0 <= i < s@.len() ==> is_alphanumeric(#[trigger] s@[i]),
{
    random_alphanumeric(SESSION_ID_LEN)
}

/// The in-memory cache of sessions, keyed by session id.
pub struct SessionCache {
    pub sessions: StringHashMap<SessionData>,
}

/// Looking up a session id in the cache contents.
pub open spec fn cache_get(m: Map<Seq<char>, SessionView>, sid: Seq<char>) -> Option<SessionView> {
    if m.contains_key(sid) {
        Some(m[sid])
    } else {
        None
    }
}

/// The cache after a session was looked up in the database: a hit is kept
/// in the cache, a miss changes nothing.
pub open spec fn cache_adopt(
    m: Map<Seq<char>, SessionView>,
    sid: Seq<char>,
    db: Option<SessionView>,
) -> Map<Seq<char>, SessionView> {
    match db {
        Some(s) => m.insert(sid, s),
        None => m,
    }
}

/// The cache after the session `sid` was renamed to `name`.
pub open spec fn cache_rename(m: Map<Seq<char>, SessionView>, sid: Seq<char>, name: Seq<char>) -> Map<
    Seq<char>,
    SessionView,
> {
    if m.contains_key(sid) {
        m.insert(sid, SessionView { name, ..m[sid] })
    } else {
        m
    }
}

impl View for SessionCache {
    type V = Map<Seq<char>, SessionView>;

    open spec fn view(&self) -> Map<Seq<char>, SessionView> {
        self.sessions@.map_values(|s: SessionData| s@)
    }
}

impl SessionCache {
    /// An empty cache.
    pub fn new() -> (c: SessionCache)
        ensures
            c@ == Map::<Seq<char>, SessionView>::empty(),
    {
        let c = SessionCache { sessions: StringHashMap::new() };
        assert(c@ =~= Map::<Seq<char>, SessionView>::empty());
        c
    }

    /// The cached session `sid`, if any (the first step of checking a
    /// session; on a miss the caller asks the database).
    pub fn lookup(&self, sid: &str) -> (r: Option<SessionData>)
        ensures
            match r {
                Some(s) => cache_get(self@, sid@) == Some(s@),
                None => cache_get(self@, sid@) is None,
            },
    {
        match self.sessions.get(sid) {
            Some(s) => Some(s.copied()),
            None => None,
        }
    }

    /// Finishes checking a session that the cache did not hold, given what
    /// the database returned for it: a session found there is put in the
    /// cache and returned.
    pub fn adopt(&mut self, sid: &str, db: Option<SessionData>) -> (r: Option<SessionData>)
        ensures
            final(self)@ == cache_adopt(old(self)@, sid@, match db {
                Some(s) => Some(s@),
                None => None,
            }),
            match (r, db) {
                (Some(a), Some(b)) => a@ == b@,
                (None, None) => true,
                _ => false,
            },
    {
        match db {
            Some(s) => {
                let copy = s.copied();
                let key = String::from_str(sid);
                let ghost old_m = self@;
                self.sessions.insert(key, s);
                assert(self@ =~= old_m.insert(sid@, copy@));
                Some(copy)
            },
            None => None,
        }
    }

    /// Checks the session `sid`: the cache first, then the database answer
    /// `db` that the caller fetched for it.
    pub fn verify(&mut self, sid: &str, db: Option<SessionData>) -> (r: Option<SessionData>)
        ensures
            match cache_get(old(self)@, sid@) {
                Some(s) => r matches Some(x) && x@ == s && final(self)@ == old(self)@,
                None => {
                    &&& final(self)@ == cache_adopt(old(self)@, sid@, match db {
                        Some(s) => Some(s@),
                        None => None,
                    })
                    &&& match (r, db) {
                        (Some(a), Some(b)) => a@ == b@,
                        (None, None) => true,
                        _ => false,
                    }
                },
            },
    {
        match self.lookup(sid) {
            Some(s) => Some(s),
            None => self.adopt(sid, db),
        }
    }

    /// Starts a session: it is stored in the cache under `sid`.
    pub fn insert(&mut self, sid: String, user_id: i64, email: String, name: String)
        ensures
            final(self)@ == old(self)@.insert(
                sid@,
                SessionView { user_id: user_id as int, email: email@, name: name@ },
            ),
    {
        let ghost old_m = self@;
        let ghost key = sid@;
        let s = SessionData { user_id, email, name };
        let ghost sv = s@;
        self.sessions.insert(sid, s);
        assert(self@ =~= old_m.insert(key, sv));
    }

    /// Ends the session `sid`.
    pub fn remove(&mut self, sid: &str)
        ensures
            final(self)@ == old(self)@.remove(sid@),
    {
        let ghost old_m = self@;
        self.sessions.remove(sid);
        assert(self@ =~= old_m.remove(sid@));
    }

    /// Gives the session `sid`, if cached, the new display name `name`.
    pub fn rename(&mut self, sid: &str, name: String)
        ensures
            final(self)@ == cache_rename(old(self)@, sid@, name@),
    {
        let ghost old_m = self@;
        match self.sessions.get(sid) {
            Some(s) => {
                let updated = SessionData { user_id: s.user_id, email: s.email.clone(), name };
                let ghost uv = updated@;
                self.sessions.insert(String::from_str(sid), updated);
                assert(self@ =~= old_m.insert(sid@, uv));
            },
            None => {},
        }
    }
}

/// Law: a session that was started can be read back at once, with what it
/// was started with; one that was ended is gone; renaming changes only the
/// name of that session and leaves the others as they were.
pub proof fn law_session_read_after_write(
    m: Map<Seq<char>, SessionView>,
    sid: Seq<char>,
    other: Seq<char>,
    s: SessionView,
    name: Seq<char>,
)
    requires
        sid != other,
    ensures
        cache_get(m.insert(sid, s), sid) == Some(s),
        cache_get(m.insert(sid, s), other) == cache_get(m, other),
        cache_get(m.remove(sid), sid) is None,
        cache_get(m.remove(sid), other) == cache_get(m, other),
        cache_get(m, sid) matches Some(old_s) ==> cache_get(cache_rename(m, sid, name), sid)
            == Some(SessionView { name, ..old_s }),
        cache_get(cache_rename(m, sid, name), other) == cache_get(m, other),
{
}

// ---------------------------------------------------------------------------
// The cache together with the `sessions` table
// ---------------------------------------------------------------------------

/// The sessions as the server holds them: the in-memory cache and the rows
/// of the `sessions` table (each row read with the user id that the join on
/// `users` gives it).
pub struct SessionStore {
    pub cache: Map<Seq<char>, SessionView>,
    pub table: Map<Seq<char>, SessionView>,
}

impl SessionStore {
    /// Every cached session is the one stored in the table.
    pub open spec fn coherent(self) -> bool {
        forall|sid: Seq<char>| #[trigger] self.cache.contains_key(sid) ==> self.table.contains_key(sid)
            && self.table[sid] == self.cache[sid]
    }

    /// Starting a session: it is put in the cache and stored as a row.
    pub open spec fn start(self, sid: Seq<char>, s: SessionView) -> SessionStore {
        SessionStore { cache: self.cache.insert(sid, s), table: self.table.insert(sid, s) }
    }

    /// Ending a session (logout): it leaves the cache and its row is deleted.
    pub open spec fn end(self, sid: Seq<char>) -> SessionStore {
        SessionStore { cache: self.cache.remove(sid), table: self.table.remove(sid) }
    }

    /// Renaming a session (a saved account name): in the cache and in its row.
    pub open spec fn rename(self, sid: Seq<char>, name: Seq<char>) -> SessionStore {
        SessionStore { cache: cache_rename(self.cache, sid, name), table: cache_rename(self.table, sid, name) }
    }

    /// A restart of the server: the cache is empty, the table stays.
    pub open spec fn restart(self) -> SessionStore {
        SessionStore { cache: Map::empty(), table: self.table }
    }

    /// Checking a session (`SessionCache::verify` with the row that the
    /// table gives for it): the cached one, else the stored one, which is
    /// then cached.
    pub open spec fn check(self, sid: Seq<char>) -> (SessionStore, Option<SessionView>) {
        match cache_get(self.cache, sid) {
            Some(s) => (self, Some(s)),
            None => {
                let db = cache_get(self.table, sid);
                (SessionStore { cache: cache_adopt(self.cache, sid, db), table: self.table }, db)
            },
        }
    }
}

/// Law: the cache and the table agree after every operation, so checking a
/// session answers what the table holds for it.
pub proof fn law_session_store_coherent(
    st: SessionStore,
    sid: Seq<char>,
    s: SessionView,
    name: Seq<char>,
)
    requires
        st.coherent(),
    ensures
        st.start(sid, s).coherent(),
        st.end(sid).coherent(),
        st.rename(sid, name).coherent(),
        st.restart().coherent(),
        st.check(sid).0.coherent(),
        st.check(sid).1 == cache_get(st.table, sid),
{
    assert forall|k: Seq<char>| #[trigger] st.rename(sid, name).cache.contains_key(k) implies st.rename(
        sid,
        name,
    ).table.contains_key(k) && st.rename(sid, name).table[k] == st.rename(sid, name).cache[k] by {
        if k != sid {
            assert(st.cache.contains_key(k));
        }
    }
    assert forall|k: Seq<char>| #[trigger] st.check(sid).0.cache.contains_key(k) implies st.check(
        sid,
    ).0.table.contains_key(k) && st.check(sid).0.table[k] == st.check(sid).0.cache[k] by {
        if k != sid {
            assert(st.cache.contains_key(k));
        }
    }
}

/// Law: a started session is found by a later check with what it was started
/// with, also after a restart (then it is cached again); after logout a check
/// finds nothing; other sessions are left as they were.
pub proof fn law_session_survives_restart_and_ends_at_logout(
    st: SessionStore,
    sid: Seq<char>,
    other: Seq<char>,
    s: SessionView,
)
    requires
        st.coherent(),
        sid != other,
    ensures
        st.start(sid, s).check(sid).1 == Some(s),
        st.start(sid, s).restart().check(sid).1 == Some(s),
        cache_get(st.start(sid, s).restart().check(sid).0.cache, sid) == Some(s),
        st.start(sid, s).end(sid).check(sid).1 is None,
        st.start(sid, s).end(sid).restart().check(sid).1 is None,
        st.start(sid, s).check(other).1 == st.check(other).1,
        st.end(sid).check(other).1 == st.check(other).1,
{
    law_session_store_coherent(st, sid, s, Seq::empty());
    law_session_store_coherent(st.start(sid, s), sid, s, Seq::empty());
    law_session_store_coherent(st.end(sid), other, s, Seq::empty());
    law_session_store_coherent(st.start(sid, s), other, s, Seq::empty());
    law_session_store_coherent(st, other, s, Seq::empty());
}

/// What the client is told about its login.
pub struct AuthStatus {
    pub logged_in: bool,
    pub email: String,
    pub name: String,
    pub verified: i32,
}

/// The display name reported for a session: the one stored for the user when
/// it is present and non-empty, else the session's.
pub open spec fn reported_name(session_name: Seq<char>, db_name: Option<Seq<char>>) -> Seq<char> {
    match db_name {
        Some(n) => if n.len() > 0 {
            n
        } else {
            session_name
        },
        None => session_name,
    }
}

/// The login status for a checked session and the user row read for it
/// (`name` and `verified`, when the read succeeded).
pub fn build_auth_status(session: Option<SessionData>, user_row: Option<(Option<String>, i32)>) -> (r:
    AuthStatus)
    ensures
        match session {
            None => !r.logged_in && r.email@.len() == 0 && r.name@.len() == 0 && r.verified == 0,
            Some(s) => {
                &&& r.logged_in
                &&& r.email@ == s.email@
                &&& r.name@ == match user_row {
                    Some((n, _)) => reported_name(s.name@, match n {
                        Some(x) => Some(x@),
                        None => None,
                    }),
                    None => s.name@,
                }
                &&& r.verified == match user_row {
                    Some((_, v)) => v,
                    None => 0,
                }
            },
        },
{
    match session {
        None => AuthStatus {
            logged_in: false,
            email: String::new(),
            name: String::new(),
            verified: 0,
        },
        Some(s) => {
            let mut name = s.name;
            let mut verified: i32 = 0;
            match user_row {
                Some((db_name, db_verified)) => {
                    match db_name {
                        Some(n) => {
                            if n.as_str().unicode_len() > 0 {
                                name = n;
                            }
                        },
                        None => {},
                    }
                    verified = db_verified;
                },
                None => {},
            }
            AuthStatus { logged_in: true, email: s.email, name, verified }
        },
    }
}

} // verus!
