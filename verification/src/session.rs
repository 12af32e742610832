//! The session layer: a cookie-referenced server-side session with the
//! payload the service reads, and a store with the lifecycle the handlers
//! rely on — load, save, regeneration, expiry cleanup.
//!
//! Deployments may keep sessions in memory, in the SQL database or in Redis;
//! the store here realizes the lifecycle contract they all share. Backend
//! selection from the configuration is verified below as well.

use vstd::prelude::*;

use crate::config::SessionSettings;
use crate::config::SessionStorage;
use crate::db::DatabaseBackend;

verus! {

/// The payload the service keeps in a session.
pub struct SessionData {
    /// The single-use CSRF token issued by the last `GET /`.
    pub authenticity_token: Option<String>,
    /// The CAPTCHA solution the client must echo, when one was issued.
    pub captcha_solution: Option<String>,
    /// Whether a login has succeeded on this session.
    pub logged_in: bool,
}

impl SessionData {
    /// A payload with nothing in it.
    pub fn empty() -> (r: SessionData)
        ensures
            r.authenticity_token is None,
            r.captcha_solution is None,
            !r.logged_in,
    {
        SessionData { authenticity_token: None, captcha_solution: None, logged_in: false }
    }

    /// An exact copy.
    pub fn duplicate(&self) -> (r: SessionData)
        ensures
            r == *self,
    {
        SessionData {
            authenticity_token: clone_opt_string(&self.authenticity_token),
            captcha_solution: clone_opt_string(&self.captcha_solution),
            logged_in: self.logged_in,
        }
    }
}

/// Copy an optional string, value for value.
fn clone_opt_string(o: &Option<String>) -> (r: Option<String>)
    ensures
        r == *o,
{
    match o {
        Some(s) => Some(s.clone()),
        None => None,
    }
}

/// A session as a handler sees it: the identifier the cookie carries, the
/// payload, and an absolute expiry in seconds, when one is set.
pub struct Session {
    pub id: u64,
    pub data: SessionData,
    pub expiry: Option<u64>,
}

/// Whether a session is still live at second `now`.
pub open spec fn session_live(s: Session, now: u64) -> bool {
    match s.expiry {
        Some(t) => now < t,
        None => true,
    }
}

impl Session {
    /// An exact copy.
    pub fn duplicate(&self) -> (r: Session)
        ensures
            r == *self,
    {
        Session { id: self.id, data: self.data.duplicate(), expiry: self.expiry }
    }

    /// Take the CSRF token out: hand it back and leave none stored, so a
    /// token can never be checked twice.
    pub fn take_authenticity_token(&mut self) -> (r: Option<String>)
        ensures
            r == old(self).data.authenticity_token,
            final(self).data.authenticity_token is None,
            final(self).data.captcha_solution == old(self).data.captcha_solution,
            final(self).data.logged_in == old(self).data.logged_in,
            final(self).id == old(self).id,
            final(self).expiry == old(self).expiry,
    {
        let r = clone_opt_string(&self.data.authenticity_token);
        self.data.authenticity_token = None;
        r
    }

    /// Take the stored CAPTCHA solution out, in the same single-use way.
    pub fn take_captcha_solution(&mut self) -> (r: Option<String>)
        ensures
            r == old(self).data.captcha_solution,
            final(self).data.captcha_solution is None,
            final(self).data.authenticity_token == old(self).data.authenticity_token,
            final(self).data.logged_in == old(self).data.logged_in,
            final(self).id == old(self).id,
            final(self).expiry == old(self).expiry,
    {
        let r = clone_opt_string(&self.data.captcha_solution);
        self.data.captcha_solution = None;
        r
    }

    /// Store a fresh CSRF token.
    pub fn set_authenticity_token(&mut self, token: String)
        ensures
            final(self).data.authenticity_token == Some(token),
            final(self).data.captcha_solution == old(self).data.captcha_solution,
            final(self).data.logged_in == old(self).data.logged_in,
            final(self).id == old(self).id,
            final(self).expiry == old(self).expiry,
    {
        self.data.authenticity_token = Some(token);
    }

    /// Discard any stored CAPTCHA solution, without looking at it.
    pub fn clear_captcha_solution(&mut self)
        ensures
            final(self).data.captcha_solution is None,
            final(self).data.authenticity_token == old(self).data.authenticity_token,
            final(self).data.logged_in == old(self).data.logged_in,
            final(self).id == old(self).id,
            final(self).expiry == old(self).expiry,
    {
        self.data.captcha_solution = None;
    }

    /// Store a CAPTCHA solution the client must echo.
    pub fn set_captcha_solution(&mut self, solution: String)
        ensures
            final(self).data.captcha_solution == Some(solution),
            final(self).data.authenticity_token == old(self).data.authenticity_token,
            final(self).data.logged_in == old(self).data.logged_in,
            final(self).id == old(self).id,
            final(self).expiry == old(self).expiry,
    {
        self.data.captcha_solution = Some(solution);
    }

    /// Record whether this session is logged in.
    pub fn set_logged_in(&mut self, logged_in: bool)
        ensures
            final(self).data.logged_in == logged_in,
            final(self).data.authenticity_token == old(self).data.authenticity_token,
            final(self).data.captcha_solution == old(self).data.captcha_solution,
            final(self).id == old(self).id,
            final(self).expiry == old(self).expiry,
    {
        self.data.logged_in = logged_in;
    }

    /// Push the expiry `ttl_seconds` past `now`, saturating at the top of
    /// the clock.
    pub fn expire_in(&mut self, now: u64, ttl_seconds: u64)
        ensures
            final(self).expiry == Some(spec_saturating_add_u64(now as int, ttl_seconds as int)),
            final(self).data == old(self).data,
            final(self).id == old(self).id,
    {
        let t = if now <= u64::MAX - ttl_seconds {
            now + ttl_seconds
        } else {
            u64::MAX
        };
        self.expiry = Some(t);
    }
}

/// Addition on the clock, capped at `u64::MAX`.
pub open spec fn spec_saturating_add_u64(a: int, b: int) -> u64 {
    if a + b > u64::MAX {
        u64::MAX as u64
    } else {
        (a + b) as u64
    }
}

/// First-match lookup of a session id.
pub open spec fn lookup_session(sessions: Seq<Session>, id: u64) -> Option<Session>
    decreases sessions.len(),
{
    if sessions.len() == 0 {
        None
    } else if sessions[0].id == id {
        Some(sessions[0])
    } else {
        lookup_session(sessions.drop_first(), id)
    }
}

/// Whether the store holds a session under `id`.
pub open spec fn has_session(sessions: Seq<Session>, id: u64) -> bool {
    lookup_session(sessions, id) is Some
}

/// The sessions still live at second `now`.
pub open spec fn live_sessions(sessions: Seq<Session>, now: u64) -> Seq<Session>
    decreases sessions.len(),
{
    if sessions.len() == 0 {
        Seq::empty()
    } else if session_live(sessions.last(), now) {
        live_sessions(sessions.drop_last(), now).push(sessions.last())
    } else {
        live_sessions(sessions.drop_last(), now)
    }
}

/// If no stored session carries `id`, no index does.
pub proof fn lemma_lookup_session_none(sessions: Seq<Session>, id: u64)
    requires
        lookup_session(sessions, id) is None,
    ensures
        forall|i: int| 0 <= i < sessions.len() ==> sessions[i].id != id,
    decreases sessions.len(),
{
    if sessions.len() > 0 {
        lemma_lookup_session_none(sessions.drop_first(), id);
        assert forall|i: int| 0 <= i < sessions.len() implies sessions[i].id != id by {
            if i > 0 {
                assert(sessions.drop_first()[i - 1] == sessions[i]);
            }
        }
    }
}

/// A lookup among sessions that all carry other identifiers finds nothing.
pub proof fn lemma_lookup_session_absent(sessions: Seq<Session>, id: u64)
    requires
        forall|i: int| 0 <= i < sessions.len() ==> #[trigger] sessions[i].id != id,
    ensures
        lookup_session(sessions, id) is None,
    decreases sessions.len(),
{
    if sessions.len() > 0 {
        assert(forall|i: int|
            0 <= i < sessions.drop_first().len() ==> #[trigger] sessions.drop_first()[i]
                == sessions[i + 1]);
        lemma_lookup_session_absent(sessions.drop_first(), id);
    }
}

/// With unique ids, a stored session carrying the looked-up id is the one
/// the lookup finds.
pub proof fn lemma_lookup_session_unique(sessions: Seq<Session>, id: u64, i: int)
    requires
        SessionStore::ids_unique(sessions),
        0 <= i < sessions.len(),
        sessions[i].id == id,
    ensures
        lookup_session(sessions, id) == Some(sessions[i]),
    decreases sessions.len(),
{
    if i == 0 {
    } else {
        assert(sessions[0].id != id);
        assert(sessions.drop_first()[i - 1] == sessions[i]);
        assert(SessionStore::ids_unique(sessions.drop_first())) by {
            assert forall|p: int, q: int|
                0 <= p < q < sessions.drop_first().len() implies sessions.drop_first()[p].id
                != sessions.drop_first()[q].id by {
                assert(sessions.drop_first()[p] == sessions[p + 1]);
                assert(sessions.drop_first()[q] == sessions[q + 1]);
            }
        }
        lemma_lookup_session_unique(sessions.drop_first(), id, i - 1);
    }
}

/// Every session a cleanup keeps sat somewhere in the store before it.
pub proof fn lemma_live_sessions_contained(sessions: Seq<Session>, now: u64)
    ensures
        forall|i: int|
            #![trigger live_sessions(sessions, now)[i]]
            0 <= i < live_sessions(sessions, now).len() ==> exists|j: int|
                0 <= j < sessions.len() && sessions[j] == live_sessions(sessions, now)[i],
    decreases sessions.len(),
{
    if sessions.len() > 0 {
        lemma_live_sessions_contained(sessions.drop_last(), now);
        let kept = live_sessions(sessions, now);
        let prev = live_sessions(sessions.drop_last(), now);
        assert forall|i: int| #![trigger kept[i]] 0 <= i < kept.len() implies exists|j: int|
            0 <= j < sessions.len() && #[trigger] sessions[j] == kept[i] by {
            if i < prev.len() {
                assert(prev[i] == kept[i]);
                let j = choose|j: int|
                    0 <= j < sessions.drop_last().len() && sessions.drop_last()[j] == prev[i];
                assert(sessions[j] == kept[i]);
            } else {
                assert(sessions[sessions.len() - 1] == kept[i]);
            }
        }
    }
}

/// Cleanup keeps identifiers unique.
pub proof fn lemma_live_sessions_unique(sessions: Seq<Session>, now: u64)
    requires
        SessionStore::ids_unique(sessions),
    ensures
        SessionStore::ids_unique(live_sessions(sessions, now)),
    decreases sessions.len(),
{
    if sessions.len() > 0 {
        let head = sessions.drop_last();
        assert(SessionStore::ids_unique(head));
        lemma_live_sessions_unique(head, now);
        lemma_live_sessions_contained(head, now);
        let prev = live_sessions(head, now);
        let kept = live_sessions(sessions, now);
        if session_live(sessions.last(), now) {
            assert forall|p: int, q: int| 0 <= p < q < kept.len() implies kept[p].id
                != kept[q].id by {
                if q < prev.len() {
                    assert(kept[p] == prev[p] && kept[q] == prev[q]);
                } else {
                    assert(kept[q] == sessions.last());
                    assert(kept[p] == prev[p]);
                    let j = choose|j: int| 0 <= j < head.len() && head[j] == prev[p];
                    assert(sessions[j] == prev[p]);
                    assert(sessions[j].id != sessions[sessions.len() - 1].id);
                }
            }
        }
    }
}

/// Cleanup keeps every identifier below a bound it was below before.
pub proof fn lemma_live_sessions_bounded(sessions: Seq<Session>, now: u64, bound: u64)
    requires
        forall|i: int| 0 <= i < sessions.len() ==> #[trigger] sessions[i].id < bound,
    ensures
        forall|i: int|
            0 <= i < live_sessions(sessions, now).len() ==> #[trigger] live_sessions(
                sessions,
                now,
            )[i].id < bound,
    decreases sessions.len(),
{
    if sessions.len() > 0 {
        let head = sessions.drop_last();
        assert(forall|i: int| 0 <= i < head.len() ==> #[trigger] head[i].id < bound);
        lemma_live_sessions_bounded(head, now, bound);
    }
}

/// The stored, still-live session a cookie refers to, if there is one.
pub open spec fn spec_load_hit(st0: SessionStore, cookie: Option<u64>, now: u64) -> Option<
    Session,
> {
    match cookie {
        Some(id) => match lookup_session(st0.sessions(), id) {
            Some(s) => if session_live(s, now) {
                Some(s)
            } else {
                None
            },
            None => None,
        },
        None => None,
    }
}

/// What `load` hands out: the live session the cookie refers to, or a fresh
/// one under the next identifier, with an empty payload and no expiry.
pub open spec fn spec_loaded_session(st0: SessionStore, cookie: Option<u64>, now: u64) -> Session {
    match spec_load_hit(st0, cookie, now) {
        Some(s) => s,
        None => Session {
            id: st0.next_id(),
            data: SessionData { authenticity_token: None, captcha_solution: None, logged_in: false },
            expiry: None,
        },
    }
}

/// The server-side session store.
pub struct SessionStore {
    sessions: Vec<Session>,
    next_id: u64,
}

impl SessionStore {
    /// The stored sessions, in insertion order.
    pub closed spec fn sessions(self) -> Seq<Session> {
        self.sessions@
    }

    /// The next identifier this store will mint.
    pub closed spec fn next_id(self) -> u64 {
        self.next_id
    }

    /// No two stored sessions share an identifier.
    pub open spec fn ids_unique(sessions: Seq<Session>) -> bool {
        forall|i: int, j: int| 0 <= i < j < sessions.len() ==> sessions[i].id != sessions[j].id
    }

    /// Identifiers are unique and below the mint counter.
    pub open spec fn wf(self) -> bool {
        &&& Self::ids_unique(self.sessions())
        &&& forall|i: int|
            0 <= i < self.sessions().len() ==> #[trigger] self.sessions()[i].id < self.next_id()
    }

    /// Whether this store handed `s` its identifier.
    pub open spec fn owns(self, s: Session) -> bool {
        s.id < self.next_id()
    }

    /// Whether a fresh identifier can still be minted.
    pub open spec fn can_mint(self) -> bool {
        self.next_id() < u64::MAX
    }

    /// An empty store.
    pub fn new() -> (r: SessionStore)
        ensures
            r.wf(),
            r.can_mint(),
            r.sessions() =~= Seq::<Session>::empty(),
            r.next_id() == 1,
    {
        SessionStore { sessions: Vec::new(), next_id: 1 }
    }

    /// Mint a fresh identifier, never handed out before.
    fn mint(&mut self) -> (r: u64)
        requires
            old(self).can_mint(),
        ensures
            final(self).sessions() == old(self).sessions(),
            final(self).next_id() == old(self).next_id() + 1,
            r == old(self).next_id(),
            old(self).wf() ==> final(self).wf(),
    {
        let id = self.next_id;
        self.next_id = self.next_id + 1;
        id
    }

    /// The index of the session stored under `id`, if any.
    fn find_index(&self, id: u64) -> (r: Option<usize>)
        ensures
            match r {
                Some(i) => i < self.sessions().len() && lookup_session(self.sessions(), id)
                    == Some(self.sessions()[i as int]) && self.sessions()[i as int].id == id,
                None => lookup_session(self.sessions(), id) is None,
            },
    {
        let n = self.sessions.len();
        proof {
            assert(self.sessions().skip(0) =~= self.sessions());
        }
        for i in 0..n
            invariant
                n == self.sessions().len(),
                lookup_session(self.sessions(), id) == lookup_session(
                    self.sessions().skip(i as int),
                    id,
                ),
        {
            proof {
                assert(self.sessions().skip(i as int)[0] == self.sessions()[i as int]);
            }
            if self.sessions[i].id == id {
                return Some(i);
            }
            proof {
                assert(self.sessions().skip(i as int).drop_first() =~= self.sessions().skip(
                    i + 1,
                ));
            }
        }
        proof {
            assert(self.sessions().skip(n as int) =~= Seq::<Session>::empty());
        }
        None
    }

    /// Load the session a cookie refers to, or hand out a fresh empty one
    /// when the cookie is absent, unknown, or expired.
    pub fn load(&mut self, cookie: Option<u64>, now: u64) -> (r: Session)
        requires
            old(self).wf(),
            old(self).can_mint(),
        ensures
            final(self).wf(),
            final(self).sessions() == old(self).sessions(),
            final(self).owns(r),
            r == spec_loaded_session(*old(self), cookie, now),
            final(self).next_id() as int == if spec_load_hit(*old(self), cookie, now) is Some {
                old(self).next_id() as int
            } else {
                old(self).next_id() + 1
            },
    {
        if let Some(id) = cookie {
            if let Some(i) = self.find_index(id) {
                let live = match self.sessions[i].expiry {
                    Some(t) => now < t,
                    None => true,
                };
                if live {
                    return self.sessions[i].duplicate();
                }
            }
        }
        let id = self.mint();
        Session { id, data: SessionData::empty(), expiry: None }
    }

    /// Write a session back under its identifier: replace the stored one,
    /// or store it first.
    pub fn save(&mut self, s: &Session)
        requires
            old(self).wf(),
            old(self).owns(*s),
        ensures
            final(self).wf(),
            final(self).next_id() == old(self).next_id(),
            lookup_session(final(self).sessions(), s.id) == Some(*s),
            if has_session(old(self).sessions(), s.id) {
                exists|i: int|
                    0 <= i < old(self).sessions().len() && old(self).sessions()[i].id == s.id
                        && final(self).sessions() == old(self).sessions().update(i, *s)
            } else {
                final(self).sessions() == old(self).sessions().push(*s)
            },
    {
        let ghost sessions0 = self.sessions();
        match self.find_index(s.id) {
            Some(i) => {
                self.sessions.set(i, s.duplicate());
                proof {
                    let updated = self.sessions();
                    assert forall|p: int, q: int|
                        0 <= p < q < updated.len() implies updated[p].id != updated[q].id by {
                        assert(sessions0[p].id != sessions0[q].id);
                    }
                    assert forall|j: int| 0 <= j < updated.len() implies #[trigger] updated[j].id
                        < self.next_id() by {
                        assert(sessions0[j].id < self.next_id());
                    }
                    lemma_lookup_session_unique(updated, s.id, i as int);
                }
            },
            None => {
                proof {
                    lemma_lookup_session_none(self.sessions(), s.id);
                }
                self.sessions.push(s.duplicate());
                proof {
                    let pushed = self.sessions();
                    assert forall|p: int, q: int|
                        0 <= p < q < pushed.len() implies pushed[p].id != pushed[q].id by {
                        if q < pushed.len() - 1 {
                            assert(sessions0[p].id != sessions0[q].id);
                        } else {
                            assert(pushed[q] == *s);
                            assert(pushed[p] == sessions0[p]);
                        }
                    }
                    lemma_lookup_session_unique(pushed, s.id, pushed.len() - 1);
                }
            },
        }
    }

    /// Invalidate the session's current identifier and mint a new one for
    /// it, keeping the payload: session fixation cannot survive a login.
    pub fn regenerate(&mut self, s: &mut Session)
        requires
            old(self).wf(),
            old(self).can_mint(),
            old(self).owns(*old(s)),
        ensures
            final(self).wf(),
            final(self).next_id() == old(self).next_id() + 1,
            final(s).id == old(self).next_id(),
            final(s).id != old(s).id,
            final(s).data == old(s).data,
            final(s).expiry == old(s).expiry,
            final(self).owns(*final(s)),
            !has_session(final(self).sessions(), old(s).id),
            !has_session(final(self).sessions(), final(s).id),
            if has_session(old(self).sessions(), old(s).id) {
                exists|i: int|
                    0 <= i < old(self).sessions().len() && old(self).sessions()[i].id == old(
                        s,
                    ).id && final(self).sessions() == old(self).sessions().remove(i)
            } else {
                final(self).sessions() == old(self).sessions()
            },
    {
        let ghost sessions0 = self.sessions();
        match self.find_index(s.id) {
            Some(i) => {
                self.sessions.remove(i);
                proof {
                    sessions0.remove_ensures(i as int);
                    let removed = self.sessions();
                    assert(removed == sessions0.remove(i as int));
                    assert forall|p: int, q: int|
                        0 <= p < q < removed.len() implies removed[p].id != removed[q].id by {
                        let p0: int = if p < i { p } else { p + 1 };
                        let q0: int = if q < i { q } else { q + 1 };
                        assert(removed[p] == sessions0[p0]);
                        assert(removed[q] == sessions0[q0]);
                    }
                    assert forall|j: int| 0 <= j < removed.len() implies #[trigger] removed[j].id
                        < self.next_id() by {
                        let j0: int = if j < i { j } else { j + 1 };
                        assert(removed[j] == sessions0[j0]);
                    }
                    assert forall|j: int| 0 <= j < removed.len() implies #[trigger] removed[j].id
                        != s.id by {
                        let j0: int = if j < i { j } else { j + 1 };
                        assert(removed[j] == sessions0[j0]);
                        if j0 < i {
                            assert(sessions0[j0].id != sessions0[i as int].id);
                        } else {
                            assert(sessions0[i as int].id != sessions0[j0].id);
                        }
                    }
                    if lookup_session(removed, s.id) is Some {
                        lemma_lookup_some_session(removed, s.id);
                        assert(false);
                    }
                }
            },
            None => {},
        }
        let id = self.mint();
        s.id = id;
        proof {
            assert forall|j: int| 0 <= j < self.sessions().len() implies #[trigger] self.sessions()[j].id
                != s.id by {}
            lemma_lookup_session_absent(self.sessions(), s.id);
        }
    }

    /// Delete every expired session.
    pub fn cleanup(&mut self, now: u64)
        requires
            old(self).wf(),
        ensures
            final(self).wf(),
            final(self).next_id() == old(self).next_id(),
            final(self).sessions() == live_sessions(old(self).sessions(), now),
    {
        let ghost sessions0 = self.sessions();
        let ghost next0 = self.next_id();
        let n = self.sessions.len();
        let mut kept: Vec<Session> = Vec::new();
        for i in 0..n
            invariant
                n == self.sessions().len(),
                self.sessions() == sessions0,
                self.next_id() == next0,
                kept@ == live_sessions(self.sessions().take(i as int), now),
        {
            let row = &self.sessions[i];
            let live = match row.expiry {
                Some(t) => now < t,
                None => true,
            };
            if live {
                kept.push(row.duplicate());
            }
            proof {
                let taken = self.sessions().take(i + 1);
                assert(taken.drop_last() =~= self.sessions().take(i as int));
                assert(taken.last() == self.sessions()[i as int]);
            }
        }
        proof {
            assert(sessions0.take(n as int) =~= sessions0);
        }
        self.sessions = kept;
        proof {
            lemma_live_sessions_unique(sessions0, now);
            lemma_live_sessions_bounded(sessions0, now, next0);
        }
    }

    /// Create the backing table on first use. The in-memory realization has
    /// nothing to do; SQL deployments run their schema migration here.
    pub fn migrate(&mut self)
        ensures
            *final(self) == *old(self),
    {
    }
}

/// A found session carries the id looked up and sits at some index.
pub proof fn lemma_lookup_some_session(sessions: Seq<Session>, id: u64)
    requires
        lookup_session(sessions, id) is Some,
    ensures
        ({
            let s = lookup_session(sessions, id)->Some_0;
            s.id == id && exists|i: int| 0 <= i < sessions.len() && sessions[i] == s
        }),
    decreases sessions.len(),
{
    if sessions.len() > 0 && sessions[0].id != id {
        lemma_lookup_some_session(sessions.drop_first(), id);
        let s = lookup_session(sessions, id)->Some_0;
        let i = choose|i: int| 0 <= i < sessions.drop_first().len() && sessions.drop_first()[i] == s;
        assert(sessions[i + 1] == s);
    }
}

/// A session whose expiry was pushed `ttl` past minute `t1` loads again for
/// every access before `t1 + ttl`, and no longer loads once the clock
/// reaches `t1 + ttl`: the timeout is refreshed by access and only by
/// access.
pub proof fn lemma_ttl_refresh(st: SessionStore, id: u64, t1: u64, ttl: u64, t2: u64)
    requires
        t1 + ttl <= u64::MAX,
        lookup_session(st.sessions(), id) matches Some(s) && s.expiry == Some((t1 + ttl) as u64),
    ensures
        t2 < t1 + ttl ==> spec_load_hit(st, Some(id), t2) == lookup_session(st.sessions(), id),
        t2 >= t1 + ttl ==> spec_load_hit(st, Some(id), t2) is None,
{
}

/// Which session backend a configuration selects: in-memory stays in-memory,
/// SQL follows the database driver, Redis keeps its address.
pub open spec fn spec_backend_choice(storage: SessionStorage, db: DatabaseBackend) -> SessionBackendStorage {
    match storage {
        SessionStorage::InMemory => SessionBackendStorage::InMemory,
        SessionStorage::Sql => match db {
            DatabaseBackend::MySql => SessionBackendStorage::MySql,
            DatabaseBackend::Postgres => SessionBackendStorage::Postgres,
            DatabaseBackend::Sqlite => SessionBackendStorage::Sqlite,
        },
        SessionStorage::Redis(url) => SessionBackendStorage::Redis(url),
    }
}

/// The concrete session backend the service runs against.
pub enum SessionBackendStorage {
    InMemory,
    MySql,
    Postgres,
    Sqlite,
    Redis(String),
}

impl SessionBackendStorage {
    /// Pick the backend that the settings and the selected database driver
    /// call for.
    pub fn from_settings(settings: &SessionSettings, db: DatabaseBackend) -> (r:
        SessionBackendStorage)
        ensures
            r == spec_backend_choice(settings.backend, db),
    {
        match &settings.backend {
            SessionStorage::InMemory => SessionBackendStorage::InMemory,
            SessionStorage::Sql => match db {
                DatabaseBackend::MySql => SessionBackendStorage::MySql,
                DatabaseBackend::Postgres => SessionBackendStorage::Postgres,
                DatabaseBackend::Sqlite => SessionBackendStorage::Sqlite,
            },
            SessionStorage::Redis(url) => SessionBackendStorage::Redis(url.clone()),
        }
    }
}

/// The cookie name the session layer uses: the configured one, or `ruuth`.
pub fn cookie_name(settings: &SessionSettings) -> (r: String)
    ensures
        match settings.cookie_name {
            Some(n) => r@ == n@,
            None => r@ == "ruuth"@,
        },
{
    match &settings.cookie_name {
        Some(n) => n.clone(),
        None => "ruuth".to_owned(),
    }
}

} // verus!
