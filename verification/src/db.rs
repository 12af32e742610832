//! The persistence model: the `user` table and the `ban_tracker` table, with
//! the operations the managers rely on.
//!
//! The production deployment keeps these tables in MySQL, Postgres or SQLite;
//! only their interface contract matters to the rest of the system, and that
//! contract is stated and proved here over an in-memory realization.

use vstd::prelude::*;
use vstd::string::StrSliceExecFns;

use crate::entities::ban_tracker;
use crate::entities::user;
use crate::errors::Error;

verus! {

/// Which SQL driver a connection string selects.
#[derive(Clone, Copy, PartialEq, Eq, Structural, Debug)]
pub enum DatabaseBackend {
    MySql,
    Postgres,
    Sqlite,
}

/// Whether `prefix` starts `s`.
pub open spec fn spec_starts_with(s: Seq<char>, prefix: Seq<char>) -> bool {
    s.len() >= prefix.len() && s.subrange(0, prefix.len() as int) == prefix
}

/// The backend a connection string selects, by its scheme prefix.
pub open spec fn spec_backend_for_url(url: Seq<char>) -> Option<DatabaseBackend> {
    if spec_starts_with(url, "mysql://"@) {
        Some(DatabaseBackend::MySql)
    } else if spec_starts_with(url, "postgres://"@) {
        Some(DatabaseBackend::Postgres)
    } else if spec_starts_with(url, "sqlite://"@) {
        Some(DatabaseBackend::Sqlite)
    } else {
        None
    }
}

/// Prefix test over the characters of two strings.
pub fn starts_with(s: &str, prefix: &str) -> (r: bool)
    ensures
        r == spec_starts_with(s@, prefix@),
{
    let n = prefix.unicode_len();
    if s.unicode_len() < n {
        return false;
    }
    for i in 0..n
        invariant
            n == prefix@.len(),
            n <= s@.len(),
            forall|j: int| 0 <= j < i ==> s@[j] == prefix@[j],
    {
        if s.get_char(i) != prefix.get_char(i) {
            return false;
        }
    }
    proof {
        assert(s@.subrange(0, n as int) =~= prefix@);
    }
    true
}

/// Select a backend from a connection-string prefix: `mysql://`,
/// `postgres://` or `sqlite://`. Anything else matches no driver.
pub fn backend_for_url(url: &str) -> (r: Option<DatabaseBackend>)
    ensures
        r == spec_backend_for_url(url@),
{
    if starts_with(url, "mysql://") {
        Some(DatabaseBackend::MySql)
    } else if starts_with(url, "postgres://") {
        Some(DatabaseBackend::Postgres)
    } else if starts_with(url, "sqlite://") {
        Some(DatabaseBackend::Sqlite)
    } else {
        None
    }
}

/// First-match lookup of a username in a sequence of user records.
pub open spec fn lookup_user(users: Seq<user::Model>, name: Seq<char>) -> Option<user::Model>
    decreases users.len(),
{
    if users.len() == 0 {
        None
    } else if users[0].username@ == name {
        Some(users[0])
    } else {
        lookup_user(users.drop_first(), name)
    }
}

/// Whether some record carries the given username.
pub open spec fn has_user(users: Seq<user::Model>, name: Seq<char>) -> bool {
    lookup_user(users, name) is Some
}

/// How many failures are attributed to `host` at or after minute `since`.
pub open spec fn count_failures_spec(
    bans: Seq<ban_tracker::Model>,
    host: Seq<char>,
    since: int,
) -> nat
    decreases bans.len(),
{
    if bans.len() == 0 {
        0
    } else {
        count_failures_spec(bans.drop_last(), host, since) + (
        if bans.last().host@ == host && bans.last().failure_timestamp >= since {
            1nat
        } else {
            0nat
        })
    }
}

/// The rows that survive a garbage collection keeping minute `cutoff` and later.
pub open spec fn retained_failures(bans: Seq<ban_tracker::Model>, cutoff: int) -> Seq<
    ban_tracker::Model,
>
    decreases bans.len(),
{
    if bans.len() == 0 {
        Seq::empty()
    } else if bans.last().failure_timestamp >= cutoff {
        retained_failures(bans.drop_last(), cutoff).push(bans.last())
    } else {
        retained_failures(bans.drop_last(), cutoff)
    }
}

/// If no record carries `name`, no index of the sequence does.
pub proof fn lemma_lookup_none(users: Seq<user::Model>, name: Seq<char>)
    requires
        lookup_user(users, name) is None,
    ensures
        forall|i: int| 0 <= i < users.len() ==> users[i].username@ != name,
    decreases users.len(),
{
    if users.len() > 0 {
        lemma_lookup_none(users.drop_first(), name);
        assert forall|i: int| 0 <= i < users.len() implies users[i].username@ != name by {
            if i > 0 {
                assert(users.drop_first()[i - 1] == users[i]);
            }
        }
    }
}

/// With unique usernames, a record carrying the looked-up name is the one
/// the lookup finds.
pub proof fn lemma_lookup_unique(users: Seq<user::Model>, name: Seq<char>, i: int)
    requires
        Database::users_unique(users),
        0 <= i < users.len(),
        users[i].username@ == name,
    ensures
        lookup_user(users, name) == Some(users[i]),
    decreases users.len(),
{
    if i == 0 {
    } else {
        assert(users[0].username@ != name);
        assert(users.drop_first()[i - 1] == users[i]);
        assert(Database::users_unique(users.drop_first())) by {
            assert forall|p: int, q: int|
                0 <= p < q < users.drop_first().len() implies users.drop_first()[p].username@
                != users.drop_first()[q].username@ by {
                assert(users.drop_first()[p] == users[p + 1]);
                assert(users.drop_first()[q] == users[q + 1]);
            }
        }
        lemma_lookup_unique(users.drop_first(), name, i - 1);
    }
}

/// The database handle: the two tables behind every manager.
pub struct Database {
    users: Vec<user::Model>,
    bans: Vec<ban_tracker::Model>,
    next_ban_id: i64,
}

impl Database {
    /// The user table, in insertion order.
    pub closed spec fn users(self) -> Seq<user::Model> {
        self.users@
    }

    /// The ban-tracker table, in insertion order.
    pub closed spec fn bans(self) -> Seq<ban_tracker::Model> {
        self.bans@
    }

    /// No two records share a username: `username` is the primary key.
    pub open spec fn users_unique(users: Seq<user::Model>) -> bool {
        forall|i: int, j: int|
            0 <= i < j < users.len() ==> users[i].username@ != users[j].username@
    }

    pub open spec fn wf(self) -> bool {
        Self::users_unique(self.users())
    }

    /// A connection to an empty database: both tables freshly created.
    pub fn new() -> (r: Database)
        ensures
            r.wf(),
            r.users() =~= Seq::<user::Model>::empty(),
            r.bans() =~= Seq::<ban_tracker::Model>::empty(),
    {
        Database { users: Vec::new(), bans: Vec::new(), next_ban_id: 1 }
    }

    /// The index of the record carrying `name`, if any.
    fn find_user_index(&self, name: &String) -> (r: Option<usize>)
        ensures
            match r {
                Some(i) => i < self.users().len() && lookup_user(self.users(), name@) == Some(
                    self.users()[i as int],
                ) && self.users()[i as int].username@ == name@,
                None => lookup_user(self.users(), name@) is None,
            },
    {
        let n = self.users.len();
        proof {
            assert(self.users().skip(0) =~= self.users());
        }
        for i in 0..n
            invariant
                n == self.users().len(),
                lookup_user(self.users(), name@) == lookup_user(
                    self.users().skip(i as int),
                    name@,
                ),
        {
            proof {
                assert(self.users().skip(i as int)[0] == self.users()[i as int]);
            }
            if self.users[i].username == *name {
                return Some(i);
            }
            proof {
                assert(self.users().skip(i as int).drop_first() =~= self.users().skip(i + 1));
            }
        }
        proof {
            assert(self.users().skip(n as int) =~= Seq::<user::Model>::empty());
        }
        None
    }

    /// Look a user up by name.
    pub fn find_user(&self, username: &String) -> (r: Option<&user::Model>)
        ensures
            match r {
                Some(u) => lookup_user(self.users(), username@) == Some(*u),
                None => lookup_user(self.users(), username@) is None,
            },
    {
        match self.find_user_index(username) {
            Some(i) => Some(&self.users[i]),
            None => None,
        }
    }

    /// Insert a new user record; the primary key must not collide.
    pub fn insert_user(&mut self, user: user::Model) -> (r: Result<(), Error>)
        requires
            old(self).wf(),
        ensures
            final(self).wf(),
            final(self).bans() == old(self).bans(),
            match r {
                Ok(()) => !has_user(old(self).users(), user.username@) && final(self).users()
                    == old(self).users().push(user),
                Err(e) => e == Error::UserAlreadyExists && has_user(
                    old(self).users(),
                    user.username@,
                ) && final(self).users() == old(self).users(),
            },
    {
        match self.find_user_index(&user.username) {
            Some(_) => Err(Error::UserAlreadyExists),
            None => {
                proof {
                    lemma_lookup_none(self.users(), user.username@);
                }
                self.users.push(user);
                Ok(())
            },
        }
    }

    /// Replace the record whose username matches `user.username`.
    pub fn update_user(&mut self, user: user::Model) -> (r: Result<(), Error>)
        requires
            old(self).wf(),
        ensures
            final(self).wf(),
            final(self).bans() == old(self).bans(),
            match r {
                Ok(()) => has_user(old(self).users(), user.username@) && exists|i: int|
                    0 <= i < old(self).users().len() && old(self).users()[i].username@
                        == user.username@ && final(self).users() == old(self).users().update(
                        i,
                        user,
                    ),
                Err(e) => e == Error::UserNotFound && !has_user(old(self).users(), user.username@)
                    && final(self).users() == old(self).users(),
            },
    {
        match self.find_user_index(&user.username) {
            Some(i) => {
                self.users.set(i, user);
                Ok(())
            },
            None => Err(Error::UserNotFound),
        }
    }

    /// Delete the record carrying `username`.
    pub fn delete_user(&mut self, username: &String) -> (r: Result<(), Error>)
        requires
            old(self).wf(),
        ensures
            final(self).wf(),
            final(self).bans() == old(self).bans(),
            match r {
                Ok(()) => exists|i: int|
                    0 <= i < old(self).users().len() && old(self).users()[i].username@ == username@
                        && final(self).users() == old(self).users().remove(i),
                Err(e) => e == Error::UserNotFound && !has_user(old(self).users(), username@)
                    && final(self).users() == old(self).users(),
            },
            r is Ok <==> has_user(old(self).users(), username@),
    {
        match self.find_user_index(username) {
            Some(i) => {
                self.users.remove(i);
                Ok(())
            },
            None => Err(Error::UserNotFound),
        }
    }

    /// Record one failed login attempt for `host` at minute `ts`.
    pub fn insert_failure(&mut self, host: String, ts: i64)
        ensures
            final(self).users() == old(self).users(),
            final(self).bans().len() == old(self).bans().len() + 1,
            final(self).bans().drop_last() == old(self).bans(),
            final(self).bans().last().host@ == host@,
            final(self).bans().last().failure_timestamp == ts,
            final(self).wf() == old(self).wf(),
    {
        let id = self.next_ban_id;
        self.bans.push(ban_tracker::Model { id, host, failure_timestamp: ts });
        if self.next_ban_id < i64::MAX {
            self.next_ban_id = self.next_ban_id + 1;
        }
        proof {
            assert(final(self).bans().drop_last() =~= old(self).bans());
        }
    }

    /// Count the failures attributed to `host` at or after minute `since`.
    pub fn count_failures(&self, host: &String, since: i64) -> (r: u64)
        ensures
            r == count_failures_spec(self.bans(), host@, since as int),
    {
        let n = self.bans.len();
        let mut count: u64 = 0;
        for i in 0..n
            invariant
                n == self.bans().len(),
                count == count_failures_spec(self.bans().take(i as int), host@, since as int),
                count <= i,
        {
            let row = &self.bans[i];
            if row.host == *host && row.failure_timestamp >= since {
                count = count + 1;
            }
            proof {
                let taken = self.bans().take(i + 1);
                assert(taken.drop_last() =~= self.bans().take(i as int));
                assert(taken.last() == self.bans()[i as int]);
            }
        }
        proof {
            assert(self.bans().take(n as int) =~= self.bans());
        }
        count
    }

    /// Delete every failure strictly older than minute `cutoff`.
    pub fn delete_failures_older_than(&mut self, cutoff: i64)
        ensures
            final(self).users() == old(self).users(),
            final(self).bans() == retained_failures(old(self).bans(), cutoff as int),
            final(self).wf() == old(self).wf(),
    {
        let ghost users0 = self.users();
        let ghost bans0 = self.bans();
        let n = self.bans.len();
        let mut kept: Vec<ban_tracker::Model> = Vec::new();
        for i in 0..n
            invariant
                n == self.bans().len(),
                self.users() == users0,
                self.bans() == bans0,
                kept@ == retained_failures(self.bans().take(i as int), cutoff as int),
        {
            let row = &self.bans[i];
            if row.failure_timestamp >= cutoff {
                kept.push(
                    ban_tracker::Model {
                        id: row.id,
                        host: row.host.clone(),
                        failure_timestamp: row.failure_timestamp,
                    },
                );
            }
            proof {
                let taken = self.bans().take(i + 1);
                assert(taken.drop_last() =~= self.bans().take(i as int));
                assert(taken.last() == self.bans()[i as int]);
            }
        }
        proof {
            assert(bans0.take(n as int) =~= bans0);
        }
        self.bans = kept;
    }
}

} // verus!
