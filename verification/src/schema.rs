//! The two tables of the credential store, as mathematical values.
//!
//! `users` holds one row per account, `sessions` one row per login that has
//! not been logged out. A session row refers to its user by `user_id`.

use vstd::prelude::*;

verus! {

/// A row of the `users` table.
pub struct UserRecord {
    /// Primary key.
    pub id: int,
    /// The login name; no two rows share one.
    pub username: Seq<char>,
    /// The name shown to others.
    pub realname: Seq<char>,
    /// The salted hash of the password.
    pub password: Seq<char>,
}

/// A row of the `sessions` table.
pub struct SessionRecord {
    /// Primary key.
    pub id: int,
    /// The secret that the client holds; no two rows share one.
    pub cookie: Seq<char>,
    /// The `id` of the user who logged in.
    pub user_id: int,
}

/// Both tables, with the last key that each has handed out.
pub struct Tables {
    pub users: Seq<UserRecord>,
    pub sessions: Seq<SessionRecord>,
    pub last_user_id: int,
    pub last_session_id: int,
}

impl Tables {
    /// Two tables without rows.
    pub open spec fn empty() -> Tables {
        Tables { users: Seq::empty(), sessions: Seq::empty(), last_user_id: 0, last_session_id: 0 }
    }

    /// Keys are positive, never above the last one handed out, and unique.
    pub open spec fn keys_valid(self) -> bool {
        &&& 0 <= self.last_user_id <= i32::MAX
        &&& 0 <= self.last_session_id <= i32::MAX
        &&& forall|i: int|
            0 <= i < self.users.len() ==> 1 <= (#[trigger] self.users[i]).id <= self.last_user_id
        &&& forall|i: int|
            0 <= i < self.sessions.len() ==> 1 <= (#[trigger] self.sessions[i]).id
                <= self.last_session_id
        &&& forall|i: int, j: int|
            0 <= i < j < self.users.len() ==> (#[trigger] self.users[i]).id
                != (#[trigger] self.users[j]).id
        &&& forall|i: int, j: int|
            0 <= i < j < self.sessions.len() ==> (#[trigger] self.sessions[i]).id
                != (#[trigger] self.sessions[j]).id
    }

    /// No two users share a name, and no two sessions a cookie.
    pub open spec fn names_unique(self) -> bool {
        &&& forall|i: int, j: int|
            0 <= i < j < self.users.len() ==> (#[trigger] self.users[i]).username
                != (#[trigger] self.users[j]).username
        &&& forall|i: int, j: int|
            0 <= i < j < self.sessions.len() ==> (#[trigger] self.sessions[i]).cookie
                != (#[trigger] self.sessions[j]).cookie
    }

    /// Every session belongs to a user of the `users` table.
    pub open spec fn sessions_owned(self) -> bool {
        forall|i: int|
            0 <= i < self.sessions.len() ==> self.has_user_id((#[trigger] self.sessions[i]).user_id)
    }

    /// What holds of the tables at all times.
    pub open spec fn wf(self) -> bool {
        self.keys_valid() && self.names_unique() && self.sessions_owned()
    }

    /// Whether a user has this login name.
    pub open spec fn has_user(self, username: Seq<char>) -> bool {
        exists|i: int| 0 <= i < self.users.len() && (#[trigger] self.users[i]).username == username
    }

    /// Whether a user has this key.
    pub open spec fn has_user_id(self, id: int) -> bool {
        exists|i: int| 0 <= i < self.users.len() && (#[trigger] self.users[i]).id == id
    }

    /// Whether a session has this cookie.
    pub open spec fn has_cookie(self, cookie: Seq<char>) -> bool {
        exists|i: int|
            0 <= i < self.sessions.len() && (#[trigger] self.sessions[i]).cookie == cookie
    }

    /// Whether a session has this key.
    pub open spec fn has_session_id(self, id: int) -> bool {
        exists|i: int| 0 <= i < self.sessions.len() && (#[trigger] self.sessions[i]).id == id
    }

    /// The user with this login name.
    pub open spec fn user_named(self, username: Seq<char>) -> Option<UserRecord> {
        if self.has_user(username) {
            Some(
                self.users[choose|i: int|
                    0 <= i < self.users.len() && (#[trigger] self.users[i]).username == username],
            )
        } else {
            None
        }
    }

    /// The user with this key.
    pub open spec fn user_with_id(self, id: int) -> Option<UserRecord> {
        if self.has_user_id(id) {
            Some(
                self.users[choose|i: int|
                    0 <= i < self.users.len() && (#[trigger] self.users[i]).id == id],
            )
        } else {
            None
        }
    }

    /// The session with this cookie.
    pub open spec fn session_with_cookie(self, cookie: Seq<char>) -> Option<SessionRecord> {
        if self.has_cookie(cookie) {
            Some(
                self.sessions[choose|i: int|
                    0 <= i < self.sessions.len() && (#[trigger] self.sessions[i]).cookie == cookie],
            )
        } else {
            None
        }
    }

    /// The join of the two tables on one cookie: the key of the session
    /// that has it, and the user whom that session belongs to.
    pub open spec fn resolve(self, cookie: Seq<char>) -> Option<(int, UserRecord)> {
        match self.session_with_cookie(cookie) {
            Some(session) => match self.user_with_id(session.user_id) {
                Some(user) => Some((session.id, user)),
                None => None,
            },
            None => None,
        }
    }

    /// Whether a user of this name can be added: the name is free and a key
    /// is left.
    pub open spec fn accepts_user(self, username: Seq<char>) -> bool {
        !self.has_user(username) && self.last_user_id < i32::MAX
    }

    /// The tables with one more user, under the next key.
    pub open spec fn with_user(
        self,
        username: Seq<char>,
        realname: Seq<char>,
        password: Seq<char>,
    ) -> Tables {
        Tables {
            users: self.users.push(
                UserRecord { id: self.last_user_id + 1, username, realname, password },
            ),
            last_user_id: self.last_user_id + 1,
            ..self
        }
    }

    /// Whether a session can be added: its user exists, its cookie is free
    /// and a key is left.
    pub open spec fn accepts_session(self, user_id: int, cookie: Seq<char>) -> bool {
        self.has_user_id(user_id) && !self.has_cookie(cookie) && self.last_session_id < i32::MAX
    }

    /// The tables with one more session, under the next key.
    pub open spec fn with_session(self, user_id: int, cookie: Seq<char>) -> Tables {
        Tables {
            sessions: self.sessions.push(
                SessionRecord { id: self.last_session_id + 1, cookie, user_id },
            ),
            last_session_id: self.last_session_id + 1,
            ..self
        }
    }

    /// The tables without the session of this key.
    pub open spec fn without_session(self, id: int) -> Tables {
        Tables { sessions: self.sessions.filter(|s: SessionRecord| s.id != id), ..self }
    }
}

impl Tables {
    /// A row's login name finds that row.
    pub proof fn lemma_user_named(self, i: int)
        requires
            self.names_unique(),
            0 <= i < self.users.len(),
        ensures
            self.has_user(self.users[i].username),
            self.user_named(self.users[i].username) == Some(self.users[i]),
    {
        let name = self.users[i].username;
        let j = choose|j: int| 0 <= j < self.users.len() && (#[trigger] self.users[j]).username == name;
        assert(j == i) by {
            if j < i {
                assert(self.users[j].username != self.users[i].username);
            } else if i < j {
                assert(self.users[i].username != self.users[j].username);
            }
        }
    }

    /// A row's key finds that row.
    pub proof fn lemma_user_with_id(self, i: int)
        requires
            self.keys_valid(),
            0 <= i < self.users.len(),
        ensures
            self.has_user_id(self.users[i].id),
            self.user_with_id(self.users[i].id) == Some(self.users[i]),
    {
        let id = self.users[i].id;
        let j = choose|j: int| 0 <= j < self.users.len() && (#[trigger] self.users[j]).id == id;
        assert(j == i) by {
            if j < i {
                assert(self.users[j].id != self.users[i].id);
            } else if i < j {
                assert(self.users[i].id != self.users[j].id);
            }
        }
    }

    /// A row's cookie finds that row.
    pub proof fn lemma_session_with_cookie(self, i: int)
        requires
            self.names_unique(),
            0 <= i < self.sessions.len(),
        ensures
            self.has_cookie(self.sessions[i].cookie),
            self.session_with_cookie(self.sessions[i].cookie) == Some(self.sessions[i]),
    {
        let cookie = self.sessions[i].cookie;
        let j = choose|j: int|
            0 <= j < self.sessions.len() && (#[trigger] self.sessions[j]).cookie == cookie;
        assert(j == i) by {
            if j < i {
                assert(self.sessions[j].cookie != self.sessions[i].cookie);
            } else if i < j {
                assert(self.sessions[i].cookie != self.sessions[j].cookie);
            }
        }
    }

    /// Adding a user whom the tables accept keeps them well formed.
    pub proof fn lemma_with_user_wf(
        self,
        username: Seq<char>,
        realname: Seq<char>,
        password: Seq<char>,
    )
        requires
            self.wf(),
            self.accepts_user(username),
        ensures
            self.with_user(username, realname, password).wf(),
    {
        let next = self.with_user(username, realname, password);
        assert forall|i: int| 0 <= i < next.sessions.len() implies next.has_user_id(
            (#[trigger] next.sessions[i]).user_id,
        ) by {
            assert(self.has_user_id(self.sessions[i].user_id));
            let k = choose|k: int|
                0 <= k < self.users.len() && (#[trigger] self.users[k]).id
                    == self.sessions[i].user_id;
            assert(next.users[k].id == self.sessions[i].user_id);
        }
    }

    /// Adding a session that the tables accept keeps them well formed.
    pub proof fn lemma_with_session_wf(self, user_id: int, cookie: Seq<char>)
        requires
            self.wf(),
            self.accepts_session(user_id, cookie),
        ensures
            self.with_session(user_id, cookie).wf(),
    {
        let next = self.with_session(user_id, cookie);
        assert forall|i: int| 0 <= i < next.sessions.len() implies next.has_user_id(
            (#[trigger] next.sessions[i]).user_id,
        ) by {
            let owner = next.sessions[i].user_id;
            if i < self.sessions.len() {
                assert(next.sessions[i] == self.sessions[i]);
            }
            assert(self.has_user_id(owner));
            let k = choose|k: int| 0 <= k < self.users.len() && (#[trigger] self.users[k]).id == owner;
            assert(next.users[k].id == owner);
        }
    }

    /// Deleting by key takes out the one row that has the key.
    pub proof fn lemma_without_session_at(self, i: int)
        requires
            self.keys_valid(),
            0 <= i < self.sessions.len(),
        ensures
            self.without_session(self.sessions[i].id).sessions == self.sessions.remove(i),
    {
        let id = self.sessions[i].id;
        lemma_filter_one_out(self.sessions, |s: SessionRecord| s.id != id, i);
    }

    /// Deleting by a key that no row has changes nothing.
    pub proof fn lemma_without_session_absent(self, id: int)
        requires
            !self.has_session_id(id),
        ensures
            self.without_session(id) == self,
    {
        lemma_filter_all_in(self.sessions, |s: SessionRecord| s.id != id);
    }

    /// Deleting a session keeps the tables well formed.
    pub proof fn lemma_without_session_wf(self, id: int)
        requires
            self.wf(),
        ensures
            self.without_session(id).wf(),
    {
        if self.has_session_id(id) {
            let i = choose|i: int|
                0 <= i < self.sessions.len() && (#[trigger] self.sessions[i]).id == id;
            self.lemma_without_session_at(i);
            let next = self.without_session(id);
            assert forall|k: int| 0 <= k < next.sessions.len() implies #[trigger] next.sessions[k]
                == self.sessions[if k < i { k } else { k + 1 }] by {}
            assert forall|k: int| 0 <= k < next.sessions.len() implies next.has_user_id(
                (#[trigger] next.sessions[k]).user_id,
            ) by {
                let k0 = if k < i { k } else { k + 1 };
                let owner = self.sessions[k0].user_id;
                assert(next.sessions[k] == self.sessions[k0]);
                assert(self.has_user_id(owner));
                let u = choose|u: int| 0 <= u < self.users.len() && (#[trigger] self.users[u]).id == owner;
                assert(next.users[u].id == owner);
            }
        } else {
            self.lemma_without_session_absent(id);
        }
    }
}

/// A filter that every element passes keeps the sequence.
pub proof fn lemma_filter_all_in<A>(s: Seq<A>, keep: spec_fn(A) -> bool)
    requires
        forall|k: int| 0 <= k < s.len() ==> keep(#[trigger] s[k]),
    ensures
        s.filter(keep) == s,
    decreases s.len(),
{
    reveal(Seq::filter);
    if s.len() > 0 {
        lemma_filter_all_in(s.drop_last(), keep);
        assert(s.drop_last().push(s.last()) =~= s);
    }
}

/// A filter that every element passes but the one at `i` removes that one.
pub proof fn lemma_filter_one_out<A>(s: Seq<A>, keep: spec_fn(A) -> bool, i: int)
    requires
        0 <= i < s.len(),
        !keep(s[i]),
        forall|k: int| 0 <= k < s.len() && k != i ==> keep(#[trigger] s[k]),
    ensures
        s.filter(keep) == s.remove(i),
    decreases s.len(),
{
    reveal(Seq::filter);
    if i == s.len() - 1 {
        lemma_filter_all_in(s.drop_last(), keep);
        assert(s.remove(i) =~= s.drop_last());
    } else {
        lemma_filter_one_out(s.drop_last(), keep, i);
        assert(s.drop_last().remove(i).push(s.last()) =~= s.remove(i));
    }
}

} // verus!
