//! The credential store: the `users` and `sessions` tables held in memory,
//! with the queries that the service makes of them.

use crate::models::User;
use crate::schema::{SessionRecord, Tables, UserRecord};
use crate::text::same_text;
use vstd::prelude::*;

verus! {

/// Why the store refused a row.
#[derive(Debug, Clone, Copy, PartialEq, Eq, Structural)]
pub enum StoreError {
    /// A user of that name exists already.
    DuplicateUsername,
    /// A session with that cookie exists already.
    DuplicateCookie,
    /// The session's user is not in the `users` table.
    UnknownUser,
    /// The table has handed out its last key.
    OutOfKeys,
}

impl StoreError {
    /// What the refusal says.
    pub open spec fn explanation(self) -> Seq<char> {
        match self {
            StoreError::DuplicateUsername => "a user of that name exists already"@,
            StoreError::DuplicateCookie => "a session with that cookie exists already"@,
            StoreError::UnknownUser => "the user of the session does not exist"@,
            StoreError::OutOfKeys => "the table has no key left"@,
        }
    }

    /// What the refusal says.
    pub fn message(self) -> (message: &'static str)
        ensures
            message@ == self.explanation(),
    {
        match self {
            StoreError::DuplicateUsername => "a user of that name exists already",
            StoreError::DuplicateCookie => "a session with that cookie exists already",
            StoreError::UnknownUser => "the user of the session does not exist",
            StoreError::OutOfKeys => "the table has no key left",
        }
    }
}

struct UserRow {
    id: i32,
    username: String,
    realname: String,
    password: String,
}

struct SessionRow {
    id: i32,
    cookie: String,
    user_id: i32,
}

impl UserRow {
    spec fn record(self) -> UserRecord {
        UserRecord {
            id: self.id as int,
            username: self.username@,
            realname: self.realname@,
            password: self.password@,
        }
    }
}

impl SessionRow {
    spec fn record(self) -> SessionRecord {
        SessionRecord { id: self.id as int, cookie: self.cookie@, user_id: self.user_id as int }
    }
}

/// The two tables. Its value is a [`Tables`] that is always well formed.
pub struct CredentialStore {
    users: Vec<UserRow>,
    sessions: Vec<SessionRow>,
    last_user_id: i32,
    last_session_id: i32,
}

impl View for CredentialStore {
    type V = Tables;

    closed spec fn view(&self) -> Tables {
        Tables {
            users: self.users@.map_values(|row: UserRow| row.record()),
            sessions: self.sessions@.map_values(|row: SessionRow| row.record()),
            last_user_id: self.last_user_id as int,
            last_session_id: self.last_session_id as int,
        }
    }
}

impl CredentialStore {
    /// The tables are well formed, whatever was done to the store.
    #[verifier::type_invariant]
    pub open spec fn well_formed(&self) -> bool {
        self@.wf()
    }

    /// A store without rows whose tables have handed out keys up to the
    /// given ones already. There is none for a negative key.
    pub fn after_keys(last_user_id: i32, last_session_id: i32) -> (store: Option<CredentialStore>)
        ensures
            match store {
                Some(s) => last_user_id >= 0 && last_session_id >= 0 && s@ == (Tables {
                    last_user_id: last_user_id as int,
                    last_session_id: last_session_id as int,
                    ..Tables::empty()
                }),
                None => last_user_id < 0 || last_session_id < 0,
            },
    {
        if last_user_id < 0 || last_session_id < 0 {
            return None;
        }
        let store = CredentialStore {
            users: Vec::new(),
            sessions: Vec::new(),
            last_user_id,
            last_session_id,
        };
        assert(store@.users =~= Seq::empty());
        assert(store@.sessions =~= Seq::empty());
        Some(store)
    }

    /// A store without users and sessions.
    pub fn new() -> (store: CredentialStore)
        ensures
            store@ == Tables::empty(),
    {
        let store = CredentialStore {
            users: Vec::new(),
            sessions: Vec::new(),
            last_user_id: 0,
            last_session_id: 0,
        };
        assert(store@.users =~= Seq::empty());
        assert(store@.sessions =~= Seq::empty());
        store
    }
}

impl CredentialStore {
    /// Where the user of this name stands in the `users` table.
    fn position_of_user(&self, username: &str) -> (at: Option<usize>)
        ensures
            match at {
                Some(i) => i < self@.users.len() && self@.users[i as int].username == username@,
                None => !self@.has_user(username@),
            },
    {
        let mut i: usize = 0;
        while i < self.users.len()
            invariant
                i <= self.users.len(),
                forall|k: int| 0 <= k < i ==> (#[trigger] self@.users[k]).username != username@,
            decreases self.users.len() - i,
        {
            if same_text(self.users[i].username.as_str(), username) {
                return Some(i);
            }
            i = i + 1;
        }
        None
    }

    /// Where the user of this key stands in the `users` table.
    fn position_of_user_id(&self, id: i32) -> (at: Option<usize>)
        ensures
            match at {
                Some(i) => i < self@.users.len() && self@.users[i as int].id == id,
                None => !self@.has_user_id(id as int),
            },
    {
        let mut i: usize = 0;
        while i < self.users.len()
            invariant
                i <= self.users.len(),
                forall|k: int| 0 <= k < i ==> (#[trigger] self@.users[k]).id != id,
            decreases self.users.len() - i,
        {
            if self.users[i].id == id {
                return Some(i);
            }
            i = i + 1;
        }
        None
    }

    /// Where the session of this cookie stands in the `sessions` table.
    fn position_of_cookie(&self, cookie: &str) -> (at: Option<usize>)
        ensures
            match at {
                Some(i) => i < self@.sessions.len() && self@.sessions[i as int].cookie == cookie@,
                None => !self@.has_cookie(cookie@),
            },
    {
        let mut i: usize = 0;
        while i < self.sessions.len()
            invariant
                i <= self.sessions.len(),
                forall|k: int| 0 <= k < i ==> (#[trigger] self@.sessions[k]).cookie != cookie@,
            decreases self.sessions.len() - i,
        {
            if same_text(self.sessions[i].cookie.as_str(), cookie) {
                return Some(i);
            }
            i = i + 1;
        }
        None
    }

    /// Where the session of this key stands in the `sessions` table.
    fn position_of_session(&self, id: i32) -> (at: Option<usize>)
        ensures
            match at {
                Some(i) => i < self@.sessions.len() && self@.sessions[i as int].id == id,
                None => !self@.has_session_id(id as int),
            },
    {
        let mut i: usize = 0;
        while i < self.sessions.len()
            invariant
                i <= self.sessions.len(),
                forall|k: int| 0 <= k < i ==> (#[trigger] self@.sessions[k]).id != id,
            decreases self.sessions.len() - i,
        {
            if self.sessions[i].id == id {
                return Some(i);
            }
            i = i + 1;
        }
        None
    }

    /// The user of this login name, with the hash of the password.
    pub fn find_user(&self, username: &str) -> (found: Option<(User, String)>)
        ensures
            match found {
                Some((user, hash)) => self@.user_named(username@) matches Some(row)
                    && row.public() == user@ && row.password == hash@,
                None => self@.user_named(username@) is None,
            },
    {
        proof {
            use_type_invariant(self);
        }
        match self.position_of_user(username) {
            Some(i) => {
                proof {
                    self@.lemma_user_named(i as int);
                }
                let row = &self.users[i];
                let user = User {
                    id: row.id,
                    username: row.username.clone(),
                    realname: row.realname.clone(),
                };
                Some((user, row.password.clone()))
            },
            None => None,
        }
    }

    /// The session of this cookie joined with its user: the session's key
    /// and the user.
    pub fn find_session(&self, cookie: &str) -> (found: Option<(i32, User)>)
        ensures
            match found {
                Some((id, user)) => self@.resolve(cookie@) matches Some(row) && row.0 == id
                    && row.1.public() == user@,
                None => self@.resolve(cookie@) is None,
            },
    {
        proof {
            use_type_invariant(self);
        }
        match self.position_of_cookie(cookie) {
            Some(i) => {
                proof {
                    self@.lemma_session_with_cookie(i as int);
                }
                let session = &self.sessions[i];
                match self.position_of_user_id(session.user_id) {
                    Some(k) => {
                        proof {
                            self@.lemma_user_with_id(k as int);
                        }
                        let row = &self.users[k];
                        let user = User {
                            id: row.id,
                            username: row.username.clone(),
                            realname: row.realname.clone(),
                        };
                        Some((session.id, user))
                    },
                    None => None,
                }
            },
            None => None,
        }
    }
}

impl CredentialStore {
    /// Moves the tables out and leaves an empty store behind.
    fn take(&mut self) -> (taken: CredentialStore)
        ensures
            taken == *old(self),
            final(self)@ == Tables::empty(),
    {
        let mut taken = CredentialStore::new();
        std::mem::swap(self, &mut taken);
        taken
    }

    /// Adds a user under the next key and returns the key, unless the name
    /// is taken or no key is left.
    pub fn insert_user(&mut self, username: &str, realname: &str, password: &str) -> (res: Result<
        i32,
        StoreError,
    >)
        ensures
            match res {
                Ok(id) => old(self)@.accepts_user(username@) && final(self)@ == old(self)@.with_user(
                    username@,
                    realname@,
                    password@,
                ) && id == final(self)@.last_user_id,
                Err(e) => !old(self)@.accepts_user(username@) && final(self)@ == old(self)@ && e == (
                if old(self)@.has_user(username@) {
                    StoreError::DuplicateUsername
                } else {
                    StoreError::OutOfKeys
                }),
            },
    {
        proof {
            use_type_invariant(&*self);
        }
        if self.position_of_user(username).is_some() {
            return Err(StoreError::DuplicateUsername);
        }
        if self.last_user_id == i32::MAX {
            return Err(StoreError::OutOfKeys);
        }
        let id: i32 = self.last_user_id + 1;
        let row = UserRow {
            id,
            username: username.to_owned(),
            realname: realname.to_owned(),
            password: password.to_owned(),
        };
        let ghost before = self@;
        let CredentialStore { mut users, sessions, last_user_id: _, last_session_id } = self.take();
        proof {
            before.lemma_with_user_wf(username@, realname@, password@);
            assert(users@.push(row).map_values(|row: UserRow| row.record()) =~= before.users.push(
                row.record(),
            ));
        }
        users.push(row);
        *self = CredentialStore { users, sessions, last_user_id: id, last_session_id };
        Ok(id)
    }

    /// Adds a session for a user under the next key and returns the keys of
    /// the rows added, which is that one key. Nothing is added where the
    /// user does not exist, the cookie is taken or no key is left.
    pub fn insert_session(&mut self, user_id: i32, cookie: &str) -> (res: Result<
        Vec<i32>,
        StoreError,
    >)
        ensures
            match res {
                Ok(ids) => old(self)@.accepts_session(user_id as int, cookie@) && final(self)@
                    == old(self)@.with_session(user_id as int, cookie@) && ids@.len() == 1
                    && ids@[0] == final(self)@.last_session_id,
                Err(e) => !old(self)@.accepts_session(user_id as int, cookie@) && final(self)@
                    == old(self)@ && e == (if !old(self)@.has_user_id(user_id as int) {
                    StoreError::UnknownUser
                } else if old(self)@.has_cookie(cookie@) {
                    StoreError::DuplicateCookie
                } else {
                    StoreError::OutOfKeys
                }),
            },
    {
        proof {
            use_type_invariant(&*self);
        }
        if self.position_of_user_id(user_id).is_none() {
            return Err(StoreError::UnknownUser);
        }
        if self.position_of_cookie(cookie).is_some() {
            return Err(StoreError::DuplicateCookie);
        }
        if self.last_session_id == i32::MAX {
            return Err(StoreError::OutOfKeys);
        }
        let id: i32 = self.last_session_id + 1;
        let row = SessionRow { id, cookie: cookie.to_owned(), user_id };
        let ghost before = self@;
        let CredentialStore { users, mut sessions, last_user_id, last_session_id: _ } = self.take();
        proof {
            before.lemma_with_session_wf(user_id as int, cookie@);
            assert(sessions@.push(row).map_values(|row: SessionRow| row.record())
                =~= before.sessions.push(row.record()));
        }
        sessions.push(row);
        *self = CredentialStore { users, sessions, last_user_id, last_session_id: id };
        let mut ids: Vec<i32> = Vec::new();
        ids.push(id);
        Ok(ids)
    }

    /// Deletes the session of this key and returns how many rows went.
    pub fn delete_session(&mut self, id: i32) -> (deleted: usize)
        ensures
            final(self)@ == old(self)@.without_session(id as int),
            deleted == (if old(self)@.has_session_id(id as int) {
                1usize
            } else {
                0usize
            }),
    {
        proof {
            use_type_invariant(&*self);
        }
        let ghost before = self@;
        match self.position_of_session(id) {
            Some(i) => {
                let CredentialStore { users, mut sessions, last_user_id, last_session_id } =
                    self.take();
                proof {
                    before.lemma_without_session_at(i as int);
                    before.lemma_without_session_wf(id as int);
                    assert(sessions@.remove(i as int).map_values(|row: SessionRow| row.record())
                        =~= before.sessions.remove(i as int));
                }
                let _ = sessions.remove(i);
                *self = CredentialStore { users, sessions, last_user_id, last_session_id };
                1
            },
            None => {
                proof {
                    before.lemma_without_session_absent(id as int);
                }
                0
            },
        }
    }
}

} // verus!
