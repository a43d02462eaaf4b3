//! The session that every request carries: a handle to the credential
//! store and, once logged in, the session's key and its user.

use crate::models::{authenticated, User, UserView};
use crate::schema::Tables;
use crate::secret::{all_alphanumeric, random_key, SECRET_LEN};
use crate::store::{CredentialStore, StoreError};
use vstd::prelude::*;

verus! {

/// The name of the cookie that carries a session's secret.
pub const COOKIE_NAME: &'static str = "EXAUTH";

/// No handle to the credential store could be had for a request.
#[derive(Debug, Clone, Copy, PartialEq, Eq, Structural)]
pub struct NoDbReady;

/// The handle to the credential store for a request, or the refusal of
/// the request where none could be had.
pub fn store_handle<D>(db: Option<D>) -> (handle: Result<D, NoDbReady>)
    ensures
        handle == match db {
            Some(d) => Ok::<D, NoDbReady>(d),
            None => Err::<D, NoDbReady>(NoDbReady),
        },
{
    match db {
        Some(d) => Ok(d),
        None => Err(NoDbReady),
    }
}

/// What a request knows of its client. `D` is the handle to the
/// credential store; it stays in the session whether or not anyone is
/// logged in.
pub struct Session<D> {
    db: D,
    login: Option<(i32, User)>,
}

impl<D> Session<D> {
    /// The handle to the credential store.
    pub closed spec fn store(&self) -> D {
        self.db
    }

    /// The key of the session's row and the user, when logged in.
    pub closed spec fn state(&self) -> Option<(i32, User)> {
        self.login
    }

    /// The key of the session's row and the value of the user, when
    /// logged in.
    pub open spec fn login(&self) -> Option<(int, UserView)> {
        match self.state() {
            Some((id, user)) => Some((id as int, user@)),
            None => None,
        }
    }

    /// Nobody is logged in.
    pub open spec fn is_anonymous(&self) -> bool {
        self.state() is None
    }

    /// The session for what the lookup of a cookie has found: logged in
    /// with the row's key and user, or anonymous where it found nothing.
    pub fn resolved(db: D, row: Option<(i32, User)>) -> (session: Session<D>)
        ensures
            session.store() == db,
            session.state() == row,
    {
        Session { db, login: row }
    }

    /// Logs the session in once its row has been written: `keys` holds the
    /// keys that the insertion gave back, or nothing if it failed. Only
    /// exactly one key counts as success; the secret is then handed back
    /// for the client's cookie. In every other case nothing changes.
    pub fn established(&mut self, user: User, secret: String, keys: Option<Vec<i32>>) -> (cookie:
        Option<String>)
        ensures
            final(self).store() == old(self).store(),
            match keys {
                Some(ids) if ids@.len() == 1 => cookie == Some(secret) && final(self).state()
                    == Some((ids@[0], user)),
                _ => cookie is None && final(self).state() == old(self).state(),
            },
    {
        match keys {
            Some(ids) => {
                if ids.len() == 1 {
                    self.login = Some((ids[0], user));
                    Some(secret)
                } else {
                    None
                }
            },
            None => None,
        }
    }

    /// Forgets who is logged in and returns the key of the session row
    /// that is to be deleted, if there is one.
    pub fn reset(&mut self) -> (row: Option<i32>)
        ensures
            row == match old(self).state() {
                Some((id, _)) => Some(id),
                None => None,
            },
            final(self).is_anonymous(),
            final(self).store() == old(self).store(),
    {
        let row = match &self.login {
            Some((id, _)) => Some(*id),
            None => None,
        };
        self.login = None;
        row
    }

    /// The user, when logged in.
    pub fn user(&self) -> (user: Option<&User>)
        ensures
            match user {
                Some(u) => self.state() matches Some((_, current)) && current == *u,
                None => self.is_anonymous(),
            },
    {
        match &self.login {
            Some((_, user)) => Some(user),
            None => None,
        }
    }

    /// The key of the session's row, when logged in.
    pub fn id(&self) -> (id: Option<i32>)
        ensures
            match id {
                Some(key) => self.state() matches Some((current, _)) && current == key,
                None => self.is_anonymous(),
            },
    {
        match &self.login {
            Some((id, _)) => Some(*id),
            None => None,
        }
    }

    /// The handle to the credential store.
    pub fn db(&self) -> (db: &D)
        ensures
            *db == self.store(),
    {
        &self.db
    }

    /// Gives the handle to the credential store back.
    pub fn into_db(self) -> (db: D)
        ensures
            db == self.store(),
    {
        self.db
    }
}

/// The value of an optional cookie.
pub open spec fn key_view(sessionkey: Option<&str>) -> Option<Seq<char>> {
    match sessionkey {
        Some(key) => Some(key@),
        None => None,
    }
}

/// What the lookup of an optional cookie finds in the tables: the key of
/// the session that has the cookie, and that session's user.
pub open spec fn lookup(tables: Tables, key: Option<Seq<char>>) -> Option<(int, UserView)> {
    match key {
        Some(cookie) => match tables.resolve(cookie) {
            Some(row) => Some((row.0, row.1.public())),
            None => None,
        },
        None => None,
    }
}

/// What a login under `secret` has done to a session: the secret has the
/// fixed length and holds letters and digits only, the store took a row
/// for it, the session is logged in as the user under that row, and the
/// secret resolves to that very session and user.
pub open spec fn logged_in(
    before: Session<CredentialStore>,
    after: Session<CredentialStore>,
    user: UserView,
    secret: Seq<char>,
) -> bool {
    &&& secret.len() == SECRET_LEN
    &&& all_alphanumeric(secret)
    &&& before.store()@.accepts_session(user.id, secret)
    &&& after.store()@ == before.store()@.with_session(user.id, secret)
    &&& after.login() == Some((after.store()@.last_session_id, user))
    &&& lookup(after.store()@, Some(secret)) == after.login()
}

/// Whether the store takes a session row for this user under every secret
/// that can be drawn for it: the user exists, a key is left and no
/// session holds a cookie of the secret's length made of letters and
/// digits. A login is then sure of its row.
pub open spec fn takes_any_secret(tables: Tables, user_id: int) -> bool {
    forall|secret: Seq<char>|
        secret.len() == SECRET_LEN && all_alphanumeric(secret) ==> #[trigger] tables.accepts_session(
            user_id,
            secret,
        )
}

impl Session<CredentialStore> {
    /// Nothing differs between the two sessions: the tables hold the same
    /// rows and the same client is logged in, or none.
    pub open spec fn same_as(&self, other: &Session<CredentialStore>) -> bool {
        self.store()@ == other.store()@ && self.state() == other.state()
    }

    /// The session of a request: the store, and what the request's cookie
    /// resolves to in it. No cookie and a cookie that no session has both
    /// give an anonymous session.
    pub fn from_key(db: CredentialStore, sessionkey: Option<&str>) -> (session: Session<
        CredentialStore,
    >)
        ensures
            session.store() == db,
            session.login() == lookup(db@, key_view(sessionkey)),
    {
        let row = match sessionkey {
            Some(key) => db.find_session(key),
            None => None,
        };
        Session::resolved(db, row)
    }

    /// The session of a request, given the store if one could be had: the
    /// request is refused where none could.
    pub fn for_request(db: Option<CredentialStore>, sessionkey: Option<&str>) -> (session: Result<
        Session<CredentialStore>,
        NoDbReady,
    >)
        ensures
            match db {
                Some(store) => session matches Ok(s) && s.store() == store && s.login() == lookup(
                    store@,
                    key_view(sessionkey),
                ),
                None => session is Err,
            },
    {
        match store_handle(db) {
            Ok(store) => Ok(Session::from_key(store, sessionkey)),
            Err(refusal) => Err(refusal),
        }
    }

    /// Writes the session row for a user who has been let in, under a given
    /// secret, and logs the session in if the store took the row.
    pub fn open(&mut self, user: User, secret: String) -> (cookie: Option<String>)
        ensures
            match cookie {
                Some(c) => {
                    &&& c == secret
                    &&& old(self).store()@.accepts_session(user.id as int, secret@)
                    &&& final(self).store()@ == old(self).store()@.with_session(
                        user.id as int,
                        secret@,
                    )
                    &&& final(self).login() == Some((final(self).store()@.last_session_id, user@))
                },
                None => {
                    &&& !old(self).store()@.accepts_session(user.id as int, secret@)
                    &&& final(self).same_as(old(self))
                },
            },
    {
        let keys = match self.db.insert_session(user.id, secret.as_str()) {
            Ok(ids) => Some(ids),
            Err(_) => None,
        };
        self.established(user, secret, keys)
    }

    /// Attempts to log a user in. Where the login name and the password
    /// are right, a session row with a fresh random secret is written and
    /// the secret is returned; in every other case nothing changes and
    /// nothing is returned, whatever the reason. A user whose name and
    /// password are right is logged in wherever the store takes the row
    /// under any secret; where it would refuse some, the login fails only
    /// if such a secret was drawn.
    pub fn authenticate(&mut self, username: &str, password: &str) -> (cookie: Option<String>)
        ensures
            authenticated(old(self).store()@, username@, password@) is None ==> cookie is None,
            (authenticated(old(self).store()@, username@, password@) matches Some(user)
                && takes_any_secret(old(self).store()@, user.id)) ==> cookie is Some,
            match cookie {
                Some(c) => authenticated(old(self).store()@, username@, password@) matches Some(
                    user,
                ) && logged_in(*old(self), *final(self), user, c@),
                None => final(self).same_as(old(self)),
            },
    {
        proof {
            use_type_invariant(&self.db);
        }
        match User::authenticate(&self.db, username, password) {
            Some(user) => {
                let secret = random_key(SECRET_LEN);
                proof {
                    if self.db@.accepts_session(user.id as int, secret@) {
                        law_login_resolves(self.db@, username@, password@, secret@);
                    }
                }
                self.open(user, secret)
            },
            None => None,
        }
    }

    /// Adds a user to the store. Who is logged in does not change.
    pub fn register(&mut self, username: &str, realname: &str, password: &str) -> (res: Result<
        i32,
        StoreError,
    >)
        ensures
            final(self).state() == old(self).state(),
            match res {
                Ok(id) => {
                    &&& old(self).store()@.accepts_user(username@)
                    &&& final(self).store()@ == old(self).store()@.with_user(
                        username@,
                        realname@,
                        password@,
                    )
                    &&& id == final(self).store()@.last_user_id
                },
                Err(e) => {
                    &&& !old(self).store()@.accepts_user(username@)
                    &&& final(self).store()@ == old(self).store()@
                    &&& e == (if old(self).store()@.has_user(username@) {
                        StoreError::DuplicateUsername
                    } else {
                        StoreError::OutOfKeys
                    })
                },
            },
    {
        self.db.insert_user(username, realname, password)
    }

    /// Deletes the session's row, if there is one, and forgets who was
    /// logged in. The store stays.
    pub fn clear(&mut self)
        ensures
            final(self).is_anonymous(),
            final(self).store()@ == after_logout(old(self).store()@, old(self).login()),
    {
        match self.reset() {
            Some(id) => {
                let _ = self.db.delete_session(id);
            },
            None => {},
        }
    }
}

/// The tables after the logout of a session that has resolved to `login`.
pub open spec fn after_logout(tables: Tables, login: Option<(int, UserView)>) -> Tables {
    match login {
        Some((id, _)) => tables.without_session(id),
        None => tables,
    }
}

/// After a login, the new cookie resolves to the session that was made
/// and to the user who logged in.
pub proof fn law_login_resolves(
    tables: Tables,
    username: Seq<char>,
    password: Seq<char>,
    cookie: Seq<char>,
)
    requires
        tables.wf(),
        authenticated(tables, username, password) matches Some(user) && tables.accepts_session(
            user.id,
            cookie,
        ),
    ensures
        authenticated(tables, username, password) matches Some(user) && lookup(
            tables.with_session(user.id, cookie),
            Some(cookie),
        ) == Some((tables.last_session_id + 1, user)),
{
    let row = tables.user_named(username)->0;
    let k = choose|k: int|
        0 <= k < tables.users.len() && (#[trigger] tables.users[k]).username == username;
    let next = tables.with_session(row.id, cookie);
    tables.lemma_with_session_wf(row.id, cookie);
    next.lemma_session_with_cookie(tables.sessions.len() as int);
    next.lemma_user_with_id(k);
}

/// A login changes nothing for the cookies of other sessions.
pub proof fn law_login_keeps_others(
    tables: Tables,
    user_id: int,
    cookie: Seq<char>,
    other: Seq<char>,
)
    requires
        tables.wf(),
        tables.accepts_session(user_id, cookie),
        other != cookie,
    ensures
        tables.with_session(user_id, cookie).resolve(other) == tables.resolve(other),
{
    let next = tables.with_session(user_id, cookie);
    tables.lemma_with_session_wf(user_id, cookie);
    if tables.has_cookie(other) {
        let i = choose|i: int|
            0 <= i < tables.sessions.len() && (#[trigger] tables.sessions[i]).cookie == other;
        tables.lemma_session_with_cookie(i);
        assert(next.sessions[i] == tables.sessions[i]);
        next.lemma_session_with_cookie(i);
    } else {
        if next.has_cookie(other) {
            let i = choose|i: int|
                0 <= i < next.sessions.len() && (#[trigger] next.sessions[i]).cookie == other;
            if i < tables.sessions.len() {
                assert(tables.sessions[i].cookie == other);
            }
            assert(false);
        }
    }
}

/// After the logout of the session that a cookie has resolved to, the
/// cookie resolves to nothing: a request that brings it is anonymous.
pub proof fn law_logout_forgets(tables: Tables, key: Option<Seq<char>>)
    requires
        tables.wf(),
    ensures
        lookup(after_logout(tables, lookup(tables, key)), key) is None,
{
    if let Some(cookie) = key {
        if tables.has_cookie(cookie) {
            let i = choose|i: int|
                0 <= i < tables.sessions.len() && (#[trigger] tables.sessions[i]).cookie == cookie;
            tables.lemma_session_with_cookie(i);
            let id = tables.sessions[i].id;
            assert(tables.has_user_id(tables.sessions[i].user_id));
            let next = tables.without_session(id);
            tables.lemma_without_session_at(i);
            if next.has_cookie(cookie) {
                let k = choose|k: int|
                    0 <= k < next.sessions.len() && (#[trigger] next.sessions[k]).cookie == cookie;
                let k0 = if k < i {
                    k
                } else {
                    k + 1
                };
                assert(next.sessions[k] == tables.sessions[k0]);
                if k0 < i {
                    assert(tables.sessions[k0].cookie != tables.sessions[i].cookie);
                } else {
                    assert(tables.sessions[i].cookie != tables.sessions[k0].cookie);
                }
                assert(false);
            }
        }
    }
}

/// A logout changes nothing for the cookies of other sessions.
pub proof fn law_logout_keeps_others(tables: Tables, id: int, other: Seq<char>)
    requires
        tables.wf(),
        tables.session_with_cookie(other) matches Some(session) && session.id != id,
    ensures
        tables.without_session(id).resolve(other) == tables.resolve(other),
{
    let next = tables.without_session(id);
    tables.lemma_without_session_wf(id);
    let j = choose|j: int|
        0 <= j < tables.sessions.len() && (#[trigger] tables.sessions[j]).cookie == other;
    tables.lemma_session_with_cookie(j);
    if tables.has_session_id(id) {
        let i = choose|i: int|
            0 <= i < tables.sessions.len() && (#[trigger] tables.sessions[i]).id == id;
        tables.lemma_without_session_at(i);
        let j1 = if j < i {
            j
        } else {
            j - 1
        };
        assert(next.sessions[j1] == tables.sessions[j]);
        next.lemma_session_with_cookie(j1);
    } else {
        tables.lemma_without_session_absent(id);
    }
}

/// A store that has the user, has a key left and holds no session whose
/// cookie could be drawn as a secret takes a row for the user under any
/// secret; a store without sessions is one.
pub proof fn law_login_owed(tables: Tables, user_id: int)
    requires
        tables.has_user_id(user_id),
        tables.last_session_id < i32::MAX,
        forall|i: int|
            0 <= i < tables.sessions.len() ==> !((#[trigger] tables.sessions[i]).cookie.len()
                == SECRET_LEN && all_alphanumeric(tables.sessions[i].cookie)),
    ensures
        takes_any_secret(tables, user_id),
{
}

} // verus!
