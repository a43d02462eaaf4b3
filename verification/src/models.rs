//! The user as the rest of the service sees it: without the password hash.

use crate::html::{escape, escaped};
use crate::password::{password_check, verify};
use crate::schema::{Tables, UserRecord};
use crate::store::CredentialStore;
use vstd::prelude::*;
use vstd::string::StringExecFns;

verus! {

/// A user account, as read from the `users` table.
#[derive(Debug, PartialEq, Eq)]
pub struct User {
    pub id: i32,
    pub username: String,
    pub realname: String,
}

/// The mathematical value of a [`User`].
pub struct UserView {
    pub id: int,
    pub username: Seq<char>,
    pub realname: Seq<char>,
}

impl View for User {
    type V = UserView;

    open spec fn view(&self) -> UserView {
        UserView { id: self.id as int, username: self.username@, realname: self.realname@ }
    }
}

impl Clone for User {
    fn clone(&self) -> (copy: User)
        ensures
            copy@ == self@,
    {
        User { id: self.id, username: self.username.clone(), realname: self.realname.clone() }
    }
}

impl UserRecord {
    /// The row without its password hash.
    pub open spec fn public(self) -> UserView {
        UserView { id: self.id, username: self.username, realname: self.realname }
    }
}

/// Whom the tables and the password check let in: the user of that login
/// name, where the password is the one that the stored hash was made from.
pub open spec fn authenticated(
    tables: Tables,
    username: Seq<char>,
    password: Seq<char>,
) -> Option<UserView> {
    match tables.user_named(username) {
        Some(row) => if password_check(password, row.password) == Some(true) {
            Some(row.public())
        } else {
            None
        },
        None => None,
    }
}

/// The markup that shows a user: the real name in a `span` that carries
/// the login name, both escaped.
pub open spec fn user_markup(user: UserView) -> Seq<char> {
    "<span data-user=\""@ + escaped(user.username) + "\">"@ + escaped(user.realname) + "</span>"@
}

impl User {
    /// The user as markup for a page.
    pub fn to_html(&self) -> (markup: String)
        ensures
            markup@ == user_markup(self@),
    {
        let username = escape(self.username.as_str());
        let realname = escape(self.realname.as_str());
        String::from_str("<span data-user=\"").concat(username.as_str()).concat("\">").concat(
            realname.as_str(),
        ).concat("</span>")
    }

    /// What a finished password check means for the user it was made for:
    /// only a check that ran and found the password right lets the user in.
    pub fn if_verified(user: User, verdict: Result<bool, bcrypt::BcryptError>) -> (found: Option<
        User,
    >)
        ensures
            found == (if verdict == Ok::<bool, bcrypt::BcryptError>(true) {
                Some(user)
            } else {
                None
            }),
    {
        match verdict {
            Ok(true) => Some(user),
            Ok(false) => None,
            Err(_) => None,
        }
    }

    /// Checks a password against what a lookup by login name has found.
    /// No user found and a wrong password give the same answer.
    pub fn check_password(found: Option<(User, String)>, pass: &str) -> (user: Option<User>)
        ensures
            user == match found {
                Some((candidate, hash)) => if password_check(pass@, hash@) == Some(true) {
                    Some(candidate)
                } else {
                    None
                },
                None => None,
            },
    {
        match found {
            Some((candidate, hash)) => {
                let verdict = verify(pass, hash.as_str());
                User::if_verified(candidate, verdict)
            },
            None => None,
        }
    }

    /// Looks the user up by login name and checks the password against the
    /// stored hash.
    pub fn authenticate(db: &CredentialStore, user: &str, pass: &str) -> (found: Option<User>)
        ensures
            match found {
                Some(u) => authenticated(db@, user@, pass@) == Some(u@),
                None => authenticated(db@, user@, pass@) is None,
            },
    {
        User::check_password(db.find_user(user), pass)
    }
}

/// A login name that no user has and a wrong password for a user who
/// exists are refused alike: in both cases nobody is let in, and nothing
/// else is said.
pub proof fn law_refusals_alike(
    tables: Tables,
    unknown: Seq<char>,
    known: Seq<char>,
    password: Seq<char>,
    wrong: Seq<char>,
)
    requires
        !tables.has_user(unknown),
        tables.user_named(known) matches Some(row) && password_check(wrong, row.password) != Some(
            true,
        ),
    ensures
        authenticated(tables, unknown, password) is None,
        authenticated(tables, known, wrong) is None,
        authenticated(tables, unknown, password) == authenticated(tables, known, wrong),
{
}

} // verus!
