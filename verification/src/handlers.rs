//! The request handlers: what each route answers, given the session of
//! the request and what the client has submitted.

use crate::forms::{LoginForm, SignupForm};
use crate::models::{authenticated, UserView};
use crate::password::{error_text, hash, password_check};
use crate::response::{html_page, redirect_home, Page, PageView, Response, ResponseView};
use crate::schema::Tables;
use crate::session::{after_logout, logged_in, takes_any_secret, Session};
use crate::store::CredentialStore;
use vstd::prelude::*;
use vstd::string::StringExecFns;

verus! {

/// The `Set-Cookie` header that hands a session's secret to the client.
pub open spec fn session_cookie(secret: Seq<char>) -> Seq<char> {
    "EXAUTH="@ + secret + "; SameSite=Strict"@
}

/// The `Set-Cookie` header that makes the client drop its session cookie.
pub open spec fn expired_cookie() -> Seq<char> {
    "EXAUTH=; Max-Age=0; SameSite=Strict"@
}

/// What the login form says after a failed attempt, whatever the reason.
pub open spec fn login_refusal() -> Seq<char> {
    "Authentication failed"@
}

/// The answer to a login attempt: a redirect home that sets the session
/// cookie where a secret was issued, the login form with the one refusal
/// otherwise.
pub open spec fn login_answer(secret: Option<Seq<char>>) -> ResponseView {
    match secret {
        Some(s) => redirect_home(Some(session_cookie(s))),
        None => html_page(200, PageView::Login { message: Some(login_refusal()) }),
    }
}

/// The answer to a signup: a redirect home where the account was made,
/// the signup form with the message otherwise.
pub open spec fn signup_answer(failure: Option<Seq<char>>) -> ResponseView {
    match failure {
        None => redirect_home(None),
        Some(message) => html_page(200, PageView::Signup { message: Some(message) }),
    }
}

/// The message for a password that could not be hashed.
pub open spec fn hash_failure(reason: Seq<char>) -> Seq<char> {
    "Hash failed: "@ + reason
}

/// The message for a user row that the store refused. It is the same
/// whatever the store's reason was: nothing of the reason is shown.
pub open spec fn store_failure() -> Seq<char> {
    "Oops: the account could not be created"@
}

/// The message for a password that could not be hashed, given what the
/// hashing said.
pub fn hash_failed(reason: &str) -> (message: String)
    ensures
        message@ == hash_failure(reason@),
{
    String::from_str("Hash failed: ").concat(reason)
}

/// The message for a user row that the store refused, whatever its
/// reason was.
pub fn store_refused() -> (message: String)
    ensures
        message@ == store_failure(),
{
    "Oops: the account could not be created".to_owned()
}

/// The login form, as first shown.
pub fn login_form() -> (response: Response)
    ensures
        response@ == html_page(200, PageView::Login { message: None }),
{
    Response::html(200, Page::Login { message: None })
}

/// The answer to a login attempt, given the secret that the session
/// issued, if it issued one.
pub fn login_response(cookie: Option<String>) -> (response: Response)
    ensures
        response@ == login_answer(
            match cookie {
                Some(secret) => Some(secret@),
                None => None,
            },
        ),
{
    match cookie {
        Some(secret) => {
            let header = String::from_str("EXAUTH=").concat(secret.as_str()).concat(
                "; SameSite=Strict",
            );
            Response::redirect(Some(header))
        },
        None => Response::html(
            200,
            Page::Login { message: Some("Authentication failed".to_owned()) },
        ),
    }
}

/// Handles a submitted login form: logs the session in where the
/// credentials are right, and answers with the redirect that sets the
/// cookie; answers with the login form and its one refusal otherwise,
/// with nothing changed. Right credentials get the redirect wherever the
/// store takes the session row under any secret.
pub fn do_login(session: &mut Session<CredentialStore>, form: LoginForm) -> (response: Response)
    ensures
        authenticated(old(session).store()@, form.user@, form.password@) is None ==> response@
            == login_answer(None),
        response@ == login_answer(None) ==> final(session).same_as(old(session)),
        (authenticated(old(session).store()@, form.user@, form.password@) matches Some(user)
            && takes_any_secret(old(session).store()@, user.id)) ==> response@
            != login_answer(None),
        response@ != login_answer(None) ==> {
            &&& authenticated(old(session).store()@, form.user@, form.password@) matches Some(user)
            &&& exists|secret: Seq<char>|
                response@ == login_answer(Some(secret)) && #[trigger] logged_in(
                    *old(session),
                    *final(session),
                    user,
                    secret,
                )
        },
{
    let cookie = session.authenticate(form.user.as_str(), form.password.as_str());
    login_response(cookie)
}

/// The answer to a logout.
pub fn logout_response() -> (response: Response)
    ensures
        response@ == redirect_home(Some(expired_cookie())),
{
    Response::redirect(Some("EXAUTH=; Max-Age=0; SameSite=Strict".to_owned()))
}

/// Handles a logout: clears the session and makes the client drop its
/// cookie. The client is told the same whether or not a session existed.
pub fn do_logout(session: &mut Session<CredentialStore>) -> (response: Response)
    ensures
        response@ == redirect_home(Some(expired_cookie())),
        final(session).is_anonymous(),
        final(session).store()@ == after_logout(old(session).store()@, old(session).login()),
{
    session.clear();
    logout_response()
}

/// The signup form, as first shown.
pub fn signup_form() -> (response: Response)
    ensures
        response@ == html_page(200, PageView::Signup { message: None }),
{
    Response::html(200, Page::Signup { message: None })
}

/// The answer to a signup, given what went wrong, if anything did.
pub fn signup_response(failure: Option<String>) -> (response: Response)
    ensures
        response@ == signup_answer(
            match failure {
                Some(message) => Some(message@),
                None => None,
            },
        ),
{
    match failure {
        None => Response::redirect(None),
        Some(message) => Response::html(200, Page::Signup { message: Some(message) }),
    }
}

/// A user row that is ready for the store: the password is hashed.
pub struct NewUser {
    pub username: String,
    pub realname: String,
    pub password: String,
}

impl SignupForm {
    /// Makes the user row of a form that has passed validation, given how
    /// the hashing of its password went: the hash, or the text of the
    /// error.
    pub fn hashed(self, outcome: Result<String, String>) -> (row: Result<NewUser, String>)
        ensures
            match outcome {
                Ok(hash) => row matches Ok(new) && new.username == self.user && new.realname
                    == self.realname && new.password == hash,
                Err(reason) => row matches Err(message) && message@ == hash_failure(reason@),
            },
    {
        match outcome {
            Ok(hash) => Ok(NewUser { username: self.user, realname: self.realname, password: hash }),
            Err(reason) => Err(hash_failed(reason.as_str())),
        }
    }

    /// Validates the form and hashes its password. The message of a form
    /// that fails validation is its complaint; a form that passes gives a
    /// row whose hash was made from the form's password, unless hashing
    /// fails, as it always does for a password that holds a NUL character.
    pub fn prepare(self) -> (row: Result<NewUser, String>)
        ensures
            match row {
                Ok(new) => {
                    &&& self.complaint() is None
                    &&& new.username@ == self.user@
                    &&& new.realname@ == self.realname@
                    &&& password_check(self.password@, new.password@) == Some(true)
                },
                Err(message) => match self.complaint() {
                    Some(complaint) => message@ == complaint,
                    None => exists|reason: Seq<char>| message@ == #[trigger] hash_failure(reason),
                },
            },
            self.password@.contains('\0') ==> row is Err,
    {
        match self.validate() {
            Ok(form) => {
                let outcome = match hash(form.password.as_str()) {
                    Ok(hash) => Ok(hash),
                    Err(e) => Err(error_text(&e)),
                };
                let ghost hashing = outcome;
                let row = form.hashed(outcome);
                proof {
                    if let Err(reason) = hashing {
                        assert(row matches Err(message) && message@ == hash_failure(reason@));
                    }
                }
                row
            },
            Err(complaint) => Err(complaint.to_owned()),
        }
    }
}

/// What a signup has done to the tables when it went through: the user
/// was accepted and added, with a hash made from the submitted password.
pub open spec fn signed_up(
    before: Tables,
    after: Tables,
    user: Seq<char>,
    realname: Seq<char>,
    password: Seq<char>,
) -> bool {
    &&& before.accepts_user(user)
    &&& after.users.len() > 0
    &&& after == before.with_user(user, realname, after.users.last().password)
    &&& password_check(password, after.users.last().password) == Some(true)
}

/// Finishes a signup, given what validation and hashing have made of the
/// form: the row to add, or the message of what went wrong. A row is
/// added where the store accepts its login name, and the answer is the
/// redirect home; where the store refuses it, the store stays as it was
/// and the signup form says that the account could not be made. A
/// message goes to the signup form as it is. Who is logged in does not
/// change.
pub fn complete_signup(session: &mut Session<CredentialStore>, row: Result<NewUser, String>) -> (response:
    Response)
    ensures
        final(session).state() == old(session).state(),
        match row {
            Err(message) => final(session).store()@ == old(session).store()@ && response@
                == signup_answer(Some(message@)),
            Ok(new) => if old(session).store()@.accepts_user(new.username@) {
                final(session).store()@ == old(session).store()@.with_user(
                    new.username@,
                    new.realname@,
                    new.password@,
                ) && response@ == signup_answer(None)
            } else {
                final(session).store()@ == old(session).store()@ && response@ == signup_answer(
                    Some(store_failure()),
                )
            },
        },
{
    match row {
        Ok(new) => {
            match session.register(
                new.username.as_str(),
                new.realname.as_str(),
                new.password.as_str(),
            ) {
                Ok(_) => signup_response(None),
                Err(_) => signup_response(Some(store_refused())),
            }
        },
        Err(message) => signup_response(Some(message)),
    }
}

/// Handles a submitted signup form: validates it, hashes the password
/// and adds the user. The insertion comes last, so a signup that fails
/// leaves the store as it was. Who is logged in does not change.
pub fn do_signup(session: &mut Session<CredentialStore>, form: SignupForm) -> (response: Response)
    ensures
        final(session).state() == old(session).state(),
        response@ == signup_answer(None) ==> form.complaint() is None && signed_up(
            old(session).store()@,
            final(session).store()@,
            form.user@,
            form.realname@,
            form.password@,
        ),
        response@ != signup_answer(None) ==> final(session).store()@ == old(session).store()@,
        form.complaint() matches Some(complaint) ==> response@ == signup_answer(Some(complaint)),
        form.complaint() is None && response@ != signup_answer(None) ==> {
            ||| response@ == signup_answer(Some(store_failure()))
                && !old(session).store()@.accepts_user(form.user@)
            ||| exists|reason: Seq<char>|
                response@ == signup_answer(Some(#[trigger] hash_failure(reason)))
        },
{
    let row = form.prepare();
    let ghost prepared = row;
    let response = complete_signup(session, row);
    proof {
        if let Ok(new) = prepared {
            if old(session).store()@.accepts_user(new.username@) {
                assert(session.store()@.users.last().password == new.password@);
            }
        }
    }
    response
}

/// The home page, with its two numbered paragraphs.
pub fn home_page() -> (response: Response)
    ensures
        response@ == html_page(
            200,
            PageView::Home { paras: seq![("first"@, 3int), ("second"@, 7int)] },
        ),
{
    let mut paras: Vec<(String, usize)> = Vec::new();
    paras.push(("first".to_owned(), 3));
    paras.push(("second".to_owned(), 7));
    let page = Page::Home { paras };
    assert(page@ == PageView::Home { paras: seq![("first"@, 3int), ("second"@, 7int)] }) by {
        assert(paras@.map_values(|p: (String, usize)| (p.0@, p.1 as int)) =~= seq![
            ("first"@, 3int),
            ("second"@, 7int),
        ]);
    }
    Response::html(200, page)
}

/// The frameworks that the footer of every page links to: name and
/// address.
pub fn footer() -> (links: Vec<(&'static str, &'static str)>)
    ensures
        links@ == seq![
            ("warp", "https://crates.io/crates/warp"),
            ("diesel", "https://diesel.rs/"),
            ("ructe", "https://crates.io/crates/ructe"),
        ],
{
    let mut links: Vec<(&'static str, &'static str)> = Vec::new();
    links.push(("warp", "https://crates.io/crates/warp"));
    links.push(("diesel", "https://diesel.rs/"));
    links.push(("ructe", "https://crates.io/crates/ructe"));
    assert(links@ =~= seq![
        ("warp", "https://crates.io/crates/warp"),
        ("diesel", "https://diesel.rs/"),
        ("ructe", "https://crates.io/crates/ructe"),
    ]);
    links
}

/// Once a signup under a login name has gone through, no further signup
/// under that name does: of any number of signups with one name, one
/// after another, at most one succeeds.
pub proof fn law_one_signup_per_name(
    before: Tables,
    after: Tables,
    later: Tables,
    user: Seq<char>,
    realname: Seq<char>,
    password: Seq<char>,
    other_realname: Seq<char>,
    other_password: Seq<char>,
)
    requires
        before.wf(),
        signed_up(before, after, user, realname, password),
    ensures
        after.wf(),
        after.has_user(user),
        !signed_up(after, later, user, other_realname, other_password),
{
    let hash = after.users.last().password;
    before.lemma_with_user_wf(user, realname, hash);
    after.lemma_user_named(before.users.len() as int);
}

/// Who has signed up can log in: the login name and the password of a
/// signup that went through pass authentication, as the user that the
/// signup made.
pub proof fn law_signup_then_login(
    before: Tables,
    after: Tables,
    user: Seq<char>,
    realname: Seq<char>,
    password: Seq<char>,
)
    requires
        before.wf(),
        signed_up(before, after, user, realname, password),
    ensures
        authenticated(after, user, password) == Some(
            UserView { id: before.last_user_id + 1, username: user, realname },
        ),
{
    let hash = after.users.last().password;
    before.lemma_with_user_wf(user, realname, hash);
    after.lemma_user_named(before.users.len() as int);
}

/// Of two signups with one login name, made one after the other on a
/// store that accepts the name, exactly one goes through: the store takes
/// the first row, and then refuses the second.
pub proof fn law_exactly_one_signup(
    tables: Tables,
    user: Seq<char>,
    realname: Seq<char>,
    hash: Seq<char>,
)
    requires
        tables.wf(),
        tables.accepts_user(user),
    ensures
        tables.with_user(user, realname, hash).wf(),
        !tables.with_user(user, realname, hash).accepts_user(user),
{
    tables.lemma_with_user_wf(user, realname, hash);
    tables.with_user(user, realname, hash).lemma_user_named(tables.users.len() as int);
}

} // verus!
