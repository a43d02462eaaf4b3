use session_auth::forms::LoginForm;
use session_auth::handlers::{do_login, do_logout, login_form, login_response, logout_response};
use session_auth::models::User;
use session_auth::response::{Page, Response};
use session_auth::session::{store_handle, NoDbReady, Session};
use session_auth::store::CredentialStore;

// Made with cost 4 from "correctbatteryhorsestapler" and from "password".
const STAPLER: &str = "$2b$04$EGdrhbKUv8Oc9vGiXX0HQOxSg445d458Muh7DAHskb6QbtCvdxcie";
const PASSWORD: &str = "$2a$04$UuTkLRZZ6QofpDOlMz32MuuxEHA43WOemOYHPz6.SjsVsyO1tDU96";

fn store() -> CredentialStore {
    let mut store = CredentialStore::new();
    assert_eq!(store.insert_user("alice", "Alice A.", STAPLER), Ok(1));
    assert_eq!(store.insert_user("bob", "Bob B.", PASSWORD), Ok(2));
    store
}

fn alice() -> User {
    User { id: 1, username: "alice".to_string(), realname: "Alice A.".to_string() }
}

fn bob() -> User {
    User { id: 2, username: "bob".to_string(), realname: "Bob B.".to_string() }
}

fn refusal() -> Response {
    Response {
        status: 200,
        location: None,
        set_cookie: None,
        content_type: "text/html; charset=utf-8".to_string(),
        page: Page::Login { message: Some("Authentication failed".to_string()) },
    }
}

fn is_secret(cookie: &str) -> bool {
    cookie.len() == 48 && cookie.chars().all(|c| c.is_ascii_alphanumeric())
}

#[test]
fn right_password_lets_the_user_in() {
    let db = store();
    assert_eq!(User::authenticate(&db, "alice", "correctbatteryhorsestapler"), Some(alice()));
    assert_eq!(User::authenticate(&db, "bob", "password"), Some(bob()));
}

#[test]
fn wrong_password_and_unknown_user_fail_alike() {
    let db = store();
    assert_eq!(User::authenticate(&db, "alice", "wrong"), None);
    assert_eq!(User::authenticate(&db, "alice", "password"), None);
    assert_eq!(User::authenticate(&db, "carol", "password"), None);
    assert_eq!(User::authenticate(&db, "", ""), None);
}

#[test]
fn unreadable_hash_lets_nobody_in() {
    let mut db = CredentialStore::new();
    assert_eq!(db.insert_user("alice", "Alice", "not a hash"), Ok(1));
    assert_eq!(User::authenticate(&db, "alice", "not a hash"), None);
}

#[test]
fn check_password_decides_on_what_was_found() {
    let found = Some((alice(), STAPLER.to_string()));
    assert_eq!(User::check_password(found, "correctbatteryhorsestapler"), Some(alice()));
    let found = Some((alice(), STAPLER.to_string()));
    assert_eq!(User::check_password(found, "incorrect"), None);
    assert_eq!(User::check_password(None, "correctbatteryhorsestapler"), None);
}

#[test]
fn only_a_passed_check_lets_the_user_in() {
    assert_eq!(User::if_verified(alice(), Ok(true)), Some(alice()));
    assert_eq!(User::if_verified(alice(), Ok(false)), None);
    assert_eq!(User::if_verified(alice(), Err(bcrypt::BcryptError::InvalidPassword)), None);
}

#[test]
fn login_issues_a_secret_that_resolves_to_the_user() {
    let mut session = Session::from_key(store(), None);
    assert!(session.user().is_none());
    let cookie = session.authenticate("alice", "correctbatteryhorsestapler").expect("logged in");
    assert!(is_secret(&cookie));
    assert_eq!(session.user(), Some(&alice()));
    assert_eq!(session.id(), Some(1));

    let next = Session::from_key(session.into_db(), Some(&cookie));
    assert_eq!(next.user(), Some(&alice()));
    assert_eq!(next.id(), Some(1));
}

#[test]
fn failed_login_changes_nothing() {
    let mut session = Session::from_key(store(), None);
    assert_eq!(session.authenticate("alice", "wrong"), None);
    assert_eq!(session.authenticate("carol", "correctbatteryhorsestapler"), None);
    assert!(session.user().is_none());
    assert_eq!(session.id(), None);
    let mut db = session.into_db();
    // The next session row still gets the first key.
    assert_eq!(db.insert_session(1, "cookie"), Ok(vec![1]));
}

#[test]
fn two_logins_get_two_secrets() {
    let mut session = Session::from_key(store(), None);
    let first = session.authenticate("alice", "correctbatteryhorsestapler").unwrap();
    let mut session = Session::from_key(session.into_db(), None);
    let second = session.authenticate("alice", "correctbatteryhorsestapler").unwrap();
    assert_ne!(first, second);
    assert_eq!(session.id(), Some(2));
    let db = session.into_db();
    assert_eq!(db.find_session(&first), Some((1, alice())));
    assert_eq!(db.find_session(&second), Some((2, alice())));
}

#[test]
fn no_cookie_and_unknown_cookie_are_anonymous() {
    let session = Session::from_key(store(), None);
    assert!(session.user().is_none());
    assert_eq!(session.id(), None);
    let session = Session::from_key(session.into_db(), Some("nobody has this cookie"));
    assert!(session.user().is_none());
    assert_eq!(session.id(), None);
}

#[test]
fn logout_makes_the_cookie_anonymous() {
    let mut session = Session::from_key(store(), None);
    let cookie = session.authenticate("bob", "password").unwrap();
    let mut session = Session::from_key(session.into_db(), Some(&cookie));
    assert_eq!(session.user(), Some(&bob()));

    session.clear();
    assert!(session.user().is_none());
    assert_eq!(session.id(), None);

    let session = Session::from_key(session.into_db(), Some(&cookie));
    assert!(session.user().is_none());
    assert_eq!(session.id(), None);
}

#[test]
fn logout_keeps_the_sessions_of_others() {
    let mut session = Session::from_key(store(), None);
    let hers = session.authenticate("alice", "correctbatteryhorsestapler").unwrap();
    let mut session = Session::from_key(session.into_db(), None);
    let his = session.authenticate("bob", "password").unwrap();

    let mut session = Session::from_key(session.into_db(), Some(&hers));
    session.clear();
    let db = session.into_db();
    assert_eq!(db.find_session(&hers), None);
    assert_eq!(db.find_session(&his), Some((2, bob())));
}

#[test]
fn logout_of_an_anonymous_session_changes_nothing() {
    let mut db = store();
    assert_eq!(db.insert_session(2, "cookie"), Ok(vec![1]));
    let mut session = Session::from_key(db, None);
    session.clear();
    assert!(session.user().is_none());
    assert_eq!(session.db().find_session("cookie"), Some((1, bob())));
}

#[test]
fn established_needs_exactly_one_key() {
    let mut session = Session::resolved((), None);
    assert_eq!(session.established(alice(), "s".to_string(), None), None);
    assert!(session.user().is_none());
    assert_eq!(session.established(alice(), "s".to_string(), Some(vec![])), None);
    assert!(session.user().is_none());
    assert_eq!(session.established(alice(), "s".to_string(), Some(vec![4, 5])), None);
    assert!(session.user().is_none());
    assert_eq!(
        session.established(alice(), "s".to_string(), Some(vec![7])),
        Some("s".to_string())
    );
    assert_eq!(session.user(), Some(&alice()));
    assert_eq!(session.id(), Some(7));
}

#[test]
fn reset_hands_out_the_row_to_delete() {
    let mut session = Session::resolved("handle", Some((9, bob())));
    assert_eq!(session.user(), Some(&bob()));
    assert_eq!(session.reset(), Some(9));
    assert!(session.user().is_none());
    assert_eq!(session.reset(), None);
    assert_eq!(*session.db(), "handle");
}

#[test]
fn open_refuses_a_cookie_that_is_taken() {
    let mut db = store();
    assert_eq!(db.insert_session(2, "taken"), Ok(vec![1]));
    let mut session = Session::from_key(db, None);
    assert_eq!(session.open(alice(), "taken".to_string()), None);
    assert!(session.user().is_none());
    assert_eq!(session.db().find_session("taken"), Some((1, bob())));
    assert_eq!(session.open(alice(), "free".to_string()), Some("free".to_string()));
    assert_eq!(session.user(), Some(&alice()));
    assert_eq!(session.id(), Some(2));
}

#[test]
fn request_without_a_store_is_refused() {
    assert_eq!(Session::for_request(None, Some("cookie")).err(), Some(NoDbReady));
    let session = Session::for_request(Some(store()), None).ok().unwrap();
    assert!(session.user().is_none());
}

#[test]
fn login_form_is_shown_without_message() {
    let expected = Response {
        status: 200,
        location: None,
        set_cookie: None,
        content_type: "text/html; charset=utf-8".to_string(),
        page: Page::Login { message: None },
    };
    assert_eq!(login_form(), expected);
}

#[test]
fn login_response_sets_the_cookie() {
    let expected = Response {
        status: 302,
        location: Some("/".to_string()),
        set_cookie: Some("EXAUTH=abc123; SameSite=Strict".to_string()),
        content_type: "text/html; charset=utf-8".to_string(),
        page: Page::Blank,
    };
    assert_eq!(login_response(Some("abc123".to_string())), expected);
    assert_eq!(login_response(None), refusal());
}

#[test]
fn do_login_redirects_with_the_session_cookie() {
    let mut session = Session::from_key(store(), None);
    let form = LoginForm { user: "bob".to_string(), password: "password".to_string() };
    let response = do_login(&mut session, form);
    assert_eq!(response.status, 302);
    assert_eq!(response.location, Some("/".to_string()));
    assert_eq!(response.page, Page::Blank);
    let header = response.set_cookie.expect("the cookie is set");
    let secret = header
        .strip_prefix("EXAUTH=")
        .and_then(|rest| rest.strip_suffix("; SameSite=Strict"))
        .expect("the header has the cookie's shape");
    assert!(is_secret(secret));
    assert_eq!(session.user(), Some(&bob()));
    assert_eq!(session.db().find_session(secret), Some((1, bob())));
}

#[test]
fn do_login_tells_unknown_user_and_wrong_password_alike() {
    let mut session = Session::from_key(store(), None);
    let wrong = LoginForm { user: "bob".to_string(), password: "guess".to_string() };
    let unknown = LoginForm { user: "carol".to_string(), password: "password".to_string() };
    let first = do_login(&mut session, wrong);
    let second = do_login(&mut session, unknown);
    assert_eq!(first, refusal());
    assert_eq!(second, refusal());
    assert!(session.user().is_none());
}

#[test]
fn logout_expires_the_cookie() {
    let expected = Response {
        status: 302,
        location: Some("/".to_string()),
        set_cookie: Some("EXAUTH=; Max-Age=0; SameSite=Strict".to_string()),
        content_type: "text/html; charset=utf-8".to_string(),
        page: Page::Blank,
    };
    assert_eq!(logout_response(), expected);

    let mut session = Session::from_key(store(), None);
    let cookie = session.authenticate("alice", "correctbatteryhorsestapler").unwrap();
    assert_eq!(do_logout(&mut session), expected);
    assert!(session.user().is_none());
    assert_eq!(session.db().find_session(&cookie), None);
    // Logging out again is answered the same.
    assert_eq!(do_logout(&mut session), expected);
}

#[test]
fn store_handle_is_the_handle_or_the_refusal() {
    assert_eq!(store_handle(Some(7)), Ok(7));
    assert_eq!(store_handle::<i32>(None), Err(NoDbReady));
}

#[test]
fn first_login_into_a_store_without_sessions_succeeds() {
    // No session holds a cookie that could be drawn, so the login is owed.
    for _ in 0..5 {
        let mut session = Session::from_key(store(), None);
        assert!(session.authenticate("alice", "correctbatteryhorsestapler").is_some());
        let mut session = Session::from_key(store(), None);
        let form = LoginForm { user: "bob".to_string(), password: "password".to_string() };
        assert_ne!(do_login(&mut session, form), refusal());
    }
}
