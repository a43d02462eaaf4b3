use session_auth::models::User;
use session_auth::store::{CredentialStore, StoreError};

fn carol() -> User {
    User { id: 1, username: "carol".to_string(), realname: "Carol C.".to_string() }
}

#[test]
fn empty_store_finds_nothing() {
    let store = CredentialStore::new();
    assert_eq!(store.find_user("carol"), None);
    assert_eq!(store.find_session("cookie"), None);
}

#[test]
fn users_get_keys_in_order() {
    let mut store = CredentialStore::new();
    assert_eq!(store.insert_user("carol", "Carol C.", "h1"), Ok(1));
    assert_eq!(store.insert_user("dave", "Dave D.", "h2"), Ok(2));
    assert_eq!(store.find_user("carol"), Some((carol(), "h1".to_string())));
    let dave = User { id: 2, username: "dave".to_string(), realname: "Dave D.".to_string() };
    assert_eq!(store.find_user("dave"), Some((dave, "h2".to_string())));
    assert_eq!(store.find_user("Carol"), None);
    assert_eq!(store.find_user("caro"), None);
}

#[test]
fn duplicate_username_is_refused() {
    let mut store = CredentialStore::new();
    assert_eq!(store.insert_user("carol", "Carol C.", "h1"), Ok(1));
    assert_eq!(store.insert_user("carol", "Other", "h2"), Err(StoreError::DuplicateUsername));
    assert_eq!(store.find_user("carol"), Some((carol(), "h1".to_string())));
    // The refused row has used no key.
    assert_eq!(store.insert_user("dave", "Dave D.", "h2"), Ok(2));
}

#[test]
fn session_needs_its_user() {
    let mut store = CredentialStore::new();
    assert_eq!(store.insert_session(1, "cookie"), Err(StoreError::UnknownUser));
    assert_eq!(store.insert_user("carol", "Carol C.", "h1"), Ok(1));
    assert_eq!(store.insert_session(2, "cookie"), Err(StoreError::UnknownUser));
    assert_eq!(store.insert_session(1, "cookie"), Ok(vec![1]));
    assert_eq!(store.find_session("cookie"), Some((1, carol())));
}

#[test]
fn duplicate_cookie_is_refused() {
    let mut store = CredentialStore::new();
    assert_eq!(store.insert_user("carol", "Carol C.", "h1"), Ok(1));
    assert_eq!(store.insert_session(1, "cookie"), Ok(vec![1]));
    assert_eq!(store.insert_session(1, "cookie"), Err(StoreError::DuplicateCookie));
    assert_eq!(store.insert_session(1, "other"), Ok(vec![2]));
}

#[test]
fn one_user_may_have_several_sessions() {
    let mut store = CredentialStore::new();
    assert_eq!(store.insert_user("carol", "Carol C.", "h1"), Ok(1));
    assert_eq!(store.insert_session(1, "first"), Ok(vec![1]));
    assert_eq!(store.insert_session(1, "second"), Ok(vec![2]));
    assert_eq!(store.find_session("first"), Some((1, carol())));
    assert_eq!(store.find_session("second"), Some((2, carol())));
}

#[test]
fn deleted_session_is_gone_and_its_key_is_not_used_again() {
    let mut store = CredentialStore::new();
    assert_eq!(store.insert_user("carol", "Carol C.", "h1"), Ok(1));
    assert_eq!(store.insert_session(1, "first"), Ok(vec![1]));
    assert_eq!(store.insert_session(1, "second"), Ok(vec![2]));
    assert_eq!(store.delete_session(1), 1);
    assert_eq!(store.delete_session(1), 0);
    assert_eq!(store.delete_session(7), 0);
    assert_eq!(store.find_session("first"), None);
    assert_eq!(store.find_session("second"), Some((2, carol())));
    assert_eq!(store.insert_session(1, "first"), Ok(vec![3]));
}

#[test]
fn tables_run_out_of_keys() {
    let mut store = CredentialStore::after_keys(i32::MAX - 1, i32::MAX).unwrap();
    assert_eq!(store.insert_user("carol", "Carol C.", "h1"), Ok(i32::MAX));
    assert_eq!(store.insert_user("dave", "Dave D.", "h2"), Err(StoreError::OutOfKeys));
    assert_eq!(store.insert_session(i32::MAX, "cookie"), Err(StoreError::OutOfKeys));
    assert!(CredentialStore::after_keys(-1, 0).is_none());
    assert!(CredentialStore::after_keys(0, -1).is_none());
}

#[test]
fn refusals_say_what_was_wrong() {
    assert_eq!(StoreError::DuplicateUsername.message(), "a user of that name exists already");
    assert_eq!(StoreError::DuplicateCookie.message(), "a session with that cookie exists already");
    assert_eq!(StoreError::UnknownUser.message(), "the user of the session does not exist");
    assert_eq!(StoreError::OutOfKeys.message(), "the table has no key left");
}
