use auth_extension::model::{PersistenceError, User};
use auth_extension::store::{single_match, CredentialStore};

fn user(id: i64, username: &str, password_hash: &str) -> User {
    User {
        id,
        username: username.to_string(),
        password_hash: password_hash.to_string(),
    }
}

#[test]
fn new_store_is_empty() {
    let store = CredentialStore::new();
    assert_eq!(store.len(), 0);
    assert_eq!(store.find_user("alice", "h"), None);
    assert!(store.matching_users("alice", "h").is_empty());
}

#[test]
fn first_user_gets_identifier_one() {
    let mut store = CredentialStore::new();
    assert_eq!(store.create_user("alice", "h1"), Ok(1));
    assert_eq!(store.len(), 1);
}

#[test]
fn identifiers_count_upwards() {
    let mut store = CredentialStore::new();
    assert_eq!(store.create_user("alice", "h1"), Ok(1));
    assert_eq!(store.create_user("bob", "h2"), Ok(2));
    assert_eq!(store.create_user("carol", "h3"), Ok(3));
    assert_eq!(store.len(), 3);
}

#[test]
fn find_user_returns_the_stored_row() {
    let mut store = CredentialStore::new();
    store.create_user("alice", "h1").unwrap();
    store.create_user("bob", "h2").unwrap();
    assert_eq!(store.find_user("bob", "h2"), Some(user(2, "bob", "h2")));
    assert_eq!(store.find_user("alice", "h1"), Some(user(1, "alice", "h1")));
}

#[test]
fn find_user_needs_both_fields_equal() {
    let mut store = CredentialStore::new();
    store.create_user("alice", "h1").unwrap();
    store.create_user("bob", "h2").unwrap();
    assert_eq!(store.find_user("alice", "h2"), None);
    assert_eq!(store.find_user("bob", "h1"), None);
    assert_eq!(store.find_user("carol", "h1"), None);
    assert_eq!(store.find_user("", ""), None);
    assert_eq!(store.find_user("Alice", "h1"), None);
}

#[test]
fn find_user_does_not_change_the_table() {
    let mut store = CredentialStore::new();
    store.create_user("alice", "h1").unwrap();
    store.find_user("alice", "h1");
    store.find_user("bob", "h2");
    assert_eq!(store.len(), 1);
    assert_eq!(store.create_user("bob", "h2"), Ok(2));
}

#[test]
fn a_username_may_be_stored_twice() {
    let mut store = CredentialStore::new();
    assert_eq!(store.create_user("alice", "h1"), Ok(1));
    assert_eq!(store.create_user("alice", "h2"), Ok(2));
    assert_eq!(store.find_user("alice", "h1"), Some(user(1, "alice", "h1")));
    assert_eq!(store.find_user("alice", "h2"), Some(user(2, "alice", "h2")));
}

#[test]
fn two_rows_with_the_same_credentials_are_both_matched() {
    let mut store = CredentialStore::new();
    store.create_user("alice", "h1").unwrap();
    store.create_user("bob", "h2").unwrap();
    store.create_user("alice", "h1").unwrap();
    assert_eq!(
        store.matching_users("alice", "h1"),
        vec![user(1, "alice", "h1"), user(3, "alice", "h1")]
    );
    assert_eq!(store.matching_users("bob", "h2"), vec![user(2, "bob", "h2")]);
}

#[test]
fn find_user_wants_exactly_one_match() {
    let mut store = CredentialStore::new();
    store.create_user("alice", "h1").unwrap();
    store.create_user("alice", "h1").unwrap();
    assert_eq!(store.find_user("alice", "h1"), None);
}

#[test]
fn single_match_of_one_row() {
    assert_eq!(
        single_match(vec![user(4, "dave", "h")]),
        Some(user(4, "dave", "h"))
    );
}

#[test]
fn single_match_of_no_row() {
    assert_eq!(single_match(vec![]), None);
}

#[test]
fn single_match_of_several_rows() {
    assert_eq!(
        single_match(vec![user(1, "dave", "h"), user(2, "dave", "h")]),
        None
    );
    assert_eq!(
        single_match(vec![
            user(1, "dave", "h"),
            user(2, "dave", "h"),
            user(3, "dave", "h")
        ]),
        None
    );
}

#[test]
fn from_rows_adopts_a_valid_table() {
    let rows = vec![user(2, "alice", "h1"), user(5, "bob", "h2")];
    let mut store = CredentialStore::from_rows(rows).unwrap();
    assert_eq!(store.len(), 2);
    assert_eq!(store.find_user("bob", "h2"), Some(user(5, "bob", "h2")));
    assert_eq!(store.create_user("carol", "h3"), Ok(6));
}

#[test]
fn from_rows_of_nothing_is_the_empty_table() {
    let mut store = CredentialStore::from_rows(vec![]).unwrap();
    assert_eq!(store.len(), 0);
    assert_eq!(store.create_user("alice", "h1"), Ok(1));
}

#[test]
fn from_rows_refuses_an_identifier_below_one() {
    assert!(CredentialStore::from_rows(vec![user(0, "alice", "h1")]).is_none());
    assert!(CredentialStore::from_rows(vec![user(-3, "alice", "h1")]).is_none());
    assert!(
        CredentialStore::from_rows(vec![user(1, "alice", "h1"), user(0, "bob", "h2")]).is_none()
    );
}

#[test]
fn from_rows_refuses_a_repeated_identifier() {
    let rows = vec![user(1, "alice", "h1"), user(1, "bob", "h2")];
    assert!(CredentialStore::from_rows(rows).is_none());
}

#[test]
fn from_rows_refuses_identifiers_out_of_order() {
    let rows = vec![user(1, "alice", "h1"), user(3, "bob", "h2"), user(2, "carol", "h3")];
    assert!(CredentialStore::from_rows(rows).is_none());
}

#[test]
fn create_user_fails_when_identifiers_are_exhausted() {
    let mut store = CredentialStore::from_rows(vec![user(i64::MAX, "alice", "h1")]).unwrap();
    assert_eq!(
        store.create_user("bob", "h2"),
        Err(PersistenceError {
            detail: "user identifiers are exhausted".to_string()
        })
    );
    assert_eq!(store.len(), 1);
    assert_eq!(store.find_user("bob", "h2"), None);
    assert_eq!(
        store.find_user("alice", "h1"),
        Some(user(i64::MAX, "alice", "h1"))
    );
}

#[test]
fn last_identifier_can_still_be_assigned() {
    let mut store = CredentialStore::from_rows(vec![user(i64::MAX - 1, "alice", "h1")]).unwrap();
    assert_eq!(store.create_user("bob", "h2"), Ok(i64::MAX));
    assert!(store.create_user("carol", "h3").is_err());
}
