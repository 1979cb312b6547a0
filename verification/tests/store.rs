use auth_service::domain::CreateUser;
use auth_service::store::{StoreError, UserStore};

const NOW: i64 = 1_700_000_000;

fn user_input(username: &str, email: &str, password: &str) -> CreateUser {
    CreateUser {
        username: username.to_owned(),
        email: email.to_owned(),
        password: password.to_owned(),
    }
}

#[test]
fn create_user_with_success() {
    let mut store = UserStore::new();
    let username = "username";
    let email = "email@gmail.com";

    let user = store
        .create_user(user_input(username, email, "password"), NOW)
        .unwrap();

    assert_eq!(user.email, email);
    assert_eq!(user.username, username);
}

#[test]
fn find_user_with_success() {
    let mut store = UserStore::new();
    let username = "username";
    let email = "email@gmail.com";

    let created_user = store
        .create_user(user_input(username, email, "password"), NOW)
        .unwrap();

    let user = store
        .find_user_by_username(username)
        .expect("user not found");

    assert_eq!(created_user, user);
}

#[test]
fn find_user_none() {
    let store = UserStore::new();
    let username = "username";

    let user = store.find_user_by_username(username);

    assert!(user.is_none());
}

#[test]
fn create_user_fills_server_side_fields() {
    let mut store = UserStore::new();

    let user = store
        .create_user(user_input("username", "email@gmail.com", "digest"), NOW)
        .unwrap();

    assert_eq!(user.id.len(), 36);
    assert_eq!(user.password_hash, "digest");
    assert_eq!(user.created_at, NOW);
    assert_eq!(user.updated_at, NOW);
}

#[test]
fn duplicate_username_is_a_unique_violation() {
    let mut store = UserStore::new();
    store
        .create_user(user_input("username", "first@email.com", "password"), NOW)
        .unwrap();

    let second = store.create_user(user_input("username", "second@email.com", "password"), NOW);

    assert_eq!(second.unwrap_err(), StoreError::UniqueViolation);
    assert_eq!(store.len(), 1);
}

#[test]
fn duplicate_email_is_a_unique_violation() {
    let mut store = UserStore::new();
    store
        .create_user(user_input("first_username", "email@gmail.com", "password"), NOW)
        .unwrap();

    let second = store.create_user(user_input("second_username", "email@gmail.com", "password"), NOW);

    assert_eq!(second.unwrap_err(), StoreError::UniqueViolation);
    assert_eq!(store.len(), 1);
}

#[test]
fn exists_counts_rows_matching_username_or_email() {
    let mut store = UserStore::new();
    assert_eq!(store.user_exists_by_username_or_email("username", "email@gmail.com"), 0);

    store
        .create_user(user_input("username", "email@gmail.com", "password"), NOW)
        .unwrap();
    store
        .create_user(user_input("other_user", "other@gmail.com", "password"), NOW)
        .unwrap();

    assert_eq!(store.user_exists_by_username_or_email("username", "email@gmail.com"), 1);
    assert_eq!(store.user_exists_by_username_or_email("username", "other@gmail.com"), 2);
    assert_eq!(store.user_exists_by_username_or_email("nobody", "nothing@x.io"), 0);
}

#[test]
fn insert_user_keeps_the_given_id() {
    let mut store = UserStore::new();

    let user = store
        .insert_user(
            user_input("username", "email@gmail.com", "digest"),
            "fixed-id".to_owned(),
            NOW,
        )
        .unwrap();

    assert_eq!(user.id, "fixed-id");

    let conflict = store.insert_user(
        user_input("other_user", "other@gmail.com", "digest"),
        "fixed-id".to_owned(),
        NOW,
    );
    assert_eq!(conflict.unwrap_err(), StoreError::IdConflict);
}

#[test]
fn generated_ids_are_distinct_parseable_uuids() {
    let mut store = UserStore::new();
    let first = store
        .create_user(user_input("first_username", "first@email.com", "password"), NOW)
        .unwrap();
    let second = store
        .create_user(user_input("second_username", "second@email.com", "password"), NOW)
        .unwrap();

    assert_ne!(first.id, second.id);
    assert!(uuid::Uuid::parse_str(&first.id).is_ok());
    assert!(uuid::Uuid::parse_str(&second.id).is_ok());
}
