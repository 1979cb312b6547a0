use auth_service::domain::{CreateUser, FindUser};
use auth_service::store::UserStore;
use auth_service::user_handler::{login_handler, register_handler, ApiError};

const NOW: i64 = 1_700_000_000;
const SECRET: &str = "test-signing-secret";

fn registration(username: &str, email: &str, password: &str) -> CreateUser {
    CreateUser {
        username: username.to_owned(),
        email: email.to_owned(),
        password: password.to_owned(),
    }
}

fn login(username: &str, password: &str) -> FindUser {
    FindUser { username: username.to_owned(), password: password.to_owned() }
}

#[test]
fn register_handler_success_with_token() {
    let mut store = UserStore::new();
    let expected_username = "test_username";
    let expected_email = "test@email.com";

    let response = register_handler(
        &mut store,
        registration(expected_username, expected_email, "test_password"),
        NOW,
        SECRET,
    )
    .unwrap();

    assert!(!response.token.is_empty());
    assert_eq!(response.user.username, expected_username);
    assert_eq!(response.user.email, expected_email);
    // The digest is stored; the plaintext password is not.
    assert_ne!(response.user.password_hash, "test_password");
}

#[test]
fn register_handler_with_validation_errors() {
    let mut store = UserStore::new();
    let bad_username = "us";
    let bad_email = "testemail.com";

    let error = register_handler(
        &mut store,
        registration(bad_username, bad_email, "test_password"),
        NOW,
        SECRET,
    )
    .unwrap_err();

    let fields = match &error {
        ApiError::BadClientData(fields) => fields,
        other => panic!("expected field errors, got {:?}", other),
    };
    assert_eq!(fields.username.as_deref(), Some("invalid length"));
    assert_eq!(fields.email.as_deref(), Some("invalid email"));
    assert_eq!(fields.password, None);

    let (status, body) = error.into_response();
    assert_eq!(status, 400);
    assert_eq!(body.unwrap().message, "error validating fields");
    assert_eq!(store.len(), 0);
}

#[test]
fn register_handler_already_registered() {
    let mut store = UserStore::new();
    let taken_username = "username";
    let taken_email = "test@email.com";

    register_handler(
        &mut store,
        registration(taken_username, taken_email, "test_password"),
        NOW,
        SECRET,
    )
    .unwrap();

    let error = register_handler(
        &mut store,
        registration(taken_username, taken_email, "test_password"),
        NOW,
        SECRET,
    )
    .unwrap_err();

    assert_eq!(error, ApiError::UserAlreadyRegistered);
    let (status, body) = error.into_response();
    assert_eq!(status, 409);
    assert_eq!(body.unwrap().message, "user already registered");
    assert_eq!(store.len(), 1);
}

#[test]
fn register_handler_conflicts_on_email_alone() {
    let mut store = UserStore::new();
    register_handler(
        &mut store,
        registration("first_username", "test@email.com", "test_password"),
        NOW,
        SECRET,
    )
    .unwrap();

    let error = register_handler(
        &mut store,
        registration("second_username", "test@email.com", "test_password"),
        NOW,
        SECRET,
    )
    .unwrap_err();

    assert_eq!(error, ApiError::UserAlreadyRegistered);
    assert_eq!(store.len(), 1);
}

#[test]
fn identical_registrations_have_one_winner() {
    let mut store = UserStore::new();
    let mut successes = 0;
    let mut conflicts = 0;

    for _ in 0..5 {
        match register_handler(
            &mut store,
            registration("test_username", "test@email.com", "test_password"),
            NOW,
            SECRET,
        ) {
            Ok(_) => successes += 1,
            Err(ApiError::UserAlreadyRegistered) => conflicts += 1,
            Err(other) => panic!("unexpected error: {:?}", other),
        }
    }

    assert_eq!(successes, 1);
    assert_eq!(conflicts, 4);
    assert_eq!(store.len(), 1);
    assert_eq!(store.user_exists_by_username_or_email("test_username", "test@email.com"), 1);
}

#[test]
fn login_handler_with_success() {
    let mut store = UserStore::new();
    register_handler(
        &mut store,
        registration("test_username", "test@email.com", "test_password"),
        NOW,
        SECRET,
    )
    .unwrap();

    let response = login_handler(&store, login("test_username", "test_password"), NOW, SECRET)
        .unwrap();

    assert!(!response.token.is_empty());
    assert_eq!(response.user.username, "test_username");
    assert_eq!(response.user.email, "test@email.com");
}

#[test]
fn login_handler_failure_with_bad_credentials() {
    let mut store = UserStore::new();
    register_handler(
        &mut store,
        registration("test_username", "test@email.com", "test_password"),
        NOW,
        SECRET,
    )
    .unwrap();

    let error = login_handler(&store, login("test_username", "wrong_password"), NOW, SECRET)
        .unwrap_err();

    assert_eq!(error, ApiError::BadCredentials);
    let (status, body) = error.into_response();
    assert_eq!(status, 406);
    assert_eq!(body.unwrap().message, "bad credentials");
}

#[test]
fn login_handler_unknown_username_is_bad_credentials() {
    let store = UserStore::new();

    let error = login_handler(&store, login("test_username", "test_password"), NOW, SECRET)
        .unwrap_err();

    // The answer does not reveal whether the username exists.
    assert_eq!(error, ApiError::BadCredentials);
    assert_eq!(error.into_response().0, 406);
}

#[test]
fn login_handler_rejects_empty_fields() {
    let store = UserStore::new();

    let error = login_handler(&store, login("", "test_password"), NOW, SECRET).unwrap_err();

    let fields = match error {
        ApiError::BadClientData(fields) => fields,
        other => panic!("expected field errors, got {:?}", other),
    };
    assert_eq!(fields.username.as_deref(), Some("invalid length"));
    assert_eq!(fields.password, None);
}

#[test]
fn internal_errors_carry_no_body() {
    assert_eq!(ApiError::HashError.into_response(), (500, None));
    assert_eq!(ApiError::DbInternalError.into_response(), (500, None));
    assert_eq!(ApiError::JWTEncoding.into_response(), (500, None));
}

#[test]
fn user_not_found_maps_like_bad_credentials() {
    let (status, body) = ApiError::UserNotFound.into_response();
    assert_eq!(status, 406);
    assert_eq!(body.unwrap().message, "user not found");
}

#[test]
fn status_handler() {
    let status = auth_service::status_handler::status_handler();
    assert_eq!(status.status, "OK");
}

#[test]
fn malformed_stored_digest_is_an_internal_error() {
    let mut store = UserStore::new();
    store
        .insert_user(
            CreateUser {
                username: "test_username".to_owned(),
                email: "test@email.com".to_owned(),
                password: "not a phc digest".to_owned(),
            },
            "some-id".to_owned(),
            NOW,
        )
        .unwrap();

    let error = login_handler(&store, login("test_username", "test_password"), NOW, SECRET)
        .unwrap_err();

    assert_eq!(error, ApiError::HashError);
    assert_eq!(error.into_response(), (500, None));
}
