use auth_service::hasher::{hash_password, verify_password};

#[test]
fn hash_and_verify_correct_password() {
    let password = "it_should_work";

    let hashed_password = hash_password(password.as_bytes()).unwrap();

    assert!(verify_password(password.as_bytes(), hashed_password.as_str()).unwrap())
}

#[test]
fn hash_and_verify_wrong_password() {
    let password = "it_should_not_work";

    let hashed_password = hash_password(password.as_bytes()).unwrap();

    assert!(!verify_password("wrong_password".as_bytes(), hashed_password.as_str()).unwrap())
}

#[test]
fn two_hashes_of_one_password_differ_but_both_verify() {
    let password = "same_password";

    let first = hash_password(password.as_bytes()).unwrap();
    let second = hash_password(password.as_bytes()).unwrap();

    // A fresh random salt is drawn per call.
    assert_ne!(first, second);
    assert!(verify_password(password.as_bytes(), first.as_str()).unwrap());
    assert!(verify_password(password.as_bytes(), second.as_str()).unwrap());
}

#[test]
fn digest_is_self_describing_phc_string() {
    let hashed = hash_password("some_password".as_bytes()).unwrap();
    // Algorithm identifier, version and parameters are embedded in the string.
    assert!(hashed.starts_with("$argon2id$v=19$"));
}

#[test]
fn malformed_digest_is_an_error_not_a_mismatch() {
    let result = verify_password("whatever".as_bytes(), "not a phc string");
    assert!(result.is_err());
}
