use auth_service::domain::{CreateUser, FindUser};
use auth_service::validate::is_valid_email;

fn registration(username: &str, email: &str, password: &str) -> CreateUser {
    CreateUser {
        username: username.to_owned(),
        email: email.to_owned(),
        password: password.to_owned(),
    }
}

#[test]
fn accepts_ordinary_addresses() {
    assert!(is_valid_email("test@email.com"));
    assert!(is_valid_email("email@gmail.com"));
    assert!(is_valid_email("first.last+tag@sub.example-site.org"));
    assert!(is_valid_email("a@b"));
}

#[test]
fn rejects_missing_at_sign() {
    assert!(!is_valid_email("testemail.com"));
    assert!(!is_valid_email(""));
}

#[test]
fn rejects_empty_parts() {
    assert!(!is_valid_email("@email.com"));
    assert!(!is_valid_email("test@"));
}

#[test]
fn rejects_malformed_domains() {
    assert!(!is_valid_email("a@.com"));
    assert!(!is_valid_email("a@com."));
    assert!(!is_valid_email("a@ex..com"));
    assert!(!is_valid_email("a@-example.com"));
    assert!(!is_valid_email("a@example-.com"));
    assert!(!is_valid_email("a@exa_mple.com"));
    assert!(!is_valid_email("a@b@c.com"));
}

#[test]
fn rejects_non_ascii_and_overlong_parts() {
    assert!(!is_valid_email("\u{fc}ser@example.com"));
    let long_local = "a".repeat(65) + "@example.com";
    assert!(!is_valid_email(&long_local));
    let long_domain = "a@".to_owned() + &"b.".repeat(130) + "com";
    assert!(!is_valid_email(&long_domain));
}

#[test]
fn reports_all_invalid_fields_together() {
    let errors = registration("us", "testemail.com", "pw").validate().unwrap_err();
    assert_eq!(errors.username.as_deref(), Some("invalid length"));
    assert_eq!(errors.email.as_deref(), Some("invalid email"));
    assert_eq!(errors.password.as_deref(), Some("invalid length"));
}

#[test]
fn accepts_a_fully_valid_registration() {
    assert!(registration("test_username", "test@email.com", "test_password").validate().is_ok());
}

#[test]
fn username_length_bounds_are_inclusive() {
    assert!(registration("abcdef", "a@b.co", "123456").validate().is_ok());
    assert!(registration("abcde", "a@b.co", "123456").validate().is_err());
    assert!(registration(&"a".repeat(25), "a@b.co", "123456").validate().is_ok());
    assert!(registration(&"a".repeat(26), "a@b.co", "123456").validate().is_err());
}

#[test]
fn login_requires_both_fields() {
    let ok = FindUser { username: "user".to_owned(), password: "pw".to_owned() };
    assert!(ok.validate().is_ok());

    let missing_password = FindUser { username: "user".to_owned(), password: String::new() };
    let errors = missing_password.validate().unwrap_err();
    assert_eq!(errors.username, None);
    assert_eq!(errors.password.as_deref(), Some("invalid length"));
}
