use auth_service::domain::{Claims, TOKEN_VALIDITY_SECS};
use auth_service::token::{base64url_encode, build_claims_json, escape_json_string, issue_token};
use jsonwebtoken::{decode, Algorithm, DecodingKey, Validation};

fn unix_now() -> i64 {
    std::time::SystemTime::now()
        .duration_since(std::time::UNIX_EPOCH)
        .unwrap()
        .as_secs() as i64
}

#[test]
fn base64url_known_vectors() {
    assert_eq!(base64url_encode(b""), "");
    assert_eq!(base64url_encode(b"f"), "Zg");
    assert_eq!(base64url_encode(b"fo"), "Zm8");
    assert_eq!(base64url_encode(b"foo"), "Zm9v");
    assert_eq!(base64url_encode(b"foob"), "Zm9vYg");
    assert_eq!(base64url_encode(b"fooba"), "Zm9vYmE");
    assert_eq!(base64url_encode(b"foobar"), "Zm9vYmFy");
}

#[test]
fn base64url_uses_url_safe_alphabet_without_padding() {
    // 0xfb 0xff encodes to units 62 and 63 among others.
    let encoded = base64url_encode(&[0xfb, 0xff]);
    assert_eq!(encoded, "-_8");
}

#[test]
fn claims_json_is_exact() {
    let claims = Claims { sub: "user-1".to_owned(), iat: 10, exp: -3 };
    assert_eq!(build_claims_json(&claims), "{\"sub\":\"user-1\",\"iat\":10,\"exp\":-3}");
}

#[test]
fn json_escaping_handles_quotes_backslashes_and_controls() {
    assert_eq!(escape_json_string("plain"), "plain");
    assert_eq!(escape_json_string("a\"b"), "a\\\"b");
    assert_eq!(escape_json_string("a\\b"), "a\\\\b");
    assert_eq!(escape_json_string("a\nb"), "a\\u000ab");
    assert_eq!(escape_json_string("\u{1f}"), "\\u001f");
}

#[test]
fn claims_are_issued_with_a_four_hour_expiry() {
    let claims = Claims::new("subject".to_owned(), 1_700_000_000);
    assert_eq!(claims.sub, "subject");
    assert_eq!(claims.iat, 1_700_000_000);
    assert_eq!(claims.exp, 1_700_000_000 + TOKEN_VALIDITY_SECS);
}

#[test]
fn issued_token_decodes_under_the_same_secret() {
    let now = unix_now();
    let claims = Claims::new("user-123".to_owned(), now);
    let token = issue_token(&claims, "secret");

    let decoded = decode::<serde_json::Value>(
        &token,
        &DecodingKey::from_secret(b"secret"),
        &Validation::new(Algorithm::HS256),
    )
    .expect("the issued token must verify");

    assert_eq!(decoded.claims["sub"], "user-123");
    assert_eq!(decoded.claims["iat"].as_i64().unwrap(), now);
    assert_eq!(decoded.claims["exp"].as_i64().unwrap(), now + TOKEN_VALIDITY_SECS);
    assert_eq!(decoded.header.alg, Algorithm::HS256);
}

#[test]
fn issued_token_is_rejected_under_another_secret() {
    let now = unix_now();
    let claims = Claims::new("user-123".to_owned(), now);
    let token = issue_token(&claims, "secret");

    let rejected = decode::<serde_json::Value>(
        &token,
        &DecodingKey::from_secret(b"another-secret"),
        &Validation::new(Algorithm::HS256),
    );
    assert!(rejected.is_err());
}

#[test]
fn token_has_three_dot_separated_parts() {
    let claims = Claims::new("user-123".to_owned(), unix_now());
    let token = issue_token(&claims, "secret");
    assert_eq!(token.split('.').count(), 3);
}
