use venus_auth::token::{decimal_text, encode_claims, TOKEN_LIFETIME_SECS};
use venus_auth::{generate_jwt_token, validate_jwt_token, AuthError, Claims};

const SECRET: &str = "test-secret";

#[test]
fn claims_expire_after_seven_days() {
    let c = Claims::issued_at(42, "alice".to_string(), 1_700_000_000);
    assert_eq!(c.sub, "42");
    assert_eq!(c.uid, 42);
    assert_eq!(c.username, "alice");
    assert_eq!(c.exp, 1_700_604_800);
    assert_eq!(TOKEN_LIFETIME_SECS, 7 * 24 * 3600);
    let n = Claims::issued_at(-5, "bob".to_string(), -1_000_000);
    assert_eq!(n.sub, "-5");
    assert_eq!(n.exp, 0);
}

#[test]
fn issued_token_decodes_before_expiry() {
    let t = generate_jwt_token(42, "alice".to_string(), SECRET).unwrap();
    assert_eq!(t.split('.').count(), 3);
    assert_eq!(validate_jwt_token(&t, SECRET, 1_700_000_000), Ok(42));
}

#[test]
fn token_refused_at_and_after_expiry() {
    let c = Claims::issued_at(7, "carol".to_string(), 1_000);
    let t = encode_claims(&c, SECRET).unwrap();
    assert_eq!(validate_jwt_token(&t, SECRET, 1_000), Ok(7));
    assert_eq!(validate_jwt_token(&t, SECRET, 605_799), Ok(7));
    assert_eq!(validate_jwt_token(&t, SECRET, 605_800), Err(AuthError::Unauthenticated));
    assert_eq!(validate_jwt_token(&t, SECRET, 2_000_000), Err(AuthError::Unauthenticated));
}

#[test]
fn token_under_other_secret_refused() {
    let t = generate_jwt_token(42, "alice".to_string(), "secret-one").unwrap();
    assert_eq!(validate_jwt_token(&t, "secret-two", 1_700_000_000), Err(AuthError::Unauthenticated));
}

#[test]
fn malformed_or_tampered_token_refused() {
    assert_eq!(validate_jwt_token("garbage", SECRET, 0), Err(AuthError::Unauthenticated));
    let t = generate_jwt_token(42, "alice".to_string(), SECRET).unwrap();
    let mut tampered = t.clone();
    tampered.push('x');
    assert_eq!(validate_jwt_token(&tampered, SECRET, 0), Err(AuthError::Unauthenticated));
}

#[test]
fn decimal_text_matches_display() {
    for n in [0i64, 7, 9, 10, 42, 100, -1, -5, -10, i64::MAX, i64::MIN] {
        assert_eq!(decimal_text(n), n.to_string());
    }
    assert_eq!(decimal_text(-123), "-123");
}

#[test]
fn signing_succeeds_with_any_secret() {
    assert!(generate_jwt_token(1, String::new(), "").is_ok());
    let c = Claims::issued_at(i64::MIN, "x\"y".to_string(), i64::MAX);
    let t = encode_claims(&c, "k").unwrap();
    assert_eq!(validate_jwt_token(&t, "k", 0), Ok(i64::MIN));
}
