use venus_auth::resolve::DEV_SUBJECT_ID;
use venus_auth::token::encode_claims;
use venus_auth::{resolve_identity_at, AuthError, Claims, Config, RequestMeta};

fn config(bypass: bool) -> Config {
    Config::from_values(None, None, None, Some("resolver-secret".to_string()), bypass, false).unwrap()
}

fn bearer(token: &str, host: Option<&str>) -> RequestMeta {
    RequestMeta {
        authorization: Some(format!("Bearer {}", token)),
        cookie: None,
        host: host.map(|h| h.to_string()),
    }
}

#[test]
fn valid_bearer_token_resolves() {
    let t = encode_claims(&Claims::issued_at(9, "dave".to_string(), 100), "resolver-secret").unwrap();
    assert_eq!(resolve_identity_at(&bearer(&t, None), &config(false), 200), Ok(9));
}

#[test]
fn cookie_token_resolves() {
    let t = encode_claims(&Claims::issued_at(11, "erin".to_string(), 100), "resolver-secret").unwrap();
    let m = RequestMeta { authorization: None, cookie: Some(format!("a=b; token={}", t)), host: None };
    assert_eq!(resolve_identity_at(&m, &config(false), 200), Ok(11));
}

#[test]
fn missing_token_is_unauthenticated() {
    let m = RequestMeta { authorization: None, cookie: None, host: Some("example.com".to_string()) };
    assert_eq!(resolve_identity_at(&m, &config(true), 0), Err(AuthError::Unauthenticated));
}

#[test]
fn localhost_bypass_only_when_enabled() {
    let m = RequestMeta { authorization: None, cookie: None, host: Some("localhost:8085".to_string()) };
    assert_eq!(resolve_identity_at(&m, &config(true), 0), Ok(DEV_SUBJECT_ID));
    assert_eq!(resolve_identity_at(&m, &config(false), 0), Err(AuthError::Unauthenticated));
    let prod = Config::from_values(None, None, None, Some("s".to_string()), true, true).unwrap();
    assert_eq!(resolve_identity_at(&m, &prod, 0), Err(AuthError::Unauthenticated));
}

#[test]
fn expired_bearer_token_is_unauthenticated() {
    let t = encode_claims(&Claims::issued_at(9, "dave".to_string(), 100), "resolver-secret").unwrap();
    assert_eq!(
        resolve_identity_at(&bearer(&t, Some("example.com")), &config(false), 100 + 604_800),
        Err(AuthError::Unauthenticated)
    );
}
