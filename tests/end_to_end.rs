use venus_auth::api::{login_check, registration_check, ApiError};
use venus_auth::{
    generate_jwt_token, hash_password, resolve_identity_at, AuthError, Config, RequestMeta,
};

#[test]
fn register_login_and_resolve() {
    let config = Config::from_values(None, None, None, Some("e2e-secret".to_string()), false, false).unwrap();
    let alice_id: i64 = 3;
    assert_eq!(registration_check(false), Ok(()));
    let stored = hash_password("pw123").unwrap();
    assert_eq!(login_check(Some(&stored), "pw123"), Ok(()));
    assert_eq!(login_check(None, "pw123"), Err(ApiError::Unauthorized));
    let token = generate_jwt_token(alice_id, "alice".to_string(), &config.jwt_secret).unwrap();
    let now = chrono::Utc::now().timestamp();
    let good = RequestMeta { authorization: Some(format!("Bearer {}", token)), cookie: None, host: None };
    assert_eq!(resolve_identity_at(&good, &config, now), Ok(alice_id));
    let bad = RequestMeta { authorization: Some("Bearer garbage".to_string()), cookie: None, host: None };
    assert_eq!(resolve_identity_at(&bad, &config, now), Err(AuthError::Unauthenticated));
}

#[test]
fn wrong_password_is_refused() {
    let h = "$2b$04$EGdrhbKUv8Oc9vGiXX0HQOxSg445d458Muh7DAHskb6QbtCvdxcie";
    assert_eq!(login_check(Some(h), "correctbatteryhorsestapler"), Ok(()));
    assert_eq!(login_check(Some(h), "wrong"), Err(ApiError::Unauthorized));
    assert_eq!(login_check(Some("broken"), "wrong"), Err(ApiError::Internal));
}
