use venus_auth::{hash_password, verify_password, CredentialError};

#[test]
fn own_hash_verifies_and_other_password_does_not() {
    let h = hash_password("pw123").unwrap();
    assert_ne!(h, "pw123");
    assert_eq!(h.len(), 60);
    assert!(h.starts_with("$2b$12$"));
    assert_eq!(verify_password("pw123", &h), Ok(true));
    assert_eq!(verify_password("pw124", &h), Ok(false));
}

#[test]
fn known_hash_verifies() {
    let h = "$2a$04$UuTkLRZZ6QofpDOlMz32MuuxEHA43WOemOYHPz6.SjsVsyO1tDU96";
    assert_eq!(verify_password("password", h), Ok(true));
    assert_eq!(verify_password("Password", h), Ok(false));
}

#[test]
fn malformed_hash_is_an_error() {
    assert_eq!(verify_password("password", "not-a-hash"), Err(CredentialError::MalformedHash));
}
