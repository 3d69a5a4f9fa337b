use venus_auth::api::{affected_check, from_ownership_error, registration_check, ApiError};
use venus_auth::ownership::guard_owner;
use venus_auth::{authorize, OwnershipError};

#[test]
fn other_owner_is_refused_as_not_found() {
    assert!(authorize(5, 5));
    assert!(!authorize(6, 5));
    assert_eq!(guard_owner(5, 5), Ok(()));
    let e = guard_owner(6, 5).unwrap_err();
    assert_eq!(e, OwnershipError::NotFound);
    assert_eq!(from_ownership_error(e), ApiError::NotFound);
    assert_eq!(ApiError::NotFound.status_code(), 404);
}

#[test]
fn handler_outcomes() {
    assert_eq!(registration_check(true), Err(ApiError::Conflict));
    assert_eq!(registration_check(false), Ok(()));
    assert_eq!(affected_check(0), Err(ApiError::NotFound));
    assert_eq!(affected_check(1), Ok(()));
    assert_eq!(ApiError::Conflict.status_code(), 409);
    assert_eq!(ApiError::Unauthorized.status_code(), 401);
    assert_eq!(ApiError::Internal.status_code(), 500);
    assert_eq!(ApiError::BadRequest.status_code(), 400);
}
