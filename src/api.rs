use vstd::prelude::*;

use crate::credential::{verify_outcome, verify_password, CredentialError};
use crate::ownership::OwnershipError;
use crate::token::AuthError;

verus! {

/// How a request handler fails, in terms a transport can render.
#[derive(Debug, PartialEq, Eq, Structural)]
pub enum ApiError {
    BadRequest,
    Unauthorized,
    NotFound,
    Conflict,
    Internal,
}

impl ApiError {
    pub open spec fn code(&self) -> u16 {
        match self {
            ApiError::BadRequest => 400,
            ApiError::Unauthorized => 401,
            ApiError::NotFound => 404,
            ApiError::Conflict => 409,
            ApiError::Internal => 500,
        }
    }

    /// The HTTP status code of the failure.
    pub fn status_code(&self) -> (r: u16)
        ensures
            r == self.code(),
    {
        match self {
            ApiError::BadRequest => 400,
            ApiError::Unauthorized => 401,
            ApiError::NotFound => 404,
            ApiError::Conflict => 409,
            ApiError::Internal => 500,
        }
    }
}

/// An identity rejection is answered as unauthorized.
pub fn from_auth_error(e: AuthError) -> (r: ApiError)
    ensures
        r == ApiError::Unauthorized,
{
    ApiError::Unauthorized
}

/// A resource of another account is answered exactly as a missing one.
pub fn from_ownership_error(e: OwnershipError) -> (r: ApiError)
    ensures
        r == ApiError::NotFound,
{
    ApiError::NotFound
}

/// A hashing failure is a server error; its detail is not passed on.
pub fn from_credential_error(e: CredentialError) -> (r: ApiError)
    ensures
        r == ApiError::Internal,
{
    ApiError::Internal
}

/// Registration may go on only when no account has the username or email.
pub fn registration_check(existing_account: bool) -> (r: Result<(), ApiError>)
    ensures
        r is Ok <==> !existing_account,
        r matches Err(e) ==> e == ApiError::Conflict,
{
    if existing_account {
        Err(ApiError::Conflict)
    } else {
        Ok(())
    }
}

/// The login verdict for a password, given the stored hash of the account
/// with that username (`None` when there is no such account).
pub open spec fn login_verdict(stored_hash: Option<Seq<char>>, password: Seq<char>) -> Result<
    (),
    ApiError,
> {
    match stored_hash {
        None => Err(ApiError::Unauthorized),
        Some(h) => match verify_outcome(password, h) {
            Ok(true) => Ok(()),
            Ok(false) => Err(ApiError::Unauthorized),
            Err(_) => Err(ApiError::Internal),
        },
    }
}

/// Checks login credentials: an unknown username and a wrong password get
/// the same answer.
pub fn login_check(stored_hash: Option<&str>, password: &str) -> (r: Result<(), ApiError>)
    ensures
        r == login_verdict(
            match stored_hash {
                Some(h) => Some(h@),
                None => None,
            },
            password@,
        ),
{
    match stored_hash {
        None => Err(ApiError::Unauthorized),
        Some(h) => match verify_password(password, h) {
            Ok(true) => Ok(()),
            Ok(false) => Err(ApiError::Unauthorized),
            Err(e) => Err(from_credential_error(e)),
        },
    }
}

/// An update or delete filtered by owner that touched no row answers as not
/// found.
pub fn affected_check(rows_affected: u64) -> (r: Result<(), ApiError>)
    ensures
        r is Ok <==> rows_affected > 0,
        r matches Err(e) ==> e == ApiError::NotFound,
{
    if rows_affected == 0 {
        Err(ApiError::NotFound)
    } else {
        Ok(())
    }
}

} // verus!
