use vstd::prelude::*;

use crate::text::starts_with;

verus! {

#[verifier::external_type_specification]
#[verifier::external_body]
pub struct ExBcryptError(bcrypt::BcryptError);

/// What `bcrypt::verify` reports for a password and a stored hash:
/// `Some(matches)` when the hash is a well-formed bcrypt hash, `None` when it
/// is refused as malformed.
pub uninterp spec fn bcrypt_verdict(password: Seq<char>, hash: Seq<char>) -> Option<bool>;

/// Failures of the password hashing primitive.
#[derive(Debug, PartialEq, Eq, Structural)]
pub enum CredentialError {
    /// The primitive could not produce a hash (no randomness for the salt).
    HashFailed,
    /// The stored hash is not a well-formed bcrypt hash.
    MalformedHash,
}

/// `hash` is accepted for `password`.
pub open spec fn accepts(password: Seq<char>, hash: Seq<char>) -> bool {
    bcrypt_verdict(password, hash) == Some(true)
}

/// `h` has the shape of a bcrypt hash at cost 12 in the `2b` version: the
/// prefix `$2b$12$`, then 22 characters of salt and 31 of digest.
pub open spec fn bcrypt_cost12_format(h: Seq<char>) -> bool {
    h.len() == 60 && starts_with(h, "$2b$12$"@)
}

/// What verifying `password` against `hash` yields.
pub open spec fn verify_outcome(password: Seq<char>, hash: Seq<char>) -> Result<bool, CredentialError> {
    match bcrypt_verdict(password, hash) {
        Some(b) => Ok(b),
        None => Err(CredentialError::MalformedHash),
    }
}

/// Relies on bcrypt::hash at bcrypt::DEFAULT_COST: it salts with fresh OS
/// randomness (so two calls differ), fails only when that randomness is not
/// available, and returns a hash that bcrypt::verify accepts for the same
/// password. The result is formatted as `$2b$12$` followed by the salt and
/// digest in bcrypt's base 64 (22 and 31 characters).
#[verifier::external_body]
fn bcrypt_hash(password: &str) -> (r: Result<String, bcrypt::BcryptError>)
    ensures
        r matches Ok(h) ==> accepts(password@, h@) && bcrypt_cost12_format(h@),
{
    bcrypt::hash(password, bcrypt::DEFAULT_COST)
}

/// Relies on bcrypt::verify: it recomputes the hash with the stored salt and
/// cost, and fails only on a malformed stored hash.
#[verifier::external_body]
fn bcrypt_verify(password: &str, hash: &str) -> (r: Result<bool, bcrypt::BcryptError>)
    ensures
        match r {
            Ok(b) => bcrypt_verdict(password@, hash@) == Some(b),
            Err(_) => bcrypt_verdict(password@, hash@) is None,
        },
{
    bcrypt::verify(password, hash)
}

/// Hashes a password with a random salt at the deployment's fixed cost.
pub fn hash_password(password: &str) -> (r: Result<String, CredentialError>)
    ensures
        r matches Ok(h) ==> accepts(password@, h@) && bcrypt_cost12_format(h@),
        r matches Err(e) ==> e == CredentialError::HashFailed,
{
    match bcrypt_hash(password) {
        Ok(h) => Ok(h),
        Err(_) => Err(CredentialError::HashFailed),
    }
}

/// Checks a password against a stored hash; a mismatch is `Ok(false)`, and
/// only a malformed stored hash is an error.
pub fn verify_password(password: &str, hash: &str) -> (r: Result<bool, CredentialError>)
    ensures
        r == verify_outcome(password@, hash@),
{
    match bcrypt_verify(password, hash) {
        Ok(b) => Ok(b),
        Err(_) => Err(CredentialError::MalformedHash),
    }
}

/// A hash produced for a password verifies against that same password.
pub proof fn lemma_own_hash_verifies(password: Seq<char>, hash: Seq<char>)
    requires
        accepts(password, hash),
    ensures
        verify_outcome(password, hash) == Ok::<bool, CredentialError>(true),
{
}

} // verus!
