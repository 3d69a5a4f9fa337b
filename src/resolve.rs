use vstd::prelude::*;

use crate::config::Config;
use crate::extract::{bearer_token, extract_token, presented_token, RequestMeta};
use crate::text::{starts_with, str_starts_with};
use crate::token::{
    accepted_subject, claims_for, expiry_after, jwt_claims, unix_now, validate_jwt_token, AuthError,
    ClaimsModel,
};

verus! {

/// Account id that the development host bypass resolves to.
pub const DEV_SUBJECT_ID: i64 = 1;

/// The host bypass applies: it is enabled and the `Host` starts with `localhost`.
pub open spec fn bypass_applies(enabled: bool, host: Option<Seq<char>>) -> bool {
    enabled && (host matches Some(h) && starts_with(h, "localhost"@))
}

/// The account a request resolves to at time `now`, if any.
pub open spec fn resolved_subject(
    meta: RequestMeta,
    secret: Seq<char>,
    dev_bypass: bool,
    now: int,
) -> Option<int> {
    if bypass_applies(dev_bypass, meta.host_view()) {
        Some(DEV_SUBJECT_ID as int)
    } else {
        match presented_token(meta.authorization_view(), meta.cookie_view()) {
            Some(t) => accepted_subject(t, secret, now),
            None => None,
        }
    }
}

fn bypass_applies_exec(enabled: bool, host: &Option<String>) -> (r: bool)
    ensures
        r == bypass_applies(enabled, crate::extract::opt_view(*host)),
{
    if !enabled {
        return false;
    }
    match host {
        Some(h) => str_starts_with(h.as_str(), "localhost"),
        None => false,
    }
}

/// Resolves the account of a request at time `now`: the subject of the token
/// it presents, when that token is valid under the configured secret. A
/// missing, malformed, forged or expired token gives the same rejection.
pub fn resolve_identity_at(meta: &RequestMeta, config: &Config, now: i64) -> (r: Result<
    i64,
    AuthError,
>)
    ensures
        r is Ok <==> resolved_subject(*meta, config.jwt_secret@, config.insecure_dev_bypass, now as int) is Some,
        r matches Ok(u) ==> resolved_subject(
            *meta,
            config.jwt_secret@,
            config.insecure_dev_bypass,
            now as int,
        ) == Some(u as int),
{
    if bypass_applies_exec(config.insecure_dev_bypass, &meta.host) {
        return Ok(DEV_SUBJECT_ID);
    }
    match extract_token(meta) {
        Some(t) => validate_jwt_token(t.as_str(), config.jwt_secret.as_str(), now),
        None => Err(AuthError::Unauthenticated),
    }
}

/// Resolves the account of a request at the current time.
pub fn extract_uid_from_headers(meta: &RequestMeta, config: &Config) -> (r: Result<i64, AuthError>)
    ensures
        r matches Ok(u) ==> exists|now: int|
            resolved_subject(*meta, config.jwt_secret@, config.insecure_dev_bypass, now) == Some(
                u as int,
            ),
        bypass_applies(config.insecure_dev_bypass, meta.host_view()) ==> r == Ok::<
            i64,
            AuthError,
        >(DEV_SUBJECT_ID),
        !bypass_applies(config.insecure_dev_bypass, meta.host_view()) && presented_token(
            meta.authorization_view(),
            meta.cookie_view(),
        ) is None ==> r is Err,
        !bypass_applies(config.insecure_dev_bypass, meta.host_view()) && (presented_token(
            meta.authorization_view(),
            meta.cookie_view(),
        ) matches Some(t) && jwt_claims(t, config.jwt_secret@) is None) ==> r is Err,
{
    let now = unix_now();
    resolve_identity_at(meta, config, now)
}

/// Without the host bypass, a request whose presented token has reached its
/// expiry resolves to no account, whatever the token's signature.
pub proof fn lemma_expired_request_refused(
    meta: RequestMeta,
    secret: Seq<char>,
    dev_bypass: bool,
    token: Seq<char>,
    now: int,
)
    requires
        !bypass_applies(dev_bypass, meta.host_view()),
        presented_token(meta.authorization_view(), meta.cookie_view()) == Some(token),
        forall|c: ClaimsModel| jwt_claims(token, secret) == Some(c) ==> c.3 <= now,
    ensures
        resolved_subject(meta, secret, dev_bypass, now) is None,
{
    if let Some(c) = jwt_claims(token, secret) {
        assert(c.3 <= now);
    }
}

/// Without the host bypass, a request presenting `Bearer <token>` for a token
/// issued to an account resolves to that account until the token expires.
pub proof fn lemma_issued_bearer_resolves(
    meta: RequestMeta,
    secret: Seq<char>,
    dev_bypass: bool,
    token: Seq<char>,
    uid: i64,
    username: Seq<char>,
    issued: int,
    now: int,
)
    requires
        !bypass_applies(dev_bypass, meta.host_view()),
        meta.authorization_view() == Some("Bearer "@ + token),
        jwt_claims(token, secret) == Some(claims_for(uid as int, username, issued)),
        now < expiry_after(issued),
    ensures
        resolved_subject(meta, secret, dev_bypass, now) == Some(uid as int),
{
    reveal_strlit("Bearer ");
    let h = "Bearer "@ + token;
    assert(h.subrange(0, 7) =~= "Bearer "@);
    assert(h.subrange(7, h.len() as int) =~= token);
    assert(bearer_token(h) == Some(token));
}

} // verus!
