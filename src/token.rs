use vstd::prelude::*;

verus! {

#[verifier::external_type_specification]
#[verifier::external_body]
pub struct ExJwtError(jsonwebtoken::errors::Error);

/// Seconds for which a freshly issued token stays valid: seven days.
pub const TOKEN_LIFETIME_SECS: i64 = 604800;

/// The claims a token carries, as plain values: subject id as text, subject
/// id, username, expiry (Unix seconds).
pub type ClaimsModel = (Seq<char>, int, Seq<char>, int);

/// The claims that `jsonwebtoken::decode` (HS256, signature checked, no time
/// checks) reads from `token` under the HMAC key `secret`, when the signature
/// verifies and the payload has the four claims with their JSON types;
/// `None` otherwise.
pub uninterp spec fn jwt_claims(token: Seq<char>, secret: Seq<char>) -> Option<ClaimsModel>;

/// Decimal text of an integer, with a leading `-` when it is negative.
pub open spec fn decimal(n: int) -> Seq<char>
    decreases (if n < 0 { 1 - n } else { n }),
{
    if n < 0 {
        seq!['-'] + decimal(-n)
    } else if n < 10 {
        seq![digit_char(n)]
    } else {
        decimal(n / 10).push(digit_char(n % 10))
    }
}

pub open spec fn digit_char(d: int) -> char {
    (('0' as int) + d) as char
}

/// The signed identity assertion carried by a token.
#[derive(Debug)]
pub struct Claims {
    pub sub: String,
    pub uid: i64,
    pub username: String,
    pub exp: u64,
}

impl Claims {
    pub open spec fn model(&self) -> ClaimsModel {
        (self.sub@, self.uid as int, self.username@, self.exp as int)
    }
}

/// Expiry of a token issued at `now`, held to the range of a JWT `exp`.
pub open spec fn expiry_after(now: int) -> int {
    if now + TOKEN_LIFETIME_SECS < 0 {
        0
    } else {
        now + TOKEN_LIFETIME_SECS
    }
}

/// The claims issued at time `now` for an account.
pub open spec fn claims_for(uid: int, username: Seq<char>, now: int) -> ClaimsModel {
    (decimal(uid), uid, username, expiry_after(now))
}

/// The subject that `token` establishes at time `now` under `secret`: its
/// signature must verify and its expiry must lie strictly after `now`.
pub open spec fn accepted_subject(token: Seq<char>, secret: Seq<char>, now: int) -> Option<int> {
    match jwt_claims(token, secret) {
        Some(c) => if now < c.3 {
            Some(c.1)
        } else {
            None
        },
        None => None,
    }
}

/// Rejection of a request's identity; deliberately carries no cause.
#[derive(Debug, PartialEq, Eq, Structural)]
pub enum AuthError {
    Unauthenticated,
}

/// A token could not be produced.
#[derive(Debug, PartialEq, Eq, Structural)]
pub enum SigningError {
    Encoding,
}

/// Relies on chrono::Utc::now: the current Unix time in seconds. Nothing is
/// known of its value.
#[verifier::external_body]
pub(crate) fn unix_now() -> (r: i64) {
    chrono::Utc::now().timestamp()
}

/// The one-character text of a decimal digit.
fn digit_str(d: u64) -> (r: &'static str)
    requires
        d < 10,
    ensures
        r@ == seq![digit_char(d as int)],
{
    proof {
        reveal_strlit("0");
        reveal_strlit("1");
        reveal_strlit("2");
        reveal_strlit("3");
        reveal_strlit("4");
        reveal_strlit("5");
        reveal_strlit("6");
        reveal_strlit("7");
        reveal_strlit("8");
        reveal_strlit("9");
    }
    let r = if d == 0 {
        "0"
    } else if d == 1 {
        "1"
    } else if d == 2 {
        "2"
    } else if d == 3 {
        "3"
    } else if d == 4 {
        "4"
    } else if d == 5 {
        "5"
    } else if d == 6 {
        "6"
    } else if d == 7 {
        "7"
    } else if d == 8 {
        "8"
    } else {
        "9"
    };
    assert(r@ =~= seq![digit_char(d as int)]);
    r
}

/// Decimal text of a non-negative integer.
fn natural_text(n: u64) -> (r: String)
    ensures
        r@ == decimal(n as int),
    decreases n,
{
    if n < 10 {
        String::from_str(digit_str(n))
    } else {
        let mut s = natural_text(n / 10);
        s.append(digit_str(n % 10));
        assert(s@ =~= decimal((n / 10) as int).push(digit_char((n % 10) as int)));
        s
    }
}

/// Decimal text of an integer, as `i64`'s `Display` writes it.
pub fn decimal_text(n: i64) -> (r: String)
    ensures
        r@ == decimal(n as int),
{
    if n < 0 {
        let magnitude: u64 = (-(n as i128)) as u64;
        let mut s = String::from_str("-");
        let digits = natural_text(magnitude);
        s.append(digits.as_str());
        proof {
            reveal_strlit("-");
        }
        assert(s@ =~= seq!['-'] + decimal(-(n as int)));
        s
    } else {
        natural_text(n as u64)
    }
}

/// Relies on jsonwebtoken::encode with the default header (HS256) and the
/// secret's bytes as the HMAC key: the token it returns decodes under the same
/// key to the same four claims. It cannot fail here: an HMAC key matches the
/// HS256 header, a JSON object of strings and integers always serializes, and
/// HMAC signing always succeeds.
#[verifier::external_body]
fn jwt_encode(claims: &Claims, secret: &str) -> (r: Result<String, jsonwebtoken::errors::Error>)
    ensures
        r is Ok,
        r matches Ok(t) ==> jwt_claims(t@, secret@) == Some(claims.model()),
{
    let mut m = serde_json::Map::new();
    m.insert("sub".to_string(), claims.sub.clone().into());
    m.insert("uid".to_string(), claims.uid.into());
    m.insert("username".to_string(), claims.username.clone().into());
    m.insert("exp".to_string(), claims.exp.into());
    let key = jsonwebtoken::EncodingKey::from_secret(secret.as_bytes());
    jsonwebtoken::encode(&jsonwebtoken::Header::default(), &serde_json::Value::Object(m), &key)
}

/// Relies on jsonwebtoken::decode for HS256 with the expiry check switched
/// off (the caller compares the expiry itself): it checks the signature under
/// the secret's bytes and parses the claims.
#[verifier::external_body]
fn jwt_decode(token: &str, secret: &str) -> (r: Option<Claims>)
    ensures
        match jwt_claims(token@, secret@) {
            Some(c) => r matches Some(x) && x.model() == c,
            None => r is None,
        },
{
    let mut validation = jsonwebtoken::Validation::new(jsonwebtoken::Algorithm::HS256);
    validation.validate_exp = false;
    let key = jsonwebtoken::DecodingKey::from_secret(secret.as_bytes());
    let c = jsonwebtoken::decode::<serde_json::Value>(token, &key, &validation).ok()?.claims;
    Some(Claims {
        sub: c.get("sub")?.as_str()?.to_string(),
        uid: c.get("uid")?.as_i64()?,
        username: c.get("username")?.as_str()?.to_string(),
        exp: c.get("exp")?.as_u64()?,
    })
}

impl Claims {
    /// Claims for an account, issued at `now` and expiring seven days later.
    pub fn issued_at(uid: i64, username: String, now: i64) -> (r: Claims)
        ensures
            r.model() == claims_for(uid as int, username@, now as int),
    {
        let t: i128 = now as i128 + TOKEN_LIFETIME_SECS as i128;
        let exp: u64 = if t < 0 {
            0
        } else {
            t as u64
        };
        Claims { sub: decimal_text(uid), uid, username, exp }
    }

    /// Claims for an account, issued now and expiring seven days later.
    pub fn new(uid: i64, username: String) -> (r: Claims)
        ensures
            exists|now: int| r.model() == claims_for(uid as int, username@, now),
    {
        let now = unix_now();
        let r = Claims::issued_at(uid, username, now);
        assert(r.model() == claims_for(uid as int, username@, now as int));
        r
    }
}

/// Signs claims with the shared secret.
pub fn encode_claims(claims: &Claims, secret: &str) -> (r: Result<String, SigningError>)
    ensures
        r is Ok,
        r matches Ok(t) ==> jwt_claims(t@, secret@) == Some(claims.model()),
{
    match jwt_encode(claims, secret) {
        Ok(t) => Ok(t),
        Err(_) => Err(SigningError::Encoding),
    }
}

/// Issues a token for an account, valid for seven days from now.
pub fn generate_jwt_token(uid: i64, username: String, secret: &str) -> (r: Result<String, SigningError>)
    ensures
        r is Ok,
        r matches Ok(t) ==> exists|now: int| jwt_claims(t@, secret@) == Some(
            claims_for(uid as int, username@, now),
        ),
{
    let claims = Claims::new(uid, username);
    encode_claims(&claims, secret)
}

/// Decodes a token at time `now`: the subject id when its signature verifies
/// under `secret` and it has not expired; one undifferentiated error otherwise.
pub fn validate_jwt_token(token: &str, secret: &str, now: i64) -> (r: Result<i64, AuthError>)
    ensures
        r is Ok <==> accepted_subject(token@, secret@, now as int) is Some,
        r matches Ok(u) ==> accepted_subject(token@, secret@, now as int) == Some(u as int),
{
    match jwt_decode(token, secret) {
        Some(c) => {
            if (now as i128) < (c.exp as i128) {
                Ok(c.uid)
            } else {
                Err(AuthError::Unauthenticated)
            }
        },
        None => Err(AuthError::Unauthenticated),
    }
}

/// Decoding a token issued for a subject yields that subject, at any time
/// before its expiry.
pub proof fn lemma_issued_token_decodes(
    token: Seq<char>,
    secret: Seq<char>,
    uid: i64,
    username: Seq<char>,
    issued: int,
    now: int,
)
    requires
        jwt_claims(token, secret) == Some(claims_for(uid as int, username, issued)),
        now < expiry_after(issued),
    ensures
        accepted_subject(token, secret, now) == Some(uid as int),
{
}

/// A token is refused once its expiry is reached, whatever its signature.
pub proof fn lemma_expired_token_refused(token: Seq<char>, secret: Seq<char>, now: int)
    requires
        forall|c: ClaimsModel| jwt_claims(token, secret) == Some(c) ==> c.3 <= now,
    ensures
        accepted_subject(token, secret, now) is None,
{
    if let Some(c) = jwt_claims(token, secret) {
        assert(c.3 <= now);
    }
}

} // verus!
