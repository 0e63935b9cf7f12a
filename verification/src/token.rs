//! The token codec: compact signed session tokens.
//!
//! A token carries a subject identifier, the second it was issued, and the
//! second it expires, signed with a symmetric secret held only by the
//! process. `jwt_claims` names what decoding recovers from a token under a
//! secret; issuance guarantees the round trip, and `token_decision` pins the
//! whole verification decision — bad signature or shape is `TokenInvalid`,
//! a well-signed token at or past its expiry is `TokenExpired`, anything
//! else is the subject identifier.

use vstd::prelude::*;

use crate::errors::AppError;

verus! {

/// What decoding recovers from a token under a secret: the claim triple
/// `(subject, issued_at, expires_at)` when the token is well-formed and its
/// signature matches the secret, `None` otherwise. A function of the two
/// strings alone.
pub uninterp spec fn jwt_claims(secret: Seq<char>, token: Seq<char>) -> Option<(i64, i64, i64)>;

/// How long an issued token stays valid, in seconds.
pub const TOKEN_TTL_SECONDS: i64 = 60 * 60 * 24;

/// Relies on jsonwebtoken::decode (HS256, signature and shape check only;
/// expiry is judged by the caller): the claim triple when token and secret
/// agree, `None` otherwise. Deterministic in token and secret, which is
/// what `jwt_claims` names.
#[verifier::external_body]
fn jwt_decode(secret: &str, token: &str) -> (r: Option<(i64, i64, i64)>)
    ensures
        r == jwt_claims(secret@, token@),
{
    let key = jsonwebtoken::DecodingKey::from_secret(secret.as_bytes());
    let mut v = jsonwebtoken::Validation::new(jsonwebtoken::Algorithm::HS256);
    v.validate_exp = false;
    v.required_spec_claims = std::collections::HashSet::new();
    let c = jsonwebtoken::decode::<serde_json::Value>(token, &key, &v).ok()?.claims;
    match (c.get("sub")?.as_i64(), c.get("iat")?.as_i64(), c.get("exp")?.as_i64()) {
        (Some(s), Some(i), Some(e)) => Some((s, i, e)),
        _ => None,
    }
}

/// Relies on jsonwebtoken::encode (HS256): a token that decoding under the
/// same secret recovers exactly these claims from, since the signature is
/// recomputed over the same payload and secret. Success is promised because
/// the crate's source shows no failure for this call shape: the key family
/// matches the default header's HS256, HMAC keys of any length are
/// accepted, HMAC signing is infallible, and serializing the header and
/// this integer-claims object cannot fail. The dot-joined output is never
/// empty.
#[verifier::external_body]
fn jwt_encode(secret: &str, sub: i64, iat: i64, exp: i64) -> (r: Result<String, String>)
    ensures
        r is Ok,
        r matches Ok(t) ==> jwt_claims(secret@, t@) == Some((sub, iat, exp)) && t@.len() > 0,
{
    let mut claims = serde_json::Map::new();
    claims.insert(String::from("sub"), serde_json::Value::from(sub));
    claims.insert(String::from("iat"), serde_json::Value::from(iat));
    claims.insert(String::from("exp"), serde_json::Value::from(exp));
    let key = jsonwebtoken::EncodingKey::from_secret(secret.as_bytes());
    let header = jsonwebtoken::Header::default();
    match jsonwebtoken::encode(&header, &serde_json::Value::Object(claims), &key) {
        Ok(t) => Ok(t),
        Err(e) => Err(e.to_string()),
    }
}

/// Relies on chrono::Utc::now: the current Unix time in whole seconds.
/// Nothing is assumed of the reading; callers handle every value.
#[verifier::external_body]
fn unix_now() -> (r: i64) {
    chrono::Utc::now().timestamp()
}

/// The full verification decision over a token at a given second: a token
/// that does not decode is invalid; a decoded token at or past its expiry
/// is expired; otherwise the subject identifier is returned.
pub open spec fn token_decision(secret: Seq<char>, token: Seq<char>, now: i64) -> Result<
    i64,
    AppError,
> {
    match jwt_claims(secret, token) {
        Option::None => Result::Err(AppError::TokenInvalid),
        Option::Some(c) => if now >= c.2 {
            Result::Err(AppError::TokenExpired)
        } else {
            Result::Ok(c.0)
        },
    }
}

/// The token codec: the process-wide signing secret and the token lifetime.
pub struct JwtConfig {
    secret: String,
    ttl_seconds: i64,
}

impl Clone for JwtConfig {
    fn clone(&self) -> (r: Self)
        ensures
            r == *self,
    {
        JwtConfig { secret: self.secret.clone(), ttl_seconds: self.ttl_seconds }
    }
}

impl JwtConfig {
    /// The signing secret, as a sequence of characters.
    pub closed spec fn secret_view(&self) -> Seq<char> {
        self.secret@
    }

    /// The token lifetime in seconds.
    pub closed spec fn ttl(&self) -> int {
        self.ttl_seconds as int
    }

    /// A codec is well formed when its lifetime is positive.
    pub open spec fn wf(&self) -> bool {
        self.ttl() > 0
    }

    /// A codec over the given secret with the fixed default lifetime.
    pub fn new(secret: &str) -> (r: Self)
        ensures
            r.secret_view() == secret@,
            r.ttl() == TOKEN_TTL_SECONDS as int,
            r.wf(),
    {
        JwtConfig { secret: secret.to_owned(), ttl_seconds: TOKEN_TTL_SECONDS }
    }

    /// A codec over the given secret with a lifetime chosen at startup.
    pub fn with_ttl(secret: &str, ttl_seconds: i64) -> (r: Self)
        requires
            ttl_seconds > 0,
        ensures
            r.secret_view() == secret@,
            r.ttl() == ttl_seconds as int,
            r.wf(),
    {
        JwtConfig { secret: secret.to_owned(), ttl_seconds }
    }

    /// Issue a token for a subject as of the given second. Issuance always
    /// succeeds, and the token decodes, under this codec's secret, to
    /// exactly the subject, the given second, and an expiry one lifetime
    /// later.
    pub fn issue_token_at(&self, subject_id: i64, now: i64) -> (r: Result<String, AppError>)
        requires
            self.wf(),
            now + self.ttl() <= i64::MAX,
        ensures
            r is Ok,
            r matches Ok(t) ==> jwt_claims(self.secret_view(), t@) == Some(
                (subject_id, now, (now + self.ttl()) as i64),
            ) && t@.len() > 0,
    {
        let exp = now + self.ttl_seconds;
        match jwt_encode(self.secret.as_str(), subject_id, now, exp) {
            Ok(t) => Ok(t),
            Err(m) => Err(AppError::HashingError(m)),
        }
    }

    /// Issue a token for a subject as of the current clock reading. The
    /// reading is clamped into the range a token can carry; issuance always
    /// succeeds, and the token carries the subject, a non-negative issue
    /// second, and an expiry exactly one lifetime later.
    pub fn generate_token(&self, subject_id: i64) -> (r: Result<String, AppError>)
        requires
            self.wf(),
        ensures
            r is Ok,
            r matches Ok(t) ==> (jwt_claims(self.secret_view(), t@) matches Some(c) && c.0
                == subject_id && c.1 >= 0 && c.2 == c.1 + self.ttl() && t@.len() > 0),
    {
        let raw = unix_now();
        let floor: i64 = if raw < 0 {
            0
        } else {
            raw
        };
        let cap: i64 = i64::MAX - self.ttl_seconds;
        let now: i64 = if floor > cap {
            cap
        } else {
            floor
        };
        self.issue_token_at(subject_id, now)
    }

    /// Verify a token as of the given second; the result is exactly
    /// `token_decision` of this codec's secret, the token, and that second.
    pub fn verify_token_at(&self, token: &str, now: i64) -> (r: Result<i64, AppError>)
        ensures
            r == token_decision(self.secret_view(), token@, now),
    {
        match jwt_decode(self.secret.as_str(), token) {
            None => Err(AppError::TokenInvalid),
            Some((sub, _iat, exp)) => {
                if now >= exp {
                    Err(AppError::TokenExpired)
                } else {
                    Ok(sub)
                }
            },
        }
    }

    /// Verify a token as of the current clock reading. Whatever second the
    /// clock returns: a token that does not decode under this secret fails
    /// as `TokenInvalid` — and only such a token does; a decoded token
    /// either yields its subject or fails as `TokenExpired`.
    pub fn verify_token(&self, token: &str) -> (r: Result<i64, AppError>)
        ensures
            r matches Ok(s) ==> (jwt_claims(self.secret_view(), token@) matches Some(c) && c.0
                == s),
            r == Err::<i64, AppError>(AppError::TokenInvalid) <==> jwt_claims(
                self.secret_view(),
                token@,
            ) is None,
            jwt_claims(self.secret_view(), token@) matches Some(c) ==> (r == Ok::<i64, AppError>(
                c.0,
            ) || r == Err::<i64, AppError>(AppError::TokenExpired)),
    {
        let now = unix_now();
        self.verify_token_at(token, now)
    }
}

/// Round trip: a token carrying claims `(sub, iat, exp)` under a secret
/// verifies to exactly `sub` at any second before `exp` — in particular
/// immediately after issuance, whose expiry lies strictly ahead.
pub proof fn lemma_token_round_trip(
    secret: Seq<char>,
    token: Seq<char>,
    sub: i64,
    iat: i64,
    exp: i64,
    now: i64,
)
    requires
        jwt_claims(secret, token) == Some((sub, iat, exp)),
        now < exp,
    ensures
        token_decision(secret, token, now) == Ok::<i64, AppError>(sub),
{
}

/// A well-signed token at or past its expiry fails as `TokenExpired`,
/// never as `TokenInvalid`.
pub proof fn lemma_expired_token_fails_as_expired(
    secret: Seq<char>,
    token: Seq<char>,
    sub: i64,
    iat: i64,
    exp: i64,
    now: i64,
)
    requires
        jwt_claims(secret, token) == Some((sub, iat, exp)),
        now >= exp,
    ensures
        token_decision(secret, token, now) == Err::<i64, AppError>(AppError::TokenExpired),
        token_decision(secret, token, now) != Err::<i64, AppError>(AppError::TokenInvalid),
{
}

} // verus!
