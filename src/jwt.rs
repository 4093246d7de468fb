use vstd::prelude::*;

use crate::clock::{now_timestamp, CLOCK_LIMIT};
use crate::error::AuthError;
use crate::model::{role_name, role_named, Role};
use crate::text::owned;

verus! {

/// The longest token lifetime, in seconds, in either direction: the range of a
/// `chrono::Duration` counted in seconds.
pub const MAX_TOKEN_LIFETIME: i64 = 9_223_372_036_854_775;

/// The claims that a token carries: subject, role, issue time and expiry time
/// (seconds since the Unix epoch).
#[derive(Debug, Clone)]
pub struct Claims {
    pub sub: String,
    pub role: Role,
    pub iat: i64,
    pub exp: i64,
}

/// The four claims that jsonwebtoken's HS256 decoding reads from `token` when its
/// signature verifies under `secret`: subject, role name, issue time and expiry.
pub uninterp spec fn jwt_claims(token: Seq<char>, secret: Seq<char>) -> Option<
    (Seq<char>, Seq<char>, int, int),
>;

/// Relies on `jsonwebtoken::encode` with the default header (HS256) and
/// `EncodingKey::from_secret` over the secret's bytes. The payload is the JSON
/// object `{sub, role, iat, exp}`; decoding the token under the same secret gives
/// back those four values. For HS256 it cannot fail: the key family matches the
/// header, HMAC takes a key of any length, and the token is the three parts
/// joined by dots.
#[verifier::external_body]
fn jwt_sign(sub: &str, role: &str, iat: i64, exp: i64, secret: &str) -> (r: Result<String, String>)
    ensures
        r is Ok,
        r matches Ok(t) ==> t@.len() > 0,
        r matches Ok(t) ==> jwt_claims(t@, secret@) == Some((sub@, role@, iat as int, exp as int)),
{
    let mut payload = serde_json::Map::new();
    payload.insert("sub".to_string(), serde_json::Value::from(sub));
    payload.insert("role".to_string(), serde_json::Value::from(role));
    payload.insert("iat".to_string(), serde_json::Value::from(iat));
    payload.insert("exp".to_string(), serde_json::Value::from(exp));
    let key = jsonwebtoken::EncodingKey::from_secret(secret.as_bytes());
    jsonwebtoken::encode(&jsonwebtoken::Header::default(), &payload, &key).map_err(|e| e.to_string())
}

/// Relies on `jsonwebtoken::decode` with `Validation::default()` (HS256, signature
/// checked against `DecodingKey::from_secret` over the secret's bytes), with no
/// claim required and its own expiry check switched off: the caller compares
/// `exp` with the clock. The four claims come back only when the token decodes
/// and carries them with these JSON types.
#[verifier::external_body]
fn jwt_open(token: &str, secret: &str) -> (r: Option<(String, String, i64, i64)>)
    ensures
        r matches Some(c) ==> jwt_claims(token@, secret@) == Some((c.0@, c.1@, c.2 as int, c.3 as int)),
        r is None ==> jwt_claims(token@, secret@) is None,
{
    let mut validation = jsonwebtoken::Validation::default();
    validation.validate_exp = false;
    validation.required_spec_claims.clear();
    let key = jsonwebtoken::DecodingKey::from_secret(secret.as_bytes());
    let claims = jsonwebtoken::decode::<serde_json::Value>(token, &key, &validation).ok()?.claims;
    Some((
        claims.get("sub")?.as_str()?.to_string(),
        claims.get("role")?.as_str()?.to_string(),
        claims.get("iat")?.as_i64()?,
        claims.get("exp")?.as_i64()?,
    ))
}

/// Why a token is refused.
pub enum TokenFault {
    /// Malformed, not signed under the secret, or carrying an unknown role.
    Invalid,
    /// Past its expiry time.
    Expired,
}

/// What checking `token` under `secret` at time `now` yields: the subject, role,
/// issue time and expiry time, or the reason for refusal.
pub open spec fn token_verdict(token: Seq<char>, secret: Seq<char>, now: int) -> Result<
    (Seq<char>, Role, int, int),
    TokenFault,
> {
    match jwt_claims(token, secret) {
        None => Err(TokenFault::Invalid),
        Some((sub, role, iat, exp)) => match role_named(role) {
            None => Err(TokenFault::Invalid),
            Some(r) => if now > exp {
                Err(TokenFault::Expired)
            } else {
                Ok((sub, r, iat, exp))
            },
        },
    }
}

/// Whether a result of token validation is the one that `verdict` describes.
pub open spec fn validation_agrees(
    r: Result<Claims, AuthError>,
    verdict: Result<(Seq<char>, Role, int, int), TokenFault>,
) -> bool {
    match verdict {
        Ok((sub, role, iat, exp)) => r matches Ok(c) && c.sub@ == sub && c.role == role && c.iat
            == iat && c.exp == exp,
        Err(TokenFault::Invalid) => r matches Err(AuthError::TokenValidationError(_)),
        Err(TokenFault::Expired) => r == Err::<Claims, AuthError>(AuthError::TokenExpired),
    }
}

/// Whether `token` was issued under `secret` for `sub` and `role` with a lifetime of
/// `lifetime` seconds, at a time the clock can report.
pub open spec fn issued_for(
    token: Seq<char>,
    secret: Seq<char>,
    sub: Seq<char>,
    role: Role,
    lifetime: int,
) -> bool {
    match jwt_claims(token, secret) {
        Some((s, r, iat, exp)) => s == sub && r == role_name(role) && exp == iat + lifetime && 0
            <= iat < CLOCK_LIMIT,
        None => false,
    }
}

impl Claims {
    /// Claims issued at `now` that expire `expires_in_seconds` later.
    pub fn issued_at(subject: String, role: Role, now: i64, expires_in_seconds: i64) -> (r: Claims)
        requires
            0 <= now < CLOCK_LIMIT,
            -MAX_TOKEN_LIFETIME <= expires_in_seconds <= MAX_TOKEN_LIFETIME,
        ensures
            r.sub@ == subject@,
            r.role == role,
            r.iat == now,
            r.exp == now + expires_in_seconds,
    {
        Claims { sub: subject, role, iat: now, exp: now + expires_in_seconds }
    }

    /// Claims issued now that expire `expires_in_seconds` later.
    pub fn new(subject: String, role: Role, expires_in_seconds: i64) -> (r: Claims)
        requires
            -MAX_TOKEN_LIFETIME <= expires_in_seconds <= MAX_TOKEN_LIFETIME,
        ensures
            r.sub@ == subject@,
            r.role == role,
            0 <= r.iat < CLOCK_LIMIT,
            r.exp == r.iat + expires_in_seconds,
    {
        Claims::issued_at(subject, role, now_timestamp(), expires_in_seconds)
    }

    /// Whether the claims have expired at time `now`.
    pub fn is_expired_at(&self, now: i64) -> (r: bool)
        ensures
            r == (now > self.exp),
    {
        now > self.exp
    }

    /// Whether the claims have expired by the clock's current time.
    pub fn is_expired(&self) -> (r: bool)
        ensures
            self.exp < 0 ==> r,
            self.exp >= CLOCK_LIMIT ==> !r,
    {
        self.is_expired_at(now_timestamp())
    }
}

/// Signs a token for `user_id` and `role`, issued at `now`, that expires
/// `expires_in_seconds` later.
pub fn generate_token_at(
    user_id: &str,
    role: Role,
    secret: &str,
    now: i64,
    expires_in_seconds: i64,
) -> (r: Result<String, AuthError>)
    requires
        0 <= now < CLOCK_LIMIT,
        -MAX_TOKEN_LIFETIME <= expires_in_seconds <= MAX_TOKEN_LIFETIME,
    ensures
        r matches Ok(t) && t@.len() > 0 && jwt_claims(t@, secret@) == Some(
            (user_id@, role_name(role), now as int, now + expires_in_seconds),
        ),
{
    let claims = Claims::issued_at(owned(user_id), role, now, expires_in_seconds);
    match jwt_sign(claims.sub.as_str(), role.as_str(), claims.iat, claims.exp, secret) {
        Ok(t) => Ok(t),
        Err(msg) => Err(AuthError::TokenGenerationError(msg)),
    }
}

/// Signs a token for `user_id` and `role`, issued now, that expires
/// `expires_in_seconds` later.
pub fn generate_token(user_id: &str, role: Role, secret: &str, expires_in_seconds: i64) -> (r:
    Result<String, AuthError>)
    requires
        -MAX_TOKEN_LIFETIME <= expires_in_seconds <= MAX_TOKEN_LIFETIME,
    ensures
        r matches Ok(t) && t@.len() > 0 && issued_for(t@, secret@, user_id@, role, expires_in_seconds as int),
{
    generate_token_at(user_id, role, secret, now_timestamp(), expires_in_seconds)
}

/// Checks a token's signature under `secret`, its role name and its expiry
/// against `now`, and returns its claims.
pub fn validate_token_at(token: &str, secret: &str, now: i64) -> (r: Result<Claims, AuthError>)
    ensures
        validation_agrees(r, token_verdict(token@, secret@, now as int)),
{
    let opened = jwt_open(token, secret);
    match opened {
        None => Err(AuthError::TokenValidationError(owned("malformed token or bad signature"))),
        Some((sub, role_text, iat, exp)) => match Role::from_name(role_text.as_str()) {
            None => Err(AuthError::TokenValidationError(owned("unknown role in token"))),
            Some(role) => {
                let claims = Claims { sub, role, iat, exp };
                if claims.is_expired_at(now) {
                    Err(AuthError::TokenExpired)
                } else {
                    Ok(claims)
                }
            },
        },
    }
}

/// Checks a token's signature under `secret`, its role name and its expiry
/// against the clock's current time, and returns its claims.
pub fn validate_token(token: &str, secret: &str) -> (r: Result<Claims, AuthError>)
    ensures
        exists|now: int| 0 <= now < CLOCK_LIMIT && validation_agrees(r, #[trigger] token_verdict(token@, secret@, now)),
{
    let now = now_timestamp();
    validate_token_at(token, secret, now)
}

} // verus!
