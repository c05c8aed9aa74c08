//! Stateless token issuance and verification: a token carries the subject
//! (the user id in decimal), an issued-at instant and an expiry 24 hours
//! later, signed with the server secret under HMAC-SHA256. Signature and
//! shape are checked by the signing library; the expiry comparison is done
//! here, in verified code, against the caller's clock.

use vstd::prelude::*;

use crate::decimal::{spec_dec, u64_to_string};
use crate::error::AppError;

verus! {

/// Seconds a token stays valid after issuance: 24 hours.
pub const TOKEN_LIFETIME_SECS: u64 = 86400;

/// Decoded payload of a signed token.
#[derive(Debug, PartialEq)]
pub struct Claims {
    /// Subject: the user identifier, in decimal.
    pub sub: String,
    /// Expiration instant, seconds since the epoch.
    pub exp: u64,
    /// Issuance instant, seconds since the epoch.
    pub iat: u64,
}

impl Clone for Claims {
    fn clone(&self) -> (r: Self)
        ensures
            r == *self,
    {
        Claims { sub: self.sub.clone(), exp: self.exp, iat: self.iat }
    }
}

impl Claims {
    /// Claims for `user_id` issued at `now`: the subject is the decimal form
    /// of the id, the expiry lies 24 hours past `now`.
    pub fn new(user_id: i32, now: u64) -> (r: Claims)
        requires
            user_id >= 0,
            now + TOKEN_LIFETIME_SECS <= u64::MAX,
        ensures
            r.sub@ == spec_dec(user_id as nat),
            r.iat == now,
            r.exp == now + TOKEN_LIFETIME_SECS,
    {
        Claims {
            sub: u64_to_string(user_id as u64),
            exp: now + TOKEN_LIFETIME_SECS,
            iat: now,
        }
    }
}

/// What `jsonwebtoken::decode` (HS256, expiry validation off) recovers from
/// `token` under `secret`: the subject, expiry and issued-at claims when the
/// token is well-formed and its signature verifies, `None` otherwise. A
/// function of the two strings alone.
pub uninterp spec fn decoded_claims(token: Seq<char>, secret: Seq<char>) -> Option<
    (Seq<char>, u64, u64),
>;

/// Relies on `jsonwebtoken::encode` (HS256, default header): with a byte
/// secret the HMAC signing path has no failure branch, so a token always
/// comes back; encoding the claims object is deterministic, and
/// `jsonwebtoken::decode` under the same secret recovers exactly the claims
/// that were signed.
#[verifier::external_body]
fn encode_token(sub: &str, exp: u64, iat: u64, secret: &str) -> (r: Option<String>)
    ensures
        r is Some,
        r matches Some(t) ==> decoded_claims(t@, secret@) == Some((sub@, exp, iat)),
{
    let mut m = serde_json::Map::new();
    m.insert("sub".to_string(), serde_json::Value::String(sub.to_string()));
    m.insert("exp".to_string(), serde_json::Value::from(exp));
    m.insert("iat".to_string(), serde_json::Value::from(iat));
    let key = jsonwebtoken::EncodingKey::from_secret(secret.as_bytes());
    let header = jsonwebtoken::Header::default();
    jsonwebtoken::encode(&header, &serde_json::Value::Object(m), &key).ok()
}

/// Relies on `jsonwebtoken::decode` (HS256) with expiry validation turned
/// off: it checks the token's shape and signature and hands the claims back,
/// a function of token and secret alone. The expiry comparison is made by
/// the verified callers against their own clock.
#[verifier::external_body]
fn decode_token(token: &str, secret: &str) -> (r: Option<(String, u64, u64)>)
    ensures
        match r {
            Some((s, e, i)) => decoded_claims(token@, secret@) == Some((s@, e, i)),
            None => decoded_claims(token@, secret@) is None,
        },
{
    let key = jsonwebtoken::DecodingKey::from_secret(secret.as_bytes());
    let mut v = jsonwebtoken::Validation::new(jsonwebtoken::Algorithm::HS256);
    v.validate_exp = false;
    let data = match jsonwebtoken::decode::<serde_json::Value>(token, &key, &v) {
        Ok(d) => d,
        Err(_) => return None,
    };
    let sub = data.claims.get("sub")?.as_str()?.to_string();
    let exp = data.claims.get("exp")?.as_u64()?;
    let iat = data.claims.get("iat")?.as_u64()?;
    Some((sub, exp, iat))
}

/// Relies on `chrono::Utc::now`: seconds since the Unix epoch at the moment
/// of the call. Nothing is assumed of the value.
#[verifier::external_body]
fn now_timestamp() -> i64 {
    chrono::Utc::now().timestamp()
}

/// The verification outcome at instant `now`: the decoded claims when the
/// token decodes under the secret and `now` lies strictly before the expiry,
/// nothing otherwise.
pub open spec fn spec_verify_outcome(token: Seq<char>, secret: Seq<char>, now: u64) -> Option<
    (Seq<char>, u64, u64),
> {
    match decoded_claims(token, secret) {
        Some((s, e, i)) => if now < e {
            Some((s, e, i))
        } else {
            None
        },
        None => None,
    }
}

/// Issue a token for `user_id` as of instant `now`: a token always comes
/// back, and it decodes under the same secret to the decimal subject, expiry
/// 24 hours past `now`, and issued-at `now`.
pub fn create_jwt_at(user_id: i32, secret: &str, now: u64) -> (r: Option<String>)
    requires
        user_id >= 0,
        now + TOKEN_LIFETIME_SECS <= u64::MAX,
    ensures
        r is Some,
        r matches Some(t) ==> decoded_claims(t@, secret@) == Some(
            (spec_dec(user_id as nat), (now + TOKEN_LIFETIME_SECS) as u64, now),
        ),
{
    let claims = Claims::new(user_id, now);
    encode_token(claims.sub.as_str(), claims.exp, claims.iat, secret)
}

/// Issue a token for `user_id` as of the system clock: a token always comes
/// back.
pub fn create_jwt(user_id: i32, secret: &str) -> (r: Option<String>)
    requires
        user_id >= 0,
    ensures
        r is Some,
        r matches Some(t) ==> match decoded_claims(t@, secret@) {
            Some((s, e, i)) => s == spec_dec(user_id as nat) && e == i + TOKEN_LIFETIME_SECS,
            None => false,
        },
{
    let now_signed = now_timestamp();
    let now: u64 = if now_signed < 0 {
        0
    } else {
        now_signed as u64
    };
    create_jwt_at(user_id, secret, now)
}

/// Check `token` under `secret` as of instant `now`: the claims exactly when
/// the token decodes and has not expired, `Unauthorized` otherwise (bad
/// signature, malformed token, or expired).
pub fn verify_jwt_at(token: &str, secret: &str, now: u64) -> (r: Result<Claims, AppError>)
    ensures
        match spec_verify_outcome(token@, secret@, now) {
            Some((s, e, i)) => r matches Ok(c) && c.sub@ == s && c.exp == e && c.iat == i,
            None => r matches Err(a) && (a matches AppError::Unauthorized(m) && m@
                == "Invalid token"@),
        },
{
    match decode_token(token, secret) {
        Some((sub, exp, iat)) => {
            if now < exp {
                Ok(Claims { sub, exp, iat })
            } else {
                Err(AppError::Unauthorized("Invalid token".to_owned()))
            }
        },
        None => Err(AppError::Unauthorized("Invalid token".to_owned())),
    }
}

/// Check `token` under `secret` as of the system clock.
pub fn verify_jwt(token: &str, secret: &str) -> (r: Result<Claims, AppError>)
    ensures
        r matches Ok(c) ==> decoded_claims(token@, secret@) == Some((c.sub@, c.exp, c.iat)),
        decoded_claims(token@, secret@) is None ==> r is Err,
{
    let now_signed = now_timestamp();
    let now: u64 = if now_signed < 0 {
        0
    } else {
        now_signed as u64
    };
    verify_jwt_at(token, secret, now)
}

/// A token issued for a user and checked with the same secret strictly
/// before its expiry yields that user's claims — subject, expiry and
/// issued-at exactly as issued; checked at or past the expiry instant it is
/// rejected. Stated over the decoded form that the issue and verify
/// contracts share.
pub proof fn lemma_token_round_trip(
    token: Seq<char>,
    secret: Seq<char>,
    user_id: i32,
    iat: u64,
    t: u64,
)
    requires
        user_id >= 0,
        iat + TOKEN_LIFETIME_SECS <= u64::MAX,
        decoded_claims(token, secret) == Some(
            (spec_dec(user_id as nat), (iat + TOKEN_LIFETIME_SECS) as u64, iat),
        ),
    ensures
        t < iat + TOKEN_LIFETIME_SECS ==> spec_verify_outcome(token, secret, t) == Some(
            (spec_dec(user_id as nat), (iat + TOKEN_LIFETIME_SECS) as u64, iat),
        ),
        t >= iat + TOKEN_LIFETIME_SECS ==> spec_verify_outcome(token, secret, t) is None,
{
}

} // verus!
