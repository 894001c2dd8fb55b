//! The token codec: signed bearer tokens carrying a subject and an expiry.
//!
//! A token asserts `{subject, expiresAt}` and nothing else. It is minted at
//! login or registration, carried by the client, and checked on every
//! protected request. A token is valid if and only if its signature verifies
//! under the server's secret and the given clock reading lies before its
//! expiry; no other state participates. The clock is an explicit argument so
//! that the codec is a pure function of its inputs.

use vstd::prelude::*;
use crate::errors::{AppError, AppResult};
use crate::ids::Id;

verus! {

/// Why a token was rejected. Request authentication collapses every kind to
/// one client-facing message; the kind stays available for internal logging.
#[derive(Debug, Clone, Copy, PartialEq, Eq, Structural)]
pub enum TokenError {
    /// The signature does not verify under the given secret.
    InvalidSignature,
    /// The token's expiry lies at or before the given time.
    Expired,
    /// The header names an algorithm other than the one this service signs with.
    AlgorithmMismatch,
    /// The token is not structurally a signed token at all.
    Malformed,
}

/// The claims carried by a token: a subject and a Unix-seconds expiry.
#[derive(Debug)]
pub struct Claims {
    /// The subject the token was issued for, as canonical identifier text.
    pub sub: String,
    /// The expiry as Unix seconds; the token is dead once the clock reaches it.
    pub exp: i64,
}

/// The signed token that encoding the claims `{sub, exp}` under `secret`
/// yields: a deterministic function of exactly these three values.
pub uninterp spec fn spec_signed_token(sub: Seq<char>, exp: i64, secret: Seq<char>) -> Seq<char>;

/// Whether `token` is accepted as carrying the claims `{sub, exp}` under
/// `secret`: its header names the one expected algorithm, its payload's
/// subject and expiry fields hold these values, and its signature verifies
/// under this secret. This is the relation the decoder decides — deterministic
/// in exactly these four values — and it is wider than equality with the
/// canonical encoding: a differently serialized payload carrying the same
/// claims, validly signed, also stands in it.
pub uninterp spec fn spec_token_carries(
    token: Seq<char>,
    sub: Seq<char>,
    exp: i64,
    secret: Seq<char>,
) -> bool;

/// Relies on jsonwebtoken::encode with an HS256 header and a plain secret.
/// The result is a function of the claims and the secret alone, and for the
/// HMAC family signing cannot fail: the hmac crate accepts keys of any length,
/// and serializing a string-keyed JSON object cannot error. What comes back is
/// a validly signed token carrying exactly the given claims.
#[verifier::external_body]
fn jwt_encode(sub: &str, exp: i64, secret: &str) -> (r: Result<String, TokenError>)
    ensures
        r is Ok,
        r matches Ok(t) ==> t@ == spec_signed_token(sub@, exp, secret@),
        r matches Ok(t) ==> spec_token_carries(t@, sub@, exp, secret@),
{
    let mut claims = serde_json::Map::new();
    claims.insert("sub".to_owned(), serde_json::Value::String(sub.to_owned()));
    claims.insert("exp".to_owned(), serde_json::Value::Number(serde_json::Number::from(exp)));
    let key = jsonwebtoken::EncodingKey::from_secret(secret.as_bytes());
    let header = jsonwebtoken::Header::default();
    jsonwebtoken::encode(&header, &serde_json::Value::Object(claims), &key).map_err(|_| TokenError::Malformed)
}

/// The error type of the jsonwebtoken crate, carried opaquely between the
/// decoding call and the mapping of its kind.
#[verifier::external_type_specification]
#[verifier::external_body]
pub struct ExJwtError(jsonwebtoken::errors::Error);

/// Relies on jsonwebtoken::decode, restricted to HS256 and with its own expiry
/// check turned off (expiry is this library's verified code, against an
/// explicit clock). A token carrying some claims under this secret — validly
/// signed, whatever its exact serialization — yields exactly those claims, and
/// a successful decode shows the token carries the claims it returned. Nothing
/// here says an accepted token is the canonical encoding: the decoder checks
/// the signature over the bytes as given.
#[verifier::external_body]
fn jwt_decode_claims(token: &str, secret: &str) -> (r: Result<
    (String, i64),
    jsonwebtoken::errors::Error,
>)
    ensures
        r is Ok ==> spec_token_carries(token@, r->Ok_0.0@, r->Ok_0.1, secret@),
        forall|sub: Seq<char>, exp: i64|
            spec_token_carries(token@, sub, exp, secret@) ==> r is Ok && r->Ok_0.0@ == sub
                && r->Ok_0.1 == exp,
{
    let mut v = jsonwebtoken::Validation::new(jsonwebtoken::Algorithm::HS256);
    v.validate_exp = false;
    v.required_spec_claims = std::collections::HashSet::new();
    let key = jsonwebtoken::DecodingKey::from_secret(secret.as_bytes());
    let data = jsonwebtoken::decode::<serde_json::Value>(token, &key, &v)?.claims;
    match (data.get("sub").and_then(|s| s.as_str()), data.get("exp").and_then(|x| x.as_i64())) {
        (Some(s), Some(e)) => Ok((s.to_owned(), e)),
        _ => Err(jsonwebtoken::errors::Error::from(jsonwebtoken::errors::ErrorKind::InvalidToken)),
    }
}

/// Relies on jsonwebtoken::errors::Error::kind to tell which check failed: a
/// signature mismatch, a foreign algorithm, or anything else, one arm each.
#[verifier::external_body]
fn jwt_error_kind(e: &jsonwebtoken::errors::Error) -> (r: TokenError)
{
    match e.kind() {
        jsonwebtoken::errors::ErrorKind::InvalidSignature => TokenError::InvalidSignature,
        jsonwebtoken::errors::ErrorKind::InvalidAlgorithm => TokenError::AlgorithmMismatch,
        _ => TokenError::Malformed,
    }
}

impl Claims {
    /// Builds claims for `user_id` that expire `expiration_hours` hours after
    /// the clock reading `now`.
    pub fn new(user_id: &Id, expiration_hours: i64, now: i64) -> (c: Claims)
        requires
            0 <= now,
            0 < expiration_hours,
            now + expiration_hours * 3600 <= i64::MAX,
        ensures
            c.sub@ == user_id@,
            c.exp == now + expiration_hours * 3600,
    {
        Claims { sub: user_id.to_text(), exp: now + expiration_hours * 3600 }
    }
}

/// Mints a signed token for `user_id` that expires `expiration_hours` hours
/// after the clock reading `now`. Minting cannot fail for inputs within the
/// stated machine limits; the result is the canonical encoding of the claims,
/// and it carries exactly them.
pub fn create_jwt(user_id: &Id, secret: &str, expiration_hours: i64, now: i64) -> (r: AppResult<
    String,
>)
    requires
        0 <= now,
        0 < expiration_hours,
        now + expiration_hours * 3600 <= i64::MAX,
    ensures
        r is Ok,
        r matches Ok(t) ==> t@ == spec_signed_token(
            user_id@,
            (now + expiration_hours * 3600) as i64,
            secret@,
        ),
        r matches Ok(t) ==> spec_token_carries(
            t@,
            user_id@,
            (now + expiration_hours * 3600) as i64,
            secret@,
        ),
{
    let claims = Claims::new(user_id, expiration_hours, now);
    match jwt_encode(claims.sub.as_str(), claims.exp, secret) {
        Ok(t) => Ok(t),
        Err(e) => Err(AppError::Jwt(e)),
    }
}

/// Decodes and checks a token against `secret` and the clock reading `now`.
///
/// A token carrying `{sub, exp}` under `secret` yields exactly those claims
/// while `now < exp`, and `Expired` once `now` reaches `exp`; a successful
/// decode always shows the token carries the returned claims, validly signed,
/// with an expiry still ahead of `now`. Together with `create_jwt` this is the
/// round trip: what was minted for a subject decodes to that subject until its
/// expiry, and to `Expired` after.
pub fn decode_jwt(token: &str, secret: &str, now: i64) -> (r: Result<Claims, TokenError>)
    ensures
        r matches Ok(c) ==> spec_token_carries(token@, c.sub@, c.exp, secret@) && now < c.exp,
        forall|sub: Seq<char>, exp: i64|
            spec_token_carries(token@, sub, exp, secret@) && now < exp ==> (r matches Ok(c)
                && c.sub@ == sub && c.exp == exp),
        forall|sub: Seq<char>, exp: i64|
            spec_token_carries(token@, sub, exp, secret@) && exp <= now ==> r == Err::<
                Claims,
                TokenError,
            >(TokenError::Expired),
{
    match jwt_decode_claims(token, secret) {
        Ok((sub, exp)) => {
            if now >= exp {
                Err(TokenError::Expired)
            } else {
                Ok(Claims { sub, exp })
            }
        },
        Err(e) => Err(jwt_error_kind(&e)),
    }
}

} // verus!
