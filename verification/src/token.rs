//! The session-token codec: a signed, stateless bearer credential carrying
//! subject and expiry.  The codec knows nothing of revocation; that is
//! layered on top by the session flows.

use vstd::prelude::*;

use crate::data_stores::BannedTokenStore;
use crate::email::Email;
use crate::errors::AuthAPIError;

verus! {

/// How long an issued token stays valid, in seconds.
pub const TOKEN_TTL_SECONDS: u64 = 600;

/// What decoding a token under a signing key yields: the subject and expiry
/// claims of a token that the key's signature check accepts and that
/// carries both claims, nothing otherwise.  The signature scheme is the
/// token crate's; contracts speak of it through this name only.
pub uninterp spec fn decoded(secret: Seq<u8>, token: Seq<char>) -> Option<(Seq<char>, u64)>;

/// The claims carried by a session token.
pub struct Claims {
    pub sub: String,
    pub exp: u64,
}

/// Relies on `jsonwebtoken::decode` with HMAC-SHA-256 and expiry checking
/// turned off: the result is deterministic in key and token, and is the
/// acceptance that `decoded` names.
#[verifier::external_body]
fn jwt_decode_text(secret: &[u8], token: &str) -> (r: Option<(String, u64)>)
    ensures
        r is Some <==> decoded(secret@, token@) is Some,
        r is Some ==> (r.unwrap().0@, r.unwrap().1) == decoded(secret@, token@).unwrap(),
{
    let mut validation = jsonwebtoken::Validation::new(jsonwebtoken::Algorithm::HS256);
    validation.validate_exp = false;
    let key = jsonwebtoken::DecodingKey::from_secret(secret);
    let data = jsonwebtoken::decode::<serde_json::Value>(token, &key, &validation).ok()?;
    let sub = data.claims.get("sub")?.as_str()?.to_string();
    let exp = data.claims.get("exp")?.as_u64()?;
    Some((sub, exp))
}

/// Relies on `jsonwebtoken::encode` with HMAC-SHA-256: for a byte secret
/// and these two claims it cannot fail (the default header's family always
/// matches a secret key, the HMAC accepts any key length, and signing and
/// serialization are infallible), and the token it returns is non-empty
/// and decodes, under the same key, back to exactly the subject and expiry
/// it was built from.
#[verifier::external_body]
fn jwt_encode_text(secret: &[u8], sub: &str, exp: u64) -> (r: Option<String>)
    ensures
        r is Some,
        r is Some ==> decoded(secret@, r.unwrap()@) == Some((sub@, exp)),
        r is Some ==> r.unwrap()@.len() > 0,
{
    let mut claims = serde_json::Map::new();
    claims.insert("sub".to_string(), serde_json::Value::from(sub));
    claims.insert("exp".to_string(), serde_json::Value::from(exp));
    let key = jsonwebtoken::EncodingKey::from_secret(secret);
    let header = jsonwebtoken::Header::default();
    jsonwebtoken::encode(&header, &serde_json::Value::Object(claims), &key).ok()
}

/// Issues a token for the address: subject is the address, expiry lies one
/// lifetime past `now`, and decoding under the same key recovers both.
pub fn generate_auth_token(secret: &[u8], email: &Email, now: u64) -> (r: Result<
    String,
    AuthAPIError,
>)
    ensures
        r is Ok <==> now + TOKEN_TTL_SECONDS <= u64::MAX,
        r matches Ok(t) ==> decoded(secret@, t@) == Some(
            (email@, (now + TOKEN_TTL_SECONDS) as u64),
        ) && t@.len() > 0,
        r is Err ==> r == Err::<String, AuthAPIError>(AuthAPIError::UnexpectedError),
{
    if now > u64::MAX - TOKEN_TTL_SECONDS {
        return Err(AuthAPIError::UnexpectedError);
    }
    let exp = now + TOKEN_TTL_SECONDS;
    match jwt_encode_text(secret, email.as_str(), exp) {
        Some(t) => Ok(t),
        None => Err(AuthAPIError::UnexpectedError),
    }
}

/// Decodes a token and checks its expiry against `now`: succeeds exactly
/// when the signature validates and the token has not expired, and returns
/// the claims then.  Revocation is not this function's concern.
pub fn decode_token(secret: &[u8], token: &str, now: u64) -> (r: Result<Claims, AuthAPIError>)
    ensures
        r is Ok <==> decoded(secret@, token@) is Some && now < decoded(
            secret@,
            token@,
        ).unwrap().1,
        r matches Ok(c) ==> decoded(secret@, token@) == Some((c.sub@, c.exp)),
        r is Err ==> r == Err::<Claims, AuthAPIError>(AuthAPIError::InvalidToken),
{
    match jwt_decode_text(secret, token) {
        Some((sub, exp)) => {
            if now < exp {
                Ok(Claims { sub, exp })
            } else {
                Err(AuthAPIError::InvalidToken)
            }
        },
        None => Err(AuthAPIError::InvalidToken),
    }
}

/// Judges a presented token: trusted exactly when it is not revoked, its
/// signature validates, and it has not expired.  Revocation is checked
/// before any trust is granted.
pub fn validate_token<U: BannedTokenStore>(
    token: &str,
    banned_token_store: &U,
    secret: &[u8],
    now: u64,
) -> (r: Result<Claims, AuthAPIError>)
    ensures
        r is Ok <==> !banned_token_store.banned().contains(token@) && decoded(secret@, token@)
            is Some && now < decoded(secret@, token@).unwrap().1,
        r matches Ok(c) ==> decoded(secret@, token@) == Some((c.sub@, c.exp)),
        r is Err ==> r == Err::<Claims, AuthAPIError>(AuthAPIError::InvalidToken),
{
    match banned_token_store.is_banned(token) {
        Ok(true) => Err(AuthAPIError::InvalidToken),
        Ok(false) => decode_token(secret, token, now),
        Err(_) => Err(AuthAPIError::InvalidToken),
    }
}

} // verus!
