use vstd::prelude::*;
use crate::error::AuthError;

verus! {

/// How long a session token stays valid after it is issued, in seconds.
pub const TOKEN_VALIDITY_SECS: i64 = 3600;

/// The compact token that HS256 signing with the default header yields for
/// the claims `{sub, username, exp}` under `secret`.
pub uninterp spec fn hs256_token(
    subject: int,
    username: Seq<char>,
    expiry: int,
    secret: Seq<char>,
) -> Seq<char>;

/// The payload of a session token: who the user is and until when the token
/// holds (seconds since the Unix epoch).
#[derive(Debug, Clone, PartialEq, Eq)]
pub struct SessionClaims {
    pub subject: i64,
    pub username: String,
    pub expiry: i64,
}

/// Whether claims issued at `now` for `subject` and `username` are `c`.
pub open spec fn claims_issued(c: SessionClaims, subject: i64, username: Seq<char>, now: i64) -> bool {
    &&& c.subject == subject
    &&& c.username@ == username
    &&& c.expiry == now + TOKEN_VALIDITY_SECS
}

/// Whether an expiry can be computed from `now` without leaving `i64`.
pub open spec fn expiry_fits(now: i64) -> bool {
    now + TOKEN_VALIDITY_SECS <= i64::MAX
}

/// Relies on `chrono::Utc::now` and `DateTime::timestamp`: whole seconds since
/// the Unix epoch; nothing is known of the value.
#[verifier::external_body]
pub(crate) fn now_timestamp() -> (r: i64) {
    chrono::Utc::now().timestamp()
}

/// Relies on `jsonwebtoken::encode` with the default (HS256) header and an
/// HMAC key made from the secret's bytes: signing is deterministic, so the
/// token depends on the claims and the secret alone. It cannot fail here: an
/// HMAC key matches HS256, a map of strings and an integer always serialises,
/// and HMAC signing always succeeds.
#[verifier::external_body]
fn encode_hs256(subject: i64, username: &str, expiry: i64, secret: &str) -> (r: Option<String>)
    ensures
        r is Some,
        r matches Some(t) ==> t@ == hs256_token(subject as int, username@, expiry as int, secret@),
{
    let claims: serde_json::Map<String, serde_json::Value> = serde_json::Map::from_iter([
        ("sub".to_string(), serde_json::Value::from(subject.to_string())),
        ("username".to_string(), serde_json::Value::from(username)),
        ("exp".to_string(), serde_json::Value::from(expiry)),
    ]);
    let key = jsonwebtoken::EncodingKey::from_secret(secret.as_bytes());
    jsonwebtoken::encode(&jsonwebtoken::Header::default(), &claims, &key).ok()
}

/// Builds the claims for a login at time `now`, expiring a fixed window later.
pub fn issue_claims(subject: i64, username: &str, now: i64) -> (r: Result<SessionClaims, AuthError>)
    ensures
        expiry_fits(now) ==> (r matches Ok(c) && claims_issued(c, subject, username@, now)),
        !expiry_fits(now) ==> r == Err::<SessionClaims, AuthError>(AuthError::InternalError),
{
    if now > i64::MAX - TOKEN_VALIDITY_SECS {
        return Err(AuthError::InternalError);
    }
    Ok(SessionClaims { subject, username: username.to_owned(), expiry: now + TOKEN_VALIDITY_SECS })
}

/// Signs claims into a compact token with the server's secret.
pub fn sign_claims(claims: &SessionClaims, secret: &str) -> (r: Result<String, AuthError>)
    ensures
        r matches Ok(t) && t@ == hs256_token(
            claims.subject as int,
            claims.username@,
            claims.expiry as int,
            secret@,
        ),
{
    match encode_hs256(claims.subject, claims.username.as_str(), claims.expiry, secret) {
        Some(t) => Ok(t),
        None => Err(AuthError::InternalError),
    }
}

} // verus!
