use vstd::prelude::*;
use crate::error::AuthError;

verus! {

/// What bcrypt's verification routine reports for a password and a stored
/// hash string: `Some(true)` on a match, `Some(false)` on a mismatch, `None`
/// where the hash string cannot be read.
pub uninterp spec fn bcrypt_check(password: Seq<char>, hash: Seq<char>) -> Option<bool>;

/// The decimal digit `d` (below ten) as a character.
pub open spec fn digit_char(d: u32) -> char {
    if d == 0 {
        '0'
    } else if d == 1 {
        '1'
    } else if d == 2 {
        '2'
    } else if d == 3 {
        '3'
    } else if d == 4 {
        '4'
    } else if d == 5 {
        '5'
    } else if d == 6 {
        '6'
    } else if d == 7 {
        '7'
    } else if d == 8 {
        '8'
    } else {
        '9'
    }
}

/// The shape of every string bcrypt's hashing produces at work factor `cost`:
/// `$2b$`, the cost in two digits, `$`, then 53 characters of salt and digest.
pub open spec fn bcrypt_shaped(h: Seq<char>, cost: u32) -> bool {
    &&& h.len() == 60
    &&& h[0] == '$'
    &&& h[1] == '2'
    &&& h[2] == 'b'
    &&& h[3] == '$'
    &&& h[4] == digit_char(cost / 10)
    &&& h[5] == digit_char(cost % 10)
    &&& h[6] == '$'
}

/// The work factor every new password hash is computed with.
pub const HASH_COST: u32 = 12;

/// Relies on `bcrypt::hash`: it draws a fresh random salt, so two calls on one
/// password give different strings; any string it returns is accepted by
/// `bcrypt::verify` for that same password (the salt and cost are read back
/// out of the string and the digest recomputed); the string is formatted as
/// `$2b${cost:02}${salt}{digest}` with 22 and 31 base64 characters.
#[verifier::external_body]
fn bcrypt_hash(password: &str, cost: u32) -> (r: Option<String>)
    requires
        4 <= cost <= 31,
    ensures
        r matches Some(h) ==> bcrypt_check(password@, h@) == Some(true),
        r matches Some(h) ==> bcrypt_shaped(h@, cost),
{
    bcrypt::hash(password, cost).ok()
}

/// Relies on `bcrypt::verify`: recomputes the digest with the salt and cost
/// held in `hash` and compares; an unreadable hash string is an error.
#[verifier::external_body]
fn bcrypt_verify(password: &str, hash: &str) -> (r: Option<bool>)
    ensures
        r == bcrypt_check(password@, hash@),
{
    bcrypt::verify(password, hash).ok()
}

/// Hashes a password for storage, salted, at the fixed work factor.
pub fn hash_password(password: &str) -> (r: Result<String, AuthError>)
    ensures
        r matches Ok(h) ==> bcrypt_check(password@, h@) == Some(true) && bcrypt_shaped(h@, HASH_COST),
        r matches Err(e) ==> e == AuthError::InternalError,
{
    match bcrypt_hash(password, HASH_COST) {
        Some(h) => Ok(h),
        None => Err(AuthError::InternalError),
    }
}

/// Accepts a password only where bcrypt reports a match; a hash that
/// cannot be read counts as a mismatch.
pub open spec fn accepts(result: Option<bool>) -> bool {
    result == Some(true)
}

/// Decides on bcrypt's result: a match passes, anything else is an
/// invalid password.
pub fn judge_check(result: Option<bool>) -> (r: Result<(), AuthError>)
    ensures
        accepts(result) ==> r == Ok::<(), AuthError>(()),
        !accepts(result) ==> r == Err::<(), AuthError>(AuthError::InvalidPassword),
{
    match result {
        Some(true) => Ok(()),
        _ => Err(AuthError::InvalidPassword),
    }
}

/// Checks a supplied password against a stored hash, failing closed.
pub fn check_password(password: &str, stored_hash: &str) -> (r: Result<(), AuthError>)
    ensures
        accepts(bcrypt_check(password@, stored_hash@)) ==> r == Ok::<(), AuthError>(()),
        !accepts(bcrypt_check(password@, stored_hash@)) ==> r == Err::<(), AuthError>(
            AuthError::InvalidPassword,
        ),
{
    judge_check(bcrypt_verify(password, stored_hash))
}

} // verus!
