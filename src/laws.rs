use vstd::prelude::*;
use crate::error::AuthError;
use crate::password::{bcrypt_check, bcrypt_shaped, HASH_COST};
use crate::service::{login_result, registration_result, signed_as};
use crate::store::StoredCredential;
use crate::token::{expiry_fits, hs256_token, TOKEN_VALIDITY_SECS};

verus! {

/// A user who has just registered can log in with the same password: the
/// login returns the token signed over the new record's id as subject, the
/// username, and an expiry one validity window after `now`. `r` is any
/// result that `login`'s contract allows on the store after registration.
pub proof fn lemma_register_then_login(
    before: Map<Seq<char>, StoredCredential>,
    username: Seq<char>,
    password: Seq<char>,
    id: i64,
    hash: Seq<char>,
    now: i64,
    secret: Seq<char>,
    r: Result<String, AuthError>,
)
    requires
        bcrypt_check(password, hash) == Some(true),
        expiry_fits(now),
        signed_as(
            r,
            login_result(before.insert(username, (id, hash)), username, password, now),
            username,
            secret,
        ),
    ensures
        login_result(before.insert(username, (id, hash)), username, password, now) == Ok::<
            (i64, i64),
            AuthError,
        >((id, (now + TOKEN_VALIDITY_SECS) as i64)),
        r matches Ok(t) && t@ == hs256_token(
            id as int,
            username,
            (now + TOKEN_VALIDITY_SECS) as int,
            secret,
        ),
{
    assert(before.insert(username, (id, hash))[username] == (id, hash));
}

/// Registering a username that is already stored is refused as taken, and
/// the stored record stays what it was.
pub proof fn lemma_register_twice(
    before: Map<Seq<char>, StoredCredential>,
    next_id: i64,
    username: Seq<char>,
    first: StoredCredential,
    hashed: Result<String, AuthError>,
)
    requires
        hashed is Ok,
    ensures
        registration_result(before.insert(username, first), next_id, username, hashed) == Err::<
            (),
            AuthError,
        >(AuthError::UsernameTaken),
        before.insert(username, first)[username] == first,
{
}

/// Logging in under a username that was never registered finds no user.
pub proof fn lemma_unknown_user(
    m: Map<Seq<char>, StoredCredential>,
    username: Seq<char>,
    password: Seq<char>,
    now: i64,
)
    requires
        !m.contains_key(username),
    ensures
        login_result(m, username, password, now) == Err::<(i64, i64), AuthError>(
            AuthError::UserNotFound,
        ),
{
}

/// Logging in with a password that does not verify against the stored hash
/// is refused as invalid.
pub proof fn lemma_wrong_password(
    m: Map<Seq<char>, StoredCredential>,
    username: Seq<char>,
    password: Seq<char>,
    now: i64,
)
    requires
        m.contains_key(username),
        bcrypt_check(password, m[username].1) != Some(true),
    ensures
        login_result(m, username, password, now) == Err::<(i64, i64), AuthError>(
            AuthError::InvalidPassword,
        ),
{
}

/// Two registrations of one fresh username, applied to the store one after
/// the other as its atomic inserts are: exactly one succeeds, whichever
/// comes first, and the other is refused as taken.
pub proof fn lemma_racing_registrations(
    before: Map<Seq<char>, StoredCredential>,
    next_id: i64,
    username: Seq<char>,
    first_hash: String,
    second_hash: String,
)
    requires
        !before.contains_key(username),
        next_id < i64::MAX,
    ensures
        registration_result(before, next_id, username, Ok::<String, AuthError>(first_hash))
            is Ok,
        registration_result(
            before.insert(username, (next_id, first_hash@)),
            (next_id + 1) as i64,
            username,
            Ok::<String, AuthError>(second_hash),
        ) == Err::<(), AuthError>(AuthError::UsernameTaken),
{
}

/// What registration stores is a bcrypt hash string, never the password
/// itself, unless the password happens to have that very shape.
pub proof fn lemma_plaintext_never_stored(stored: Seq<char>, password: Seq<char>)
    requires
        bcrypt_shaped(stored, HASH_COST),
        !bcrypt_shaped(password, HASH_COST),
    ensures
        stored != password,
{
}

} // verus!
