use vstd::prelude::*;
use crate::error::AuthError;
use crate::password::{
    accepts, bcrypt_check, bcrypt_shaped, check_password, hash_password, HASH_COST,
};
use crate::store::{CredentialRecord, CredentialStore, StoreError, StoredCredential};
use crate::token::{
    expiry_fits, hs256_token, issue_claims, now_timestamp, sign_claims, TOKEN_VALIDITY_SECS,
};

verus! {

/// What a registration comes to, given the store before it, the id the store
/// hands out next, the username, and the outcome of hashing the password.
pub open spec fn registration_result(
    m: Map<Seq<char>, StoredCredential>,
    next_id: i64,
    username: Seq<char>,
    hashed: Result<String, AuthError>,
) -> Result<(), AuthError> {
    match hashed {
        Err(e) => Err(e),
        Ok(_) => if m.contains_key(username) {
            Err(AuthError::UsernameTaken)
        } else if next_id == i64::MAX {
            Err(AuthError::InternalError)
        } else {
            Ok(())
        },
    }
}

/// What a login comes to before signing, given what the lookup found: the
/// record's id and the token's expiry, or the error.
pub open spec fn entry_result(entry: Option<StoredCredential>, password: Seq<char>, now: i64) -> Result<
    (i64, i64),
    AuthError,
> {
    match entry {
        None => Err(AuthError::UserNotFound),
        Some((id, hash)) => if !accepts(bcrypt_check(password, hash)) {
            Err(AuthError::InvalidPassword)
        } else if !expiry_fits(now) {
            Err(AuthError::InternalError)
        } else {
            Ok((id, (now + TOKEN_VALIDITY_SECS) as i64))
        },
    }
}

/// What a login against the store `m` comes to before signing.
pub open spec fn login_result(
    m: Map<Seq<char>, StoredCredential>,
    username: Seq<char>,
    password: Seq<char>,
    now: i64,
) -> Result<(i64, i64), AuthError> {
    entry_result(
        if m.contains_key(username) {
            Some(m[username])
        } else {
            None
        },
        password,
        now,
    )
}

/// The id and hash a looked-up record holds.
pub open spec fn record_entry(found: Option<CredentialRecord>) -> Option<StoredCredential> {
    match found {
        None => None,
        Some(rec) => Some((rec.id, rec.password_hash@)),
    }
}

/// Whether `r` is a login result for `v`: its error, or the token signed
/// over its claims.
pub open spec fn signed_as(
    r: Result<String, AuthError>,
    v: Result<(i64, i64), AuthError>,
    username: Seq<char>,
    secret: Seq<char>,
) -> bool {
    match v {
        Err(e) => r == Err::<String, AuthError>(e),
        Ok((id, expiry)) => r matches Ok(t) && t@ == hs256_token(
            id as int,
            username,
            expiry as int,
            secret,
        ),
    }
}

/// Maps the outcome of inserting a credential record to the registration's
/// result: a uniqueness conflict means the username is taken, any other
/// storage failure is internal.
pub fn registration_outcome(inserted: &Result<i64, StoreError>) -> (r: Result<(), AuthError>)
    ensures
        inserted is Ok ==> r == Ok::<(), AuthError>(()),
        inserted matches Err(e) && e.is_conflict() ==> r == Err::<(), AuthError>(
            AuthError::UsernameTaken,
        ),
        inserted matches Err(e) && !e.is_conflict() ==> r == Err::<(), AuthError>(
            AuthError::InternalError,
        ),
{
    match inserted {
        Ok(_) => Ok(()),
        Err(e) => match &e.code {
            Some(c) => {
                proof {
                    reveal_strlit("23505");
                }
                if *c == "23505".to_owned() {
                    Err(AuthError::UsernameTaken)
                } else {
                    Err(AuthError::InternalError)
                }
            },
            None => Err(AuthError::InternalError),
        },
    }
}

/// Stores a credential under `username` once its password has been hashed
/// (`hashed` is the hashing outcome).
pub fn store_credential(
    store: &mut CredentialStore,
    username: &str,
    hashed: Result<String, AuthError>,
) -> (r: Result<(), AuthError>)
    requires
        old(store).wf(),
    ensures
        final(store).wf(),
        r == registration_result(old(store).view(), old(store).spec_next_id(), username@, hashed),
        r is Err ==> *final(store) == *old(store),
        r is Ok ==> (hashed matches Ok(h) && final(store).view() == old(store).view().insert(
            username@,
            (old(store).spec_next_id(), h@),
        )),
        r is Ok ==> forall|u: Seq<char>| #[trigger]
            old(store).view().contains_key(u) ==> old(store).view()[u].0
                < old(store).spec_next_id(),
{
    match hashed {
        Err(e) => Err(e),
        Ok(h) => {
            let inserted = store.insert(username, h);
            registration_outcome(&inserted)
        },
    }
}

/// Registers a user: hashes the password and inserts the credential record.
/// The store's uniqueness check, not a prior lookup, decides whether the
/// username is taken.
pub fn register(store: &mut CredentialStore, username: &str, password: &str) -> (r: Result<
    (),
    AuthError,
>)
    requires
        old(store).wf(),
    ensures
        final(store).wf(),
        r is Err ==> *final(store) == *old(store),
        r is Err ==> (r == Err::<(), AuthError>(AuthError::UsernameTaken) || r == Err::<
            (),
            AuthError,
        >(AuthError::InternalError)),
        old(store).view().contains_key(username@) ==> (r == Err::<(), AuthError>(
            AuthError::UsernameTaken,
        ) || r == Err::<(), AuthError>(AuthError::InternalError)),
        r == Err::<(), AuthError>(AuthError::UsernameTaken) ==> old(store).view().contains_key(
            username@,
        ),
        !old(store).view().contains_key(username@) && old(store).spec_next_id() < i64::MAX ==> (r
            is Ok || r == Err::<(), AuthError>(AuthError::InternalError)),
        r is Ok ==> {
            &&& final(store).view().contains_key(username@)
            &&& final(store).view() == old(store).view().insert(
                username@,
                final(store).view()[username@],
            )
            &&& final(store).view()[username@].0 == old(store).spec_next_id()
            &&& bcrypt_check(password@, final(store).view()[username@].1) == Some(true)
            &&& bcrypt_shaped(final(store).view()[username@].1, HASH_COST)
            &&& forall|u: Seq<char>| #[trigger]
                old(store).view().contains_key(u) ==> old(store).view()[u].0
                    < final(store).view()[username@].0
        },
{
    let hashed = hash_password(password);
    store_credential(store, username, hashed)
}

/// Decides a login on what the lookup returned: a storage failure is
/// internal, a missing record means an unknown user, a password that fails
/// verification is refused, and otherwise claims valid for a fixed window
/// from `now` are signed with `secret`.
pub fn authenticate(
    lookup: Result<Option<CredentialRecord>, StoreError>,
    username: &str,
    password: &str,
    secret: &str,
    now: i64,
) -> (r: Result<String, AuthError>)
    ensures
        lookup is Err ==> r == Err::<String, AuthError>(AuthError::InternalError),
        lookup matches Ok(found) ==> signed_as(
            r,
            entry_result(record_entry(found), password@, now),
            username@,
            secret@,
        ),
{
    let found = match lookup {
        Err(_) => return Err(AuthError::InternalError),
        Ok(found) => found,
    };
    let rec = match found {
        None => return Err(AuthError::UserNotFound),
        Some(rec) => rec,
    };
    check_password(password, rec.password_hash.as_str())?;
    let claims = issue_claims(rec.id, username, now)?;
    sign_claims(&claims, secret)
}

/// Decides a login as `authenticate` does, at the current time by the
/// system clock.
pub fn authenticate_now(
    lookup: Result<Option<CredentialRecord>, StoreError>,
    username: &str,
    password: &str,
    secret: &str,
) -> (r: Result<String, AuthError>)
    ensures
        lookup is Err ==> r == Err::<String, AuthError>(AuthError::InternalError),
        lookup matches Ok(found) ==> exists|now: i64|
            signed_as(r, entry_result(record_entry(found), password@, now), username@, secret@),
{
    let now = now_timestamp();
    authenticate(lookup, username, password, secret, now)
}

/// Logs a user in against the store at time `now`.
pub fn login(store: &CredentialStore, username: &str, password: &str, secret: &str, now: i64) -> (r:
    Result<String, AuthError>)
    requires
        store.wf(),
    ensures
        signed_as(r, login_result(store.view(), username@, password@, now), username@, secret@),
{
    let found = store.find(username);
    authenticate(Ok(found), username, password, secret, now)
}

} // verus!
