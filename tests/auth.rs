use auth_service::error::AuthError;
use auth_service::password::{check_password, hash_password, judge_check, HASH_COST};
use auth_service::service::{
    authenticate, authenticate_now, login, register, registration_outcome, store_credential,
};
use auth_service::store::{CredentialRecord, CredentialStore, StoreError};
use auth_service::token::{issue_claims, sign_claims, SessionClaims, TOKEN_VALIDITY_SECS};

const SECRET: &str = "test-secret";

fn cheap_hash(password: &str) -> String {
    bcrypt::hash(password, 4).unwrap()
}

fn decode_claims(token: &str, secret: &str) -> serde_json::Value {
    let mut validation = jsonwebtoken::Validation::default();
    validation.validate_exp = false;
    let key = jsonwebtoken::DecodingKey::from_secret(secret.as_bytes());
    jsonwebtoken::decode::<serde_json::Value>(token, &key, &validation).unwrap().claims
}

#[test]
fn register_then_login_succeeds() {
    let mut store = CredentialStore::new();
    assert_eq!(register(&mut store, "alice", "wonderland"), Ok(()));
    let now = chrono::Utc::now().timestamp();
    let token = login(&store, "alice", "wonderland", SECRET, now).unwrap();
    assert_eq!(token.split('.').count(), 3);
    let claims = decode_claims(&token, SECRET);
    assert_eq!(claims["sub"], "1");
    assert_eq!(claims["username"], "alice");
    assert_eq!(claims["exp"], now + 3600);
}

#[test]
fn authenticate_now_expires_an_hour_after_the_clock() {
    let rec = CredentialRecord { id: 3, username: "lee".to_string(), password_hash: cheap_hash("pw") };
    let before = chrono::Utc::now().timestamp();
    let token = authenticate_now(Ok(Some(rec)), "lee", "pw", SECRET).unwrap();
    let after = chrono::Utc::now().timestamp();
    let exp = decode_claims(&token, SECRET)["exp"].as_i64().unwrap();
    assert!(before + 3600 <= exp && exp <= after + 3600);
    assert_eq!(authenticate_now(Ok(None), "lee", "pw", SECRET), Err(AuthError::UserNotFound));
}

#[test]
fn register_twice_reports_taken_and_keeps_record() {
    let mut store = CredentialStore::new();
    assert_eq!(register(&mut store, "bob", "first"), Ok(()));
    let before = store.find("bob").unwrap();
    assert_eq!(register(&mut store, "bob", "second"), Err(AuthError::UsernameTaken));
    let after = store.find("bob").unwrap();
    assert_eq!(before.id, after.id);
    assert_eq!(before.password_hash, after.password_hash);
}

#[test]
fn login_unknown_user_is_not_found() {
    let store = CredentialStore::new();
    assert_eq!(login(&store, "nobody", "pw", SECRET, 1_000), Err(AuthError::UserNotFound));
}

#[test]
fn login_wrong_password_is_invalid_and_hash_unchanged() {
    let mut store = CredentialStore::new();
    assert_eq!(store_credential(&mut store, "carol", Ok(cheap_hash("right"))), Ok(()));
    let before = store.find("carol").unwrap().password_hash;
    assert_eq!(login(&store, "carol", "wrong", SECRET, 1_000), Err(AuthError::InvalidPassword));
    assert_eq!(store.find("carol").unwrap().password_hash, before);
}

#[test]
fn token_claims_carry_subject_username_and_expiry() {
    let mut store = CredentialStore::new();
    store_credential(&mut store, "first", Ok(cheap_hash("a"))).unwrap();
    store_credential(&mut store, "dave", Ok(cheap_hash("pw"))).unwrap();
    let token = login(&store, "dave", "pw", SECRET, 1_700_000_000).unwrap();
    let claims = decode_claims(&token, SECRET);
    assert_eq!(claims["sub"], "2");
    assert_eq!(claims["username"], "dave");
    assert_eq!(claims["exp"], 1_700_003_600i64);
}

#[test]
fn two_registrations_of_one_name_exactly_one_wins() {
    let mut store = CredentialStore::new();
    let a = store_credential(&mut store, "eve", Ok(cheap_hash("one")));
    let b = store_credential(&mut store, "eve", Ok(cheap_hash("two")));
    let wins = [a.is_ok(), b.is_ok()].iter().filter(|w| **w).count();
    assert_eq!(wins, 1);
    assert_eq!(b, Err(AuthError::UsernameTaken));
    assert_eq!(store.find("eve").unwrap().id, 1);
}

#[test]
fn password_is_stored_hashed_only() {
    let mut store = CredentialStore::new();
    assert_eq!(register(&mut store, "frank", "plaintext-secret"), Ok(()));
    let rec = store.find("frank").unwrap();
    assert_ne!(rec.password_hash, "plaintext-secret");
    assert!(!rec.password_hash.contains("plaintext-secret"));
    assert!(rec.password_hash.starts_with("$2b$12$"));
    for e in [AuthError::UsernameTaken, AuthError::UserNotFound, AuthError::InvalidPassword, AuthError::InternalError] {
        assert!(!e.message().contains("plaintext-secret"));
    }
}

#[test]
fn hash_password_is_salted_and_verifiable() {
    let h = hash_password("pw").unwrap();
    assert_ne!(h, "pw");
    assert_eq!(h.len(), 60);
    assert!(h.starts_with(&format!("$2b${}$", HASH_COST)));
    assert_eq!(check_password("pw", &h), Ok(()));
}

#[test]
fn check_password_rejects_mismatch_and_bad_hash() {
    let h = cheap_hash("pw");
    assert_eq!(check_password("pw", &h), Ok(()));
    assert_eq!(check_password("other", &h), Err(AuthError::InvalidPassword));
    assert_eq!(check_password("pw", "not a hash"), Err(AuthError::InvalidPassword));
    assert_eq!(check_password("pw", "pw"), Err(AuthError::InvalidPassword));
}

#[test]
fn judge_check_fails_closed() {
    assert_eq!(judge_check(Some(true)), Ok(()));
    assert_eq!(judge_check(Some(false)), Err(AuthError::InvalidPassword));
    assert_eq!(judge_check(None), Err(AuthError::InvalidPassword));
}

#[test]
fn error_statuses_and_messages() {
    assert_eq!(AuthError::UsernameTaken.status_code(), 409);
    assert_eq!(AuthError::UserNotFound.status_code(), 404);
    assert_eq!(AuthError::InvalidPassword.status_code(), 403);
    assert_eq!(AuthError::InternalError.status_code(), 500);
    assert_eq!(AuthError::UsernameTaken.message(), "Username already exists");
    assert_eq!(AuthError::UserNotFound.message(), "User not found");
    assert_eq!(AuthError::InvalidPassword.message(), "Invalid password");
    assert_eq!(AuthError::InternalError.message(), "Database error");
}

#[test]
fn registration_outcome_reads_conflict_code() {
    assert_eq!(registration_outcome(&Ok(7)), Ok(()));
    let conflict = StoreError { code: Some("23505".to_string()) };
    assert_eq!(registration_outcome(&Err(conflict)), Err(AuthError::UsernameTaken));
    let other = StoreError { code: Some("23502".to_string()) };
    assert_eq!(registration_outcome(&Err(other)), Err(AuthError::InternalError));
    assert_eq!(registration_outcome(&Err(StoreError { code: None })), Err(AuthError::InternalError));
}

#[test]
fn store_credential_passes_hash_failure_through() {
    let mut store = CredentialStore::new();
    assert_eq!(store_credential(&mut store, "gina", Err(AuthError::InternalError)), Err(AuthError::InternalError));
    assert!(store.find("gina").is_none());
}

#[test]
fn store_insert_assigns_ids_and_reports_conflicts() {
    let mut store = CredentialStore::new();
    assert_eq!(store.insert("a", "h1".to_string()).unwrap(), 1);
    assert_eq!(store.insert("b", "h2".to_string()).unwrap(), 2);
    let err = store.insert("a", "h3".to_string()).unwrap_err();
    assert_eq!(err.code.as_deref(), Some("23505"));
    let rec = store.find("a").unwrap();
    assert_eq!((rec.id, rec.username.as_str(), rec.password_hash.as_str()), (1, "a", "h1"));
    assert!(store.find("c").is_none());
}

#[test]
fn empty_username_and_password_are_accepted() {
    let mut store = CredentialStore::new();
    assert_eq!(store_credential(&mut store, "", Ok(cheap_hash(""))), Ok(()));
    assert!(login(&store, "", "", SECRET, 10).is_ok());
}

#[test]
fn authenticate_maps_storage_failure_to_internal() {
    let r = authenticate(Err(StoreError { code: None }), "x", "y", SECRET, 10);
    assert_eq!(r, Err(AuthError::InternalError));
    assert_eq!(authenticate(Ok(None), "x", "y", SECRET, 10), Err(AuthError::UserNotFound));
}

#[test]
fn authenticate_signs_found_record() {
    let rec = CredentialRecord { id: 42, username: "hal".to_string(), password_hash: cheap_hash("pw") };
    let token = authenticate(Ok(Some(rec)), "hal", "pw", SECRET, 100).unwrap();
    let claims = decode_claims(&token, SECRET);
    assert_eq!(claims["sub"], "42");
    assert_eq!(claims["exp"], 3700);
}

#[test]
fn issue_claims_adds_validity_window() {
    let c = issue_claims(5, "ivy", 1_000).unwrap();
    assert_eq!(c, SessionClaims { subject: 5, username: "ivy".to_string(), expiry: 4_600 });
    assert_eq!(TOKEN_VALIDITY_SECS, 3600);
    assert_eq!(issue_claims(5, "ivy", i64::MAX - 3599), Err(AuthError::InternalError));
    assert_eq!(issue_claims(5, "ivy", i64::MAX - 3600).unwrap().expiry, i64::MAX);
}

#[test]
fn login_with_expiry_overflow_is_internal() {
    let mut store = CredentialStore::new();
    store_credential(&mut store, "jo", Ok(cheap_hash("pw"))).unwrap();
    assert_eq!(login(&store, "jo", "pw", SECRET, i64::MAX), Err(AuthError::InternalError));
}

#[test]
fn sign_claims_depends_on_claims_and_secret() {
    let c = SessionClaims { subject: 1, username: "kim".to_string(), expiry: 5_000 };
    let t1 = sign_claims(&c, SECRET).unwrap();
    assert_eq!(t1, sign_claims(&c, SECRET).unwrap());
    assert_ne!(t1, sign_claims(&c, "another").unwrap());
    assert_ne!(t1, "kim");
    let claims = decode_claims(&t1, SECRET);
    assert_eq!(claims["username"], "kim");
    assert_eq!(claims["exp"], 5_000);
}
