use user_api::handlers::add_user;
use user_api::handlers::add_user_response;
use user_api::handlers::del_user;
use user_api::handlers::get_user;
use user_api::handlers::login;
use user_api::handlers::login_now;
use user_api::handlers::ApiError;
use user_api::handlers::MailOutcome;
use user_api::models::UniqueUser;
use user_api::store::StoreError;
use user_api::store::UserStore;
use user_api::token::make_claims;
use user_api::token::sign_claims;
use user_api::token::verify_token;
use user_api::token::Claims;
use user_api::token::TOKEN_LIFETIME_SECS;

const SECRET: &[u8] = b"secret";

fn form(mail: &str, password: &str) -> UniqueUser {
    UniqueUser { mail: mail.to_owned(), password: password.to_owned() }
}

#[test]
fn create_then_fetch_returns_equal_record() {
    let mut store = UserStore::new();
    let created = add_user(&mut store, &form("a@example.com", "pw")).unwrap();
    let fetched = get_user(&store, &Claims { id: created.id, exp: 0 }).unwrap();
    assert_eq!(fetched.id, created.id);
    assert_eq!(fetched.mail, created.mail);
    assert_eq!(fetched.password, created.password);
}

#[test]
fn ids_are_fresh_and_distinct() {
    let mut store = UserStore::new();
    let first = add_user(&mut store, &form("a@example.com", "pw")).unwrap();
    let second = add_user(&mut store, &form("b@example.com", "pw")).unwrap();
    assert_eq!(first.id, 0);
    assert_eq!(second.id, 1);
}

#[test]
fn duplicate_mail_is_rejected() {
    let mut store = UserStore::new();
    store.add_user(&form("a@example.com", "pw")).unwrap();
    let r = store.add_user(&form("a@example.com", "other"));
    assert_eq!(r.unwrap_err(), StoreError::DuplicateMail);
}

#[test]
fn fetch_missing_user_fails() {
    let store = UserStore::new();
    assert_eq!(get_user(&store, &Claims { id: 3, exp: 0 }).unwrap_err(), ApiError::Internal);
    assert_eq!(store.get_user(3).unwrap_err(), StoreError::NotFound);
}

#[test]
fn delete_makes_subsequent_fetch_fail() {
    let mut store = UserStore::new();
    let created = add_user(&mut store, &form("a@example.com", "pw")).unwrap();
    let caller = Claims { id: created.id, exp: 0 };
    let deleted = del_user(&mut store, &caller).unwrap();
    assert_eq!(deleted.id, created.id);
    assert_eq!(deleted.mail, created.mail);
    assert_eq!(get_user(&store, &caller).unwrap_err(), ApiError::Internal);
}

#[test]
fn delete_twice_fails_the_second_time() {
    let mut store = UserStore::new();
    let created = add_user(&mut store, &form("a@example.com", "pw")).unwrap();
    let caller = Claims { id: created.id, exp: 0 };
    del_user(&mut store, &caller).unwrap();
    assert_eq!(del_user(&mut store, &caller).unwrap_err(), ApiError::Internal);
}

#[test]
fn delete_leaves_other_records_in_place() {
    let mut store = UserStore::new();
    let a = add_user(&mut store, &form("a@example.com", "pw")).unwrap();
    let b = add_user(&mut store, &form("b@example.com", "pw")).unwrap();
    del_user(&mut store, &Claims { id: a.id, exp: 0 }).unwrap();
    let still_there = get_user(&store, &Claims { id: b.id, exp: 0 }).unwrap();
    assert_eq!(still_there.mail, "b@example.com");
}

#[test]
fn credentials_lookup_finds_the_matching_record() {
    let mut store = UserStore::new();
    store.add_user(&form("a@example.com", "pw")).unwrap();
    let found = store.credentials_get_user(&form("a@example.com", "pw")).unwrap();
    assert_eq!(found.mail, "a@example.com");
    let r = store.credentials_get_user(&form("a@example.com", "wrong"));
    assert_eq!(r.unwrap_err(), StoreError::NotFound);
}

#[test]
fn login_token_carries_id_and_future_expiry() {
    let mut store = UserStore::new();
    let created = add_user(&mut store, &form("a@example.com", "pw")).unwrap();
    let now: u64 = 1_700_000_000;
    let token = login(&store, &form("a@example.com", "pw"), now, SECRET).unwrap();
    let claims = verify_token(SECRET, &token).unwrap();
    assert_eq!(claims.id, created.id);
    assert_eq!(claims.exp, now + TOKEN_LIFETIME_SECS);
    assert!(claims.exp > now);
}

#[test]
fn login_with_wrong_password_fails() {
    let mut store = UserStore::new();
    add_user(&mut store, &form("a@example.com", "pw")).unwrap();
    let r = login(&store, &form("a@example.com", "wrong"), 1_700_000_000, SECRET);
    assert_eq!(r.unwrap_err(), ApiError::Internal);
}

#[test]
fn login_with_unknown_mail_fails() {
    let mut store = UserStore::new();
    add_user(&mut store, &form("a@example.com", "pw")).unwrap();
    let r = login(&store, &form("b@example.com", "pw"), 1_700_000_000, SECRET);
    assert_eq!(r.unwrap_err(), ApiError::Internal);
}

#[test]
fn login_on_empty_store_fails() {
    let store = UserStore::new();
    let r = login(&store, &form("a@example.com", "pw"), 1_700_000_000, SECRET);
    assert_eq!(r.unwrap_err(), ApiError::Internal);
}

#[test]
fn login_now_reads_the_clock_and_signs_for_the_matched_user() {
    let mut store = UserStore::new();
    let created = add_user(&mut store, &form("a@example.com", "pw")).unwrap();
    let before = jsonwebtoken::get_current_timestamp();
    let token = login_now(&store, &form("a@example.com", "pw"), SECRET).unwrap();
    let after = jsonwebtoken::get_current_timestamp();
    let claims = verify_token(SECRET, &token).unwrap();
    assert_eq!(claims.id, created.id);
    assert!(claims.exp >= before + TOKEN_LIFETIME_SECS);
    assert!(claims.exp <= after + TOKEN_LIFETIME_SECS);
}

#[test]
fn login_now_with_bad_credentials_fails() {
    let mut store = UserStore::new();
    add_user(&mut store, &form("a@example.com", "pw")).unwrap();
    let r = login_now(&store, &form("a@example.com", "wrong"), SECRET);
    assert_eq!(r.unwrap_err(), ApiError::Internal);
}

#[test]
fn make_claims_computes_expiry_from_issuance_time() {
    let claims = make_claims(5, 100);
    assert_eq!(claims.id, 5);
    assert_eq!(claims.exp, 100 + TOKEN_LIFETIME_SECS);
}

#[test]
fn signed_token_round_trips_through_verification() {
    let claims = Claims { id: 42, exp: 1_700_010_000 };
    let token = sign_claims(SECRET, &claims);
    // A compact token has three dot-separated parts and is not the payload
    // handed in.
    assert_eq!(token.matches('.').count(), 2);
    let back = verify_token(SECRET, &token).unwrap();
    assert_eq!(back, claims);
}

#[test]
fn verification_rejects_a_wrong_secret() {
    let token = sign_claims(SECRET, &Claims { id: 42, exp: 1_700_010_000 });
    assert!(verify_token(b"other", &token).is_none());
}

#[test]
fn verification_rejects_garbage() {
    assert!(verify_token(SECRET, "not.a.token").is_none());
    assert!(verify_token(SECRET, "").is_none());
}

#[test]
fn mail_failure_never_changes_the_create_outcome() {
    let mut store = UserStore::new();
    let created = add_user(&mut store, &form("a@example.com", "pw")).unwrap();
    let mail = created.mail.clone();
    let with_sent = add_user_response(Ok(created), MailOutcome::Sent);
    let answered = with_sent.unwrap();
    assert_eq!(answered.mail, mail);

    let with_failed = add_user_response(Ok(answered), MailOutcome::Failed);
    let answered = with_failed.unwrap();
    assert_eq!(answered.mail, "a@example.com");

    let failed_create = add_user_response(Err(ApiError::Internal), MailOutcome::Failed);
    assert_eq!(failed_create.unwrap_err(), ApiError::Internal);
}
