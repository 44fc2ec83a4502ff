//! Tests of the in-memory stores: accounts, revoked tokens and pending
//! second-factor challenges.

use auth_service::BannedTokenStore;
use auth_service::Email;
use auth_service::HashSetBannedTokenStore;
use auth_service::HashmapTwoFACodeStore;
use auth_service::HashmapUserStore;
use auth_service::LoginAttemptId;
use auth_service::Password;
use auth_service::TwoFACode;
use auth_service::TwoFACodeStore;
use auth_service::User;
use auth_service::UserStore;
use auth_service::UserStoreError;
use auth_service::get_key;
use auth_service::user_store_error_to_string;

fn create_test_user() -> User {
    let email = Email::parse("some.email@somedomain.com".to_string()).ok().unwrap();
    let password = Password::parse("password123".to_string()).ok().unwrap();
    User::new(email, password, false).ok().unwrap()
}

#[test]
fn hashmap_user_store_test_add_user() {
    let mut store = HashmapUserStore::default();
    let user = create_test_user();
    assert!(store.add_user(user).is_ok());
}

#[test]
fn hashmap_user_store_test_add_user_already_exists() {
    let mut store = HashmapUserStore::default();
    let user = create_test_user();
    assert!(store.add_user(user.clone()).is_ok());
    assert_eq!(
        store.add_user(user).err().unwrap(),
        UserStoreError::UserAlreadyExists
    );
}

#[test]
fn hashmap_user_store_test_get_user() {
    let mut store = HashmapUserStore::default();
    let user = create_test_user();
    store.add_user(user.clone()).ok().unwrap();
    let fetched = store.get_user(&user.email).ok().unwrap();
    assert!(fetched == user);
}

#[test]
fn hashmap_user_store_test_validate_user() {
    let mut store = HashmapUserStore::default();
    let user = create_test_user();
    store.add_user(user.clone()).ok().unwrap();
    assert!(store.validate_user(&user.email, &user.password).is_ok());
}

#[test]
fn user_store_rejects_wrong_password() {
    let mut store = HashmapUserStore::default();
    let user = create_test_user();
    store.add_user(user.clone()).ok().unwrap();
    let other = Password::parse("wrongpassword".to_string()).ok().unwrap();
    assert_eq!(
        store.validate_user(&user.email, &other).err().unwrap(),
        UserStoreError::InvalidCredentials
    );
}

#[test]
fn user_store_reports_unknown_account() {
    let store = HashmapUserStore::default();
    let email = Email::parse("nobody@example.com".to_string()).ok().unwrap();
    assert!(matches!(
        store.get_user(&email),
        Err(UserStoreError::UserNotFound)
    ));
}

#[test]
fn test_add_banned_token() {
    let mut store = HashSetBannedTokenStore::default();
    let token = "token".to_string();
    store.add_banned_token(token.clone()).ok().unwrap();
    assert!(store.is_banned(&token).ok().unwrap());
}

#[test]
fn test_is_banned() {
    let mut store = HashSetBannedTokenStore::default();
    let token = "token".to_string();
    store.add_banned_token(token.clone()).ok().unwrap();
    assert!(store.is_banned(&token).ok().unwrap());
    assert!(!store.is_banned("other").ok().unwrap());
}

#[test]
fn banning_twice_is_reported() {
    let mut store = HashSetBannedTokenStore::default();
    store.add_banned_token("token".to_string()).ok().unwrap();
    assert!(store.add_banned_token("token".to_string()).is_err());
}

#[test]
fn test_add_code() {
    let mut store = HashmapTwoFACodeStore::default();
    let email = Email::parse("someemail@somedomain.com".to_string()).expect("Failed to create Email");
    let login_attempt_id = LoginAttemptId::default();
    let code = TwoFACode::default();
    store
        .add_code(&email, login_attempt_id.clone(), code.clone())
        .ok()
        .expect("Failed to add code");
    let result = store.get_code(&email).ok().expect("Failed to get code");
    assert!(&login_attempt_id == &result.0);
}

#[test]
fn test_remove_code() {
    let mut store = HashmapTwoFACodeStore::default();
    let email = Email::parse("someemail@somedomain.com".to_string()).expect("Failed to create Email");
    let login_attempt_id = LoginAttemptId::default();
    let code = TwoFACode::default();
    store
        .add_code(&email, login_attempt_id.clone(), code.clone())
        .ok()
        .expect("Failed to add code");
    store.remove_code(&email).ok().expect("Failed to remove code");
    let result = store.get_code(&email);
    assert!(result.is_err());
}

#[test]
fn second_challenge_overwrites_first() {
    let mut store = HashmapTwoFACodeStore::default();
    let email = Email::parse("someemail@somedomain.com".to_string()).ok().unwrap();
    let id1 = LoginAttemptId::default();
    let id2 = LoginAttemptId::default();
    let code1 = TwoFACode::parse("111111".to_string()).ok().unwrap();
    let code2 = TwoFACode::parse("222222".to_string()).ok().unwrap();
    store.add_code(&email, id1, code1).ok().unwrap();
    store.add_code(&email, id2.clone(), code2.clone()).ok().unwrap();
    let (stored_id, stored_code) = store.get_code(&email).ok().unwrap();
    assert!(stored_id == id2);
    assert!(stored_code == code2);
}

#[test]
fn user_store_error_messages_are_fixed() {
    assert_eq!(
        user_store_error_to_string(&UserStoreError::UserAlreadyExists),
        "User already exists"
    );
    assert_eq!(
        user_store_error_to_string(&UserStoreError::UserNotFound),
        "User not found"
    );
    assert_eq!(
        user_store_error_to_string(&UserStoreError::InvalidCredentials),
        "Invalid credentials"
    );
    assert_eq!(
        user_store_error_to_string(&UserStoreError::UnexpectedError),
        "Unexpected error"
    );
    assert_eq!(
        user_store_error_to_string(&UserStoreError::TokenBanned),
        "Token banned"
    );
}

#[test]
fn get_key_prefixes_the_token() {
    assert_eq!(get_key("abc"), "banned_token:abc");
    assert_eq!(get_key(""), "banned_token:");
}
