//! Tests of the password hasher and the session-token codec.

use auth_service::BannedTokenStore;
use auth_service::Email;
use auth_service::HashSetBannedTokenStore;
use auth_service::compute_password_hash;
use auth_service::generate_auth_token;
use auth_service::validate_token;
use auth_service::verify_password_hash;

const SECRET: &[u8] = b"test-signing-secret";
const NOW: u64 = 1_700_000_000;

#[test]
fn hashing_is_salted_but_verifiable() {
    let password = "correct horse battery";
    let h1 = compute_password_hash(password).ok().unwrap();
    let h2 = compute_password_hash(password).ok().unwrap();
    assert_ne!(h1, h2);
    assert!(verify_password_hash(&h1, password).is_ok());
    assert!(verify_password_hash(&h2, password).is_ok());
}

#[test]
fn verification_rejects_single_character_mutations() {
    let password = "correct horse battery";
    let hash = compute_password_hash(password).ok().unwrap();
    assert!(verify_password_hash(&hash, password).is_ok());
    let bytes = password.as_bytes();
    for i in 0..bytes.len() {
        let mut mutated = bytes.to_vec();
        mutated[i] = if mutated[i] == b'x' { b'y' } else { b'x' };
        let mutated = String::from_utf8(mutated).unwrap();
        assert!(verify_password_hash(&hash, &mutated).is_err());
    }
}

#[test]
fn test_generate_auth_token() {
    let email = Email::parse("test@example.com".to_string()).ok().unwrap();
    let result = generate_auth_token(SECRET, &email, NOW).ok().unwrap();
    assert_eq!(result.split('.').count(), 3);
}

#[test]
fn test_validate_token_with_valid_token() {
    let email = Email::parse("test@example.com".to_string()).ok().unwrap();
    let token = generate_auth_token(SECRET, &email, NOW).ok().unwrap();
    let banned_token_store = HashSetBannedTokenStore::default();
    let result = validate_token(&token, &banned_token_store, SECRET, NOW).ok().unwrap();
    assert_eq!(result.sub, "test@example.com");
    assert!(result.exp > NOW + 9 * 60);
}

#[test]
fn test_validate_token_with_invalid_token() {
    let token = "invalid_token".to_owned();
    let banned_token_store = HashSetBannedTokenStore::default();
    let result = validate_token(&token, &banned_token_store, SECRET, NOW);
    assert!(result.is_err());
}

#[test]
fn validate_token_rejects_wrong_key() {
    let email = Email::parse("test@example.com".to_string()).ok().unwrap();
    let token = generate_auth_token(SECRET, &email, NOW).ok().unwrap();
    let banned_token_store = HashSetBannedTokenStore::default();
    assert!(validate_token(&token, &banned_token_store, b"another-secret", NOW).is_err());
}

#[test]
fn validate_token_rejects_expired_token() {
    let email = Email::parse("test@example.com".to_string()).ok().unwrap();
    let token = generate_auth_token(SECRET, &email, NOW).ok().unwrap();
    let banned_token_store = HashSetBannedTokenStore::default();
    assert!(validate_token(&token, &banned_token_store, SECRET, NOW + 601).is_err());
    assert!(validate_token(&token, &banned_token_store, SECRET, NOW + 599).is_ok());
}

#[test]
fn validate_token_rejects_banned_token() {
    let email = Email::parse("test@example.com".to_string()).ok().unwrap();
    let token = generate_auth_token(SECRET, &email, NOW).ok().unwrap();
    let mut banned_token_store = HashSetBannedTokenStore::default();
    banned_token_store.add_banned_token(token.clone()).ok().unwrap();
    assert!(validate_token(&token, &banned_token_store, SECRET, NOW).is_err());
}

#[test]
fn validate_token_rejects_tampered_token() {
    let email = Email::parse("test@example.com".to_string()).ok().unwrap();
    let token = generate_auth_token(SECRET, &email, NOW).ok().unwrap();
    let banned_token_store = HashSetBannedTokenStore::default();
    let mut tampered = token.clone();
    let last = tampered.pop().unwrap();
    tampered.push(if last == 'A' { 'B' } else { 'A' });
    assert!(validate_token(&tampered, &banned_token_store, SECRET, NOW).is_err());
}

#[test]
fn token_minting_succeeds_up_to_the_expiry_limit() {
    let email = Email::parse("test@example.com".to_string()).ok().unwrap();
    assert!(generate_auth_token(SECRET, &email, u64::MAX - 600).is_ok());
    assert!(generate_auth_token(SECRET, &email, u64::MAX - 599).is_err());
}
