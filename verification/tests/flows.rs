//! End-to-end tests of the session flows against the in-memory stores.

use auth_service::AppState;
use auth_service::AuthAPIError;
use auth_service::AuthMessage;
use auth_service::HashSetBannedTokenStore;
use auth_service::HashmapTwoFACodeStore;
use auth_service::HashmapUserStore;
use auth_service::LoginRequest;
use auth_service::LoginResponse;
use auth_service::MockEmailClient;
use auth_service::RefreshTokenRequest;
use auth_service::SignupRequest;
use auth_service::Verify2FARequest;
use auth_service::VerifyTokenRequest;
use auth_service::routes::login;
use auth_service::routes::logout;
use auth_service::routes::refresh_token;
use auth_service::routes::signup;
use auth_service::routes::verify_2fa;
use auth_service::routes::verify_token;

type TestState = AppState<
    HashmapUserStore,
    HashSetBannedTokenStore,
    HashmapTwoFACodeStore,
    MockEmailClient,
>;

const SECRET: &[u8] = b"test-signing-secret";
const NOW: u64 = 1_700_000_000;

fn fresh_state() -> TestState {
    AppState::new(
        HashmapUserStore::default(),
        HashSetBannedTokenStore::default(),
        HashmapTwoFACodeStore::default(),
        MockEmailClient::default(),
    )
}

fn signup_request(email: &str, requires_2fa: bool) -> SignupRequest {
    SignupRequest {
        email: email.to_string(),
        password: "password123".to_string(),
        requires_2fa,
    }
}

fn login_request(email: &str) -> LoginRequest {
    LoginRequest { email: email.to_string(), password: "password123".to_string() }
}

#[test]
fn signup_then_login_returns_token() {
    let mut state = fresh_state();
    let created = signup(&mut state, signup_request("user@example.com", false)).ok().unwrap();
    assert_eq!(created, AuthMessage::UserCreated);

    let (response, token) = login(&mut state, SECRET, login_request("user@example.com"), NOW)
        .ok()
        .unwrap();
    assert!(matches!(response, LoginResponse::RegularAuth));
    let token = token.unwrap();
    assert!(!token.is_empty());
    assert!(verify_token(
        &state,
        SECRET,
        VerifyTokenRequest { token: token.clone() },
        NOW
    )
    .is_ok());
}

#[test]
fn second_signup_with_same_email_is_rejected() {
    let mut state = fresh_state();
    signup(&mut state, signup_request("user@example.com", false)).ok().unwrap();
    let r = signup(&mut state, signup_request("user@example.com", true));
    assert!(matches!(r, Err(AuthAPIError::UserAlreadyExists)));
}

#[test]
fn signup_rejects_invalid_input() {
    let mut state = fresh_state();
    let bad_email = SignupRequest {
        email: "not-an-email".to_string(),
        password: "password123".to_string(),
        requires_2fa: false,
    };
    assert!(matches!(
        signup(&mut state, bad_email),
        Err(AuthAPIError::InvalidCredentials)
    ));
    let bad_password = SignupRequest {
        email: "user@example.com".to_string(),
        password: "short".to_string(),
        requires_2fa: false,
    };
    assert!(matches!(
        signup(&mut state, bad_password),
        Err(AuthAPIError::InvalidCredentials)
    ));
}

#[test]
fn login_rejects_unknown_account_and_wrong_password_alike() {
    let mut state = fresh_state();
    signup(&mut state, signup_request("user@example.com", false)).ok().unwrap();

    let unknown = login(&mut state, SECRET, login_request("other@example.com"), NOW);
    let wrong = login(
        &mut state,
        SECRET,
        LoginRequest {
            email: "user@example.com".to_string(),
            password: "wrongpassword".to_string(),
        },
        NOW,
    );
    assert!(matches!(unknown, Err(AuthAPIError::InvalidCredentials)));
    assert!(matches!(wrong, Err(AuthAPIError::InvalidCredentials)));
}

/// Runs a login that is expected to end in a pending second factor and
/// returns the attempt identifier together with the code the notification
/// channel recorded.
fn pending_login(state: &mut TestState, email: &str) -> (String, String) {
    let before = state.email_client.messages().len();
    let (response, token) = login(state, SECRET, login_request(email), NOW).ok().unwrap();
    assert!(token.is_none());
    let attempt_id = match response {
        LoginResponse::TwoFactorAuth(tfa) => {
            assert_eq!(tfa.message, "2FA required");
            tfa.login_attempt_id
        },
        LoginResponse::RegularAuth => panic!("expected a pending second factor"),
    };
    let messages = state.email_client.messages();
    assert_eq!(messages.len(), before + 1);
    let (recipient, subject, code) = &messages[before];
    assert_eq!(recipient.as_str(), email);
    assert_eq!(subject.as_str(), "2 factor auth code");
    (attempt_id, code.clone())
}

#[test]
fn two_factor_login_sends_code_and_verifies_once() {
    let mut state = fresh_state();
    signup(&mut state, signup_request("user@example.com", true)).ok().unwrap();

    let (attempt_id, code) = pending_login(&mut state, "user@example.com");
    assert_eq!(code.len(), 6);

    let token = verify_2fa(
        &mut state,
        SECRET,
        Verify2FARequest {
            email: "user@example.com".to_string(),
            login_attempt_id: attempt_id.clone(),
            two_fa_code: code.clone(),
        },
        NOW,
    )
    .ok()
    .unwrap();
    assert!(!token.is_empty());
    assert!(verify_token(&state, SECRET, VerifyTokenRequest { token }, NOW).is_ok());

    let replay = verify_2fa(
        &mut state,
        SECRET,
        Verify2FARequest {
            email: "user@example.com".to_string(),
            login_attempt_id: attempt_id,
            two_fa_code: code,
        },
        NOW,
    );
    assert!(matches!(replay, Err(AuthAPIError::InvalidCredentials)));
}

#[test]
fn two_factor_mismatch_keeps_challenge_alive() {
    let mut state = fresh_state();
    signup(&mut state, signup_request("user@example.com", true)).ok().unwrap();
    let (attempt_id, code) = pending_login(&mut state, "user@example.com");

    let wrong_code = if code == "000000" { "000001" } else { "000000" };
    let mismatch = verify_2fa(
        &mut state,
        SECRET,
        Verify2FARequest {
            email: "user@example.com".to_string(),
            login_attempt_id: attempt_id.clone(),
            two_fa_code: wrong_code.to_string(),
        },
        NOW,
    );
    assert!(matches!(mismatch, Err(AuthAPIError::InvalidCredentials)));

    let good = verify_2fa(
        &mut state,
        SECRET,
        Verify2FARequest {
            email: "user@example.com".to_string(),
            login_attempt_id: attempt_id,
            two_fa_code: code,
        },
        NOW,
    );
    assert!(good.is_ok());
}

#[test]
fn two_factor_rejects_malformed_input() {
    let mut state = fresh_state();
    signup(&mut state, signup_request("user@example.com", true)).ok().unwrap();
    let (_attempt_id, code) = pending_login(&mut state, "user@example.com");

    let bad_id = verify_2fa(
        &mut state,
        SECRET,
        Verify2FARequest {
            email: "user@example.com".to_string(),
            login_attempt_id: "not-an-id".to_string(),
            two_fa_code: code,
        },
        NOW,
    );
    assert!(matches!(bad_id, Err(AuthAPIError::MalformedRequest)));
}

#[test]
fn second_login_replaces_first_challenge() {
    let mut state = fresh_state();
    signup(&mut state, signup_request("user@example.com", true)).ok().unwrap();

    let (id1, code1) = pending_login(&mut state, "user@example.com");
    let (id2, code2) = pending_login(&mut state, "user@example.com");

    let stale = verify_2fa(
        &mut state,
        SECRET,
        Verify2FARequest {
            email: "user@example.com".to_string(),
            login_attempt_id: id1,
            two_fa_code: code1,
        },
        NOW,
    );
    assert!(matches!(stale, Err(AuthAPIError::InvalidCredentials)));

    let fresh = verify_2fa(
        &mut state,
        SECRET,
        Verify2FARequest {
            email: "user@example.com".to_string(),
            login_attempt_id: id2,
            two_fa_code: code2,
        },
        NOW,
    );
    assert!(fresh.is_ok());
}

#[test]
fn challenges_of_two_accounts_stay_separate() {
    let mut state = fresh_state();
    signup(&mut state, signup_request("first@example.com", true)).ok().unwrap();
    signup(&mut state, signup_request("second@example.com", true)).ok().unwrap();

    let (id1, code1) = pending_login(&mut state, "first@example.com");
    let (id2, code2) = pending_login(&mut state, "second@example.com");

    assert_ne!(id1, id2);
    let crossed = verify_2fa(
        &mut state,
        SECRET,
        Verify2FARequest {
            email: "second@example.com".to_string(),
            login_attempt_id: id1,
            two_fa_code: code1,
        },
        NOW,
    );
    assert!(crossed.is_err());

    assert!(verify_2fa(
        &mut state,
        SECRET,
        Verify2FARequest {
            email: "first@example.com".to_string(),
            login_attempt_id: id2.clone(),
            two_fa_code: code2.clone(),
        },
        NOW,
    )
    .is_err());

    assert!(verify_2fa(
        &mut state,
        SECRET,
        Verify2FARequest {
            email: "second@example.com".to_string(),
            login_attempt_id: id2,
            two_fa_code: code2,
        },
        NOW,
    )
    .is_ok());
}

#[test]
fn logout_bans_the_token() {
    let mut state = fresh_state();
    signup(&mut state, signup_request("user@example.com", false)).ok().unwrap();
    let (_, token) = login(&mut state, SECRET, login_request("user@example.com"), NOW)
        .ok()
        .unwrap();
    let token = token.unwrap();

    assert!(logout(&mut state, SECRET, Some(&token), NOW).is_ok());

    let verify = verify_token(&state, SECRET, VerifyTokenRequest { token: token.clone() }, NOW);
    assert!(matches!(verify, Err(AuthAPIError::InvalidToken)));

    let refresh = refresh_token(
        &mut state,
        SECRET,
        RefreshTokenRequest { email: "user@example.com".to_string(), token: token.clone() },
        NOW,
    );
    assert!(matches!(refresh, Err(AuthAPIError::InvalidToken)));

    let again = logout(&mut state, SECRET, Some(&token), NOW);
    assert!(matches!(again, Err(AuthAPIError::InvalidToken)));
}

#[test]
fn logout_without_cookie_is_a_missing_token() {
    let mut state = fresh_state();
    let r = logout(&mut state, SECRET, None, NOW);
    assert!(matches!(r, Err(AuthAPIError::MissingToken)));
}

#[test]
fn logout_rejects_a_forged_token() {
    let mut state = fresh_state();
    let r = logout(&mut state, SECRET, Some("not-a-token"), NOW);
    assert!(matches!(r, Err(AuthAPIError::InvalidToken)));
}

#[test]
fn refresh_rotates_the_token() {
    let mut state = fresh_state();
    signup(&mut state, signup_request("user@example.com", false)).ok().unwrap();
    let (_, token) = login(&mut state, SECRET, login_request("user@example.com"), NOW)
        .ok()
        .unwrap();
    let old_token = token.unwrap();

    let new_token = refresh_token(
        &mut state,
        SECRET,
        RefreshTokenRequest { email: "user@example.com".to_string(), token: old_token.clone() },
        NOW + 10,
    )
    .ok()
    .unwrap();

    let old_check = verify_token(
        &state,
        SECRET,
        VerifyTokenRequest { token: old_token },
        NOW + 10,
    );
    assert!(matches!(old_check, Err(AuthAPIError::InvalidToken)));
    assert!(verify_token(&state, SECRET, VerifyTokenRequest { token: new_token }, NOW + 10).is_ok());
}

#[test]
fn refresh_rejects_a_token_of_another_account() {
    let mut state = fresh_state();
    signup(&mut state, signup_request("first@example.com", false)).ok().unwrap();
    signup(&mut state, signup_request("second@example.com", false)).ok().unwrap();
    let (_, token) = login(&mut state, SECRET, login_request("first@example.com"), NOW)
        .ok()
        .unwrap();
    let token = token.unwrap();

    let r = refresh_token(
        &mut state,
        SECRET,
        RefreshTokenRequest { email: "second@example.com".to_string(), token: token.clone() },
        NOW,
    );
    assert!(matches!(r, Err(AuthAPIError::InvalidToken)));

    let still_valid = verify_token(&state, SECRET, VerifyTokenRequest { token }, NOW);
    assert!(still_valid.is_ok());
}

#[test]
fn should_return_200_if_token_is_not_banned() {
    let mut state = fresh_state();
    signup(&mut state, signup_request("user@example.com", false)).ok().unwrap();
    let (_, token) = login(&mut state, SECRET, login_request("user@example.com"), NOW)
        .ok()
        .unwrap();
    let token = token.unwrap();
    let r = verify_token(&state, SECRET, VerifyTokenRequest { token }, NOW);
    assert!(r.is_ok());
}

#[test]
fn should_return_401_if_invalid_token() {
    let state = fresh_state();
    let r = verify_token(
        &state,
        SECRET,
        VerifyTokenRequest { token: "invalid_token".to_string() },
        NOW,
    );
    assert!(matches!(r, Err(AuthAPIError::InvalidToken)));
    assert_eq!(r.err().unwrap().status(), 401);
}
