//! Tests of the credential value types: e-mail addresses, passwords,
//! login-attempt identifiers and second-factor codes.

use auth_service::AuthAPIError;
use auth_service::Email;
use auth_service::FromDbString;
use auth_service::LoginAttemptId;
use auth_service::Password;
use auth_service::TwoFACode;

#[test]
fn email_empty_string_is_rejected() {
    let email = "".to_string();
    assert!(Email::parse(email).is_err());
}

#[test]
fn email_missing_at_symbol_is_rejected() {
    let email = "ursuladomain.com".to_string();
    assert!(Email::parse(email).is_err());
}

#[test]
fn email_missing_subject_is_rejected() {
    let email = "@domain.com".to_string();
    assert!(Email::parse(email).is_err());
}

#[test]
fn email_ordinary_address_is_accepted() {
    let email = Email::parse("test@example.com".to_string()).ok().unwrap();
    assert_eq!(email.as_str(), "test@example.com");
}

#[test]
fn email_rejection_reports_invalid_credentials() {
    let r = Email::parse("not an email".to_string());
    assert!(matches!(r, Err(AuthAPIError::InvalidCredentials)));
}

#[test]
fn password_empty_string_is_rejected() {
    let password = "".to_string();
    assert!(Password::parse(password).is_err());
}

#[test]
fn string_less_than_8_characters_is_rejected() {
    let password = "1234567".to_string();
    assert!(Password::parse(password).is_err());
}

#[test]
fn password_length_bounds_are_inclusive() {
    assert!(Password::parse("a".repeat(8)).is_ok());
    assert!(Password::parse("a".repeat(32)).is_ok());
    assert!(Password::parse("a".repeat(33)).is_err());
}

#[test]
fn password_control_characters_are_rejected() {
    assert!(Password::parse("pass\tword123".to_string()).is_err());
    assert!(Password::parse("pass\nword123".to_string()).is_err());
    assert!(Password::parse("password123".to_string()).is_ok());
}

#[test]
fn login_attempt_id_accepts_canonical_form() {
    let id = "550e8400-e29b-41d4-a716-446655440000".to_string();
    let parsed = LoginAttemptId::parse(id.clone()).ok().unwrap();
    assert_eq!(parsed.as_str(), id);
}

#[test]
fn login_attempt_id_normalizes_uppercase() {
    let parsed = LoginAttemptId::parse("550E8400-E29B-41D4-A716-446655440000".to_string())
        .ok()
        .unwrap();
    assert_eq!(parsed.as_str(), "550e8400-e29b-41d4-a716-446655440000");
}

#[test]
fn login_attempt_id_rejects_garbage() {
    let r = LoginAttemptId::parse("not-an-identifier".to_string());
    assert!(matches!(r, Err(AuthAPIError::MalformedRequest)));
}

#[test]
fn login_attempt_id_fresh_values_are_canonical() {
    let a = LoginAttemptId::default();
    let b = LoginAttemptId::default();
    assert_eq!(a.as_str().len(), 36);
    assert!(LoginAttemptId::parse(a.as_str().to_string()).is_ok());
    assert!(a.as_str() != b.as_str());
}

#[test]
fn login_attempt_id_from_db_string_round_trips() {
    let id = LoginAttemptId::from_db_string("550e8400-e29b-41d4-a716-446655440000");
    assert_eq!(id.as_str(), "550e8400-e29b-41d4-a716-446655440000");
}

#[test]
fn two_fa_code_accepts_six_digits() {
    let code = TwoFACode::parse("834629".to_string()).ok().unwrap();
    assert_eq!(code.as_str(), "834629");
}

#[test]
fn two_fa_code_rejects_wrong_shapes() {
    assert!(matches!(
        TwoFACode::parse("83462".to_string()),
        Err(AuthAPIError::MalformedRequest)
    ));
    assert!(matches!(
        TwoFACode::parse("8346290".to_string()),
        Err(AuthAPIError::MalformedRequest)
    ));
    assert!(matches!(
        TwoFACode::parse("83462a".to_string()),
        Err(AuthAPIError::MalformedRequest)
    ));
}

#[test]
fn two_fa_code_fresh_values_are_six_digits() {
    for _ in 0..16 {
        let code = TwoFACode::default();
        assert_eq!(code.as_str().len(), 6);
        assert!(code.as_str().chars().all(|c| c.is_ascii_digit()));
    }
}
