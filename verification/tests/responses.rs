//! Tests of the HTTP response vocabulary and the server-side error report.

use auth_service::AuthAPIError;
use auth_service::AuthMessage;
use auth_service::log_error_chain;

#[test]
fn auth_messages_map_to_status_and_text() {
    assert_eq!(AuthMessage::UserCreated.status(), 201);
    assert_eq!(AuthMessage::UserLoggedIn.status(), 200);
    assert_eq!(AuthMessage::UserLoggedOut.status(), 200);
    assert_eq!(AuthMessage::User2FAVerified.status(), 200);
    assert_eq!(AuthMessage::UserTokenVerified.status(), 200);
    assert_eq!(
        AuthMessage::UserCreated.response().message_body,
        "User created successfully!"
    );
    assert_eq!(
        AuthMessage::UserLoggedOut.response().message_body,
        "User logged out successfully!"
    );
}

#[test]
fn auth_errors_map_to_status_and_text() {
    assert_eq!(AuthAPIError::UserAlreadyExists.status(), 409);
    assert_eq!(AuthAPIError::InvalidCredentials.status(), 401);
    assert_eq!(AuthAPIError::MissingToken.status(), 400);
    assert_eq!(AuthAPIError::InvalidToken.status(), 401);
    assert_eq!(AuthAPIError::MalformedRequest.status(), 400);
    assert_eq!(AuthAPIError::UnexpectedError.status(), 500);
    assert_eq!(AuthAPIError::InvalidToken.response().error, "Invalid token");
    assert_eq!(
        AuthAPIError::UnexpectedError.response().error,
        "Unexpected error"
    );
}

#[test]
fn error_report_renders_the_cause_chain() {
    let sep = "\n-----------------------------------------------------------------------------------\n";
    let sources = vec!["root cause".to_string(), "deeper cause".to_string()];
    let report = log_error_chain("top level failure", &sources);
    let expected = format!(
        "{sep}top level failure\n\nCaused by:\n\nroot cause\nCaused by:\n\ndeeper cause\n{sep}"
    );
    assert_eq!(report, expected);
}

#[test]
fn error_report_without_causes_is_just_the_error() {
    let sep = "\n-----------------------------------------------------------------------------------\n";
    let report = log_error_chain("lonely failure", &Vec::new());
    assert_eq!(report, format!("{sep}lonely failure\n\n{sep}"));
}
