//! The error taxonomy shared by the stores and the session flows.

use vstd::prelude::*;

verus! {

/// The error surface of the session flows.  `InvalidCredentials` covers both
/// an unknown account and a wrong password, and `InvalidToken` covers a bad
/// signature, an expired token and a revoked token, so neither store state
/// nor account existence is distinguishable from the outside.
#[derive(Clone, Copy, Debug, PartialEq, Eq, Structural)]
pub enum AuthAPIError {
    UserAlreadyExists,
    InvalidCredentials,
    UnexpectedError,
    MissingToken,
    InvalidToken,
    MalformedRequest,
}

/// Errors of a user store.
#[derive(Clone, Copy, Debug, PartialEq, Eq, Structural)]
pub enum UserStoreError {
    UserAlreadyExists,
    UserNotFound,
    InvalidCredentials,
    UnexpectedError,
    TokenBanned,
}

/// Errors of a revoked-token store.
#[derive(Clone, Copy, Debug, PartialEq, Eq, Structural)]
pub enum BannedTokenStoreError {
    TokenAlreadyBanned,
    UnexpectedError,
}

/// Errors of a second-factor challenge store.
#[derive(Clone, Copy, Debug, PartialEq, Eq, Structural)]
pub enum TwoFACodeStoreError {
    LoginAttemptIdNotFound,
    UnexpectedError,
}

/// The message text that belongs to each user-store error.
pub open spec fn user_store_error_message(e: UserStoreError) -> Seq<char> {
    match e {
        UserStoreError::UserAlreadyExists => "User already exists"@,
        UserStoreError::UserNotFound => "User not found"@,
        UserStoreError::InvalidCredentials => "Invalid credentials"@,
        UserStoreError::UnexpectedError => "Unexpected error"@,
        UserStoreError::TokenBanned => "Token banned"@,
    }
}

/// Renders a user-store error as its message text.
pub fn user_store_error_to_string(error: &UserStoreError) -> (r: String)
    ensures
        r@ == user_store_error_message(*error),
{
    match error {
        UserStoreError::UserAlreadyExists => String::from_str("User already exists"),
        UserStoreError::UserNotFound => String::from_str("User not found"),
        UserStoreError::InvalidCredentials => String::from_str("Invalid credentials"),
        UserStoreError::UnexpectedError => String::from_str("Unexpected error"),
        UserStoreError::TokenBanned => String::from_str("Token banned"),
    }
}

} // verus!
