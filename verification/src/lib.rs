//! An authentication session engine: credential value types, a salted
//! password hasher, a signed session-token codec, in-memory stores for
//! accounts, revoked tokens and pending second-factor challenges, and the
//! orchestrated signup / login / second-factor / logout / refresh flows.
//!
//! Every flow is specified against a mathematical model of the three stores,
//! so the ordering guarantees (revocation checked before trust, a challenge
//! consumed exactly once, a later login superseding an earlier challenge) are
//! proved rather than merely intended.

pub mod app_state;
pub mod banned_token_store;
pub mod data_stores;
pub mod email;
pub mod errors;
pub mod hashing;
pub mod hashmap_two_fa_code_store;
pub mod hashmap_user_store;
pub mod laws;
pub mod mock_email_client;
pub mod http_response;
pub mod model;
pub mod password;
pub mod routes;
pub mod token;
pub mod user;

pub use crate::app_state::AppState;
pub use crate::banned_token_store::HashSetBannedTokenStore;
pub use crate::banned_token_store::get_key;
pub use crate::data_stores::BannedTokenStore;
pub use crate::data_stores::EmailClient;
pub use crate::data_stores::FromDbString;
pub use crate::data_stores::LoginAttemptId;
pub use crate::data_stores::TwoFACode;
pub use crate::data_stores::TwoFACodeStore;
pub use crate::data_stores::UserStore;
pub use crate::email::Email;
pub use crate::errors::AuthAPIError;
pub use crate::errors::BannedTokenStoreError;
pub use crate::errors::TwoFACodeStoreError;
pub use crate::errors::UserStoreError;
pub use crate::errors::user_store_error_to_string;
pub use crate::hashing::compute_password_hash;
pub use crate::hashing::verify_password_hash;
pub use crate::hashmap_two_fa_code_store::HashmapTwoFACodeStore;
pub use crate::hashmap_user_store::HashmapUserStore;
pub use crate::http_response::AuthMessage;
pub use crate::http_response::AuthMessageResponse;
pub use crate::http_response::ErrorResponse;
pub use crate::http_response::log_error_chain;
pub use crate::mock_email_client::MockEmailClient;
pub use crate::password::Password;
pub use crate::routes::LoginRequest;
pub use crate::routes::LoginResponse;
pub use crate::routes::RefreshTokenRequest;
pub use crate::routes::SignupRequest;
pub use crate::routes::TwoFactorAuthResponse;
pub use crate::routes::Verify2FARequest;
pub use crate::routes::VerifyTokenRequest;
pub use crate::token::Claims;
pub use crate::token::generate_auth_token;
pub use crate::token::validate_token;
pub use crate::user::User;
