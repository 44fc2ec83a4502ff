//! The session flows: signup, login, second-factor verification, logout,
//! token verification and token rotation.
//!
//! Each flow is generic over the store capabilities and specified against
//! the model transitions of `model`.  Time and the signing key are explicit
//! arguments: the caller reads the clock and holds the process-wide secret.

use vstd::prelude::*;

use crate::app_state::AppState;
use crate::data_stores::BannedTokenStore;
use crate::data_stores::EmailClient;
use crate::data_stores::LoginAttemptId;
use crate::data_stores::TwoFACode;
use crate::data_stores::TwoFACodeStore;
use crate::data_stores::UserStore;
use crate::data_stores::is_code_text;
use crate::data_stores::is_uuid_shaped;
use crate::email::Email;
use crate::email::email_ok;
use crate::errors::AuthAPIError;
use crate::http_response::AuthMessage;
use crate::model::challenge_consumed;
use crate::model::challenge_put;
use crate::model::login_result;
use crate::model::logout_result;
use crate::model::refresh_result;
use crate::model::signup_next;
use crate::model::signup_result;
use crate::model::token_banned_next;
use crate::model::two_fa_result;
use crate::model::verify_token_result;
use crate::password::Password;
use crate::token::Claims;
use crate::token::TOKEN_TTL_SECONDS;
use crate::token::decoded;
use crate::token::generate_auth_token;
use crate::token::validate_token;
use crate::user::User;

verus! {

/// A signup request body.
pub struct SignupRequest {
    pub email: String,
    pub password: String,
    pub requires_2fa: bool,
}

/// A login request body.
pub struct LoginRequest {
    pub email: String,
    pub password: String,
}

/// The body of a successful login answer.
pub enum LoginResponse {
    /// Logged in directly; the session cookie carries the token.
    RegularAuth,
    /// A second factor is owed; the attempt identifier is returned, the
    /// code never.
    TwoFactorAuth(TwoFactorAuthResponse),
}

/// The pending-state answer to a login that requires a second factor.
pub struct TwoFactorAuthResponse {
    pub message: String,
    pub login_attempt_id: String,
}

/// A second-factor verification request body.
pub struct Verify2FARequest {
    pub email: String,
    pub login_attempt_id: String,
    pub two_fa_code: String,
}

/// A token verification request body.
pub struct VerifyTokenRequest {
    pub token: String,
}

/// A token rotation request body.
pub struct RefreshTokenRequest {
    pub email: String,
    pub token: String,
}

/// The subject line under which a second-factor code is delivered.
pub open spec fn two_fa_subject() -> Seq<char> {
    "2 factor auth code"@
}

/// Registers an account: rejects invalid input and duplicate addresses,
/// stores the new account otherwise.  No other state is touched.
pub fn signup<T: UserStore, U: BannedTokenStore, V: TwoFACodeStore, W: EmailClient>(
    state: &mut AppState<T, U, V, W>,
    request: SignupRequest,
) -> (r: Result<AuthMessage, AuthAPIError>)
    ensures
        final(state).model() == signup_next(
            old(state).model(),
            request.email@,
            request.password@,
            request.requires_2fa,
        ),
        r is Ok <==> signup_result(old(state).model(), request.email@, request.password@) is Ok,
        r matches Err(e) ==> Err::<(), AuthAPIError>(e) == signup_result(
            old(state).model(),
            request.email@,
            request.password@,
        ),
        r matches Ok(msg) ==> msg == AuthMessage::UserCreated,
        final(state).email_client.sent() == old(state).email_client.sent(),
{
    let email = match Email::parse(request.email) {
        Ok(e) => e,
        Err(e) => {
            return Err(e);
        },
    };
    let password = match Password::parse(request.password) {
        Ok(p) => p,
        Err(e) => {
            return Err(e);
        },
    };
    let user = match User::new(email, password, request.requires_2fa) {
        Ok(u) => u,
        Err(e) => {
            return Err(e);
        },
    };
    if let Ok(_) = state.user_store.get_user(&user.email) {
        return Err(AuthAPIError::UserAlreadyExists);
    }
    match state.user_store.add_user(user) {
        Ok(()) => Ok(AuthMessage::UserCreated),
        Err(_) => Err(AuthAPIError::UnexpectedError),
    }
}

/// The no-second-factor tail of a login: mint a token for the session
/// cookie.
fn handle_no_2fa(secret: &[u8], email: &Email, now: u64) -> (r: Result<
    (LoginResponse, Option<String>),
    AuthAPIError,
>)
    ensures
        r matches Ok((resp, tok)) ==> resp is RegularAuth && (tok matches Some(t) && decoded(
            secret@,
            t@,
        ) == Some((email@, (now + TOKEN_TTL_SECONDS) as u64)) && t@.len() > 0 && now
            + TOKEN_TTL_SECONDS <= u64::MAX),
        now + TOKEN_TTL_SECONDS <= u64::MAX ==> r is Ok,
        r is Err ==> r == Err::<(LoginResponse, Option<String>), AuthAPIError>(
            AuthAPIError::UnexpectedError,
        ),
{
    match generate_auth_token(secret, email, now) {
        Ok(t) => Ok((LoginResponse::RegularAuth, Some(t))),
        Err(_) => Err(AuthAPIError::UnexpectedError),
    }
}

/// The second-factor tail of a login: mint a fresh attempt identifier and
/// code, store them (superseding any pending challenge of the account), and
/// dispatch the code through the notification channel.  If dispatch fails,
/// the stored challenge deliberately stays live until it is superseded.
fn handle_2fa<T: UserStore, U: BannedTokenStore, V: TwoFACodeStore, W: EmailClient>(
    state: &mut AppState<T, U, V, W>,
    email: &Email,
) -> (r: Result<(LoginResponse, Option<String>), AuthAPIError>)
    ensures
        final(state).model().users == old(state).model().users,
        final(state).model().banned == old(state).model().banned,
        r matches Ok((resp, tok)) ==> tok is None && (resp matches LoginResponse::TwoFactorAuth(
            tfa,
        ) && tfa.message@ == "2FA required"@ && is_uuid_shaped(tfa.login_attempt_id@) && exists|
            c: Seq<char>,
        |
            #![auto]
            is_code_text(c) && final(state).model() == challenge_put(
                old(state).model(),
                email@,
                tfa.login_attempt_id@,
                c,
            ) && final(state).email_client.sent() == old(state).email_client.sent().push(
                (email@, two_fa_subject(), c),
            )),
        r is Err ==> r == Err::<(LoginResponse, Option<String>), AuthAPIError>(
            AuthAPIError::UnexpectedError,
        ) && final(state).email_client.sent() == old(state).email_client.sent() && exists|
            id: Seq<char>,
            c: Seq<char>,
        |
            #![auto]
            is_uuid_shaped(id) && is_code_text(c) && final(state).model() == challenge_put(
                old(state).model(),
                email@,
                id,
                c,
            ),
{
    let login_attempt_id = LoginAttemptId::default();
    let two_fa_code = TwoFACode::default();
    match state.two_fa_code_store.add_code(email, login_attempt_id.clone(), two_fa_code.clone()) {
        Ok(()) => {},
        Err(_) => {
            return Err(AuthAPIError::UnexpectedError);
        },
    }
    match state.email_client.send_email(email, "2 factor auth code", two_fa_code.as_str()) {
        Ok(()) => {},
        Err(_) => {
            proof {
                assert(state.model() == challenge_put(
                    old(state).model(),
                    email@,
                    login_attempt_id@,
                    two_fa_code@,
                ));
            }
            return Err(AuthAPIError::UnexpectedError);
        },
    }
    let response = TwoFactorAuthResponse {
        message: String::from_str("2FA required"),
        login_attempt_id: String::from_str(login_attempt_id.as_str()),
    };
    Ok((LoginResponse::TwoFactorAuth(response), None))
}

/// Authenticates an account.  With the credentials checked out, either a
/// session token is minted directly, or — where the account requires a
/// second factor — a fresh challenge is stored and its code dispatched,
/// with only the attempt identifier returned.  Unknown address and wrong
/// password are answered identically.
pub fn login<T: UserStore, U: BannedTokenStore, V: TwoFACodeStore, W: EmailClient>(
    state: &mut AppState<T, U, V, W>,
    secret: &[u8],
    request: LoginRequest,
    now: u64,
) -> (r: Result<(LoginResponse, Option<String>), AuthAPIError>)
    ensures
        login_result(old(state).model(), request.email@, request.password@) is Rejected ==> r
            == Err::<(LoginResponse, Option<String>), AuthAPIError>(
            AuthAPIError::InvalidCredentials,
        ) && *final(state) == *old(state),
        login_result(old(state).model(), request.email@, request.password@) is Direct ==> *final(state) == *old(state) && (r matches Ok((resp, tok)) ==> resp is RegularAuth && (tok matches Some(
            t,
        ) && decoded(secret@, t@) == Some(
            (request.email@, (now + TOKEN_TTL_SECONDS) as u64),
        ) && t@.len() > 0)),
        login_result(old(state).model(), request.email@, request.password@) is Pending ==> final(state).model().users == old(state).model().users && final(state).model().banned == old(
            state,
        ).model().banned && (r matches Ok((resp, tok)) ==> tok is None && (resp matches LoginResponse::TwoFactorAuth(
            tfa,
        ) && tfa.message@ == "2FA required"@ && is_uuid_shaped(tfa.login_attempt_id@) && exists|
            c: Seq<char>,
        |
            #![auto]
            is_code_text(c) && final(state).model() == challenge_put(
                old(state).model(),
                request.email@,
                tfa.login_attempt_id@,
                c,
            ) && final(state).email_client.sent() == old(state).email_client.sent().push(
                (request.email@, two_fa_subject(), c),
            ))),
        login_result(old(state).model(), request.email@, request.password@) is Pending && r
            is Err ==> final(state).email_client.sent() == old(state).email_client.sent()
            && exists|id: Seq<char>, c: Seq<char>|
            #![auto]
            is_uuid_shaped(id) && is_code_text(c) && final(state).model() == challenge_put(
                old(state).model(),
                request.email@,
                id,
                c,
            ),
        !(login_result(old(state).model(), request.email@, request.password@) is Pending) ==> final(state).email_client.sent() == old(state).email_client.sent(),
        r is Err ==> r == Err::<(LoginResponse, Option<String>), AuthAPIError>(
            AuthAPIError::InvalidCredentials,
        ) || r == Err::<(LoginResponse, Option<String>), AuthAPIError>(
            AuthAPIError::UnexpectedError,
        ),
        r is Err && !(login_result(old(state).model(), request.email@, request.password@)
            is Rejected) ==> r == Err::<(LoginResponse, Option<String>), AuthAPIError>(
            AuthAPIError::UnexpectedError,
        ),
        login_result(old(state).model(), request.email@, request.password@) is Direct && now
            + TOKEN_TTL_SECONDS <= u64::MAX ==> r is Ok,
{
    let email = match Email::parse(request.email) {
        Ok(e) => e,
        Err(_) => {
            return Err(AuthAPIError::InvalidCredentials);
        },
    };
    let password = match Password::parse(request.password) {
        Ok(p) => p,
        Err(_) => {
            return Err(AuthAPIError::InvalidCredentials);
        },
    };
    match state.user_store.validate_user(&email, &password) {
        Ok(()) => {},
        Err(_) => {
            return Err(AuthAPIError::InvalidCredentials);
        },
    }
    let user = match state.user_store.get_user(&email) {
        Ok(u) => u,
        Err(_) => {
            return Err(AuthAPIError::InvalidCredentials);
        },
    };
    if user.requires_2fa {
        handle_2fa(state, &email)
    } else {
        handle_no_2fa(secret, &email, now)
    }
}

/// Verifies a second-factor challenge: with the exact pending
/// `(attempt id, code)` pair of the account, the challenge is consumed —
/// before success is reported — and a session token is minted; any
/// mismatch leaves the challenge intact.
pub fn verify_2fa<T: UserStore, U: BannedTokenStore, V: TwoFACodeStore, W: EmailClient>(
    state: &mut AppState<T, U, V, W>,
    secret: &[u8],
    request: Verify2FARequest,
    now: u64,
) -> (r: Result<String, AuthAPIError>)
    ensures
        r matches Ok(t) ==> old(state).model().challenges.dom().contains(request.email@) && old(
            state,
        ).model().challenges[request.email@].1 == request.two_fa_code@ && final(state).model()
            == challenge_consumed(old(state).model(), request.email@) && decoded(secret@, t@)
            == Some((request.email@, (now + TOKEN_TTL_SECONDS) as u64)) && t@.len() > 0,
        r matches Err(e) && e != AuthAPIError::UnexpectedError ==> *final(state) == *old(state),
        r == Err::<String, AuthAPIError>(AuthAPIError::UnexpectedError) ==> final(state).model()
            == challenge_consumed(old(state).model(), request.email@),
        (is_uuid_shaped(request.login_attempt_id@) || !crate::data_stores::uuid_accepts(
            request.login_attempt_id@,
        )) ==> (two_fa_result(
            old(state).model(),
            request.email@,
            request.login_attempt_id@,
            request.two_fa_code@,
        ) matches Err(e) ==> r == Err::<String, AuthAPIError>(e)),
        two_fa_result(
            old(state).model(),
            request.email@,
            request.login_attempt_id@,
            request.two_fa_code@,
        ) is Ok ==> final(state).model() == challenge_consumed(old(state).model(), request.email@)
            && (r is Ok || r == Err::<String, AuthAPIError>(AuthAPIError::UnexpectedError)),
        two_fa_result(
            old(state).model(),
            request.email@,
            request.login_attempt_id@,
            request.two_fa_code@,
        ) is Ok && now + TOKEN_TTL_SECONDS <= u64::MAX ==> r is Ok,
        !email_ok(request.email@) ==> r == Err::<String, AuthAPIError>(
            AuthAPIError::MalformedRequest,
        ),
        final(state).email_client.sent() == old(state).email_client.sent(),
{
    let email = match Email::parse(request.email) {
        Ok(e) => e,
        Err(_) => {
            return Err(AuthAPIError::MalformedRequest);
        },
    };
    let login_attempt_id = match LoginAttemptId::parse(request.login_attempt_id) {
        Ok(i) => i,
        Err(_) => {
            return Err(AuthAPIError::MalformedRequest);
        },
    };
    let two_fa_code = match TwoFACode::parse(request.two_fa_code) {
        Ok(c) => c,
        Err(_) => {
            return Err(AuthAPIError::MalformedRequest);
        },
    };
    let stored = match state.two_fa_code_store.get_code(&email) {
        Ok(p) => p,
        Err(_) => {
            return Err(AuthAPIError::InvalidCredentials);
        },
    };
    if stored.0 == login_attempt_id && stored.1 == two_fa_code {
        match state.two_fa_code_store.remove_code(&email) {
            Ok(()) => {},
            Err(_) => {
                return Err(AuthAPIError::UnexpectedError);
            },
        }
        match generate_auth_token(secret, &email, now) {
            Ok(t) => Ok(t),
            Err(_) => Err(AuthAPIError::UnexpectedError),
        }
    } else {
        Err(AuthAPIError::InvalidCredentials)
    }
}

/// Ends a session: a present, trusted token is banned and the caller's
/// cookie is to be cleared; a missing cookie and an untrusted token are
/// distinct errors, and nothing is banned then.
pub fn logout<T: UserStore, U: BannedTokenStore, V: TwoFACodeStore, W: EmailClient>(
    state: &mut AppState<T, U, V, W>,
    secret: &[u8],
    cookie_token: Option<&str>,
    now: u64,
) -> (r: Result<(), AuthAPIError>)
    ensures
        cookie_token is None ==> r == Err::<(), AuthAPIError>(AuthAPIError::MissingToken) && *final(state) == *old(state),
        cookie_token matches Some(t) ==> r == logout_result(
            old(state).model(),
            secret@,
            Some(t@),
            now,
        ) && (r is Ok ==> final(state).model() == token_banned_next(old(state).model(), t@)) && (r
            is Err ==> *final(state) == *old(state)),
        final(state).email_client.sent() == old(state).email_client.sent(),
{
    let token = match cookie_token {
        Some(t) => t,
        None => {
            return Err(AuthAPIError::MissingToken);
        },
    };
    match validate_token(token, &state.banned_token_store, secret, now) {
        Ok(_) => {},
        Err(_) => {
            return Err(AuthAPIError::InvalidToken);
        },
    }
    match state.banned_token_store.add_banned_token(String::from_str(token)) {
        Ok(()) => Ok(()),
        Err(_) => Err(AuthAPIError::UnexpectedError),
    }
}

/// Verifies a presented token: trusted exactly when its signature
/// validates, it has not expired, and it has not been revoked.  Nothing is
/// changed.
pub fn verify_token<T: UserStore, U: BannedTokenStore, V: TwoFACodeStore, W: EmailClient>(
    state: &AppState<T, U, V, W>,
    secret: &[u8],
    request: VerifyTokenRequest,
    now: u64,
) -> (r: Result<(), AuthAPIError>)
    ensures
        r == verify_token_result(state.model(), secret@, request.token@, now),
{
    match validate_token(request.token.as_str(), &state.banned_token_store, secret, now) {
        Ok(_) => Ok(()),
        Err(_) => Err(AuthAPIError::InvalidToken),
    }
}

/// Rotates a session: the presented token is judged first (revoked, forged
/// or expired tokens are rejected outright), the account must exist and
/// own the token; then the old token is banned and a fresh one minted.
/// Rotation, not extension: the old token never leaves this flow usable.
/// The codec is deterministic, so a rotation within the issuing second of
/// the old token re-mints the identical — and now banned — text; the
/// contract therefore speaks of the new token's content, not of its
/// distinctness.
pub fn refresh_token<T: UserStore, U: BannedTokenStore, V: TwoFACodeStore, W: EmailClient>(
    state: &mut AppState<T, U, V, W>,
    secret: &[u8],
    request: RefreshTokenRequest,
    now: u64,
) -> (r: Result<String, AuthAPIError>)
    ensures
        refresh_result(old(state).model(), secret@, request.email@, request.token@, now) matches Err(
            e,
        ) ==> r == Err::<String, AuthAPIError>(e) && *final(state) == *old(state),
        refresh_result(old(state).model(), secret@, request.email@, request.token@, now) is Ok
            ==> final(state).model() == token_banned_next(old(state).model(), request.token@) && (
        r matches Ok(t) ==> decoded(secret@, t@) == Some(
            (request.email@, (now + TOKEN_TTL_SECONDS) as u64),
        ) && t@.len() > 0),
        refresh_result(old(state).model(), secret@, request.email@, request.token@, now) is Ok && r
            is Err ==> r == Err::<String, AuthAPIError>(AuthAPIError::UnexpectedError),
        refresh_result(old(state).model(), secret@, request.email@, request.token@, now) is Ok
            && now + TOKEN_TTL_SECONDS <= u64::MAX ==> r is Ok,
        final(state).email_client.sent() == old(state).email_client.sent(),
{
    let claims: Claims = match validate_token(
        request.token.as_str(),
        &state.banned_token_store,
        secret,
        now,
    ) {
        Ok(c) => c,
        Err(_) => {
            return Err(AuthAPIError::InvalidToken);
        },
    };
    let email = match Email::parse(request.email) {
        Ok(e) => e,
        Err(_) => {
            return Err(AuthAPIError::InvalidCredentials);
        },
    };
    match state.user_store.get_user(&email) {
        Ok(_) => {},
        Err(_) => {
            return Err(AuthAPIError::InvalidCredentials);
        },
    }
    if !(claims.sub == String::from_str(email.as_str())) {
        return Err(AuthAPIError::InvalidToken);
    }
    match state.banned_token_store.add_banned_token(String::from_str(request.token.as_str())) {
        Ok(()) => {},
        Err(_) => {
            return Err(AuthAPIError::UnexpectedError);
        },
    }
    match generate_auth_token(secret, &email, now) {
        Ok(t) => Ok(t),
        Err(_) => Err(AuthAPIError::UnexpectedError),
    }
}

} // verus!
