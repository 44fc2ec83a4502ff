//! The mathematical model of the session engine: the joint state of the
//! three stores and the transition each flow performs on it.
//!
//! The executable flows are specified against these functions, and the
//! engine's laws are proved of them.

use vstd::prelude::*;

use crate::data_stores::is_code_text;
use crate::data_stores::is_uuid_shaped;
use crate::email::email_ok;
use crate::errors::AuthAPIError;
use crate::password::password_ok;
use crate::token::decoded;
use crate::user::UserModel;

verus! {

/// The joint state of the three stores: accounts, revoked tokens, pending
/// challenges.
pub ghost struct AuthModel {
    pub users: Map<Seq<char>, UserModel>,
    pub banned: Set<Seq<char>>,
    pub challenges: Map<Seq<char>, (Seq<char>, Seq<char>)>,
}

/// What signup answers: invalid input is rejected as invalid credentials, a
/// known address as a duplicate.
pub open spec fn signup_result(m: AuthModel, e: Seq<char>, p: Seq<char>) -> Result<
    (),
    AuthAPIError,
> {
    if !email_ok(e) {
        Err(AuthAPIError::InvalidCredentials)
    } else if !password_ok(p) {
        Err(AuthAPIError::InvalidCredentials)
    } else if m.users.dom().contains(e) {
        Err(AuthAPIError::UserAlreadyExists)
    } else {
        Ok(())
    }
}

/// The state after signup: on success the account is added, otherwise
/// nothing changes.
pub open spec fn signup_next(m: AuthModel, e: Seq<char>, p: Seq<char>, requires_2fa: bool) -> AuthModel {
    if signup_result(m, e, p) is Ok {
        AuthModel { users: m.users.insert(e, UserModel { password: p, requires_2fa }), ..m }
    } else {
        m
    }
}

/// How a login attempt is answered, before any token or challenge is
/// minted.  Unknown address and wrong password are indistinguishable.
pub enum LoginSpecOutcome {
    /// The credentials do not check out.
    Rejected,
    /// The credentials check out and no second factor is required.
    Direct,
    /// The credentials check out and a second-factor challenge is owed.
    Pending,
}

/// What login decides from the stored accounts alone.
pub open spec fn login_result(m: AuthModel, e: Seq<char>, p: Seq<char>) -> LoginSpecOutcome {
    if !email_ok(e) || !password_ok(p) {
        LoginSpecOutcome::Rejected
    } else if !m.users.dom().contains(e) {
        LoginSpecOutcome::Rejected
    } else if m.users[e].password != p {
        LoginSpecOutcome::Rejected
    } else if m.users[e].requires_2fa {
        LoginSpecOutcome::Pending
    } else {
        LoginSpecOutcome::Direct
    }
}

/// The state after a challenge was stored for the account: any earlier
/// challenge of that account is gone, every other account is untouched.
pub open spec fn challenge_put(m: AuthModel, e: Seq<char>, id: Seq<char>, code: Seq<char>) -> AuthModel {
    AuthModel { challenges: m.challenges.insert(e, (id, code)), ..m }
}

/// The state after the account's challenge was consumed.
pub open spec fn challenge_consumed(m: AuthModel, e: Seq<char>) -> AuthModel {
    AuthModel { challenges: m.challenges.remove(e), ..m }
}

/// What second-factor verification answers on canonically shaped inputs:
/// malformed input is rejected as such, and otherwise exactly the stored
/// `(attempt id, code)` pair of the account passes.
pub open spec fn two_fa_result(m: AuthModel, e: Seq<char>, id: Seq<char>, code: Seq<char>) -> Result<
    (),
    AuthAPIError,
> {
    if !email_ok(e) {
        Err(AuthAPIError::MalformedRequest)
    } else if !is_uuid_shaped(id) {
        Err(AuthAPIError::MalformedRequest)
    } else if !is_code_text(code) {
        Err(AuthAPIError::MalformedRequest)
    } else if !m.challenges.dom().contains(e) {
        Err(AuthAPIError::InvalidCredentials)
    } else if m.challenges[e] != (id, code) {
        Err(AuthAPIError::InvalidCredentials)
    } else {
        Ok(())
    }
}

/// When a presented token is trusted: its signature validates, it has not
/// expired, and it has not been revoked.
pub open spec fn token_trusted(m: AuthModel, secret: Seq<u8>, token: Seq<char>, now: u64) -> bool {
    &&& !m.banned.contains(token)
    &&& decoded(secret, token) is Some
    &&& now < decoded(secret, token).unwrap().1
}

/// What token verification answers.
pub open spec fn verify_token_result(
    m: AuthModel,
    secret: Seq<u8>,
    token: Seq<char>,
    now: u64,
) -> Result<(), AuthAPIError> {
    if token_trusted(m, secret, token, now) {
        Ok(())
    } else {
        Err(AuthAPIError::InvalidToken)
    }
}

/// What logout answers: a missing cookie is its own error, an untrusted
/// token another; only a trusted token is banned.
pub open spec fn logout_result(
    m: AuthModel,
    secret: Seq<u8>,
    token: Option<Seq<char>>,
    now: u64,
) -> Result<(), AuthAPIError> {
    match token {
        None => Err(AuthAPIError::MissingToken),
        Some(t) => if token_trusted(m, secret, t, now) {
            Ok(())
        } else {
            Err(AuthAPIError::InvalidToken)
        },
    }
}

/// The state after a token was revoked.
pub open spec fn token_banned_next(m: AuthModel, token: Seq<char>) -> AuthModel {
    AuthModel { banned: m.banned.insert(token), ..m }
}

/// What refresh answers: the token is judged first, so a revoked token is
/// reported as such whatever the rest of the request holds; then the
/// account must exist and the token must belong to it.
pub open spec fn refresh_result(
    m: AuthModel,
    secret: Seq<u8>,
    e: Seq<char>,
    token: Seq<char>,
    now: u64,
) -> Result<(), AuthAPIError> {
    if !token_trusted(m, secret, token, now) {
        Err(AuthAPIError::InvalidToken)
    } else if !email_ok(e) || !m.users.dom().contains(e) {
        Err(AuthAPIError::InvalidCredentials)
    } else if decoded(secret, token).unwrap().0 != e {
        Err(AuthAPIError::InvalidToken)
    } else {
        Ok(())
    }
}

} // verus!
