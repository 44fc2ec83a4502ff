//! The engine's laws, proved over the model transitions that the flows'
//! contracts are stated against.

use vstd::prelude::*;

use crate::data_stores::is_code_text;
use crate::data_stores::is_uuid_shaped;
use crate::email::email_ok;
use crate::errors::AuthAPIError;
use crate::model::AuthModel;
use crate::model::challenge_consumed;
use crate::model::challenge_put;
use crate::model::login_result;
use crate::model::logout_result;
use crate::model::refresh_result;
use crate::model::signup_next;
use crate::model::signup_result;
use crate::model::token_banned_next;
use crate::model::two_fa_result;
use crate::model::verify_token_result;
use crate::password::password_ok;

verus! {

/// Law: for every valid address and password pair, signup succeeds on a
/// state that does not know the address, login with the same pair is then
/// answered directly (no second factor stands in the way), and a second
/// signup with the same address — whatever flag it carries — is answered
/// as a duplicate.
pub proof fn signup_then_login_succeeds(
    m: AuthModel,
    e: Seq<char>,
    p: Seq<char>,
    requires_2fa_again: bool,
    p_again: Seq<char>,
)
    requires
        email_ok(e),
        password_ok(p),
        password_ok(p_again),
        !m.users.dom().contains(e),
    ensures
        signup_result(m, e, p) is Ok,
        login_result(signup_next(m, e, p, false), e, p) is Direct,
        signup_result(signup_next(m, e, p, false), e, p_again) == Err::<(), AuthAPIError>(
            AuthAPIError::UserAlreadyExists,
        ),
{
}

/// Law: a consumed challenge can never be replayed — once the exact
/// pending pair of an account has passed second-factor verification and
/// the challenge was consumed, no pair passes for that account again, the
/// original one included, until a later login stores a new challenge.
pub proof fn two_fa_code_single_use(
    m: AuthModel,
    e: Seq<char>,
    id: Seq<char>,
    code: Seq<char>,
    id_retry: Seq<char>,
    code_retry: Seq<char>,
)
    requires
        two_fa_result(m, e, id, code) is Ok,
    ensures
        two_fa_result(challenge_consumed(m, e), e, id, code) == Err::<(), AuthAPIError>(
            AuthAPIError::InvalidCredentials,
        ),
        !(two_fa_result(challenge_consumed(m, e), e, id_retry, code_retry) is Ok),
{
}

/// Law: a token that logout banned is afterwards rejected — token
/// verification and rotation both answer `InvalidToken` for it, whatever
/// account the rotation claims and whenever they are tried.
pub proof fn revoked_token_stays_rejected(
    m: AuthModel,
    secret: Seq<u8>,
    t: Seq<char>,
    now: u64,
    e: Seq<char>,
    later: u64,
)
    requires
        logout_result(m, secret, Some(t), now) is Ok,
    ensures
        verify_token_result(token_banned_next(m, t), secret, t, later) == Err::<(), AuthAPIError>(
            AuthAPIError::InvalidToken,
        ),
        refresh_result(token_banned_next(m, t), secret, e, t, later) == Err::<(), AuthAPIError>(
            AuthAPIError::InvalidToken,
        ),
{
}

/// Law: a later login supersedes the pending challenge — after two logins
/// stored challenges for one account, the earlier pair no longer passes
/// second-factor verification, and the later pair does.
pub proof fn later_challenge_supersedes(
    m: AuthModel,
    e: Seq<char>,
    id1: Seq<char>,
    code1: Seq<char>,
    id2: Seq<char>,
    code2: Seq<char>,
)
    requires
        email_ok(e),
        is_uuid_shaped(id1),
        is_code_text(code1),
        is_uuid_shaped(id2),
        is_code_text(code2),
        (id1, code1) != (id2, code2),
    ensures
        two_fa_result(challenge_put(challenge_put(m, e, id1, code1), e, id2, code2), e, id1, code1)
            == Err::<(), AuthAPIError>(AuthAPIError::InvalidCredentials),
        two_fa_result(challenge_put(challenge_put(m, e, id1, code1), e, id2, code2), e, id2, code2)
            is Ok,
{
}

/// Law: accounts do not leak into each other's challenges — storing or
/// consuming a challenge for one account neither changes another account's
/// pending challenge nor how that other account's second-factor
/// verification is answered.
pub proof fn challenges_are_isolated(
    m: AuthModel,
    e1: Seq<char>,
    id: Seq<char>,
    code: Seq<char>,
    e2: Seq<char>,
    id2: Seq<char>,
    code2: Seq<char>,
)
    requires
        e1 != e2,
    ensures
        challenge_put(m, e1, id, code).challenges.dom().contains(e2) == m.challenges.dom().contains(
            e2,
        ),
        m.challenges.dom().contains(e2) ==> challenge_put(m, e1, id, code).challenges[e2]
            == m.challenges[e2],
        two_fa_result(challenge_put(m, e1, id, code), e2, id2, code2) == two_fa_result(
            m,
            e2,
            id2,
            code2,
        ),
        two_fa_result(challenge_consumed(m, e1), e2, id2, code2) == two_fa_result(
            m,
            e2,
            id2,
            code2,
        ),
{
}

} // verus!
