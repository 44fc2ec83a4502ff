//! The password hasher: a salted, memory-hard one-way function with fixed
//! cost parameters, and its constant-parameter verifier.
//!
//! Hashing draws a fresh random salt on every call, so two hashes of one
//! password differ; what is promised of each result is only that it
//! verifies against the password it was derived from.

use vstd::prelude::*;

use crate::errors::AuthAPIError;

verus! {

/// Whether the outside verifier accepts the candidate against the stored
/// derived credential.  The derivation is the hashing crate's; contracts
/// speak of acceptance through this name only.
pub uninterp spec fn phc_verifies(hash: Seq<char>, password: Seq<char>) -> bool;

/// Memory cost of the hash, in KiB.
pub const HASH_MEMORY_KIB: u32 = 15000;

/// Number of passes of the hash.
pub const HASH_ITERATIONS: u32 = 2;

/// Degree of parallelism of the hash.
pub const HASH_PARALLELISM: u32 = 1;

/// Relies on `argon2`'s `PasswordHasher::hash_password` with a fresh random
/// salt: every result it returns verifies against the hashed password;
/// nothing relates the results of two calls.
#[verifier::external_body]
fn argon2_hash_text(password: &str, m_cost: u32, t_cost: u32, p_cost: u32) -> (r: Option<String>)
    ensures
        r is Some ==> phc_verifies(r.unwrap()@, password@),
{
    let params = match argon2::Params::new(m_cost, t_cost, p_cost, None) {
        Ok(p) => p,
        Err(_) => {
            return None;
        },
    };
    let hasher = argon2::Argon2::new(argon2::Algorithm::Argon2id, argon2::Version::V0x13, params);
    match argon2::PasswordHasher::hash_password(&hasher, password.as_bytes()) {
        Ok(h) => Some(h.to_string()),
        Err(_) => None,
    }
}

/// Relies on `argon2`'s `PasswordVerifier::verify_password` on the default
/// engine: the result is deterministic in the stored string and the
/// candidate, and is the acceptance that `phc_verifies` names.
#[verifier::external_body]
fn argon2_verify_text(hash: &str, candidate: &str) -> (r: bool)
    ensures
        r == phc_verifies(hash@, candidate@),
{
    let verifier = argon2::Argon2::default();
    argon2::PasswordVerifier::<str>::verify_password(&verifier, candidate.as_bytes(), hash).is_ok()
}

/// Derives a salted hash of the password under the fixed cost parameters.
/// Every hash this returns verifies against the password it was derived
/// from, so `verify_password_hash(h, p)` succeeds for each of its results.
pub fn compute_password_hash(password: &str) -> (r: Result<String, AuthAPIError>)
    ensures
        r matches Ok(h) ==> phc_verifies(h@, password@),
        r is Err ==> r == Err::<String, AuthAPIError>(AuthAPIError::UnexpectedError),
{
    match argon2_hash_text(password, HASH_MEMORY_KIB, HASH_ITERATIONS, HASH_PARALLELISM) {
        Some(h) => Ok(h),
        None => Err(AuthAPIError::UnexpectedError),
    }
}

/// Re-derives and compares: succeeds exactly when the verifier accepts the
/// candidate against the stored hash.
pub fn verify_password_hash(expected_password_hash: &str, password_candidate: &str) -> (r: Result<
    (),
    AuthAPIError,
>)
    ensures
        r is Ok <==> phc_verifies(expected_password_hash@, password_candidate@),
        r is Err ==> r == Err::<(), AuthAPIError>(AuthAPIError::InvalidCredentials),
{
    if argon2_verify_text(expected_password_hash, password_candidate) {
        Ok(())
    } else {
        Err(AuthAPIError::InvalidCredentials)
    }
}

} // verus!
