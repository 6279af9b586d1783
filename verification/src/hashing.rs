use vstd::prelude::*;

use crate::error::ApiError;
use argon2::password_hash::{PasswordHash, PasswordHasher, PasswordVerifier, SaltString};
use argon2::password_hash::rand_core::OsRng;
use argon2::Argon2;

verus! {

/// Whether a stored string is a PHC hash string that the verifier accepts:
/// `PasswordHash::new` parses it and the Argon2 verifier can decode the
/// algorithm, version and parameters it embeds. A function of the string
/// alone.
pub uninterp spec fn phc_valid(phc: Seq<char>) -> bool;

/// Whether the Argon2 digest recomputed from `password` with the algorithm,
/// parameters and salt embedded in the PHC string `phc` matches the digest
/// that `phc` carries. A function of the two arguments alone.
pub uninterp spec fn phc_matches(password: Seq<char>, phc: Seq<char>) -> bool;

/// Relies on `password_hash::PasswordHash::new` and on argon2's
/// `PasswordVerifier::verify_password`: both are deterministic in the
/// plaintext and the stored string; verification recomputes the digest with
/// the parameters embedded in the string; a mismatch is reported as
/// `Error::Password`, and any other error means the string is one the
/// verifier cannot use.
#[verifier::external_body]
fn argon2_verify_raw(password: &str, phc: &str) -> (r: Option<bool>)
    ensures
        r is Some <==> phc_valid(phc@),
        phc_valid(phc@) ==> r == Some(phc_matches(password@, phc@)),
{
    match PasswordHash::new(phc) {
        Err(_) => None,
        Ok(parsed) => match Argon2::default().verify_password(password.as_bytes(), &parsed) {
            Ok(()) => Some(true),
            Err(argon2::password_hash::Error::Password) => Some(false),
            Err(_) => None,
        },
    }
}

/// Relies on `SaltString::generate` (a fresh random salt) and on argon2's
/// `PasswordHasher::hash_password`: on success the returned PHC string
/// embeds the algorithm, parameters and salt that were used, so verifying
/// the same plaintext against it recomputes the same digest and matches.
#[verifier::external_body]
fn argon2_hash_raw(password: &str) -> (r: Option<String>)
    ensures
        r matches Some(h) ==> phc_valid(h@) && phc_matches(password@, h@),
{
    let salt = SaltString::generate(&mut OsRng);
    match Argon2::default().hash_password(password.as_bytes(), &salt) {
        Ok(h) => Some(h.to_string()),
        Err(_) => None,
    }
}

/// Derives a salted, memory-hard hash of `password`, returned as a
/// self-describing PHC string. Fails with `Hashing` only on an internal
/// failure of the hashing library; on success the returned string verifies
/// against `password`.
pub fn hash(password: &str) -> (r: Result<String, ApiError>)
    ensures
        r matches Ok(h) ==> phc_valid(h@) && phc_matches(password@, h@),
        r matches Err(e) ==> e == ApiError::Hashing,
{
    match argon2_hash_raw(password) {
        Some(h) => Ok(h),
        None => Err(ApiError::Hashing),
    }
}

/// Checks `password` against a stored PHC hash string, always with the
/// parameters embedded in the string, never with ambient defaults. Returns
/// `Ok(false)` for a mismatch; fails with `Hashing` iff the stored string is
/// malformed.
pub fn verify(password: &str, phc: &str) -> (r: Result<bool, ApiError>)
    ensures
        r is Ok <==> phc_valid(phc@),
        phc_valid(phc@) ==> r == Ok::<bool, ApiError>(phc_matches(password@, phc@)),
        r matches Err(e) ==> e == ApiError::Hashing,
{
    match argon2_verify_raw(password, phc) {
        Some(b) => Ok(b),
        None => Err(ApiError::Hashing),
    }
}

/// Law: a hash freshly derived from a password verifies against that same
/// password — whenever `hash` succeeds, `verify` accepts the pair, and this
/// function returns `Some(true)`. (That two different plaintexts collide
/// only with overwhelming improbability is a property of the algorithm that
/// cannot be stated here, only sampled by tests.)
pub fn hash_then_verify(password: &str) -> (r: Option<bool>)
    ensures
        r matches Some(b) ==> b,
{
    match hash(password) {
        Ok(h) => {
            let b = match verify(password, h.as_str()) {
                Ok(b) => b,
                Err(_) => false,
            };
            Some(b)
        },
        Err(_) => None,
    }
}

} // verus!
