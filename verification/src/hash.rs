//! Credential hashing and verification: a salted, memory-hard password hash
//! in PHC string form, with a fresh random salt per hash.

use vstd::prelude::*;
use argon2::password_hash::rand_core::OsRng;
use argon2::password_hash::{PasswordHash, SaltString};
use argon2::{Argon2, PasswordHasher, PasswordVerifier};
use crate::errors::Error;

verus! {

/// Whether `hash` is a structurally valid PHC hash string, i.e. whether
/// `password_hash::PasswordHash::new` parses it.
pub uninterp spec fn phc_well_formed(hash: Seq<char>) -> bool;

/// Whether verifying `password` against the PHC string `hash` succeeds.
/// Verification recomputes the hash from the password with the algorithm,
/// parameters and salt carried inside the string, so the outcome is a
/// function of these two arguments alone.
pub uninterp spec fn phc_verifies(password: Seq<char>, hash: Seq<char>) -> bool;

/// Relies on argon2's `PasswordHasher::hash_password` (Argon2id, default
/// parameters) with a fresh salt from `SaltString::generate`: on success it
/// returns a well-formed PHC string, and `PasswordVerifier::verify_password`
/// accepts the same password against it, because verification re-runs the
/// same deterministic algorithm with the salt and parameters carried in the
/// string and compares the outputs.
#[verifier::external_body]
fn argon2_hash(password: &str) -> (r: Option<String>)
    ensures
        r matches Some(h) ==> phc_well_formed(h@) && phc_verifies(password@, h@),
{
    let salt = SaltString::generate(&mut OsRng);
    match Argon2::default().hash_password(password.as_bytes(), &salt) {
        Ok(h) => Some(h.to_string()),
        Err(_) => None,
    }
}

/// Relies on password_hash's `PasswordHash::new`, which parses the PHC
/// string and fails exactly on a structurally invalid one, and on argon2's
/// `PasswordVerifier::verify_password`, which recomputes the hash of the
/// password with the salt and parameters carried in the string and reports
/// whether the outputs match. Both are deterministic in their arguments.
#[verifier::external_body]
fn argon2_verify(password: &str, hash: &str) -> (r: Option<bool>)
    ensures
        r is Some <==> phc_well_formed(hash@),
        r matches Some(b) ==> b == phc_verifies(password@, hash@),
{
    match PasswordHash::new(hash) {
        Ok(parsed) => {
            Some(Argon2::default().verify_password(password.as_bytes(), &parsed).is_ok())
        },
        Err(_) => None,
    }
}

/// Hash a plaintext password into a self-describing PHC string with a fresh
/// random salt. Never fails under normal operation; a failure indicates a
/// corrupted runtime and propagates as an unrecoverable error.
pub fn hash(plaintext: &str) -> (r: Result<String, Error>)
    ensures
        r matches Ok(h) ==> phc_well_formed(h@) && phc_verifies(plaintext@, h@),
        r matches Err(e) ==> e is Internal,
{
    match argon2_hash(plaintext) {
        Some(h) => Ok(h),
        None => Err(Error::Internal),
    }
}

/// Verify a plaintext password against a stored PHC string: false on a
/// mismatch, and an unrecoverable error exactly when the stored string is
/// structurally invalid (data corruption).
pub fn verify(plaintext: &str, stored: &str) -> (r: Result<bool, Error>)
    ensures
        r is Ok <==> phc_well_formed(stored@),
        r matches Ok(b) ==> b == phc_verifies(plaintext@, stored@),
        r matches Err(e) ==> e is Internal,
{
    match argon2_verify(plaintext, stored) {
        Some(b) => Ok(b),
        None => Err(Error::Internal),
    }
}

} // verus!
