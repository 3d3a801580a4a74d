//! Credential hashing and constant-time verification.
//!
//! Hashing derives a memory-hard Argon2 digest under a fresh random
//! salt and encodes algorithm, parameters, salt and digest into one
//! self-describing string. Verification parses that string, recomputes
//! the digest and compares in constant time; it fails closed, so a
//! malformed hash and a wrong password are indistinguishable to the
//! caller. An encoded hash is never logged and never placed in a
//! session payload or client response: no type of this library that
//! leaves the service carries one.

use vstd::prelude::*;
use crate::errors::ApiError;

verus! {

/// Whether Argon2 verification accepts `password` against the encoded
/// hash string `encoded`: `encoded` parses as a PHC string and the
/// digest recomputed from `password` with its salt and parameters
/// matches. A function of the two strings alone.
pub uninterp spec fn argon2_verifies(password: Seq<char>, encoded: Seq<char>) -> bool;

/// Relies on argon2::Argon2::hash_password (via
/// password_hash::PasswordHasher) under a fresh random salt from
/// password_hash::SaltString::generate: the returned PHC string encodes
/// the salt and parameters the digest was derived with, so verification
/// of the same password against it succeeds.
#[verifier::external_body]
fn argon2_hash(password: &str) -> (r: Option<String>)
    ensures
        r matches Some(h) ==> argon2_verifies(password@, h@),
{
    let salt = argon2::password_hash::SaltString::generate(
        &mut argon2::password_hash::rand_core::OsRng,
    );
    match argon2::PasswordHasher::hash_password(
        &argon2::Argon2::default(),
        password.as_bytes(),
        &salt,
    ) {
        Ok(h) => Some(h.to_string()),
        Err(_) => None,
    }
}

/// Relies on password_hash::PasswordHash::new and
/// argon2::Argon2::verify_password: parsing and verification are
/// functions of the two strings alone, and any parse failure or
/// digest mismatch is "not verified".
#[verifier::external_body]
fn argon2_check(password: &str, encoded: &str) -> (r: bool)
    ensures
        r == argon2_verifies(password@, encoded@),
{
    match argon2::password_hash::PasswordHash::new(encoded) {
        Ok(parsed) => argon2::PasswordVerifier::verify_password(
            &argon2::Argon2::default(),
            password.as_bytes(),
            &parsed,
        ).is_ok(),
        Err(_) => false,
    }
}

/// Hashes a password under a fresh random salt. Two calls on the same
/// password return different encodings (the salts differ), but every
/// returned encoding verifies against the password it was derived
/// from.
pub fn hash_password(password: &str) -> (r: Result<String, ApiError>)
    ensures
        r matches Ok(h) ==> argon2_verifies(password@, h@),
        r is Err ==> r == Err::<String, ApiError>(ApiError::InternalServerError),
{
    match argon2_hash(password) {
        Some(h) => Ok(h),
        None => Err(ApiError::InternalServerError),
    }
}

/// Verifies a password against an encoded hash. Fails closed: a
/// malformed hash, an unknown algorithm tag and a digest mismatch all
/// yield the same `InvalidCredentials`.
pub fn verify_password(password: &str, hash: &str) -> (r: Result<(), ApiError>)
    ensures
        r is Ok <==> argon2_verifies(password@, hash@),
        r is Err ==> r == Err::<(), ApiError>(ApiError::InvalidCredentials),
{
    if argon2_check(password, hash) {
        Ok(())
    } else {
        Err(ApiError::InvalidCredentials)
    }
}

/// Hashing a password and verifying that password against the returned
/// encoding never fails: the only failure this composition can return
/// is the hashing step's own internal error, never a credential
/// mismatch.
pub fn hash_then_verify(password: &str) -> (r: Result<(), ApiError>)
    ensures
        r is Err ==> r == Err::<(), ApiError>(ApiError::InternalServerError),
{
    match hash_password(password) {
        Ok(h) => verify_password(password, h.as_str()),
        Err(e) => Err(e),
    }
}

} // verus!
