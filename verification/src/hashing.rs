//! The credential hasher: storable password hashes and their verification.
//!
//! A password is stored only as a self-describing PHC string: algorithm
//! identifier, parameters, a fresh random salt, and the digest. Verification
//! recomputes the digest from the candidate password and the stored string and
//! compares in constant time. A malformed stored string and a wrong password
//! are reported identically, so a caller cannot tell a corrupted record from a
//! wrong guess.

use vstd::prelude::*;
use crate::errors::{AppError, AppResult};
use argon2::password_hash::{PasswordHash, PasswordHasher, PasswordVerifier, SaltString, rand_core::OsRng};

verus! {

/// Whether the password `p` verifies against the stored PHC string `h`: the
/// digest recomputed from `p` with the algorithm, parameters and salt encoded
/// in `h` equals the digest encoded in `h`. False whenever `h` is not a
/// well-formed PHC string. A function of exactly these two values.
pub uninterp spec fn spec_password_matches(p: Seq<char>, h: Seq<char>) -> bool;

/// Relies on argon2::Argon2::hash_password with a fresh random salt. The salt
/// makes the result nondeterministic, so nothing is said about which string
/// comes back — only that, as the PHC round trip guarantees, the password it
/// was derived from verifies against it.
#[verifier::external_body]
fn argon2_hash(password: &str) -> (r: Result<String, ()>)
    ensures
        r matches Ok(h) ==> spec_password_matches(password@, h@),
{
    let salt = SaltString::generate(&mut OsRng);
    match argon2::Argon2::default().hash_password(password.as_bytes(), &salt) {
        Ok(h) => Ok(h.to_string()),
        Err(_) => Err(()),
    }
}

/// Relies on argon2::password_hash::PasswordHash::new to parse the stored
/// string and argon2::Argon2::verify_password to recompute and compare the
/// digest — together they decide exactly the relation named
/// `spec_password_matches`, deterministically in the password and the string.
#[verifier::external_body]
fn argon2_verify(password: &str, stored: &str) -> (r: bool)
    ensures
        r == spec_password_matches(password@, stored@),
{
    match PasswordHash::new(stored) {
        Ok(parsed) => argon2::Argon2::default().verify_password(password.as_bytes(), &parsed).is_ok(),
        Err(_) => false,
    }
}

/// Hashes a password into a storable PHC string. The returned string verifies
/// against exactly the password it was derived from; failure is reserved for
/// catastrophic environment trouble, is not an expected runtime path, and is
/// reported as the hasher's own error kind.
pub fn hash_password(password: &str) -> (r: AppResult<String>)
    ensures
        r matches Ok(h) ==> spec_password_matches(password@, h@),
        r matches Err(e) ==> e is PasswordHash,
{
    match argon2_hash(password) {
        Ok(h) => Ok(h),
        Err(_) => Err(AppError::PasswordHash),
    }
}

/// Verifies a password against a stored hash. Succeeds exactly when the
/// password matches; a wrong password and a malformed stored hash produce the
/// one generic credential error, deliberately indistinguishable.
pub fn verify_password(password: &str, password_hash: &str) -> (r: AppResult<()>)
    ensures
        r is Ok <==> spec_password_matches(password@, password_hash@),
        r matches Err(e) ==> (e matches AppError::Authentication(m) && m@
            == "Invalid credentials"@),
{
    if argon2_verify(password, password_hash) {
        Ok(())
    } else {
        Err(AppError::Authentication("Invalid credentials".to_owned()))
    }
}

} // verus!
