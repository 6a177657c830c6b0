//! Salted password hashes in the self-describing PHC string format (Argon2).
use argon2::password_hash::rand_core::OsRng;
use argon2::password_hash::{PasswordHash, PasswordHasher, PasswordVerifier, SaltString};
use vstd::prelude::*;
use vstd::utf8::encode_utf8;

verus! {

/// The longest password, in bytes, that Argon2 hashes.
pub const MAX_PASSWORD_BYTES: u64 = 0xFFFF_FFFF;

/// What Argon2 says of `plain` against the stored hash `encoded`: `None` when
/// `encoded` is not a usable PHC string, `Some(true)` when the password matches.
pub uninterp spec fn argon2_verdict(plain: Seq<char>, encoded: Seq<char>) -> Option<bool>;

/// Why a password was not accepted, or could not be hashed.
#[derive(Debug, Clone, Copy, PartialEq, Eq)]
pub enum PasswordError {
    /// The password does not match the stored hash.
    Mismatch,
    /// The stored hash cannot be parsed or used.
    MalformedHash,
    /// Hashing itself failed.
    HashFailure,
}

/// The outcome of checking `plain` against `encoded`.
pub open spec fn password_check(plain: Seq<char>, encoded: Seq<char>) -> Result<(), PasswordError> {
    match argon2_verdict(plain, encoded) {
        None => Err(PasswordError::MalformedHash),
        Some(true) => Ok(()),
        Some(false) => Err(PasswordError::Mismatch),
    }
}

/// Relies on argon2's `Argon2::hash_password` with default parameters and a salt
/// drawn by `SaltString::generate` from the OS random source; the PHC string it
/// returns verifies against the same password. Hashing refuses only passwords
/// longer than `argon2::MAX_PWD_LEN` bytes.
#[verifier::external_body]
fn argon2_hash(plain: &str) -> (r: Option<String>)
    ensures
        r matches Some(h) ==> argon2_verdict(plain@, h@) == Some(true),
        encode_utf8(plain@).len() <= MAX_PASSWORD_BYTES ==> r is Some,
{
    let salt = SaltString::generate(&mut OsRng);
    argon2::Argon2::default().hash_password(plain.as_bytes(), &salt).ok().map(|h| h.to_string())
}

/// Relies on `PasswordHash::new` to parse the stored string and on
/// `Argon2::verify_password`, which re-derives with the embedded parameters and
/// compares digests; `Error::Password` is its answer for a wrong password.
#[verifier::external_body]
fn argon2_verify(plain: &str, encoded: &str) -> (r: Option<bool>)
    ensures
        r == argon2_verdict(plain@, encoded@),
{
    let parsed = PasswordHash::new(encoded).ok()?;
    match argon2::Argon2::default().verify_password(plain.as_bytes(), &parsed) {
        Ok(()) => Some(true),
        Err(argon2::password_hash::Error::Password) => Some(false),
        Err(_) => None,
    }
}

/// Hashes `plain` under a fresh random salt. A hash it returns verifies
/// against `plain`; any password of at most `MAX_PASSWORD_BYTES` bytes is hashed.
pub fn hash_password(plain: &str) -> (r: Result<String, PasswordError>)
    ensures
        encode_utf8(plain@).len() <= MAX_PASSWORD_BYTES ==> r is Ok,
        r matches Ok(h) ==> password_check(plain@, h@) == Ok::<(), PasswordError>(()),
        r matches Err(e) ==> e == PasswordError::HashFailure,
{
    match argon2_hash(plain) {
        Some(h) => Ok(h),
        None => Err(PasswordError::HashFailure),
    }
}

/// Checks `plain` against the stored hash `encoded`.
pub fn verify_password(plain: &str, encoded: &str) -> (r: Result<(), PasswordError>)
    ensures
        r == password_check(plain@, encoded@),
{
    match argon2_verify(plain, encoded) {
        None => Err(PasswordError::MalformedHash),
        Some(true) => Ok(()),
        Some(false) => Err(PasswordError::Mismatch),
    }
}

} // verus!
