//! Stored password hashes: PHC strings checked with Argon2.

use vstd::prelude::*;
use argon2::Argon2;
use password_hash::rand_core::{OsRng, RngCore};
use password_hash::{PasswordHash, PasswordHasher, PasswordVerifier, SaltString};
use vstd::utf8::encode_utf8;

verus! {

/// Whether a text is a PHC string that `password_hash` can parse.
pub uninterp spec fn phc_parses(phc: Seq<char>) -> bool;

/// Whether Argon2, with the algorithm, version, parameters and salt recorded in
/// the PHC string `phc`, derives from `password` the output stored there.
pub uninterp spec fn argon2_accepts(password: Seq<char>, phc: Seq<char>) -> bool;

/// Relies on `password_hash::PasswordHash::new`: it parses a PHC string, and
/// refuses the empty string before anything else.
#[verifier::external_body]
pub(crate) fn stored_hash_parses(phc: &str) -> (r: bool)
    ensures
        r == phc_parses(phc@),
        phc@.len() == 0 ==> !r,
{
    PasswordHash::new(phc).is_ok()
}

/// Relies on `PasswordVerifier::verify_password` for `argon2::Argon2`: it
/// recomputes the hash of `password` with the parameters and salt of the
/// parsed PHC string and compares the outputs.
#[verifier::external_body]
pub(crate) fn argon2_verify(password: &str, phc: &str) -> (r: bool)
    requires
        phc_parses(phc@),
    ensures
        r == argon2_accepts(password@, phc@),
{
    match PasswordHash::new(phc) {
        Ok(parsed) => Argon2::default().verify_password(password.as_bytes(), &parsed).is_ok(),
        Err(_) => false,
    }
}

/// Outcome of checking a password against a stored hash.
#[derive(Clone, Copy, Debug, PartialEq, Eq, Structural)]
pub enum PasswordCheck {
    Match,
    Mismatch,
    MalformedHash,
}

/// Checks `password` against the stored PHC string `phc`.
pub fn check_password(password: &str, phc: &str) -> (r: PasswordCheck)
    ensures
        r == if !phc_parses(phc@) {
            PasswordCheck::MalformedHash
        } else if argon2_accepts(password@, phc@) {
            PasswordCheck::Match
        } else {
            PasswordCheck::Mismatch
        },
{
    if !stored_hash_parses(phc) {
        PasswordCheck::MalformedHash
    } else if argon2_verify(password, phc) {
        PasswordCheck::Match
    } else {
        PasswordCheck::Mismatch
    }
}

/// The fewest salt bytes that hashing takes: Argon2's minimum salt length.
pub const MIN_SALT_BYTES: usize = 8;

/// The most salt bytes that hashing takes: the most whose B64 form fits a PHC
/// salt field.
pub const MAX_SALT_BYTES: usize = 48;

/// The salt has a length that hashing takes.
pub open spec fn salt_fits(salt: Seq<u8>) -> bool {
    MIN_SALT_BYTES <= salt.len() <= MAX_SALT_BYTES
}

/// The UTF-8 form of the password is within Argon2's length limit.
pub open spec fn password_fits(password: Seq<char>) -> bool {
    encode_utf8(password).len() <= u32::MAX
}

/// Why hashing a password gave no hash.
#[derive(Clone, Copy, Debug, PartialEq, Eq, Structural)]
pub enum HashError {
    /// The operating system's random source gave no salt.
    RandomSource,
    /// The salt is shorter or longer than hashing takes.
    BadSalt,
    /// The password is longer than Argon2 takes.
    PasswordTooLong,
}

/// Relies on `RngCore::try_fill_bytes` of `password_hash::rand_core::OsRng`:
/// on success, `Salt::RECOMMENDED_LENGTH` (sixteen) fresh random bytes.
/// Nothing is known of their values, nor whether the source answers.
#[verifier::external_body]
pub(crate) fn random_salt() -> (r: Option<Vec<u8>>)
    ensures
        match r {
            Some(bytes) => bytes@.len() == 16,
            None => true,
        },
{
    let mut bytes = vec![0u8; password_hash::Salt::RECOMMENDED_LENGTH];
    OsRng.try_fill_bytes(&mut bytes).ok().map(|_| bytes)
}

/// Relies on `SaltString::encode_b64` and `PasswordHasher::hash_password` for
/// `argon2::Argon2` with its default parameters. A salt of 8 to 48 bytes
/// encodes, and hashing then fails exactly for a password over `u32::MAX`
/// bytes.
/// The PHC string returned parses, and verifying the same password against it
/// recomputes the same output.
#[verifier::external_body]
fn argon2_hash(password: &str, salt: &[u8]) -> (r: Option<String>)
    requires
        salt_fits(salt@),
    ensures
        match r {
            Some(phc) => password_fits(password@) && phc_parses(phc@) && argon2_accepts(
                password@,
                phc@,
            ),
            None => !password_fits(password@),
        },
{
    let salt = SaltString::encode_b64(salt).ok()?;
    Argon2::default().hash_password(password.as_bytes(), &salt).ok().map(|h| h.to_string())
}

/// The PHC string of `plain` hashed with Argon2 under `salt`.
pub fn hash_password_with_salt(plain: &str, salt: &[u8]) -> (r: Result<String, HashError>)
    ensures
        match r {
            Ok(phc) => salt_fits(salt@) && password_fits(plain@)
                && phc_parses(phc@) && argon2_accepts(plain@, phc@),
            Err(HashError::BadSalt) => !(salt_fits(salt@)),
            Err(HashError::PasswordTooLong) => salt_fits(salt@)
                && !password_fits(plain@),
            Err(HashError::RandomSource) => false,
        },
{
    if salt.len() < MIN_SALT_BYTES || salt.len() > MAX_SALT_BYTES {
        return Err(HashError::BadSalt);
    }
    match argon2_hash(plain, salt) {
        Some(phc) => Ok(phc),
        None => Err(HashError::PasswordTooLong),
    }
}

/// A PHC string for `plain` under a fresh random salt. Only a silent random
/// source or an over-long password gives no hash.
pub fn hash_password(plain: &str) -> (r: Result<String, HashError>)
    ensures
        match r {
            Ok(phc) => password_fits(plain@) && phc_parses(phc@) && argon2_accepts(plain@, phc@),
            Err(HashError::PasswordTooLong) => !password_fits(plain@),
            Err(HashError::RandomSource) => true,
            Err(HashError::BadSalt) => false,
        },
{
    match random_salt() {
        Some(salt) => hash_password_with_salt(plain, salt.as_slice()),
        None => Err(HashError::RandomSource),
    }
}

} // verus!
