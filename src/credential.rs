//! Password credentials: salted argon2 hashes in PHC string form.
use vstd::prelude::*;
use vstd::string::StringSliceAdditionalSpecFns;
use argon2::password_hash::rand_core::OsRng;
use argon2::password_hash::SaltString;
use argon2::{PasswordHasher, PasswordVerifier};

verus! {

/// Whether a stored hash string parses as a PHC string.
pub uninterp spec fn phc_well_formed(hash: Seq<char>) -> bool;

/// Whether argon2, run with the algorithm, version, cost and salt that a PHC
/// string records, reproduces the digest it records for this password.
pub uninterp spec fn argon2_matches(password: Seq<char>, hash: Seq<char>) -> bool;

/// Largest password, in bytes, that argon2 accepts.
pub const MAX_PASSWORD_BYTES: u64 = 0xFFFF_FFFF;

#[derive(Clone, Copy, Debug, PartialEq, Eq, Structural)]
pub enum CredentialError {
    /// The stored hash is not a PHC string.
    InvalidHashFormat,
    /// The password could not be hashed.
    HashFailure,
}

/// What checking `password` against the stored `hash` yields.
pub open spec fn verify_outcome(password: Seq<char>, hash: Seq<char>) -> Result<bool, CredentialError> {
    if phc_well_formed(hash) {
        Ok(argon2_matches(password, hash))
    } else {
        Err(CredentialError::InvalidHashFormat)
    }
}

/// Relies on password_hash::PasswordHash::new (parses the PHC string) and,
/// when it parses, on argon2's PasswordVerifier::verify_password, which
/// recomputes the digest of the password's bytes with what the string records
/// and compares it with the recorded one.
#[verifier::external_body]
fn argon2_check(password: &str, hash: &str) -> (r: Option<bool>)
    ensures
        r is Some <==> phc_well_formed(hash@),
        r matches Some(b) ==> b == argon2_matches(password@, hash@),
{
    argon2::PasswordHash::new(hash).ok().map(
        |parsed| argon2::Argon2::default().verify_password(password.as_bytes(), &parsed).is_ok(),
    )
}

/// Relies on password_hash::SaltString::generate with OsRng (a fresh salt
/// from the operating system) and argon2's PasswordHasher::hash_password
/// under Argon2::default(), written out as a PHC string. Hashing fails only on
/// a password longer than argon2's limit; the string it writes parses, and
/// records the digest of this password.
#[verifier::external_body]
fn argon2_hash(password: &str) -> (r: Option<String>)
    ensures
        password.spec_bytes().len() <= MAX_PASSWORD_BYTES ==> r is Some,
        r matches Some(h) ==> phc_well_formed(h@) && argon2_matches(password@, h@),
{
    let salt = SaltString::generate(&mut OsRng);
    argon2::Argon2::default().hash_password(password.as_bytes(), &salt).ok().map(|h| h.to_string())
}

/// Checks a password against a stored hash. The comparison itself is the
/// argon2 library's; this fails only when the stored hash is malformed.
pub fn verify_password(password: &str, hash: &str) -> (r: Result<bool, CredentialError>)
    ensures
        r == verify_outcome(password@, hash@),
{
    match argon2_check(password, hash) {
        Some(matched) => Ok(matched),
        None => Err(CredentialError::InvalidHashFormat),
    }
}

/// Derives a salted hash of a password, with a fresh salt on every call.
/// Checking the same password against the result always succeeds.
pub fn hash_password(password: &str) -> (r: Result<String, CredentialError>)
    ensures
        password.spec_bytes().len() <= MAX_PASSWORD_BYTES ==> r is Ok,
        r matches Ok(h) ==> verify_outcome(password@, h@) == Ok::<bool, CredentialError>(true),
        r matches Err(e) ==> e == CredentialError::HashFailure,
{
    match argon2_hash(password) {
        Some(h) => Ok(h),
        None => Err(CredentialError::HashFailure),
    }
}

} // verus!
