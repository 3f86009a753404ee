//! Password hashing, delegated to the bcrypt, pbkdf2 and sha-crypt crates.
//!
//! Each algorithm is a one-shot pair: `hash_*` turns a password into a digest
//! string (salted from the operating system's randomness, so nothing can be
//! promised about the digest beyond its shape), and `verify_*` decides
//! whether a password matches a digest, a decision that depends on the two
//! strings alone. Failures inside the crates surface as opaque errors.

use pbkdf2::password_hash::rand_core::OsRng;
use pbkdf2::password_hash::{PasswordHash, PasswordHasher, PasswordVerifier, SaltString};
use pbkdf2::Pbkdf2;
use sha_crypt::{sha512_check, sha512_simple, Sha512Params};
use vstd::prelude::*;

use crate::text::append_str;

verus! {

/// Which hashing algorithm reported a failure.
#[derive(Debug, Clone, Copy, PartialEq, Eq, Structural)]
pub enum HashError {
    /// The bcrypt crate failed to hash or verify.
    Bcrypt,
    /// The pbkdf2 crate failed to hash, or the digest could not be parsed.
    Pbkdf2,
    /// The sha-crypt crate failed to set up or hash.
    Sha512,
}

/// The text that describes a hashing error to a person.
pub open spec fn spec_hash_error_message(e: HashError) -> Seq<char> {
    match e {
        HashError::Bcrypt => "Failed to hash or verify using bcrypt."@,
        HashError::Pbkdf2 => "Failed to hash or verify using PBKDF2."@,
        HashError::Sha512 => "Failed to hash or verify using SHA-512."@,
    }
}

impl HashError {
    /// The human-readable description of the error.
    pub fn message(&self) -> (m: String)
        ensures
            m@ == spec_hash_error_message(*self),
    {
        let mut m = String::new();
        match self {
            HashError::Bcrypt => append_str(&mut m, "Failed to hash or verify using bcrypt."),
            HashError::Pbkdf2 => append_str(&mut m, "Failed to hash or verify using PBKDF2."),
            HashError::Sha512 => append_str(&mut m, "Failed to hash or verify using SHA-512."),
        }
        m
    }
}

/// What bcrypt decides when the password is checked against the digest: a
/// function of the two strings alone.
pub uninterp spec fn bcrypt_match(password: Seq<char>, digest: Seq<char>) -> bool;

/// What PBKDF2 decides when the password is checked against the digest: a
/// function of the two strings alone.
pub uninterp spec fn pbkdf2_match(password: Seq<char>, digest: Seq<char>) -> bool;

/// What SHA-512-crypt decides when the password is checked against the
/// digest: a function of the two strings alone.
pub uninterp spec fn sha512_match(password: Seq<char>, digest: Seq<char>) -> bool;

/// Relies on `bcrypt::hash` with the crate's default cost: hashes the
/// password with a fresh random salt. A digest is always 60 characters long,
/// and it verifies against the password it was made from: `bcrypt::verify`
/// recomputes the hash from the salt and cost embedded in the digest, with
/// the same truncation `bcrypt::hash` applies. The salt is random, so
/// nothing more is known of the digest itself.
#[verifier::external_body]
pub fn hash_bcrypt(password: &str) -> (r: Result<String, HashError>)
    ensures
        r matches Ok(digest) ==> digest@.len() == 60,
        r matches Ok(digest) ==> bcrypt_match(password@, digest@),
{
    bcrypt::hash(password, bcrypt::DEFAULT_COST).map_err(|_| HashError::Bcrypt)
}

/// Relies on `bcrypt::verify`: decides whether the password matches the
/// digest; the decision depends on the two strings alone.
#[verifier::external_body]
pub fn verify_bcrypt(password: &str, hashed: &str) -> (r: Result<bool, HashError>)
    ensures
        r matches Ok(b) ==> b == bcrypt_match(password@, hashed@),
{
    bcrypt::verify(password, hashed).map_err(|_| HashError::Bcrypt)
}

/// Relies on the pbkdf2 crate's `PasswordHasher` implementation with a salt
/// from the operating system's randomness. The digest verifies against the
/// password it was made from: the crate's `PasswordVerifier` recomputes the
/// hash from the algorithm, parameters and salt embedded in the digest. The
/// salt is random, so nothing more is known of the digest itself.
#[verifier::external_body]
pub fn hash_pbkdf2(password: &str) -> (r: Result<String, HashError>)
    ensures
        r matches Ok(digest) ==> pbkdf2_match(password@, digest@),
{
    let salt = SaltString::generate(&mut OsRng);
    match Pbkdf2.hash_password(password.as_bytes(), &salt) {
        Ok(h) => Ok(h.to_string()),
        Err(_) => Err(HashError::Pbkdf2),
    }
}

/// Relies on `PasswordHash::new` and the pbkdf2 crate's `PasswordVerifier`
/// implementation: decides whether the password matches the digest; the
/// decision depends on the two strings alone. A digest that cannot be parsed
/// is an error.
#[verifier::external_body]
pub fn verify_pbkdf2(password: &str, hashed: &str) -> (r: Result<bool, HashError>)
    ensures
        r matches Ok(b) ==> b == pbkdf2_match(password@, hashed@),
{
    let parsed = match PasswordHash::new(hashed) {
        Ok(p) => p,
        Err(_) => return Err(HashError::Pbkdf2),
    };
    Ok(Pbkdf2.verify_password(password.as_bytes(), &parsed).is_ok())
}

/// Relies on `sha_crypt::sha512_simple` with the crate's default rounds and
/// a fresh random salt. With the default rounds the call has no failure
/// path, so this always succeeds, and the digest verifies against the
/// password it was made from: `sha512_check` recomputes the hash from the
/// salt and rounds embedded in the digest. The salt is random, so nothing
/// more is known of the digest itself.
#[verifier::external_body]
pub fn hash_sha512(password: &str) -> (r: Result<String, HashError>)
    ensures
        r is Ok,
        r matches Ok(digest) ==> sha512_match(password@, digest@),
{
    let params = match Sha512Params::new(sha_crypt::ROUNDS_DEFAULT) {
        Ok(p) => p,
        Err(_) => return Err(HashError::Sha512),
    };
    match sha512_simple(password, &params) {
        Ok(h) => Ok(h),
        Err(_) => Err(HashError::Sha512),
    }
}

/// Relies on `sha_crypt::sha512_check`: decides whether the password matches
/// the digest; the decision depends on the two strings alone.
#[verifier::external_body]
pub fn verify_sha512(password: &str, hashed: &str) -> (r: Result<bool, HashError>)
    ensures
        r is Ok,
        r matches Ok(b) ==> b == sha512_match(password@, hashed@),
{
    Ok(sha512_check(password, hashed).is_ok())
}

} // verus!
