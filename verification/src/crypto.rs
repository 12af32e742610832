//! Trusted wrappers around the cryptographic primitives: SHA-512 for pepper
//! derivation, Argon2id for password hashing, HMAC-SHA1 TOTP codes, and the
//! process random source.
//!
//! Each wrapper's contract names what the outside call computes; nothing else
//! in the crate is taken on trust.

use vstd::prelude::*;

use argon2::password_hash::SaltString;
use argon2::Argon2;
use argon2::PasswordHash;
use argon2::PasswordHasher;
use argon2::PasswordVerifier;
use rand::RngCore;
use sha2::Digest;

verus! {

/// The SHA-512 digest of a string's bytes: how the configured cluster secret
/// is stretched into the process-wide pepper and the session signing key.
pub uninterp spec fn sha512_of(s: Seq<char>) -> Seq<u8>;

/// Relies on sha2::Sha512: a 64-byte digest determined by the input alone.
#[verifier::external_body]
pub fn sha512(data: &str) -> (r: Vec<u8>)
    ensures
        r@ == sha512_of(data@),
        r@.len() == 64,
{
    let mut hasher = sha2::Sha512::new();
    hasher.update(data.as_bytes());
    hasher.finalize().to_vec()
}

/// Whether Argon2id verification of `password` against the PHC string `hash`
/// succeeds under the given pepper. A PHC string that does not parse counts
/// as a mismatch.
pub uninterp spec fn argon2_verify_of(pepper: Seq<u8>, hash: Seq<char>, password: Seq<char>) -> bool;

/// Relies on argon2::PasswordHash::new and argon2::Argon2::verify_password:
/// deterministic in the pepper, the stored PHC string and the submitted
/// password. Every parse or verifier error is reported as a mismatch, never
/// propagated.
#[verifier::external_body]
pub fn verify_password_with_pepper(pepper: &[u8], hash: &str, password: &str) -> (r: bool)
    ensures
        r == argon2_verify_of(pepper@, hash@, password@),
{
    let parsed = match PasswordHash::new(hash) {
        Ok(h) => h,
        Err(_) => return false,
    };
    let hasher = match Argon2::new_with_secret(
        pepper,
        argon2::Algorithm::Argon2id,
        argon2::Version::V0x13,
        argon2::Params::default(),
    ) {
        Ok(h) => h,
        Err(_) => return false,
    };
    hasher.verify_password(password.as_bytes(), &parsed).is_ok()
}

/// Relies on argon2::Argon2::hash_password with a fresh random 16-byte salt:
/// the produced Argon2id PHC string verifies against the same pepper and
/// password, and the call only fails on inputs far beyond the stated bounds.
#[verifier::external_body]
pub fn hash_password_with_pepper(pepper: &[u8], password: &str) -> (r: Option<String>)
    ensures
        r matches Some(h) ==> argon2_verify_of(pepper@, h@, password@),
        pepper@.len() <= 0xffff && password@.len() <= 0xffff ==> r is Some,
{
    let salt = SaltString::generate(&mut rand::thread_rng());
    let hasher = match Argon2::new_with_secret(
        pepper,
        argon2::Algorithm::Argon2id,
        argon2::Version::V0x13,
        argon2::Params::default(),
    ) {
        Ok(h) => h,
        Err(_) => return None,
    };
    match hasher.hash_password(password.as_bytes(), &salt) {
        Ok(h) => Some(h.to_string()),
        Err(_) => None,
    }
}

/// The six-digit TOTP code for a secret at a moment, per RFC 6238 with
/// HMAC-SHA1, a 30-second step and 6 decimal digits.
pub uninterp spec fn totp_of(secret: Seq<u8>, seconds: u64) -> Seq<char>;

/// Relies on totp_lite::totp_custom::<Sha1>: deterministic in the secret and
/// the time, and zero-padded to exactly six characters.
#[verifier::external_body]
pub fn totp_code(secret: &[u8], seconds: u64) -> (r: String)
    ensures
        r@ == totp_of(secret@, seconds),
        r@.len() == 6,
{
    totp_lite::totp_custom::<totp_lite::Sha1>(totp_lite::DEFAULT_STEP, 6, secret, seconds)
}

/// Relies on rand::thread_rng's RngCore::fill_bytes: fills the whole buffer,
/// so exactly `n` fresh random bytes come back. Nothing is assumed about
/// their values.
#[verifier::external_body]
pub fn random_bytes(n: usize) -> (r: Vec<u8>)
    ensures
        r@.len() == n,
{
    let mut buf = vec![0u8; n];
    rand::thread_rng().fill_bytes(&mut buf);
    buf
}

} // verus!
