use vstd::prelude::*;

verus! {

/// A user account, keyed by `username`.
///
/// `password_hash` is an Argon2id PHC string; the plaintext password and the
/// process-wide pepper are never stored. `totp_secret` holds the raw bytes of
/// the shared TOTP secret.
pub struct Model {
    pub username: String,
    pub password_hash: String,
    pub totp_secret: Vec<u8>,
}

} // verus!
