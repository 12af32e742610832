use vstd::prelude::*;

verus! {

/// The failure outcomes that the library itself can produce.
///
/// A failed credential check is not an error: it is an ordinary `false`
/// result, so that nothing about the failure leaks to the client.
#[derive(Clone, Copy, PartialEq, Eq, Structural, Debug)]
pub enum Error {
    /// A user with the given name is already registered.
    UserAlreadyExists,
    /// No user with the given name is registered.
    UserNotFound,
    /// A cryptographic primitive refused its input.
    Crypto,
    /// An image or code could not be rendered.
    Render,
}

impl Error {
    /// A short description, for display by a caller.
    pub fn message(&self) -> (r: &'static str)
        ensures
            r@.len() > 0,
    {
        let m = match self {
            Error::UserAlreadyExists => "user already exists",
            Error::UserNotFound => "user not found",
            Error::Crypto => "cryptographic operation failed",
            Error::Render => "rendering failed",
        };
        proof {
            reveal_strlit("user already exists");
            reveal_strlit("user not found");
            reveal_strlit("cryptographic operation failed");
            reveal_strlit("rendering failed");
        }
        m
    }
}

} // verus!
