//! Trusted wrappers around the plain encoders: RFC 4648 base32 and base64,
//! and the percent-encoder used inside the TOTP provisioning URL.

use vstd::prelude::*;

use base64::Engine;

verus! {

/// RFC 4648 base32 with padding, as the TOTP secret appears in the
/// provisioning URL.
pub uninterp spec fn base32_of(data: Seq<u8>) -> Seq<char>;

/// Relies on base32::encode with the padded RFC 4648 alphabet: deterministic
/// in the input bytes, and empty only for empty input.
#[verifier::external_body]
pub fn base32_encode(data: &[u8]) -> (r: String)
    ensures
        r@ == base32_of(data@),
        data@.len() == 0 <==> r@.len() == 0,
{
    base32::encode(base32::Alphabet::RFC4648 { padding: true }, data)
}

/// Standard padded base64, as CSRF tokens and CAPTCHA images travel.
pub uninterp spec fn base64_of(data: Seq<u8>) -> Seq<char>;

/// Relies on base64's STANDARD engine: deterministic in the input bytes,
/// with the padded length 4 * ceil(n / 3).
#[verifier::external_body]
pub fn base64_encode(data: &[u8]) -> (r: String)
    ensures
        r@ == base64_of(data@),
        r@.len() == 4 * ((data@.len() + 2) / 3),
{
    base64::engine::general_purpose::STANDARD.encode(data)
}

/// Percent-encoding that keeps RFC 3986 unreserved characters and `/`, as
/// the issuer and username appear in the TOTP provisioning URL.
pub uninterp spec fn urlencoded_of(s: Seq<char>) -> Seq<char>;

/// Relies on askama's urlencode filter (percent-encoding with the RFC 3986
/// unreserved set plus `/` kept): deterministic in the input, and the filter
/// never fails on a string argument.
#[verifier::external_body]
pub fn urlencode(s: &str) -> (r: String)
    ensures
        r@ == urlencoded_of(s@),
{
    askama::filters::urlencode(s).unwrap_or_default()
}

} // verus!
