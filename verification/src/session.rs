//! The key that signs session cookies.

use base64::Engine;
use vstd::prelude::*;
use vstd::string::StringSliceAdditionalSpecFns;

verus! {

/// What the standard Base64 engine of the `base64` crate decodes `input`
/// to, or `None` where it reports an error.
pub uninterp spec fn base64_standard_decode(input: Seq<u8>) -> Option<Seq<u8>>;

/// Decodes `input` with `base64::prelude::BASE64_STANDARD`; an error
/// becomes `None`.  The claim is only that the answer is
/// `base64_standard_decode` of the input.
#[verifier::external_body]
pub(crate) fn decode_base64(input: &[u8]) -> (r: Option<Vec<u8>>)
    ensures
        match r {
            Some(v) => base64_standard_decode(input@) == Some(v@),
            None => base64_standard_decode(input@) is None,
        },
{
    base64::prelude::BASE64_STANDARD.decode(input).ok()
}

/// Whether `master` can be the master key of the cookie keys:
/// `actix_web::cookie::Key::try_from` (of the `cookie` crate) accepts
/// exactly the byte strings of at least 64 bytes.
#[verifier::external_body]
pub(crate) fn accepted_as_key(master: &[u8]) -> (b: bool)
    ensures
        b == (master@.len() >= 64),
{
    actix_web::cookie::Key::try_from(master).is_ok()
}

/// Why a configured session key cannot be used.
#[derive(Clone, Copy, Debug, PartialEq, Eq, Structural)]
pub enum InvalidSessionKey {
    /// It is not standard Base64.
    NotBase64,
    /// It decodes to fewer than 64 bytes, too few for a cookie key.
    TooShort,
}

/// Whether the Base64 text `encoded`, where it decodes, decodes to a key
/// long enough for the cookie keys (64 bytes or more).
pub open spec fn decodes_long_enough(encoded: Seq<u8>) -> bool {
    base64_standard_decode(encoded) matches Some(b) ==> b.len() >= 64
}

/// The bytes of the session key configured as `encoded`, in standard
/// Base64; an error where it is not Base64.  A key that decodes to fewer
/// than 64 bytes cannot make the cookie keys and is left out.
pub fn session_key(encoded: &str) -> (r: Result<Vec<u8>, InvalidSessionKey>)
    requires
        decodes_long_enough(encoded.spec_bytes()),
    ensures
        match r {
            Ok(v) => base64_standard_decode(encoded.spec_bytes()) == Some(v@) && v@.len() >= 64,
            Err(e) => e == InvalidSessionKey::NotBase64 && base64_standard_decode(
                encoded.spec_bytes(),
            ) is None,
        },
{
    match decode_base64(encoded.as_bytes()) {
        Some(bytes) => Ok(bytes),
        None => Err(InvalidSessionKey::NotBase64),
    }
}

/// The session key configured as `encoded`, checked first: `TooShort`
/// where it decodes to fewer than 64 bytes, and otherwise what
/// `session_key` gives.
pub fn checked_session_key(encoded: &str) -> (r: Result<Vec<u8>, InvalidSessionKey>)
    ensures
        match r {
            Ok(v) => base64_standard_decode(encoded.spec_bytes()) == Some(v@) && v@.len() >= 64,
            Err(InvalidSessionKey::NotBase64) => base64_standard_decode(encoded.spec_bytes()) is None,
            Err(InvalidSessionKey::TooShort) => base64_standard_decode(encoded.spec_bytes()) matches Some(
                b,
            ) && b.len() < 64,
        },
{
    match decode_base64(encoded.as_bytes()) {
        Some(bytes) => if accepted_as_key(bytes.as_slice()) {
            session_key(encoded)
        } else {
            Err(InvalidSessionKey::TooShort)
        },
        None => Err(InvalidSessionKey::NotBase64),
    }
}

} // verus!
