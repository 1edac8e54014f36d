//! Trusted boundary to the `base64` crate, standard alphabet with padding.
//! The encoded form of a byte sequence is given a name rather than a
//! definition: the contracts state only what the crate documents — the
//! encoding is a function of the bytes alone, decoding inverts it, and the
//! empty input maps to the empty output.

use vstd::prelude::*;
use base64::Engine;
use base64::engine::general_purpose::STANDARD;

verus! {

/// What standard base64 encoding prints for a byte sequence.
pub uninterp spec fn b64_of(bytes: Seq<u8>) -> Seq<char>;

/// What standard base64 decoding yields for a string: the bytes, or none
/// when the string is not valid padded base64.
pub uninterp spec fn b64_decoded(s: Seq<char>) -> Option<Seq<u8>>;

/// Relies on `Engine::encode` of the `base64` crate with the `STANDARD`
/// engine: the output depends on the input bytes alone, decodes back to
/// exactly the input, and is empty exactly when the input is empty.
#[verifier::external_body]
pub(crate) fn b64_encode(bytes: &Vec<u8>) -> (r: String)
    ensures
        r@ == b64_of(bytes@),
        b64_decoded(r@) == Some(bytes@),
        r@.len() == 0 <==> bytes@.len() == 0,
{
    STANDARD.encode(bytes)
}

/// Relies on `Engine::decode` of the `base64` crate with the `STANDARD`
/// engine: success and the decoded bytes depend on the input characters
/// alone, and the empty string decodes to no bytes.
#[verifier::external_body]
pub(crate) fn b64_decode(s: &str) -> (r: Option<Vec<u8>>)
    ensures
        r is Some <==> b64_decoded(s@) is Some,
        r matches Some(b) ==> b64_decoded(s@) == Some(b@),
        r matches Some(b) ==> (s@.len() == 0 ==> b@.len() == 0),
        r is None ==> s@.len() != 0,
{
    STANDARD.decode(s).ok()
}

} // verus!
