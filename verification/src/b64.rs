//! Transport encoding of token blobs: standard base64 with padding, supplied
//! by the `base64` crate.
//!
//! `b64_of` and `b64_decode` name what the two calls return; the wrappers
//! state the round trip the token service builds on.

use base64::Engine;
use vstd::prelude::*;

verus! {

/// The base64 text (standard alphabet, padded) that encoding these bytes
/// produces.
pub uninterp spec fn b64_of(bytes: Seq<u8>) -> Seq<char>;

/// What base64 decoding returns for this text: the bytes for well-formed
/// text over the standard alphabet with valid padding, nothing otherwise.
pub uninterp spec fn b64_decode(text: Seq<char>) -> Option<Seq<u8>>;

/// Relies on `base64::engine::general_purpose::STANDARD` through
/// `base64::Engine::encode`: standard alphabet with padding; decoding the
/// result with the same engine returns the input bytes.
#[verifier::external_body]
pub(crate) fn b64_encode_exec(bytes: &Vec<u8>) -> (r: String)
    ensures
        r@ == b64_of(bytes@),
        b64_decode(r@) == Some(bytes@),
{
    base64::engine::general_purpose::STANDARD.encode(bytes.as_slice())
}

/// Relies on `base64::engine::general_purpose::STANDARD` through
/// `base64::Engine::decode`: returns the bytes exactly for well-formed input,
/// and rejects text outside the alphabet or with broken padding.
#[verifier::external_body]
pub(crate) fn b64_decode_exec(text: &str) -> (r: Option<Vec<u8>>)
    ensures
        match r {
            Some(v) => b64_decode(text@) == Some(v@),
            None => b64_decode(text@) is None,
        },
{
    base64::engine::general_purpose::STANDARD.decode(text).ok()
}

} // verus!
