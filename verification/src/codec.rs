//! Text encodings that the wire format borrows from other crates.
//!
//! Nothing here is proved: each function states what the crate it calls is
//! known to do, and the rest of the library reasons from that statement.

use vstd::prelude::*;

verus! {

/// The JSON string literal for a text: the text between double quotes, with
/// the escapes that `serde_json` writes.
pub uninterp spec fn json_string_text(s: Seq<char>) -> Seq<char>;

/// The base64 text of a byte string in the standard alphabet with padding.
pub uninterp spec fn base64_standard_text(bytes: Seq<u8>) -> Seq<char>;

/// The error type of `serde_json`.
#[verifier::external_type_specification]
#[verifier::external_body]
pub struct ExJsonError(serde_json::Error);

/// Calls `serde_json::to_string` on a string slice.
///
/// Trusted: the call succeeds, and its result is the JSON string literal of
/// `s`, a function of the characters of `s` alone. It succeeds because a
/// `str` serializes itself as one string, which `to_string` writes into a
/// buffer in memory, and such a write cannot fail.
#[verifier::external_body]
pub(crate) fn json_string(s: &str) -> (r: Result<String, serde_json::Error>)
    ensures
        r is Ok,
        r.unwrap()@ == json_string_text(s@),
{
    serde_json::to_string(s)
}

/// Calls `base64::Engine::encode` on the engine
/// `base64::engine::general_purpose::STANDARD`.
///
/// Trusted: the result is the padded standard-alphabet base64 text of
/// `bytes`, a function of the bytes alone.
#[verifier::external_body]
pub(crate) fn base64_standard(bytes: &Vec<u8>) -> (r: String)
    ensures
        r@ == base64_standard_text(bytes@),
{
    base64::Engine::encode(&base64::engine::general_purpose::STANDARD, bytes)
}

} // verus!
