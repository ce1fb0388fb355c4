//! What this library takes from the decoders of a captured body: text from
//! `encoding_rs`, structured data from `serde_json`. None of the contracts in
//! this file is proved.

use vstd::prelude::*;
use vstd::utf8::valid_utf8;

verus! {

/// `serde_json::Value`.
#[verifier::external_type_specification]
#[verifier::external_body]
pub struct ExJsonValue(serde_json::Value);

/// `serde_json::Error`.
#[verifier::external_type_specification]
#[verifier::external_body]
pub struct ExJsonError(serde_json::Error);

/// The text that `encoding_rs` decodes from bytes taken as UTF-8: a byte order
/// mark at the start is taken off (and decides, where it is one of UTF-16, how
/// the rest is read), and what is malformed becomes U+FFFD.
pub uninterp spec fn utf8_decoded(bytes: Seq<u8>) -> Seq<char>;

/// The most bytes that are handed to the decoder. It sizes its buffer at up to
/// three times the input and a few bytes, rounded up to a power of two, and
/// panics where a buffer cannot be that long.
pub open spec fn decodable(len: nat) -> bool {
    len <= usize::MAX / 8
}

/// Bytes without the byte order mark of UTF-8, where they start with it.
pub open spec fn without_mark(bytes: Seq<u8>) -> Seq<u8> {
    if bytes.len() >= 3 && bytes[0] == 0xEF && bytes[1] == 0xBB && bytes[2] == 0xBF {
        bytes.skip(3)
    } else {
        bytes
    }
}

/// `Encoding::decode` of `encoding_rs::UTF_8`, the text as a `String`. Bytes
/// that are well-formed UTF-8 give the characters they encode, without the
/// byte order mark.
#[verifier::external_body]
pub(crate) fn decode_utf8(bytes: &[u8]) -> (text: String)
    requires
        decodable(bytes@.len()),
    ensures
        text@ == utf8_decoded(bytes@),
        valid_utf8(bytes@) ==> text@ == vstd::utf8::decode_utf8(without_mark(bytes@)),
{
    encoding_rs::UTF_8.decode(bytes).0.into_owned()
}

/// What `serde_json` reads from bytes as one JSON value: the value, or why the
/// bytes are none.
pub uninterp spec fn json_parsed(bytes: Seq<u8>) -> Result<serde_json::Value, serde_json::Error>;

/// `serde_json::from_slice`, read as a `serde_json::Value`.
#[verifier::external_body]
pub(crate) fn parse_json(bytes: &[u8]) -> (r: Result<serde_json::Value, serde_json::Error>)
    ensures
        r == json_parsed(bytes@),
{
    serde_json::from_slice::<serde_json::Value>(bytes)
}

/// The text of a JSON error: what its `Display` writes.
pub uninterp spec fn json_failure_text(e: serde_json::Error) -> Seq<char>;

/// The `Display` of `serde_json::Error`, as a string.
#[verifier::external_body]
pub(crate) fn describe_json_failure(e: &serde_json::Error) -> (text: String)
    ensures
        text@ == json_failure_text(*e),
{
    format!("{}", e)
}

} // verus!
