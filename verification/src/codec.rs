//! The Base64 codec wrapper: encoding is total; decoding distinguishes three
//! failure kinds — input the classifier rejects outright, input that fails
//! strict Base64 decoding, and decoded bytes that are not UTF-8 text.

use vstd::prelude::*;
use vstd::utf8::{decode_utf8, encode_utf8, valid_utf8};
use crate::classifier::{all_base64_chars, is_likely_base64, likely_base64};
use base64::Engine;

verus! {

broadcast use
    vstd::utf8::encode_utf8_valid_utf8,
    vstd::utf8::encode_utf8_decode_utf8,
    vstd::utf8::decode_utf8_encode_utf8;

/// Why an operation failed; every failure is reported to the caller, none is
/// recovered internally.
#[derive(Debug, PartialEq, Eq)]
pub enum ErrorKind {
    /// The argument list was empty.
    NoInput,
    /// The command name is neither `encode` nor `decode`; carries the name.
    UnknownCommand(String),
    /// The decode input failed the classifier pre-check.
    NotBase64,
    /// The decode input passed the classifier but failed strict Base64
    /// decoding; carries the codec's diagnostic message.
    MalformedBase64(String),
    /// The decoded bytes are not valid UTF-8 text.
    NotUtf8,
}

/// The Base64 text that the standard engine produces for a byte sequence.
pub uninterp spec fn base64_of(bytes: Seq<u8>) -> Seq<char>;

/// What strict Base64 decoding makes of a string: the bytes it encodes, or
/// nothing when the string is not well-formed padded Base64.
pub uninterp spec fn base64_decoded(s: Seq<char>) -> Option<Seq<u8>>;

/// Relies on `base64::engine::general_purpose::STANDARD.encode` (RFC 4648,
/// standard alphabet, `=` padding): the output takes four characters for
/// every three input bytes, rounded up, all drawn from the Base64 alphabet
/// and padding, and the same engine's strict decode returns exactly the
/// input bytes. The length bound keeps the engine's internal size
/// computation from overflowing `usize`.
#[verifier::external_body]
fn base64_encode_bytes(bytes: &[u8]) -> (r: String)
    requires
        bytes@.len() < usize::MAX / 2,
    ensures
        r@ == base64_of(bytes@),
        r@.len() == 4 * ((bytes@.len() + 2) / 3),
        all_base64_chars(r@),
        base64_decoded(r@) == Some(bytes@),
{
    base64::engine::general_purpose::STANDARD.encode(bytes)
}

/// Relies on `base64::engine::general_purpose::STANDARD.decode`: strict
/// RFC 4648 decoding, a function of the input characters alone; on failure
/// the error's display text comes back as the diagnostic.
#[verifier::external_body]
fn base64_decode_str(input: &str) -> (r: Result<Vec<u8>, String>)
    ensures
        r matches Ok(v) ==> base64_decoded(input@) == Some(v@),
        r is Err ==> base64_decoded(input@) is None,
{
    match base64::engine::general_purpose::STANDARD.decode(input) {
        Ok(v) => Ok(v),
        Err(e) => Err(format!("{}", e)),
    }
}

/// Relies on `String::from_utf8`: it succeeds exactly on valid UTF-8 and
/// returns the text that the bytes encode.
#[verifier::external_body]
fn string_from_utf8(bytes: Vec<u8>) -> (r: Option<String>)
    ensures
        r is Some <==> valid_utf8(bytes@),
        r matches Some(s) ==> s@ == decode_utf8(bytes@),
{
    String::from_utf8(bytes).ok()
}

/// True when decoding `s` succeeds: the classifier accepts it, strict Base64
/// decoding accepts it, and the decoded bytes are UTF-8 text.
pub open spec fn decode_ok(s: Seq<char>) -> bool {
    &&& likely_base64(s)
    &&& base64_decoded(s) matches Some(b) && valid_utf8(b)
}

/// The text that a successful decode of `s` returns.
pub open spec fn decoded_text(s: Seq<char>) -> Seq<char>
    recommends
        decode_ok(s),
{
    match base64_decoded(s) {
        Some(b) => decode_utf8(b),
        None => Seq::empty(),
    }
}

/// Which failure a rejected decode of `s` reports: `NotBase64` when the
/// classifier rejects it, else `MalformedBase64` when strict decoding
/// rejects it, else `NotUtf8`.
pub open spec fn decode_error_kind(s: Seq<char>, e: ErrorKind) -> bool {
    if !likely_base64(s) {
        e == ErrorKind::NotBase64
    } else if base64_decoded(s) is None {
        e is MalformedBase64
    } else {
        e == ErrorKind::NotUtf8
    }
}

/// Encodes the UTF-8 bytes of `input` as Base64 with the standard alphabet
/// and `=` padding. Total over every text whose encoded length fits in
/// `usize`; the result always passes the classifier and decodes back to the
/// original bytes.
pub fn encode(input: &str) -> (r: String)
    requires
        encode_utf8(input@).len() < usize::MAX / 2,
    ensures
        r@ == base64_of(encode_utf8(input@)),
        r@.len() == 4 * ((encode_utf8(input@).len() + 2) / 3),
        likely_base64(r@),
        base64_decoded(r@) == Some(encode_utf8(input@)),
{
    let bytes = input.as_bytes();
    base64_encode_bytes(bytes)
}

/// Decodes Base64 `input` back to text. Succeeds exactly when the classifier
/// accepts the input, strict decoding accepts it, and the decoded bytes are
/// UTF-8; each of the three rejections reports its own error kind.
pub fn decode(input: &str) -> (r: Result<String, ErrorKind>)
    ensures
        r is Ok <==> decode_ok(input@),
        r matches Ok(t) ==> t@ == decoded_text(input@),
        r matches Ok(t) ==> encode_utf8(t@).len() <= usize::MAX,
        r matches Err(e) ==> decode_error_kind(input@, e),
{
    if !is_likely_base64(input) {
        return Err(ErrorKind::NotBase64);
    }
    let bytes = match base64_decode_str(input) {
        Ok(v) => v,
        Err(msg) => {
            return Err(ErrorKind::MalformedBase64(msg));
        },
    };
    let byte_count = bytes.len();
    match string_from_utf8(bytes) {
        Some(text) => {
            proof {
                assert(encode_utf8(text@).len() == byte_count);
            }
            Ok(text)
        },
        None => Err(ErrorKind::NotUtf8),
    }
}

/// Round trip: decoding the encoding of any text returns that text.
pub fn encode_decode_round_trip(input: &str) -> (r: Result<String, ErrorKind>)
    requires
        encode_utf8(input@).len() < usize::MAX / 2,
    ensures
        r matches Ok(t) && t@ == input@,
{
    let encoded = encode(input);
    decode(encoded.as_str())
}

} // verus!
