//! The trusted boundary of the library: declarations and thin wrappers for the
//! external collaborators — the byte helpers (base64, big-integer and UTF-8
//! codecs, SHA3), the compact-size encoder, JSON string arrays, and the
//! cryptographic signer. Each wrapper's contract states only what the outside
//! source shows; everything else in the crate is verified against these
//! contracts.

use vstd::prelude::*;
use vstd::utf8::{decode_utf8, valid_utf8};

use crate::codec::{frame, sbe_bytes, sbe_parse};

verus! {

/// The owner's signing-key handle, obtained from the durable store.
#[verifier::external_type_specification]
#[verifier::external_body]
pub struct ExSigner(mytiki_core_trail_storage::Signer);

/// The JSON text that `serde_json::to_string` produces for a vector of
/// strings.
pub uninterp spec fn json_strings_text(vs: Seq<Seq<char>>) -> Seq<char>;

/// The result of `serde_json::from_str::<Vec<String>>`: the parsed strings, or
/// `None` where the text is not a JSON array of strings.
pub uninterp spec fn json_strings_parse(s: Seq<char>) -> Option<Seq<Seq<char>>>;

/// The standard base64 text of a byte sequence.
pub uninterp spec fn b64_text(b: Seq<u8>) -> Seq<char>;

/// The result of standard base64 decoding: the bytes, or `None` where the
/// text is not valid base64.
pub uninterp spec fn b64_parse(s: Seq<char>) -> Option<Seq<u8>>;

/// The URL-safe, unpadded base64 text of a byte sequence.
pub uninterp spec fn b64url_text(b: Seq<u8>) -> Seq<char>;

/// The result of URL-safe base64 decoding.
pub uninterp spec fn b64url_parse(s: Seq<char>) -> Option<Seq<u8>>;

/// The SHA3-256 digest of a byte sequence.
pub uninterp spec fn sha3_digest(b: Seq<u8>) -> Seq<u8>;

/// Relies on `compact_size::encode`: it prepends exactly the compact-size
/// header of the payload's length (one byte up to 252, a `253` tag plus two
/// big-endian bytes up to `0xffff`, a `255` tag plus eight big-endian bytes
/// beyond).
#[verifier::external_body]
pub(crate) fn frame_bytes(b: &Vec<u8>) -> (r: Vec<u8>)
    ensures
        r@ == frame(b@),
{
    mytiki_core_trail_storage::utils::compact_size::encode(b.clone())
}

/// Relies on `byte_helpers::utf8_decode` (`String::from_utf8`): it succeeds
/// exactly on valid UTF-8 and returns the decoded characters.
#[verifier::external_body]
pub(crate) fn utf8_decode_bytes(b: &Vec<u8>) -> (r: Option<String>)
    ensures
        r is Some <==> valid_utf8(b@),
        r is Some ==> r->Some_0@ == decode_utf8(b@),
{
    mytiki_core_trail_storage::utils::byte_helpers::utf8_decode(b).ok()
}

/// Relies on `serde_json::to_string` for `Vec<String>`: serializing strings
/// never fails, and parsing the produced text gives the strings back.
#[verifier::external_body]
pub(crate) fn json_encode_strings(v: &Vec<String>) -> (r: String)
    ensures
        r@ == json_strings_text(v.deep_view()),
        json_strings_parse(r@) == Some(v.deep_view()),
{
    serde_json::to_string(v).unwrap_or_default()
}

/// Relies on `serde_json::from_str::<Vec<String>>`: the parse is a function of
/// the text alone.
#[verifier::external_body]
pub(crate) fn json_parse_strings(s: &str) -> (r: Option<Vec<String>>)
    ensures
        match r {
            Some(v) => json_strings_parse(s@) == Some(v.deep_view()),
            None => json_strings_parse(s@) is None,
        },
{
    serde_json::from_str::<Vec<String>>(s).ok()
}

/// Relies on `byte_helpers::base64_encode`: standard base64, whose decoder
/// inverts it.
#[verifier::external_body]
pub(crate) fn b64_encode(b: &Vec<u8>) -> (r: String)
    ensures
        r@ == b64_text(b@),
        b64_parse(r@) == Some(b@),
{
    mytiki_core_trail_storage::utils::byte_helpers::base64_encode(b)
}

/// Relies on `byte_helpers::base64_decode`: the parse is a function of the
/// text alone.
#[verifier::external_body]
pub(crate) fn b64_decode(s: &str) -> (r: Option<Vec<u8>>)
    ensures
        match r {
            Some(b) => b64_parse(s@) == Some(b@),
            None => b64_parse(s@) is None,
        },
{
    mytiki_core_trail_storage::utils::byte_helpers::base64_decode(s).ok()
}

/// Relies on `byte_helpers::base64url_encode`: URL-safe unpadded base64,
/// whose decoder inverts it.
#[verifier::external_body]
pub(crate) fn b64url_encode(b: &Vec<u8>) -> (r: String)
    ensures
        r@ == b64url_text(b@),
        b64url_parse(r@) == Some(b@),
{
    mytiki_core_trail_storage::utils::byte_helpers::base64url_encode(b)
}

/// Relies on `byte_helpers::base64url_decode`: the parse is a function of the
/// text alone.
#[verifier::external_body]
pub(crate) fn b64url_decode(s: &str) -> (r: Option<Vec<u8>>)
    ensures
        match r {
            Some(b) => b64url_parse(s@) == Some(b@),
            None => b64url_parse(s@) is None,
        },
{
    mytiki_core_trail_storage::utils::byte_helpers::base64url_decode(s).ok()
}

/// Relies on `byte_helpers::encode_bigint` (`BigInt::to_signed_bytes_be`):
/// the minimal big-endian two's-complement encoding of the value.
#[verifier::external_body]
pub(crate) fn sbe_encode(v: i64) -> (r: Vec<u8>)
    ensures
        r@ == sbe_bytes(v as int),
{
    mytiki_core_trail_storage::utils::byte_helpers::encode_bigint(&num_bigint::BigInt::from(v))
}

/// Relies on `byte_helpers::decode_bigint` (`BigInt::from_signed_bytes_be`)
/// and `i64::try_from`: the signed big-endian value of the bytes, where it
/// fits the machine integer.
#[verifier::external_body]
pub(crate) fn sbe_decode(b: &Vec<u8>) -> (r: Option<i64>)
    ensures
        r == sbe_parse(b@),
{
    i64::try_from(mytiki_core_trail_storage::utils::byte_helpers::decode_bigint(b)).ok()
}

/// Relies on `byte_helpers::sha3` (SHA3-256): a 32-byte digest, a function of
/// the message alone.
#[verifier::external_body]
pub(crate) fn sha3_hash(b: &Vec<u8>) -> (r: Vec<u8>)
    ensures
        r@ == sha3_digest(b@),
        r@.len() == 32,
{
    mytiki_core_trail_storage::utils::byte_helpers::sha3(b)
}

/// Relies on `Signer::sign` (RSA-PKCS1-SHA256 over the message with the
/// owner's key). Nothing is assumed of the signature bytes.
#[verifier::external_body]
pub(crate) fn signer_sign(
    signer: &mytiki_core_trail_storage::Signer,
    message: &Vec<u8>,
) -> (r: Option<Vec<u8>>) {
    signer.sign(message).ok()
}

} // verus!
