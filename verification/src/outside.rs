//! Calls into other crates, each behind one function with a trusted contract.

use ed25519_dalek::Signer;
use sha2::Digest;
use vstd::prelude::*;
use zeroize::Zeroize;
use crate::json::{Json, JsonView, json_quoted};

verus! {

/// The instant that an RFC 3339 text denotes, in nanoseconds since the Unix
/// epoch; `None` for a text that `time` does not accept in that format.
pub uninterp spec fn rfc3339_nanos(text: Seq<char>) -> Option<i128>;

/// Calls `time::OffsetDateTime::parse` with the well-known format `Rfc3339` and
/// gives the instant as nanoseconds since the Unix epoch. The contract says that
/// the outcome depends on the text alone.
#[verifier::external_body]
pub(crate) fn parse_rfc3339(text: &str) -> (r: Option<i128>)
    ensures
        r == rfc3339_nanos(text@),
{
    match time::OffsetDateTime::parse(text, &time::format_description::well_known::Rfc3339) {
        Ok(instant) => Some(instant.unix_timestamp_nanos()),
        Err(_) => None,
    }
}

/// The SHA-256 digest of some bytes.
pub uninterp spec fn sha256(bytes: Seq<u8>) -> Seq<u8>;

/// Calls `sha2::Sha256::digest`. The contract says that the digest depends on
/// the bytes alone and is 32 bytes long.
#[verifier::external_body]
pub(crate) fn sha256_digest(bytes: &[u8]) -> (r: Vec<u8>)
    ensures
        r@ == sha256(bytes@),
        r@.len() == 32,
{
    sha2::Sha256::digest(bytes).to_vec()
}

/// Bytes as text, with a replacement character for what is not UTF-8.
pub uninterp spec fn utf8_lossy(bytes: Seq<u8>) -> Seq<char>;

/// Calls `String::from_utf8_lossy`. The contract says that the text depends on the
/// bytes alone.
#[verifier::external_body]
pub(crate) fn lossy_text(bytes: &[u8]) -> (r: String)
    ensures
        r@ == utf8_lossy(bytes@),
{
    String::from_utf8_lossy(bytes).into_owned()
}

/// `serde_json`'s own representation of a JSON value.
#[verifier::external_type_specification]
#[verifier::external_body]
pub struct ExJsonValue(serde_json::Value);

/// What `serde_json` makes of a text: a value, or the words of its error.
pub uninterp spec fn json_outcome(text: Seq<char>) -> Result<serde_json::Value, Seq<char>>;

/// Calls `serde_json::from_str` for a `serde_json::Value`. The contract says that
/// the outcome, with the words of the error, depends on the text alone.
#[verifier::external_body]
pub(crate) fn read_json(text: &str) -> (r: Result<serde_json::Value, String>)
    ensures
        match json_outcome(text@) {
            Ok(value) => r is Ok && r->Ok_0 == value,
            Err(words) => r is Err && r->Err_0@ == words,
        },
{
    match serde_json::from_str::<serde_json::Value>(text) {
        Ok(value) => Ok(value),
        Err(error) => Err(error.to_string()),
    }
}

/// The tree of a `serde_json::Value`: its variants one for one, a number by the
/// text that `serde_json` prints for it.
pub uninterp spec fn json_tree(value: serde_json::Value) -> JsonView;

/// Takes a `serde_json::Value` apart, variant by variant, with
/// `serde_json::Number`'s `to_string` for a number. The contract says that the
/// tree depends on the value alone.
#[verifier::external_body]
pub(crate) fn json_of(value: serde_json::Value) -> (r: Json)
    ensures
        r.deep_view() == json_tree(value),
{
    match value {
        serde_json::Value::Null => Json::Null,
        serde_json::Value::Bool(b) => Json::Bool(b),
        serde_json::Value::Number(n) => Json::Number(n.to_string()),
        serde_json::Value::String(s) => Json::Text(s),
        serde_json::Value::Array(a) => Json::List(a.into_iter().map(json_of).collect()),
        serde_json::Value::Object(o) => Json::Object(
            o.into_iter().map(|(k, v)| (k, json_of(v))).collect(),
        ),
    }
}

/// Calls `serde_json::to_string` on a text, which never fails for one. The contract
/// says that the text is put in quotes, with a quote, a backslash and each character
/// below the space escaped, by the table that `serde_json` has for it.
#[verifier::external_body]
pub(crate) fn json_quote(text: &str) -> (r: String)
    ensures
        r@ == json_quoted(text@),
{
    serde_json::to_string(text).unwrap_or_default()
}

/// What `serde_json` makes of bytes: a value, or the words of its error.
pub uninterp spec fn json_bytes_outcome(bytes: Seq<u8>) -> Result<serde_json::Value, Seq<char>>;

/// Calls `serde_json::from_slice` for a `serde_json::Value`. The contract says that
/// the outcome, with the words of the error, depends on the bytes alone.
#[verifier::external_body]
pub(crate) fn read_json_bytes(bytes: &[u8]) -> (r: Result<serde_json::Value, String>)
    ensures
        match json_bytes_outcome(bytes@) {
            Ok(value) => r is Ok && r->Ok_0 == value,
            Err(words) => r is Err && r->Err_0@ == words,
        },
{
    match serde_json::from_slice::<serde_json::Value>(bytes) {
        Ok(value) => Ok(value),
        Err(error) => Err(error.to_string()),
    }
}

/// The words of the error for bytes that are not UTF-8.
pub uninterp spec fn utf8_error(bytes: Seq<u8>) -> Seq<char>;

/// Calls `std::str::from_utf8`. The contract says that bytes which are UTF-8 give
/// the text that they encode, and that all others give an error whose words depend
/// on the bytes alone.
#[verifier::external_body]
pub(crate) fn read_utf8(bytes: &[u8]) -> (r: Result<String, String>)
    ensures
        if vstd::utf8::valid_utf8(bytes@) {
            r is Ok && r->Ok_0@ == vstd::utf8::decode_utf8(bytes@)
        } else {
            r is Err && r->Err_0@ == utf8_error(bytes@)
        },
{
    match std::str::from_utf8(bytes) {
        Ok(text) => Ok(text.to_string()),
        Err(error) => Err(error.to_string()),
    }
}

/// Whether 32 bytes are an Ed25519 public key.
pub uninterp spec fn is_public_key(bytes: Seq<u8>) -> bool;

/// Calls `ed25519_dalek::VerifyingKey::from_bytes`. The contract says that the
/// bytes alone decide whether it accepts them.
#[verifier::external_body]
pub(crate) fn check_public_key(bytes: &[u8]) -> (r: bool)
    requires
        bytes@.len() == 32,
    ensures
        r == is_public_key(bytes@),
{
    let mut key = [0u8; 32];
    key.copy_from_slice(bytes);
    ed25519_dalek::VerifyingKey::from_bytes(&key).is_ok()
}

/// The Ed25519 public key of a secret of 32 bytes.
pub uninterp spec fn public_key_of(secret: Seq<u8>) -> Seq<u8>;

/// Calls `ed25519_dalek::SigningKey::verifying_key` on the key of a secret. The
/// contract says that the public key depends on the secret alone, is 32 bytes long,
/// and is accepted as a public key: it is the encoding of a point of the curve.
#[verifier::external_body]
pub(crate) fn derive_public_key(secret: &[u8]) -> (r: Vec<u8>)
    requires
        secret@.len() == 32,
    ensures
        r@ == public_key_of(secret@),
        r@.len() == 32,
        is_public_key(r@),
{
    let mut key = [0u8; 32];
    key.copy_from_slice(secret);
    ed25519_dalek::SigningKey::from_bytes(&key).verifying_key().to_bytes().to_vec()
}

/// The Ed25519 signature of a message under a secret of 32 bytes.
pub uninterp spec fn signature_of(secret: Seq<u8>, message: Seq<u8>) -> Seq<u8>;

/// Whether the first half of a signature encodes the neutral point of the curve.
pub open spec fn commits_to_nothing(signature: Seq<u8>) -> bool {
    &&& signature.len() == 64
    &&& signature[0] == 1
    &&& forall|i: int| 1 <= i < 32 ==> signature[i] == 0
}

/// Calls `ed25519_dalek::SigningKey::sign`. Ed25519 signs without chance: the
/// contract says that the signature depends on the secret and the message alone,
/// that it is 64 bytes long, and that `VerifyingKey::verify_strict` accepts it under
/// the key of the same secret. The one signature that it does not accept is that
/// which commits to the neutral point: a strict check refuses every point of small
/// order, and a signature commits to a multiple of the base point, of which only
/// the neutral point is one. A clamped secret never gives a key of small order.
#[verifier::external_body]
pub(crate) fn sign_message(secret: &[u8], message: &[u8]) -> (r: Vec<u8>)
    requires
        secret@.len() == 32,
    ensures
        r@ == signature_of(secret@, message@),
        r@.len() == 64,
        commits_to_nothing(r@) || signature_holds(public_key_of(secret@), message@, r@),
{
    let mut key = [0u8; 32];
    key.copy_from_slice(secret);
    ed25519_dalek::SigningKey::from_bytes(&key).sign(message).to_bytes().to_vec()
}

/// Whether a signature of 64 bytes holds for a message under a public key.
pub uninterp spec fn signature_holds(
    public: Seq<u8>,
    message: Seq<u8>,
    signature: Seq<u8>,
) -> bool;

/// Calls `ed25519_dalek::VerifyingKey::verify_strict`, with a key that
/// `VerifyingKey::from_bytes` has accepted. The contract says that the key, the
/// message and the signature alone decide.
#[verifier::external_body]
pub(crate) fn check_signature(public: &[u8], message: &[u8], signature: &[u8]) -> (r: bool)
    requires
        public@.len() == 32,
        signature@.len() == 64,
        is_public_key(public@),
    ensures
        r == signature_holds(public@, message@, signature@),
{
    let mut key = [0u8; 32];
    key.copy_from_slice(public);
    let mut bytes = [0u8; 64];
    bytes.copy_from_slice(signature);
    match ed25519_dalek::VerifyingKey::from_bytes(&key) {
        Ok(key) => key.verify_strict(message, &ed25519_dalek::Signature::from_bytes(&bytes)).is_ok(),
        Err(_) => false,
    }
}

/// Calls `zeroize::Zeroize::zeroize` on bytes, which overwrites them and leaves
/// none. The contract says that none are left.
#[verifier::external_body]
pub(crate) fn wipe(bytes: &mut Vec<u8>)
    ensures
        final(bytes)@.len() == 0,
{
    bytes.zeroize();
}

} // verus!
