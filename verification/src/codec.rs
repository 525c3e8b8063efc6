//! Base58 and base64 text for byte strings.
//!
//! The encodings are the work of the `bs58` and `base64` crates. Each
//! function here makes one call into them; its contract is taken on trust
//! and names what the call returns.

use vstd::prelude::*;
use base64::Engine;
use crate::text::is_whitespace;

verus! {

#[verifier::external_type_specification]
#[verifier::external_body]
pub struct ExBase58DecodeError(bs58::decode::Error);

#[verifier::external_type_specification]
#[verifier::external_body]
pub struct ExBase64DecodeError(base64::DecodeError);

/// The base58 text (Bitcoin alphabet) that `bs58` writes for `bytes`.
pub uninterp spec fn base58_text(bytes: Seq<u8>) -> Seq<char>;

/// The bytes that `bs58` reads from `text`, `None` where it rejects the text.
pub uninterp spec fn base58_bytes(text: Seq<char>) -> Option<Seq<u8>>;

/// The padded standard base64 text that `base64` writes for `bytes`.
pub uninterp spec fn base64_text(bytes: Seq<u8>) -> Seq<char>;

/// The bytes that `base64` reads from padded standard base64 `text`, `None`
/// where it rejects the text.
pub uninterp spec fn base64_bytes(text: Seq<char>) -> Option<Seq<u8>>;

/// A character of the Bitcoin base58 alphabet: digits and letters without
/// `0`, `O`, `I` and `l`.
pub open spec fn is_base58_char(c: char) -> bool {
    ||| '1' <= c <= '9'
    ||| ('A' <= c <= 'Z' && c != 'I' && c != 'O')
    ||| ('a' <= c <= 'z' && c != 'l')
}

/// A character of padded standard base64: letters, digits, `+`, `/` and
/// the padding `=`.
pub open spec fn is_base64_char(c: char) -> bool {
    ||| 'A' <= c <= 'Z'
    ||| 'a' <= c <= 'z'
    ||| '0' <= c <= '9'
    ||| c == '+'
    ||| c == '/'
    ||| c == '='
}

/// No character of base58 is white space.
pub proof fn lemma_base58_char_not_whitespace(c: char)
    requires
        is_base58_char(c),
    ensures
        !is_whitespace(c),
{
}

/// No character of base64 is white space.
pub proof fn lemma_base64_char_not_whitespace(c: char)
    requires
        is_base64_char(c),
    ensures
        !is_whitespace(c),
{
}

/// The length of the padded base64 text of `n` bytes: four characters for
/// every three bytes begun.
pub open spec fn base64_len(n: nat) -> nat {
    4 * ((n + 2) / 3)
}

/// Whether `text` is `bytes` in base58: the text the encoder writes, made of
/// the alphabet, empty only for no bytes, and read back as the same bytes.
pub open spec fn base58_of(text: Seq<char>, bytes: Seq<u8>) -> bool {
    &&& text == base58_text(bytes)
    &&& base58_bytes(text) == Some(bytes)
    &&& forall|i: int| 0 <= i < text.len() ==> is_base58_char(#[trigger] text[i])
    &&& bytes.len() > 0 ==> text.len() > 0
}

/// Whether `text` is `bytes` in padded standard base64: the text the encoder
/// writes, made of base64 characters, of the length the padding fixes, and
/// read back as the same bytes.
pub open spec fn base64_of(text: Seq<char>, bytes: Seq<u8>) -> bool {
    &&& text == base64_text(bytes)
    &&& base64_bytes(text) == Some(bytes)
    &&& forall|i: int| 0 <= i < text.len() ==> is_base64_char(#[trigger] text[i])
    &&& text.len() == base64_len(bytes.len())
}

/// `bs58::encode(bytes).into_string()`.
///
/// Trusted: the result is the text named `base58_text`; it is made of
/// characters of the alphabet, is empty only for no bytes, and `bs58` reads
/// the same bytes back from it.
#[verifier::external_body]
pub(crate) fn base58_encode(bytes: &[u8]) -> (text: String)
    ensures
        text@ == base58_text(bytes@),
        base58_bytes(text@) == Some(bytes@),
        forall|i: int| 0 <= i < text@.len() ==> is_base58_char(#[trigger] text@[i]),
        bytes@.len() > 0 ==> text@.len() > 0,
{
    bs58::encode(bytes).into_string()
}

/// `bs58::decode(text).into_vec()`.
///
/// Trusted: the result is what `base58_bytes` names, an error where that is
/// `None`.
#[verifier::external_body]
pub(crate) fn base58_decode(text: &str) -> (r: Result<Vec<u8>, bs58::decode::Error>)
    ensures
        match r {
            Ok(bytes) => base58_bytes(text@) == Some(bytes@),
            Err(_) => base58_bytes(text@) is None,
        },
{
    bs58::decode(text).into_vec()
}

/// `encode` of `base64::engine::general_purpose::STANDARD`.
///
/// Trusted: the result is the text named `base64_text`; it is made of
/// base64 characters, has four characters for every three bytes begun, and
/// the same engine reads the same bytes back from it.
#[verifier::external_body]
pub(crate) fn base64_encode(bytes: &[u8]) -> (text: String)
    ensures
        text@ == base64_text(bytes@),
        base64_bytes(text@) == Some(bytes@),
        forall|i: int| 0 <= i < text@.len() ==> is_base64_char(#[trigger] text@[i]),
        text@.len() == base64_len(bytes@.len()),
{
    base64::engine::general_purpose::STANDARD.encode(bytes)
}

/// `decode` of `base64::engine::general_purpose::STANDARD`.
///
/// Trusted: the result is what `base64_bytes` names, an error where that is
/// `None`.
#[verifier::external_body]
pub(crate) fn base64_decode(text: &str) -> (r: Result<Vec<u8>, base64::DecodeError>)
    ensures
        match r {
            Ok(bytes) => base64_bytes(text@) == Some(bytes@),
            Err(_) => base64_bytes(text@) is None,
        },
{
    base64::engine::general_purpose::STANDARD.decode(text)
}

} // verus!
