//! URL-safe base64 text, as produced and read by the `base64` crate.

use vstd::prelude::*;

verus! {

/// The padded base64 text of `bytes` in the URL-safe alphabet: what
/// `base64::encode_config` returns for `bytes` under `base64::URL_SAFE`.
pub uninterp spec fn url_safe_encoding(bytes: Seq<u8>) -> Seq<char>;

/// The bytes that `text` stands for in the URL-safe alphabet, or `None` where
/// `text` is not base64: what `base64::decode_config` returns for `text` under
/// `base64::URL_SAFE`, with its error reduced to `None`.
pub uninterp spec fn url_safe_decoding(text: Seq<char>) -> Option<Seq<u8>>;

/// Number of characters in the padded base64 text of `len` bytes: four for
/// every group of three bytes, the last group counted in full.
pub open spec fn encoded_len(len: nat) -> nat {
    (len + 2) / 3 * 4
}

/// Whether `c` can stand in padded URL-safe base64 text: a letter or digit of
/// ASCII, `-`, `_`, or the padding character `=`.
pub open spec fn is_url_safe_char(c: char) -> bool {
    ||| 'A' <= c <= 'Z'
    ||| 'a' <= c <= 'z'
    ||| '0' <= c <= '9'
    ||| c == '-'
    ||| c == '_'
    ||| c == '='
}

#[verifier::external_type_specification]
#[verifier::external_body]
pub struct ExDecodeError(base64::DecodeError);

/// Calls `base64::encode_config` with `base64::URL_SAFE`.
///
/// Trusted: the text returned is the encoding of `bytes`; it has four
/// characters for every three bytes begun, all of them of the URL-safe
/// alphabet or padding; and decoding it yields `bytes` again. The bound on the input keeps the size of the text within what a
/// `String` can hold, beyond which the call panics.
#[verifier::external_body]
pub(crate) fn encode_url_safe(bytes: &[u8]) -> (text: String)
    requires
        encoded_len(bytes@.len()) <= isize::MAX,
    ensures
        text@ == url_safe_encoding(bytes@),
        text@.len() == encoded_len(bytes@.len()),
        forall|i: int| 0 <= i < text@.len() ==> is_url_safe_char(#[trigger] text@[i]),
        url_safe_decoding(text@) == Some(bytes@),
{
    base64::encode_config(bytes, base64::URL_SAFE)
}

/// Calls `base64::decode_config` with `base64::URL_SAFE`.
///
/// Trusted: the call succeeds exactly where `text` has a decoding, and then
/// returns it.
#[verifier::external_body]
pub(crate) fn decode_url_safe(text: &str) -> (decoded: Result<Vec<u8>, base64::DecodeError>)
    ensures
        match decoded {
            Ok(bytes) => url_safe_decoding(text@) == Some(bytes@),
            Err(_) => url_safe_decoding(text@) is None,
        },
{
    base64::decode_config(text, base64::URL_SAFE)
}

} // verus!
