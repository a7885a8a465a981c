use vstd::prelude::*;
use base64::Engine;

verus! {

/// The URL-safe, unpadded base64 text of `data`.
pub uninterp spec fn base64_url_unpadded(data: Seq<u8>) -> Seq<char>;

/// A character of the URL-safe base64 alphabet: a letter, a digit, `-` or `_`.
pub open spec fn is_url_safe_char(c: char) -> bool {
    ('A' <= c && c <= 'Z') || ('a' <= c && c <= 'z') || ('0' <= c && c <= '9') || c == '-' || c
        == '_'
}

/// Length of the unpadded base64 text of `n` bytes: four characters for
/// each three bytes, rounded up.
pub open spec fn unpadded_len(n: nat) -> nat {
    (4 * n + 2) / 3
}

/// Relies on base64's `BASE64_URL_SAFE_NO_PAD` engine: `encode` writes the
/// bytes in the URL-safe alphabet without padding, `encoded_len` characters
/// for the input (four for each full three bytes, two or three for the rest).
#[verifier::external_body]
pub(crate) fn encode_base64_url(data: &[u8]) -> (r: String)
    ensures
        r@ == base64_url_unpadded(data@),
        r@.len() == unpadded_len(data@.len()),
        forall|i: int| 0 <= i < r@.len() ==> is_url_safe_char(#[trigger] r@[i]),
{
    base64::prelude::BASE64_URL_SAFE_NO_PAD.encode(data)
}

} // verus!
