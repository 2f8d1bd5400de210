//! SHA-256 and URL-safe Base64, as the `sha2` and `base64` crates compute them.

use vstd::prelude::*;

use base64::Engine;
use sha2::Digest;

verus! {

/// The SHA-256 digest of a byte string.
pub uninterp spec fn sha256_of(data: Seq<u8>) -> Seq<u8>;

/// The character of a 6-bit value in the URL-safe Base64 alphabet
/// (RFC 4648 §5): `A`–`Z`, `a`–`z`, `0`–`9`, `-`, `_`.
pub open spec fn base64_url_char(v: int) -> char {
    if v < 26 {
        (65 + v) as char
    } else if v < 52 {
        (97 + (v - 26)) as char
    } else if v < 62 {
        (48 + (v - 52)) as char
    } else if v == 62 {
        '-'
    } else {
        '_'
    }
}

/// The URL-safe Base64 encoding of a byte string, without padding (RFC 4648
/// §5): each group of three bytes gives four characters, and a final group
/// of one or two bytes gives two or three.
pub open spec fn base64_url_no_pad_of(data: Seq<u8>) -> Seq<char>
    decreases data.len(),
{
    if data.len() == 0 {
        seq![]
    } else if data.len() == 1 {
        seq![base64_url_char((data[0] as int) / 4), base64_url_char(((data[0] as int) % 4) * 16)]
    } else if data.len() == 2 {
        seq![
            base64_url_char((data[0] as int) / 4),
            base64_url_char(((data[0] as int) % 4) * 16 + (data[1] as int) / 16),
            base64_url_char(((data[1] as int) % 16) * 4),
        ]
    } else {
        seq![
            base64_url_char((data[0] as int) / 4),
            base64_url_char(((data[0] as int) % 4) * 16 + (data[1] as int) / 16),
            base64_url_char(((data[1] as int) % 16) * 4 + (data[2] as int) / 64),
            base64_url_char((data[2] as int) % 64),
        ] + base64_url_no_pad_of(data.subrange(3, data.len() as int))
    }
}

/// The longest input that `Sha256` digests without its bit counter
/// overflowing (its length in bits must fit in a `u64`).
pub open spec fn digestible_len(len: int) -> bool {
    len < 0x2000_0000_0000_0000
}

/// The length of unpadded Base64 output for `len` input bytes.
pub open spec fn base64_unpadded_len(len: int) -> int {
    4 * (len / 3) + if len % 3 == 0 {
        0int
    } else if len % 3 == 1 {
        2int
    } else {
        3int
    }
}

/// `sha2::Sha256::digest`. Trusted: the result is the SHA-256 digest of the
/// input, 32 bytes long (`Output<Sha256>` is a 32-byte array). The input's
/// length in bits is counted in a `u64`, so longer inputs are left out.
#[verifier::external_body]
pub(crate) fn sha256(data: &[u8]) -> (r: Vec<u8>)
    requires
        digestible_len(data@.len() as int),
    ensures
        r@ == sha256_of(data@),
        r@.len() == 32,
{
    sha2::Sha256::digest(data).to_vec()
}

/// `base64::engine::general_purpose::URL_SAFE_NO_PAD.encode`. Trusted: the
/// result is the unpadded URL-safe Base64 encoding of the input; the call
/// panics when the length of that encoding (`base64::encoded_len`) overflows
/// a `usize`, so such inputs are left out.
#[verifier::external_body]
pub(crate) fn base64_url_no_pad(data: &[u8]) -> (r: String)
    requires
        base64_unpadded_len(data@.len() as int) <= usize::MAX,
    ensures
        r@ == base64_url_no_pad_of(data@),
{
    base64::engine::general_purpose::URL_SAFE_NO_PAD.encode(data)
}

} // verus!
