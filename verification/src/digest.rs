//! The SHA-256 fingerprint of a captured image, in lower-case hex.

use sha2::Digest;
use vstd::prelude::*;

verus! {

/// The SHA-256 digest of `data`.
pub uninterp spec fn sha256(data: Seq<u8>) -> Seq<u8>;

/// The lower-case hex digit for `n` (which is below 16).
pub open spec fn hex_digit(n: u8) -> char {
    if n < 10 {
        (0x30 + n) as char
    } else {
        (0x57 + n) as char
    }
}

/// Whether `c` is one of `0`..`9`, `a`..`f`.
pub open spec fn is_lower_hex_char(c: char) -> bool {
    ||| 0x30 <= (c as u32) <= 0x39
    ||| 0x61 <= (c as u32) <= 0x66
}

/// Each byte as two lower-case hex digits, high nibble first.
pub open spec fn lower_hex(bytes: Seq<u8>) -> Seq<char>
    decreases bytes.len(),
{
    if bytes.len() == 0 {
        Seq::empty()
    } else {
        lower_hex(bytes.drop_last()) + seq![
            hex_digit(bytes.last() / 16),
            hex_digit(bytes.last() % 16),
        ]
    }
}

/// Calls `Sha256::digest` of the `sha2` crate. Trusted: the result is the
/// SHA-256 digest of the input, which is 32 bytes long.
#[verifier::external_body]
fn sha256_digest(data: &[u8]) -> (r: Vec<u8>)
    ensures
        r@ == sha256(data@),
        r@.len() == 32,
{
    sha2::Sha256::digest(data).to_vec()
}

/// Calls `hex::encode`. Trusted: each byte becomes two characters of
/// `0123456789abcdef`, high nibble first.
#[verifier::external_body]
fn hex_encode(data: &[u8]) -> (r: String)
    ensures
        r@ == lower_hex(data@),
{
    hex::encode(data)
}

/// Hex text has two digits per byte, all of them lower-case hex.
pub proof fn lemma_lower_hex_shape(bytes: Seq<u8>)
    ensures
        lower_hex(bytes).len() == 2 * bytes.len(),
        forall|i: int|
            0 <= i < lower_hex(bytes).len() ==> is_lower_hex_char(#[trigger] lower_hex(bytes)[i]),
    decreases bytes.len(),
{
    if bytes.len() > 0 {
        lemma_lower_hex_shape(bytes.drop_last());
        let b = bytes.last();
        assert(b / 16 < 16 && b % 16 < 16);
        let prev = lower_hex(bytes.drop_last());
        assert forall|i: int|
            0 <= i < lower_hex(bytes).len() implies is_lower_hex_char(
            #[trigger] lower_hex(bytes)[i],
        ) by {
            if i < prev.len() {
                assert(lower_hex(bytes)[i] == prev[i]);
            }
        }
    }
}

/// The fingerprint that goes with a captured image: its SHA-256 digest as
/// 64 lower-case hex digits.
pub fn image_digest(image: &[u8]) -> (r: String)
    ensures
        r@ == lower_hex(sha256(image@)),
        r@.len() == 64,
        forall|i: int| 0 <= i < r@.len() ==> is_lower_hex_char(#[trigger] r@[i]),
{
    let digest = sha256_digest(image);
    let text = hex_encode(digest.as_slice());
    proof {
        lemma_lower_hex_shape(digest@);
    }
    text
}

} // verus!
