//! Turning the raw bytes that external tools print into text.

use vstd::prelude::*;
use vstd::utf8::*;

verus! {

/// The text `String::from_utf8_lossy` makes of `bytes`: the UTF-8 decoding,
/// with each invalid sequence replaced by U+FFFD.
pub uninterp spec fn lossy_utf8(bytes: Seq<u8>) -> Seq<char>;

/// Calls `String::from_utf8`. Trusted: the result is `Some` exactly when
/// `bytes` is valid UTF-8, and then holds the decoded chars.
#[verifier::external_body]
pub(crate) fn utf8_text(bytes: Vec<u8>) -> (r: Option<String>)
    ensures
        r is Some <==> valid_utf8(bytes@),
        r matches Some(s) ==> s@ == decode_utf8(bytes@),
{
    String::from_utf8(bytes).ok()
}

/// Calls `String::from_utf8_lossy`. Trusted: the result is `lossy_utf8` of
/// the bytes, and for valid UTF-8 it is the plain decoding (the
/// documentation: valid input comes back unchanged). Which replacement
/// sequence an invalid input gets is left to the name.
#[verifier::external_body]
pub(crate) fn lossy_text(bytes: &[u8]) -> (r: String)
    ensures
        r@ == lossy_utf8(bytes@),
        valid_utf8(bytes@) ==> r@ == decode_utf8(bytes@),
{
    String::from_utf8_lossy(bytes).into_owned()
}

} // verus!
