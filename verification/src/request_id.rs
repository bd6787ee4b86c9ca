//! Request identifiers: random version-4 UUIDs, held as their 128-bit value.

use vstd::prelude::*;
use crate::digest::hex_digit;

verus! {

/// Whether `id` carries the version-4 marker (bits 76..79 are `0100`) and the
/// RFC 4122 variant (bits 62..63 are `10`).
pub open spec fn is_version4(id: u128) -> bool {
    &&& (id >> 76u32) & 0xf == 4
    &&& (id >> 62u32) & 0x3 == 2
}

/// The `k`-th hex digit of `id`, counted from the most significant one.
pub open spec fn uuid_nibble(id: u128, k: int) -> u8 {
    ((id >> ((31 - k) * 4) as u32) & 0xf) as u8
}

/// Whether position `i` of the hyphenated text holds a hyphen.
pub open spec fn is_uuid_hyphen(i: int) -> bool {
    i == 8 || i == 13 || i == 18 || i == 23
}

/// Which hex digit stands at position `i` of the hyphenated text.
pub open spec fn uuid_digit_index(i: int) -> int {
    if i < 8 {
        i
    } else if i < 13 {
        i - 1
    } else if i < 18 {
        i - 2
    } else if i < 23 {
        i - 3
    } else {
        i - 4
    }
}

/// The hyphenated lower-case text of a UUID: 32 hex digits in groups of
/// 8-4-4-4-12, most significant digit first.
pub open spec fn hyphenated_uuid(id: u128) -> Seq<char> {
    Seq::new(
        36,
        |i: int|
            if is_uuid_hyphen(i) {
                '-'
            } else {
                hex_digit(uuid_nibble(id, uuid_digit_index(i)))
            },
    )
}

/// Calls `Uuid::new_v4` of the `uuid` crate and takes its value with
/// `as_u128`. Trusted: the value is random, with the version-4 and RFC 4122
/// variant bits set (the source masks them in); nothing else is stated.
#[verifier::external_body]
pub(crate) fn new_request_id() -> (id: u128)
    ensures
        is_version4(id),
{
    uuid::Uuid::new_v4().as_u128()
}

/// Calls the `uuid` crate's hyphenated `Display` (`Uuid::from_u128`, then
/// `hyphenated().to_string()`). Trusted: the text is `hyphenated_uuid(id)`.
#[verifier::external_body]
pub(crate) fn uuid_text(id: u128) -> (r: String)
    ensures
        r@ == hyphenated_uuid(id),
{
    uuid::Uuid::from_u128(id).hyphenated().to_string()
}

} // verus!
