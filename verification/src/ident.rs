//! Event identifiers.
use vstd::prelude::*;

verus! {

/// The bits of a 128-bit identifier that hold its version and variant.
pub const VERSION_VARIANT_BITS: u128 = 0xF000_C000_0000_0000_0000;

/// The value of those bits in a random (version 4) identifier.
pub const RANDOM_ID_TAG: u128 = 0x4000_8000_0000_0000_0000;

/// True when `id` carries the version and variant of a random identifier.
pub open spec fn is_random_id(id: u128) -> bool {
    id & VERSION_VARIANT_BITS == RANDOM_ID_TAG
}

/// A fresh random identifier.
///
/// Trusted: wraps `uuid::Uuid::new_v4` and reads the result with
/// `Uuid::as_u128`. The bits are random but for the version and variant.
#[verifier::external_body]
pub(crate) fn fresh_id() -> (r: u128)
    ensures
        is_random_id(r),
{
    uuid::Uuid::new_v4().as_u128()
}

/// The character of a hexadecimal digit, in lower case.
pub open spec fn hex_digit(d: nat) -> char
    recommends
        d < 16,
{
    if d < 10 {
        crate::text::digit_char(d)
    } else if d == 10 {
        'a'
    } else if d == 11 {
        'b'
    } else if d == 12 {
        'c'
    } else if d == 13 {
        'd'
    } else if d == 14 {
        'e'
    } else {
        'f'
    }
}

/// The character at position `i` of the text of `id`: a hyphen at the four
/// group boundaries, elsewhere the hexadecimal digits of `id` from the most
/// significant on.
pub open spec fn id_text_char(id: u128, i: int) -> char {
    if i == 8 || i == 13 || i == 18 || i == 23 {
        '-'
    } else {
        let k = if i < 8 {
            i
        } else if i < 13 {
            i - 1
        } else if i < 18 {
            i - 2
        } else if i < 23 {
            i - 3
        } else {
            i - 4
        };
        hex_digit(((id >> ((4 * (31 - k)) as u128)) & 0xf) as nat)
    }
}

/// The text of an identifier: thirty-two hexadecimal digits in lower case,
/// in groups of eight, four, four, four and twelve with hyphens between
/// them.
pub open spec fn id_text(id: u128) -> Seq<char> {
    Seq::new(36, |i: int| id_text_char(id, i))
}

/// The text of an identifier.
///
/// Trusted: wraps `uuid::Uuid::from_u128` followed by `Uuid::hyphenated` and
/// its `to_string`, which write the sixteen bytes, most significant first,
/// as lower-case hexadecimal digits with hyphens after the eighth, twelfth,
/// sixteenth and twentieth digit.
#[verifier::external_body]
pub(crate) fn hyphenated(id: u128) -> (r: String)
    ensures
        r@ == id_text(id),
{
    uuid::Uuid::from_u128(id).hyphenated().to_string()
}

/// Tells whether `id` carries the version and variant of a random
/// identifier.
pub fn has_random_tag(id: u128) -> (r: bool)
    ensures
        r == is_random_id(id),
{
    id & VERSION_VARIANT_BITS == RANDOM_ID_TAG
}

} // verus!
