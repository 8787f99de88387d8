//! Identifiers: the UUID text form, through the `uuid` crate.

use vstd::prelude::*;

use crate::hex_text::hex_digit;

verus! {

/// What `uuid::Uuid::parse_str` makes of a text, as the UUID's 128-bit value.
pub uninterp spec fn spec_uuid_parse(text: Seq<char>) -> Option<u128>;

/// The `k`th hexadecimal digit of a 128-bit value, from the most significant.
pub open spec fn uuid_nibble(id: u128, k: int) -> char {
    hex_digit(((id >> ((124 - 4 * k) as u128)) & 0xf) as u8)
}

/// The digits `from..to` of a 128-bit value, most significant first.
pub open spec fn uuid_digits(id: u128, from: int, to: int) -> Seq<char> {
    Seq::new((to - from) as nat, |i: int| uuid_nibble(id, from + i))
}

/// The hyphenated lower-case text that `uuid::Uuid`'s `Display` writes: the
/// 32 hexadecimal digits of the value, most significant first, in groups of
/// 8, 4, 4, 4 and 12 joined by hyphens.
pub open spec fn spec_uuid_text(id: u128) -> Seq<char> {
    uuid_digits(id, 0, 8) + seq!['-'] + uuid_digits(id, 8, 12) + seq!['-'] + uuid_digits(id, 12, 16)
        + seq!['-'] + uuid_digits(id, 16, 20) + seq!['-'] + uuid_digits(id, 20, 32)
}

/// `uuid::Uuid::parse_str`: the 128-bit value of a UUID text, or `None` when the
/// text is not a UUID. The result is named by `spec_uuid_parse`.
#[verifier::external_body]
pub(crate) fn parse_uuid_text(text: &str) -> (r: Option<u128>)
    ensures
        r == spec_uuid_parse(text@),
{
    match uuid::Uuid::parse_str(text) {
        Ok(id) => Some(id.as_u128()),
        Err(_) => None,
    }
}

/// `uuid::Uuid::to_string` on `Uuid::from_u128(id)`: the hyphenated
/// lower-case form of `spec_uuid_text`. `parse_str` reads that form back to
/// the same value.
#[verifier::external_body]
pub(crate) fn uuid_text(id: u128) -> (r: String)
    ensures
        r@ == spec_uuid_text(id),
        spec_uuid_parse(r@) == Some(id),
{
    uuid::Uuid::from_u128(id).to_string()
}

/// `uuid::Uuid::new_v4()`: a fresh random UUID, as its 128-bit value.
/// Nothing is stated of it.
#[verifier::external_body]
pub(crate) fn new_v4() -> (r: u128) {
    uuid::Uuid::new_v4().as_u128()
}

} // verus!
