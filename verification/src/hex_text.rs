//! Hexadecimal text of bytes, through the `hex` crate.

use vstd::prelude::*;

use crate::grouping::utf8;

verus! {

/// The value of a hexadecimal digit byte, either case.
pub open spec fn hex_value(c: u8) -> Option<u8> {
    if 0x30 <= c <= 0x39 {
        Some((c - 0x30) as u8)
    } else if 0x41 <= c <= 0x46 {
        Some((c - 0x41 + 10) as u8)
    } else if 0x61 <= c <= 0x66 {
        Some((c - 0x61 + 10) as u8)
    } else {
        None
    }
}

/// The bytes a hexadecimal text stands for: two digits a byte, high digit
/// first; none for an odd length or a byte that is no digit.
pub open spec fn hex_decoded(data: Seq<u8>) -> Option<Seq<u8>> {
    if data.len() % 2 != 0 {
        None
    } else if exists|i: int| 0 <= i < data.len() && (#[trigger] hex_value(data[i])) is None {
        None
    } else {
        Some(
            Seq::new(
                data.len() / 2,
                |i: int| (hex_value(data[2 * i])->0 * 16 + hex_value(data[2 * i + 1])->0) as u8,
            ),
        )
    }
}

/// `hex::decode` of a text's UTF-8 bytes, as its source reads them.
#[verifier::external_body]
pub(crate) fn hex_decode(text: &str) -> (r: Option<Vec<u8>>)
    ensures
        match r {
            Some(v) => hex_decoded(utf8(text@)) == Some(v@),
            None => hex_decoded(utf8(text@)) is None,
        },
{
    hex::decode(text).ok()
}

/// The lower-case hexadecimal digit of a value below 16.
pub open spec fn hex_digit(v: u8) -> char {
    if v < 10 {
        (0x30 + v) as char
    } else {
        (0x61 + v - 10) as char
    }
}

/// The lower-case hexadecimal text of bytes: two digits a byte, high digit
/// first.
pub open spec fn hex_text(bytes: Seq<u8>) -> Seq<char> {
    Seq::new(
        2 * bytes.len(),
        |i: int|
            if i % 2 == 0 {
                hex_digit((bytes[i / 2] / 16) as u8)
            } else {
                hex_digit((bytes[i / 2] % 16) as u8)
            },
    )
}

/// `hex::encode`: the lower-case hexadecimal text of the bytes.
#[verifier::external_body]
pub(crate) fn hex_encode(bytes: &[u8]) -> (r: String)
    ensures
        r@ == hex_text(bytes@),
{
    hex::encode(bytes)
}

proof fn lemma_hex_digit(v: u8)
    requires
        v < 16,
    ensures
        '\0' <= hex_digit(v) <= '\u{7f}',
        hex_value(hex_digit(v) as u8) == Some(v),
{
}

/// Hexadecimal text reads back as the bytes it was written from: a page
/// cursor's text decodes to the cursor's serialized bytes.
pub proof fn lemma_hex_round_trip(bytes: Seq<u8>)
    ensures
        hex_decoded(utf8(hex_text(bytes))) == Some(bytes),
{
    let t = hex_text(bytes);
    assert forall|i: int| 0 <= i < t.len() implies '\0' <= #[trigger] t[i] <= '\u{7f}' by {
        lemma_hex_digit((bytes[i / 2] / 16) as u8);
        lemma_hex_digit((bytes[i / 2] % 16) as u8);
    }
    vstd::utf8::is_ascii_chars_encode_utf8(t);
    let data = utf8(t);
    assert(data.len() == 2 * bytes.len());
    assert forall|i: int| 0 <= i < data.len() implies (#[trigger] hex_value(data[i])) is Some by {
        assert(data[i] == t[i] as u8);
        lemma_hex_digit((bytes[i / 2] / 16) as u8);
        lemma_hex_digit((bytes[i / 2] % 16) as u8);
    }
    let decoded = Seq::new(
        data.len() / 2,
        |k: int| (hex_value(data[2 * k])->0 * 16 + hex_value(data[2 * k + 1])->0) as u8,
    );
    assert forall|k: int| 0 <= k < bytes.len() implies #[trigger] decoded[k] == bytes[k] by {
        assert(data[2 * k] == t[2 * k] as u8);
        assert(data[2 * k + 1] == t[2 * k + 1] as u8);
        assert((2 * k) / 2 == k);
        assert((2 * k + 1) / 2 == k);
        assert((2 * k) % 2 == 0);
        assert((2 * k + 1) % 2 == 1);
        lemma_hex_digit((bytes[k] / 16) as u8);
        lemma_hex_digit((bytes[k] % 16) as u8);
        assert(bytes[k] / 16 * 16 + bytes[k] % 16 == bytes[k]);
    }
    assert(decoded =~= bytes);
}

} // verus!
