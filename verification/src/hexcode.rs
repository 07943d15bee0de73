//! Lower-case hexadecimal text, as the `hex` crate writes it.

use vstd::prelude::*;

verus! {

/// The lower-case hexadecimal digit for a value below sixteen.
pub open spec fn hex_digit(nibble: int) -> char {
    if nibble < 10 {
        ('0' as u8 + nibble) as u8 as char
    } else {
        ('a' as u8 + (nibble - 10)) as u8 as char
    }
}

/// The hexadecimal text of `bytes`: two digits per byte, high nibble first.
pub open spec fn hex_string(bytes: Seq<u8>) -> Seq<char> {
    Seq::new(
        2 * bytes.len(),
        |i: int|
            hex_digit(
                if i % 2 == 0 {
                    bytes[i / 2] as int / 16
                } else {
                    bytes[i / 2] as int % 16
                },
            ),
    )
}

/// The bytes of a text whose characters are all ASCII.
pub open spec fn ascii_bytes(text: Seq<char>) -> Seq<u8> {
    Seq::new(text.len(), |i: int| text[i] as u8)
}

/// Hexadecimal text is ASCII, two characters per byte.
pub proof fn lemma_hex_string_ascii(bytes: Seq<u8>)
    ensures
        hex_string(bytes).len() == 2 * bytes.len(),
        vstd::utf8::is_ascii_chars(hex_string(bytes)),
{
    assert forall|i: int| 0 <= i < hex_string(bytes).len() implies '\0' <= #[trigger] hex_string(
        bytes,
    )[i] <= '\u{7f}' by {
        let b: int = bytes[i / 2] as int;
        assert(0 <= b / 16 < 16 && 0 <= b % 16 < 16);
    }
}

/// Different nibbles have different digits, also as bytes.
pub proof fn lemma_hex_digit_distinct(first: int, second: int)
    requires
        0 <= first < 16,
        0 <= second < 16,
        hex_digit(first) as u8 == hex_digit(second) as u8,
    ensures
        first == second,
{
}

/// Calls `hex::encode`, which writes each byte of its input as two
/// lower-case hexadecimal digits, the high nibble first.
#[verifier::external_body]
pub(crate) fn hex_encode(data: &[u8]) -> (text: String)
    ensures
        text@ == hex_string(data@),
{
    hex::encode(data)
}

} // verus!
