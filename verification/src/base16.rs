//! Hexadecimal text: what it spells, and that decoding undoes encoding.

use vstd::prelude::*;

verus! {

/// The lower-case digit for a value below 16.
pub open spec fn hex_digit(n: int) -> char {
    if n < 10 {
        ('0' as int + n) as char
    } else {
        ('a' as int + n - 10) as char
    }
}

/// Whether `c` is one of `0-9`, `a-f`, `A-F`.
pub open spec fn is_hex_digit(c: char) -> bool {
    ||| '0' as int <= c as int <= '9' as int
    ||| 'a' as int <= c as int <= 'f' as int
    ||| 'A' as int <= c as int <= 'F' as int
}

/// The value of a hexadecimal digit.
pub open spec fn hex_value(c: char) -> int {
    if '0' as int <= c as int <= '9' as int {
        c as int - '0' as int
    } else if 'a' as int <= c as int <= 'f' as int {
        c as int - 'a' as int + 10
    } else {
        c as int - 'A' as int + 10
    }
}

/// Two lower-case digits for each byte, the high half first.
pub open spec fn hex_encoding(bytes: Seq<u8>) -> Seq<char> {
    Seq::new(
        2 * bytes.len(),
        |i: int|
            if i % 2 == 0 {
                hex_digit(bytes[i / 2] as int / 16)
            } else {
                hex_digit(bytes[i / 2] as int % 16)
            },
    )
}

/// Whether `text` spells bytes: an even number of hexadecimal digits.
pub open spec fn is_hex(text: Seq<char>) -> bool {
    &&& text.len() % 2 == 0
    &&& forall|i: int| 0 <= i < text.len() ==> is_hex_digit(#[trigger] text[i])
}

/// The bytes that `text` spells, one for each pair of digits.
pub open spec fn hex_decoding(text: Seq<char>) -> Seq<u8> {
    Seq::new(
        text.len() / 2,
        |i: int| (16 * hex_value(text[2 * i]) + hex_value(text[2 * i + 1])) as u8,
    )
}

/// A digit made from a value below 16 is a hexadecimal digit with that value.
pub proof fn lemma_hex_digit_value(n: int)
    requires
        0 <= n < 16,
    ensures
        is_hex_digit(hex_digit(n)),
        hex_value(hex_digit(n)) == n,
{
}

/// Decoding undoes encoding: the encoding of any bytes spells those bytes.
pub proof fn lemma_hex_round_trip(bytes: Seq<u8>)
    ensures
        hex_encoding(bytes).len() == 2 * bytes.len(),
        is_hex(hex_encoding(bytes)),
        hex_decoding(hex_encoding(bytes)) == bytes,
{
    let text = hex_encoding(bytes);
    assert forall|i: int| 0 <= i < text.len() implies is_hex_digit(#[trigger] text[i]) by {
        let b = bytes[i / 2] as int;
        lemma_hex_digit_value(b / 16);
        lemma_hex_digit_value(b % 16);
    }
    assert forall|i: int| 0 <= i < bytes.len() implies hex_decoding(text)[i] == bytes[i] by {
        let b = bytes[i] as int;
        lemma_hex_digit_value(b / 16);
        lemma_hex_digit_value(b % 16);
        assert((2 * i) / 2 == i && (2 * i) % 2 == 0);
        assert((2 * i + 1) / 2 == i && (2 * i + 1) % 2 == 1);
        assert(text[2 * i] == hex_digit(b / 16));
        assert(text[2 * i + 1] == hex_digit(b % 16));
        assert(16 * (b / 16) + b % 16 == b);
    }
    assert(hex_decoding(text) =~= bytes);
}

} // verus!
