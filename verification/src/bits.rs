use vstd::prelude::*;
use crate::addressable::{word_of, low_byte, high_byte};

verus! {

/// Joining two bytes into a word: the shapes the code writes it in, and the bytes it splits
/// into again.
pub proof fn lemma_word_parts(lo: u8, hi: u8)
    by (bit_vector)
    ensures
        word_of(lo, hi) == ((hi as u16) << 8u16) | (lo as u16),
        low_byte(word_of(lo, hi)) == lo,
        high_byte(word_of(lo, hi)) == hi,
{
}

/// Splitting a word into bytes: joining them gives it back, and the masks the code uses pick
/// the same bytes.
pub proof fn lemma_word_split(v: u16)
    by (bit_vector)
    ensures
        word_of(low_byte(v), high_byte(v)) == v,
        ((v & 0xFF00) >> 8u16) as u8 == high_byte(v),
        (v & 0xFF00) as u8 == 0,
        (v & 0x00FF) as u8 == low_byte(v),
        word_of(low_byte(v) & 0xF0, high_byte(v)) == v & 0xFFF0,
{
}

/// The bit fields of a byte: each bit is 0 or 1, each two-bit field below 4, the masks stay
/// within their width, and the byte is rebuilt from its fields in the register layouts used
/// here (all eight bits; bits 0-6 with a two-bit field at the bottom; the high nibble; the
/// five low bits; four two-bit fields; five flag bits over a three-bit field).
pub proof fn lemma_byte_fields(b: u8)
    by (bit_vector)
    ensures
        b & 1 <= 1,
        (b >> 1u8) & 1 <= 1,
        (b >> 2u8) & 1 <= 1,
        (b >> 3u8) & 1 <= 1,
        (b >> 4u8) & 1 <= 1,
        (b >> 5u8) & 1 <= 1,
        (b >> 6u8) & 1 <= 1,
        (b >> 7u8) & 1 <= 1,
        (b >> 0u8) & 1 == b & 1,
        b & 0b11 < 4,
        (b >> 2u8) & 0b11 < 4,
        (b >> 4u8) & 0b11 < 4,
        (b >> 6u8) & 0b11 < 4,
        (b >> 0u8) & 0b11 == b & 0b11,
        b & 0x03 <= 0x03,
        b & 0x07 <= 0x07,
        b & 0x0F <= 0x0F,
        b & 0x1F <= 0x1F,
        b & 0x7F <= 0x7F,
        b & 0xFE <= 0xFE,
        (((b >> 7u8) & 1) << 7u8) | (((b >> 6u8) & 1) << 6u8) | (((b >> 5u8) & 1) << 5u8) | (((b
            >> 4u8) & 1) << 4u8) | (((b >> 3u8) & 1) << 3u8) | (((b >> 2u8) & 1) << 2u8) | (((b
            >> 1u8) & 1) << 1u8) | (b & 1) == b,
        (b & 0b11) | (((b >> 2u8) & 1) << 2u8) | (((b >> 3u8) & 1) << 3u8) | (((b >> 4u8) & 1)
            << 4u8) | (((b >> 5u8) & 1) << 5u8) | (((b >> 6u8) & 1) << 6u8) == b & 0x7F,
        (((b >> 7u8) & 1) << 7u8) | (((b >> 6u8) & 1) << 6u8) | (((b >> 5u8) & 1) << 5u8) | (((b
            >> 4u8) & 1) << 4u8) == b & 0xF0,
        (b & 1) | (((b >> 1u8) & 1) << 1u8) | (((b >> 2u8) & 1) << 2u8) | (((b >> 3u8) & 1)
            << 3u8) | (((b >> 4u8) & 1) << 4u8) == b & 0x1F,
        (b & 0b11) | (((b >> 2u8) & 0b11) << 2u8) | (((b >> 4u8) & 0b11) << 4u8) | (((b >> 6u8)
            & 0b11) << 6u8) == b,
        (((b >> 7u8) & 1) << 7u8) | (((b >> 6u8) & 1) << 6u8) | (((b >> 5u8) & 1) << 5u8) | (((b
            >> 4u8) & 1) << 4u8) | (((b >> 3u8) & 1) << 3u8) | (b & 0b111) == b,
{
}

/// Eight bits packed into a byte, from bit 7 down to bit 0, read back one by one.
pub proof fn lemma_bits_pack(b7: u8, b6: u8, b5: u8, b4: u8, b3: u8, b2: u8, b1: u8, b0: u8)
    by (bit_vector)
    requires
        b7 <= 1 && b6 <= 1 && b5 <= 1 && b4 <= 1 && b3 <= 1 && b2 <= 1 && b1 <= 1 && b0 <= 1,
    ensures
        ({
            let x = (b7 << 7u8) | (b6 << 6u8) | (b5 << 5u8) | (b4 << 4u8) | (b3 << 3u8) | (b2 << 2u8)
                | (b1 << 1u8) | b0;
            &&& (x >> 7u8) & 1 == b7
            &&& (x >> 6u8) & 1 == b6
            &&& (x >> 5u8) & 1 == b5
            &&& (x >> 4u8) & 1 == b4
            &&& (x >> 3u8) & 1 == b3
            &&& (x >> 2u8) & 1 == b2
            &&& (x >> 1u8) & 1 == b1
            &&& x & 1 == b0
        }),
        ({
            let x = (b7 << 7u8) | (b6 << 6u8) | (b5 << 5u8) | (b4 << 4u8);
            &&& (x >> 7u8) & 1 == b7
            &&& (x >> 6u8) & 1 == b6
            &&& (x >> 5u8) & 1 == b5
            &&& (x >> 4u8) & 1 == b4
        }),
        ({
            let x = b0 | (b1 << 1u8) | (b2 << 2u8) | (b3 << 3u8) | (b4 << 4u8);
            &&& x & 1 == b0
            &&& (x >> 1u8) & 1 == b1
            &&& (x >> 2u8) & 1 == b2
            &&& (x >> 3u8) & 1 == b3
            &&& (x >> 4u8) & 1 == b4
        }),
{
}

} // verus!
