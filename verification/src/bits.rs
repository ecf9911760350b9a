//! Facts about the bits of bytes and words that the encoders, registers
//! and flag updates rely on, proved once by bit blasting.

use vstd::prelude::*;

verus! {

/// Facts about bytes: shifts and masks of a byte, XOR chains, single-bit
/// masks, and the flag constants.
pub proof fn lemma_byte(x: u8, y: u8, k: u8, z: u32)
    by (bit_vector)
    ensures
        x >> 2u8 < 64,
        (x >> 2u8) << 2u8 == x & 0xFC,
        (x & 0xFC) | (x & 3) == x,
        (x & 0xFC) & 0xFC == x & 0xFC,
        ((x & 0xFC) | (x & 3)) | 0 == x,
        0u8 ^ x == x,
        x & 0x1F < 32,
        (x ^ y) & 0x1F < 32,
        x & 0x0F <= 15,
        x >> 4u8 <= 15,
        (x >> 1u8) & 3 < 4,
        (x >> 1u8) & 0x07 <= 7,
        x & 0x0F < 16,
        ((x ^ y) & 0xFC) ^ (x & 0xFC) == y & 0xFC,
        (x ^ 0x80) & 0x80 != x & 0x80,
        (x ^ 0x80) ^ 0x80 == x,
        (x >> z) & 1 < 2,
        (x | y) & y == y,
        x < 16 ==> x & 0x0F == x,
        (x | 0x80) & 0x80 == 0x80,
        ((x | 0x80) & 0x7F) & 0x80 == 0,
        (x | 0x80) & 0x7F == x & 0x7F,
        (x & !y) & y == 0,
        (x & 1) << 1u8 | (x & 2) >> 1u8 < 4,
        (x | y) ^ y == x & !y,
        k < 8 ==> 0xFFu8 & (0x80u8 >> k) != 0,
        (x & !(0x80u8 >> k)) & (0x80u8 >> k) == 0,
        k < 8 && y < 8 && k != y ==> ((x & !(0x80u8 >> k)) & (0x80u8 >> y) != 0) == (x & (0x80u8
            >> y) != 0),
        0x04u8 | 0x20u8 == 0x24u8,
        0x80u8 | 0x40u8 | 0x20u8 | 0x02u8 | 0x01u8 == 0xE3u8,
        0x0Du8 & 0x0F == 0x0D,
        k < 8 && 1 <= y <= 7 ==> ((((0xFF00u16 >> (y as u16)) as u8) & (0x80u8 >> k)) != 0) == (k < y),
        0u8 ^ 0x80u8 == 0x80u8 && 0x80u8 ^ 0x80u8 == 0u8,
        (0u8 | 0x20u8) & 0x20u8 != 0 && (0x80u8 | 0x20u8) & 0x20u8 != 0,
        0u8 & 0x20u8 == 0 && 0x80u8 & 0x20u8 == 0,
        x & 1 == x % 2,
        ((x >> 3u8) & 0x1F) & 0x1F == x / 8u8,
        (((k & 0x03) << 3u8) | ((y & 0x03) << 1u8) | (x & 0x01)) & 0x1F == (x % 2) + 2 * (y % 4) + 8 * (k % 4),
{
}

/// Facts about 32-bit words: their low bit, a selected bit, and 16-bit
/// values made of two bytes.
pub proof fn lemma_word(v: u32, k: u8, h: u8, l: u8)
    by (bit_vector)
    ensures
        v & 1 < 2,
        ((v >> k) & 1) as u8 <= 1,
        ((h as u32) << 8u32) | (l as u32) < 65536,
        ((h as u32) << 8u32) | (l as u32) == h * 256 + l,
        ((h as u16) << 8u16) | (l as u16) == h * 256 + l,
        v < 65536 ==> ((((v >> 8u32) & 0xFF) as u8 as u32) << 8u32) | (((v & 0xFF) as u8) as u32) == v,
{
}

/// Byte arithmetic facts: XOR chains of five-bit values, the top five bits
/// of a byte, the 8-bit sum with carry and its signed overflow, the
/// complement, and the V bit (0x40) under setting and clearing other
/// flags.
pub proof fn lemma_byte_arith(x: u8, y: u8, k: u8)
    by (bit_vector)
    ensures
        ((x ^ y) & 0x1F) ^ (x & 0x1F) == y & 0x1F,
        0u8 & 0x1Fu8 == 0u8,
        x ^ 0u8 == x,
        x & 0x1F < 32,
        k <= 1 ==> (((x as u16 + y as u16 + k as u16) as u16) as u8) as u16 == ((x as u16 + y as u16 + k as u16)
            as u16) % 256u16,
        k <= 1 ==> ((((!(x ^ y)) & (x ^ (((x as u16 + y as u16 + k as u16) as u16) as u8))) & 0x80u8) != 0u8) == ((x
            < 128u8 && y < 128u8 && ((x as u16 + y as u16 + k as u16) as u16) >= 128u16) || (x >= 128u8 && y
            >= 128u8 && ((x as u16 + y as u16 + k as u16) as u16) < 384u16)),
        !y == (255u8 - y) as u8,
        (x | 0x40u8) & 0x40u8 != 0,
        (x & !0x40u8) & 0x40u8 == 0,
        (x | 0x80u8) & 0x40u8 == x & 0x40u8,
        (x & !0x80u8) & 0x40u8 == x & 0x40u8,
        (x | 0x02u8) & 0x40u8 == x & 0x40u8,
        (x & !0x02u8) & 0x40u8 == x & 0x40u8,
        (x | 0x01u8) & 0x40u8 == x & 0x40u8,
        (x & !0x01u8) & 0x40u8 == x & 0x40u8,
        y & k == 0 ==> (x | y) & k == x & k && (x & !y) & k == x & k,
        (x | y) & y == y,
        (x & !y) & y == 0,
        (x & 0x80u8 != 0) == (x >= 128u8),
        0x02u8 & 0x01u8 == 0u8 && 0x80u8 & 0x01u8 == 0u8 && 0x40u8 & 0x01u8 == 0u8,
        0x01u8 & 0x80u8 == 0u8 && 0x02u8 & 0x80u8 == 0u8 && 0x40u8 & 0x80u8 == 0u8,
        0x01u8 & 0x02u8 == 0u8 && 0x40u8 & 0x02u8 == 0u8 && 0x80u8 & 0x02u8 == 0u8,
        k <= 1 ==> ((x as u16 + y as u16 + k as u16) as u16) == x as u16 + y as u16 + k as u16,
{
}

/// Setting, clearing or flipping switch bits `x` outside the memory
/// routing switches (the low eleven bits) leaves every routing switch's
/// test unchanged.
pub proof fn lemma_mode_bits(b: u32, x: u32)
    by (bit_vector)
    requires
        x & 0x07FF == 0,
    ensures
        ((b | x) & 0x01u32 == 0x01u32) == (b & 0x01u32 == 0x01u32),
        ((b & !x) & 0x01u32 == 0x01u32) == (b & 0x01u32 == 0x01u32),
        ((b ^ x) & 0x01u32 == 0x01u32) == (b & 0x01u32 == 0x01u32),
        ((b | x) & 0x02u32 == 0x02u32) == (b & 0x02u32 == 0x02u32),
        ((b & !x) & 0x02u32 == 0x02u32) == (b & 0x02u32 == 0x02u32),
        ((b ^ x) & 0x02u32 == 0x02u32) == (b & 0x02u32 == 0x02u32),
        ((b | x) & 0x04u32 == 0x04u32) == (b & 0x04u32 == 0x04u32),
        ((b & !x) & 0x04u32 == 0x04u32) == (b & 0x04u32 == 0x04u32),
        ((b ^ x) & 0x04u32 == 0x04u32) == (b & 0x04u32 == 0x04u32),
        ((b | x) & 0x08u32 == 0x08u32) == (b & 0x08u32 == 0x08u32),
        ((b & !x) & 0x08u32 == 0x08u32) == (b & 0x08u32 == 0x08u32),
        ((b ^ x) & 0x08u32 == 0x08u32) == (b & 0x08u32 == 0x08u32),
        ((b | x) & 0x10u32 == 0x10u32) == (b & 0x10u32 == 0x10u32),
        ((b & !x) & 0x10u32 == 0x10u32) == (b & 0x10u32 == 0x10u32),
        ((b ^ x) & 0x10u32 == 0x10u32) == (b & 0x10u32 == 0x10u32),
        ((b | x) & 0x20u32 == 0x20u32) == (b & 0x20u32 == 0x20u32),
        ((b & !x) & 0x20u32 == 0x20u32) == (b & 0x20u32 == 0x20u32),
        ((b ^ x) & 0x20u32 == 0x20u32) == (b & 0x20u32 == 0x20u32),
        ((b | x) & 0x40u32 == 0x40u32) == (b & 0x40u32 == 0x40u32),
        ((b & !x) & 0x40u32 == 0x40u32) == (b & 0x40u32 == 0x40u32),
        ((b ^ x) & 0x40u32 == 0x40u32) == (b & 0x40u32 == 0x40u32),
        ((b | x) & 0x80u32 == 0x80u32) == (b & 0x80u32 == 0x80u32),
        ((b & !x) & 0x80u32 == 0x80u32) == (b & 0x80u32 == 0x80u32),
        ((b ^ x) & 0x80u32 == 0x80u32) == (b & 0x80u32 == 0x80u32),
        ((b | x) & 0x0200u32 == 0x0200u32) == (b & 0x0200u32 == 0x0200u32),
        ((b & !x) & 0x0200u32 == 0x0200u32) == (b & 0x0200u32 == 0x0200u32),
        ((b ^ x) & 0x0200u32 == 0x0200u32) == (b & 0x0200u32 == 0x0200u32),
        ((b | x) & 0x0400u32 == 0x0400u32) == (b & 0x0400u32 == 0x0400u32),
        ((b & !x) & 0x0400u32 == 0x0400u32) == (b & 0x0400u32 == 0x0400u32),
        ((b ^ x) & 0x0400u32 == 0x0400u32) == (b & 0x0400u32 == 0x0400u32),
{
}

/// Facts about switch words: setting a mask sets it, clearing a nonzero
/// mask clears it, a mask `x` apart from `m` leaves the test of `m` as it
/// was, and the switches used here lie apart from each other.
pub proof fn lemma_mode_facts(b: u32, m: u32, x: u32)
    by (bit_vector)
    ensures
        (b | m) & m == m,
        m != 0 ==> (b & !m) & m != m,
        x & m == 0 ==> (((b | x) & m == m) == (b & m == m)),
        x & m == 0 ==> (((b & !x) & m == m) == (b & m == m)),
        0x0800u32 & 0x07FF == 0,
        0x1000u32 & 0x07FF == 0,
        0x4000u32 & 0x07FF == 0,
        0x8000u32 & 0x07FF == 0,
        0x0001_0000u32 & 0x07FF == 0,
        0x0002_0000u32 & 0x07FF == 0,
        0x0004_0000u32 & 0x07FF == 0,
        0x10u32 & 0x20 == 0,
        0x10u32 & 0x0400 == 0,
        0x20u32 & 0x10 == 0,
        0x20u32 & 0x0400 == 0,
        0x0400u32 & 0x10 == 0,
        0x0400u32 & 0x20 == 0,
{
}

} // verus!
