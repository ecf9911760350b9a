//! GCR encodings of the Disk II: 4-and-4 address fields, 6-and-2 data
//! fields (16-sector) and 5-and-3 data fields (13-sector).

use vstd::prelude::*;
use crate::bits::lemma_byte;

verus! {

// ── 6-and-2 translation table ────────────────────────────────────────────────

/// The 6-and-2 translation table: the valid disk byte that stands for the
/// 6-bit value `v` (0 for values out of range).
pub open spec fn disk_byte_of(v: u8) -> u8 {
    if v == 0 {
        0x96
    } else if v == 1 {
        0x97
    } else if v == 2 {
        0x9A
    } else if v == 3 {
        0x9B
    } else if v == 4 {
        0x9D
    } else if v == 5 {
        0x9E
    } else if v == 6 {
        0x9F
    } else if v == 7 {
        0xA6
    } else if v == 8 {
        0xA7
    } else if v == 9 {
        0xAB
    } else if v == 10 {
        0xAC
    } else if v == 11 {
        0xAD
    } else if v == 12 {
        0xAE
    } else if v == 13 {
        0xAF
    } else if v == 14 {
        0xB2
    } else if v == 15 {
        0xB3
    } else if v == 16 {
        0xB4
    } else if v == 17 {
        0xB5
    } else if v == 18 {
        0xB6
    } else if v == 19 {
        0xB7
    } else if v == 20 {
        0xB9
    } else if v == 21 {
        0xBA
    } else if v == 22 {
        0xBB
    } else if v == 23 {
        0xBC
    } else if v == 24 {
        0xBD
    } else if v == 25 {
        0xBE
    } else if v == 26 {
        0xBF
    } else if v == 27 {
        0xCB
    } else if v == 28 {
        0xCD
    } else if v == 29 {
        0xCE
    } else if v == 30 {
        0xCF
    } else if v == 31 {
        0xD3
    } else if v == 32 {
        0xD6
    } else if v == 33 {
        0xD7
    } else if v == 34 {
        0xD9
    } else if v == 35 {
        0xDA
    } else if v == 36 {
        0xDB
    } else if v == 37 {
        0xDC
    } else if v == 38 {
        0xDD
    } else if v == 39 {
        0xDE
    } else if v == 40 {
        0xDF
    } else if v == 41 {
        0xE5
    } else if v == 42 {
        0xE6
    } else if v == 43 {
        0xE7
    } else if v == 44 {
        0xE9
    } else if v == 45 {
        0xEA
    } else if v == 46 {
        0xEB
    } else if v == 47 {
        0xEC
    } else if v == 48 {
        0xED
    } else if v == 49 {
        0xEE
    } else if v == 50 {
        0xEF
    } else if v == 51 {
        0xF2
    } else if v == 52 {
        0xF3
    } else if v == 53 {
        0xF4
    } else if v == 54 {
        0xF5
    } else if v == 55 {
        0xF6
    } else if v == 56 {
        0xF7
    } else if v == 57 {
        0xF9
    } else if v == 58 {
        0xFA
    } else if v == 59 {
        0xFB
    } else if v == 60 {
        0xFC
    } else if v == 61 {
        0xFD
    } else if v == 62 {
        0xFE
    } else if v == 63 {
        0xFF
    } else {
        0
    }
}

/// The inverse of the 6-and-2 table: the 6-bit value a disk byte stands for,
/// or 0xFF for a byte that is not in the table.
pub open spec fn disk_value_of(b: u8) -> u8 {
    if b == 0x96 {
        0
    } else if b == 0x97 {
        1
    } else if b == 0x9A {
        2
    } else if b == 0x9B {
        3
    } else if b == 0x9D {
        4
    } else if b == 0x9E {
        5
    } else if b == 0x9F {
        6
    } else if b == 0xA6 {
        7
    } else if b == 0xA7 {
        8
    } else if b == 0xAB {
        9
    } else if b == 0xAC {
        10
    } else if b == 0xAD {
        11
    } else if b == 0xAE {
        12
    } else if b == 0xAF {
        13
    } else if b == 0xB2 {
        14
    } else if b == 0xB3 {
        15
    } else if b == 0xB4 {
        16
    } else if b == 0xB5 {
        17
    } else if b == 0xB6 {
        18
    } else if b == 0xB7 {
        19
    } else if b == 0xB9 {
        20
    } else if b == 0xBA {
        21
    } else if b == 0xBB {
        22
    } else if b == 0xBC {
        23
    } else if b == 0xBD {
        24
    } else if b == 0xBE {
        25
    } else if b == 0xBF {
        26
    } else if b == 0xCB {
        27
    } else if b == 0xCD {
        28
    } else if b == 0xCE {
        29
    } else if b == 0xCF {
        30
    } else if b == 0xD3 {
        31
    } else if b == 0xD6 {
        32
    } else if b == 0xD7 {
        33
    } else if b == 0xD9 {
        34
    } else if b == 0xDA {
        35
    } else if b == 0xDB {
        36
    } else if b == 0xDC {
        37
    } else if b == 0xDD {
        38
    } else if b == 0xDE {
        39
    } else if b == 0xDF {
        40
    } else if b == 0xE5 {
        41
    } else if b == 0xE6 {
        42
    } else if b == 0xE7 {
        43
    } else if b == 0xE9 {
        44
    } else if b == 0xEA {
        45
    } else if b == 0xEB {
        46
    } else if b == 0xEC {
        47
    } else if b == 0xED {
        48
    } else if b == 0xEE {
        49
    } else if b == 0xEF {
        50
    } else if b == 0xF2 {
        51
    } else if b == 0xF3 {
        52
    } else if b == 0xF4 {
        53
    } else if b == 0xF5 {
        54
    } else if b == 0xF6 {
        55
    } else if b == 0xF7 {
        56
    } else if b == 0xF9 {
        57
    } else if b == 0xFA {
        58
    } else if b == 0xFB {
        59
    } else if b == 0xFC {
        60
    } else if b == 0xFD {
        61
    } else if b == 0xFE {
        62
    } else if b == 0xFF {
        63
    } else {
        0xFF
    }
}

/// The 6-and-2 table is a bijection between the 6-bit values and the valid
/// disk bytes.
pub proof fn lemma_disk_byte_inverse(v: u8, b: u8)
    by (bit_vector)
    ensures
        v < 64 ==> disk_value_of(disk_byte_of(v)) == v,
        disk_value_of(b) != 0xFF ==> disk_value_of(b) < 64 && disk_byte_of(disk_value_of(b)) == b,
{
}

/// The disk byte for the 6-bit value `v`.
pub fn disk_byte(v: u8) -> (r: u8)
    requires
        v < 64,
    ensures
        r == disk_byte_of(v),
{
    match v {
        0 => 0x96,
        1 => 0x97,
        2 => 0x9A,
        3 => 0x9B,
        4 => 0x9D,
        5 => 0x9E,
        6 => 0x9F,
        7 => 0xA6,
        8 => 0xA7,
        9 => 0xAB,
        10 => 0xAC,
        11 => 0xAD,
        12 => 0xAE,
        13 => 0xAF,
        14 => 0xB2,
        15 => 0xB3,
        16 => 0xB4,
        17 => 0xB5,
        18 => 0xB6,
        19 => 0xB7,
        20 => 0xB9,
        21 => 0xBA,
        22 => 0xBB,
        23 => 0xBC,
        24 => 0xBD,
        25 => 0xBE,
        26 => 0xBF,
        27 => 0xCB,
        28 => 0xCD,
        29 => 0xCE,
        30 => 0xCF,
        31 => 0xD3,
        32 => 0xD6,
        33 => 0xD7,
        34 => 0xD9,
        35 => 0xDA,
        36 => 0xDB,
        37 => 0xDC,
        38 => 0xDD,
        39 => 0xDE,
        40 => 0xDF,
        41 => 0xE5,
        42 => 0xE6,
        43 => 0xE7,
        44 => 0xE9,
        45 => 0xEA,
        46 => 0xEB,
        47 => 0xEC,
        48 => 0xED,
        49 => 0xEE,
        50 => 0xEF,
        51 => 0xF2,
        52 => 0xF3,
        53 => 0xF4,
        54 => 0xF5,
        55 => 0xF6,
        56 => 0xF7,
        57 => 0xF9,
        58 => 0xFA,
        59 => 0xFB,
        60 => 0xFC,
        61 => 0xFD,
        62 => 0xFE,
        63 => 0xFF,
        _ => 0,
    }
}

/// The inverse lookup table of the 6-and-2 encoding: disk byte to 6-bit
/// value, 0xFF for bytes that are not valid disk bytes.
pub fn disk_byte_inv() -> (inv: [u8; 256])
    ensures
        forall|b: u8| inv@[b as int] == disk_value_of(b),
{
    let mut inv = [0xFFu8; 256];
    let mut idx: u8 = 0;
    while idx < 64
        invariant
            idx <= 64,
            inv@.len() == 256,
            forall|b: u8|
                inv@[b as int] == (if disk_value_of(b) < idx {
                    disk_value_of(b)
                } else {
                    0xFF
                }),
        decreases 64 - idx,
    {
        let b = disk_byte(idx);
        inv.set(b as usize, idx);
        proof {
            assert forall|c: u8|
                inv@[c as int] == (if disk_value_of(c) < idx + 1 {
                    disk_value_of(c)
                } else {
                    0xFF
                }) by {
                lemma_disk_byte_inverse(idx, c);
            }
        }
        idx += 1;
    }
    inv
}

// ── 4-and-4 address-field encoding ─────────────────────────────────────────

/// First byte of the 4-and-4 code of `a`: its odd bits.
pub open spec fn code44a_of(a: u8) -> u8 {
    ((a >> 1) & 0x55) | 0xAA
}

/// Second byte of the 4-and-4 code of `a`: its even bits.
pub open spec fn code44b_of(a: u8) -> u8 {
    (a & 0x55) | 0xAA
}

/// The byte a 4-and-4 pair stands for.
pub open spec fn decode44_of(a: u8, b: u8) -> u8 {
    ((a & 0x55) << 1) | (b & 0x55)
}

/// First byte of the 4-and-4 code of `a`.
pub fn code44a(a: u8) -> (r: u8)
    ensures
        r == code44a_of(a),
{
    ((a >> 1) & 0x55) | 0xAA
}

/// Second byte of the 4-and-4 code of `a`.
pub fn code44b(a: u8) -> (r: u8)
    ensures
        r == code44b_of(a),
{
    (a & 0x55) | 0xAA
}

/// Decode a 4-and-4 encoded byte pair back to the original byte.
pub fn decode44(a: u8, b: u8) -> (r: u8)
    ensures
        r == decode44_of(a, b),
{
    ((a & 0x55) << 1) | (b & 0x55)
}

/// Decoding a 4-and-4 pair gives back the encoded byte; both bytes of the
/// code have their top bit set and are never the 0xD5 mark byte.
pub proof fn lemma_decode44_code44(x: u8)
    by (bit_vector)
    ensures
        decode44_of(code44a_of(x), code44b_of(x)) == x,
        code44a_of(x) >= 0x80 && code44b_of(x) >= 0x80,
        code44a_of(x) != 0xD5 && code44b_of(x) != 0xD5,
{
}

// ── 6-and-2 data-field encoding ────────────────────────────────────────────

/// The low two bits of `x`, swapped.
pub open spec fn swap2(x: u8) -> u8 {
    ((x & 1) << 1) | ((x & 2) >> 1)
}

/// A 6-and-2 secondary value: the swapped low bit pairs of three sector
/// bytes, in bits 7:2.
pub open spec fn pack62(a: u8, b: u8, c: u8) -> u8 {
    ((swap2(a) << 4) | (swap2(b) << 2) | swap2(c)) << 2
}

/// Secondary value `k` (0..86) of a sector: the low bits of bytes
/// `0xAC + k` (mod 256), `0x56 + k` and `k`. The last two drop their first
/// field, which would repeat bytes 0 and 1.
pub open spec fn code62_secondary(s: Seq<u8>, k: int) -> u8 {
    let v = pack62(s[(0xAC + k) % 256], s[0x56 + k], s[k]);
    if k >= 84 {
        v & 0x3F
    } else {
        v
    }
}

/// The 342 raw 6-and-2 values of a sector: 86 secondaries, then the 256
/// bytes themselves (of which only the top six bits are kept on disk).
pub open spec fn code62_raw(s: Seq<u8>, i: int) -> u8 {
    if i < 86 {
        code62_secondary(s, i)
    } else {
        s[i - 86]
    }
}

/// The XOR chain of the raw values: each value XORed with the previous one,
/// and the last raw value as the checksum (index 342).
pub open spec fn code62_xored(s: Seq<u8>, i: int) -> u8 {
    if i == 342 {
        code62_raw(s, 341)
    } else if i == 0 {
        code62_raw(s, 0)
    } else {
        code62_raw(s, i - 1) ^ code62_raw(s, i)
    }
}

/// The 343 disk bytes of the 6-and-2 data field of a 256-byte sector.
pub open spec fn code62_spec(s: Seq<u8>) -> Seq<u8> {
    Seq::new(343, |i: int| disk_byte_of(code62_xored(s, i) >> 2))
}

/// Encode a 256-byte sector as the 343 disk bytes of a 6-and-2 data field.
pub fn code62(sector: &[u8; 256]) -> (out: [u8; 343])
    ensures
        out@ == code62_spec(sector@),
{
    let ghost s = sector@;
    let mut raw = [0u8; 342];
    let mut offset: u8 = 0xAC;
    let mut ri: usize = 0;
    while offset != 0x02
        invariant
            ri <= 86,
            offset as int == (0xAC + ri) % 256,
            raw@.len() == 342,
            s == sector@,
            s.len() == 256,
            forall|k: int|
                0 <= k < ri ==> raw@[k] == pack62(s[(0xAC + k) % 256], s[0x56 + k], s[k]),
        decreases 86 - ri,
    {
        let a = sector[offset as usize];
        offset = offset.wrapping_sub(0x56);
        let b = sector[offset as usize];
        offset = offset.wrapping_sub(0x56);
        let c = sector[offset as usize];
        offset = offset.wrapping_sub(0x53);
        let ra = (a & 1) << 1 | (a & 2) >> 1;
        let rb = (b & 1) << 1 | (b & 2) >> 1;
        let rc = (c & 1) << 1 | (c & 2) >> 1;
        proof {
            lemma_byte(a, 0, 0, 0);
            lemma_byte(b, 0, 0, 0);
            lemma_byte(c, 0, 0, 0);
        }
        raw.set(ri, ((ra << 4) | (rb << 2) | rc) << 2);
        ri += 1;
    }
    let m84 = raw[ri - 2] & 0x3F;
    raw.set(ri - 2, m84);
    let m85 = raw[ri - 1] & 0x3F;
    raw.set(ri - 1, m85);
    let mut j: usize = 0;
    while j < 256
        invariant
            j <= 256,
            raw@.len() == 342,
            s == sector@,
            s.len() == 256,
            forall|k: int| 0 <= k < 86 ==> raw@[k] == code62_secondary(s, k),
            forall|k: int| 86 <= k < 86 + j ==> raw@[k] == s[k - 86],
        decreases 256 - j,
    {
        raw.set(86 + j, sector[j]);
        j += 1;
    }
    assert forall|k: int| 0 <= k < 342 implies raw@[k] == code62_raw(s, k) by {}
    let mut xored = [0u8; 343];
    let mut prev: u8 = 0;
    let mut i: usize = 0;
    while i < 342
        invariant
            i <= 342,
            raw@.len() == 342,
            xored@.len() == 343,
            forall|k: int| 0 <= k < 342 ==> raw@[k] == code62_raw(s, k),
            prev == (if i == 0 { 0u8 } else { raw@[i - 1] }),
            forall|k: int| 0 <= k < i ==> xored@[k] == code62_xored(s, k),
        decreases 342 - i,
    {
        let r = raw[i];
        xored.set(i, prev ^ r);
        proof {
            lemma_byte(r, 0, 0, 0);
        }
        prev = r;
        i += 1;
    }
    xored.set(342, prev);
    let mut out = [0u8; 343];
    let mut i: usize = 0;
    while i < 343
        invariant
            i <= 343,
            xored@.len() == 343,
            out@.len() == 343,
            forall|k: int| 0 <= k < 343 ==> xored@[k] == code62_xored(s, k),
            forall|k: int| 0 <= k < i ==> out@[k] == disk_byte_of(code62_xored(s, k) >> 2),
        decreases 343 - i,
    {
        let x = xored[i];
        proof {
            lemma_byte(x, 0, 0, 0);
        }
        out.set(i, disk_byte(x >> 2));
        i += 1;
    }
    assert(out@ == code62_spec(s));
    out
}

// ── 6-and-2 decoding ────────────────────────────────────────────────────────

/// Every one of the 343 bytes is a valid 6-and-2 disk byte.
pub open spec fn gcr_valid(g: Seq<u8>) -> bool {
    forall|i: int| 0 <= i < 343 ==> disk_value_of(#[trigger] g[i]) != 0xFF
}

/// The 6-bit value of disk byte `i`, in bits 7:2.
pub open spec fn dec_val(g: Seq<u8>, i: int) -> u8 {
    disk_value_of(g[i]) << 2
}

/// Raw value `i` recovered by undoing the XOR chain.
pub open spec fn dec_raw(g: Seq<u8>, i: int) -> u8
    decreases i,
{
    if i <= 0 {
        dec_val(g, 0)
    } else {
        dec_val(g, i) ^ dec_raw(g, i - 1)
    }
}

/// A swapped bit pair put back in order.
pub open spec fn unswap2(r: u8) -> u8 {
    ((r & 1) << 1) | ((r >> 1) & 1)
}

/// Sector byte `j` after the primary value and the low bits of the first
/// `k` secondary values have been applied.
pub open spec fn dec_sector_partial(g: Seq<u8>, j: int, k: int) -> u8 {
    let base = dec_raw(g, 86 + j) & 0xFC;
    let with_c = if j < 86 && j < k {
        base | unswap2((dec_raw(g, j) >> 2) & 0x03)
    } else {
        base
    };
    let with_b = if 86 <= j < 172 && j - 86 < k {
        with_c | unswap2(((dec_raw(g, j - 86) >> 2) >> 2) & 0x03)
    } else {
        with_c
    };
    if 172 <= j && j - 172 < k {
        with_b | unswap2(((dec_raw(g, j - 172) >> 2) >> 4) & 0x03)
    } else if j < 2 && j + 84 < k {
        with_b | unswap2(((dec_raw(g, j + 84) >> 2) >> 4) & 0x03)
    } else {
        with_b
    }
}

/// What a 6-and-2 data field decodes to: `None` when a byte is not a valid
/// disk byte or the checksum does not match, else the 256 sector bytes.
pub open spec fn decode62_spec(g: Seq<u8>) -> Option<Seq<u8>> {
    if gcr_valid(g) && dec_val(g, 342) == dec_raw(g, 341) {
        Some(Seq::new(256, |j: int| dec_sector_partial(g, j, 86)))
    } else {
        None
    }
}

/// Decode the 343 disk bytes of a 6-and-2 data field back to 256 sector
/// bytes; `None` if a byte is invalid or the checksum fails. `inv` is the
/// inverse table of `disk_byte_inv`.
pub fn decode62(gcr: &[u8; 343], inv: &[u8; 256]) -> (r: Option<[u8; 256]>)
    requires
        forall|b: u8| inv@[b as int] == disk_value_of(b),
    ensures
        r is Some <==> decode62_spec(gcr@) is Some,
        r is Some ==> r->0@ == decode62_spec(gcr@)->0,
{
    let ghost g = gcr@;
    let mut vals = [0u8; 343];
    let mut i: usize = 0;
    while i < 343
        invariant
            i <= 343,
            g == gcr@,
            g.len() == 343,
            vals@.len() == 343,
            forall|b: u8| inv@[b as int] == disk_value_of(b),
            forall|k: int| 0 <= k < i ==> disk_value_of(#[trigger] g[k]) != 0xFF,
            forall|k: int| 0 <= k < i ==> vals@[k] == dec_val(g, k),
        decreases 343 - i,
    {
        let v = inv[gcr[i] as usize];
        if v == 0xFF {
            assert(!gcr_valid(g)) by {
                assert(disk_value_of(g[i as int]) == 0xFF);
            }
            return None;
        }
        vals.set(i, v << 2);
        i += 1;
    }
    assert(gcr_valid(g));
    let mut raw = [0u8; 342];
    raw.set(0, vals[0]);
    let mut i: usize = 1;
    while i < 342
        invariant
            1 <= i <= 342,
            raw@.len() == 342,
            vals@.len() == 343,
            forall|k: int| 0 <= k < 343 ==> vals@[k] == dec_val(g, k),
            forall|k: int| 0 <= k < i ==> raw@[k] == dec_raw(g, k),
        decreases 342 - i,
    {
        let x = vals[i] ^ raw[i - 1];
        assert(dec_raw(g, i as int) == dec_val(g, i as int) ^ dec_raw(g, i - 1));
        raw.set(i, x);
        i += 1;
    }
    if vals[342] != raw[341] {
        return None;
    }
    let mut sector = [0u8; 256];
    let mut j: usize = 0;
    while j < 256
        invariant
            j <= 256,
            raw@.len() == 342,
            sector@.len() == 256,
            forall|k: int| 0 <= k < 342 ==> raw@[k] == dec_raw(g, k),
            forall|k: int| 0 <= k < j ==> sector@[k] == dec_raw(g, 86 + k) & 0xFC,
        decreases 256 - j,
    {
        sector.set(j, raw[86 + j] & 0xFC);
        j += 1;
    }
    let mut offset: u8 = 0xAC;
    let mut k: usize = 0;
    while k < 86
        invariant
            k <= 86,
            offset as int == (0xAC + k) % 256,
            raw@.len() == 342,
            sector@.len() == 256,
            forall|t: int| 0 <= t < 342 ==> raw@[t] == dec_raw(g, t),
            forall|t: int| 0 <= t < 256 ==> sector@[t] == dec_sector_partial(g, t, k as int),
        decreases 86 - k,
    {
        let raw_byte = raw[k];
        let s6 = raw_byte >> 2;
        let ra = (s6 >> 4) & 0x03;
        let rb = (s6 >> 2) & 0x03;
        let rc = s6 & 0x03;
        let a_bits = ((ra & 1) << 1) | ((ra >> 1) & 1);
        let b_bits = ((rb & 1) << 1) | ((rb >> 1) & 1);
        let c_bits = ((rc & 1) << 1) | ((rc >> 1) & 1);
        let oa = offset as usize;
        offset = offset.wrapping_sub(0x56);
        let ob = offset as usize;
        offset = offset.wrapping_sub(0x56);
        let oc = offset as usize;
        offset = offset.wrapping_sub(0x53);
        let ghost before = sector@;
        if oa < 256 {
            let cur = sector[oa];
            sector.set(oa, cur | a_bits);
        }
        if ob < 256 {
            let cur = sector[ob];
            sector.set(ob, cur | b_bits);
        }
        if oc < 256 {
            let cur = sector[oc];
            sector.set(oc, cur | c_bits);
        }
        proof {
            assert(oa == (0xAC + k) % 256 && ob == 0x56 + k && oc == k);
            assert forall|t: int| 0 <= t < 256 implies sector@[t] == dec_sector_partial(
                g,
                t,
                k + 1,
            ) by {
                assert(before[t] == dec_sector_partial(g, t, k as int));
            }
        }
        k += 1;
    }
    let ghost expect = decode62_spec(g)->0;
    assert(sector@ == expect);
    Some(sector)
}

/// Bit facts behind the 6-and-2 round trip.
proof fn lemma_pack62_fields(a: u8, b: u8, c: u8)
    by (bit_vector)
    ensures
        pack62(a, b, c) & 0xFC == pack62(a, b, c),
        unswap2(((pack62(a, b, c) & 0xFC) >> 2) & 0x03) == c & 3,
        unswap2((((pack62(a, b, c) & 0xFC) >> 2) >> 2) & 0x03) == b & 3,
        unswap2((((pack62(a, b, c) & 0xFC) >> 2) >> 4) & 0x03) == a & 3,
        unswap2(((((pack62(a, b, c) & 0x3F) & 0xFC) >> 2) >> 4) & 0x03) == 0,
        unswap2((((pack62(a, b, c) & 0x3F) & 0xFC) >> 2) & 0x03) == c & 3,
        unswap2(((((pack62(a, b, c) & 0x3F) & 0xFC) >> 2) >> 2) & 0x03) == b & 3,
        (pack62(a, b, c) & 0x3F) & 0xFC == pack62(a, b, c) & 0x3F,
{
}

/// The raw values come back from the XOR chain with their low two bits
/// cleared.
proof fn lemma_dec_raw_code62(s: Seq<u8>, i: int)
    requires
        s.len() == 256,
        0 <= i < 342,
        forall|t: int|
            0 <= t < 343 ==> dec_val(code62_spec(s), t) == code62_xored(s, t) & 0xFC,
    ensures
        dec_raw(code62_spec(s), i) == code62_raw(s, i) & 0xFC,
    decreases i,
{
    let g = code62_spec(s);
    if i == 0 {
    } else {
        lemma_dec_raw_code62(s, i - 1);
        let p = code62_raw(s, i - 1);
        let c = code62_raw(s, i);
        lemma_byte(p, c, 0, 0);
    }
}

/// Decoding the 6-and-2 data field of a sector gives the sector back.
pub proof fn lemma_decode62_code62(s: Seq<u8>)
    requires
        s.len() == 256,
    ensures
        decode62_spec(code62_spec(s)) == Some(s),
{
    let g = code62_spec(s);
    assert forall|t: int| 0 <= t < 343 implies disk_value_of(#[trigger] g[t]) != 0xFF
        && dec_val(g, t) == code62_xored(s, t) & 0xFC by {
        let x = code62_xored(s, t);
        lemma_byte(x, 0, 0, 0);
        lemma_disk_byte_inverse(x >> 2, 0);
    }
    assert(gcr_valid(g));
    assert forall|t: int| 0 <= t < 342 implies dec_raw(g, t) == code62_raw(s, t) & 0xFC by {
        lemma_dec_raw_code62(s, t);
    }
    assert(dec_val(g, 342) == dec_raw(g, 341));
    assert forall|j: int| 0 <= j < 256 implies dec_sector_partial(g, j, 86) == s[j] by {
        let x = s[j];
        lemma_byte(x, 0, 0, 0);
        let base = dec_raw(g, 86 + j) & 0xFC;
        assert(base == (x & 0xFC));
        if j < 2 {
            lemma_pack62_fields(s[(0xAC + j) % 256], s[0x56 + j], s[j]);
            lemma_pack62_fields(s[(0xAC + j + 84) % 256], s[0x56 + j + 84], s[j + 84]);
        } else if j < 86 {
            lemma_pack62_fields(s[(0xAC + j) % 256], s[0x56 + j], s[j]);
        } else if j < 172 {
            lemma_pack62_fields(s[(0xAC + j - 86) % 256], s[0x56 + j - 86], s[j - 86]);
        } else {
            lemma_pack62_fields(s[(0xAC + j - 172) % 256], s[0x56 + j - 172], s[j - 172]);
            assert((0xAC + j - 172) % 256 == j);
        }
    }
    assert(Seq::new(256, |j: int| dec_sector_partial(g, j, 86)) == s);
}

// ── 5-and-3 data-field encoding (13-sector) ────────────────────────────────

/// The 5-and-3 translation table: 5-bit value to valid disk byte.
pub open spec fn trans53_table() -> Seq<u8> {
    seq![
        0xABu8, 0xAD, 0xAE, 0xAF, 0xB5, 0xB6, 0xB7, 0xBA,
        0xBB, 0xBD, 0xBE, 0xBF, 0xD6, 0xD7, 0xDA, 0xDB,
        0xDD, 0xDE, 0xDF, 0xEA, 0xEB, 0xED, 0xEE, 0xEF,
        0xF5, 0xF6, 0xF7, 0xFA, 0xFB, 0xFD, 0xFE, 0xFF,
    ]
}

/// The disk byte for the 5-bit value `v`.
pub fn trans53(v: u8) -> (r: u8)
    requires
        v < 32,
    ensures
        r == trans53_table()[v as int],
{
    let table: [u8; 32] = [
        0xAB, 0xAD, 0xAE, 0xAF, 0xB5, 0xB6, 0xB7, 0xBA,
        0xBB, 0xBD, 0xBE, 0xBF, 0xD6, 0xD7, 0xDA, 0xDB,
        0xDD, 0xDE, 0xDF, 0xEA, 0xEB, 0xED, 0xEE, 0xEF,
        0xF5, 0xF6, 0xF7, 0xFA, 0xFB, 0xFD, 0xFE, 0xFF,
    ];
    assert(table@ == trans53_table());
    table[v as usize]
}

/// The 342 raw 5-and-3 values of a sector: 86 secondaries packing the low
/// bits of bytes `i`, `i + 86` and `i + 172` (0 past the end), then the top
/// five bits of each of the 256 bytes.
pub open spec fn code53_raw(s: Seq<u8>, i: int) -> u8 {
    if i < 86 {
        let c: u8 = if i + 172 < 256 {
            s[i + 172]
        } else {
            0
        };
        ((c & 0x03) << 3) | ((s[i + 86] & 0x03) << 1) | (s[i] & 0x01)
    } else {
        (s[i - 86] >> 3) & 0x1F
    }
}

/// The 342 disk bytes of a 5-and-3 data field: the XOR chain of the raw
/// values through the 5-and-3 table.
pub open spec fn code53_spec(s: Seq<u8>) -> Seq<u8> {
    Seq::new(
        342,
        |i: int|
            {
                let prev: u8 = if i == 0 {
                    0
                } else {
                    code53_raw(s, i - 1)
                };
                trans53_table()[((prev ^ code53_raw(s, i)) & 0x1F) as int]
            },
    )
}

/// The checksum byte of a 5-and-3 data field.
pub open spec fn code53_checksum(s: Seq<u8>) -> u8 {
    trans53_table()[(code53_raw(s, 341) & 0x1F) as int]
}

/// The 5-bit value that 5-and-3 disk byte `b` stands for, as a reading
/// routine's inverse table gives it (0 for a byte that is not a 5-and-3
/// disk byte).
pub open spec fn value53(b: u8) -> u8 {
    if b == 0xAB {
        0
    } else if b == 0xAD {
        1
    } else if b == 0xAE {
        2
    } else if b == 0xAF {
        3
    } else if b == 0xB5 {
        4
    } else if b == 0xB6 {
        5
    } else if b == 0xB7 {
        6
    } else if b == 0xBA {
        7
    } else if b == 0xBB {
        8
    } else if b == 0xBD {
        9
    } else if b == 0xBE {
        10
    } else if b == 0xBF {
        11
    } else if b == 0xD6 {
        12
    } else if b == 0xD7 {
        13
    } else if b == 0xDA {
        14
    } else if b == 0xDB {
        15
    } else if b == 0xDD {
        16
    } else if b == 0xDE {
        17
    } else if b == 0xDF {
        18
    } else if b == 0xEA {
        19
    } else if b == 0xEB {
        20
    } else if b == 0xED {
        21
    } else if b == 0xEE {
        22
    } else if b == 0xEF {
        23
    } else if b == 0xF5 {
        24
    } else if b == 0xF6 {
        25
    } else if b == 0xF7 {
        26
    } else if b == 0xFA {
        27
    } else if b == 0xFB {
        28
    } else if b == 0xFD {
        29
    } else if b == 0xFE {
        30
    } else if b == 0xFF {
        31
    } else {
        0
    }
}

/// The value that decoding a 5-and-3 field `g` gives at position `i`: each
/// disk byte's value XORed with the value decoded just before it.
pub open spec fn decode53_chain(g: Seq<u8>, i: int) -> u8
    decreases i + 1,
{
    if i < 0 {
        0
    } else {
        value53(g[i]) ^ decode53_chain(g, i - 1)
    }
}

/// Decoding the first `i + 1` bytes of a sector's 5-and-3 field recovers
/// the five-bit value the field encodes at position `i`.
proof fn lemma_code53_chain(s: Seq<u8>, i: int)
    requires
        s.len() == 256,
        0 <= i < 342,
    ensures
        decode53_chain(code53_spec(s), i) == code53_raw(s, i) & 0x1F,
    decreases i,
{
    let g = code53_spec(s);
    let prev: u8 = if i == 0 {
        0
    } else {
        code53_raw(s, i - 1)
    };
    let v = (prev ^ code53_raw(s, i)) & 0x1F;
    crate::bits::lemma_byte_arith(prev, code53_raw(s, i), 0);
    crate::bits::lemma_byte_arith(prev ^ code53_raw(s, i), 0, 0);
    assert(v < 32);
    assert(g[i] == trans53_table()[v as int]);
    assert(value53(trans53_table()[v as int]) == v);
    if i > 0 {
        lemma_code53_chain(s, i - 1);
        assert(decode53_chain(g, i - 1) == prev & 0x1F);
    } else {
        assert(decode53_chain(g, -1) == 0);
        assert(prev & 0x1F == 0);
    }
}

/// Decoding a sector's 5-and-3 data field gives back the top five bits of
/// each sector byte: value `86 + j` of the XOR chain is `s[j] / 8`.
pub proof fn lemma_code53_decodes(s: Seq<u8>, j: int)
    requires
        s.len() == 256,
        0 <= j < 256,
    ensures
        decode53_chain(code53_spec(s), 86 + j) == s[j] / 8,
{
    lemma_code53_chain(s, 86 + j);
    crate::bits::lemma_byte(s[j], 0, 0, 0);
}

/// The first 86 values of a sector's 5-and-3 data field decode to the low
/// bits of the sector bytes: bit 0 of byte `i`, bits 0-1 of byte `i + 86`
/// and bits 0-1 of byte `i + 172` (0 past the end).
pub proof fn lemma_code53_decodes_low_bits(s: Seq<u8>, i: int)
    requires
        s.len() == 256,
        0 <= i < 86,
    ensures
        decode53_chain(code53_spec(s), i) == s[i] % 2 + 2 * (s[i + 86] % 4) + 8 * (if i + 172 < 256 {
            s[i + 172] % 4
        } else {
            0
        }),
{
    lemma_code53_chain(s, i);
    let c: u8 = if i + 172 < 256 {
        s[i + 172]
    } else {
        0
    };
    crate::bits::lemma_byte(s[i], s[i + 86], c, 0);
}

/// The checksum byte of a 5-and-3 data field stands for the last value of
/// the decoding chain, so XORing it into the chain leaves zero.
pub proof fn lemma_code53_checksum_closes(s: Seq<u8>)
    requires
        s.len() == 256,
    ensures
        value53(code53_checksum(s)) == decode53_chain(code53_spec(s), 341),
        value53(code53_checksum(s)) ^ decode53_chain(code53_spec(s), 341) == 0,
{
    lemma_code53_chain(s, 341);
    crate::bits::lemma_byte_arith(code53_raw(s, 341), 0, 0);
    let v = code53_raw(s, 341) & 0x1F;
    assert(value53(trans53_table()[v as int]) == v);
    crate::bits::lemma_byte(v, v, 0, 0);
    assert(v ^ v == 0) by {
        crate::bits::lemma_byte_arith(v, v, 0);
        crate::bits::lemma_byte_arith(0, 0, 0);
    }
}

/// Encode 256 sector bytes as a 5-and-3 data field: 342 disk bytes and the
/// checksum byte.
pub fn code53(sector: &[u8; 256]) -> (r: ([u8; 342], u8))
    ensures
        r.0@ == code53_spec(sector@),
        r.1 == code53_checksum(sector@),
{
    let ghost s = sector@;
    let mut raw = [0u8; 342];
    let mut i: usize = 0;
    while i < 86
        invariant
            i <= 86,
            raw@.len() == 342,
            s == sector@,
            s.len() == 256,
            forall|k: int| 0 <= k < i ==> raw@[k] == code53_raw(s, k),
        decreases 86 - i,
    {
        let a = sector[i];
        let b = sector[i + 86];
        let c = if i + 172 < 256 {
            sector[i + 172]
        } else {
            0
        };
        raw.set(i, ((c & 0x03) << 3) | ((b & 0x03) << 1) | (a & 0x01));
        i += 1;
    }
    let mut i: usize = 0;
    while i < 256
        invariant
            i <= 256,
            raw@.len() == 342,
            s == sector@,
            s.len() == 256,
            forall|k: int| 0 <= k < 86 + i ==> raw@[k] == code53_raw(s, k),
        decreases 256 - i,
    {
        raw.set(86 + i, (sector[i] >> 3) & 0x1F);
        i += 1;
    }
    let mut out = [0u8; 342];
    let mut prev: u8 = 0;
    let mut i: usize = 0;
    while i < 342
        invariant
            i <= 342,
            raw@.len() == 342,
            out@.len() == 342,
            forall|k: int| 0 <= k < 342 ==> raw@[k] == code53_raw(s, k),
            prev == (if i == 0 { 0u8 } else { code53_raw(s, i - 1) }),
            forall|k: int| 0 <= k < i ==> out@[k] == code53_spec(s)[k],
        decreases 342 - i,
    {
        let cur = raw[i];
        let v = (prev ^ cur) & 0x1F;
        proof {
            lemma_byte(prev, cur, 0, 0);
        }
        out.set(i, trans53(v));
        prev = cur;
        i += 1;
    }
    let v = prev & 0x1F;
    proof {
        lemma_byte(prev, 0, 0, 0);
    }
    let checksum = trans53(v);
    assert(out@ == code53_spec(s));
    (out, checksum)
}

} // verus!
