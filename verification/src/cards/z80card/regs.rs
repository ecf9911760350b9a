//! The Z80 register file, its flag byte and its register pairs.
//!
//! The flag byte is modelled bit by bit: `bit(f, m)` says whether the bit of
//! mask `m` is set, and `pack` builds a flag byte from its eight bits.

use vstd::prelude::*;

verus! {

/// Carry.
pub const FLAG_C: u8 = 0x01;
/// Add/subtract.
pub const FLAG_N: u8 = 0x02;
/// Parity/overflow.
pub const FLAG_PV: u8 = 0x04;
/// Undocumented copy of bit 3 of a result.
pub const FLAG_X: u8 = 0x08;
/// Half carry.
pub const FLAG_H: u8 = 0x10;
/// Undocumented copy of bit 5 of a result.
pub const FLAG_Y: u8 = 0x20;
/// Zero.
pub const FLAG_Z: u8 = 0x40;
/// Sign.
pub const FLAG_S: u8 = 0x80;

/// Whether the bit of mask `m` (a power of two) is set in `v`.
pub open spec fn bit(v: u8, m: u8) -> bool {
    (v / m) % 2 == 1
}

/// `f` with the bit of mask `m` (a power of two below 256) set to `v`.
pub open spec fn with_bit(f: u8, m: u8, v: bool) -> u8 {
    if bit(f, m) == v {
        f
    } else if v {
        (f + m) as u8
    } else {
        (f - m) as u8
    }
}

/// `m` is the mask of one flag bit.
pub open spec fn flag_mask(m: u8) -> bool {
    m == 1 || m == 2 || m == 4 || m == 8 || m == 16 || m == 32 || m == 64 || m == 128
}

/// 1 for `true`, 0 for `false`.
pub open spec fn b2i(v: bool) -> int {
    if v { 1 } else { 0 }
}

/// The flag byte with the given bits, sign first.
pub open spec fn pack(s: bool, z: bool, y: bool, h: bool, x: bool, pv: bool, n: bool, c: bool) -> u8 {
    (b2i(s) * 128 + b2i(z) * 64 + b2i(y) * 32 + b2i(h) * 16 + b2i(x) * 8 + b2i(pv) * 4 + b2i(n) * 2
        + b2i(c)) as u8
}

/// The 16-bit value with high byte `hi` and low byte `lo`.
pub open spec fn pair(hi: u8, lo: u8) -> u16 {
    (hi * 256 + lo) as u16
}

/// High byte of `v`.
pub open spec fn hi_byte(v: u16) -> u8 {
    (v / 256) as u8
}

/// Low byte of `v`.
pub open spec fn lo_byte(v: u16) -> u8 {
    (v % 256) as u8
}

/// Number of one bits of `v`.
pub open spec fn ones(v: nat) -> nat
    decreases v,
{
    if v == 0 {
        0
    } else {
        v % 2 + ones(v / 2)
    }
}

/// Even parity: `v` has an even number of one bits.
pub open spec fn parity_spec(v: u8) -> bool {
    ones(v as nat) % 2 == 0
}

/// Whether the bit of mask `m` is set in `v`.
pub fn bit_set(v: u8, m: u8) -> (r: bool)
    requires
        m > 0,
    ensures
        r == bit(v, m),
{
    (v / m) % 2 == 1
}

/// The flag byte with the given bits.
pub fn pack_flags(s: bool, z: bool, y: bool, h: bool, x: bool, pv: bool, n: bool, c: bool) -> (r: u8)
    ensures
        r == pack(s, z, y, h, x, pv, n, c),
{
    let mut f: u8 = 0;
    if s {
        f = f + 0x80;
    }
    if z {
        f = f + 0x40;
    }
    if y {
        f = f + 0x20;
    }
    if h {
        f = f + 0x10;
    }
    if x {
        f = f + 0x08;
    }
    if pv {
        f = f + 0x04;
    }
    if n {
        f = f + 0x02;
    }
    if c {
        f = f + 0x01;
    }
    f
}

/// Even parity of `v`.
pub fn parity(v: u8) -> (r: bool)
    ensures
        r == parity_spec(v),
{
    let mut x: u8 = v;
    let mut even: bool = true;
    while x > 0
        invariant
            (ones(v as nat) % 2 == 0) == (even == (ones(x as nat) % 2 == 0)),
        decreases x,
    {
        if x % 2 == 1 {
            even = !even;
        }
        x = x / 2;
    }
    even
}

/// The 16-bit value with high byte `hi` and low byte `lo`.
pub fn make_pair(hi: u8, lo: u8) -> (r: u16)
    ensures
        r == pair(hi, lo),
{
    hi as u16 * 256 + lo as u16
}

/// The Z80 register file.
#[derive(Clone, Copy, Debug)]
pub struct Regs {
    pub a: u8,
    pub f: u8,
    pub b: u8,
    pub c: u8,
    pub d: u8,
    pub e: u8,
    pub h: u8,
    pub l: u8,
    /// The alternate set.
    pub a2: u8,
    pub f2: u8,
    pub b2: u8,
    pub c2: u8,
    pub d2: u8,
    pub e2: u8,
    pub h2: u8,
    pub l2: u8,
    pub ix: u16,
    pub iy: u16,
    pub sp: u16,
    pub pc: u16,
    /// Interrupt vector base.
    pub i: u8,
    /// Refresh counter.
    pub r: u8,
    pub iff1: bool,
    pub iff2: bool,
    /// Interrupt mode 0, 1 or 2.
    pub im: u8,
    pub halted: bool,
}

/// The register file after power-on: all registers 0xFF, PC 0, I and R 0,
/// interrupts off in mode 0, not halted.
pub open spec fn power_on_regs() -> Regs {
    Regs {
        a: 0xFF,
        f: 0xFF,
        b: 0xFF,
        c: 0xFF,
        d: 0xFF,
        e: 0xFF,
        h: 0xFF,
        l: 0xFF,
        a2: 0xFF,
        f2: 0xFF,
        b2: 0xFF,
        c2: 0xFF,
        d2: 0xFF,
        e2: 0xFF,
        h2: 0xFF,
        l2: 0xFF,
        ix: 0xFFFF,
        iy: 0xFFFF,
        sp: 0xFFFF,
        pc: 0,
        i: 0,
        r: 0,
        iff1: false,
        iff2: false,
        im: 0,
        halted: false,
    }
}

impl Regs {
    /// The power-on register file.
    pub fn new() -> (r: Self)
        ensures
            r == power_on_regs(),
    {
        Regs {
            a: 0xFF,
            f: 0xFF,
            b: 0xFF,
            c: 0xFF,
            d: 0xFF,
            e: 0xFF,
            h: 0xFF,
            l: 0xFF,
            a2: 0xFF,
            f2: 0xFF,
            b2: 0xFF,
            c2: 0xFF,
            d2: 0xFF,
            e2: 0xFF,
            h2: 0xFF,
            l2: 0xFF,
            ix: 0xFFFF,
            iy: 0xFFFF,
            sp: 0xFFFF,
            pc: 0,
            i: 0,
            r: 0,
            iff1: false,
            iff2: false,
            im: 0,
            halted: false,
        }
    }

    pub fn af(&self) -> (r: u16)
        ensures
            r == pair(self.a, self.f),
    {
        make_pair(self.a, self.f)
    }

    pub fn bc(&self) -> (r: u16)
        ensures
            r == pair(self.b, self.c),
    {
        make_pair(self.b, self.c)
    }

    pub fn de(&self) -> (r: u16)
        ensures
            r == pair(self.d, self.e),
    {
        make_pair(self.d, self.e)
    }

    pub fn hl(&self) -> (r: u16)
        ensures
            r == pair(self.h, self.l),
    {
        make_pair(self.h, self.l)
    }

    pub fn set_bc(&mut self, v: u16)
        ensures
            *final(self) == (Regs { b: hi_byte(v), c: lo_byte(v), ..*old(self) }),
    {
        self.b = (v / 256) as u8;
        self.c = (v % 256) as u8;
    }

    pub fn set_de(&mut self, v: u16)
        ensures
            *final(self) == (Regs { d: hi_byte(v), e: lo_byte(v), ..*old(self) }),
    {
        self.d = (v / 256) as u8;
        self.e = (v % 256) as u8;
    }

    pub fn set_hl(&mut self, v: u16)
        ensures
            *final(self) == (Regs { h: hi_byte(v), l: lo_byte(v), ..*old(self) }),
    {
        self.h = (v / 256) as u8;
        self.l = (v % 256) as u8;
    }

    pub fn set_af(&mut self, v: u16)
        ensures
            *final(self) == (Regs { a: hi_byte(v), f: lo_byte(v), ..*old(self) }),
    {
        self.a = (v / 256) as u8;
        self.f = (v % 256) as u8;
    }

    /// Set or clear the flag of mask `mask` (a power of two), leaving the
    /// other flags.
    pub fn set_flag(&mut self, mask: u8, val: bool)
        requires
            flag_mask(mask),
        ensures
            *final(self) == (Regs { f: with_bit(old(self).f, mask, val), ..*old(self) }),
    {
        let set = bit_set(self.f, mask);
        if val && !set {
            self.f = self.f + mask;
        } else if !val && set {
            self.f = self.f - mask;
        }
    }

    /// Whether the flag of mask `mask` is set.
    pub fn flag(&self, mask: u8) -> (r: bool)
        requires
            mask > 0,
        ensures
            r == bit(self.f, mask),
    {
        bit_set(self.f, mask)
    }
}

/// Splitting a word into its bytes and joining them gives it back.
pub proof fn lemma_pair_bytes(v: u16)
    ensures
        pair(hi_byte(v), lo_byte(v)) == v,
        hi_byte(pair(hi_byte(v), lo_byte(v))) == hi_byte(v),
{
}

/// Joining two bytes and splitting the word gives them back.
pub proof fn lemma_bytes_pair(hi: u8, lo: u8)
    ensures
        hi_byte(pair(hi, lo)) == hi,
        lo_byte(pair(hi, lo)) == lo,
{
}

/// The bits of a packed flag byte are the bits it was packed from.
#[verifier::rlimit(40)]
pub proof fn lemma_pack_bits(s: bool, z: bool, y: bool, h: bool, x: bool, pv: bool, n: bool, c: bool)
    ensures
        bit(pack(s, z, y, h, x, pv, n, c), FLAG_S) == s,
        bit(pack(s, z, y, h, x, pv, n, c), FLAG_Z) == z,
        bit(pack(s, z, y, h, x, pv, n, c), FLAG_Y) == y,
        bit(pack(s, z, y, h, x, pv, n, c), FLAG_H) == h,
        bit(pack(s, z, y, h, x, pv, n, c), FLAG_X) == x,
        bit(pack(s, z, y, h, x, pv, n, c), FLAG_PV) == pv,
        bit(pack(s, z, y, h, x, pv, n, c), FLAG_N) == n,
        bit(pack(s, z, y, h, x, pv, n, c), FLAG_C) == c,
{
}

} // verus!
