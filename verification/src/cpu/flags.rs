//! The 6502 processor status register (P).

use vstd::prelude::*;

verus! {

/// Carry.
pub const C: u8 = 0x01;
/// Zero.
pub const Z: u8 = 0x02;
/// IRQ disable.
pub const I: u8 = 0x04;
/// Decimal mode.
pub const D: u8 = 0x08;
/// Break (software interrupt).
pub const B: u8 = 0x10;
/// Reserved: always 1 on real hardware.
pub const U: u8 = 0x20;
/// Overflow.
pub const V: u8 = 0x40;
/// Negative / sign.
pub const N: u8 = 0x80;

/// The status register: one bit per flag.
#[derive(Debug, Clone, Copy, PartialEq, Eq, Hash, Structural)]
pub struct Flags {
    pub bits: u8,
}

/// `bits` with the bits of `mask` set when `on`, cleared otherwise.
pub open spec fn with_mask(bits: u8, mask: u8, on: bool) -> u8 {
    if on {
        bits | mask
    } else {
        bits & !mask
    }
}

/// `bits` with N and Z set from `value`.
pub open spec fn nz_of(bits: u8, value: u8) -> u8 {
    with_mask(with_mask(bits, N, value & 0x80 != 0), Z, value == 0)
}

impl Flags {
    /// Carry.
    pub const C: u8 = 0x01;
    /// Zero.
    pub const Z: u8 = 0x02;
    /// IRQ disable.
    pub const I: u8 = 0x04;
    /// Decimal mode.
    pub const D: u8 = 0x08;
    /// Break.
    pub const B: u8 = 0x10;
    /// Reserved, always 1.
    pub const U: u8 = 0x20;
    /// Overflow.
    pub const V: u8 = 0x40;
    /// Negative.
    pub const N: u8 = 0x80;

    /// The power-on state: I and U set, all others clear.
    pub fn power_on() -> (r: Self)
        ensures
            r.bits == I | U,
            r.bits == 0x24,
    {
        assert(I | U == 0x24) by (bit_vector);
        Flags { bits: I | U }
    }

    /// The flags from a byte, every bit kept (all eight bits are flags).
    pub fn from_bits_truncate(bits: u8) -> (r: Self)
        ensures
            r.bits == bits,
    {
        Flags { bits }
    }

    /// The byte of the flags.
    pub fn bits(&self) -> (r: u8)
        ensures
            r == self.bits,
    {
        self.bits
    }

    /// All the flags of `mask` are set.
    pub fn contains(&self, mask: u8) -> (r: bool)
        ensures
            r == (self.bits & mask == mask),
    {
        self.bits & mask == mask
    }

    /// Set (`on`) or clear the flags of `mask`.
    pub fn set(&mut self, mask: u8, on: bool)
        ensures
            final(self).bits == with_mask(old(self).bits, mask, on),
    {
        if on {
            self.bits = self.bits | mask;
        } else {
            self.bits = self.bits & !mask;
        }
    }

    /// Set the flags of `mask`.
    pub fn insert(&mut self, mask: u8)
        ensures
            final(self).bits == old(self).bits | mask,
    {
        self.bits = self.bits | mask;
    }

    /// Clear the flags of `mask`.
    pub fn remove(&mut self, mask: u8)
        ensures
            final(self).bits == old(self).bits & !mask,
    {
        self.bits = self.bits & !mask;
    }

    /// Update N and Z from `value`: N is its bit 7, Z whether it is zero.
    pub fn set_nz(&mut self, value: u8)
        ensures
            final(self).bits == nz_of(old(self).bits, value),
    {
        self.set(N, value & 0x80 != 0);
        self.set(Z, value == 0);
    }
}

impl Default for Flags {
    fn default() -> (r: Self)
        ensures
            r.bits == 0x24,
    {
        Flags::power_on()
    }
}

/// After `set_nz(value)`, N reads bit 7 of `value`, Z reads whether it is
/// zero, and the other six flags are untouched.
pub proof fn lemma_nz_flags(bits: u8, value: u8)
    ensures
        (nz_of(bits, value) & N != 0) == (value & 0x80 != 0),
        (nz_of(bits, value) & Z != 0) == (value == 0),
        nz_of(bits, value) & 0x7D == bits & 0x7D,
{
    assert((nz_of(bits, value) & N != 0) == (value & 0x80 != 0)) by (bit_vector);
    assert((nz_of(bits, value) & Z != 0) == (value == 0)) by (bit_vector);
    assert(nz_of(bits, value) & 0x7D == bits & 0x7D) by (bit_vector);
}

} // verus!
