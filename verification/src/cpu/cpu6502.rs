//! The 6502 / 65C02 register file and its arithmetic and logic operations.

use vstd::prelude::*;
use super::flags::{nz_of, with_mask, Flags, C, D, N, V, Z};

verus! {

/// 6502 / 65C02 CPU state.
#[derive(Debug, Clone, Copy, PartialEq, Eq, Structural)]
pub struct Cpu {
    pub a: u8,
    pub x: u8,
    pub y: u8,
    pub sp: u8,
    pub pc: u16,
    pub flags: Flags,
    /// Total cycles since power-on.
    pub cycles: u64,
    /// Pending IRQ sources bitmask.
    pub irq_pending: u32,
    /// Pending NMI sources bitmask.
    pub nmi_pending: u32,
    /// The CPU hit an illegal JAM/KIL opcode (NMOS 6502 only).
    pub jammed: bool,
    /// Emulate the CMOS 65C02 (true) or the NMOS 6502 (false).
    pub is_65c02: bool,
    /// An IRQ that asserted on an opcode's last cycle waits one opcode.
    pub irq_defer: bool,
    /// 65C02 WAI: halted until an interrupt arrives.
    pub waiting: bool,
}

/// The power-on register state (65C02 unless `is_65c02` says otherwise):
/// A, X, Y zero, SP 0xFF, PC at the reset vector address, I and U set.
pub open spec fn cpu_power_on(is_65c02: bool) -> Cpu {
    Cpu {
        a: 0,
        x: 0,
        y: 0,
        sp: 0xFF,
        pc: 0xFFFC,
        flags: Flags { bits: 0x24 },
        cycles: 0,
        irq_pending: 0,
        nmi_pending: 0,
        jammed: false,
        is_65c02,
        irq_defer: false,
        waiting: false,
    }
}

/// The carry flag as 0 or 1.
pub open spec fn carry(p: u8) -> u8 {
    if p & C == C {
        1
    } else {
        0
    }
}

/// Binary ADC: (new A, new flags). C from the 9-bit sum, V from signed
/// overflow, N and Z from the result.
pub open spec fn adc_binary_spec(a: u8, val: u8, p: u8) -> (u8, u8) {
    let sum = (a as u16 + val as u16 + carry(p) as u16) as u16;
    let r = sum as u8;
    let overflow = (!(a ^ val) & (a ^ r)) & 0x80 != 0;
    (r, nz_of(with_mask(with_mask(p, C, sum > 0xFF), V, overflow), r))
}

/// NMOS decimal ADC: N, V and Z from the binary sum, C and A from the BCD
/// sum with per-nibble correction.
pub open spec fn adc_decimal_spec(a: u8, val: u8, p: u8) -> (u8, u8) {
    let c = carry(p);
    let bin_sum = (a as u16 + val as u16 + c as u16) as u16;
    let p1 = with_mask(p, N, (bin_sum & 0x80) != 0);
    let p2 = with_mask(p1, V, ((a ^ val) & 0x80 == 0) && ((a as u16 ^ bin_sum) & 0x80 != 0));
    let p3 = with_mask(p2, Z, (bin_sum & 0xFF) == 0);
    let lo0 = ((a & 0x0F) + (val & 0x0F) + c) as u8;
    let lo_carry = lo0 > 9;
    let lo = if lo_carry { ((lo0 + 6) as u8) & 0x0F } else { lo0 };
    let hi0 = ((a >> 4u8) + (val >> 4u8) + (if lo_carry { 1u8 } else { 0u8 })) as u8;
    let hi_carry = hi0 > 9;
    let hi = if hi_carry { ((hi0 + 6) as u8) & 0x0F } else { hi0 };
    (((hi << 4u8) | lo) as u8, with_mask(p3, C, hi_carry))
}

/// NMOS decimal SBC: N, V and Z from the binary difference, C (no borrow)
/// and A from the BCD difference with per-nibble correction.
pub open spec fn sbc_decimal_spec(a: u8, val: u8, p: u8) -> (u8, u8) {
    let borrow = (1 - carry(p)) as u8;
    let bin_diff = (a as i16 - val as i16 - borrow as i16) as i16;
    let p1 = with_mask(p, N, (bin_diff & 0x80) != 0);
    let p2 = with_mask(p1, V, ((a as i16 ^ bin_diff) & 0x80 != 0) && ((a ^ val) & 0x80 != 0));
    let p3 = with_mask(p2, Z, (bin_diff & 0xFF) == 0);
    let lo0 = ((a & 0x0F) as i8 - (val & 0x0F) as i8 - borrow as i8) as i8;
    let lo_borrow = lo0 < 0;
    let lo = if lo_borrow { (lo0 - 6) as i8 } else { lo0 };
    let hi0 = ((a >> 4u8) as i8 - (val >> 4u8) as i8 - (if lo_borrow { 1i8 } else { 0i8 })) as i8;
    let hi_borrow = hi0 < 0;
    let hi = if hi_borrow { (hi0 - 6) as i8 } else { hi0 };
    (((((hi & 0x0F) as u8) << 4u8) | ((lo & 0x0F) as u8)) as u8, with_mask(p3, C, !hi_borrow))
}

/// ADC in either mode.
pub open spec fn adc_spec(a: u8, val: u8, p: u8) -> (u8, u8) {
    if p & D == D {
        adc_decimal_spec(a, val, p)
    } else {
        adc_binary_spec(a, val, p)
    }
}

/// SBC in either mode: binary SBC is ADC of the complement.
pub open spec fn sbc_spec(a: u8, val: u8, p: u8) -> (u8, u8) {
    if p & D == D {
        sbc_decimal_spec(a, val, p)
    } else {
        adc_binary_spec(a, !val, p)
    }
}

impl Cpu {
    /// A CPU in its power-on state, 65C02 or NMOS 6502.
    pub fn new(is_65c02: bool) -> (r: Self)
        ensures
            r == cpu_power_on(is_65c02),
    {
        Self {
            a: 0,
            x: 0,
            y: 0,
            sp: 0xFF,
            pc: 0xFFFC,
            flags: Flags::power_on(),
            cycles: 0,
            irq_pending: 0,
            nmi_pending: 0,
            jammed: false,
            is_65c02,
            irq_defer: false,
            waiting: false,
        }
    }

    /// ADC: add with carry, in decimal mode when D is set.
    pub fn op_adc(&mut self, val: u8)
        ensures
            (final(self).a, final(self).flags.bits) == adc_spec(old(self).a, val, old(self).flags.bits),
            *final(self) == (Cpu { a: final(self).a, flags: final(self).flags, ..*old(self) }),
    {
        if self.flags.contains(D) {
            self.adc_decimal(val);
        } else {
            self.adc_binary(val);
        }
    }

    fn adc_binary(&mut self, val: u8)
        ensures
            (final(self).a, final(self).flags.bits) == adc_binary_spec(old(self).a, val, old(self).flags.bits),
            *final(self) == (Cpu { a: final(self).a, flags: final(self).flags, ..*old(self) }),
    {
        let c: u16 = if self.flags.contains(C) { 1 } else { 0 };
        let sum = self.a as u16 + val as u16 + c;
        let overflow = (!(self.a ^ val) & (self.a ^ sum as u8)) & 0x80 != 0;
        self.a = sum as u8;
        self.flags.set(C, sum > 0xFF);
        self.flags.set(V, overflow);
        let a = self.a;
        self.flags.set_nz(a);
    }

    fn adc_decimal(&mut self, val: u8)
        ensures
            (final(self).a, final(self).flags.bits) == adc_decimal_spec(old(self).a, val, old(self).flags.bits),
            *final(self) == (Cpu { a: final(self).a, flags: final(self).flags, ..*old(self) }),
    {
        let c: u8 = if self.flags.contains(C) { 1 } else { 0 };
        let bin_sum = self.a as u16 + val as u16 + c as u16;
        self.flags.set(N, (bin_sum & 0x80) != 0);
        self.flags.set(V, ((self.a ^ val) & 0x80 == 0) && ((self.a as u16 ^ bin_sum) & 0x80 != 0));
        self.flags.set(Z, (bin_sum & 0xFF) == 0);
        let a = self.a;
        assert((a & 0x0F) <= 15 && (val & 0x0F) <= 15 && (a >> 4u8) <= 15 && (val >> 4u8) <= 15)
            by (bit_vector);
        let mut lo = (a & 0x0F) + (val & 0x0F) + c;
        let lo_carry = lo > 9;
        if lo_carry {
            lo = (lo + 6) & 0x0F;
        }
        let mut hi = (a >> 4u8) + (val >> 4u8) + if lo_carry { 1u8 } else { 0u8 };
        let hi_carry = hi > 9;
        if hi_carry {
            hi = (hi + 6) & 0x0F;
        }
        self.flags.set(C, hi_carry);
        self.a = (hi << 4u8) | lo;
    }

    /// SBC: subtract with borrow, in decimal mode when D is set.
    pub fn op_sbc(&mut self, val: u8)
        ensures
            (final(self).a, final(self).flags.bits) == sbc_spec(old(self).a, val, old(self).flags.bits),
            *final(self) == (Cpu { a: final(self).a, flags: final(self).flags, ..*old(self) }),
    {
        if self.flags.contains(D) {
            self.sbc_decimal(val);
        } else {
            self.adc_binary(!val);
        }
    }

    fn sbc_decimal(&mut self, val: u8)
        ensures
            (final(self).a, final(self).flags.bits) == sbc_decimal_spec(old(self).a, val, old(self).flags.bits),
            *final(self) == (Cpu { a: final(self).a, flags: final(self).flags, ..*old(self) }),
    {
        let borrow: u8 = 1 - if self.flags.contains(C) { 1u8 } else { 0u8 };
        let a = self.a;
        let bin_diff = a as i16 - val as i16 - borrow as i16;
        self.flags.set(N, (bin_diff & 0x80) != 0);
        self.flags.set(V, ((a as i16 ^ bin_diff) & 0x80 != 0) && ((a ^ val) & 0x80 != 0));
        self.flags.set(Z, (bin_diff & 0xFF) == 0);
        assert((a & 0x0F) <= 15 && (val & 0x0F) <= 15 && (a >> 4u8) <= 15 && (val >> 4u8) <= 15)
            by (bit_vector);
        let mut lo = (a & 0x0F) as i8 - (val & 0x0F) as i8 - borrow as i8;
        let lo_borrow = lo < 0;
        if lo_borrow {
            lo -= 6;
        }
        let mut hi = (a >> 4u8) as i8 - (val >> 4u8) as i8 - if lo_borrow { 1i8 } else { 0i8 };
        let hi_borrow = hi < 0;
        if hi_borrow {
            hi -= 6;
        }
        self.flags.set(C, !hi_borrow);
        self.a = (((hi & 0x0F) as u8) << 4u8) | ((lo & 0x0F) as u8);
    }

    /// CMP / CPX / CPY: compare `reg` with `val`; C when `reg >= val`, N
    /// and Z from the difference.
    pub fn op_cmp(&mut self, reg: u8, val: u8)
        ensures
            final(self).flags.bits == nz_of(with_mask(old(self).flags.bits, C, reg >= val), reg.wrapping_sub(val)),
            *final(self) == (Cpu { flags: final(self).flags, ..*old(self) }),
    {
        let result = reg.wrapping_sub(val);
        self.flags.set(C, reg >= val);
        self.flags.set_nz(result);
    }

    /// ASL: shift left; C takes bit 7.
    pub fn op_asl(&mut self, val: u8) -> (r: u8)
        ensures
            r == val << 1u8,
            final(self).flags.bits == nz_of(with_mask(old(self).flags.bits, C, val & 0x80 != 0), r),
            *final(self) == (Cpu { flags: final(self).flags, ..*old(self) }),
    {
        self.flags.set(C, val & 0x80 != 0);
        let result = val << 1u8;
        self.flags.set_nz(result);
        result
    }

    /// LSR: shift right; C takes bit 0.
    pub fn op_lsr(&mut self, val: u8) -> (r: u8)
        ensures
            r == val >> 1u8,
            final(self).flags.bits == nz_of(with_mask(old(self).flags.bits, C, val & 0x01 != 0), r),
            *final(self) == (Cpu { flags: final(self).flags, ..*old(self) }),
    {
        self.flags.set(C, val & 0x01 != 0);
        let result = val >> 1u8;
        self.flags.set_nz(result);
        result
    }

    /// ROL: rotate left through carry.
    pub fn op_rol(&mut self, val: u8) -> (r: u8)
        ensures
            r == (val << 1u8) | carry(old(self).flags.bits),
            final(self).flags.bits == nz_of(with_mask(old(self).flags.bits, C, val & 0x80 != 0), r),
            *final(self) == (Cpu { flags: final(self).flags, ..*old(self) }),
    {
        let c_in: u8 = if self.flags.contains(C) { 1 } else { 0 };
        self.flags.set(C, val & 0x80 != 0);
        let result = (val << 1u8) | c_in;
        self.flags.set_nz(result);
        result
    }

    /// ROR: rotate right through carry.
    pub fn op_ror(&mut self, val: u8) -> (r: u8)
        ensures
            r == (val >> 1u8) | (carry(old(self).flags.bits) << 7u8),
            final(self).flags.bits == nz_of(with_mask(old(self).flags.bits, C, val & 0x01 != 0), r),
            *final(self) == (Cpu { flags: final(self).flags, ..*old(self) }),
    {
        let c_in: u8 = (if self.flags.contains(C) { 1u8 } else { 0u8 }) << 7u8;
        self.flags.set(C, val & 0x01 != 0);
        let result = (val >> 1u8) | c_in;
        self.flags.set_nz(result);
        result
    }

    /// BIT: N and V from bits 7 and 6 of `val`, Z from `A & val`.
    pub fn op_bit(&mut self, val: u8)
        ensures
            final(self).flags.bits == with_mask(
                with_mask(with_mask(old(self).flags.bits, N, val & 0x80 != 0), V, val & 0x40 != 0),
                Z,
                old(self).a & val == 0,
            ),
            *final(self) == (Cpu { flags: final(self).flags, ..*old(self) }),
    {
        self.flags.set(N, val & 0x80 != 0);
        self.flags.set(V, val & 0x40 != 0);
        let a = self.a;
        self.flags.set(Z, a & val == 0);
    }

    /// The registers saved in a snapshot.
    pub fn snapshot(&self) -> (s: CpuSnapshot)
        ensures
            s == snapshot_of(*self),
    {
        CpuSnapshot {
            a: self.a,
            x: self.x,
            y: self.y,
            sp: self.sp,
            pc: self.pc,
            flags: self.flags.bits(),
            cycles: self.cycles,
            is_65c02: self.is_65c02,
        }
    }

    /// Restore the registers from a snapshot.
    pub fn restore_snapshot(&mut self, snap: &CpuSnapshot)
        ensures
            *final(self) == (Cpu {
                a: snap.a,
                x: snap.x,
                y: snap.y,
                sp: snap.sp,
                pc: snap.pc,
                flags: Flags { bits: snap.flags },
                cycles: snap.cycles,
                is_65c02: snap.is_65c02,
                ..*old(self)
            }),
    {
        self.a = snap.a;
        self.x = snap.x;
        self.y = snap.y;
        self.sp = snap.sp;
        self.pc = snap.pc;
        self.flags = Flags::from_bits_truncate(snap.flags);
        self.cycles = snap.cycles;
        self.is_65c02 = snap.is_65c02;
    }
}

impl Default for Cpu {
    fn default() -> (r: Self)
        ensures
            r == cpu_power_on(true),
    {
        Cpu::new(true)
    }
}

impl<'a> From<&'a Cpu> for CpuSnapshot {
    /// The snapshot of `cpu`'s registers.
    fn from(cpu: &'a Cpu) -> (r: Self) {
        cpu.snapshot()
    }
}

impl<'a> vstd::std_specs::convert::FromSpecImpl<&'a Cpu> for CpuSnapshot {
    open spec fn obeys_from_spec() -> bool {
        true
    }

    open spec fn from_spec(v: &'a Cpu) -> Self {
        snapshot_of(*v)
    }
}

/// Save-state snapshot of the CPU registers.
#[derive(Debug, Clone, Copy, PartialEq, Eq, Structural)]
pub struct CpuSnapshot {
    pub a: u8,
    pub x: u8,
    pub y: u8,
    pub sp: u8,
    pub pc: u16,
    pub flags: u8,
    pub cycles: u64,
    pub is_65c02: bool,
}

/// The snapshot of a CPU's registers.
pub open spec fn snapshot_of(c: Cpu) -> CpuSnapshot {
    CpuSnapshot {
        a: c.a,
        x: c.x,
        y: c.y,
        sp: c.sp,
        pc: c.pc,
        flags: c.flags.bits,
        cycles: c.cycles,
        is_65c02: c.is_65c02,
    }
}

/// A packed BCD byte: both nibbles are decimal digits.
pub open spec fn is_bcd(x: u8) -> bool {
    (x & 0x0F) <= 9 && (x >> 4u8) <= 9
}

/// The value of a packed BCD byte.
pub open spec fn bcd_value(x: u8) -> int {
    (x >> 4u8) * 10 + (x & 0x0F)
}

/// Decimal ADC of two BCD bytes gives the BCD digits of the sum (mod 100)
/// and sets C exactly when the sum reaches 100.
pub proof fn lemma_adc_decimal_bcd(a: u8, val: u8, p: u8)
    requires
        is_bcd(a),
        is_bcd(val),
    ensures
        ({
            let (r, q) = adc_decimal_spec(a, val, p);
            let sum = bcd_value(a) + bcd_value(val) + carry(p);
            &&& is_bcd(r)
            &&& bcd_value(r) == sum % 100
            &&& (q & C == C) == (sum >= 100)
        }),
{
    let c = carry(p);
    assert(c <= 1);
    assert((a & 0x0F) <= 9 && (a >> 4u8) <= 9 && (val & 0x0F) <= 9 && (val >> 4u8) <= 9 && c <= 1
        ==> {
        let lo0 = ((a & 0x0F) + (val & 0x0F) + c) as u8;
        let lo_carry = lo0 > 9;
        let lo = if lo_carry { ((lo0 + 6) as u8) & 0x0F } else { lo0 };
        let hi0 = ((a >> 4u8) + (val >> 4u8) + (if lo_carry { 1u8 } else { 0u8 })) as u8;
        let hi_carry = hi0 > 9;
        let hi = if hi_carry { ((hi0 + 6) as u8) & 0x0F } else { hi0 };
        let r = ((hi << 4u8) | lo) as u8;
        let sum = (a >> 4u8) * 10 + (a & 0x0F) + (val >> 4u8) * 10 + (val & 0x0F) + c;
        &&& (r & 0x0F) <= 9 && (r >> 4u8) <= 9
        &&& (r >> 4u8) * 10 + (r & 0x0F) == sum % 100
        &&& hi_carry == (sum >= 100)
    }) by (bit_vector);
    assert forall|x: u8, b: bool| (#[trigger] with_mask(x, C, b) & C == C) == b by {
        lemma_carry_mask(x, b);
    }
}

/// Setting or clearing C shows in C.
proof fn lemma_carry_mask(x: u8, b: bool)
    ensures
        (with_mask(x, C, b) & C == C) == b,
{
    assert((x | C) & C == C && (x & !C) & C != C) by (bit_vector);
}

/// Decimal SBC of two BCD bytes gives the BCD digits of the difference
/// (mod 100) and leaves C set exactly when nothing had to be borrowed.
pub proof fn lemma_sbc_decimal_bcd(a: u8, val: u8, p: u8)
    requires
        is_bcd(a),
        is_bcd(val),
    ensures
        ({
            let (r, q) = sbc_decimal_spec(a, val, p);
            let diff = bcd_value(a) - bcd_value(val) - (1 - carry(p));
            &&& is_bcd(r)
            &&& bcd_value(r) == (diff + 100) % 100
            &&& (q & C == C) == (diff >= 0)
        }),
{
    let c = carry(p);
    assert(c <= 1);
    let borrow = (1 - c) as u8;
    assert((a & 0x0F) <= 9 && (a >> 4u8) <= 9 && (val & 0x0F) <= 9 && (val >> 4u8) <= 9 && borrow
        <= 1 ==> {
        let lo0 = ((a & 0x0F) as i8 - (val & 0x0F) as i8 - borrow as i8) as i8;
        let lo_borrow = lo0 < 0;
        let lo = if lo_borrow { (lo0 - 6) as i8 } else { lo0 };
        let hi0 = ((a >> 4u8) as i8 - (val >> 4u8) as i8 - (if lo_borrow { 1i8 } else { 0i8 })) as i8;
        let hi_borrow = hi0 < 0;
        let hi = if hi_borrow { (hi0 - 6) as i8 } else { hi0 };
        let r = ((((hi & 0x0F) as u8) << 4u8) | ((lo & 0x0F) as u8)) as u8;
        let diff = (a >> 4u8) * 10 + (a & 0x0F) - (val >> 4u8) * 10 - (val & 0x0F) - borrow;
        &&& (r & 0x0F) <= 9 && (r >> 4u8) <= 9
        &&& (r >> 4u8) * 10 + (r & 0x0F) == (diff + 100) % 100
        &&& !hi_borrow == (diff >= 0)
    }) by (bit_vector);
    assert forall|x: u8, b: bool| (#[trigger] with_mask(x, C, b) & C == C) == b by {
        lemma_carry_mask(x, b);
    }
}

/// Binary SBC subtracts the operand and the borrow (the complement of C)
/// modulo 256, leaving C set exactly when no borrow was needed.
pub proof fn lemma_sbc_binary(a: u8, val: u8, p: u8)
    ensures
        ({
            let (r, q) = adc_binary_spec(a, !val, p);
            &&& r as int == (a - val - (1 - carry(p)) + 256) % 256
            &&& (q & C == C) == (a >= val + (1 - carry(p)))
        }),
{
    let c = carry(p);
    assert(c <= 1);
    assert(c <= 1 ==> ({
        let sum = (a as u16 + (!val) as u16 + c as u16) as u16;
        &&& (sum as u8) as int == (a - val - (1 - c) + 256) % 256
        &&& (sum > 0xFF) == (a >= val + (1 - c))
    })) by (bit_vector);
    let sum = (a as u16 + (!val) as u16 + c as u16) as u16;
    let r = sum as u8;
    let overflow = (!(a ^ !val) & (a ^ r)) & 0x80 != 0;
    let q1 = with_mask(with_mask(p, C, sum > 0xFF), V, overflow);
    let q = nz_of(q1, r);
    assert((with_mask(p, C, sum > 0xFF) & C == C) == (sum > 0xFF)) by {
        assert(((p | C) & C == C) && ((p & !C) & C != C)) by (bit_vector);
    }
    let w = with_mask(p, C, sum > 0xFF);
    assert((q & C == C) == (w & C == C)) by {
        assert(((nz_of(with_mask(w, V, overflow), r)) & C) == (w & C)) by (bit_vector);
    }
}

/// A byte read as a signed (two's complement) number.
pub open spec fn signed8(x: u8) -> int {
    if x < 128 {
        x as int
    } else {
        x - 256
    }
}

/// Binary ADC adds the operand and the carry modulo 256; it sets C exactly
/// when the unsigned sum passes 255, V exactly when the signed sum leaves
/// -128..127 (so operands of opposite sign never set it), N from bit 7 of
/// the result and Z when the result is zero.
pub proof fn lemma_adc_overflow(a: u8, val: u8, p: u8)
    ensures
        ({
            let (r, q) = adc_binary_spec(a, val, p);
            &&& r as int == (a + val + carry(p)) % 256
            &&& (q & V != 0) == !(-128 <= signed8(a) + signed8(val) + carry(p) <= 127)
            &&& (q & C != 0) == (a + val + carry(p) > 255)
            &&& (q & N != 0) == (r >= 128)
            &&& (q & Z != 0) == (r == 0)
        }),
{
    let c = carry(p);
    assert(c <= 1);
    crate::bits::lemma_byte_arith(a, val, c);
    let sum = (a as u16 + val as u16 + c as u16) as u16;
    let r = sum as u8;
    let overflow = (!(a ^ val) & (a ^ r)) & 0x80 != 0;
    let w1 = with_mask(p, C, sum > 0xFF);
    let w2 = with_mask(w1, V, overflow);
    let w3 = with_mask(w2, N, r & 0x80 != 0);
    let q = with_mask(w3, Z, r == 0);
    assert(q == nz_of(w2, r));
    crate::bits::lemma_byte_arith(w1, 0, 0);
    crate::bits::lemma_byte_arith(w2, 0, 0);
    crate::bits::lemma_byte_arith(w3, 0, 0);
    assert((w2 & V != 0) == overflow);
    assert((w3 & V) == (w2 & V));
    assert((q & V) == (w3 & V));
    crate::bits::lemma_byte_arith(p, C, 0);
    crate::bits::lemma_byte_arith(w1, V, C);
    crate::bits::lemma_byte_arith(w2, N, C);
    crate::bits::lemma_byte_arith(w3, Z, C);
    crate::bits::lemma_byte_arith(w3, Z, N);
    crate::bits::lemma_byte_arith(w2, N, 0);
    crate::bits::lemma_byte_arith(w3, Z, 0);
    crate::bits::lemma_byte_arith(r, 0, 0);
    assert((w1 & C != 0) == (sum > 0xFF));
    assert((q & C) == (w1 & C));
    assert((w3 & N != 0) == (r & 0x80 != 0));
    assert((q & N) == (w3 & N));
}

/// Binary SBC subtracts the operand and the borrow (the complement of C)
/// modulo 256, and sets V exactly when the signed difference leaves
/// -128..127: operands of the same sign never set it.
pub proof fn lemma_sbc_overflow(a: u8, val: u8, p: u8)
    requires
        p & D != D,
    ensures
        ({
            let (r, q) = sbc_spec(a, val, p);
            &&& r as int == (a - val - (1 - carry(p)) + 256) % 256
            &&& (q & V != 0) == !(-128 <= signed8(a) - signed8(val) - (1 - carry(p)) <= 127)
            &&& (q & C != 0) == (a >= val + (1 - carry(p)))
            &&& (q & N != 0) == (r >= 128)
            &&& (q & Z != 0) == (r == 0)
        }),
{
    lemma_adc_overflow(a, !val, p);
    crate::bits::lemma_byte_arith(0, val, 0);
    assert(!val == (255u8 - val) as u8);
    assert(signed8(!val) == -signed8(val) - 1);
}

/// ROR after ROL gives back the value and the carry: rotating through the
/// carry one way and back is the identity.
pub proof fn lemma_rol_ror(val: u8, c: u8)
    requires
        c <= 1,
    ensures
        ({
            let r = (val << 1u8) | c;
            let c1: u8 = if val & 0x80 != 0 { 1 } else { 0 };
            &&& (r >> 1u8) | (c1 << 7u8) == val
            &&& (if r & 0x01 != 0 { 1u8 } else { 0u8 }) == c
        }),
{
    assert(c <= 1 ==> ({
        let r = (val << 1u8) | c;
        let c1: u8 = if val & 0x80 != 0 { 1 } else { 0 };
        &&& (r >> 1u8) | (c1 << 7u8) == val
        &&& (if r & 0x01 != 0 { 1u8 } else { 0u8 }) == c
    })) by (bit_vector);
}

/// CMP sets Z exactly when the register equals the operand and C exactly
/// when it is not below it.
pub proof fn lemma_cmp_flags(p: u8, reg: u8, val: u8)
    ensures
        ({
            let q = nz_of(with_mask(p, C, reg >= val), reg.wrapping_sub(val));
            &&& (q & Z != 0) == (reg == val)
            &&& (q & C != 0) == (reg >= val)
        }),
{
    let d = reg.wrapping_sub(val);
    assert(d == 0 <==> reg == val);
    let w = with_mask(p, C, reg >= val);
    assert((nz_of(w, d) & Z != 0) == (d == 0)) by (bit_vector);
    assert((nz_of(w, d) & C) == (w & C)) by (bit_vector);
    assert((w & C != 0) == (reg >= val)) by {
        assert(((p | C) & C != 0) && ((p & !C) & C == 0)) by (bit_vector);
    }
}

/// Restoring a snapshot gives back the registers it was taken from.
pub proof fn lemma_snapshot_restore(c: Cpu, d: Cpu)
    ensures
        ({
            let s = snapshot_of(c);
            let r = Cpu {
                a: s.a,
                x: s.x,
                y: s.y,
                sp: s.sp,
                pc: s.pc,
                flags: Flags { bits: s.flags },
                cycles: s.cycles,
                is_65c02: s.is_65c02,
                ..d
            };
            &&& snapshot_of(r) == s
            &&& d == c ==> r == c
        }),
{
}

} // verus!
