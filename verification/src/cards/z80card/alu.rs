//! The Z80 arithmetic, logic, rotate and shift operations, each with the
//! flag byte it leaves.

use vstd::prelude::*;
use super::regs::{
    Regs, b2i, bit, bit_set, hi_byte, pack, pack_flags, parity, parity_spec, FLAG_C, FLAG_H, FLAG_N,
    FLAG_PV, FLAG_S, FLAG_X, FLAG_Y, FLAG_Z,
};

verus! {

/// Bit 7 of `v`.
pub open spec fn sign(v: u8) -> bool {
    v >= 128
}

/// `a + v + carry`, wrapped to 8 bits.
pub open spec fn add8(a: u8, v: u8, c: bool) -> u8 {
    ((a + v + b2i(c)) % 256) as u8
}

/// `a - v - carry`, wrapped to 8 bits.
pub open spec fn sub8(a: u8, v: u8, c: bool) -> u8 {
    ((a - v - b2i(c)) % 256) as u8
}

/// Flags of ADD/ADC: sign, zero, half carry out of bit 3, signed overflow,
/// carry out of bit 7; bits 3 and 5 copy the result.
pub open spec fn add8_flags(a: u8, v: u8, c: bool) -> u8 {
    let res = add8(a, v, c);
    pack(
        sign(res),
        res == 0,
        bit(res, FLAG_Y),
        a % 16 + v % 16 + b2i(c) > 15,
        bit(res, FLAG_X),
        sign(a) == sign(v) && sign(res) != sign(a),
        false,
        a + v + b2i(c) > 255,
    )
}

/// Flags of SUB/SBC/NEG: as for addition with borrows, and N set.
pub open spec fn sub8_flags(a: u8, v: u8, c: bool) -> u8 {
    let res = sub8(a, v, c);
    pack(
        sign(res),
        res == 0,
        bit(res, FLAG_Y),
        a % 16 < v % 16 + b2i(c),
        bit(res, FLAG_X),
        sign(a) != sign(v) && sign(res) != sign(a),
        true,
        a - v - b2i(c) < 0,
    )
}

/// Flags of CP: those of SUB, but bits 3 and 5 copy the operand.
pub open spec fn cp_flags(a: u8, v: u8) -> u8 {
    let res = sub8(a, v, false);
    pack(
        sign(res),
        res == 0,
        bit(v, FLAG_Y),
        a % 16 < v % 16,
        bit(v, FLAG_X),
        sign(a) != sign(v) && sign(res) != sign(a),
        true,
        a < v,
    )
}

/// Flags of AND/OR/XOR with result `res`: parity in P/V, carry clear, half
/// carry `h`.
pub open spec fn logic_flags(res: u8, h: bool) -> u8 {
    pack(sign(res), res == 0, bit(res, FLAG_Y), h, bit(res, FLAG_X), parity_spec(res), false, false)
}

/// Flags of INC of `v` over flag byte `f`: carry kept.
pub open spec fn inc_flags(v: u8, f: u8) -> u8 {
    let res = add8(v, 1, false);
    pack(sign(res), res == 0, bit(res, FLAG_Y), v % 16 == 15, bit(res, FLAG_X), v == 0x7F, false, bit(f, FLAG_C))
}

/// Flags of DEC of `v` over flag byte `f`: carry kept.
pub open spec fn dec_flags(v: u8, f: u8) -> u8 {
    let res = sub8(v, 1, false);
    pack(sign(res), res == 0, bit(res, FLAG_Y), v % 16 == 0, bit(res, FLAG_X), v == 0x80, true, bit(f, FLAG_C))
}

/// `hl + v`, wrapped to 16 bits.
pub open spec fn add16(hl: u16, v: u16) -> u16 {
    ((hl + v) % 0x10000) as u16
}

/// Flags of a 16-bit ADD over flag byte `f`: S, Z and P/V kept; half carry
/// out of bit 11; carry out of bit 15; bits 3 and 5 copy the high byte.
pub open spec fn add16_flags(hl: u16, v: u16, f: u8) -> u8 {
    let hi = hi_byte(add16(hl, v));
    pack(
        bit(f, FLAG_S),
        bit(f, FLAG_Z),
        bit(hi, FLAG_Y),
        hl % 4096 + v % 4096 > 4095,
        bit(hi, FLAG_X),
        bit(f, FLAG_PV),
        false,
        hl + v > 0xFFFF,
    )
}

/// The register file with A and F replaced.
pub open spec fn with_af(r: Regs, a: u8, f: u8) -> Regs {
    Regs { a: a, f: f, ..r }
}

/// ADD A, v (with the carry added for ADC).
pub fn alu_add(r: &mut Regs, val: u8, carry: bool)
    ensures
        *final(r) == with_af(*old(r), add8(old(r).a, val, carry), add8_flags(old(r).a, val, carry)),
{
    let c: u16 = if carry { 1 } else { 0 };
    let a = r.a;
    let full: u16 = a as u16 + val as u16 + c;
    let result: u8 = (full % 256) as u8;
    let half = (a % 16) as u16 + (val % 16) as u16 + c > 15;
    let overflow = (a >= 128) == (val >= 128) && (result >= 128) != (a >= 128);
    r.f = pack_flags(
        result >= 128,
        result == 0,
        bit_set(result, FLAG_Y),
        half,
        bit_set(result, FLAG_X),
        overflow,
        false,
        full > 255,
    );
    r.a = result;
}

/// SUB v (with the carry subtracted for SBC).
pub fn alu_sub(r: &mut Regs, val: u8, carry: bool)
    ensures
        *final(r) == with_af(*old(r), sub8(old(r).a, val, carry), sub8_flags(old(r).a, val, carry)),
{
    let c: i16 = if carry { 1 } else { 0 };
    let a = r.a;
    let full: i16 = a as i16 - val as i16 - c;
    let result: u8 = if full < 0 { (full + 256) as u8 } else { full as u8 };
    assert(result == sub8(a, val, carry)) by {
        assert(full == a - val - b2i(carry));
        if full < 0 {
            assert((full + 256) % 256 == full % 256);
        }
    }
    let half = ((a % 16) as i16) < (val % 16) as i16 + c;
    let overflow = (a >= 128) != (val >= 128) && (result >= 128) != (a >= 128);
    r.f = pack_flags(
        result >= 128,
        result == 0,
        bit_set(result, FLAG_Y),
        half,
        bit_set(result, FLAG_X),
        overflow,
        true,
        full < 0,
    );
    r.a = result;
}

/// AND v.
pub fn alu_and(r: &mut Regs, val: u8)
    ensures
        *final(r) == with_af(*old(r), old(r).a & val, logic_flags(old(r).a & val, true)),
{
    let res = r.a & val;
    r.a = res;
    r.f = pack_flags(res >= 128, res == 0, bit_set(res, FLAG_Y), true, bit_set(res, FLAG_X), parity(res), false, false);
}

/// OR v.
pub fn alu_or(r: &mut Regs, val: u8)
    ensures
        *final(r) == with_af(*old(r), old(r).a | val, logic_flags(old(r).a | val, false)),
{
    let res = r.a | val;
    r.a = res;
    r.f = pack_flags(res >= 128, res == 0, bit_set(res, FLAG_Y), false, bit_set(res, FLAG_X), parity(res), false, false);
}

/// XOR v.
pub fn alu_xor(r: &mut Regs, val: u8)
    ensures
        *final(r) == with_af(*old(r), old(r).a ^ val, logic_flags(old(r).a ^ val, false)),
{
    let res = r.a ^ val;
    r.a = res;
    r.f = pack_flags(res >= 128, res == 0, bit_set(res, FLAG_Y), false, bit_set(res, FLAG_X), parity(res), false, false);
}

/// CP v: the flags of A - v, A unchanged.
pub fn alu_cp(r: &mut Regs, val: u8)
    ensures
        *final(r) == (Regs { f: cp_flags(old(r).a, val), ..*old(r) }),
{
    let saved = r.a;
    alu_sub(r, val, false);
    let f = r.f;
    proof {
        super::regs::lemma_pack_bits(
            sign(sub8(saved, val, false)),
            sub8(saved, val, false) == 0,
            bit(sub8(saved, val, false), FLAG_Y),
            saved % 16 < val % 16,
            bit(sub8(saved, val, false), FLAG_X),
            sign(saved) != sign(val) && sign(sub8(saved, val, false)) != sign(saved),
            true,
            saved < val,
        );
    }
    r.f = pack_flags(
        bit_set(f, FLAG_S),
        bit_set(f, FLAG_Z),
        bit_set(val, FLAG_Y),
        bit_set(f, FLAG_H),
        bit_set(val, FLAG_X),
        bit_set(f, FLAG_PV),
        bit_set(f, FLAG_N),
        bit_set(f, FLAG_C),
    );
    r.a = saved;
}

/// INC of `val`, carry kept.
pub fn alu_inc(r: &mut Regs, val: u8) -> (res: u8)
    ensures
        res == add8(val, 1, false),
        *final(r) == (Regs { f: inc_flags(val, old(r).f), ..*old(r) }),
{
    let result: u8 = if val == 255 { 0 } else { val + 1 };
    r.f = pack_flags(
        result >= 128,
        result == 0,
        bit_set(result, FLAG_Y),
        val % 16 == 15,
        bit_set(result, FLAG_X),
        val == 0x7F,
        false,
        r.flag(FLAG_C),
    );
    result
}

/// DEC of `val`, carry kept.
pub fn alu_dec(r: &mut Regs, val: u8) -> (res: u8)
    ensures
        res == sub8(val, 1, false),
        *final(r) == (Regs { f: dec_flags(val, old(r).f), ..*old(r) }),
{
    let result: u8 = if val == 0 { 255 } else { val - 1 };
    r.f = pack_flags(
        result >= 128,
        result == 0,
        bit_set(result, FLAG_Y),
        val % 16 == 0,
        bit_set(result, FLAG_X),
        val == 0x80,
        true,
        r.flag(FLAG_C),
    );
    result
}

/// 16-bit ADD of `val` to `hl`: the sum, S, Z and P/V kept.
pub fn alu_add16(r: &mut Regs, hl: u16, val: u16) -> (res: u16)
    ensures
        res == add16(hl, val),
        *final(r) == (Regs { f: add16_flags(hl, val, old(r).f), ..*old(r) }),
{
    let result: u32 = hl as u32 + val as u32;
    let r16: u16 = (result % 0x10000) as u16;
    let hi: u8 = (r16 / 256) as u8;
    r.f = pack_flags(
        r.flag(FLAG_S),
        r.flag(FLAG_Z),
        bit_set(hi, FLAG_Y),
        hl % 4096 + val % 4096 > 4095,
        bit_set(hi, FLAG_X),
        r.flag(FLAG_PV),
        false,
        result > 0xFFFF,
    );
    r16
}

/// The register file after ALU operation `kind` (ADD, ADC, SUB, SBC, AND,
/// XOR, OR, CP) of A with `v`.
pub open spec fn alu_result(kind: u8, r: Regs, v: u8) -> Regs {
    let c = bit(r.f, FLAG_C);
    if kind == 0 {
        with_af(r, add8(r.a, v, false), add8_flags(r.a, v, false))
    } else if kind == 1 {
        with_af(r, add8(r.a, v, c), add8_flags(r.a, v, c))
    } else if kind == 2 {
        with_af(r, sub8(r.a, v, false), sub8_flags(r.a, v, false))
    } else if kind == 3 {
        with_af(r, sub8(r.a, v, c), sub8_flags(r.a, v, c))
    } else if kind == 4 {
        with_af(r, r.a & v, logic_flags(r.a & v, true))
    } else if kind == 5 {
        with_af(r, r.a ^ v, logic_flags(r.a ^ v, false))
    } else if kind == 6 {
        with_af(r, r.a | v, logic_flags(r.a | v, false))
    } else {
        Regs { f: cp_flags(r.a, v), ..r }
    }
}

/// ALU operation `kind` of A with `val`.
pub fn alu_op(r: &mut Regs, kind: u8, val: u8)
    requires
        kind < 8,
    ensures
        *final(r) == alu_result(kind, *old(r), val),
{
    match kind {
        0 => alu_add(r, val, false),
        1 => {
            let c = r.flag(FLAG_C);
            alu_add(r, val, c)
        },
        2 => alu_sub(r, val, false),
        3 => {
            let c = r.flag(FLAG_C);
            alu_sub(r, val, c)
        },
        4 => alu_and(r, val),
        5 => alu_xor(r, val),
        6 => alu_or(r, val),
        _ => alu_cp(r, val),
    }
}

/// Result of rotate/shift `kind` (RLC, RRC, RL, RR, SLA, SRA, SLL, SRL) of
/// `v` with carry-in `c`.
pub open spec fn rot_value(kind: u8, v: u8, c: bool) -> u8 {
    if kind == 0 {
        ((v % 128) * 2 + v / 128) as u8
    } else if kind == 1 {
        (v / 2 + (v % 2) * 128) as u8
    } else if kind == 2 {
        ((v % 128) * 2 + b2i(c)) as u8
    } else if kind == 3 {
        (v / 2 + b2i(c) * 128) as u8
    } else if kind == 4 {
        ((v % 128) * 2) as u8
    } else if kind == 5 {
        (v / 2 + (v / 128) * 128) as u8
    } else if kind == 6 {
        ((v % 128) * 2 + 1) as u8
    } else {
        (v / 2) as u8
    }
}

/// Carry out of rotate/shift `kind` of `v`: bit 7 for the left shifts
/// (even kinds), bit 0 for the right ones.
pub open spec fn rot_carry(kind: u8, v: u8) -> bool {
    if kind % 2 == 0 {
        v >= 128
    } else {
        v % 2 == 1
    }
}

/// Flags after a rotate/shift of `v` over flag byte `f`: carry out, H and N
/// clear, bits 3 and 5 from the result, S, Z and P/V kept.
pub open spec fn rot_flags(kind: u8, v: u8, f: u8) -> u8 {
    let res = rot_value(kind, v, bit(f, FLAG_C));
    pack(
        bit(f, FLAG_S),
        bit(f, FLAG_Z),
        bit(res, FLAG_Y),
        false,
        bit(res, FLAG_X),
        bit(f, FLAG_PV),
        false,
        rot_carry(kind, v),
    )
}

/// Set the flags of a rotate/shift result.
fn rot_finish(r: &mut Regs, res: u8, carry: bool)
    ensures
        *final(r) == (Regs {
            f: pack(
                bit(old(r).f, FLAG_S),
                bit(old(r).f, FLAG_Z),
                bit(res, FLAG_Y),
                false,
                bit(res, FLAG_X),
                bit(old(r).f, FLAG_PV),
                false,
                carry,
            ),
            ..*old(r)
        }),
{
    r.f = pack_flags(
        r.flag(FLAG_S),
        r.flag(FLAG_Z),
        bit_set(res, FLAG_Y),
        false,
        bit_set(res, FLAG_X),
        r.flag(FLAG_PV),
        false,
        carry,
    );
}

pub fn rlc(r: &mut Regs, val: u8) -> (res: u8)
    ensures
        res == rot_value(0, val, bit(old(r).f, FLAG_C)),
        *final(r) == (Regs { f: rot_flags(0, val, old(r).f), ..*old(r) }),
{
    let result = (val % 128) * 2 + val / 128;
    rot_finish(r, result, val >= 128);
    result
}

pub fn rrc(r: &mut Regs, val: u8) -> (res: u8)
    ensures
        res == rot_value(1, val, bit(old(r).f, FLAG_C)),
        *final(r) == (Regs { f: rot_flags(1, val, old(r).f), ..*old(r) }),
{
    let result = val / 2 + (val % 2) * 128;
    rot_finish(r, result, val % 2 == 1);
    result
}

pub fn rl(r: &mut Regs, val: u8) -> (res: u8)
    ensures
        res == rot_value(2, val, bit(old(r).f, FLAG_C)),
        *final(r) == (Regs { f: rot_flags(2, val, old(r).f), ..*old(r) }),
{
    let old_c: u8 = if r.flag(FLAG_C) { 1 } else { 0 };
    let result = (val % 128) * 2 + old_c;
    rot_finish(r, result, val >= 128);
    result
}

pub fn rr(r: &mut Regs, val: u8) -> (res: u8)
    ensures
        res == rot_value(3, val, bit(old(r).f, FLAG_C)),
        *final(r) == (Regs { f: rot_flags(3, val, old(r).f), ..*old(r) }),
{
    let old_c: u8 = if r.flag(FLAG_C) { 1 } else { 0 };
    let result = val / 2 + old_c * 128;
    rot_finish(r, result, val % 2 == 1);
    result
}

pub fn sla(r: &mut Regs, val: u8) -> (res: u8)
    ensures
        res == rot_value(4, val, bit(old(r).f, FLAG_C)),
        *final(r) == (Regs { f: rot_flags(4, val, old(r).f), ..*old(r) }),
{
    let result = (val % 128) * 2;
    rot_finish(r, result, val >= 128);
    result
}

pub fn sra(r: &mut Regs, val: u8) -> (res: u8)
    ensures
        res == rot_value(5, val, bit(old(r).f, FLAG_C)),
        *final(r) == (Regs { f: rot_flags(5, val, old(r).f), ..*old(r) }),
{
    let result = val / 2 + (val / 128) * 128;
    rot_finish(r, result, val % 2 == 1);
    result
}

/// The undocumented shift left that sets bit 0.
pub fn sll(r: &mut Regs, val: u8) -> (res: u8)
    ensures
        res == rot_value(6, val, bit(old(r).f, FLAG_C)),
        *final(r) == (Regs { f: rot_flags(6, val, old(r).f), ..*old(r) }),
{
    let result = (val % 128) * 2 + 1;
    rot_finish(r, result, val >= 128);
    result
}

pub fn srl(r: &mut Regs, val: u8) -> (res: u8)
    ensures
        res == rot_value(7, val, bit(old(r).f, FLAG_C)),
        *final(r) == (Regs { f: rot_flags(7, val, old(r).f), ..*old(r) }),
{
    let result = val / 2;
    rot_finish(r, result, val % 2 == 1);
    result
}

/// Rotate/shift `kind` of `val`.
pub fn rotate(r: &mut Regs, kind: u8, val: u8) -> (res: u8)
    requires
        kind < 8,
    ensures
        res == rot_value(kind, val, bit(old(r).f, FLAG_C)),
        *final(r) == (Regs { f: rot_flags(kind, val, old(r).f), ..*old(r) }),
{
    match kind {
        0 => rlc(r, val),
        1 => rrc(r, val),
        2 => rl(r, val),
        3 => rr(r, val),
        4 => sla(r, val),
        5 => sra(r, val),
        6 => sll(r, val),
        _ => srl(r, val),
    }
}

/// Flags after a CB-prefixed rotate/shift with result `res` over flag byte
/// `f`: S, Z, parity and bits 3 and 5 from the result, H and N kept.
pub open spec fn szp_flags(res: u8, f: u8) -> u8 {
    pack(
        sign(res),
        res == 0,
        bit(res, FLAG_Y),
        bit(f, FLAG_H),
        bit(res, FLAG_X),
        parity_spec(res),
        bit(f, FLAG_N),
        bit(f, FLAG_C),
    )
}

/// Set S, Z, parity and bits 3 and 5 from `val`.
pub fn set_szp_rot(r: &mut Regs, val: u8)
    ensures
        *final(r) == (Regs { f: szp_flags(val, old(r).f), ..*old(r) }),
{
    r.f = pack_flags(
        val >= 128,
        val == 0,
        bit_set(val, FLAG_Y),
        r.flag(FLAG_H),
        bit_set(val, FLAG_X),
        parity(val),
        r.flag(FLAG_N),
        r.flag(FLAG_C),
    );
}

/// The flags of a CB-prefixed rotate/shift of `v` over flag byte `f`.
pub open spec fn cb_rot_flags(kind: u8, v: u8, f: u8) -> u8 {
    let res = rot_value(kind, v, bit(f, FLAG_C));
    pack(sign(res), res == 0, bit(res, FLAG_Y), false, bit(res, FLAG_X), parity_spec(res), false, rot_carry(kind, v))
}

/// A rotate/shift followed by setting S, Z and parity from its result.
pub fn rotate_szp(r: &mut Regs, kind: u8, val: u8) -> (res: u8)
    requires
        kind < 8,
    ensures
        res == rot_value(kind, val, bit(old(r).f, FLAG_C)),
        *final(r) == (Regs { f: cb_rot_flags(kind, val, old(r).f), ..*old(r) }),
{
    let ghost f0 = r.f;
    let res = rotate(r, kind, val);
    proof {
        super::regs::lemma_pack_bits(
            bit(f0, FLAG_S),
            bit(f0, FLAG_Z),
            bit(res, FLAG_Y),
            false,
            bit(res, FLAG_X),
            bit(f0, FLAG_PV),
            false,
            rot_carry(kind, val),
        );
    }
    set_szp_rot(r, res);
    res
}

} // verus!
