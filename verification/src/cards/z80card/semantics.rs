//! What Z80 instructions do, stated over register files and memory
//! contents. The decoders are proved against these.

use vstd::prelude::*;
use super::regs::{Regs, b2i, bit, pack, pair, hi_byte, lo_byte, with_bit, parity_spec, FLAG_C, FLAG_H, FLAG_N, FLAG_PV, FLAG_S, FLAG_X, FLAG_Y, FLAG_Z};
use super::access::{wrap16, sext, reg8, reg8_xy, with_reg8, reg16, with_reg16, reg_qq, with_qq, cond};
use super::alu::{
    add8, sub8, sub8_flags, add16, add16_flags, alu_result, cb_rot_flags, inc_flags, dec_flags, rot_carry, rot_flags,
    rot_value, sign,
};

verus! {

/// 2 to the power `k`, for `k` below 8.
pub open spec fn pow2_byte(k: u8) -> u8 {
    if k == 0 {
        1
    } else if k == 1 {
        2
    } else if k == 2 {
        4
    } else if k == 3 {
        8
    } else if k == 4 {
        16
    } else if k == 5 {
        32
    } else if k == 6 {
        64
    } else {
        128
    }
}

/// The register file with R counted up (it counts opcode fetches).
pub open spec fn inc_r(r: Regs) -> Regs {
    Regs { r: add8(r.r, 1, false), ..r }
}

/// The register file with PC moved by `n`.
pub open spec fn adv(r: Regs, n: int) -> Regs {
    Regs { pc: wrap16(r.pc, n), ..r }
}

/// HL.
pub open spec fn hl(r: Regs) -> u16 {
    pair(r.h, r.l)
}

/// The byte at PC.
pub open spec fn imm8(r: Regs, m: Seq<u8>) -> u8 {
    m[r.pc as int]
}

/// The little-endian word at PC.
pub open spec fn imm16(r: Regs, m: Seq<u8>) -> u16 {
    pair(m[wrap16(r.pc, 1) as int], m[r.pc as int])
}

/// The little-endian word at `a`.
pub open spec fn word_at(m: Seq<u8>, a: u16) -> u16 {
    pair(m[wrap16(a, 1) as int], m[a as int])
}

/// Memory with `v` stored little-endian at `a`.
pub open spec fn store16(m: Seq<u8>, a: u16, v: u16) -> Seq<u8> {
    m.update(a as int, lo_byte(v)).update(wrap16(a, 1) as int, hi_byte(v))
}

/// Push `v` onto the stack of `r`: the registers with SP lowered by two,
/// and the memory with `v` stored there.
pub open spec fn push(r: Regs, m: Seq<u8>, v: u16) -> (Regs, Seq<u8>) {
    (Regs { sp: wrap16(r.sp, -2), ..r }, store16(m, wrap16(r.sp, -2), v))
}

/// The result of CB operation `op` on `val`: rotate/shift, RES or SET
/// (BIT stores nothing).
pub open spec fn cb_value(op: u8, val: u8, f: u8) -> u8 {
    let k = (op / 8) % 8;
    if op / 64 == 0 {
        rot_value(k, val, bit(f, FLAG_C))
    } else if op / 64 == 2 {
        with_bit(val, pow2_byte(k), false)
    } else {
        with_bit(val, pow2_byte(k), true)
    }
}

/// Flags of BIT `k` of `val`; bits 3 and 5 copy `xy`, carry kept.
pub open spec fn bit_flags(k: u8, val: u8, xy: u8, f: u8) -> u8 {
    let z = !bit(val, pow2_byte(k));
    pack(k == 7 && sign(val), z, bit(xy, FLAG_Y), true, bit(xy, FLAG_X), z, false, bit(f, FLAG_C))
}

/// The flags after CB operation `op` on `val`: those of the rotate/shift,
/// of BIT, or unchanged for RES and SET.
pub open spec fn cb_flags(op: u8, val: u8, f: u8) -> u8 {
    let k = (op / 8) % 8;
    if op / 64 == 0 {
        cb_rot_flags(k, val, f)
    } else if op / 64 == 1 {
        bit_flags(k, val, val, f)
    } else {
        f
    }
}

/// T-states of CB operation `op`.
pub open spec fn cb_cycles(op: u8) -> u32 {
    if op % 8 != 6 {
        8
    } else if op / 64 == 1 {
        12
    } else {
        15
    }
}

/// The CB-prefixed instruction whose second byte is at PC, from `r0`/`m0`
/// to `r1`/`m1` in `cycles` T-states.
pub open spec fn cb_effect(r0: Regs, m0: Seq<u8>, r1: Regs, m1: Seq<u8>, cycles: u32) -> bool {
    let op = m0[r0.pc as int];
    let idx = op % 8;
    let val = reg8(r0, m0, idx);
    let r2 = Regs { f: cb_flags(op, val, r0.f), ..adv(inc_r(r0), 1) };
    let res = cb_value(op, val, r0.f);
    &&& cycles == cb_cycles(op)
    &&& if op / 64 == 1 {
        r1 == r2 && m1 == m0
    } else if idx == 6 {
        r1 == r2 && m1 == m0.update(hl(r0) as int, res)
    } else {
        r1 == with_reg8(r2, idx, res) && m1 == m0
    }
}

/// The DDCB/FDCB instruction whose displacement is at PC, on (`base` + d):
/// BIT takes its bits 3 and 5 from the high byte of the address, and the
/// other operations also copy their result to register field `op % 8`
/// unless it is 6.
pub open spec fn xycb_effect(r0: Regs, m0: Seq<u8>, base: u16, r1: Regs, m1: Seq<u8>, cycles: u32) -> bool {
    let d = m0[r0.pc as int];
    let op = m0[wrap16(r0.pc, 1) as int];
    let addr = wrap16(base, sext(d));
    let val = m0[addr as int];
    let idx = op % 8;
    let k = (op / 8) % 8;
    let rf = adv(inc_r(r0), 2);
    if op / 64 == 1 {
        &&& cycles == 20
        &&& r1 == (Regs { f: bit_flags(k, val, hi_byte(addr), r0.f), ..rf })
        &&& m1 == m0
    } else {
        let res = cb_value(op, val, r0.f);
        let r2 = Regs { f: cb_flags(op, val, r0.f), ..rf };
        &&& cycles == 23
        &&& m1 == m0.update(addr as int, res)
        &&& r1 == (if idx == 6 { r2 } else { with_reg8(r2, idx, res) })
    }
}

/// The correction DAA adds (after an addition) or subtracts (after a
/// subtraction): 6 for the low digit, 0x60 for the high one.
pub open spec fn daa_adjust(a: u8, f: u8) -> u8 {
    let n = bit(f, FLAG_N);
    let low = bit(f, FLAG_H) || (!n && a % 16 > 9);
    let high = bit(f, FLAG_C) || (!n && a > 0x99);
    ((if low { 6int } else { 0 }) + (if high { 0x60int } else { 0 })) as u8
}

/// A after DAA.
pub open spec fn daa_value(a: u8, f: u8) -> u8 {
    if bit(f, FLAG_N) {
        sub8(a, daa_adjust(a, f), false)
    } else {
        add8(a, daa_adjust(a, f), false)
    }
}

/// The flags after DAA: S, Z, parity and bits 3 and 5 of the result, H
/// clear, N kept, carry set when the high digit was adjusted.
pub open spec fn daa_flags(a: u8, f: u8) -> u8 {
    let v = daa_value(a, f);
    pack(
        sign(v),
        v == 0,
        bit(v, FLAG_Y),
        false,
        bit(v, FLAG_X),
        parity_spec(v),
        bit(f, FLAG_N),
        bit(f, FLAG_C) || (!bit(f, FLAG_N) && a > 0x99),
    )
}

/// 16-bit value `v` read as signed: its top bit.
pub open spec fn sign16(v: u16) -> bool {
    v >= 0x8000
}

/// Flags of a 16-bit ADC (`sub` false) or SBC of `v` and carry `c` to `hl`.
pub open spec fn adc16_flags(hl: u16, v: u16, c: bool, sub: bool) -> u8 {
    let full: int = if sub { hl - v - b2i(c) } else { hl + v + b2i(c) };
    let res = (full % 0x10000) as u16;
    pack(
        sign16(res),
        res == 0,
        bit(hi_byte(res), FLAG_Y),
        if sub { hl % 4096 < v % 4096 + b2i(c) } else { hl % 4096 + v % 4096 + b2i(c) > 4095 },
        bit(hi_byte(res), FLAG_X),
        if sub { sign16(hl) != sign16(v) } else { sign16(hl) == sign16(v) } && sign16(res) != sign16(hl),
        sub,
        full < 0 || full > 0xFFFF,
    )
}

/// The 16-bit result of ADC/SBC HL.
pub open spec fn adc16_value(hl: u16, v: u16, c: bool, sub: bool) -> u16 {
    ((if sub { hl - v - b2i(c) } else { hl + v + b2i(c) }) % 0x10000) as u16
}

/// The ED instructions other than the block ones, from `ra` (the second
/// opcode fetched).
pub open spec fn ed_misc_effect(op: u8, ra: Regs, m0: Seq<u8>, y0: bool, r1: Regs, m1: Seq<u8>, y1: bool, cycles: u32) -> bool {
    let f = ra.f;
    let dd = (op / 16) % 4;
    let nn = imm16(ra, m0);
    let inf = pack(sign(0xFF), false, bit(f, FLAG_Y), false, bit(f, FLAG_X), parity_spec(0xFF), false, bit(f, FLAG_C));
    &&& (op == 0x40 || op == 0x48 || op == 0x50 || op == 0x58 || op == 0x60 || op == 0x68 || op == 0x78)
        ==> r1 == with_reg8(Regs { f: inf, ..ra }, (op / 8) % 8, 0xFF) && m1 == m0 && y1 == y0 && cycles == 12
    &&& op == 0x70 ==> r1 == (Regs { f: inf, ..ra }) && m1 == m0 && y1 == y0 && cycles == 12
    &&& (op == 0x41 || op == 0x49 || op == 0x51 || op == 0x59 || op == 0x61 || op == 0x69 || op == 0x79
        || op == 0x71) ==> r1 == ra && m1 == m0 && y1 == (y0 || ra.c == 0) && cycles == 12
    &&& (op == 0x42 || op == 0x52 || op == 0x62 || op == 0x72 || op == 0x4A || op == 0x5A || op == 0x6A
        || op == 0x7A) ==> {
        let sub = op % 16 == 2;
        let v = reg16(ra, dd);
        let c = bit(f, FLAG_C);
        &&& r1 == with_reg16(Regs { f: adc16_flags(hl(ra), v, c, sub), ..ra }, 2, adc16_value(hl(ra), v, c, sub))
        &&& m1 == m0 && y1 == y0 && cycles == 15
    }
    &&& (op == 0x43 || op == 0x53 || op == 0x63 || op == 0x73) ==> r1 == adv(ra, 2) && m1 == store16(
        m0,
        nn,
        reg16(ra, dd),
    ) && y1 == y0 && cycles == 20
    &&& (op == 0x4B || op == 0x5B || op == 0x6B || op == 0x7B) ==> r1 == with_reg16(adv(ra, 2), dd, word_at(m0, nn))
        && m1 == m0 && y1 == y0 && cycles == 20
    &&& (op / 64 == 1 && op % 8 == 4) ==> r1 == (Regs { a: sub8(0, ra.a, false), f: sub8_flags(0, ra.a, false), ..ra })
        && m1 == m0 && y1 == y0 && cycles == 8
    &&& (op / 64 == 1 && op % 8 == 5) ==> r1 == (Regs {
        iff1: ra.iff2,
        pc: word_at(m0, ra.sp),
        sp: wrap16(ra.sp, 2),
        ..ra
    }) && m1 == m0 && y1 == y0 && cycles == 14
    &&& (op == 0x46 || op == 0x4E || op == 0x66 || op == 0x6E) ==> r1 == (Regs { im: 0, ..ra }) && m1 == m0 && y1 == y0 && cycles == 8
    &&& (op == 0x56 || op == 0x76) ==> r1 == (Regs { im: 1, ..ra }) && m1 == m0 && y1 == y0 && cycles == 8
    &&& (op == 0x5E || op == 0x7E) ==> r1 == (Regs { im: 2, ..ra }) && m1 == m0 && y1 == y0 && cycles == 8
    &&& op == 0x47 ==> r1 == (Regs { i: ra.a, ..ra }) && m1 == m0 && y1 == y0 && cycles == 9
    &&& op == 0x4F ==> r1 == (Regs { r: ra.a, ..ra }) && m1 == m0 && y1 == y0 && cycles == 9
    &&& (op == 0x57 || op == 0x5F) ==> {
        let v = if op == 0x57 { ra.i } else { ra.r };
        &&& r1 == (Regs {
            a: v,
            f: pack(sign(v), v == 0, bit(f, FLAG_Y), false, bit(f, FLAG_X), ra.iff2, false, bit(f, FLAG_C)),
            ..ra
        })
        &&& m1 == m0 && y1 == y0 && cycles == 9
    }
    &&& (op == 0x67 || op == 0x6F) ==> {
        let m = m0[hl(ra) as int];
        let a = ra.a;
        let new_m: u8 = if op == 0x67 { ((a % 16) * 16 + m / 16) as u8 } else { ((m % 16) * 16 + a % 16) as u8 };
        let new_a: u8 = if op == 0x67 { ((a / 16) * 16 + m % 16) as u8 } else { ((a / 16) * 16 + m / 16) as u8 };
        &&& r1 == (Regs {
            a: new_a,
            f: pack(sign(new_a), new_a == 0, bit(f, FLAG_Y), false, bit(f, FLAG_X), parity_spec(new_a), false, bit(f, FLAG_C)),
            ..ra
        })
        &&& m1 == m0.update(hl(ra) as int, new_m) && y1 == y0 && cycles == 18
    }
}

/// The block instructions LDI/LDD/LDIR/LDDR (which copy the byte at DE to
/// HL), CPI/CPD/CPIR/CPDR, INI/IND/INIR/INDR and OUTI/OUTD/OTIR/OTDR, from
/// `ra`. The repeating forms step PC back onto themselves while they go on.
pub open spec fn ed_block_effect(op: u8, ra: Regs, m0: Seq<u8>, y0: bool, r1: Regs, m1: Seq<u8>, y1: bool, cycles: u32) -> bool {
    let f = ra.f;
    let step: int = if op % 16 < 8 { 1 } else { -1 };
    let rep = op >= 0xB0;
    let hl1 = wrap16(hl(ra), step);
    let bc1 = wrap16(pair(ra.b, ra.c), -1);
    let b1 = sub8(ra.b, 1, false);
    let back = wrap16(ra.pc, -2);
    if op % 4 == 0 {
        let v = m0[pair(ra.d, ra.e) as int];
        let n = add8(ra.a, v, false);
        let fl = if op == 0xA0 {
            pack(bit(f, FLAG_S), bit(f, FLAG_Z), bit(n, 0x02), false, bit(n, 0x08), bc1 != 0, false, bit(f, FLAG_C))
        } else {
            pack(bit(f, FLAG_S), bit(f, FLAG_Z), bit(f, FLAG_Y), false, bit(f, FLAG_X), !rep && bc1 != 0, false, bit(f, FLAG_C))
        };
        let de1 = wrap16(pair(ra.d, ra.e), step);
        let rr = Regs {
            f: fl,
            h: hi_byte(hl1),
            l: lo_byte(hl1),
            d: hi_byte(de1),
            e: lo_byte(de1),
            b: hi_byte(bc1),
            c: lo_byte(bc1),
            ..ra
        };
        &&& m1 == m0.update(hl(ra) as int, v) && y1 == y0
        &&& if rep && bc1 != 0 { r1 == (Regs { pc: back, ..rr }) && cycles == 21 } else { r1 == rr && cycles == 16 }
    } else if op % 4 == 1 {
        let v = m0[hl(ra) as int];
        let res = sub8(ra.a, v, false);
        let h = ra.a % 16 < v % 16;
        let n = sub8(res, (if h { 1u8 } else { 0 }), false);
        let fl = pack(
            sign(res),
            res == 0,
            if op == 0xA1 { bit(n, 0x02) } else { bit(f, FLAG_Y) },
            h,
            if op == 0xA1 { bit(n, 0x08) } else { bit(f, FLAG_X) },
            bc1 != 0,
            true,
            bit(f, FLAG_C),
        );
        let rr = Regs { f: fl, h: hi_byte(hl1), l: lo_byte(hl1), b: hi_byte(bc1), c: lo_byte(bc1), ..ra };
        &&& m1 == m0 && y1 == y0
        &&& if rep && bc1 != 0 && res != 0 { r1 == (Regs { pc: back, ..rr }) && cycles == 21 } else { r1 == rr && cycles == 16 }
    } else {
        let fl = pack(bit(f, FLAG_S), b1 == 0, bit(f, FLAG_Y), bit(f, FLAG_H), bit(f, FLAG_X), bit(f, FLAG_PV), true, bit(f, FLAG_C));
        let rr = Regs { f: fl, h: hi_byte(hl1), l: lo_byte(hl1), b: b1, ..ra };
        &&& if op % 4 == 2 {
            m1 == m0.update(hl(ra) as int, 0xFF) && y1 == y0
        } else {
            m1 == m0 && y1 == (y0 || ra.c == 0)
        }
        &&& if rep && b1 != 0 { r1 == (Regs { pc: back, ..rr }) && cycles == 21 } else { r1 == rr && cycles == 16 }
    }
}

/// The opcodes that the ED prefix gives a meaning.
pub open spec fn ed_opcode(op: u8) -> bool {
    ||| 0x40 <= op < 0x80 && op != 0x77 && op != 0x7F
    ||| (0xA0 <= op <= 0xA3) || (0xA8 <= op <= 0xAB) || (0xB0 <= op <= 0xB3) || (0xB8 <= op <= 0xBB)
}

/// The ED-prefixed instruction whose second byte is at PC, from `r0`/`m0`
/// (and the hand-back flag `y0`) to `r1`/`m1`/`y1`; an opcode the prefix
/// gives no meaning takes 8 T-states and does nothing else.
pub open spec fn ed_effect(r0: Regs, m0: Seq<u8>, y0: bool, r1: Regs, m1: Seq<u8>, y1: bool, cycles: u32) -> bool {
    let op = m0[r0.pc as int];
    let ra = adv(inc_r(r0), 1);
    if !ed_opcode(op) {
        r1 == ra && m1 == m0 && y1 == y0 && cycles == 8
    } else if op < 0x80 {
        ed_misc_effect(op, ra, m0, y0, r1, m1, y1, cycles)
    } else {
        ed_block_effect(op, ra, m0, y0, r1, m1, y1, cycles)
    }
}

/// Opcodes 0x00-0x3F: loads of immediates and through BC, DE and nn, 16-bit
/// increments and additions, INC/DEC, the accumulator rotates, EX AF, DAA,
/// CPL, SCF, CCF and the relative jumps.
pub open spec fn main_low_effect(op: u8, r0: Regs, m0: Seq<u8>, r1: Regs, m1: Seq<u8>, cycles: u32) -> bool {
    let nn = imm16(r0, m0);
    let dd = (op / 16) % 4;
    let reg = (op / 8) % 8;
    let cc = (op / 8) % 8;
    let after = adv(r0, 1);
    let target = wrap16(after.pc, sext(imm8(r0, m0)));
    let pop = Regs { pc: word_at(m0, r0.sp), sp: wrap16(r0.sp, 2), ..r0 };
    &&& op == 0x00 ==> r1 == r0 && m1 == m0 && cycles == 4
    &&& (op < 0x40 && op % 16 == 1) ==> r1 == with_reg16(adv(r0, 2), dd, nn) && m1 == m0 && cycles == 10
    &&& op == 0x02 ==> r1 == r0 && m1 == m0.update(pair(r0.b, r0.c) as int, r0.a) && cycles == 7
    &&& op == 0x12 ==> r1 == r0 && m1 == m0.update(pair(r0.d, r0.e) as int, r0.a) && cycles == 7
    &&& op == 0x0A ==> r1 == (Regs { a: m0[pair(r0.b, r0.c) as int], ..r0 }) && m1 == m0 && cycles == 7
    &&& op == 0x1A ==> r1 == (Regs { a: m0[pair(r0.d, r0.e) as int], ..r0 }) && m1 == m0 && cycles == 7
    &&& (op < 0x40 && op % 16 == 3) ==> r1 == with_reg16(r0, dd, wrap16(reg16(r0, dd), 1)) && m1 == m0
        && cycles == 6
    &&& (op < 0x40 && op % 16 == 11) ==> r1 == with_reg16(r0, dd, wrap16(reg16(r0, dd), -1)) && m1 == m0
        && cycles == 6
    &&& (op < 0x40 && op % 16 == 9) ==> r1 == with_reg16(
        Regs { f: add16_flags(hl(r0), reg16(r0, dd), r0.f), ..r0 },
        2,
        add16(hl(r0), reg16(r0, dd)),
    ) && m1 == m0 && cycles == 11
    &&& op == 0x22 ==> r1 == adv(r0, 2) && m1 == store16(m0, nn, hl(r0)) && cycles == 16
    &&& op == 0x2A ==> r1 == with_reg16(adv(r0, 2), 2, word_at(m0, nn)) && m1 == m0 && cycles == 16
    &&& op == 0x32 ==> r1 == adv(r0, 2) && m1 == m0.update(nn as int, r0.a) && cycles == 13
    &&& op == 0x3A ==> r1 == (Regs { a: m0[nn as int], ..adv(r0, 2) }) && m1 == m0 && cycles == 13
    &&& (op < 0x40 && op % 8 == 6) ==> {
        let reg = (op / 8) % 8;
        let r2 = adv(r0, 1);
        &&& cycles == (if reg == 6 { 10u32 } else { 7 })
        &&& if reg == 6 {
            r1 == r2 && m1 == m0.update(hl(r0) as int, imm8(r0, m0))
        } else {
            r1 == with_reg8(r2, reg, imm8(r0, m0)) && m1 == m0
        }
    }
    &&& op == 0x08 ==> r1 == (Regs { a: r0.a2, f: r0.f2, a2: r0.a, f2: r0.f, ..r0 }) && m1 == m0
        && cycles == 4
    &&& (op < 0x40 && op % 8 == 4) ==> {
        let v = reg8(r0, m0, reg);
        let rf = Regs { f: inc_flags(v, r0.f), ..r0 };
        &&& cycles == (if reg == 6 { 11u32 } else { 4 })
        &&& if reg == 6 {
            r1 == rf && m1 == m0.update(hl(r0) as int, add8(v, 1, false))
        } else {
            r1 == with_reg8(rf, reg, add8(v, 1, false)) && m1 == m0
        }
    }
    &&& (op < 0x40 && op % 8 == 5) ==> {
        let v = reg8(r0, m0, reg);
        let rf = Regs { f: dec_flags(v, r0.f), ..r0 };
        &&& cycles == (if reg == 6 { 11u32 } else { 4 })
        &&& if reg == 6 {
            r1 == rf && m1 == m0.update(hl(r0) as int, sub8(v, 1, false))
        } else {
            r1 == with_reg8(rf, reg, sub8(v, 1, false)) && m1 == m0
        }
    }
    &&& (op < 0x20 && op % 8 == 7) ==> r1 == (Regs {
        a: rot_value(reg, r0.a, bit(r0.f, FLAG_C)),
        f: rot_flags(reg, r0.a, r0.f),
        ..r0
    }) && m1 == m0 && cycles == 4
    &&& op == 0x27 ==> r1 == (Regs { a: daa_value(r0.a, r0.f), f: daa_flags(r0.a, r0.f), ..r0 }) && m1
        == m0 && cycles == 4
    &&& op == 0x2F ==> r1 == (Regs {
        a: (255 - r0.a) as u8,
        f: pack(
            bit(r0.f, FLAG_S),
            bit(r0.f, FLAG_Z),
            bit((255 - r0.a) as u8, FLAG_Y),
            true,
            bit((255 - r0.a) as u8, FLAG_X),
            bit(r0.f, FLAG_PV),
            true,
            bit(r0.f, FLAG_C),
        ),
        ..r0
    }) && m1 == m0 && cycles == 4
    &&& op == 0x37 ==> r1 == (Regs {
        f: pack(
            bit(r0.f, FLAG_S),
            bit(r0.f, FLAG_Z),
            bit(r0.a, FLAG_Y),
            false,
            bit(r0.a, FLAG_X),
            bit(r0.f, FLAG_PV),
            false,
            true,
        ),
        ..r0
    }) && m1 == m0 && cycles == 4
    &&& op == 0x3F ==> r1 == (Regs {
        f: pack(
            bit(r0.f, FLAG_S),
            bit(r0.f, FLAG_Z),
            bit(r0.a, FLAG_Y),
            bit(r0.f, FLAG_C),
            bit(r0.a, FLAG_X),
            bit(r0.f, FLAG_PV),
            false,
            !bit(r0.f, FLAG_C),
        ),
        ..r0
    }) && m1 == m0 && cycles == 4
    &&& op == 0x10 ==> {
        let b = sub8(r0.b, 1, false);
        &&& m1 == m0
        &&& if b != 0 {
            r1 == (Regs { b: b, pc: target, ..after }) && cycles == 13
        } else {
            r1 == (Regs { b: b, ..after }) && cycles == 8
        }
    }
    &&& op == 0x18 ==> r1 == (Regs { pc: target, ..after }) && m1 == m0 && cycles == 12
    &&& (op == 0x20 || op == 0x28 || op == 0x30 || op == 0x38) ==> m1 == m0 && if cond(r0.f, (op / 8) % 4) {
        r1 == (Regs { pc: target, ..after }) && cycles == 12
    } else {
        r1 == after && cycles == 7
    }
}

/// Opcodes 0x40-0xBF: LD r, r', HALT and the ALU operations on a register
/// field.
pub open spec fn main_mid_effect(op: u8, r0: Regs, m0: Seq<u8>, r1: Regs, m1: Seq<u8>, cycles: u32) -> bool {
    let nn = imm16(r0, m0);
    let dd = (op / 16) % 4;
    let reg = (op / 8) % 8;
    let cc = (op / 8) % 8;
    let after = adv(r0, 1);
    let target = wrap16(after.pc, sext(imm8(r0, m0)));
    let pop = Regs { pc: word_at(m0, r0.sp), sp: wrap16(r0.sp, 2), ..r0 };
    &&& (0x40 <= op < 0x80 && op != 0x76) ==> {
        let dst = (op / 8) % 8;
        let v = reg8(r0, m0, op % 8);
        &&& cycles == (if dst == 6 || op % 8 == 6 { 7u32 } else { 4 })
        &&& if dst == 6 {
            r1 == r0 && m1 == m0.update(hl(r0) as int, v)
        } else {
            r1 == with_reg8(r0, dst, v) && m1 == m0
        }
    }
    &&& (0x80 <= op < 0xC0) ==> r1 == alu_result(reg, r0, reg8(r0, m0, op % 8)) && m1 == m0 && cycles == (
    if op % 8 == 6 { 7u32 } else { 4 })
    &&& op == 0x76 ==> r1 == (Regs { halted: true, ..r0 }) && m1 == m0 && cycles == 4
}

/// Opcodes 0xC0-0xFF but the prefixes: jumps, calls, returns, restarts,
/// stack operations, ALU with an immediate, port I/O, exchanges and the
/// interrupt enables.
pub open spec fn main_high_effect(op: u8, r0: Regs, m0: Seq<u8>, y0: bool, r1: Regs, m1: Seq<u8>, y1: bool, cycles: u32) -> bool {
    let nn = imm16(r0, m0);
    let dd = (op / 16) % 4;
    let reg = (op / 8) % 8;
    let cc = (op / 8) % 8;
    let after = adv(r0, 1);
    let target = wrap16(after.pc, sext(imm8(r0, m0)));
    let pop = Regs { pc: word_at(m0, r0.sp), sp: wrap16(r0.sp, 2), ..r0 };
    &&& op == 0xD9 ==> r1 == (Regs {
        b: r0.b2,
        c: r0.c2,
        d: r0.d2,
        e: r0.e2,
        h: r0.h2,
        l: r0.l2,
        b2: r0.b,
        c2: r0.c,
        d2: r0.d,
        e2: r0.e,
        h2: r0.h,
        l2: r0.l,
        ..r0
    }) && m1 == m0 && cycles == 4
    &&& op == 0xEB ==> r1 == (Regs { d: r0.h, e: r0.l, h: r0.d, l: r0.e, ..r0 }) && m1 == m0 && cycles == 4
    &&& op == 0xE3 ==> r1 == with_reg16(r0, 2, word_at(m0, r0.sp)) && m1 == store16(m0, r0.sp, hl(r0))
        && cycles == 19
    &&& op == 0xF9 ==> r1 == (Regs { sp: hl(r0), ..r0 }) && m1 == m0 && cycles == 6

    &&& (op >= 0xC0 && op % 8 == 6) ==> r1 == alu_result(reg, adv(r0, 1), imm8(r0, m0)) && m1 == m0
        && cycles == 7

    &&& op == 0xC3 ==> r1 == (Regs { pc: nn, ..r0 }) && m1 == m0 && cycles == 10
    &&& (op >= 0xC0 && op % 8 == 2) ==> m1 == m0 && cycles == 10 && r1 == (if cond(r0.f, cc) {
        Regs { pc: nn, ..r0 }
    } else {
        adv(r0, 2)
    })
    &&& op == 0xC9 ==> r1 == pop && m1 == m0 && cycles == 10
    &&& (op >= 0xC0 && op % 8 == 0) ==> m1 == m0 && if cond(r0.f, cc) {
        r1 == pop && cycles == 11
    } else {
        r1 == r0 && cycles == 5
    }
    &&& (op == 0xCD || (op >= 0xC0 && op % 8 == 4)) ==> {
        let (rp, mp) = push(adv(r0, 2), m0, wrap16(r0.pc, 2));
        if op == 0xCD || cond(r0.f, cc) {
            r1 == (Regs { pc: nn, ..rp }) && m1 == mp && cycles == 17
        } else {
            r1 == adv(r0, 2) && m1 == m0 && cycles == 10
        }
    }
    &&& (op >= 0xC0 && op % 8 == 7) ==> {
        let (rp, mp) = push(r0, m0, r0.pc);
        r1 == (Regs { pc: ((op % 64) / 8 * 8) as u16, ..rp }) && m1 == mp && cycles == 11
    }
    &&& op == 0xE9 ==> r1 == (Regs { pc: hl(r0), ..r0 }) && m1 == m0 && cycles == 4

    &&& (op >= 0xC0 && op % 16 == 5) ==> {
        let (rp, mp) = push(r0, m0, reg_qq(r0, (op / 16) % 4));
        r1 == rp && m1 == mp && cycles == 11
    }
    &&& (op >= 0xC0 && op % 16 == 1) ==> r1 == with_qq(
        Regs { sp: wrap16(r0.sp, 2), ..r0 },
        (op / 16) % 4,
        word_at(m0, r0.sp),
    ) && m1 == m0 && cycles == 10
    &&& op == 0xD3 ==> r1 == adv(r0, 1) && m1 == m0 && y1 == (y0 || imm8(r0, m0) == 0) && cycles == 11
    &&& op == 0xDB ==> r1 == (Regs { a: 0xFF, ..adv(r0, 1) }) && m1 == m0 && cycles == 11
    &&& op == 0xF3 ==> r1 == (Regs { iff1: false, iff2: false, ..r0 }) && m1 == m0 && cycles == 4
    &&& op == 0xFB ==> r1 == (Regs { iff1: true, iff2: true, ..r0 }) && m1 == m0 && cycles == 4
}

/// The unprefixed opcode `op`, its operands from PC on, taking the machine
/// from `r0`/`m0` (and the hand-back flag `y0`) to `r1`/`m1`/`y1` in
/// `cycles` T-states. The CB instructions are those of `cb_effect`, the
/// ED instructions those of `ed_effect`.
pub open spec fn main_effect(
    op: u8,
    r0: Regs,
    m0: Seq<u8>,
    y0: bool,
    r1: Regs,
    m1: Seq<u8>,
    y1: bool,
    cycles: u32,
) -> bool {
    &&& m1.len() == m0.len()
    &&& 4 <= cycles <= 21
    &&& (op != 0xD3 && op != 0xED) ==> y1 == y0
    &&& if op == 0xCB {
        cb_effect(r0, m0, r1, m1, cycles)
    } else if op == 0xED {
        ed_effect(r0, m0, y0, r1, m1, y1, cycles)
    } else if op < 0x40 {
        main_low_effect(op, r0, m0, r1, m1, cycles)
    } else if op < 0xC0 {
        main_mid_effect(op, r0, m0, r1, m1, cycles)
    } else {
        main_high_effect(op, r0, m0, y0, r1, m1, y1, cycles)
    }
}

/// `r` with the index register IX (`use_ix`) or IY set to `v`.
pub open spec fn with_xy(r: Regs, use_ix: bool, v: u16) -> Regs {
    if use_ix {
        Regs { ix: v, ..r }
    } else {
        Regs { iy: v, ..r }
    }
}

/// Loads, stores and 16-bit operations of the index register `xy` (IX when
/// `use_ix`, else IY), from `ra` (the opcode fetched) and `m0`.
pub open spec fn xy_load_effect(
    op: u8,
    use_ix: bool,
    xy: u16,
    ra: Regs,
    m0: Seq<u8>,
    r1: Regs,
    m1: Seq<u8>,
    cycles: u32,
) -> bool {
    let nn = imm16(ra, m0);
    let dd = (op / 16) % 4;
    let addr = wrap16(xy, sext(imm8(ra, m0)));
    &&& (op == 0x09 || op == 0x19 || op == 0x29 || op == 0x39) ==> {
        let val = if dd == 2 { xy } else { reg16(ra, dd) };
        r1 == with_xy(Regs { f: add16_flags(xy, val, ra.f), ..ra }, use_ix, add16(xy, val)) && m1 == m0
            && cycles == 15
    }
    &&& op == 0x21 ==> r1 == with_xy(adv(ra, 2), use_ix, nn) && m1 == m0 && cycles == 14
    &&& op == 0x22 ==> r1 == adv(ra, 2) && m1 == store16(m0, nn, xy) && cycles == 20
    &&& op == 0x23 ==> r1 == with_xy(ra, use_ix, wrap16(xy, 1)) && m1 == m0 && cycles == 10
    &&& op == 0x2B ==> r1 == with_xy(ra, use_ix, wrap16(xy, -1)) && m1 == m0 && cycles == 10
    &&& op == 0x26 ==> r1 == with_xy(adv(ra, 1), use_ix, pair(imm8(ra, m0), lo_byte(xy))) && m1 == m0
        && cycles == 11
    &&& op == 0x2E ==> r1 == with_xy(adv(ra, 1), use_ix, pair(hi_byte(xy), imm8(ra, m0))) && m1 == m0
        && cycles == 11
    &&& op == 0x2A ==> r1 == with_xy(adv(ra, 2), use_ix, word_at(m0, nn)) && m1 == m0 && cycles == 20
    &&& op == 0x36 ==> r1 == adv(ra, 2) && m1 == m0.update(addr as int, m0[wrap16(ra.pc, 1) as int])
        && cycles == 19
    &&& (op / 64 == 1 && op % 8 == 6) ==> {
        let reg = (op / 8) % 8;
        if reg == 6 {
            r1 == adv(ra, 1) && m1 == m0 && cycles == 4
        } else {
            r1 == with_reg8(adv(ra, 1), reg, m0[addr as int]) && m1 == m0 && cycles == 19
        }
    }
    &&& (op / 8 == 14 && op != 0x76) ==> r1 == adv(ra, 1) && m1 == m0.update(
        addr as int,
        reg8(ra, m0, op % 8),
    ) && cycles == 19
    &&& (op / 8 == 12 || op / 8 == 13) && op % 8 != 6 ==> {
        let val = reg8_xy(ra, m0, op % 8, xy, 0);
        &&& r1 == with_xy(
            ra,
            use_ix,
            if op / 8 == 12 { pair(val, lo_byte(xy)) } else { pair(hi_byte(xy), val) },
        )
        &&& m1 == m0
        &&& cycles == 8
    }
    &&& op == 0xE5 ==> {
        let (rp, mp) = push(ra, m0, xy);
        r1 == rp && m1 == mp && cycles == 15
    }
    &&& op == 0xE1 ==> r1 == with_xy(Regs { sp: wrap16(ra.sp, 2), ..ra }, use_ix, word_at(m0, ra.sp))
        && m1 == m0 && cycles == 14
    &&& op == 0xE3 ==> r1 == with_xy(ra, use_ix, word_at(m0, ra.sp)) && m1 == store16(m0, ra.sp, xy)
        && cycles == 23
    &&& op == 0xE9 ==> r1 == (Regs { pc: xy, ..ra }) && m1 == m0 && cycles == 8
    &&& op == 0xF9 ==> r1 == (Regs { sp: xy, ..ra }) && m1 == m0 && cycles == 10
}

/// 8-bit arithmetic on the index register's halves and on (`xy` + d).
pub open spec fn xy_alu_effect(
    op: u8,
    use_ix: bool,
    xy: u16,
    ra: Regs,
    m0: Seq<u8>,
    r1: Regs,
    m1: Seq<u8>,
    cycles: u32,
) -> bool {
    let addr = wrap16(xy, sext(imm8(ra, m0)));
    &&& (op == 0x24 || op == 0x25) ==> {
        let h = hi_byte(xy);
        let v = if op == 0x24 { add8(h, 1, false) } else { sub8(h, 1, false) };
        let f = if op == 0x24 { inc_flags(h, ra.f) } else { dec_flags(h, ra.f) };
        r1 == with_xy(Regs { f: f, ..ra }, use_ix, pair(v, lo_byte(xy))) && m1 == m0 && cycles == 8
    }
    &&& (op == 0x2C || op == 0x2D) ==> {
        let l = lo_byte(xy);
        let v = if op == 0x2C { add8(l, 1, false) } else { sub8(l, 1, false) };
        let f = if op == 0x2C { inc_flags(l, ra.f) } else { dec_flags(l, ra.f) };
        r1 == with_xy(Regs { f: f, ..ra }, use_ix, pair(hi_byte(xy), v)) && m1 == m0 && cycles == 8
    }
    &&& (op == 0x34 || op == 0x35) ==> {
        let v = m0[addr as int];
        let res = if op == 0x34 { add8(v, 1, false) } else { sub8(v, 1, false) };
        let f = if op == 0x34 { inc_flags(v, ra.f) } else { dec_flags(v, ra.f) };
        r1 == (Regs { f: f, ..adv(ra, 1) }) && m1 == m0.update(addr as int, res) && cycles == 23
    }
    &&& (0x80 <= op < 0xC0) ==> m1 == m0 && if op % 8 == 6 {
        r1 == alu_result((op / 8) % 8, adv(ra, 1), m0[addr as int]) && cycles == 19
    } else {
        r1 == alu_result((op / 8) % 8, ra, reg8_xy(ra, m0, op % 8, xy, 0)) && cycles == 8
    }
}

/// The opcodes a DD/FD prefix gives a meaning of its own.
pub open spec fn xy_opcode(op: u8) -> bool {
    ||| op == 0x09 || op == 0x19 || op == 0x29 || op == 0x39
    ||| 0x21 <= op <= 0x26
    ||| 0x2A <= op <= 0x2E
    ||| 0x34 <= op <= 0x36
    ||| (op / 64 == 1 && op % 8 == 6)
    ||| (op / 8 == 14 && op != 0x76)
    ||| op / 8 == 12 || op / 8 == 13
    ||| 0x80 <= op < 0xC0
    ||| op == 0xE5 || op == 0xE1 || op == 0xE3 || op == 0xE9 || op == 0xF9 || op == 0xCB
}

/// The DD (`use_ix`) or FD prefix whose next opcode is at PC, from `r0`/`m0`
/// to `r1`/`m1`: an instruction of IX or IY taking `cycles`, or, for an
/// opcode the prefix does not change, nothing but the opcode fetch, with
/// that opcode left to run unprefixed.
pub open spec fn xy_effect(
    use_ix: bool,
    r0: Regs,
    m0: Seq<u8>,
    r1: Regs,
    m1: Seq<u8>,
    cycles: Option<u32>,
) -> bool {
    let op = m0[r0.pc as int];
    let ra = adv(inc_r(r0), 1);
    let xy = if use_ix { r0.ix } else { r0.iy };
    if !xy_opcode(op) {
        r1 == ra && m1 == m0 && cycles is None
    } else {
        &&& cycles is Some
        &&& xy_load_effect(op, use_ix, xy, ra, m0, r1, m1, cycles->0)
        &&& xy_alu_effect(op, use_ix, xy, ra, m0, r1, m1, cycles->0)
        &&& op == 0xCB ==> xycb_effect(ra, m0, xy, r1, m1, cycles->0)
    }
}

/// A word pushed on the stack is the word a pop then reads, and the pop
/// brings SP back to where it was.
pub proof fn lemma_push_pop(r: Regs, m: Seq<u8>, v: u16)
    requires
        m.len() == 0x10000,
    ensures
        ({
            let (rp, mp) = push(r, m, v);
            &&& word_at(mp, rp.sp) == v
            &&& wrap16(rp.sp, 2) == r.sp
            &&& mp.len() == m.len()
        }),
{
    let sp2 = wrap16(r.sp, -2);
    assert(wrap16(sp2, 1) != sp2);
    super::regs::lemma_pair_bytes(v);
}

/// RET after CALL nn: when the CALL at PC pushed its return address, a RET
/// with the same stack pointer goes back to the instruction after the CALL
/// (PC + 2 past the opcode) and restores SP.
pub proof fn lemma_call_then_ret(
    r0: Regs,
    m0: Seq<u8>,
    y0: bool,
    r1: Regs,
    m1: Seq<u8>,
    y1: bool,
    c1: u32,
    r2: Regs,
    r3: Regs,
    m3: Seq<u8>,
    y3: bool,
    c3: u32,
)
    requires
        m0.len() == 0x10000,
        main_effect(0xCD, r0, m0, y0, r1, m1, y1, c1),
        r2.sp == r1.sp,
        main_effect(0xC9, r2, m1, y1, r3, m3, y3, c3),
    ensures
        r1.pc == imm16(r0, m0),
        r3.pc == wrap16(r0.pc, 2),
        r3.sp == r0.sp,
{
    lemma_push_pop(adv(r0, 2), m0, wrap16(r0.pc, 2));
}

/// Exchanging AF with its alternate twice changes nothing; so does EXX.
pub proof fn lemma_exchange_twice(r0: Regs, m0: Seq<u8>, y0: bool, r1: Regs, m1: Seq<u8>, y1: bool, c1: u32,
    r2: Regs, m2: Seq<u8>, y2: bool, c2: u32, op: u8)
    requires
        op == 0x08 || op == 0xD9,
        main_effect(op, r0, m0, y0, r1, m1, y1, c1),
        main_effect(op, r1, m1, y1, r2, m2, y2, c2),
    ensures
        r2 == r0,
        m2 == m0,
{
}

} // verus!
