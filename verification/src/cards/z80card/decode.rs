//! Instruction decoding and execution: the main opcode table and the CB,
//! ED, DD/FD and DDCB/FDCB prefixes. Each decoder returns the T-states the
//! instruction took.

use vstd::prelude::*;
use super::regs::{
    b2i, pair, Regs, bit, bit_set, make_pair, pack_flags, parity, flag_mask, FLAG_C, FLAG_H, FLAG_N, FLAG_PV,
    FLAG_S, FLAG_X, FLAG_Y, FLAG_Z,
};
use super::access::{
    wrap16, reg8, mem_ok, Ports, check_cc, fetch_byte, fetch_word, get_dd, get_qq, get_r, get_r_ix, get_r_iy,
    mem_read, mem_read16, mem_write, mem_write16, offset_addr, set_dd, set_qq, set_r, stack_pop,
    stack_push, to_disp,
};
use super::semantics::{xy_opcode, adc16_flags, daa_adjust, ed_effect, ed_misc_effect, ed_block_effect, adc16_value, daa_value, daa_flags, with_xy, xy_load_effect, xy_alu_effect, xy_effect, pow2_byte, adv, inc_r, cb_effect, cb_flags, cb_value, xycb_effect, main_effect};
use super::alu::{add8, sub8, alu_add16, alu_dec, alu_inc, alu_op, alu_sub, rl, rlc, rotate_szp, rr, rrc};

verus! {

/// The mask of bit `k` (below 8).
pub fn bit_mask(k: u8) -> (m: u8)
    requires
        k < 8,
    ensures
        flag_mask(m),
        m == pow2_byte(k),
{
    match k {
        0 => 1,
        1 => 2,
        2 => 4,
        3 => 8,
        4 => 16,
        5 => 32,
        6 => 64,
        _ => 128,
    }
}

/// Step the refresh register R.
fn bump_r(r: &mut Regs)
    ensures
        *final(r) == inc_r(*old(r)),
{
    r.r = r.r.wrapping_add(1);
}

/// CB prefix: rotates and shifts, BIT, RES and SET on a register field.
pub fn decode_cb(r: &mut Regs, mem: &mut Vec<u8>) -> (cycles: u32)
    requires
        mem_ok(old(mem)@),
    ensures
        mem_ok(final(mem)@),
        8 <= cycles <= 15,
        cb_effect(*old(r), old(mem)@, *final(r), final(mem)@, cycles),
{
    let ghost r0 = *r;
    let ghost m0 = mem@;
    bump_r(r);
    let op = fetch_byte(r, mem);
    let reg_idx = op % 8;
    let val = get_r(r, mem, reg_idx);
    assert(val == reg8(r0, m0, reg_idx));
    let ghost r1 = *r;
    let group = op / 64;
    let k = (op / 8) % 8;
    let result;
    let cycles: u32;
    if group == 0 {
        cycles = if reg_idx == 6 { 15 } else { 8 };
        result = rotate_szp(r, k, val);
    } else if group == 1 {
        let m = bit_mask(k);
        let clear = !bit_set(val, m);
        let c = r.flag(FLAG_C);
        r.f = pack_flags(k == 7 && val >= 128, clear, bit_set(val, FLAG_Y), true, bit_set(val, FLAG_X), clear, false, c);
        return if reg_idx == 6 { 12 } else { 8 };
    } else if group == 2 {
        cycles = if reg_idx == 6 { 15 } else { 8 };
        let m = bit_mask(k);
        result = if bit_set(val, m) { val - m } else { val };
    } else {
        cycles = if reg_idx == 6 { 15 } else { 8 };
        let m = bit_mask(k);
        result = if bit_set(val, m) { val } else { val + m };
    }
    assert(result == cb_value(op, val, r0.f));
    assert(*r == (Regs { f: cb_flags(op, val, r0.f), ..r1 }));
    set_r(r, mem, reg_idx, result);
    cycles
}

/// DDCB/FDCB prefix: the CB operations on (`base` + d), the result also
/// copied to a register field other than 6.
pub fn decode_xycb(r: &mut Regs, mem: &mut Vec<u8>, base: u16) -> (cycles: u32)
    requires
        mem_ok(old(mem)@),
    ensures
        mem_ok(final(mem)@),
        cycles == 20 || cycles == 23,
        xycb_effect(*old(r), old(mem)@, base, *final(r), final(mem)@, cycles),
{
    let d = fetch_byte(r, mem);
    let disp = to_disp(d);
    bump_r(r);
    let op = fetch_byte(r, mem);
    let addr = offset_addr(base, disp);
    let val = mem_read(mem, addr);
    let reg_idx = op % 8;
    let group = op / 64;
    let k = (op / 8) % 8;
    let result;
    if group == 0 {
        result = rotate_szp(r, k, val);
    } else if group == 1 {
        let m = bit_mask(k);
        let clear = !bit_set(val, m);
        let hi = (addr / 256) as u8;
        let c = r.flag(FLAG_C);
        r.f = pack_flags(k == 7 && val >= 128, clear, bit_set(hi, FLAG_Y), true, bit_set(hi, FLAG_X), clear, false, c);
        return 20;
    } else if group == 2 {
        let m = bit_mask(k);
        result = if bit_set(val, m) { val - m } else { val };
    } else {
        let m = bit_mask(k);
        result = if bit_set(val, m) { val } else { val + m };
    }
    mem_write(mem, addr, result);
    if reg_idx != 6 {
        set_r(r, mem, reg_idx, result);
    }
    23
}

/// The contract of the ED decoders, from `ra` (the second opcode fetched).
pub open spec fn ed_done(op: u8, ra: Regs, m0: Seq<u8>, y0: bool, r1: Regs, m1: Seq<u8>, y1: bool, c: u32) -> bool {
    &&& 8 <= c <= 21
    &&& if op < 0x80 {
        ed_misc_effect(op, ra, m0, y0, r1, m1, y1, c)
    } else {
        ed_block_effect(op, ra, m0, y0, r1, m1, y1, c)
    }
}

/// IN r, (C): the SoftCard's ports read 0xFF.
#[verifier::rlimit(40)]
fn ed_in_r(op: u8, r: &mut Regs, mem: &mut Vec<u8>, ports: &mut Ports) -> (cycles: u32)
    requires
        mem_ok(old(mem)@),
        op == 0x40 || op == 0x48 || op == 0x50 || op == 0x58 || op == 0x60 || op == 0x68 || op == 0x78,
    ensures
        mem_ok(final(mem)@),
        ed_done(op, *old(r), old(mem)@, old(ports).yield_to_6502, *final(r), final(mem)@, final(ports).yield_to_6502, cycles),
{
    let reg = (op / 8) % 8;
    let val = ports.inp(r.c as u16);
    let f = r.f;
    let p = parity(val);
    r.f = pack_flags(val >= 128, val == 0, bit_set(f, FLAG_Y), false, bit_set(f, FLAG_X), p, false, bit_set(f, FLAG_C));
    set_r(r, mem, reg, val);
    12
}

/// IN (C): the flags of the byte read only.
#[verifier::rlimit(40)]
fn ed_in_flags(op: u8, r: &mut Regs, mem: &mut Vec<u8>, ports: &mut Ports) -> (cycles: u32)
    requires
        mem_ok(old(mem)@),
        op == 0x70,
    ensures
        mem_ok(final(mem)@),
        ed_done(op, *old(r), old(mem)@, old(ports).yield_to_6502, *final(r), final(mem)@, final(ports).yield_to_6502, cycles),
{
    let val = ports.inp(r.c as u16);
    let f = r.f;
    let p = parity(val);
    r.f = pack_flags(val >= 128, val == 0, bit_set(f, FLAG_Y), false, bit_set(f, FLAG_X), p, false, bit_set(f, FLAG_C));
    12
}

/// OUT (C), r and OUT (C), 0.
#[verifier::rlimit(40)]
fn ed_out_r(op: u8, r: &mut Regs, mem: &mut Vec<u8>, ports: &mut Ports) -> (cycles: u32)
    requires
        mem_ok(old(mem)@),
        op == 0x41 || op == 0x49 || op == 0x51 || op == 0x59 || op == 0x61 || op == 0x69 || op == 0x79 || op == 0x71,
    ensures
        mem_ok(final(mem)@),
        ed_done(op, *old(r), old(mem)@, old(ports).yield_to_6502, *final(r), final(mem)@, final(ports).yield_to_6502, cycles),
{
    let reg = (op / 8) % 8;
    let val = if op == 0x71 { 0 } else { get_r(r, mem, reg) };
    let c = r.c;
    let port = make_pair(r.b, c);
    assert(port % 256 == c) by {
        assert(port == r.b * 256 + c);
    }
    ports.out(port, val);
    12
}

/// 16-bit `hl - v - carry` (`sub`) or `hl + v + carry`, and its flags.
#[verifier::rlimit(40)]
fn adc16(hl: u16, v: u16, cin: bool, sub: bool) -> (res: (u16, u8))
    ensures
        res.0 == adc16_value(hl, v, cin, sub),
        res.1 == adc16_flags(hl, v, cin, sub),
{
    let c: i32 = if cin { 1 } else { 0 };
    let full: i32 = if sub { hl as i32 - v as i32 - c } else { hl as i32 + v as i32 + c };
    let r16: u16 = if full < 0 {
        (full + 65536) as u16
    } else if full > 0xFFFF {
        (full - 65536) as u16
    } else {
        full as u16
    };
    assert(r16 == adc16_value(hl, v, cin, sub)) by {
        if full < 0 {
            assert((full + 65536) % 65536 == full % 65536);
        } else if full > 0xFFFF {
            assert((full - 65536) % 65536 == full % 65536);
        }
    }
    let hi = (r16 / 256) as u8;
    let half = if sub {
        ((hl % 4096) as i32) < (v % 4096) as i32 + c
    } else {
        (hl % 4096) as i32 + (v % 4096) as i32 + c > 4095
    };
    let ov = (if sub { (hl >= 0x8000) != (v >= 0x8000) } else { (hl >= 0x8000) == (v >= 0x8000) }) && (r16
        >= 0x8000) != (hl >= 0x8000);
    let f = pack_flags(r16 >= 0x8000, r16 == 0, bit_set(hi, FLAG_Y), half, bit_set(hi, FLAG_X), ov, sub, full < 0
        || full > 0xFFFF);
    (r16, f)
}

/// SBC HL, rr.
#[verifier::rlimit(40)]
fn ed_sbc_hl(op: u8, r: &mut Regs, mem: &mut Vec<u8>, ports: &mut Ports) -> (cycles: u32)
    requires
        mem_ok(old(mem)@),
        op == 0x42 || op == 0x52 || op == 0x62 || op == 0x72,
    ensures
        mem_ok(final(mem)@),
        ed_done(op, *old(r), old(mem)@, old(ports).yield_to_6502, *final(r), final(mem)@, final(ports).yield_to_6502, cycles),
{
    let dd = (op / 16) % 4;
    let val = get_dd(r, dd);
    let hl = r.hl();
    let cin = r.flag(FLAG_C);
    let (r16, f) = adc16(hl, val, cin, true);
    r.f = f;
    r.set_hl(r16);
    15
}

/// ADC HL, rr.
#[verifier::rlimit(40)]
fn ed_adc_hl(op: u8, r: &mut Regs, mem: &mut Vec<u8>, ports: &mut Ports) -> (cycles: u32)
    requires
        mem_ok(old(mem)@),
        op == 0x4A || op == 0x5A || op == 0x6A || op == 0x7A,
    ensures
        mem_ok(final(mem)@),
        ed_done(op, *old(r), old(mem)@, old(ports).yield_to_6502, *final(r), final(mem)@, final(ports).yield_to_6502, cycles),
{
    let dd = (op / 16) % 4;
    let val = get_dd(r, dd);
    let hl = r.hl();
    let cin = r.flag(FLAG_C);
    let (r16, f) = adc16(hl, val, cin, false);
    r.f = f;
    r.set_hl(r16);
    15
}

/// LD (nn), rr.
#[verifier::rlimit(40)]
fn ed_store_rr(op: u8, r: &mut Regs, mem: &mut Vec<u8>, ports: &mut Ports) -> (cycles: u32)
    requires
        mem_ok(old(mem)@),
        op == 0x43 || op == 0x53 || op == 0x63 || op == 0x73,
    ensures
        mem_ok(final(mem)@),
        ed_done(op, *old(r), old(mem)@, old(ports).yield_to_6502, *final(r), final(mem)@, final(ports).yield_to_6502, cycles),
{
    let dd = (op / 16) % 4;
    let addr = fetch_word(r, mem);
    let val = get_dd(r, dd);
    mem_write16(mem, addr, val);
    20
}

/// LD rr, (nn).
#[verifier::rlimit(40)]
fn ed_load_rr(op: u8, r: &mut Regs, mem: &mut Vec<u8>, ports: &mut Ports) -> (cycles: u32)
    requires
        mem_ok(old(mem)@),
        op == 0x4B || op == 0x5B || op == 0x6B || op == 0x7B,
    ensures
        mem_ok(final(mem)@),
        ed_done(op, *old(r), old(mem)@, old(ports).yield_to_6502, *final(r), final(mem)@, final(ports).yield_to_6502, cycles),
{
    let dd = (op / 16) % 4;
    let addr = fetch_word(r, mem);
    let val = mem_read16(mem, addr);
    set_dd(r, dd, val);
    20
}

/// NEG: A becomes 0 - A, with the flags of that subtraction.
#[verifier::rlimit(40)]
fn ed_neg(op: u8, r: &mut Regs, mem: &mut Vec<u8>, ports: &mut Ports) -> (cycles: u32)
    requires
        mem_ok(old(mem)@),
        op / 64 == 1 && op % 8 == 4,
    ensures
        mem_ok(final(mem)@),
        ed_done(op, *old(r), old(mem)@, old(ports).yield_to_6502, *final(r), final(mem)@, final(ports).yield_to_6502, cycles),
{
    let a = r.a;
    r.a = 0;
    alu_sub(r, a, false);
    8
}

/// RETN and RETI.
#[verifier::rlimit(40)]
fn ed_retn(op: u8, r: &mut Regs, mem: &mut Vec<u8>, ports: &mut Ports) -> (cycles: u32)
    requires
        mem_ok(old(mem)@),
        op / 64 == 1 && op % 8 == 5,
    ensures
        mem_ok(final(mem)@),
        ed_done(op, *old(r), old(mem)@, old(ports).yield_to_6502, *final(r), final(mem)@, final(ports).yield_to_6502, cycles),
{
    r.iff1 = r.iff2;
    r.pc = stack_pop(r, mem);
    14
}

/// IM 0, IM 1 and IM 2.
#[verifier::rlimit(40)]
fn ed_im(op: u8, r: &mut Regs, mem: &mut Vec<u8>, ports: &mut Ports) -> (cycles: u32)
    requires
        mem_ok(old(mem)@),
        op == 0x46 || op == 0x4E || op == 0x66 || op == 0x6E || op == 0x56 || op == 0x76 || op == 0x5E || op == 0x7E,
    ensures
        mem_ok(final(mem)@),
        ed_done(op, *old(r), old(mem)@, old(ports).yield_to_6502, *final(r), final(mem)@, final(ports).yield_to_6502, cycles),
{
    r.im = if op == 0x56 || op == 0x76 {
        1
    } else if op == 0x5E || op == 0x7E {
        2
    } else {
        0
    };
    8
}

/// LD I, A.
#[verifier::rlimit(40)]
fn ed_ld_i_a(op: u8, r: &mut Regs, mem: &mut Vec<u8>, ports: &mut Ports) -> (cycles: u32)
    requires
        mem_ok(old(mem)@),
        op == 0x47,
    ensures
        mem_ok(final(mem)@),
        ed_done(op, *old(r), old(mem)@, old(ports).yield_to_6502, *final(r), final(mem)@, final(ports).yield_to_6502, cycles),
{
    r.i = r.a;
    9
}

/// LD R, A.
#[verifier::rlimit(40)]
fn ed_ld_r_a(op: u8, r: &mut Regs, mem: &mut Vec<u8>, ports: &mut Ports) -> (cycles: u32)
    requires
        mem_ok(old(mem)@),
        op == 0x4F,
    ensures
        mem_ok(final(mem)@),
        ed_done(op, *old(r), old(mem)@, old(ports).yield_to_6502, *final(r), final(mem)@, final(ports).yield_to_6502, cycles),
{
    r.r = r.a;
    9
}

/// LD A, I and LD A, R: P/V from IFF2.
#[verifier::rlimit(40)]
fn ed_ld_a_ir(op: u8, r: &mut Regs, mem: &mut Vec<u8>, ports: &mut Ports) -> (cycles: u32)
    requires
        mem_ok(old(mem)@),
        op == 0x57 || op == 0x5F,
    ensures
        mem_ok(final(mem)@),
        ed_done(op, *old(r), old(mem)@, old(ports).yield_to_6502, *final(r), final(mem)@, final(ports).yield_to_6502, cycles),
{
    let v = if op == 0x57 { r.i } else { r.r };
    r.a = v;
    let f = r.f;
    r.f = pack_flags(v >= 128, v == 0, bit_set(f, FLAG_Y), false, bit_set(f, FLAG_X), r.iff2, false, bit_set(f, FLAG_C));
    9
}

/// RRD and RLD: rotate a digit between A and (HL).
#[verifier::rlimit(40)]
fn ed_rrd_rld(op: u8, r: &mut Regs, mem: &mut Vec<u8>, ports: &mut Ports) -> (cycles: u32)
    requires
        mem_ok(old(mem)@),
        op == 0x67 || op == 0x6F,
    ensures
        mem_ok(final(mem)@),
        ed_done(op, *old(r), old(mem)@, old(ports).yield_to_6502, *final(r), final(mem)@, final(ports).yield_to_6502, cycles),
{
    let hl = r.hl();
    let m = mem_read(mem, hl);
    let a = r.a;
    let new_m: u8;
    let new_a: u8;
    if op == 0x67 {
        new_m = (a % 16) * 16 + m / 16;
        new_a = (a / 16) * 16 + m % 16;
    } else {
        new_m = (m % 16) * 16 + a % 16;
        new_a = (a / 16) * 16 + m / 16;
    }
    mem_write(mem, hl, new_m);
    r.a = new_a;
    let f = r.f;
    let p = parity(new_a);
    r.f = pack_flags(new_a >= 128, new_a == 0, bit_set(f, FLAG_Y), false, bit_set(f, FLAG_X), p, false, bit_set(f, FLAG_C));
    18
}

/// LDI, LDD, LDIR and LDDR.
#[verifier::rlimit(40)]
fn ed_block_ld(op: u8, r: &mut Regs, mem: &mut Vec<u8>, ports: &mut Ports) -> (cycles: u32)
    requires
        mem_ok(old(mem)@),
        op == 0xA0 || op == 0xA8 || op == 0xB0 || op == 0xB8,
    ensures
        mem_ok(final(mem)@),
        ed_done(op, *old(r), old(mem)@, old(ports).yield_to_6502, *final(r), final(mem)@, final(ports).yield_to_6502, cycles),
{
    let up = op % 16 < 8;
    let rep = op >= 0xB0;
    let de = r.de();
    let v = mem_read(mem, de);
    let hl = r.hl();
    mem_write(mem, hl, v);
    let hl1 = if up { hl.wrapping_add(1) } else { hl.wrapping_sub(1) };
    let de1 = if up { de.wrapping_add(1) } else { de.wrapping_sub(1) };
    let bc1 = r.bc().wrapping_sub(1);
    assert(hl1 == wrap16(hl, if up { 1int } else { -1 }));
    assert(de1 == wrap16(de, if up { 1int } else { -1 }));
    assert(bc1 == wrap16(pair(r.b, r.c), -1));
    let f = r.f;
    let n = r.a.wrapping_add(v);
    assert(n == add8(r.a, v, false));
    r.f = if op == 0xA0 {
        pack_flags(bit_set(f, FLAG_S), bit_set(f, FLAG_Z), bit_set(n, 0x02), false, bit_set(n, 0x08), bc1 != 0, false, bit_set(f, FLAG_C))
    } else {
        pack_flags(bit_set(f, FLAG_S), bit_set(f, FLAG_Z), bit_set(f, FLAG_Y), false, bit_set(f, FLAG_X), !rep && bc1 != 0, false, bit_set(f, FLAG_C))
    };
    r.set_hl(hl1);
    r.set_de(de1);
    r.set_bc(bc1);
    if rep && bc1 != 0 {
        r.pc = r.pc.wrapping_sub(2);
        21
    } else {
        16
    }
}

/// CPI, CPD, CPIR and CPDR.
#[verifier::rlimit(40)]
fn ed_block_cp(op: u8, r: &mut Regs, mem: &mut Vec<u8>, ports: &mut Ports) -> (cycles: u32)
    requires
        mem_ok(old(mem)@),
        op == 0xA1 || op == 0xA9 || op == 0xB1 || op == 0xB9,
    ensures
        mem_ok(final(mem)@),
        ed_done(op, *old(r), old(mem)@, old(ports).yield_to_6502, *final(r), final(mem)@, final(ports).yield_to_6502, cycles),
{
    let up = op % 16 < 8;
    let rep = op >= 0xB0;
    let hl = r.hl();
    let v = mem_read(mem, hl);
    let a = r.a;
    let res = a.wrapping_sub(v);
    let hl1 = if up { hl.wrapping_add(1) } else { hl.wrapping_sub(1) };
    let bc1 = r.bc().wrapping_sub(1);
    assert(hl1 == wrap16(hl, if up { 1int } else { -1 }));
    assert(bc1 == wrap16(pair(r.b, r.c), -1));
    assert(res == sub8(a, v, false));
    let h = a % 16 < v % 16;
    let n = res.wrapping_sub(if h { 1 } else { 0 });
    assert(n == sub8(res, (if h { 1u8 } else { 0 }), false));
    let f = r.f;
    let y = if op == 0xA1 { bit_set(n, 0x02) } else { bit_set(f, FLAG_Y) };
    let x = if op == 0xA1 { bit_set(n, 0x08) } else { bit_set(f, FLAG_X) };
    r.f = pack_flags(res >= 128, res == 0, y, h, x, bc1 != 0, true, bit_set(f, FLAG_C));
    r.set_hl(hl1);
    r.set_bc(bc1);
    if rep && bc1 != 0 && res != 0 {
        r.pc = r.pc.wrapping_sub(2);
        21
    } else {
        16
    }
}

/// INI, IND, INIR and INDR.
#[verifier::rlimit(40)]
fn ed_block_in(op: u8, r: &mut Regs, mem: &mut Vec<u8>, ports: &mut Ports) -> (cycles: u32)
    requires
        mem_ok(old(mem)@),
        op == 0xA2 || op == 0xAA || op == 0xB2 || op == 0xBA,
    ensures
        mem_ok(final(mem)@),
        ed_done(op, *old(r), old(mem)@, old(ports).yield_to_6502, *final(r), final(mem)@, final(ports).yield_to_6502, cycles),
{
    let up = op % 16 < 8;
    let rep = op >= 0xB0;
    let port = make_pair(r.b, r.c);
    let v = ports.inp(port);
    let hl = r.hl();
    mem_write(mem, hl, v);
    let hl1 = if up { hl.wrapping_add(1) } else { hl.wrapping_sub(1) };
    let b1 = r.b.wrapping_sub(1);
    assert(hl1 == wrap16(hl, if up { 1int } else { -1 }));
    assert(b1 == sub8(r.b, 1, false));
    let f = r.f;
    r.f = pack_flags(bit_set(f, FLAG_S), b1 == 0, bit_set(f, FLAG_Y), bit_set(f, FLAG_H), bit_set(f, FLAG_X), bit_set(f, FLAG_PV), true, bit_set(f, FLAG_C));
    r.set_hl(hl1);
    r.b = b1;
    if rep && b1 != 0 {
        r.pc = r.pc.wrapping_sub(2);
        21
    } else {
        16
    }
}

/// OUTI, OUTD, OTIR and OTDR.
#[verifier::rlimit(40)]
fn ed_block_out(op: u8, r: &mut Regs, mem: &mut Vec<u8>, ports: &mut Ports) -> (cycles: u32)
    requires
        mem_ok(old(mem)@),
        op == 0xA3 || op == 0xAB || op == 0xB3 || op == 0xBB,
    ensures
        mem_ok(final(mem)@),
        ed_done(op, *old(r), old(mem)@, old(ports).yield_to_6502, *final(r), final(mem)@, final(ports).yield_to_6502, cycles),
{
    let up = op % 16 < 8;
    let rep = op >= 0xB0;
    let hl = r.hl();
    let v = mem_read(mem, hl);
    let b1 = r.b.wrapping_sub(1);
    let c = r.c;
    let port = make_pair(b1, c);
    assert(port % 256 == c) by {
        assert(port == b1 * 256 + c);
    }
    ports.out(port, v);
    let hl1 = if up { hl.wrapping_add(1) } else { hl.wrapping_sub(1) };
    assert(hl1 == wrap16(hl, if up { 1int } else { -1 }));
    assert(b1 == sub8(r.b, 1, false));
    let f = r.f;
    r.f = pack_flags(bit_set(f, FLAG_S), b1 == 0, bit_set(f, FLAG_Y), bit_set(f, FLAG_H), bit_set(f, FLAG_X), bit_set(f, FLAG_PV), true, bit_set(f, FLAG_C));
    r.set_hl(hl1);
    r.b = b1;
    if rep && b1 != 0 {
        r.pc = r.pc.wrapping_sub(2);
        21
    } else {
        16
    }
}

/// ED prefix: port I/O through C, 16-bit ADC/SBC, loads of register pairs
/// and of I and R, NEG, RETN/RETI, interrupt modes, RRD/RLD and the block
/// instructions. Undefined opcodes take 8 T-states and do nothing else.
pub fn decode_ed(r: &mut Regs, mem: &mut Vec<u8>, ports: &mut Ports) -> (cycles: u32)
    requires
        mem_ok(old(mem)@),
    ensures
        mem_ok(final(mem)@),
        8 <= cycles <= 21,
        ed_effect(*old(r), old(mem)@, old(ports).yield_to_6502, *final(r), final(mem)@, final(ports).yield_to_6502, cycles),
{
    bump_r(r);
    let op = fetch_byte(r, mem);
    if op == 0x40 || op == 0x48 || op == 0x50 || op == 0x58 || op == 0x60 || op == 0x68 || op == 0x78 {
        ed_in_r(op, r, mem, ports)
    } else if op == 0x70 {
        ed_in_flags(op, r, mem, ports)
    } else if op == 0x41 || op == 0x49 || op == 0x51 || op == 0x59 || op == 0x61 || op == 0x69 || op == 0x79 || op == 0x71 {
        ed_out_r(op, r, mem, ports)
    } else if op == 0x42 || op == 0x52 || op == 0x62 || op == 0x72 {
        ed_sbc_hl(op, r, mem, ports)
    } else if op == 0x4A || op == 0x5A || op == 0x6A || op == 0x7A {
        ed_adc_hl(op, r, mem, ports)
    } else if op == 0x43 || op == 0x53 || op == 0x63 || op == 0x73 {
        ed_store_rr(op, r, mem, ports)
    } else if op == 0x4B || op == 0x5B || op == 0x6B || op == 0x7B {
        ed_load_rr(op, r, mem, ports)
    } else if op / 64 == 1 && op % 8 == 4 {
        ed_neg(op, r, mem, ports)
    } else if op / 64 == 1 && op % 8 == 5 {
        ed_retn(op, r, mem, ports)
    } else if op == 0x46 || op == 0x4E || op == 0x66 || op == 0x6E || op == 0x56 || op == 0x76 || op == 0x5E || op == 0x7E {
        ed_im(op, r, mem, ports)
    } else if op == 0x47 {
        ed_ld_i_a(op, r, mem, ports)
    } else if op == 0x4F {
        ed_ld_r_a(op, r, mem, ports)
    } else if op == 0x57 || op == 0x5F {
        ed_ld_a_ir(op, r, mem, ports)
    } else if op == 0x67 || op == 0x6F {
        ed_rrd_rld(op, r, mem, ports)
    } else if op == 0xA0 || op == 0xA8 || op == 0xB0 || op == 0xB8 {
        ed_block_ld(op, r, mem, ports)
    } else if op == 0xA1 || op == 0xA9 || op == 0xB1 || op == 0xB9 {
        ed_block_cp(op, r, mem, ports)
    } else if op == 0xA2 || op == 0xAA || op == 0xB2 || op == 0xBA {
        ed_block_in(op, r, mem, ports)
    } else if op == 0xA3 || op == 0xAB || op == 0xB3 || op == 0xBB {
        ed_block_out(op, r, mem, ports)
    } else {
        8
    }
}

/// Store `v` in IX (`use_ix`) or IY.
fn set_xy(r: &mut Regs, use_ix: bool, v: u16)
    ensures
        *final(r) == with_xy(*old(r), use_ix, v),
{
    if use_ix {
        r.ix = v;
    } else {
        r.iy = v;
    }
}

/// What a DD/FD-prefixed opcode came to: an instruction of the index
/// register that took `Cycles`, or an opcode the prefix does not change,
/// to be executed as an unprefixed one.
pub enum Prefixed {
    Cycles(u32),
    Unprefixed(u8),
}

/// The contract of the DD/FD decoders, from `ra` (the opcode fetched).
pub open spec fn xy_done(op: u8, use_ix: bool, xy: u16, ra: Regs, m0: Seq<u8>, r1: Regs, m1: Seq<u8>, c: u32) -> bool {
    &&& 4 <= c <= 23
    &&& xy_load_effect(op, use_ix, xy, ra, m0, r1, m1, c)
    &&& xy_alu_effect(op, use_ix, xy, ra, m0, r1, m1, c)
    &&& op == 0xCB ==> xycb_effect(ra, m0, xy, r1, m1, c)
}

/// ADD IX, rr.
#[verifier::rlimit(40)]
fn xy_add(op: u8, use_ix: bool, xy: u16, r: &mut Regs, mem: &mut Vec<u8>) -> (cycles: u32)
    requires
        mem_ok(old(mem)@),
        op == 0x09 || op == 0x19 || op == 0x29 || op == 0x39,
        xy == (if use_ix { old(r).ix } else { old(r).iy }),
    ensures
        mem_ok(final(mem)@),
        xy_done(op, use_ix, xy, *old(r), old(mem)@, *final(r), final(mem)@, cycles),
{
    let dd = (op / 16) % 4;
    let val = if dd == 2 { xy } else { get_dd(r, dd) };
    let result = alu_add16(r, xy, val);
    set_xy(r, use_ix, result);
    15
}

/// LD IX, nn.
#[verifier::rlimit(40)]
fn xy_ld_nn(op: u8, use_ix: bool, xy: u16, r: &mut Regs, mem: &mut Vec<u8>) -> (cycles: u32)
    requires
        mem_ok(old(mem)@),
        op == 0x21,
        xy == (if use_ix { old(r).ix } else { old(r).iy }),
    ensures
        mem_ok(final(mem)@),
        xy_done(op, use_ix, xy, *old(r), old(mem)@, *final(r), final(mem)@, cycles),
{
    let nn = fetch_word(r, mem);
    set_xy(r, use_ix, nn);
    14
}

/// LD (nn), IX.
#[verifier::rlimit(40)]
fn xy_store_nn(op: u8, use_ix: bool, xy: u16, r: &mut Regs, mem: &mut Vec<u8>) -> (cycles: u32)
    requires
        mem_ok(old(mem)@),
        op == 0x22,
        xy == (if use_ix { old(r).ix } else { old(r).iy }),
    ensures
        mem_ok(final(mem)@),
        xy_done(op, use_ix, xy, *old(r), old(mem)@, *final(r), final(mem)@, cycles),
{
    let addr = fetch_word(r, mem);
    mem_write16(mem, addr, xy);
    20
}

/// INC IX and DEC IX.
#[verifier::rlimit(40)]
fn xy_inc_dec(op: u8, use_ix: bool, xy: u16, r: &mut Regs, mem: &mut Vec<u8>) -> (cycles: u32)
    requires
        mem_ok(old(mem)@),
        op == 0x23 || op == 0x2B,
        xy == (if use_ix { old(r).ix } else { old(r).iy }),
    ensures
        mem_ok(final(mem)@),
        xy_done(op, use_ix, xy, *old(r), old(mem)@, *final(r), final(mem)@, cycles),
{
    let v = if op == 0x23 { xy.wrapping_add(1) } else { xy.wrapping_sub(1) };
    set_xy(r, use_ix, v);
    10
}

/// INC and DEC of the high half.
#[verifier::rlimit(40)]
fn xy_inc_dec_high(op: u8, use_ix: bool, xy: u16, r: &mut Regs, mem: &mut Vec<u8>) -> (cycles: u32)
    requires
        mem_ok(old(mem)@),
        op == 0x24 || op == 0x25,
        xy == (if use_ix { old(r).ix } else { old(r).iy }),
    ensures
        mem_ok(final(mem)@),
        xy_done(op, use_ix, xy, *old(r), old(mem)@, *final(r), final(mem)@, cycles),
{
    let h = (xy / 256) as u8;
    let v = if op == 0x24 { alu_inc(r, h) } else { alu_dec(r, h) };
    set_xy(r, use_ix, xy % 256 + v as u16 * 256);
    8
}

/// LD of the high half with an immediate.
#[verifier::rlimit(40)]
fn xy_ld_high_n(op: u8, use_ix: bool, xy: u16, r: &mut Regs, mem: &mut Vec<u8>) -> (cycles: u32)
    requires
        mem_ok(old(mem)@),
        op == 0x26,
        xy == (if use_ix { old(r).ix } else { old(r).iy }),
    ensures
        mem_ok(final(mem)@),
        xy_done(op, use_ix, xy, *old(r), old(mem)@, *final(r), final(mem)@, cycles),
{
    let n = fetch_byte(r, mem);
    set_xy(r, use_ix, xy % 256 + n as u16 * 256);
    11
}

/// LD IX, (nn).
#[verifier::rlimit(40)]
fn xy_load_nn(op: u8, use_ix: bool, xy: u16, r: &mut Regs, mem: &mut Vec<u8>) -> (cycles: u32)
    requires
        mem_ok(old(mem)@),
        op == 0x2A,
        xy == (if use_ix { old(r).ix } else { old(r).iy }),
    ensures
        mem_ok(final(mem)@),
        xy_done(op, use_ix, xy, *old(r), old(mem)@, *final(r), final(mem)@, cycles),
{
    let addr = fetch_word(r, mem);
    let v = mem_read16(mem, addr);
    set_xy(r, use_ix, v);
    20
}

/// INC and DEC of the low half.
#[verifier::rlimit(40)]
fn xy_inc_dec_low(op: u8, use_ix: bool, xy: u16, r: &mut Regs, mem: &mut Vec<u8>) -> (cycles: u32)
    requires
        mem_ok(old(mem)@),
        op == 0x2C || op == 0x2D,
        xy == (if use_ix { old(r).ix } else { old(r).iy }),
    ensures
        mem_ok(final(mem)@),
        xy_done(op, use_ix, xy, *old(r), old(mem)@, *final(r), final(mem)@, cycles),
{
    let l = (xy % 256) as u8;
    let v = if op == 0x2C { alu_inc(r, l) } else { alu_dec(r, l) };
    set_xy(r, use_ix, (xy / 256) * 256 + v as u16);
    8
}

/// LD of the low half with an immediate.
#[verifier::rlimit(40)]
fn xy_ld_low_n(op: u8, use_ix: bool, xy: u16, r: &mut Regs, mem: &mut Vec<u8>) -> (cycles: u32)
    requires
        mem_ok(old(mem)@),
        op == 0x2E,
        xy == (if use_ix { old(r).ix } else { old(r).iy }),
    ensures
        mem_ok(final(mem)@),
        xy_done(op, use_ix, xy, *old(r), old(mem)@, *final(r), final(mem)@, cycles),
{
    let n = fetch_byte(r, mem);
    set_xy(r, use_ix, (xy / 256) * 256 + n as u16);
    11
}

/// INC (IX+d) and DEC (IX+d).
#[verifier::rlimit(40)]
fn xy_inc_dec_mem(op: u8, use_ix: bool, xy: u16, r: &mut Regs, mem: &mut Vec<u8>) -> (cycles: u32)
    requires
        mem_ok(old(mem)@),
        op == 0x34 || op == 0x35,
        xy == (if use_ix { old(r).ix } else { old(r).iy }),
    ensures
        mem_ok(final(mem)@),
        xy_done(op, use_ix, xy, *old(r), old(mem)@, *final(r), final(mem)@, cycles),
{
    let d = to_disp(fetch_byte(r, mem));
    let addr = offset_addr(xy, d);
    let m = mem_read(mem, addr);
    let v = if op == 0x34 { alu_inc(r, m) } else { alu_dec(r, m) };
    mem_write(mem, addr, v);
    23
}

/// LD (IX+d), n.
#[verifier::rlimit(40)]
fn xy_store_n(op: u8, use_ix: bool, xy: u16, r: &mut Regs, mem: &mut Vec<u8>) -> (cycles: u32)
    requires
        mem_ok(old(mem)@),
        op == 0x36,
        xy == (if use_ix { old(r).ix } else { old(r).iy }),
    ensures
        mem_ok(final(mem)@),
        xy_done(op, use_ix, xy, *old(r), old(mem)@, *final(r), final(mem)@, cycles),
{
    let d = to_disp(fetch_byte(r, mem));
    let n = fetch_byte(r, mem);
    let addr = offset_addr(xy, d);
    mem_write(mem, addr, n);
    19
}

/// LD r, (IX+d); the form with field 6 only takes its displacement.
#[verifier::rlimit(40)]
fn xy_load_r(op: u8, use_ix: bool, xy: u16, r: &mut Regs, mem: &mut Vec<u8>) -> (cycles: u32)
    requires
        mem_ok(old(mem)@),
        op / 64 == 1 && op % 8 == 6,
        xy == (if use_ix { old(r).ix } else { old(r).iy }),
    ensures
        mem_ok(final(mem)@),
        xy_done(op, use_ix, xy, *old(r), old(mem)@, *final(r), final(mem)@, cycles),
{
    let d = to_disp(fetch_byte(r, mem));
    let addr = offset_addr(xy, d);
    let reg = (op / 8) % 8;
    if reg == 6 {
        return 4;
    }
    let val = mem_read(mem, addr);
    set_r(r, mem, reg, val);
    19
}

/// LD (IX+d), r.
#[verifier::rlimit(40)]
fn xy_store_r(op: u8, use_ix: bool, xy: u16, r: &mut Regs, mem: &mut Vec<u8>) -> (cycles: u32)
    requires
        mem_ok(old(mem)@),
        op / 8 == 14 && op != 0x76,
        xy == (if use_ix { old(r).ix } else { old(r).iy }),
    ensures
        mem_ok(final(mem)@),
        xy_done(op, use_ix, xy, *old(r), old(mem)@, *final(r), final(mem)@, cycles),
{
    let d = to_disp(fetch_byte(r, mem));
    let addr = offset_addr(xy, d);
    let reg = op % 8;
    let val = get_r(r, mem, reg);
    mem_write(mem, addr, val);
    19
}

/// LD of a half of the index register from a register field.
#[verifier::rlimit(40)]
fn xy_ld_half(op: u8, use_ix: bool, xy: u16, r: &mut Regs, mem: &mut Vec<u8>) -> (cycles: u32)
    requires
        mem_ok(old(mem)@),
        (op / 8 == 12 || op / 8 == 13) && op % 8 != 6,
        xy == (if use_ix { old(r).ix } else { old(r).iy }),
    ensures
        mem_ok(final(mem)@),
        xy_done(op, use_ix, xy, *old(r), old(mem)@, *final(r), final(mem)@, cycles),
{
    let src = op % 8;
    let val = if use_ix { get_r_ix(r, mem, src, 0) } else { get_r_iy(r, mem, src, 0) };
    if op / 8 == 12 {
        set_xy(r, use_ix, xy % 256 + val as u16 * 256);
    } else {
        set_xy(r, use_ix, (xy / 256) * 256 + val as u16);
    }
    8
}

/// The ALU operations on the halves and on (IX+d).
#[verifier::rlimit(40)]
fn xy_alu(op: u8, use_ix: bool, xy: u16, r: &mut Regs, mem: &mut Vec<u8>) -> (cycles: u32)
    requires
        mem_ok(old(mem)@),
        0x80 <= op < 0xC0,
        xy == (if use_ix { old(r).ix } else { old(r).iy }),
    ensures
        mem_ok(final(mem)@),
        xy_done(op, use_ix, xy, *old(r), old(mem)@, *final(r), final(mem)@, cycles),
{
    let src = op % 8;
    let disp: i8 = if src == 6 { to_disp(fetch_byte(r, mem)) } else { 0 };
    let val = if use_ix { get_r_ix(r, mem, src, disp) } else { get_r_iy(r, mem, src, disp) };
    alu_op(r, (op / 8) % 8, val);
    if src == 6 { 19 } else { 8 }
}

/// PUSH IX.
#[verifier::rlimit(40)]
fn xy_push(op: u8, use_ix: bool, xy: u16, r: &mut Regs, mem: &mut Vec<u8>) -> (cycles: u32)
    requires
        mem_ok(old(mem)@),
        op == 0xE5,
        xy == (if use_ix { old(r).ix } else { old(r).iy }),
    ensures
        mem_ok(final(mem)@),
        xy_done(op, use_ix, xy, *old(r), old(mem)@, *final(r), final(mem)@, cycles),
{
    stack_push(r, mem, xy);
    15
}

/// POP IX.
#[verifier::rlimit(40)]
fn xy_pop(op: u8, use_ix: bool, xy: u16, r: &mut Regs, mem: &mut Vec<u8>) -> (cycles: u32)
    requires
        mem_ok(old(mem)@),
        op == 0xE1,
        xy == (if use_ix { old(r).ix } else { old(r).iy }),
    ensures
        mem_ok(final(mem)@),
        xy_done(op, use_ix, xy, *old(r), old(mem)@, *final(r), final(mem)@, cycles),
{
    let v = stack_pop(r, mem);
    set_xy(r, use_ix, v);
    14
}

/// EX (SP), IX.
#[verifier::rlimit(40)]
fn xy_ex_sp(op: u8, use_ix: bool, xy: u16, r: &mut Regs, mem: &mut Vec<u8>) -> (cycles: u32)
    requires
        mem_ok(old(mem)@),
        op == 0xE3,
        xy == (if use_ix { old(r).ix } else { old(r).iy }),
    ensures
        mem_ok(final(mem)@),
        xy_done(op, use_ix, xy, *old(r), old(mem)@, *final(r), final(mem)@, cycles),
{
    let old = mem_read16(mem, r.sp);
    mem_write16(mem, r.sp, xy);
    set_xy(r, use_ix, old);
    23
}

/// JP (IX).
#[verifier::rlimit(40)]
fn xy_jp(op: u8, use_ix: bool, xy: u16, r: &mut Regs, mem: &mut Vec<u8>) -> (cycles: u32)
    requires
        mem_ok(old(mem)@),
        op == 0xE9,
        xy == (if use_ix { old(r).ix } else { old(r).iy }),
    ensures
        mem_ok(final(mem)@),
        xy_done(op, use_ix, xy, *old(r), old(mem)@, *final(r), final(mem)@, cycles),
{
    r.pc = xy;
    8
}

/// LD SP, IX.
#[verifier::rlimit(40)]
fn xy_ld_sp(op: u8, use_ix: bool, xy: u16, r: &mut Regs, mem: &mut Vec<u8>) -> (cycles: u32)
    requires
        mem_ok(old(mem)@),
        op == 0xF9,
        xy == (if use_ix { old(r).ix } else { old(r).iy }),
    ensures
        mem_ok(final(mem)@),
        xy_done(op, use_ix, xy, *old(r), old(mem)@, *final(r), final(mem)@, cycles),
{
    r.sp = xy;
    10
}

/// The DDCB/FDCB operations.
#[verifier::rlimit(40)]
fn xy_cb(op: u8, use_ix: bool, xy: u16, r: &mut Regs, mem: &mut Vec<u8>) -> (cycles: u32)
    requires
        mem_ok(old(mem)@),
        op == 0xCB,
        xy == (if use_ix { old(r).ix } else { old(r).iy }),
    ensures
        mem_ok(final(mem)@),
        xy_done(op, use_ix, xy, *old(r), old(mem)@, *final(r), final(mem)@, cycles),
{
    decode_xycb(r, mem, xy)
}

/// DD/FD prefix: the HL instructions on IX (`use_ix`) or IY, their halves
/// and (IX+d)/(IY+d).
pub fn decode_dd_fd(r: &mut Regs, mem: &mut Vec<u8>, use_ix: bool) -> (p: Prefixed)
    requires
        mem_ok(old(mem)@),
    ensures
        mem_ok(final(mem)@),
        p matches Prefixed::Cycles(c) ==> 4 <= c <= 23,
        p matches Prefixed::Unprefixed(o) ==> o == old(mem)@[old(r).pc as int],
        xy_effect(
            use_ix,
            *old(r),
            old(mem)@,
            *final(r),
            final(mem)@,
            match p {
                Prefixed::Cycles(c) => Some(c),
                Prefixed::Unprefixed(_) => None,
            },
        ),
{
    bump_r(r);
    let op = fetch_byte(r, mem);
    let xy = if use_ix { r.ix } else { r.iy };
    let c = if op == 0x09 || op == 0x19 || op == 0x29 || op == 0x39 {
        xy_add(op, use_ix, xy, r, mem)
    } else if op == 0x21 {
        xy_ld_nn(op, use_ix, xy, r, mem)
    } else if op == 0x22 {
        xy_store_nn(op, use_ix, xy, r, mem)
    } else if op == 0x23 || op == 0x2B {
        xy_inc_dec(op, use_ix, xy, r, mem)
    } else if op == 0x24 || op == 0x25 {
        xy_inc_dec_high(op, use_ix, xy, r, mem)
    } else if op == 0x26 {
        xy_ld_high_n(op, use_ix, xy, r, mem)
    } else if op == 0x2A {
        xy_load_nn(op, use_ix, xy, r, mem)
    } else if op == 0x2C || op == 0x2D {
        xy_inc_dec_low(op, use_ix, xy, r, mem)
    } else if op == 0x2E {
        xy_ld_low_n(op, use_ix, xy, r, mem)
    } else if op == 0x34 || op == 0x35 {
        xy_inc_dec_mem(op, use_ix, xy, r, mem)
    } else if op == 0x36 {
        xy_store_n(op, use_ix, xy, r, mem)
    } else if op / 64 == 1 && op % 8 == 6 {
        xy_load_r(op, use_ix, xy, r, mem)
    } else if op / 8 == 14 && op != 0x76 {
        xy_store_r(op, use_ix, xy, r, mem)
    } else if (op / 8 == 12 || op / 8 == 13) && op % 8 != 6 {
        xy_ld_half(op, use_ix, xy, r, mem)
    } else if 0x80 <= op && op < 0xC0 {
        xy_alu(op, use_ix, xy, r, mem)
    } else if op == 0xE5 {
        xy_push(op, use_ix, xy, r, mem)
    } else if op == 0xE1 {
        xy_pop(op, use_ix, xy, r, mem)
    } else if op == 0xE3 {
        xy_ex_sp(op, use_ix, xy, r, mem)
    } else if op == 0xE9 {
        xy_jp(op, use_ix, xy, r, mem)
    } else if op == 0xF9 {
        xy_ld_sp(op, use_ix, xy, r, mem)
    } else if op == 0xCB {
        xy_cb(op, use_ix, xy, r, mem)
    } else {
        return Prefixed::Unprefixed(op);
    };
    Prefixed::Cycles(c)
}

/// Exchange A and F with their alternates.
fn ex_af(r: &mut Regs)
    ensures
        *final(r) == (Regs { a: old(r).a2, f: old(r).f2, a2: old(r).a, f2: old(r).f, ..*old(r) }),
{
    let a = r.a;
    r.a = r.a2;
    r.a2 = a;
    let f = r.f;
    r.f = r.f2;
    r.f2 = f;
}

/// Exchange BC, DE and HL with their alternates.
fn exx(r: &mut Regs)
    ensures
        *final(r) == (Regs {
            b: old(r).b2,
            c: old(r).c2,
            d: old(r).d2,
            e: old(r).e2,
            h: old(r).h2,
            l: old(r).l2,
            b2: old(r).b,
            c2: old(r).c,
            d2: old(r).d,
            e2: old(r).e,
            h2: old(r).h,
            l2: old(r).l,
            ..*old(r)
        }),
{
    let b = r.b;
    r.b = r.b2;
    r.b2 = b;
    let c = r.c;
    r.c = r.c2;
    r.c2 = c;
    let d = r.d;
    r.d = r.d2;
    r.d2 = d;
    let e = r.e;
    r.e = r.e2;
    r.e2 = e;
    let h = r.h;
    r.h = r.h2;
    r.h2 = h;
    let l = r.l;
    r.l = r.l2;
    r.l2 = l;
}

/// The correction DAA applies to `a` under flags `f`.
fn daa_correction(a: u8, f: u8) -> (adj: u8)
    ensures
        adj == daa_adjust(a, f),
{
    let n = bit_set(f, FLAG_N);
    let low = bit_set(f, FLAG_H) || (!n && a % 16 > 9);
    let high = bit_set(f, FLAG_C) || (!n && a > 0x99);
    let mut adj: u8 = 0;
    if low {
        adj = adj + 0x06;
    }
    if high {
        adj = adj + 0x60;
    }
    adj
}

/// DAA: adjust A to packed BCD after an addition (N clear) or a
/// subtraction (N set).
#[verifier::rlimit(60)]
fn daa(r: &mut Regs)
    ensures
        *final(r) == (Regs { a: daa_value(old(r).a, old(r).f), f: daa_flags(old(r).a, old(r).f), ..*old(r) }),
{
    let a0 = r.a;
    let f0 = r.f;
    let n = r.flag(FLAG_N);
    let adj = daa_correction(a0, f0);
    let a = if n { a0.wrapping_sub(adj) } else { a0.wrapping_add(adj) };
    assert(a == daa_value(a0, f0)) by {
        if n {
            assert(a == sub8(a0, adj, false));
        } else {
            assert(a == add8(a0, adj, false));
        }
    }
    let new_c = r.flag(FLAG_C) || (!n && a0 > 0x99);
    let p = parity(a);
    r.a = a;
    r.f = pack_flags(a >= 128, a == 0, bit_set(a, FLAG_Y), false, bit_set(a, FLAG_X), p, n, new_c);
}

/// The contract shared by the unprefixed decoders.
pub open spec fn decoded(op: u8, r0: Regs, m0: Seq<u8>, p0: Ports, r1: Regs, m1: Seq<u8>, p1: Ports, cycles: u32) -> bool {
    main_effect(op, r0, m0, p0.yield_to_6502, r1, m1, p1.yield_to_6502, cycles)
}

/// NOP.
#[verifier::rlimit(60)]
fn op_nop(op: u8, r: &mut Regs, mem: &mut Vec<u8>, ports: &mut Ports) -> (cycles: u32)
    requires
        mem_ok(old(mem)@),
        op == 0x00,
    ensures
        mem_ok(final(mem)@),
        decoded(op, *old(r), old(mem)@, *old(ports), *final(r), final(mem)@, *final(ports), cycles),
{
    4
}

/// LD dd, nn.
#[verifier::rlimit(60)]
fn op_ld_dd_nn(op: u8, r: &mut Regs, mem: &mut Vec<u8>, ports: &mut Ports) -> (cycles: u32)
    requires
        mem_ok(old(mem)@),
        op < 0x40 && op % 16 == 1,
    ensures
        mem_ok(final(mem)@),
        decoded(op, *old(r), old(mem)@, *old(ports), *final(r), final(mem)@, *final(ports), cycles),
{
    let dd = (op / 16) % 4;
    let nn = fetch_word(r, mem);
    set_dd(r, dd, nn);
    10
}

/// LD (BC), A.
#[verifier::rlimit(60)]
fn op_ld_bc_a(op: u8, r: &mut Regs, mem: &mut Vec<u8>, ports: &mut Ports) -> (cycles: u32)
    requires
        mem_ok(old(mem)@),
        op == 0x02,
    ensures
        mem_ok(final(mem)@),
        decoded(op, *old(r), old(mem)@, *old(ports), *final(r), final(mem)@, *final(ports), cycles),
{
    let a = r.a;
    mem_write(mem, r.bc(), a);
    7
}

/// LD (DE), A.
#[verifier::rlimit(60)]
fn op_ld_de_a(op: u8, r: &mut Regs, mem: &mut Vec<u8>, ports: &mut Ports) -> (cycles: u32)
    requires
        mem_ok(old(mem)@),
        op == 0x12,
    ensures
        mem_ok(final(mem)@),
        decoded(op, *old(r), old(mem)@, *old(ports), *final(r), final(mem)@, *final(ports), cycles),
{
    let a = r.a;
    mem_write(mem, r.de(), a);
    7
}

/// LD A, (BC).
#[verifier::rlimit(60)]
fn op_ld_a_bc(op: u8, r: &mut Regs, mem: &mut Vec<u8>, ports: &mut Ports) -> (cycles: u32)
    requires
        mem_ok(old(mem)@),
        op == 0x0A,
    ensures
        mem_ok(final(mem)@),
        decoded(op, *old(r), old(mem)@, *old(ports), *final(r), final(mem)@, *final(ports), cycles),
{
    r.a = mem_read(mem, r.bc());
    7
}

/// LD A, (DE).
#[verifier::rlimit(60)]
fn op_ld_a_de(op: u8, r: &mut Regs, mem: &mut Vec<u8>, ports: &mut Ports) -> (cycles: u32)
    requires
        mem_ok(old(mem)@),
        op == 0x1A,
    ensures
        mem_ok(final(mem)@),
        decoded(op, *old(r), old(mem)@, *old(ports), *final(r), final(mem)@, *final(ports), cycles),
{
    r.a = mem_read(mem, r.de());
    7
}

/// INC dd.
#[verifier::rlimit(60)]
fn op_inc_dd(op: u8, r: &mut Regs, mem: &mut Vec<u8>, ports: &mut Ports) -> (cycles: u32)
    requires
        mem_ok(old(mem)@),
        op < 0x40 && op % 16 == 3,
    ensures
        mem_ok(final(mem)@),
        decoded(op, *old(r), old(mem)@, *old(ports), *final(r), final(mem)@, *final(ports), cycles),
{
    let dd = (op / 16) % 4;
    let v0 = get_dd(r, dd);
    let v = v0.wrapping_add(1);
    assert(v == wrap16(v0, 1));
    set_dd(r, dd, v);
    6
}

/// DEC dd.
#[verifier::rlimit(60)]
fn op_dec_dd(op: u8, r: &mut Regs, mem: &mut Vec<u8>, ports: &mut Ports) -> (cycles: u32)
    requires
        mem_ok(old(mem)@),
        op < 0x40 && op % 16 == 11,
    ensures
        mem_ok(final(mem)@),
        decoded(op, *old(r), old(mem)@, *old(ports), *final(r), final(mem)@, *final(ports), cycles),
{
    let dd = (op / 16) % 4;
    let v0 = get_dd(r, dd);
    let v = v0.wrapping_sub(1);
    assert(v == wrap16(v0, -1));
    set_dd(r, dd, v);
    6
}

/// ADD HL, dd.
#[verifier::rlimit(60)]
fn op_add_hl_dd(op: u8, r: &mut Regs, mem: &mut Vec<u8>, ports: &mut Ports) -> (cycles: u32)
    requires
        mem_ok(old(mem)@),
        op < 0x40 && op % 16 == 9,
    ensures
        mem_ok(final(mem)@),
        decoded(op, *old(r), old(mem)@, *old(ports), *final(r), final(mem)@, *final(ports), cycles),
{
    let dd = (op / 16) % 4;
    let val = get_dd(r, dd);
    let hl = r.hl();
    let result = alu_add16(r, hl, val);
    r.set_hl(result);
    11
}

/// INC r.
#[verifier::rlimit(60)]
fn op_inc_r(op: u8, r: &mut Regs, mem: &mut Vec<u8>, ports: &mut Ports) -> (cycles: u32)
    requires
        mem_ok(old(mem)@),
        op < 0x40 && op % 8 == 4,
    ensures
        mem_ok(final(mem)@),
        decoded(op, *old(r), old(mem)@, *old(ports), *final(r), final(mem)@, *final(ports), cycles),
{
    let reg = (op / 8) % 8;
    let v = get_r(r, mem, reg);
    let result = alu_inc(r, v);
    set_r(r, mem, reg, result);
    if reg == 6 { 11 } else { 4 }
}

/// DEC r.
#[verifier::rlimit(60)]
fn op_dec_r(op: u8, r: &mut Regs, mem: &mut Vec<u8>, ports: &mut Ports) -> (cycles: u32)
    requires
        mem_ok(old(mem)@),
        op < 0x40 && op % 8 == 5,
    ensures
        mem_ok(final(mem)@),
        decoded(op, *old(r), old(mem)@, *old(ports), *final(r), final(mem)@, *final(ports), cycles),
{
    let reg = (op / 8) % 8;
    let v = get_r(r, mem, reg);
    let result = alu_dec(r, v);
    set_r(r, mem, reg, result);
    if reg == 6 { 11 } else { 4 }
}

/// LD r, n.
#[verifier::rlimit(60)]
fn op_ld_r_n(op: u8, r: &mut Regs, mem: &mut Vec<u8>, ports: &mut Ports) -> (cycles: u32)
    requires
        mem_ok(old(mem)@),
        op < 0x40 && op % 8 == 6,
    ensures
        mem_ok(final(mem)@),
        decoded(op, *old(r), old(mem)@, *old(ports), *final(r), final(mem)@, *final(ports), cycles),
{
    let reg = (op / 8) % 8;
    let n = fetch_byte(r, mem);
    set_r(r, mem, reg, n);
    if reg == 6 { 10 } else { 7 }
}

/// RLCA, RRCA, RLA and RRA.
#[verifier::rlimit(60)]
fn op_rotate_a(op: u8, r: &mut Regs, mem: &mut Vec<u8>, ports: &mut Ports) -> (cycles: u32)
    requires
        mem_ok(old(mem)@),
        op < 0x20 && op % 8 == 7,
    ensures
        mem_ok(final(mem)@),
        decoded(op, *old(r), old(mem)@, *old(ports), *final(r), final(mem)@, *final(ports), cycles),
{
    let a = r.a;
    r.a = if op == 0x07 {
        rlc(r, a)
    } else if op == 0x0F {
        rrc(r, a)
    } else if op == 0x17 {
        rl(r, a)
    } else {
        rr(r, a)
    };
    4
}

/// EX AF, AF'.
#[verifier::rlimit(60)]
fn op_ex_af(op: u8, r: &mut Regs, mem: &mut Vec<u8>, ports: &mut Ports) -> (cycles: u32)
    requires
        mem_ok(old(mem)@),
        op == 0x08,
    ensures
        mem_ok(final(mem)@),
        decoded(op, *old(r), old(mem)@, *old(ports), *final(r), final(mem)@, *final(ports), cycles),
{
    ex_af(r);
    4
}

/// DJNZ e.
#[verifier::rlimit(60)]
fn op_djnz(op: u8, r: &mut Regs, mem: &mut Vec<u8>, ports: &mut Ports) -> (cycles: u32)
    requires
        mem_ok(old(mem)@),
        op == 0x10,
    ensures
        mem_ok(final(mem)@),
        decoded(op, *old(r), old(mem)@, *old(ports), *final(r), final(mem)@, *final(ports), cycles),
{
    let e = to_disp(fetch_byte(r, mem));
    let b = r.b.wrapping_sub(1);
    assert(b == sub8(r.b, 1, false));
    r.b = b;
    if r.b != 0 {
        r.pc = offset_addr(r.pc, e);
        13
    } else {
        8
    }
}

/// JR e.
#[verifier::rlimit(60)]
fn op_jr(op: u8, r: &mut Regs, mem: &mut Vec<u8>, ports: &mut Ports) -> (cycles: u32)
    requires
        mem_ok(old(mem)@),
        op == 0x18,
    ensures
        mem_ok(final(mem)@),
        decoded(op, *old(r), old(mem)@, *old(ports), *final(r), final(mem)@, *final(ports), cycles),
{
    let e = to_disp(fetch_byte(r, mem));
    r.pc = offset_addr(r.pc, e);
    12
}

/// JR NZ/Z/NC/C, e.
#[verifier::rlimit(60)]
fn op_jr_cc(op: u8, r: &mut Regs, mem: &mut Vec<u8>, ports: &mut Ports) -> (cycles: u32)
    requires
        mem_ok(old(mem)@),
        op == 0x20 || op == 0x28 || op == 0x30 || op == 0x38,
    ensures
        mem_ok(final(mem)@),
        decoded(op, *old(r), old(mem)@, *old(ports), *final(r), final(mem)@, *final(ports), cycles),
{
    let e = to_disp(fetch_byte(r, mem));
    let cc = (op / 8) % 4;
    if check_cc(r, cc) {
        r.pc = offset_addr(r.pc, e);
        12
    } else {
        7
    }
}

/// LD (nn), HL.
#[verifier::rlimit(60)]
fn op_ld_nn_hl(op: u8, r: &mut Regs, mem: &mut Vec<u8>, ports: &mut Ports) -> (cycles: u32)
    requires
        mem_ok(old(mem)@),
        op == 0x22,
    ensures
        mem_ok(final(mem)@),
        decoded(op, *old(r), old(mem)@, *old(ports), *final(r), final(mem)@, *final(ports), cycles),
{
    let addr = fetch_word(r, mem);
    let hl = r.hl();
    mem_write16(mem, addr, hl);
    16
}

/// DAA.
#[verifier::rlimit(60)]
fn op_daa(op: u8, r: &mut Regs, mem: &mut Vec<u8>, ports: &mut Ports) -> (cycles: u32)
    requires
        mem_ok(old(mem)@),
        op == 0x27,
    ensures
        mem_ok(final(mem)@),
        decoded(op, *old(r), old(mem)@, *old(ports), *final(r), final(mem)@, *final(ports), cycles),
{
    daa(r);
    4
}

/// LD HL, (nn).
#[verifier::rlimit(60)]
fn op_ld_hl_nn(op: u8, r: &mut Regs, mem: &mut Vec<u8>, ports: &mut Ports) -> (cycles: u32)
    requires
        mem_ok(old(mem)@),
        op == 0x2A,
    ensures
        mem_ok(final(mem)@),
        decoded(op, *old(r), old(mem)@, *old(ports), *final(r), final(mem)@, *final(ports), cycles),
{
    let addr = fetch_word(r, mem);
    let v = mem_read16(mem, addr);
    r.set_hl(v);
    16
}

/// CPL.
#[verifier::rlimit(60)]
fn op_cpl(op: u8, r: &mut Regs, mem: &mut Vec<u8>, ports: &mut Ports) -> (cycles: u32)
    requires
        mem_ok(old(mem)@),
        op == 0x2F,
    ensures
        mem_ok(final(mem)@),
        decoded(op, *old(r), old(mem)@, *old(ports), *final(r), final(mem)@, *final(ports), cycles),
{
    let a = 255 - r.a;
    r.a = a;
    r.f = pack_flags(
        r.flag(FLAG_S),
        r.flag(FLAG_Z),
        bit_set(a, FLAG_Y),
        true,
        bit_set(a, FLAG_X),
        r.flag(FLAG_PV),
        true,
        r.flag(FLAG_C),
    );
    4
}

/// LD (nn), A.
#[verifier::rlimit(60)]
fn op_ld_nn_a(op: u8, r: &mut Regs, mem: &mut Vec<u8>, ports: &mut Ports) -> (cycles: u32)
    requires
        mem_ok(old(mem)@),
        op == 0x32,
    ensures
        mem_ok(final(mem)@),
        decoded(op, *old(r), old(mem)@, *old(ports), *final(r), final(mem)@, *final(ports), cycles),
{
    let addr = fetch_word(r, mem);
    let a = r.a;
    mem_write(mem, addr, a);
    13
}

/// SCF and CCF.
#[verifier::rlimit(60)]
fn op_scf_ccf(op: u8, r: &mut Regs, mem: &mut Vec<u8>, ports: &mut Ports) -> (cycles: u32)
    requires
        mem_ok(old(mem)@),
        op == 0x37 || op == 0x3F,
    ensures
        mem_ok(final(mem)@),
        decoded(op, *old(r), old(mem)@, *old(ports), *final(r), final(mem)@, *final(ports), cycles),
{
    let a = r.a;
    let old_c = r.flag(FLAG_C);
    r.f = pack_flags(
        r.flag(FLAG_S),
        r.flag(FLAG_Z),
        bit_set(a, FLAG_Y),
        op == 0x3F && old_c,
        bit_set(a, FLAG_X),
        r.flag(FLAG_PV),
        false,
        op == 0x37 || !old_c,
    );
    4
}

/// LD A, (nn).
#[verifier::rlimit(60)]
fn op_ld_a_nn(op: u8, r: &mut Regs, mem: &mut Vec<u8>, ports: &mut Ports) -> (cycles: u32)
    requires
        mem_ok(old(mem)@),
        op == 0x3A,
    ensures
        mem_ok(final(mem)@),
        decoded(op, *old(r), old(mem)@, *old(ports), *final(r), final(mem)@, *final(ports), cycles),
{
    let addr = fetch_word(r, mem);
    r.a = mem_read(mem, addr);
    13
}

/// HALT.
#[verifier::rlimit(60)]
fn op_halt(op: u8, r: &mut Regs, mem: &mut Vec<u8>, ports: &mut Ports) -> (cycles: u32)
    requires
        mem_ok(old(mem)@),
        op == 0x76,
    ensures
        mem_ok(final(mem)@),
        decoded(op, *old(r), old(mem)@, *old(ports), *final(r), final(mem)@, *final(ports), cycles),
{
    r.halted = true;
    4
}

/// LD r, r'.
#[verifier::rlimit(60)]
fn op_ld_r_r(op: u8, r: &mut Regs, mem: &mut Vec<u8>, ports: &mut Ports) -> (cycles: u32)
    requires
        mem_ok(old(mem)@),
        0x40 <= op < 0x80 && op != 0x76,
    ensures
        mem_ok(final(mem)@),
        decoded(op, *old(r), old(mem)@, *old(ports), *final(r), final(mem)@, *final(ports), cycles),
{
    let dst = (op / 8) % 8;
    let src = op % 8;
    let val = get_r(r, mem, src);
    set_r(r, mem, dst, val);
    if dst == 6 || src == 6 { 7 } else { 4 }
}

/// ADD/ADC/SUB/SBC/AND/XOR/OR/CP r.
#[verifier::rlimit(60)]
fn op_alu_r(op: u8, r: &mut Regs, mem: &mut Vec<u8>, ports: &mut Ports) -> (cycles: u32)
    requires
        mem_ok(old(mem)@),
        0x80 <= op < 0xC0,
    ensures
        mem_ok(final(mem)@),
        decoded(op, *old(r), old(mem)@, *old(ports), *final(r), final(mem)@, *final(ports), cycles),
{
    let src = op % 8;
    let val = get_r(r, mem, src);
    alu_op(r, (op / 8) % 8, val);
    if src == 6 { 7 } else { 4 }
}

/// RET cc.
#[verifier::rlimit(60)]
fn op_ret_cc(op: u8, r: &mut Regs, mem: &mut Vec<u8>, ports: &mut Ports) -> (cycles: u32)
    requires
        mem_ok(old(mem)@),
        op >= 0xC0 && op % 8 == 0,
    ensures
        mem_ok(final(mem)@),
        decoded(op, *old(r), old(mem)@, *old(ports), *final(r), final(mem)@, *final(ports), cycles),
{
    let cc = (op / 8) % 8;
    if check_cc(r, cc) {
        r.pc = stack_pop(r, mem);
        11
    } else {
        5
    }
}

/// POP qq.
#[verifier::rlimit(60)]
fn op_pop(op: u8, r: &mut Regs, mem: &mut Vec<u8>, ports: &mut Ports) -> (cycles: u32)
    requires
        mem_ok(old(mem)@),
        op >= 0xC0 && op % 16 == 1,
    ensures
        mem_ok(final(mem)@),
        decoded(op, *old(r), old(mem)@, *old(ports), *final(r), final(mem)@, *final(ports), cycles),
{
    let qq = (op / 16) % 4;
    let v = stack_pop(r, mem);
    set_qq(r, qq, v);
    10
}

/// JP cc, nn.
#[verifier::rlimit(60)]
fn op_jp_cc(op: u8, r: &mut Regs, mem: &mut Vec<u8>, ports: &mut Ports) -> (cycles: u32)
    requires
        mem_ok(old(mem)@),
        op >= 0xC0 && op % 8 == 2,
    ensures
        mem_ok(final(mem)@),
        decoded(op, *old(r), old(mem)@, *old(ports), *final(r), final(mem)@, *final(ports), cycles),
{
    let cc = (op / 8) % 8;
    let nn = fetch_word(r, mem);
    if check_cc(r, cc) {
        r.pc = nn;
    }
    10
}

/// JP nn.
#[verifier::rlimit(60)]
fn op_jp(op: u8, r: &mut Regs, mem: &mut Vec<u8>, ports: &mut Ports) -> (cycles: u32)
    requires
        mem_ok(old(mem)@),
        op == 0xC3,
    ensures
        mem_ok(final(mem)@),
        decoded(op, *old(r), old(mem)@, *old(ports), *final(r), final(mem)@, *final(ports), cycles),
{
    let nn = fetch_word(r, mem);
    r.pc = nn;
    10
}

/// CALL cc, nn and CALL nn.
#[verifier::rlimit(60)]
fn op_call_cc(op: u8, r: &mut Regs, mem: &mut Vec<u8>, ports: &mut Ports) -> (cycles: u32)
    requires
        mem_ok(old(mem)@),
        op == 0xCD || (op >= 0xC0 && op % 8 == 4),
    ensures
        mem_ok(final(mem)@),
        decoded(op, *old(r), old(mem)@, *old(ports), *final(r), final(mem)@, *final(ports), cycles),
{
    let cc = (op / 8) % 8;
    let nn = fetch_word(r, mem);
    if op == 0xCD || check_cc(r, cc) {
        let pc = r.pc;
        stack_push(r, mem, pc);
        r.pc = nn;
        17
    } else {
        10
    }
}

/// PUSH qq.
#[verifier::rlimit(60)]
fn op_push(op: u8, r: &mut Regs, mem: &mut Vec<u8>, ports: &mut Ports) -> (cycles: u32)
    requires
        mem_ok(old(mem)@),
        op >= 0xC0 && op % 16 == 5,
    ensures
        mem_ok(final(mem)@),
        decoded(op, *old(r), old(mem)@, *old(ports), *final(r), final(mem)@, *final(ports), cycles),
{
    let qq = (op / 16) % 4;
    let v = get_qq(r, qq);
    stack_push(r, mem, v);
    11
}

/// ADD/ADC/SUB/SBC/AND/XOR/OR/CP n.
#[verifier::rlimit(60)]
fn op_alu_n(op: u8, r: &mut Regs, mem: &mut Vec<u8>, ports: &mut Ports) -> (cycles: u32)
    requires
        mem_ok(old(mem)@),
        op >= 0xC0 && op % 8 == 6,
    ensures
        mem_ok(final(mem)@),
        decoded(op, *old(r), old(mem)@, *old(ports), *final(r), final(mem)@, *final(ports), cycles),
{
    let n = fetch_byte(r, mem);
    alu_op(r, (op / 8) % 8, n);
    7
}

/// RST p.
#[verifier::rlimit(60)]
fn op_rst(op: u8, r: &mut Regs, mem: &mut Vec<u8>, ports: &mut Ports) -> (cycles: u32)
    requires
        mem_ok(old(mem)@),
        op >= 0xC0 && op % 8 == 7,
    ensures
        mem_ok(final(mem)@),
        decoded(op, *old(r), old(mem)@, *old(ports), *final(r), final(mem)@, *final(ports), cycles),
{
    let p = (op % 64 / 8 * 8) as u16;
    let pc = r.pc;
    stack_push(r, mem, pc);
    r.pc = p;
    11
}

/// RET.
#[verifier::rlimit(60)]
fn op_ret(op: u8, r: &mut Regs, mem: &mut Vec<u8>, ports: &mut Ports) -> (cycles: u32)
    requires
        mem_ok(old(mem)@),
        op == 0xC9,
    ensures
        mem_ok(final(mem)@),
        decoded(op, *old(r), old(mem)@, *old(ports), *final(r), final(mem)@, *final(ports), cycles),
{
    r.pc = stack_pop(r, mem);
    10
}

/// OUT (n), A.
#[verifier::rlimit(60)]
fn op_out_n_a(op: u8, r: &mut Regs, mem: &mut Vec<u8>, ports: &mut Ports) -> (cycles: u32)
    requires
        mem_ok(old(mem)@),
        op == 0xD3,
    ensures
        mem_ok(final(mem)@),
        decoded(op, *old(r), old(mem)@, *old(ports), *final(r), final(mem)@, *final(ports), cycles),
{
    let n = fetch_byte(r, mem);
    let a = r.a;
    let port = make_pair(a, n);
    assert(port % 256 == n) by {
        assert(port == a * 256 + n);
    }
    ports.out(port, a);
    11
}

/// IN A, (n).
#[verifier::rlimit(60)]
fn op_in_a_n(op: u8, r: &mut Regs, mem: &mut Vec<u8>, ports: &mut Ports) -> (cycles: u32)
    requires
        mem_ok(old(mem)@),
        op == 0xDB,
    ensures
        mem_ok(final(mem)@),
        decoded(op, *old(r), old(mem)@, *old(ports), *final(r), final(mem)@, *final(ports), cycles),
{
    let n = fetch_byte(r, mem);
    let port = make_pair(r.a, n);
    r.a = ports.inp(port);
    11
}

/// EX (SP), HL.
#[verifier::rlimit(60)]
fn op_ex_sp_hl(op: u8, r: &mut Regs, mem: &mut Vec<u8>, ports: &mut Ports) -> (cycles: u32)
    requires
        mem_ok(old(mem)@),
        op == 0xE3,
    ensures
        mem_ok(final(mem)@),
        decoded(op, *old(r), old(mem)@, *old(ports), *final(r), final(mem)@, *final(ports), cycles),
{
    let old = mem_read16(mem, r.sp);
    let hl = r.hl();
    mem_write16(mem, r.sp, hl);
    r.set_hl(old);
    19
}

/// JP (HL).
#[verifier::rlimit(60)]
fn op_jp_hl(op: u8, r: &mut Regs, mem: &mut Vec<u8>, ports: &mut Ports) -> (cycles: u32)
    requires
        mem_ok(old(mem)@),
        op == 0xE9,
    ensures
        mem_ok(final(mem)@),
        decoded(op, *old(r), old(mem)@, *old(ports), *final(r), final(mem)@, *final(ports), cycles),
{
    r.pc = r.hl();
    4
}

/// EX DE, HL.
#[verifier::rlimit(60)]
fn op_ex_de_hl(op: u8, r: &mut Regs, mem: &mut Vec<u8>, ports: &mut Ports) -> (cycles: u32)
    requires
        mem_ok(old(mem)@),
        op == 0xEB,
    ensures
        mem_ok(final(mem)@),
        decoded(op, *old(r), old(mem)@, *old(ports), *final(r), final(mem)@, *final(ports), cycles),
{
    let de = r.de();
    let hl = r.hl();
    r.set_de(hl);
    r.set_hl(de);
    4
}

/// EXX.
#[verifier::rlimit(60)]
fn op_exx(op: u8, r: &mut Regs, mem: &mut Vec<u8>, ports: &mut Ports) -> (cycles: u32)
    requires
        mem_ok(old(mem)@),
        op == 0xD9,
    ensures
        mem_ok(final(mem)@),
        decoded(op, *old(r), old(mem)@, *old(ports), *final(r), final(mem)@, *final(ports), cycles),
{
    exx(r);
    4
}

/// DI and EI.
#[verifier::rlimit(60)]
fn op_di_ei(op: u8, r: &mut Regs, mem: &mut Vec<u8>, ports: &mut Ports) -> (cycles: u32)
    requires
        mem_ok(old(mem)@),
        op == 0xF3 || op == 0xFB,
    ensures
        mem_ok(final(mem)@),
        decoded(op, *old(r), old(mem)@, *old(ports), *final(r), final(mem)@, *final(ports), cycles),
{
    r.iff1 = op == 0xFB;
    r.iff2 = op == 0xFB;
    4
}

/// LD SP, HL.
#[verifier::rlimit(60)]
fn op_ld_sp_hl(op: u8, r: &mut Regs, mem: &mut Vec<u8>, ports: &mut Ports) -> (cycles: u32)
    requires
        mem_ok(old(mem)@),
        op == 0xF9,
    ensures
        mem_ok(final(mem)@),
        decoded(op, *old(r), old(mem)@, *old(ports), *final(r), final(mem)@, *final(ports), cycles),
{
    r.sp = r.hl();
    6
}

/// The CB prefix.
#[verifier::rlimit(60)]
fn op_cb(op: u8, r: &mut Regs, mem: &mut Vec<u8>, ports: &mut Ports) -> (cycles: u32)
    requires
        mem_ok(old(mem)@),
        op == 0xCB,
    ensures
        mem_ok(final(mem)@),
        decoded(op, *old(r), old(mem)@, *old(ports), *final(r), final(mem)@, *final(ports), cycles),
{
    decode_cb(r, mem)
}

/// The ED prefix.
#[verifier::rlimit(60)]
fn op_ed(op: u8, r: &mut Regs, mem: &mut Vec<u8>, ports: &mut Ports) -> (cycles: u32)
    requires
        mem_ok(old(mem)@),
        op == 0xED,
    ensures
        mem_ok(final(mem)@),
        decoded(op, *old(r), old(mem)@, *old(ports), *final(r), final(mem)@, *final(ports), cycles),
{
    decode_ed(r, mem, ports)
}

/// The unprefixed opcodes (the prefixes CB and ED included; DD and FD are
/// handled by the caller).
pub fn decode_main(op: u8, r: &mut Regs, mem: &mut Vec<u8>, ports: &mut Ports) -> (cycles: u32)
    requires
        mem_ok(old(mem)@),
        op != 0xDD && op != 0xFD,
    ensures
        mem_ok(final(mem)@),
        4 <= cycles <= 21,
        decoded(op, *old(r), old(mem)@, *old(ports), *final(r), final(mem)@, *final(ports), cycles),
{
    if op == 0x00 {
        op_nop(op, r, mem, ports)
    } else if op < 0x40 && op % 16 == 1 {
        op_ld_dd_nn(op, r, mem, ports)
    } else if op == 0x02 {
        op_ld_bc_a(op, r, mem, ports)
    } else if op == 0x12 {
        op_ld_de_a(op, r, mem, ports)
    } else if op == 0x0A {
        op_ld_a_bc(op, r, mem, ports)
    } else if op == 0x1A {
        op_ld_a_de(op, r, mem, ports)
    } else if op < 0x40 && op % 16 == 3 {
        op_inc_dd(op, r, mem, ports)
    } else if op < 0x40 && op % 16 == 11 {
        op_dec_dd(op, r, mem, ports)
    } else if op < 0x40 && op % 16 == 9 {
        op_add_hl_dd(op, r, mem, ports)
    } else if op < 0x40 && op % 8 == 4 {
        op_inc_r(op, r, mem, ports)
    } else if op < 0x40 && op % 8 == 5 {
        op_dec_r(op, r, mem, ports)
    } else if op < 0x40 && op % 8 == 6 {
        op_ld_r_n(op, r, mem, ports)
    } else if op < 0x20 && op % 8 == 7 {
        op_rotate_a(op, r, mem, ports)
    } else if op == 0x08 {
        op_ex_af(op, r, mem, ports)
    } else if op == 0x10 {
        op_djnz(op, r, mem, ports)
    } else if op == 0x18 {
        op_jr(op, r, mem, ports)
    } else if op == 0x20 || op == 0x28 || op == 0x30 || op == 0x38 {
        op_jr_cc(op, r, mem, ports)
    } else if op == 0x22 {
        op_ld_nn_hl(op, r, mem, ports)
    } else if op == 0x27 {
        op_daa(op, r, mem, ports)
    } else if op == 0x2A {
        op_ld_hl_nn(op, r, mem, ports)
    } else if op == 0x2F {
        op_cpl(op, r, mem, ports)
    } else if op == 0x32 {
        op_ld_nn_a(op, r, mem, ports)
    } else if op == 0x37 || op == 0x3F {
        op_scf_ccf(op, r, mem, ports)
    } else if op == 0x3A {
        op_ld_a_nn(op, r, mem, ports)
    } else if op == 0x76 {
        op_halt(op, r, mem, ports)
    } else if 0x40 <= op && op < 0x80 && op != 0x76 {
        op_ld_r_r(op, r, mem, ports)
    } else if 0x80 <= op && op < 0xC0 {
        op_alu_r(op, r, mem, ports)
    } else if op >= 0xC0 && op % 8 == 0 {
        op_ret_cc(op, r, mem, ports)
    } else if op >= 0xC0 && op % 16 == 1 {
        op_pop(op, r, mem, ports)
    } else if op >= 0xC0 && op % 8 == 2 {
        op_jp_cc(op, r, mem, ports)
    } else if op == 0xC3 {
        op_jp(op, r, mem, ports)
    } else if op == 0xCD || (op >= 0xC0 && op % 8 == 4) {
        op_call_cc(op, r, mem, ports)
    } else if op >= 0xC0 && op % 16 == 5 {
        op_push(op, r, mem, ports)
    } else if op >= 0xC0 && op % 8 == 6 {
        op_alu_n(op, r, mem, ports)
    } else if op >= 0xC0 && op % 8 == 7 {
        op_rst(op, r, mem, ports)
    } else if op == 0xC9 {
        op_ret(op, r, mem, ports)
    } else if op == 0xD3 {
        op_out_n_a(op, r, mem, ports)
    } else if op == 0xDB {
        op_in_a_n(op, r, mem, ports)
    } else if op == 0xE3 {
        op_ex_sp_hl(op, r, mem, ports)
    } else if op == 0xE9 {
        op_jp_hl(op, r, mem, ports)
    } else if op == 0xEB {
        op_ex_de_hl(op, r, mem, ports)
    } else if op == 0xD9 {
        op_exx(op, r, mem, ports)
    } else if op == 0xF3 || op == 0xFB {
        op_di_ei(op, r, mem, ports)
    } else if op == 0xF9 {
        op_ld_sp_hl(op, r, mem, ports)
    } else if op == 0xCB {
        op_cb(op, r, mem, ports)
    } else if op == 0xED {
        op_ed(op, r, mem, ports)
    } else {
        4
    }
}

/// The longest run of DD/FD prefixes decoded in one step; a longer run (the
/// whole memory filled with prefixes) ends the step as a 4-state no-op.
pub const PREFIX_RUN_MAX: u32 = 0x10000;

/// A DD or FD prefix byte.
pub open spec fn index_prefix(op: u8) -> bool {
    op == 0xDD || op == 0xFD
}

/// The register file after `n` more opcode fetches from `r`, each counting
/// in R and moving PC on by one.
pub open spec fn after_fetches(r: Regs, n: nat) -> Regs
    decreases n,
{
    if n == 0 {
        r
    } else {
        adv(inc_r(after_fetches(r, (n - 1) as nat)), 1)
    }
}

/// The `i`-th byte fetched after the first prefix, from `s0`, the state just
/// past it.
pub open spec fn fetched(m: Seq<u8>, s0: Regs, i: nat) -> u8 {
    m[after_fetches(s0, i).pc as int]
}

/// The bytes fetched before the `j`-th are all DD/FD prefixes.
pub open spec fn prefix_run(m: Seq<u8>, s0: Regs, j: nat) -> bool {
    forall|i: nat| i < j ==> index_prefix(#[trigger] fetched(m, s0, i))
}

/// The prefix in force for the `j`-th fetched byte: the one just before it.
pub open spec fn last_prefix(first: u8, m: Seq<u8>, s0: Regs, j: nat) -> u8 {
    if j == 0 {
        first
    } else {
        fetched(m, s0, (j - 1) as nat)
    }
}

/// The step of a run of prefixes that first prefix `first` starts and whose
/// `j`-th fetched byte is the first that is no prefix: an instruction of IX
/// or IY under the last prefix, or else the unprefixed instruction.
pub open spec fn prefixed_step(
    first: u8,
    s0: Regs,
    m0: Seq<u8>,
    p0: Ports,
    r1: Regs,
    m1: Seq<u8>,
    p1: Ports,
    cycles: u32,
    j: nat,
) -> bool {
    let op = fetched(m0, s0, j);
    if xy_opcode(op) {
        &&& xy_effect(
            last_prefix(first, m0, s0, j) == 0xDD,
            after_fetches(s0, j),
            m0,
            r1,
            m1,
            Some(cycles),
        )
        &&& p1.yield_to_6502 == p0.yield_to_6502
    } else {
        decoded(op, after_fetches(s0, j + 1), m0, p0, r1, m1, p1, cycles)
    }
}

/// One step of the Z80 from `r0`/`m0`/`p0` to `r1`/`m1`/`p1`, taking `cycles`
/// T-states: a halted CPU idles, an unprefixed opcode runs as decoded, and a
/// run of DD/FD prefixes shorter than the memory runs the instruction after
/// it under the last prefix.
pub open spec fn z80_step(
    r0: Regs,
    m0: Seq<u8>,
    p0: Ports,
    r1: Regs,
    m1: Seq<u8>,
    p1: Ports,
    cycles: u32,
) -> bool {
    let first = m0[r0.pc as int];
    let s0 = adv(inc_r(r0), 1);
    &&& r0.halted ==> cycles == 4 && r1 == r0 && m1 == m0 && p1 == p0
    &&& !r0.halted && !index_prefix(first) ==> decoded(first, s0, m0, p0, r1, m1, p1, cycles)
    &&& !r0.halted && index_prefix(first) ==> forall|j: nat|
        j < 0x10000 && prefix_run(m0, s0, j) && !index_prefix(#[trigger] fetched(m0, s0, j))
            ==> prefixed_step(first, s0, m0, p0, r1, m1, p1, cycles, j)
}

/// Execute one instruction and return its T-states; a halted CPU idles for
/// 4 T-states.
pub fn execute_one(r: &mut Regs, mem: &mut Vec<u8>, ports: &mut Ports) -> (cycles: u32)
    requires
        mem_ok(old(mem)@),
    ensures
        mem_ok(final(mem)@),
        4 <= cycles <= 23,
        z80_step(*old(r), old(mem)@, *old(ports), *final(r), final(mem)@, *final(ports), cycles),
{
    if r.halted {
        return 4;
    }
    bump_r(r);
    let first = fetch_byte(r, mem);
    if first != 0xDD && first != 0xFD {
        return decode_main(first, r, mem, ports);
    }
    let ghost s0 = *r;
    let ghost m0 = mem@;
    let mut op = first;
    let mut run: u32 = 0;
    while op == 0xDD || op == 0xFD
        invariant
            mem_ok(mem@),
            run <= PREFIX_RUN_MAX,
            !old(r).halted,
            first == old(mem)@[old(r).pc as int],
            index_prefix(first),
            s0 == adv(inc_r(*old(r)), 1),
            m0 == old(mem)@,
            mem@ == m0,
            *ports == *old(ports),
            *r == after_fetches(s0, run as nat),
            op == last_prefix(first, m0, s0, run as nat),
            run > 0 ==> prefix_run(m0, s0, (run - 1) as nat),
            run > 0 ==> !xy_opcode(fetched(m0, s0, (run - 1) as nat)),
        decreases PREFIX_RUN_MAX - run,
    {
        let ghost j = run as nat;
        assert(prefix_run(m0, s0, j)) by {
            if j > 0 {
                assert forall|i: nat| i < j implies index_prefix(#[trigger] fetched(m0, s0, i)) by {
                    if i + 1 < j {
                        assert(index_prefix(fetched(m0, s0, i)));
                    }
                }
            }
        }
        if run == PREFIX_RUN_MAX {
            proof {
                assert forall|k: nat|
                    k < 0x10000 && prefix_run(m0, s0, k) && !index_prefix(
                        #[trigger] fetched(m0, s0, k),
                    ) implies prefixed_step(first, s0, m0, *old(ports), *r, mem@, *ports, 4, k) by {
                    assert(index_prefix(fetched(m0, s0, k)));
                }
            }
            return 4;
        }
        run = run + 1;
        match decode_dd_fd(r, mem, op == 0xDD) {
            Prefixed::Cycles(c) => {
                proof {
                    assert(xy_opcode(fetched(m0, s0, j)));
                    assert(!index_prefix(fetched(m0, s0, j)));
                    assert forall|k: nat|
                        k < 0x10000 && prefix_run(m0, s0, k) && !index_prefix(
                            #[trigger] fetched(m0, s0, k),
                        ) implies prefixed_step(first, s0, m0, *old(ports), *r, mem@, *ports, c, k) by {
                        if k < j {
                            assert(index_prefix(fetched(m0, s0, k)));
                        } else if k > j {
                            assert(index_prefix(fetched(m0, s0, j)));
                        }
                    }
                }
                return c;
            },
            Prefixed::Unprefixed(next) => {
                op = next;
            },
        }
    }
    let ghost j = (run - 1) as nat;
    let cycles = decode_main(op, r, mem, ports);
    proof {
        assert forall|k: nat|
            k < 0x10000 && prefix_run(m0, s0, k) && !index_prefix(#[trigger] fetched(m0, s0, k))
            implies prefixed_step(first, s0, m0, *old(ports), *r, mem@, *ports, cycles, k) by {
            if k < j {
                assert(index_prefix(fetched(m0, s0, k)));
            } else if k > j {
                assert(index_prefix(fetched(m0, s0, j)));
            }
        }
    }
    cycles
}

} // verus!
