//! Memory, stack, register-field and port access of the Z80.
//!
//! The Z80 memory is a 64 KiB vector; addresses wrap at 64 KiB.

use vstd::prelude::*;
use super::regs::{Regs, bit, pair, hi_byte, lo_byte, make_pair, FLAG_C, FLAG_PV, FLAG_S, FLAG_Z};

verus! {

/// The Z80 address space holds exactly 64 KiB.
pub open spec fn mem_ok(m: Seq<u8>) -> bool {
    m.len() == 0x10000
}

/// `a + k`, wrapped to 16 bits.
pub open spec fn wrap16(a: u16, k: int) -> u16 {
    ((a + k) % 0x10000) as u16
}

/// The signed value of a displacement byte.
pub open spec fn sext(b: u8) -> int {
    if b < 128 { b as int } else { b - 256 }
}

/// The displacement byte `b` as a signed byte.
pub fn to_disp(b: u8) -> (d: i8)
    ensures
        d == sext(b),
{
    if b < 128 {
        b as i8
    } else {
        (b as i16 - 256) as i8
    }
}

/// `base` plus the signed displacement `d`, wrapped to 16 bits.
pub fn offset_addr(base: u16, d: i8) -> (r: u16)
    ensures
        r == wrap16(base, d as int),
{
    if d >= 0 {
        base.wrapping_add(d as u16)
    } else {
        base.wrapping_sub((-(d as i16)) as u16)
    }
}

/// Read the byte at PC and step PC.
pub fn fetch_byte(r: &mut Regs, mem: &Vec<u8>) -> (v: u8)
    requires
        mem_ok(mem@),
    ensures
        v == mem@[old(r).pc as int],
        *final(r) == (Regs { pc: wrap16(old(r).pc, 1), ..*old(r) }),
{
    let v = mem[r.pc as usize];
    r.pc = r.pc.wrapping_add(1);
    v
}

/// Read the little-endian word at PC and step PC past it.
pub fn fetch_word(r: &mut Regs, mem: &Vec<u8>) -> (v: u16)
    requires
        mem_ok(mem@),
    ensures
        v == pair(mem@[wrap16(old(r).pc, 1) as int], mem@[old(r).pc as int]),
        *final(r) == (Regs { pc: wrap16(old(r).pc, 2), ..*old(r) }),
{
    let lo = fetch_byte(r, mem);
    let hi = fetch_byte(r, mem);
    make_pair(hi, lo)
}

pub fn mem_read(mem: &Vec<u8>, addr: u16) -> (v: u8)
    requires
        mem_ok(mem@),
    ensures
        v == mem@[addr as int],
{
    mem[addr as usize]
}

pub fn mem_write(mem: &mut Vec<u8>, addr: u16, val: u8)
    requires
        mem_ok(old(mem)@),
    ensures
        final(mem)@ == old(mem)@.update(addr as int, val),
{
    mem.set(addr as usize, val);
}

/// The little-endian word at `addr`.
pub fn mem_read16(mem: &Vec<u8>, addr: u16) -> (v: u16)
    requires
        mem_ok(mem@),
    ensures
        v == pair(mem@[wrap16(addr, 1) as int], mem@[addr as int]),
{
    let lo = mem[addr as usize];
    let hi = mem[addr.wrapping_add(1) as usize];
    make_pair(hi, lo)
}

/// Store `val` little-endian at `addr`.
pub fn mem_write16(mem: &mut Vec<u8>, addr: u16, val: u16)
    requires
        mem_ok(old(mem)@),
    ensures
        final(mem)@ == old(mem)@.update(addr as int, lo_byte(val)).update(
            wrap16(addr, 1) as int,
            hi_byte(val),
        ),
{
    mem.set(addr as usize, (val % 256) as u8);
    mem.set(addr.wrapping_add(1) as usize, (val / 256) as u8);
}

/// Push `val`: SP drops by two and the word is stored there.
pub fn stack_push(r: &mut Regs, mem: &mut Vec<u8>, val: u16)
    requires
        mem_ok(old(mem)@),
    ensures
        *final(r) == (Regs { sp: wrap16(old(r).sp, -2), ..*old(r) }),
        final(mem)@ == old(mem)@.update(wrap16(old(r).sp, -2) as int, lo_byte(val)).update(
            wrap16(wrap16(old(r).sp, -2), 1) as int,
            hi_byte(val),
        ),
{
    r.sp = r.sp.wrapping_sub(2);
    mem_write16(mem, r.sp, val);
}

/// Pop a word: the word at SP, and SP rises by two.
pub fn stack_pop(r: &mut Regs, mem: &Vec<u8>) -> (v: u16)
    requires
        mem_ok(mem@),
    ensures
        v == pair(mem@[wrap16(old(r).sp, 1) as int], mem@[old(r).sp as int]),
        *final(r) == (Regs { sp: wrap16(old(r).sp, 2), ..*old(r) }),
{
    let v = mem_read16(mem, r.sp);
    r.sp = r.sp.wrapping_add(2);
    v
}

/// The 8-bit operand of register field `idx`: B, C, D, E, H, L, (HL), A.
pub open spec fn reg8(r: Regs, mem: Seq<u8>, idx: u8) -> u8 {
    if idx == 0 {
        r.b
    } else if idx == 1 {
        r.c
    } else if idx == 2 {
        r.d
    } else if idx == 3 {
        r.e
    } else if idx == 4 {
        r.h
    } else if idx == 5 {
        r.l
    } else if idx == 6 {
        mem[pair(r.h, r.l) as int]
    } else {
        r.a
    }
}

/// The 8-bit operand of register field `idx` with H and L replaced by the
/// halves of the index register `xy` and (HL) by (`xy` + `disp`).
pub open spec fn reg8_xy(r: Regs, mem: Seq<u8>, idx: u8, xy: u16, disp: int) -> u8 {
    if idx == 4 {
        hi_byte(xy)
    } else if idx == 5 {
        lo_byte(xy)
    } else if idx == 6 {
        mem[wrap16(xy, disp) as int]
    } else {
        reg8(r, mem, idx)
    }
}

/// The register file with register field `idx` (not 6) set to `v`.
pub open spec fn with_reg8(r: Regs, idx: u8, v: u8) -> Regs {
    if idx == 0 {
        Regs { b: v, ..r }
    } else if idx == 1 {
        Regs { c: v, ..r }
    } else if idx == 2 {
        Regs { d: v, ..r }
    } else if idx == 3 {
        Regs { e: v, ..r }
    } else if idx == 4 {
        Regs { h: v, ..r }
    } else if idx == 5 {
        Regs { l: v, ..r }
    } else if idx == 7 {
        Regs { a: v, ..r }
    } else {
        r
    }
}

pub fn get_r(r: &Regs, mem: &Vec<u8>, idx: u8) -> (v: u8)
    requires
        mem_ok(mem@),
        idx < 8,
    ensures
        v == reg8(*r, mem@, idx),
{
    match idx {
        0 => r.b,
        1 => r.c,
        2 => r.d,
        3 => r.e,
        4 => r.h,
        5 => r.l,
        6 => mem_read(mem, r.hl()),
        _ => r.a,
    }
}

pub fn get_r_ix(r: &Regs, mem: &Vec<u8>, idx: u8, disp: i8) -> (v: u8)
    requires
        mem_ok(mem@),
        idx < 8,
    ensures
        v == reg8_xy(*r, mem@, idx, r.ix, disp as int),
{
    match idx {
        0 => r.b,
        1 => r.c,
        2 => r.d,
        3 => r.e,
        4 => (r.ix / 256) as u8,
        5 => (r.ix % 256) as u8,
        6 => mem_read(mem, offset_addr(r.ix, disp)),
        _ => r.a,
    }
}

pub fn get_r_iy(r: &Regs, mem: &Vec<u8>, idx: u8, disp: i8) -> (v: u8)
    requires
        mem_ok(mem@),
        idx < 8,
    ensures
        v == reg8_xy(*r, mem@, idx, r.iy, disp as int),
{
    match idx {
        0 => r.b,
        1 => r.c,
        2 => r.d,
        3 => r.e,
        4 => (r.iy / 256) as u8,
        5 => (r.iy % 256) as u8,
        6 => mem_read(mem, offset_addr(r.iy, disp)),
        _ => r.a,
    }
}

/// Store `val` in register field `idx`; field 6 writes (HL).
pub fn set_r(r: &mut Regs, mem: &mut Vec<u8>, idx: u8, val: u8)
    requires
        mem_ok(old(mem)@),
        idx < 8,
    ensures
        idx == 6 ==> final(mem)@ == old(mem)@.update(pair(old(r).h, old(r).l) as int, val)
            && *final(r) == *old(r),
        idx != 6 ==> final(mem)@ == old(mem)@ && *final(r) == with_reg8(*old(r), idx, val),
{
    match idx {
        0 => r.b = val,
        1 => r.c = val,
        2 => r.d = val,
        3 => r.e = val,
        4 => r.h = val,
        5 => r.l = val,
        6 => {
            let addr = r.hl();
            mem_write(mem, addr, val);
        },
        _ => r.a = val,
    }
}

/// Register pair field `idx` in the `dd` encoding: BC, DE, HL, SP.
pub open spec fn reg16(r: Regs, idx: u8) -> u16 {
    if idx == 0 {
        pair(r.b, r.c)
    } else if idx == 1 {
        pair(r.d, r.e)
    } else if idx == 2 {
        pair(r.h, r.l)
    } else {
        r.sp
    }
}

/// The register file with pair `idx` (`dd` encoding) set to `v`.
pub open spec fn with_reg16(r: Regs, idx: u8, v: u16) -> Regs {
    if idx == 0 {
        Regs { b: hi_byte(v), c: lo_byte(v), ..r }
    } else if idx == 1 {
        Regs { d: hi_byte(v), e: lo_byte(v), ..r }
    } else if idx == 2 {
        Regs { h: hi_byte(v), l: lo_byte(v), ..r }
    } else {
        Regs { sp: v, ..r }
    }
}

/// Register pair field `idx` in the `qq` encoding: BC, DE, HL, AF.
pub open spec fn reg_qq(r: Regs, idx: u8) -> u16 {
    if idx == 3 {
        pair(r.a, r.f)
    } else {
        reg16(r, idx)
    }
}

/// The register file with pair `idx` (`qq` encoding) set to `v`.
pub open spec fn with_qq(r: Regs, idx: u8, v: u16) -> Regs {
    if idx == 3 {
        Regs { a: hi_byte(v), f: lo_byte(v), ..r }
    } else {
        with_reg16(r, idx, v)
    }
}

pub fn get_dd(r: &Regs, idx: u8) -> (v: u16)
    requires
        idx < 4,
    ensures
        v == reg16(*r, idx),
{
    match idx {
        0 => r.bc(),
        1 => r.de(),
        2 => r.hl(),
        _ => r.sp,
    }
}

pub fn set_dd(r: &mut Regs, idx: u8, val: u16)
    requires
        idx < 4,
    ensures
        *final(r) == with_reg16(*old(r), idx, val),
{
    match idx {
        0 => r.set_bc(val),
        1 => r.set_de(val),
        2 => r.set_hl(val),
        _ => r.sp = val,
    }
}

pub fn get_qq(r: &Regs, idx: u8) -> (v: u16)
    requires
        idx < 4,
    ensures
        v == reg_qq(*r, idx),
{
    match idx {
        0 => r.bc(),
        1 => r.de(),
        2 => r.hl(),
        _ => r.af(),
    }
}

pub fn set_qq(r: &mut Regs, idx: u8, val: u16)
    requires
        idx < 4,
    ensures
        *final(r) == with_qq(*old(r), idx, val),
{
    match idx {
        0 => r.set_bc(val),
        1 => r.set_de(val),
        2 => r.set_hl(val),
        _ => r.set_af(val),
    }
}

/// Condition field `cc` over flag byte `f`: NZ, Z, NC, C, PO, PE, P, M.
pub open spec fn cond(f: u8, cc: u8) -> bool {
    if cc == 0 {
        !bit(f, FLAG_Z)
    } else if cc == 1 {
        bit(f, FLAG_Z)
    } else if cc == 2 {
        !bit(f, FLAG_C)
    } else if cc == 3 {
        bit(f, FLAG_C)
    } else if cc == 4 {
        !bit(f, FLAG_PV)
    } else if cc == 5 {
        bit(f, FLAG_PV)
    } else if cc == 6 {
        !bit(f, FLAG_S)
    } else {
        bit(f, FLAG_S)
    }
}

pub fn check_cc(r: &Regs, cc: u8) -> (b: bool)
    requires
        cc < 8,
    ensures
        b == cond(r.f, cc),
{
    match cc {
        0 => !r.flag(FLAG_Z),
        1 => r.flag(FLAG_Z),
        2 => !r.flag(FLAG_C),
        3 => r.flag(FLAG_C),
        4 => !r.flag(FLAG_PV),
        5 => r.flag(FLAG_PV),
        6 => !r.flag(FLAG_S),
        _ => r.flag(FLAG_S),
    }
}

/// The I/O ports as the SoftCard wires them: reads give 0xFF, and a write
/// to a port whose low byte is 0 hands the bus back to the 6502.
pub struct Ports {
    pub yield_to_6502: bool,
}

impl Ports {
    pub fn new() -> (p: Self)
        ensures
            !p.yield_to_6502,
    {
        Ports { yield_to_6502: false }
    }

    pub fn out(&mut self, port: u16, val: u8)
        ensures
            final(self).yield_to_6502 == (old(self).yield_to_6502 || port % 256 == 0),
    {
        if port % 256 == 0 {
            self.yield_to_6502 = true;
        }
    }

    pub fn inp(&self, port: u16) -> (v: u8)
        ensures
            v == 0xFF,
    {
        0xFF
    }
}

} // verus!
