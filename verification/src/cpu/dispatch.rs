//! Instruction execution: one function per 6502 / 65C02 opcode, the two
//! opcode tables, and `step`, which takes a pending interrupt or runs the
//! instruction at PC and counts its cycles.
//!
//! Each instruction states what it does when every byte it touches is
//! memory (no soft switch or card register): the registers it sets from
//! the bytes it reads and the byte it stores. Where it reads I/O it still
//! states the shape of the result, over whatever value the bus gave.

use vstd::prelude::*;
use crate::bus::machine::Bus;
use crate::bus::soft_switches::read_post;
use super::addressing::{
    can_read, crossed, ea_of, fetch_plain, interrupt_status, past_operand, pc_add, plain, plain_w, rel_dest,
    word, Mode,
};
use super::cpu6502::{adc_spec, carry, sbc_spec, Cpu};
use super::flags::{nz_of, with_mask, Flags, B, C, D, I, N, U, V, Z};

verus! {

/// `c` with A set to `v` and N, Z from it.
pub open spec fn load_a(c: Cpu, v: u8) -> Cpu {
    Cpu { a: v, flags: Flags { bits: nz_of(c.flags.bits, v) }, ..c }
}

/// `c` after comparing `reg` with `v`: C when `reg >= v`, N and Z from the
/// difference.
pub open spec fn compared(c: Cpu, reg: u8, v: u8) -> Cpu {
    Cpu { flags: Flags { bits: nz_of(with_mask(c.flags.bits, C, reg >= v), reg.wrapping_sub(v)) }, ..c }
}

/// `c` after ADC of `v`.
pub open spec fn added(c: Cpu, v: u8) -> Cpu {
    Cpu { a: adc_spec(c.a, v, c.flags.bits).0, flags: Flags { bits: adc_spec(c.a, v, c.flags.bits).1 }, ..c }
}

/// `c` after SBC of `v`.
pub open spec fn subtracted(c: Cpu, v: u8) -> Cpu {
    Cpu { a: sbc_spec(c.a, v, c.flags.bits).0, flags: Flags { bits: sbc_spec(c.a, v, c.flags.bits).1 }, ..c }
}

/// The operations that read one operand byte.
#[derive(Debug, Clone, Copy, PartialEq, Eq, Structural)]
pub enum ReadOp {
    Ora,
    And,
    Eor,
    Adc,
    Sbc,
    Cmp,
    Cpx,
    Cpy,
    Bit,
    /// 65C02 BIT immediate: Z only.
    BitZ,
    Lda,
    Ldx,
    Ldy,
    Lax,
    /// NMOS LAX immediate: `v & (A | 0xEE)` into A and X.
    LaxImm,
    /// NMOS LAS: `v & SP` into A, X and SP.
    Las,
    /// NMOS ANC: AND, then C from N.
    Anc,
    /// NMOS ALR: AND, then LSR A.
    Alr,
    /// NMOS ARR: AND, then rotate right with C from bit 6 and V from bits
    /// 6 and 5.
    Arr,
    /// NMOS SBX: `(A & X) - v` into X, C when no borrow.
    Sbx,
}

/// The CPU after read operation `op` on operand byte `v`.
pub open spec fn read_op(op: ReadOp, c: Cpu, v: u8) -> Cpu {
    let p = c.flags.bits;
    match op {
        ReadOp::Ora => load_a(c, c.a | v),
        ReadOp::And => load_a(c, c.a & v),
        ReadOp::Eor => load_a(c, c.a ^ v),
        ReadOp::Adc => added(c, v),
        ReadOp::Sbc => subtracted(c, v),
        ReadOp::Cmp => compared(c, c.a, v),
        ReadOp::Cpx => compared(c, c.x, v),
        ReadOp::Cpy => compared(c, c.y, v),
        ReadOp::Bit => Cpu {
            flags: Flags {
                bits: with_mask(with_mask(with_mask(p, N, v & 0x80 != 0), V, v & 0x40 != 0), Z, c.a & v == 0),
            },
            ..c
        },
        ReadOp::BitZ => Cpu { flags: Flags { bits: with_mask(p, Z, c.a & v == 0) }, ..c },
        ReadOp::Lda => load_a(c, v),
        ReadOp::Ldx => Cpu { x: v, flags: Flags { bits: nz_of(p, v) }, ..c },
        ReadOp::Ldy => Cpu { y: v, flags: Flags { bits: nz_of(p, v) }, ..c },
        ReadOp::Lax => Cpu { a: v, x: v, flags: Flags { bits: nz_of(p, v) }, ..c },
        ReadOp::LaxImm => Cpu {
            a: v & (c.a | 0xEE),
            x: v & (c.a | 0xEE),
            flags: Flags { bits: nz_of(p, v & (c.a | 0xEE)) },
            ..c
        },
        ReadOp::Las => Cpu { a: v & c.sp, x: v & c.sp, sp: v & c.sp, flags: Flags { bits: nz_of(p, v & c.sp) }, ..c },
        ReadOp::Anc => {
            let p1 = nz_of(p, c.a & v);
            Cpu { a: c.a & v, flags: Flags { bits: with_mask(p1, C, p1 & N == N) }, ..c }
        },
        ReadOp::Alr => {
            let a1 = c.a & v;
            Cpu { a: a1 >> 1u8, flags: Flags { bits: nz_of(with_mask(p, C, a1 & 0x01 != 0), a1 >> 1u8) }, ..c }
        },
        ReadOp::Arr => {
            let a1 = (if p & C == C { 0x80u8 } else { 0u8 }) | ((c.a & v) >> 1u8);
            let bit6 = (a1 >> 6u8) & 1;
            let bit5 = (a1 >> 5u8) & 1;
            Cpu { a: a1, flags: Flags { bits: with_mask(with_mask(nz_of(p, a1), C, bit6 != 0), V, (bit6 ^ bit5) != 0) }, ..c }
        },
        ReadOp::Sbx => {
            let ax = c.a & c.x;
            Cpu { x: ax.wrapping_sub(v), flags: Flags { bits: nz_of(with_mask(p, C, ax >= v), ax.wrapping_sub(v)) }, ..c }
        },
    }
}

/// The operations that read, change and write back one byte.
#[derive(Debug, Clone, Copy, PartialEq, Eq, Structural)]
pub enum RmwOp {
    Asl,
    Lsr,
    Rol,
    Ror,
    Inc,
    Dec,
    /// 65C02 TSB: Z from `A & v`, store `v | A`.
    Tsb,
    /// 65C02 TRB: Z from `A & v`, store `v & !A`.
    Trb,
    /// NMOS SLO: ASL, then ORA the result.
    Slo,
    /// NMOS RLA: ROL, then AND the result.
    Rla,
    /// NMOS SRE: LSR, then EOR the result.
    Sre,
    /// NMOS RRA: ROR, then ADC the result.
    Rra,
    /// NMOS DCP: DEC, then CMP the result.
    Dcp,
    /// NMOS ISC: INC, then SBC the result.
    Isc,
}

/// ASL of `v`: the CPU with C, N, Z set, and the result.
pub open spec fn asl_of(c: Cpu, v: u8) -> (Cpu, u8) {
    (Cpu { flags: Flags { bits: nz_of(with_mask(c.flags.bits, C, v & 0x80 != 0), v << 1u8) }, ..c }, v << 1u8)
}

/// LSR of `v`.
pub open spec fn lsr_of(c: Cpu, v: u8) -> (Cpu, u8) {
    (Cpu { flags: Flags { bits: nz_of(with_mask(c.flags.bits, C, v & 0x01 != 0), v >> 1u8) }, ..c }, v >> 1u8)
}

/// ROL of `v` through carry.
pub open spec fn rol_of(c: Cpu, v: u8) -> (Cpu, u8) {
    let r = (v << 1u8) | carry(c.flags.bits);
    (Cpu { flags: Flags { bits: nz_of(with_mask(c.flags.bits, C, v & 0x80 != 0), r) }, ..c }, r)
}

/// ROR of `v` through carry.
pub open spec fn ror_of(c: Cpu, v: u8) -> (Cpu, u8) {
    let r = (v >> 1u8) | (carry(c.flags.bits) << 7u8);
    (Cpu { flags: Flags { bits: nz_of(with_mask(c.flags.bits, C, v & 0x01 != 0), r) }, ..c }, r)
}

/// The CPU after read-modify-write operation `op` on byte `v`, and the
/// byte written back.
pub open spec fn rmw_op(op: RmwOp, c: Cpu, v: u8) -> (Cpu, u8) {
    let p = c.flags.bits;
    match op {
        RmwOp::Asl => asl_of(c, v),
        RmwOp::Lsr => lsr_of(c, v),
        RmwOp::Rol => rol_of(c, v),
        RmwOp::Ror => ror_of(c, v),
        RmwOp::Inc => (Cpu { flags: Flags { bits: nz_of(p, v.wrapping_add(1)) }, ..c }, v.wrapping_add(1)),
        RmwOp::Dec => (Cpu { flags: Flags { bits: nz_of(p, v.wrapping_sub(1)) }, ..c }, v.wrapping_sub(1)),
        RmwOp::Tsb => (Cpu { flags: Flags { bits: with_mask(p, Z, c.a & v == 0) }, ..c }, v | c.a),
        RmwOp::Trb => (Cpu { flags: Flags { bits: with_mask(p, Z, c.a & v == 0) }, ..c }, v & !c.a),
        RmwOp::Slo => (load_a(asl_of(c, v).0, c.a | asl_of(c, v).1), asl_of(c, v).1),
        RmwOp::Rla => (load_a(rol_of(c, v).0, c.a & rol_of(c, v).1), rol_of(c, v).1),
        RmwOp::Sre => (load_a(lsr_of(c, v).0, c.a ^ lsr_of(c, v).1), lsr_of(c, v).1),
        RmwOp::Rra => (added(ror_of(c, v).0, ror_of(c, v).1), ror_of(c, v).1),
        RmwOp::Dcp => (compared(c, c.a, v.wrapping_sub(1)), v.wrapping_sub(1)),
        RmwOp::Isc => (subtracted(c, v.wrapping_add(1)), v.wrapping_add(1)),
    }
}

/// What no instruction changes: the cycle counter, the CPU variant and the
/// pending interrupts.
pub open spec fn steady(c: Cpu, d: Cpu) -> bool {
    &&& d.cycles == c.cycles
    &&& d.is_65c02 == c.is_65c02
    &&& d.irq_pending == c.irq_pending
    &&& d.nmi_pending == c.nmi_pending
    &&& d.irq_defer == c.irq_defer
}

/// The bytes of the stack page: address `0x100 + sp`.
pub open spec fn stack_addr(sp: int) -> u16 {
    (0x100 + sp % 256) as u16
}

/// Where JMP (ind) reads the high byte of its target: on the NMOS 6502 a
/// pointer at $xxFF wraps to $xx00.
pub open spec fn jmp_ind_hi(c: Cpu, ptr: u16) -> u16 {
    if !c.is_65c02 && ptr % 256 == 255 {
        (ptr - 255) as u16
    } else {
        pc_add(ptr, 1)
    }
}

/// The base cycle count of each opcode; page crossings and taken
/// branches add to it.
pub open spec fn base_cycles(op: u8) -> u8 {
    cycle_table()[op as int]
}

/// The base cycle counts, by opcode.
pub open spec fn cycle_table() -> Seq<u8> {
    seq![
        7, 6, 2, 8, 3, 3, 5, 5, 3, 2, 2, 2, 4, 4, 6, 6,
        2, 5, 5, 8, 4, 4, 6, 6, 2, 4, 2, 7, 4, 4, 7, 7,
        6, 6, 2, 8, 3, 3, 5, 5, 4, 2, 2, 2, 4, 4, 6, 6,
        2, 5, 5, 8, 4, 4, 6, 6, 2, 4, 2, 7, 4, 4, 7, 7,
        6, 6, 2, 8, 3, 3, 5, 5, 3, 2, 2, 2, 3, 4, 6, 6,
        2, 5, 5, 8, 4, 4, 6, 6, 2, 4, 2, 7, 4, 4, 7, 7,
        6, 6, 2, 8, 3, 3, 5, 5, 4, 2, 2, 2, 5, 4, 6, 6,
        2, 5, 5, 8, 4, 4, 6, 6, 2, 4, 2, 7, 4, 4, 7, 7,
        2, 6, 2, 6, 3, 3, 3, 3, 2, 2, 2, 2, 4, 4, 4, 4,
        2, 6, 5, 6, 4, 4, 4, 4, 2, 5, 2, 5, 5, 5, 5, 5,
        2, 6, 2, 6, 3, 3, 3, 3, 2, 2, 2, 2, 4, 4, 4, 4,
        2, 5, 5, 5, 4, 4, 4, 4, 2, 4, 2, 4, 4, 4, 4, 4,
        2, 6, 2, 8, 3, 3, 5, 5, 2, 2, 2, 2, 4, 4, 6, 6,
        2, 5, 5, 8, 4, 4, 6, 6, 2, 4, 2, 7, 4, 4, 7, 7,
        2, 6, 2, 8, 3, 3, 5, 5, 2, 2, 2, 2, 4, 4, 6, 6,
        2, 5, 5, 8, 4, 4, 6, 6, 2, 4, 2, 7, 4, 4, 7, 7,
    ]
}

/// The base cycle count of opcode `op`.
pub fn base_cycles_of(op: u8) -> (r: u8)
    ensures
        r == base_cycles(op),
        2 <= r <= 8,
{
    match op {
        0x00 => 7,
        0x01 => 6,
        0x02 => 2,
        0x03 => 8,
        0x04 => 3,
        0x05 => 3,
        0x06 => 5,
        0x07 => 5,
        0x08 => 3,
        0x09 => 2,
        0x0A => 2,
        0x0B => 2,
        0x0C => 4,
        0x0D => 4,
        0x0E => 6,
        0x0F => 6,
        0x10 => 2,
        0x11 => 5,
        0x12 => 5,
        0x13 => 8,
        0x14 => 4,
        0x15 => 4,
        0x16 => 6,
        0x17 => 6,
        0x18 => 2,
        0x19 => 4,
        0x1A => 2,
        0x1B => 7,
        0x1C => 4,
        0x1D => 4,
        0x1E => 7,
        0x1F => 7,
        0x20 => 6,
        0x21 => 6,
        0x22 => 2,
        0x23 => 8,
        0x24 => 3,
        0x25 => 3,
        0x26 => 5,
        0x27 => 5,
        0x28 => 4,
        0x29 => 2,
        0x2A => 2,
        0x2B => 2,
        0x2C => 4,
        0x2D => 4,
        0x2E => 6,
        0x2F => 6,
        0x30 => 2,
        0x31 => 5,
        0x32 => 5,
        0x33 => 8,
        0x34 => 4,
        0x35 => 4,
        0x36 => 6,
        0x37 => 6,
        0x38 => 2,
        0x39 => 4,
        0x3A => 2,
        0x3B => 7,
        0x3C => 4,
        0x3D => 4,
        0x3E => 7,
        0x3F => 7,
        0x40 => 6,
        0x41 => 6,
        0x42 => 2,
        0x43 => 8,
        0x44 => 3,
        0x45 => 3,
        0x46 => 5,
        0x47 => 5,
        0x48 => 3,
        0x49 => 2,
        0x4A => 2,
        0x4B => 2,
        0x4C => 3,
        0x4D => 4,
        0x4E => 6,
        0x4F => 6,
        0x50 => 2,
        0x51 => 5,
        0x52 => 5,
        0x53 => 8,
        0x54 => 4,
        0x55 => 4,
        0x56 => 6,
        0x57 => 6,
        0x58 => 2,
        0x59 => 4,
        0x5A => 2,
        0x5B => 7,
        0x5C => 4,
        0x5D => 4,
        0x5E => 7,
        0x5F => 7,
        0x60 => 6,
        0x61 => 6,
        0x62 => 2,
        0x63 => 8,
        0x64 => 3,
        0x65 => 3,
        0x66 => 5,
        0x67 => 5,
        0x68 => 4,
        0x69 => 2,
        0x6A => 2,
        0x6B => 2,
        0x6C => 5,
        0x6D => 4,
        0x6E => 6,
        0x6F => 6,
        0x70 => 2,
        0x71 => 5,
        0x72 => 5,
        0x73 => 8,
        0x74 => 4,
        0x75 => 4,
        0x76 => 6,
        0x77 => 6,
        0x78 => 2,
        0x79 => 4,
        0x7A => 2,
        0x7B => 7,
        0x7C => 4,
        0x7D => 4,
        0x7E => 7,
        0x7F => 7,
        0x80 => 2,
        0x81 => 6,
        0x82 => 2,
        0x83 => 6,
        0x84 => 3,
        0x85 => 3,
        0x86 => 3,
        0x87 => 3,
        0x88 => 2,
        0x89 => 2,
        0x8A => 2,
        0x8B => 2,
        0x8C => 4,
        0x8D => 4,
        0x8E => 4,
        0x8F => 4,
        0x90 => 2,
        0x91 => 6,
        0x92 => 5,
        0x93 => 6,
        0x94 => 4,
        0x95 => 4,
        0x96 => 4,
        0x97 => 4,
        0x98 => 2,
        0x99 => 5,
        0x9A => 2,
        0x9B => 5,
        0x9C => 5,
        0x9D => 5,
        0x9E => 5,
        0x9F => 5,
        0xA0 => 2,
        0xA1 => 6,
        0xA2 => 2,
        0xA3 => 6,
        0xA4 => 3,
        0xA5 => 3,
        0xA6 => 3,
        0xA7 => 3,
        0xA8 => 2,
        0xA9 => 2,
        0xAA => 2,
        0xAB => 2,
        0xAC => 4,
        0xAD => 4,
        0xAE => 4,
        0xAF => 4,
        0xB0 => 2,
        0xB1 => 5,
        0xB2 => 5,
        0xB3 => 5,
        0xB4 => 4,
        0xB5 => 4,
        0xB6 => 4,
        0xB7 => 4,
        0xB8 => 2,
        0xB9 => 4,
        0xBA => 2,
        0xBB => 4,
        0xBC => 4,
        0xBD => 4,
        0xBE => 4,
        0xBF => 4,
        0xC0 => 2,
        0xC1 => 6,
        0xC2 => 2,
        0xC3 => 8,
        0xC4 => 3,
        0xC5 => 3,
        0xC6 => 5,
        0xC7 => 5,
        0xC8 => 2,
        0xC9 => 2,
        0xCA => 2,
        0xCB => 2,
        0xCC => 4,
        0xCD => 4,
        0xCE => 6,
        0xCF => 6,
        0xD0 => 2,
        0xD1 => 5,
        0xD2 => 5,
        0xD3 => 8,
        0xD4 => 4,
        0xD5 => 4,
        0xD6 => 6,
        0xD7 => 6,
        0xD8 => 2,
        0xD9 => 4,
        0xDA => 2,
        0xDB => 7,
        0xDC => 4,
        0xDD => 4,
        0xDE => 7,
        0xDF => 7,
        0xE0 => 2,
        0xE1 => 6,
        0xE2 => 2,
        0xE3 => 8,
        0xE4 => 3,
        0xE5 => 3,
        0xE6 => 5,
        0xE7 => 5,
        0xE8 => 2,
        0xE9 => 2,
        0xEA => 2,
        0xEB => 2,
        0xEC => 4,
        0xED => 4,
        0xEE => 6,
        0xEF => 6,
        0xF0 => 2,
        0xF1 => 5,
        0xF2 => 5,
        0xF3 => 8,
        0xF4 => 4,
        0xF5 => 4,
        0xF6 => 6,
        0xF7 => 6,
        0xF8 => 2,
        0xF9 => 4,
        0xFA => 2,
        0xFB => 7,
        0xFC => 4,
        0xFD => 4,
        0xFE => 7,
        _ => 7,
    }
}

/// ADC absolute: the CPU and bus after it from `c0`/`b0` (PC past the
/// opcode), and its extra cycles `r`.
pub open spec fn adc_abs_effect(c0: Cpu, b0: Bus, c1: Cpu, b1: Bus, r: u8) -> bool {
    &&& b1.wf()
    &&& exists|v: u8| c1 == #[trigger] read_op(ReadOp::Adc, past_operand(c0, Mode::Abs), v)
    &&& fetch_plain(Mode::Abs, c0, b0) && plain(b0, ea_of(Mode::Abs, c0, b0)) ==> c1 == read_op(ReadOp::Adc, past_operand(c0, Mode::Abs), b0.peek(ea_of(Mode::Abs, c0, b0))) && b1 == b0
    &&& r == 0
}

/// ADC absolute,X: the CPU and bus after it from `c0`/`b0` (PC past the
/// opcode), and its extra cycles `r`.
pub open spec fn adc_absx_effect(c0: Cpu, b0: Bus, c1: Cpu, b1: Bus, r: u8) -> bool {
    &&& b1.wf()
    &&& exists|v: u8| c1 == #[trigger] read_op(ReadOp::Adc, past_operand(c0, Mode::Absx), v)
    &&& fetch_plain(Mode::Absx, c0, b0) && plain(b0, ea_of(Mode::Absx, c0, b0)) ==> c1 == read_op(ReadOp::Adc, past_operand(c0, Mode::Absx), b0.peek(ea_of(Mode::Absx, c0, b0))) && b1 == b0 && r == (if crossed(Mode::Absx, c0, b0) { 1u8 } else { 0u8 })
    &&& r <= 1
}

/// ADC absolute,Y: the CPU and bus after it from `c0`/`b0` (PC past the
/// opcode), and its extra cycles `r`.
pub open spec fn adc_absy_effect(c0: Cpu, b0: Bus, c1: Cpu, b1: Bus, r: u8) -> bool {
    &&& b1.wf()
    &&& exists|v: u8| c1 == #[trigger] read_op(ReadOp::Adc, past_operand(c0, Mode::Absy), v)
    &&& fetch_plain(Mode::Absy, c0, b0) && plain(b0, ea_of(Mode::Absy, c0, b0)) ==> c1 == read_op(ReadOp::Adc, past_operand(c0, Mode::Absy), b0.peek(ea_of(Mode::Absy, c0, b0))) && b1 == b0 && r == (if crossed(Mode::Absy, c0, b0) { 1u8 } else { 0u8 })
    &&& r <= 1
}

/// ADC immediate: the CPU and bus after it from `c0`/`b0` (PC past the
/// opcode), and its extra cycles `r`.
pub open spec fn adc_imm_effect(c0: Cpu, b0: Bus, c1: Cpu, b1: Bus, r: u8) -> bool {
    &&& b1.wf()
    &&& exists|v: u8| c1 == #[trigger] read_op(ReadOp::Adc, past_operand(c0, Mode::Imm), v)
    &&& fetch_plain(Mode::Imm, c0, b0) ==> c1 == read_op(ReadOp::Adc, past_operand(c0, Mode::Imm), b0.peek(ea_of(Mode::Imm, c0, b0))) && b1 == b0
    &&& r == 0
}

/// ADC (zero page): the CPU and bus after it from `c0`/`b0` (PC past the
/// opcode), and its extra cycles `r`.
pub open spec fn adc_ind_zp_effect(c0: Cpu, b0: Bus, c1: Cpu, b1: Bus, r: u8) -> bool {
    &&& b1.wf()
    &&& exists|v: u8| c1 == #[trigger] read_op(ReadOp::Adc, past_operand(c0, Mode::IndZp), v)
    &&& fetch_plain(Mode::IndZp, c0, b0) && plain(b0, ea_of(Mode::IndZp, c0, b0)) ==> c1 == read_op(ReadOp::Adc, past_operand(c0, Mode::IndZp), b0.peek(ea_of(Mode::IndZp, c0, b0))) && b1 == b0
    &&& r == 0
}

/// ADC (zero page,X): the CPU and bus after it from `c0`/`b0` (PC past the
/// opcode), and its extra cycles `r`.
pub open spec fn adc_indx_effect(c0: Cpu, b0: Bus, c1: Cpu, b1: Bus, r: u8) -> bool {
    &&& b1.wf()
    &&& exists|v: u8| c1 == #[trigger] read_op(ReadOp::Adc, past_operand(c0, Mode::Indx), v)
    &&& fetch_plain(Mode::Indx, c0, b0) && plain(b0, ea_of(Mode::Indx, c0, b0)) ==> c1 == read_op(ReadOp::Adc, past_operand(c0, Mode::Indx), b0.peek(ea_of(Mode::Indx, c0, b0))) && b1 == b0
    &&& r == 0
}

/// ADC (zero page),Y: the CPU and bus after it from `c0`/`b0` (PC past the
/// opcode), and its extra cycles `r`.
pub open spec fn adc_indy_effect(c0: Cpu, b0: Bus, c1: Cpu, b1: Bus, r: u8) -> bool {
    &&& b1.wf()
    &&& exists|v: u8| c1 == #[trigger] read_op(ReadOp::Adc, past_operand(c0, Mode::Indy), v)
    &&& fetch_plain(Mode::Indy, c0, b0) && plain(b0, ea_of(Mode::Indy, c0, b0)) ==> c1 == read_op(ReadOp::Adc, past_operand(c0, Mode::Indy), b0.peek(ea_of(Mode::Indy, c0, b0))) && b1 == b0 && r == (if crossed(Mode::Indy, c0, b0) { 1u8 } else { 0u8 })
    &&& r <= 1
}

/// ADC zero page: the CPU and bus after it from `c0`/`b0` (PC past the
/// opcode), and its extra cycles `r`.
pub open spec fn adc_zp_effect(c0: Cpu, b0: Bus, c1: Cpu, b1: Bus, r: u8) -> bool {
    &&& b1.wf()
    &&& exists|v: u8| c1 == #[trigger] read_op(ReadOp::Adc, past_operand(c0, Mode::Zp), v)
    &&& fetch_plain(Mode::Zp, c0, b0) && plain(b0, ea_of(Mode::Zp, c0, b0)) ==> c1 == read_op(ReadOp::Adc, past_operand(c0, Mode::Zp), b0.peek(ea_of(Mode::Zp, c0, b0))) && b1 == b0
    &&& r == 0
}

/// ADC zero page,X: the CPU and bus after it from `c0`/`b0` (PC past the
/// opcode), and its extra cycles `r`.
pub open spec fn adc_zpx_effect(c0: Cpu, b0: Bus, c1: Cpu, b1: Bus, r: u8) -> bool {
    &&& b1.wf()
    &&& exists|v: u8| c1 == #[trigger] read_op(ReadOp::Adc, past_operand(c0, Mode::Zpx), v)
    &&& fetch_plain(Mode::Zpx, c0, b0) && plain(b0, ea_of(Mode::Zpx, c0, b0)) ==> c1 == read_op(ReadOp::Adc, past_operand(c0, Mode::Zpx), b0.peek(ea_of(Mode::Zpx, c0, b0))) && b1 == b0
    &&& r == 0
}

/// ALR: the CPU and bus after it from `c0`/`b0` (PC past the
/// opcode), and its extra cycles `r`.
pub open spec fn alr_effect(c0: Cpu, b0: Bus, c1: Cpu, b1: Bus, r: u8) -> bool {
    &&& b1.wf()
    &&& exists|v: u8| c1 == #[trigger] read_op(ReadOp::Alr, past_operand(c0, Mode::Imm), v)
    &&& fetch_plain(Mode::Imm, c0, b0) ==> c1 == read_op(ReadOp::Alr, past_operand(c0, Mode::Imm), b0.peek(ea_of(Mode::Imm, c0, b0))) && b1 == b0
    &&& r == 0
}

/// ANC: the CPU and bus after it from `c0`/`b0` (PC past the
/// opcode), and its extra cycles `r`.
pub open spec fn anc_effect(c0: Cpu, b0: Bus, c1: Cpu, b1: Bus, r: u8) -> bool {
    &&& b1.wf()
    &&& exists|v: u8| c1 == #[trigger] read_op(ReadOp::Anc, past_operand(c0, Mode::Imm), v)
    &&& fetch_plain(Mode::Imm, c0, b0) ==> c1 == read_op(ReadOp::Anc, past_operand(c0, Mode::Imm), b0.peek(ea_of(Mode::Imm, c0, b0))) && b1 == b0
    &&& r == 0
}

/// AND absolute: the CPU and bus after it from `c0`/`b0` (PC past the
/// opcode), and its extra cycles `r`.
pub open spec fn and_abs_effect(c0: Cpu, b0: Bus, c1: Cpu, b1: Bus, r: u8) -> bool {
    &&& b1.wf()
    &&& exists|v: u8| c1 == #[trigger] read_op(ReadOp::And, past_operand(c0, Mode::Abs), v)
    &&& fetch_plain(Mode::Abs, c0, b0) && plain(b0, ea_of(Mode::Abs, c0, b0)) ==> c1 == read_op(ReadOp::And, past_operand(c0, Mode::Abs), b0.peek(ea_of(Mode::Abs, c0, b0))) && b1 == b0
    &&& r == 0
}

/// AND absolute,X: the CPU and bus after it from `c0`/`b0` (PC past the
/// opcode), and its extra cycles `r`.
pub open spec fn and_absx_effect(c0: Cpu, b0: Bus, c1: Cpu, b1: Bus, r: u8) -> bool {
    &&& b1.wf()
    &&& exists|v: u8| c1 == #[trigger] read_op(ReadOp::And, past_operand(c0, Mode::Absx), v)
    &&& fetch_plain(Mode::Absx, c0, b0) && plain(b0, ea_of(Mode::Absx, c0, b0)) ==> c1 == read_op(ReadOp::And, past_operand(c0, Mode::Absx), b0.peek(ea_of(Mode::Absx, c0, b0))) && b1 == b0 && r == (if crossed(Mode::Absx, c0, b0) { 1u8 } else { 0u8 })
    &&& r <= 1
}

/// AND absolute,Y: the CPU and bus after it from `c0`/`b0` (PC past the
/// opcode), and its extra cycles `r`.
pub open spec fn and_absy_effect(c0: Cpu, b0: Bus, c1: Cpu, b1: Bus, r: u8) -> bool {
    &&& b1.wf()
    &&& exists|v: u8| c1 == #[trigger] read_op(ReadOp::And, past_operand(c0, Mode::Absy), v)
    &&& fetch_plain(Mode::Absy, c0, b0) && plain(b0, ea_of(Mode::Absy, c0, b0)) ==> c1 == read_op(ReadOp::And, past_operand(c0, Mode::Absy), b0.peek(ea_of(Mode::Absy, c0, b0))) && b1 == b0 && r == (if crossed(Mode::Absy, c0, b0) { 1u8 } else { 0u8 })
    &&& r <= 1
}

/// AND immediate: the CPU and bus after it from `c0`/`b0` (PC past the
/// opcode), and its extra cycles `r`.
pub open spec fn and_imm_effect(c0: Cpu, b0: Bus, c1: Cpu, b1: Bus, r: u8) -> bool {
    &&& b1.wf()
    &&& exists|v: u8| c1 == #[trigger] read_op(ReadOp::And, past_operand(c0, Mode::Imm), v)
    &&& fetch_plain(Mode::Imm, c0, b0) ==> c1 == read_op(ReadOp::And, past_operand(c0, Mode::Imm), b0.peek(ea_of(Mode::Imm, c0, b0))) && b1 == b0
    &&& r == 0
}

/// AND (zero page): the CPU and bus after it from `c0`/`b0` (PC past the
/// opcode), and its extra cycles `r`.
pub open spec fn and_ind_zp_effect(c0: Cpu, b0: Bus, c1: Cpu, b1: Bus, r: u8) -> bool {
    &&& b1.wf()
    &&& exists|v: u8| c1 == #[trigger] read_op(ReadOp::And, past_operand(c0, Mode::IndZp), v)
    &&& fetch_plain(Mode::IndZp, c0, b0) && plain(b0, ea_of(Mode::IndZp, c0, b0)) ==> c1 == read_op(ReadOp::And, past_operand(c0, Mode::IndZp), b0.peek(ea_of(Mode::IndZp, c0, b0))) && b1 == b0
    &&& r == 0
}

/// AND (zero page,X): the CPU and bus after it from `c0`/`b0` (PC past the
/// opcode), and its extra cycles `r`.
pub open spec fn and_indx_effect(c0: Cpu, b0: Bus, c1: Cpu, b1: Bus, r: u8) -> bool {
    &&& b1.wf()
    &&& exists|v: u8| c1 == #[trigger] read_op(ReadOp::And, past_operand(c0, Mode::Indx), v)
    &&& fetch_plain(Mode::Indx, c0, b0) && plain(b0, ea_of(Mode::Indx, c0, b0)) ==> c1 == read_op(ReadOp::And, past_operand(c0, Mode::Indx), b0.peek(ea_of(Mode::Indx, c0, b0))) && b1 == b0
    &&& r == 0
}

/// AND (zero page),Y: the CPU and bus after it from `c0`/`b0` (PC past the
/// opcode), and its extra cycles `r`.
pub open spec fn and_indy_effect(c0: Cpu, b0: Bus, c1: Cpu, b1: Bus, r: u8) -> bool {
    &&& b1.wf()
    &&& exists|v: u8| c1 == #[trigger] read_op(ReadOp::And, past_operand(c0, Mode::Indy), v)
    &&& fetch_plain(Mode::Indy, c0, b0) && plain(b0, ea_of(Mode::Indy, c0, b0)) ==> c1 == read_op(ReadOp::And, past_operand(c0, Mode::Indy), b0.peek(ea_of(Mode::Indy, c0, b0))) && b1 == b0 && r == (if crossed(Mode::Indy, c0, b0) { 1u8 } else { 0u8 })
    &&& r <= 1
}

/// AND zero page: the CPU and bus after it from `c0`/`b0` (PC past the
/// opcode), and its extra cycles `r`.
pub open spec fn and_zp_effect(c0: Cpu, b0: Bus, c1: Cpu, b1: Bus, r: u8) -> bool {
    &&& b1.wf()
    &&& exists|v: u8| c1 == #[trigger] read_op(ReadOp::And, past_operand(c0, Mode::Zp), v)
    &&& fetch_plain(Mode::Zp, c0, b0) && plain(b0, ea_of(Mode::Zp, c0, b0)) ==> c1 == read_op(ReadOp::And, past_operand(c0, Mode::Zp), b0.peek(ea_of(Mode::Zp, c0, b0))) && b1 == b0
    &&& r == 0
}

/// AND zero page,X: the CPU and bus after it from `c0`/`b0` (PC past the
/// opcode), and its extra cycles `r`.
pub open spec fn and_zpx_effect(c0: Cpu, b0: Bus, c1: Cpu, b1: Bus, r: u8) -> bool {
    &&& b1.wf()
    &&& exists|v: u8| c1 == #[trigger] read_op(ReadOp::And, past_operand(c0, Mode::Zpx), v)
    &&& fetch_plain(Mode::Zpx, c0, b0) && plain(b0, ea_of(Mode::Zpx, c0, b0)) ==> c1 == read_op(ReadOp::And, past_operand(c0, Mode::Zpx), b0.peek(ea_of(Mode::Zpx, c0, b0))) && b1 == b0
    &&& r == 0
}

/// ARR: the CPU and bus after it from `c0`/`b0` (PC past the
/// opcode), and its extra cycles `r`.
pub open spec fn arr_effect(c0: Cpu, b0: Bus, c1: Cpu, b1: Bus, r: u8) -> bool {
    &&& b1.wf()
    &&& exists|v: u8| c1 == #[trigger] read_op(ReadOp::Arr, past_operand(c0, Mode::Imm), v)
    &&& fetch_plain(Mode::Imm, c0, b0) ==> c1 == read_op(ReadOp::Arr, past_operand(c0, Mode::Imm), b0.peek(ea_of(Mode::Imm, c0, b0))) && b1 == b0
    &&& r == 0
}

/// ASL absolute: the CPU and bus after it from `c0`/`b0` (PC past the
/// opcode), and its extra cycles `r`.
pub open spec fn asl_abs_effect(c0: Cpu, b0: Bus, c1: Cpu, b1: Bus, r: u8) -> bool {
    &&& b1.wf()
    &&& exists|v: u8| c1 == #[trigger] rmw_op(RmwOp::Asl, past_operand(c0, Mode::Abs), v).0
    &&& fetch_plain(Mode::Abs, c0, b0) && plain(b0, ea_of(Mode::Abs, c0, b0)) && plain_w(ea_of(Mode::Abs, c0, b0)) ==> c1 == rmw_op(RmwOp::Asl, past_operand(c0, Mode::Abs), b0.peek(ea_of(Mode::Abs, c0, b0))).0 && b1.stored(b0, ea_of(Mode::Abs, c0, b0), rmw_op(RmwOp::Asl, past_operand(c0, Mode::Abs), b0.peek(ea_of(Mode::Abs, c0, b0))).1)
    &&& r == 0
}

/// ASL absolute,X: the CPU and bus after it from `c0`/`b0` (PC past the
/// opcode), and its extra cycles `r`.
pub open spec fn asl_absx_effect(c0: Cpu, b0: Bus, c1: Cpu, b1: Bus, r: u8) -> bool {
    &&& b1.wf()
    &&& exists|v: u8| c1 == #[trigger] rmw_op(RmwOp::Asl, past_operand(c0, Mode::Absx), v).0
    &&& fetch_plain(Mode::Absx, c0, b0) && plain(b0, ea_of(Mode::Absx, c0, b0)) && plain_w(ea_of(Mode::Absx, c0, b0)) ==> c1 == rmw_op(RmwOp::Asl, past_operand(c0, Mode::Absx), b0.peek(ea_of(Mode::Absx, c0, b0))).0 && b1.stored(b0, ea_of(Mode::Absx, c0, b0), rmw_op(RmwOp::Asl, past_operand(c0, Mode::Absx), b0.peek(ea_of(Mode::Absx, c0, b0))).1)
    &&& r == 0
}

/// ASL zero page: the CPU and bus after it from `c0`/`b0` (PC past the
/// opcode), and its extra cycles `r`.
pub open spec fn asl_zp_effect(c0: Cpu, b0: Bus, c1: Cpu, b1: Bus, r: u8) -> bool {
    &&& b1.wf()
    &&& exists|v: u8| c1 == #[trigger] rmw_op(RmwOp::Asl, past_operand(c0, Mode::Zp), v).0
    &&& fetch_plain(Mode::Zp, c0, b0) && plain(b0, ea_of(Mode::Zp, c0, b0)) && plain_w(ea_of(Mode::Zp, c0, b0)) ==> c1 == rmw_op(RmwOp::Asl, past_operand(c0, Mode::Zp), b0.peek(ea_of(Mode::Zp, c0, b0))).0 && b1.stored(b0, ea_of(Mode::Zp, c0, b0), rmw_op(RmwOp::Asl, past_operand(c0, Mode::Zp), b0.peek(ea_of(Mode::Zp, c0, b0))).1)
    &&& r == 0
}

/// ASL zero page,X: the CPU and bus after it from `c0`/`b0` (PC past the
/// opcode), and its extra cycles `r`.
pub open spec fn asl_zpx_effect(c0: Cpu, b0: Bus, c1: Cpu, b1: Bus, r: u8) -> bool {
    &&& b1.wf()
    &&& exists|v: u8| c1 == #[trigger] rmw_op(RmwOp::Asl, past_operand(c0, Mode::Zpx), v).0
    &&& fetch_plain(Mode::Zpx, c0, b0) && plain(b0, ea_of(Mode::Zpx, c0, b0)) && plain_w(ea_of(Mode::Zpx, c0, b0)) ==> c1 == rmw_op(RmwOp::Asl, past_operand(c0, Mode::Zpx), b0.peek(ea_of(Mode::Zpx, c0, b0))).0 && b1.stored(b0, ea_of(Mode::Zpx, c0, b0), rmw_op(RmwOp::Asl, past_operand(c0, Mode::Zpx), b0.peek(ea_of(Mode::Zpx, c0, b0))).1)
    &&& r == 0
}

/// BIT absolute: the CPU and bus after it from `c0`/`b0` (PC past the
/// opcode), and its extra cycles `r`.
pub open spec fn bit_abs_effect(c0: Cpu, b0: Bus, c1: Cpu, b1: Bus, r: u8) -> bool {
    &&& b1.wf()
    &&& exists|v: u8| c1 == #[trigger] read_op(ReadOp::Bit, past_operand(c0, Mode::Abs), v)
    &&& fetch_plain(Mode::Abs, c0, b0) && plain(b0, ea_of(Mode::Abs, c0, b0)) ==> c1 == read_op(ReadOp::Bit, past_operand(c0, Mode::Abs), b0.peek(ea_of(Mode::Abs, c0, b0))) && b1 == b0
    &&& r == 0
}

/// BIT absolute,X: the CPU and bus after it from `c0`/`b0` (PC past the
/// opcode), and its extra cycles `r`.
pub open spec fn bit_absx_effect(c0: Cpu, b0: Bus, c1: Cpu, b1: Bus, r: u8) -> bool {
    &&& b1.wf()
    &&& exists|v: u8| c1 == #[trigger] read_op(ReadOp::Bit, past_operand(c0, Mode::Absx), v)
    &&& fetch_plain(Mode::Absx, c0, b0) && plain(b0, ea_of(Mode::Absx, c0, b0)) ==> c1 == read_op(ReadOp::Bit, past_operand(c0, Mode::Absx), b0.peek(ea_of(Mode::Absx, c0, b0))) && b1 == b0 && r == (if crossed(Mode::Absx, c0, b0) { 1u8 } else { 0u8 })
    &&& r <= 1
}

/// BIT immediate: the CPU and bus after it from `c0`/`b0` (PC past the
/// opcode), and its extra cycles `r`.
pub open spec fn bit_imm_effect(c0: Cpu, b0: Bus, c1: Cpu, b1: Bus, r: u8) -> bool {
    &&& b1.wf()
    &&& exists|v: u8| c1 == #[trigger] read_op(ReadOp::BitZ, past_operand(c0, Mode::Imm), v)
    &&& fetch_plain(Mode::Imm, c0, b0) ==> c1 == read_op(ReadOp::BitZ, past_operand(c0, Mode::Imm), b0.peek(ea_of(Mode::Imm, c0, b0))) && b1 == b0
    &&& r == 0
}

/// BIT zero page: the CPU and bus after it from `c0`/`b0` (PC past the
/// opcode), and its extra cycles `r`.
pub open spec fn bit_zp_effect(c0: Cpu, b0: Bus, c1: Cpu, b1: Bus, r: u8) -> bool {
    &&& b1.wf()
    &&& exists|v: u8| c1 == #[trigger] read_op(ReadOp::Bit, past_operand(c0, Mode::Zp), v)
    &&& fetch_plain(Mode::Zp, c0, b0) && plain(b0, ea_of(Mode::Zp, c0, b0)) ==> c1 == read_op(ReadOp::Bit, past_operand(c0, Mode::Zp), b0.peek(ea_of(Mode::Zp, c0, b0))) && b1 == b0
    &&& r == 0
}

/// BIT zero page,X: the CPU and bus after it from `c0`/`b0` (PC past the
/// opcode), and its extra cycles `r`.
pub open spec fn bit_zpx_effect(c0: Cpu, b0: Bus, c1: Cpu, b1: Bus, r: u8) -> bool {
    &&& b1.wf()
    &&& exists|v: u8| c1 == #[trigger] read_op(ReadOp::Bit, past_operand(c0, Mode::Zpx), v)
    &&& fetch_plain(Mode::Zpx, c0, b0) && plain(b0, ea_of(Mode::Zpx, c0, b0)) ==> c1 == read_op(ReadOp::Bit, past_operand(c0, Mode::Zpx), b0.peek(ea_of(Mode::Zpx, c0, b0))) && b1 == b0
    &&& r == 0
}

/// CMP absolute: the CPU and bus after it from `c0`/`b0` (PC past the
/// opcode), and its extra cycles `r`.
pub open spec fn cmp_abs_effect(c0: Cpu, b0: Bus, c1: Cpu, b1: Bus, r: u8) -> bool {
    &&& b1.wf()
    &&& exists|v: u8| c1 == #[trigger] read_op(ReadOp::Cmp, past_operand(c0, Mode::Abs), v)
    &&& fetch_plain(Mode::Abs, c0, b0) && plain(b0, ea_of(Mode::Abs, c0, b0)) ==> c1 == read_op(ReadOp::Cmp, past_operand(c0, Mode::Abs), b0.peek(ea_of(Mode::Abs, c0, b0))) && b1 == b0
    &&& r == 0
}

/// CMP absolute,X: the CPU and bus after it from `c0`/`b0` (PC past the
/// opcode), and its extra cycles `r`.
pub open spec fn cmp_absx_effect(c0: Cpu, b0: Bus, c1: Cpu, b1: Bus, r: u8) -> bool {
    &&& b1.wf()
    &&& exists|v: u8| c1 == #[trigger] read_op(ReadOp::Cmp, past_operand(c0, Mode::Absx), v)
    &&& fetch_plain(Mode::Absx, c0, b0) && plain(b0, ea_of(Mode::Absx, c0, b0)) ==> c1 == read_op(ReadOp::Cmp, past_operand(c0, Mode::Absx), b0.peek(ea_of(Mode::Absx, c0, b0))) && b1 == b0 && r == (if crossed(Mode::Absx, c0, b0) { 1u8 } else { 0u8 })
    &&& r <= 1
}

/// CMP absolute,Y: the CPU and bus after it from `c0`/`b0` (PC past the
/// opcode), and its extra cycles `r`.
pub open spec fn cmp_absy_effect(c0: Cpu, b0: Bus, c1: Cpu, b1: Bus, r: u8) -> bool {
    &&& b1.wf()
    &&& exists|v: u8| c1 == #[trigger] read_op(ReadOp::Cmp, past_operand(c0, Mode::Absy), v)
    &&& fetch_plain(Mode::Absy, c0, b0) && plain(b0, ea_of(Mode::Absy, c0, b0)) ==> c1 == read_op(ReadOp::Cmp, past_operand(c0, Mode::Absy), b0.peek(ea_of(Mode::Absy, c0, b0))) && b1 == b0 && r == (if crossed(Mode::Absy, c0, b0) { 1u8 } else { 0u8 })
    &&& r <= 1
}

/// CMP immediate: the CPU and bus after it from `c0`/`b0` (PC past the
/// opcode), and its extra cycles `r`.
pub open spec fn cmp_imm_effect(c0: Cpu, b0: Bus, c1: Cpu, b1: Bus, r: u8) -> bool {
    &&& b1.wf()
    &&& exists|v: u8| c1 == #[trigger] read_op(ReadOp::Cmp, past_operand(c0, Mode::Imm), v)
    &&& fetch_plain(Mode::Imm, c0, b0) ==> c1 == read_op(ReadOp::Cmp, past_operand(c0, Mode::Imm), b0.peek(ea_of(Mode::Imm, c0, b0))) && b1 == b0
    &&& r == 0
}

/// CMP (zero page): the CPU and bus after it from `c0`/`b0` (PC past the
/// opcode), and its extra cycles `r`.
pub open spec fn cmp_ind_zp_effect(c0: Cpu, b0: Bus, c1: Cpu, b1: Bus, r: u8) -> bool {
    &&& b1.wf()
    &&& exists|v: u8| c1 == #[trigger] read_op(ReadOp::Cmp, past_operand(c0, Mode::IndZp), v)
    &&& fetch_plain(Mode::IndZp, c0, b0) && plain(b0, ea_of(Mode::IndZp, c0, b0)) ==> c1 == read_op(ReadOp::Cmp, past_operand(c0, Mode::IndZp), b0.peek(ea_of(Mode::IndZp, c0, b0))) && b1 == b0
    &&& r == 0
}

/// CMP (zero page,X): the CPU and bus after it from `c0`/`b0` (PC past the
/// opcode), and its extra cycles `r`.
pub open spec fn cmp_indx_effect(c0: Cpu, b0: Bus, c1: Cpu, b1: Bus, r: u8) -> bool {
    &&& b1.wf()
    &&& exists|v: u8| c1 == #[trigger] read_op(ReadOp::Cmp, past_operand(c0, Mode::Indx), v)
    &&& fetch_plain(Mode::Indx, c0, b0) && plain(b0, ea_of(Mode::Indx, c0, b0)) ==> c1 == read_op(ReadOp::Cmp, past_operand(c0, Mode::Indx), b0.peek(ea_of(Mode::Indx, c0, b0))) && b1 == b0
    &&& r == 0
}

/// CMP (zero page),Y: the CPU and bus after it from `c0`/`b0` (PC past the
/// opcode), and its extra cycles `r`.
pub open spec fn cmp_indy_effect(c0: Cpu, b0: Bus, c1: Cpu, b1: Bus, r: u8) -> bool {
    &&& b1.wf()
    &&& exists|v: u8| c1 == #[trigger] read_op(ReadOp::Cmp, past_operand(c0, Mode::Indy), v)
    &&& fetch_plain(Mode::Indy, c0, b0) && plain(b0, ea_of(Mode::Indy, c0, b0)) ==> c1 == read_op(ReadOp::Cmp, past_operand(c0, Mode::Indy), b0.peek(ea_of(Mode::Indy, c0, b0))) && b1 == b0 && r == (if crossed(Mode::Indy, c0, b0) { 1u8 } else { 0u8 })
    &&& r <= 1
}

/// CMP zero page: the CPU and bus after it from `c0`/`b0` (PC past the
/// opcode), and its extra cycles `r`.
pub open spec fn cmp_zp_effect(c0: Cpu, b0: Bus, c1: Cpu, b1: Bus, r: u8) -> bool {
    &&& b1.wf()
    &&& exists|v: u8| c1 == #[trigger] read_op(ReadOp::Cmp, past_operand(c0, Mode::Zp), v)
    &&& fetch_plain(Mode::Zp, c0, b0) && plain(b0, ea_of(Mode::Zp, c0, b0)) ==> c1 == read_op(ReadOp::Cmp, past_operand(c0, Mode::Zp), b0.peek(ea_of(Mode::Zp, c0, b0))) && b1 == b0
    &&& r == 0
}

/// CMP zero page,X: the CPU and bus after it from `c0`/`b0` (PC past the
/// opcode), and its extra cycles `r`.
pub open spec fn cmp_zpx_effect(c0: Cpu, b0: Bus, c1: Cpu, b1: Bus, r: u8) -> bool {
    &&& b1.wf()
    &&& exists|v: u8| c1 == #[trigger] read_op(ReadOp::Cmp, past_operand(c0, Mode::Zpx), v)
    &&& fetch_plain(Mode::Zpx, c0, b0) && plain(b0, ea_of(Mode::Zpx, c0, b0)) ==> c1 == read_op(ReadOp::Cmp, past_operand(c0, Mode::Zpx), b0.peek(ea_of(Mode::Zpx, c0, b0))) && b1 == b0
    &&& r == 0
}

/// CPX absolute: the CPU and bus after it from `c0`/`b0` (PC past the
/// opcode), and its extra cycles `r`.
pub open spec fn cpx_abs_effect(c0: Cpu, b0: Bus, c1: Cpu, b1: Bus, r: u8) -> bool {
    &&& b1.wf()
    &&& exists|v: u8| c1 == #[trigger] read_op(ReadOp::Cpx, past_operand(c0, Mode::Abs), v)
    &&& fetch_plain(Mode::Abs, c0, b0) && plain(b0, ea_of(Mode::Abs, c0, b0)) ==> c1 == read_op(ReadOp::Cpx, past_operand(c0, Mode::Abs), b0.peek(ea_of(Mode::Abs, c0, b0))) && b1 == b0
    &&& r == 0
}

/// CPX immediate: the CPU and bus after it from `c0`/`b0` (PC past the
/// opcode), and its extra cycles `r`.
pub open spec fn cpx_imm_effect(c0: Cpu, b0: Bus, c1: Cpu, b1: Bus, r: u8) -> bool {
    &&& b1.wf()
    &&& exists|v: u8| c1 == #[trigger] read_op(ReadOp::Cpx, past_operand(c0, Mode::Imm), v)
    &&& fetch_plain(Mode::Imm, c0, b0) ==> c1 == read_op(ReadOp::Cpx, past_operand(c0, Mode::Imm), b0.peek(ea_of(Mode::Imm, c0, b0))) && b1 == b0
    &&& r == 0
}

/// CPX zero page: the CPU and bus after it from `c0`/`b0` (PC past the
/// opcode), and its extra cycles `r`.
pub open spec fn cpx_zp_effect(c0: Cpu, b0: Bus, c1: Cpu, b1: Bus, r: u8) -> bool {
    &&& b1.wf()
    &&& exists|v: u8| c1 == #[trigger] read_op(ReadOp::Cpx, past_operand(c0, Mode::Zp), v)
    &&& fetch_plain(Mode::Zp, c0, b0) && plain(b0, ea_of(Mode::Zp, c0, b0)) ==> c1 == read_op(ReadOp::Cpx, past_operand(c0, Mode::Zp), b0.peek(ea_of(Mode::Zp, c0, b0))) && b1 == b0
    &&& r == 0
}

/// CPY absolute: the CPU and bus after it from `c0`/`b0` (PC past the
/// opcode), and its extra cycles `r`.
pub open spec fn cpy_abs_effect(c0: Cpu, b0: Bus, c1: Cpu, b1: Bus, r: u8) -> bool {
    &&& b1.wf()
    &&& exists|v: u8| c1 == #[trigger] read_op(ReadOp::Cpy, past_operand(c0, Mode::Abs), v)
    &&& fetch_plain(Mode::Abs, c0, b0) && plain(b0, ea_of(Mode::Abs, c0, b0)) ==> c1 == read_op(ReadOp::Cpy, past_operand(c0, Mode::Abs), b0.peek(ea_of(Mode::Abs, c0, b0))) && b1 == b0
    &&& r == 0
}

/// CPY immediate: the CPU and bus after it from `c0`/`b0` (PC past the
/// opcode), and its extra cycles `r`.
pub open spec fn cpy_imm_effect(c0: Cpu, b0: Bus, c1: Cpu, b1: Bus, r: u8) -> bool {
    &&& b1.wf()
    &&& exists|v: u8| c1 == #[trigger] read_op(ReadOp::Cpy, past_operand(c0, Mode::Imm), v)
    &&& fetch_plain(Mode::Imm, c0, b0) ==> c1 == read_op(ReadOp::Cpy, past_operand(c0, Mode::Imm), b0.peek(ea_of(Mode::Imm, c0, b0))) && b1 == b0
    &&& r == 0
}

/// CPY zero page: the CPU and bus after it from `c0`/`b0` (PC past the
/// opcode), and its extra cycles `r`.
pub open spec fn cpy_zp_effect(c0: Cpu, b0: Bus, c1: Cpu, b1: Bus, r: u8) -> bool {
    &&& b1.wf()
    &&& exists|v: u8| c1 == #[trigger] read_op(ReadOp::Cpy, past_operand(c0, Mode::Zp), v)
    &&& fetch_plain(Mode::Zp, c0, b0) && plain(b0, ea_of(Mode::Zp, c0, b0)) ==> c1 == read_op(ReadOp::Cpy, past_operand(c0, Mode::Zp), b0.peek(ea_of(Mode::Zp, c0, b0))) && b1 == b0
    &&& r == 0
}

/// DCP absolute: the CPU and bus after it from `c0`/`b0` (PC past the
/// opcode), and its extra cycles `r`.
pub open spec fn dcp_abs_effect(c0: Cpu, b0: Bus, c1: Cpu, b1: Bus, r: u8) -> bool {
    &&& b1.wf()
    &&& exists|v: u8| c1 == #[trigger] rmw_op(RmwOp::Dcp, past_operand(c0, Mode::Abs), v).0
    &&& fetch_plain(Mode::Abs, c0, b0) && plain(b0, ea_of(Mode::Abs, c0, b0)) && plain_w(ea_of(Mode::Abs, c0, b0)) ==> c1 == rmw_op(RmwOp::Dcp, past_operand(c0, Mode::Abs), b0.peek(ea_of(Mode::Abs, c0, b0))).0 && b1.stored(b0, ea_of(Mode::Abs, c0, b0), rmw_op(RmwOp::Dcp, past_operand(c0, Mode::Abs), b0.peek(ea_of(Mode::Abs, c0, b0))).1)
    &&& r == 0
}

/// DCP absolute,X: the CPU and bus after it from `c0`/`b0` (PC past the
/// opcode), and its extra cycles `r`.
pub open spec fn dcp_absx_effect(c0: Cpu, b0: Bus, c1: Cpu, b1: Bus, r: u8) -> bool {
    &&& b1.wf()
    &&& exists|v: u8| c1 == #[trigger] rmw_op(RmwOp::Dcp, past_operand(c0, Mode::Absx), v).0
    &&& fetch_plain(Mode::Absx, c0, b0) && plain(b0, ea_of(Mode::Absx, c0, b0)) && plain_w(ea_of(Mode::Absx, c0, b0)) ==> c1 == rmw_op(RmwOp::Dcp, past_operand(c0, Mode::Absx), b0.peek(ea_of(Mode::Absx, c0, b0))).0 && b1.stored(b0, ea_of(Mode::Absx, c0, b0), rmw_op(RmwOp::Dcp, past_operand(c0, Mode::Absx), b0.peek(ea_of(Mode::Absx, c0, b0))).1)
    &&& r == 0
}

/// DCP absolute,Y: the CPU and bus after it from `c0`/`b0` (PC past the
/// opcode), and its extra cycles `r`.
pub open spec fn dcp_absy_effect(c0: Cpu, b0: Bus, c1: Cpu, b1: Bus, r: u8) -> bool {
    &&& b1.wf()
    &&& exists|v: u8| c1 == #[trigger] rmw_op(RmwOp::Dcp, past_operand(c0, Mode::Absy), v).0
    &&& fetch_plain(Mode::Absy, c0, b0) && plain(b0, ea_of(Mode::Absy, c0, b0)) && plain_w(ea_of(Mode::Absy, c0, b0)) ==> c1 == rmw_op(RmwOp::Dcp, past_operand(c0, Mode::Absy), b0.peek(ea_of(Mode::Absy, c0, b0))).0 && b1.stored(b0, ea_of(Mode::Absy, c0, b0), rmw_op(RmwOp::Dcp, past_operand(c0, Mode::Absy), b0.peek(ea_of(Mode::Absy, c0, b0))).1)
    &&& r == 0
}

/// DCP (zero page,X): the CPU and bus after it from `c0`/`b0` (PC past the
/// opcode), and its extra cycles `r`.
pub open spec fn dcp_indx_effect(c0: Cpu, b0: Bus, c1: Cpu, b1: Bus, r: u8) -> bool {
    &&& b1.wf()
    &&& exists|v: u8| c1 == #[trigger] rmw_op(RmwOp::Dcp, past_operand(c0, Mode::Indx), v).0
    &&& fetch_plain(Mode::Indx, c0, b0) && plain(b0, ea_of(Mode::Indx, c0, b0)) && plain_w(ea_of(Mode::Indx, c0, b0)) ==> c1 == rmw_op(RmwOp::Dcp, past_operand(c0, Mode::Indx), b0.peek(ea_of(Mode::Indx, c0, b0))).0 && b1.stored(b0, ea_of(Mode::Indx, c0, b0), rmw_op(RmwOp::Dcp, past_operand(c0, Mode::Indx), b0.peek(ea_of(Mode::Indx, c0, b0))).1)
    &&& r == 0
}

/// DCP (zero page),Y: the CPU and bus after it from `c0`/`b0` (PC past the
/// opcode), and its extra cycles `r`.
pub open spec fn dcp_indy_effect(c0: Cpu, b0: Bus, c1: Cpu, b1: Bus, r: u8) -> bool {
    &&& b1.wf()
    &&& exists|v: u8| c1 == #[trigger] rmw_op(RmwOp::Dcp, past_operand(c0, Mode::Indy), v).0
    &&& fetch_plain(Mode::Indy, c0, b0) && plain(b0, ea_of(Mode::Indy, c0, b0)) && plain_w(ea_of(Mode::Indy, c0, b0)) ==> c1 == rmw_op(RmwOp::Dcp, past_operand(c0, Mode::Indy), b0.peek(ea_of(Mode::Indy, c0, b0))).0 && b1.stored(b0, ea_of(Mode::Indy, c0, b0), rmw_op(RmwOp::Dcp, past_operand(c0, Mode::Indy), b0.peek(ea_of(Mode::Indy, c0, b0))).1)
    &&& r == 0
}

/// DCP zero page: the CPU and bus after it from `c0`/`b0` (PC past the
/// opcode), and its extra cycles `r`.
pub open spec fn dcp_zp_effect(c0: Cpu, b0: Bus, c1: Cpu, b1: Bus, r: u8) -> bool {
    &&& b1.wf()
    &&& exists|v: u8| c1 == #[trigger] rmw_op(RmwOp::Dcp, past_operand(c0, Mode::Zp), v).0
    &&& fetch_plain(Mode::Zp, c0, b0) && plain(b0, ea_of(Mode::Zp, c0, b0)) && plain_w(ea_of(Mode::Zp, c0, b0)) ==> c1 == rmw_op(RmwOp::Dcp, past_operand(c0, Mode::Zp), b0.peek(ea_of(Mode::Zp, c0, b0))).0 && b1.stored(b0, ea_of(Mode::Zp, c0, b0), rmw_op(RmwOp::Dcp, past_operand(c0, Mode::Zp), b0.peek(ea_of(Mode::Zp, c0, b0))).1)
    &&& r == 0
}

/// DCP zero page,X: the CPU and bus after it from `c0`/`b0` (PC past the
/// opcode), and its extra cycles `r`.
pub open spec fn dcp_zpx_effect(c0: Cpu, b0: Bus, c1: Cpu, b1: Bus, r: u8) -> bool {
    &&& b1.wf()
    &&& exists|v: u8| c1 == #[trigger] rmw_op(RmwOp::Dcp, past_operand(c0, Mode::Zpx), v).0
    &&& fetch_plain(Mode::Zpx, c0, b0) && plain(b0, ea_of(Mode::Zpx, c0, b0)) && plain_w(ea_of(Mode::Zpx, c0, b0)) ==> c1 == rmw_op(RmwOp::Dcp, past_operand(c0, Mode::Zpx), b0.peek(ea_of(Mode::Zpx, c0, b0))).0 && b1.stored(b0, ea_of(Mode::Zpx, c0, b0), rmw_op(RmwOp::Dcp, past_operand(c0, Mode::Zpx), b0.peek(ea_of(Mode::Zpx, c0, b0))).1)
    &&& r == 0
}

/// DEC absolute: the CPU and bus after it from `c0`/`b0` (PC past the
/// opcode), and its extra cycles `r`.
pub open spec fn dec_abs_effect(c0: Cpu, b0: Bus, c1: Cpu, b1: Bus, r: u8) -> bool {
    &&& b1.wf()
    &&& exists|v: u8| c1 == #[trigger] rmw_op(RmwOp::Dec, past_operand(c0, Mode::Abs), v).0
    &&& fetch_plain(Mode::Abs, c0, b0) && plain(b0, ea_of(Mode::Abs, c0, b0)) && plain_w(ea_of(Mode::Abs, c0, b0)) ==> c1 == rmw_op(RmwOp::Dec, past_operand(c0, Mode::Abs), b0.peek(ea_of(Mode::Abs, c0, b0))).0 && b1.stored(b0, ea_of(Mode::Abs, c0, b0), rmw_op(RmwOp::Dec, past_operand(c0, Mode::Abs), b0.peek(ea_of(Mode::Abs, c0, b0))).1)
    &&& r == 0
}

/// DEC absolute,X: the CPU and bus after it from `c0`/`b0` (PC past the
/// opcode), and its extra cycles `r`.
pub open spec fn dec_absx_effect(c0: Cpu, b0: Bus, c1: Cpu, b1: Bus, r: u8) -> bool {
    &&& b1.wf()
    &&& exists|v: u8| c1 == #[trigger] rmw_op(RmwOp::Dec, past_operand(c0, Mode::Absx), v).0
    &&& fetch_plain(Mode::Absx, c0, b0) && plain(b0, ea_of(Mode::Absx, c0, b0)) && plain_w(ea_of(Mode::Absx, c0, b0)) ==> c1 == rmw_op(RmwOp::Dec, past_operand(c0, Mode::Absx), b0.peek(ea_of(Mode::Absx, c0, b0))).0 && b1.stored(b0, ea_of(Mode::Absx, c0, b0), rmw_op(RmwOp::Dec, past_operand(c0, Mode::Absx), b0.peek(ea_of(Mode::Absx, c0, b0))).1)
    &&& r == 0
}

/// DEC zero page: the CPU and bus after it from `c0`/`b0` (PC past the
/// opcode), and its extra cycles `r`.
pub open spec fn dec_zp_effect(c0: Cpu, b0: Bus, c1: Cpu, b1: Bus, r: u8) -> bool {
    &&& b1.wf()
    &&& exists|v: u8| c1 == #[trigger] rmw_op(RmwOp::Dec, past_operand(c0, Mode::Zp), v).0
    &&& fetch_plain(Mode::Zp, c0, b0) && plain(b0, ea_of(Mode::Zp, c0, b0)) && plain_w(ea_of(Mode::Zp, c0, b0)) ==> c1 == rmw_op(RmwOp::Dec, past_operand(c0, Mode::Zp), b0.peek(ea_of(Mode::Zp, c0, b0))).0 && b1.stored(b0, ea_of(Mode::Zp, c0, b0), rmw_op(RmwOp::Dec, past_operand(c0, Mode::Zp), b0.peek(ea_of(Mode::Zp, c0, b0))).1)
    &&& r == 0
}

/// DEC zero page,X: the CPU and bus after it from `c0`/`b0` (PC past the
/// opcode), and its extra cycles `r`.
pub open spec fn dec_zpx_effect(c0: Cpu, b0: Bus, c1: Cpu, b1: Bus, r: u8) -> bool {
    &&& b1.wf()
    &&& exists|v: u8| c1 == #[trigger] rmw_op(RmwOp::Dec, past_operand(c0, Mode::Zpx), v).0
    &&& fetch_plain(Mode::Zpx, c0, b0) && plain(b0, ea_of(Mode::Zpx, c0, b0)) && plain_w(ea_of(Mode::Zpx, c0, b0)) ==> c1 == rmw_op(RmwOp::Dec, past_operand(c0, Mode::Zpx), b0.peek(ea_of(Mode::Zpx, c0, b0))).0 && b1.stored(b0, ea_of(Mode::Zpx, c0, b0), rmw_op(RmwOp::Dec, past_operand(c0, Mode::Zpx), b0.peek(ea_of(Mode::Zpx, c0, b0))).1)
    &&& r == 0
}

/// EOR absolute: the CPU and bus after it from `c0`/`b0` (PC past the
/// opcode), and its extra cycles `r`.
pub open spec fn eor_abs_effect(c0: Cpu, b0: Bus, c1: Cpu, b1: Bus, r: u8) -> bool {
    &&& b1.wf()
    &&& exists|v: u8| c1 == #[trigger] read_op(ReadOp::Eor, past_operand(c0, Mode::Abs), v)
    &&& fetch_plain(Mode::Abs, c0, b0) && plain(b0, ea_of(Mode::Abs, c0, b0)) ==> c1 == read_op(ReadOp::Eor, past_operand(c0, Mode::Abs), b0.peek(ea_of(Mode::Abs, c0, b0))) && b1 == b0
    &&& r == 0
}

/// EOR absolute,X: the CPU and bus after it from `c0`/`b0` (PC past the
/// opcode), and its extra cycles `r`.
pub open spec fn eor_absx_effect(c0: Cpu, b0: Bus, c1: Cpu, b1: Bus, r: u8) -> bool {
    &&& b1.wf()
    &&& exists|v: u8| c1 == #[trigger] read_op(ReadOp::Eor, past_operand(c0, Mode::Absx), v)
    &&& fetch_plain(Mode::Absx, c0, b0) && plain(b0, ea_of(Mode::Absx, c0, b0)) ==> c1 == read_op(ReadOp::Eor, past_operand(c0, Mode::Absx), b0.peek(ea_of(Mode::Absx, c0, b0))) && b1 == b0 && r == (if crossed(Mode::Absx, c0, b0) { 1u8 } else { 0u8 })
    &&& r <= 1
}

/// EOR absolute,Y: the CPU and bus after it from `c0`/`b0` (PC past the
/// opcode), and its extra cycles `r`.
pub open spec fn eor_absy_effect(c0: Cpu, b0: Bus, c1: Cpu, b1: Bus, r: u8) -> bool {
    &&& b1.wf()
    &&& exists|v: u8| c1 == #[trigger] read_op(ReadOp::Eor, past_operand(c0, Mode::Absy), v)
    &&& fetch_plain(Mode::Absy, c0, b0) && plain(b0, ea_of(Mode::Absy, c0, b0)) ==> c1 == read_op(ReadOp::Eor, past_operand(c0, Mode::Absy), b0.peek(ea_of(Mode::Absy, c0, b0))) && b1 == b0 && r == (if crossed(Mode::Absy, c0, b0) { 1u8 } else { 0u8 })
    &&& r <= 1
}

/// EOR immediate: the CPU and bus after it from `c0`/`b0` (PC past the
/// opcode), and its extra cycles `r`.
pub open spec fn eor_imm_effect(c0: Cpu, b0: Bus, c1: Cpu, b1: Bus, r: u8) -> bool {
    &&& b1.wf()
    &&& exists|v: u8| c1 == #[trigger] read_op(ReadOp::Eor, past_operand(c0, Mode::Imm), v)
    &&& fetch_plain(Mode::Imm, c0, b0) ==> c1 == read_op(ReadOp::Eor, past_operand(c0, Mode::Imm), b0.peek(ea_of(Mode::Imm, c0, b0))) && b1 == b0
    &&& r == 0
}

/// EOR (zero page): the CPU and bus after it from `c0`/`b0` (PC past the
/// opcode), and its extra cycles `r`.
pub open spec fn eor_ind_zp_effect(c0: Cpu, b0: Bus, c1: Cpu, b1: Bus, r: u8) -> bool {
    &&& b1.wf()
    &&& exists|v: u8| c1 == #[trigger] read_op(ReadOp::Eor, past_operand(c0, Mode::IndZp), v)
    &&& fetch_plain(Mode::IndZp, c0, b0) && plain(b0, ea_of(Mode::IndZp, c0, b0)) ==> c1 == read_op(ReadOp::Eor, past_operand(c0, Mode::IndZp), b0.peek(ea_of(Mode::IndZp, c0, b0))) && b1 == b0
    &&& r == 0
}

/// EOR (zero page,X): the CPU and bus after it from `c0`/`b0` (PC past the
/// opcode), and its extra cycles `r`.
pub open spec fn eor_indx_effect(c0: Cpu, b0: Bus, c1: Cpu, b1: Bus, r: u8) -> bool {
    &&& b1.wf()
    &&& exists|v: u8| c1 == #[trigger] read_op(ReadOp::Eor, past_operand(c0, Mode::Indx), v)
    &&& fetch_plain(Mode::Indx, c0, b0) && plain(b0, ea_of(Mode::Indx, c0, b0)) ==> c1 == read_op(ReadOp::Eor, past_operand(c0, Mode::Indx), b0.peek(ea_of(Mode::Indx, c0, b0))) && b1 == b0
    &&& r == 0
}

/// EOR (zero page),Y: the CPU and bus after it from `c0`/`b0` (PC past the
/// opcode), and its extra cycles `r`.
pub open spec fn eor_indy_effect(c0: Cpu, b0: Bus, c1: Cpu, b1: Bus, r: u8) -> bool {
    &&& b1.wf()
    &&& exists|v: u8| c1 == #[trigger] read_op(ReadOp::Eor, past_operand(c0, Mode::Indy), v)
    &&& fetch_plain(Mode::Indy, c0, b0) && plain(b0, ea_of(Mode::Indy, c0, b0)) ==> c1 == read_op(ReadOp::Eor, past_operand(c0, Mode::Indy), b0.peek(ea_of(Mode::Indy, c0, b0))) && b1 == b0 && r == (if crossed(Mode::Indy, c0, b0) { 1u8 } else { 0u8 })
    &&& r <= 1
}

/// EOR zero page: the CPU and bus after it from `c0`/`b0` (PC past the
/// opcode), and its extra cycles `r`.
pub open spec fn eor_zp_effect(c0: Cpu, b0: Bus, c1: Cpu, b1: Bus, r: u8) -> bool {
    &&& b1.wf()
    &&& exists|v: u8| c1 == #[trigger] read_op(ReadOp::Eor, past_operand(c0, Mode::Zp), v)
    &&& fetch_plain(Mode::Zp, c0, b0) && plain(b0, ea_of(Mode::Zp, c0, b0)) ==> c1 == read_op(ReadOp::Eor, past_operand(c0, Mode::Zp), b0.peek(ea_of(Mode::Zp, c0, b0))) && b1 == b0
    &&& r == 0
}

/// EOR zero page,X: the CPU and bus after it from `c0`/`b0` (PC past the
/// opcode), and its extra cycles `r`.
pub open spec fn eor_zpx_effect(c0: Cpu, b0: Bus, c1: Cpu, b1: Bus, r: u8) -> bool {
    &&& b1.wf()
    &&& exists|v: u8| c1 == #[trigger] read_op(ReadOp::Eor, past_operand(c0, Mode::Zpx), v)
    &&& fetch_plain(Mode::Zpx, c0, b0) && plain(b0, ea_of(Mode::Zpx, c0, b0)) ==> c1 == read_op(ReadOp::Eor, past_operand(c0, Mode::Zpx), b0.peek(ea_of(Mode::Zpx, c0, b0))) && b1 == b0
    &&& r == 0
}

/// INC absolute: the CPU and bus after it from `c0`/`b0` (PC past the
/// opcode), and its extra cycles `r`.
pub open spec fn inc_abs_effect(c0: Cpu, b0: Bus, c1: Cpu, b1: Bus, r: u8) -> bool {
    &&& b1.wf()
    &&& exists|v: u8| c1 == #[trigger] rmw_op(RmwOp::Inc, past_operand(c0, Mode::Abs), v).0
    &&& fetch_plain(Mode::Abs, c0, b0) && plain(b0, ea_of(Mode::Abs, c0, b0)) && plain_w(ea_of(Mode::Abs, c0, b0)) ==> c1 == rmw_op(RmwOp::Inc, past_operand(c0, Mode::Abs), b0.peek(ea_of(Mode::Abs, c0, b0))).0 && b1.stored(b0, ea_of(Mode::Abs, c0, b0), rmw_op(RmwOp::Inc, past_operand(c0, Mode::Abs), b0.peek(ea_of(Mode::Abs, c0, b0))).1)
    &&& r == 0
}

/// INC absolute,X: the CPU and bus after it from `c0`/`b0` (PC past the
/// opcode), and its extra cycles `r`.
pub open spec fn inc_absx_effect(c0: Cpu, b0: Bus, c1: Cpu, b1: Bus, r: u8) -> bool {
    &&& b1.wf()
    &&& exists|v: u8| c1 == #[trigger] rmw_op(RmwOp::Inc, past_operand(c0, Mode::Absx), v).0
    &&& fetch_plain(Mode::Absx, c0, b0) && plain(b0, ea_of(Mode::Absx, c0, b0)) && plain_w(ea_of(Mode::Absx, c0, b0)) ==> c1 == rmw_op(RmwOp::Inc, past_operand(c0, Mode::Absx), b0.peek(ea_of(Mode::Absx, c0, b0))).0 && b1.stored(b0, ea_of(Mode::Absx, c0, b0), rmw_op(RmwOp::Inc, past_operand(c0, Mode::Absx), b0.peek(ea_of(Mode::Absx, c0, b0))).1)
    &&& r == 0
}

/// INC zero page: the CPU and bus after it from `c0`/`b0` (PC past the
/// opcode), and its extra cycles `r`.
pub open spec fn inc_zp_effect(c0: Cpu, b0: Bus, c1: Cpu, b1: Bus, r: u8) -> bool {
    &&& b1.wf()
    &&& exists|v: u8| c1 == #[trigger] rmw_op(RmwOp::Inc, past_operand(c0, Mode::Zp), v).0
    &&& fetch_plain(Mode::Zp, c0, b0) && plain(b0, ea_of(Mode::Zp, c0, b0)) && plain_w(ea_of(Mode::Zp, c0, b0)) ==> c1 == rmw_op(RmwOp::Inc, past_operand(c0, Mode::Zp), b0.peek(ea_of(Mode::Zp, c0, b0))).0 && b1.stored(b0, ea_of(Mode::Zp, c0, b0), rmw_op(RmwOp::Inc, past_operand(c0, Mode::Zp), b0.peek(ea_of(Mode::Zp, c0, b0))).1)
    &&& r == 0
}

/// INC zero page,X: the CPU and bus after it from `c0`/`b0` (PC past the
/// opcode), and its extra cycles `r`.
pub open spec fn inc_zpx_effect(c0: Cpu, b0: Bus, c1: Cpu, b1: Bus, r: u8) -> bool {
    &&& b1.wf()
    &&& exists|v: u8| c1 == #[trigger] rmw_op(RmwOp::Inc, past_operand(c0, Mode::Zpx), v).0
    &&& fetch_plain(Mode::Zpx, c0, b0) && plain(b0, ea_of(Mode::Zpx, c0, b0)) && plain_w(ea_of(Mode::Zpx, c0, b0)) ==> c1 == rmw_op(RmwOp::Inc, past_operand(c0, Mode::Zpx), b0.peek(ea_of(Mode::Zpx, c0, b0))).0 && b1.stored(b0, ea_of(Mode::Zpx, c0, b0), rmw_op(RmwOp::Inc, past_operand(c0, Mode::Zpx), b0.peek(ea_of(Mode::Zpx, c0, b0))).1)
    &&& r == 0
}

/// ISC absolute: the CPU and bus after it from `c0`/`b0` (PC past the
/// opcode), and its extra cycles `r`.
pub open spec fn isc_abs_effect(c0: Cpu, b0: Bus, c1: Cpu, b1: Bus, r: u8) -> bool {
    &&& b1.wf()
    &&& exists|v: u8| c1 == #[trigger] rmw_op(RmwOp::Isc, past_operand(c0, Mode::Abs), v).0
    &&& fetch_plain(Mode::Abs, c0, b0) && plain(b0, ea_of(Mode::Abs, c0, b0)) && plain_w(ea_of(Mode::Abs, c0, b0)) ==> c1 == rmw_op(RmwOp::Isc, past_operand(c0, Mode::Abs), b0.peek(ea_of(Mode::Abs, c0, b0))).0 && b1.stored(b0, ea_of(Mode::Abs, c0, b0), rmw_op(RmwOp::Isc, past_operand(c0, Mode::Abs), b0.peek(ea_of(Mode::Abs, c0, b0))).1)
    &&& r == 0
}

/// ISC absolute,X: the CPU and bus after it from `c0`/`b0` (PC past the
/// opcode), and its extra cycles `r`.
pub open spec fn isc_absx_effect(c0: Cpu, b0: Bus, c1: Cpu, b1: Bus, r: u8) -> bool {
    &&& b1.wf()
    &&& exists|v: u8| c1 == #[trigger] rmw_op(RmwOp::Isc, past_operand(c0, Mode::Absx), v).0
    &&& fetch_plain(Mode::Absx, c0, b0) && plain(b0, ea_of(Mode::Absx, c0, b0)) && plain_w(ea_of(Mode::Absx, c0, b0)) ==> c1 == rmw_op(RmwOp::Isc, past_operand(c0, Mode::Absx), b0.peek(ea_of(Mode::Absx, c0, b0))).0 && b1.stored(b0, ea_of(Mode::Absx, c0, b0), rmw_op(RmwOp::Isc, past_operand(c0, Mode::Absx), b0.peek(ea_of(Mode::Absx, c0, b0))).1)
    &&& r == 0
}

/// ISC absolute,Y: the CPU and bus after it from `c0`/`b0` (PC past the
/// opcode), and its extra cycles `r`.
pub open spec fn isc_absy_effect(c0: Cpu, b0: Bus, c1: Cpu, b1: Bus, r: u8) -> bool {
    &&& b1.wf()
    &&& exists|v: u8| c1 == #[trigger] rmw_op(RmwOp::Isc, past_operand(c0, Mode::Absy), v).0
    &&& fetch_plain(Mode::Absy, c0, b0) && plain(b0, ea_of(Mode::Absy, c0, b0)) && plain_w(ea_of(Mode::Absy, c0, b0)) ==> c1 == rmw_op(RmwOp::Isc, past_operand(c0, Mode::Absy), b0.peek(ea_of(Mode::Absy, c0, b0))).0 && b1.stored(b0, ea_of(Mode::Absy, c0, b0), rmw_op(RmwOp::Isc, past_operand(c0, Mode::Absy), b0.peek(ea_of(Mode::Absy, c0, b0))).1)
    &&& r == 0
}

/// ISC (zero page,X): the CPU and bus after it from `c0`/`b0` (PC past the
/// opcode), and its extra cycles `r`.
pub open spec fn isc_indx_effect(c0: Cpu, b0: Bus, c1: Cpu, b1: Bus, r: u8) -> bool {
    &&& b1.wf()
    &&& exists|v: u8| c1 == #[trigger] rmw_op(RmwOp::Isc, past_operand(c0, Mode::Indx), v).0
    &&& fetch_plain(Mode::Indx, c0, b0) && plain(b0, ea_of(Mode::Indx, c0, b0)) && plain_w(ea_of(Mode::Indx, c0, b0)) ==> c1 == rmw_op(RmwOp::Isc, past_operand(c0, Mode::Indx), b0.peek(ea_of(Mode::Indx, c0, b0))).0 && b1.stored(b0, ea_of(Mode::Indx, c0, b0), rmw_op(RmwOp::Isc, past_operand(c0, Mode::Indx), b0.peek(ea_of(Mode::Indx, c0, b0))).1)
    &&& r == 0
}

/// ISC (zero page),Y: the CPU and bus after it from `c0`/`b0` (PC past the
/// opcode), and its extra cycles `r`.
pub open spec fn isc_indy_effect(c0: Cpu, b0: Bus, c1: Cpu, b1: Bus, r: u8) -> bool {
    &&& b1.wf()
    &&& exists|v: u8| c1 == #[trigger] rmw_op(RmwOp::Isc, past_operand(c0, Mode::Indy), v).0
    &&& fetch_plain(Mode::Indy, c0, b0) && plain(b0, ea_of(Mode::Indy, c0, b0)) && plain_w(ea_of(Mode::Indy, c0, b0)) ==> c1 == rmw_op(RmwOp::Isc, past_operand(c0, Mode::Indy), b0.peek(ea_of(Mode::Indy, c0, b0))).0 && b1.stored(b0, ea_of(Mode::Indy, c0, b0), rmw_op(RmwOp::Isc, past_operand(c0, Mode::Indy), b0.peek(ea_of(Mode::Indy, c0, b0))).1)
    &&& r == 0
}

/// ISC zero page: the CPU and bus after it from `c0`/`b0` (PC past the
/// opcode), and its extra cycles `r`.
pub open spec fn isc_zp_effect(c0: Cpu, b0: Bus, c1: Cpu, b1: Bus, r: u8) -> bool {
    &&& b1.wf()
    &&& exists|v: u8| c1 == #[trigger] rmw_op(RmwOp::Isc, past_operand(c0, Mode::Zp), v).0
    &&& fetch_plain(Mode::Zp, c0, b0) && plain(b0, ea_of(Mode::Zp, c0, b0)) && plain_w(ea_of(Mode::Zp, c0, b0)) ==> c1 == rmw_op(RmwOp::Isc, past_operand(c0, Mode::Zp), b0.peek(ea_of(Mode::Zp, c0, b0))).0 && b1.stored(b0, ea_of(Mode::Zp, c0, b0), rmw_op(RmwOp::Isc, past_operand(c0, Mode::Zp), b0.peek(ea_of(Mode::Zp, c0, b0))).1)
    &&& r == 0
}

/// ISC zero page,X: the CPU and bus after it from `c0`/`b0` (PC past the
/// opcode), and its extra cycles `r`.
pub open spec fn isc_zpx_effect(c0: Cpu, b0: Bus, c1: Cpu, b1: Bus, r: u8) -> bool {
    &&& b1.wf()
    &&& exists|v: u8| c1 == #[trigger] rmw_op(RmwOp::Isc, past_operand(c0, Mode::Zpx), v).0
    &&& fetch_plain(Mode::Zpx, c0, b0) && plain(b0, ea_of(Mode::Zpx, c0, b0)) && plain_w(ea_of(Mode::Zpx, c0, b0)) ==> c1 == rmw_op(RmwOp::Isc, past_operand(c0, Mode::Zpx), b0.peek(ea_of(Mode::Zpx, c0, b0))).0 && b1.stored(b0, ea_of(Mode::Zpx, c0, b0), rmw_op(RmwOp::Isc, past_operand(c0, Mode::Zpx), b0.peek(ea_of(Mode::Zpx, c0, b0))).1)
    &&& r == 0
}

/// LAS: the CPU and bus after it from `c0`/`b0` (PC past the
/// opcode), and its extra cycles `r`.
pub open spec fn las_effect(c0: Cpu, b0: Bus, c1: Cpu, b1: Bus, r: u8) -> bool {
    &&& b1.wf()
    &&& exists|v: u8| c1 == #[trigger] read_op(ReadOp::Las, past_operand(c0, Mode::Absy), v)
    &&& fetch_plain(Mode::Absy, c0, b0) && plain(b0, ea_of(Mode::Absy, c0, b0)) ==> c1 == read_op(ReadOp::Las, past_operand(c0, Mode::Absy), b0.peek(ea_of(Mode::Absy, c0, b0))) && b1 == b0 && r == (if crossed(Mode::Absy, c0, b0) { 1u8 } else { 0u8 })
    &&& r <= 1
}

/// LAX absolute: the CPU and bus after it from `c0`/`b0` (PC past the
/// opcode), and its extra cycles `r`.
pub open spec fn lax_abs_effect(c0: Cpu, b0: Bus, c1: Cpu, b1: Bus, r: u8) -> bool {
    &&& b1.wf()
    &&& exists|v: u8| c1 == #[trigger] read_op(ReadOp::Lax, past_operand(c0, Mode::Abs), v)
    &&& fetch_plain(Mode::Abs, c0, b0) && plain(b0, ea_of(Mode::Abs, c0, b0)) ==> c1 == read_op(ReadOp::Lax, past_operand(c0, Mode::Abs), b0.peek(ea_of(Mode::Abs, c0, b0))) && b1 == b0
    &&& r == 0
}

/// LAX absolute,Y: the CPU and bus after it from `c0`/`b0` (PC past the
/// opcode), and its extra cycles `r`.
pub open spec fn lax_absy_effect(c0: Cpu, b0: Bus, c1: Cpu, b1: Bus, r: u8) -> bool {
    &&& b1.wf()
    &&& exists|v: u8| c1 == #[trigger] read_op(ReadOp::Lax, past_operand(c0, Mode::Absy), v)
    &&& fetch_plain(Mode::Absy, c0, b0) && plain(b0, ea_of(Mode::Absy, c0, b0)) ==> c1 == read_op(ReadOp::Lax, past_operand(c0, Mode::Absy), b0.peek(ea_of(Mode::Absy, c0, b0))) && b1 == b0 && r == (if crossed(Mode::Absy, c0, b0) { 1u8 } else { 0u8 })
    &&& r <= 1
}

/// LAX immediate: the CPU and bus after it from `c0`/`b0` (PC past the
/// opcode), and its extra cycles `r`.
pub open spec fn lax_imm_effect(c0: Cpu, b0: Bus, c1: Cpu, b1: Bus, r: u8) -> bool {
    &&& b1.wf()
    &&& exists|v: u8| c1 == #[trigger] read_op(ReadOp::LaxImm, past_operand(c0, Mode::Imm), v)
    &&& fetch_plain(Mode::Imm, c0, b0) ==> c1 == read_op(ReadOp::LaxImm, past_operand(c0, Mode::Imm), b0.peek(ea_of(Mode::Imm, c0, b0))) && b1 == b0
    &&& r == 0
}

/// LAX (zero page,X): the CPU and bus after it from `c0`/`b0` (PC past the
/// opcode), and its extra cycles `r`.
pub open spec fn lax_indx_effect(c0: Cpu, b0: Bus, c1: Cpu, b1: Bus, r: u8) -> bool {
    &&& b1.wf()
    &&& exists|v: u8| c1 == #[trigger] read_op(ReadOp::Lax, past_operand(c0, Mode::Indx), v)
    &&& fetch_plain(Mode::Indx, c0, b0) && plain(b0, ea_of(Mode::Indx, c0, b0)) ==> c1 == read_op(ReadOp::Lax, past_operand(c0, Mode::Indx), b0.peek(ea_of(Mode::Indx, c0, b0))) && b1 == b0
    &&& r == 0
}

/// LAX (zero page),Y: the CPU and bus after it from `c0`/`b0` (PC past the
/// opcode), and its extra cycles `r`.
pub open spec fn lax_indy_effect(c0: Cpu, b0: Bus, c1: Cpu, b1: Bus, r: u8) -> bool {
    &&& b1.wf()
    &&& exists|v: u8| c1 == #[trigger] read_op(ReadOp::Lax, past_operand(c0, Mode::Indy), v)
    &&& fetch_plain(Mode::Indy, c0, b0) && plain(b0, ea_of(Mode::Indy, c0, b0)) ==> c1 == read_op(ReadOp::Lax, past_operand(c0, Mode::Indy), b0.peek(ea_of(Mode::Indy, c0, b0))) && b1 == b0 && r == (if crossed(Mode::Indy, c0, b0) { 1u8 } else { 0u8 })
    &&& r <= 1
}

/// LAX zero page: the CPU and bus after it from `c0`/`b0` (PC past the
/// opcode), and its extra cycles `r`.
pub open spec fn lax_zp_effect(c0: Cpu, b0: Bus, c1: Cpu, b1: Bus, r: u8) -> bool {
    &&& b1.wf()
    &&& exists|v: u8| c1 == #[trigger] read_op(ReadOp::Lax, past_operand(c0, Mode::Zp), v)
    &&& fetch_plain(Mode::Zp, c0, b0) && plain(b0, ea_of(Mode::Zp, c0, b0)) ==> c1 == read_op(ReadOp::Lax, past_operand(c0, Mode::Zp), b0.peek(ea_of(Mode::Zp, c0, b0))) && b1 == b0
    &&& r == 0
}

/// LAX zero page,Y: the CPU and bus after it from `c0`/`b0` (PC past the
/// opcode), and its extra cycles `r`.
pub open spec fn lax_zpy_effect(c0: Cpu, b0: Bus, c1: Cpu, b1: Bus, r: u8) -> bool {
    &&& b1.wf()
    &&& exists|v: u8| c1 == #[trigger] read_op(ReadOp::Lax, past_operand(c0, Mode::Zpy), v)
    &&& fetch_plain(Mode::Zpy, c0, b0) && plain(b0, ea_of(Mode::Zpy, c0, b0)) ==> c1 == read_op(ReadOp::Lax, past_operand(c0, Mode::Zpy), b0.peek(ea_of(Mode::Zpy, c0, b0))) && b1 == b0
    &&& r == 0
}

/// LDA absolute: the CPU and bus after it from `c0`/`b0` (PC past the
/// opcode), and its extra cycles `r`.
pub open spec fn lda_abs_effect(c0: Cpu, b0: Bus, c1: Cpu, b1: Bus, r: u8) -> bool {
    &&& b1.wf()
    &&& exists|v: u8| c1 == #[trigger] read_op(ReadOp::Lda, past_operand(c0, Mode::Abs), v)
    &&& fetch_plain(Mode::Abs, c0, b0) && plain(b0, ea_of(Mode::Abs, c0, b0)) ==> c1 == read_op(ReadOp::Lda, past_operand(c0, Mode::Abs), b0.peek(ea_of(Mode::Abs, c0, b0))) && b1 == b0
    &&& r == 0
}

/// LDA absolute,X: the CPU and bus after it from `c0`/`b0` (PC past the
/// opcode), and its extra cycles `r`.
pub open spec fn lda_absx_effect(c0: Cpu, b0: Bus, c1: Cpu, b1: Bus, r: u8) -> bool {
    &&& b1.wf()
    &&& exists|v: u8| c1 == #[trigger] read_op(ReadOp::Lda, past_operand(c0, Mode::Absx), v)
    &&& fetch_plain(Mode::Absx, c0, b0) && plain(b0, ea_of(Mode::Absx, c0, b0)) ==> c1 == read_op(ReadOp::Lda, past_operand(c0, Mode::Absx), b0.peek(ea_of(Mode::Absx, c0, b0))) && b1 == b0 && r == (if crossed(Mode::Absx, c0, b0) { 1u8 } else { 0u8 })
    &&& r <= 1
}

/// LDA absolute,Y: the CPU and bus after it from `c0`/`b0` (PC past the
/// opcode), and its extra cycles `r`.
pub open spec fn lda_absy_effect(c0: Cpu, b0: Bus, c1: Cpu, b1: Bus, r: u8) -> bool {
    &&& b1.wf()
    &&& exists|v: u8| c1 == #[trigger] read_op(ReadOp::Lda, past_operand(c0, Mode::Absy), v)
    &&& fetch_plain(Mode::Absy, c0, b0) && plain(b0, ea_of(Mode::Absy, c0, b0)) ==> c1 == read_op(ReadOp::Lda, past_operand(c0, Mode::Absy), b0.peek(ea_of(Mode::Absy, c0, b0))) && b1 == b0 && r == (if crossed(Mode::Absy, c0, b0) { 1u8 } else { 0u8 })
    &&& r <= 1
}

/// LDA immediate: the CPU and bus after it from `c0`/`b0` (PC past the
/// opcode), and its extra cycles `r`.
pub open spec fn lda_imm_effect(c0: Cpu, b0: Bus, c1: Cpu, b1: Bus, r: u8) -> bool {
    &&& b1.wf()
    &&& exists|v: u8| c1 == #[trigger] read_op(ReadOp::Lda, past_operand(c0, Mode::Imm), v)
    &&& fetch_plain(Mode::Imm, c0, b0) ==> c1 == read_op(ReadOp::Lda, past_operand(c0, Mode::Imm), b0.peek(ea_of(Mode::Imm, c0, b0))) && b1 == b0
    &&& r == 0
}

/// LDA (zero page): the CPU and bus after it from `c0`/`b0` (PC past the
/// opcode), and its extra cycles `r`.
pub open spec fn lda_ind_zp_effect(c0: Cpu, b0: Bus, c1: Cpu, b1: Bus, r: u8) -> bool {
    &&& b1.wf()
    &&& exists|v: u8| c1 == #[trigger] read_op(ReadOp::Lda, past_operand(c0, Mode::IndZp), v)
    &&& fetch_plain(Mode::IndZp, c0, b0) && plain(b0, ea_of(Mode::IndZp, c0, b0)) ==> c1 == read_op(ReadOp::Lda, past_operand(c0, Mode::IndZp), b0.peek(ea_of(Mode::IndZp, c0, b0))) && b1 == b0
    &&& r == 0
}

/// LDA (zero page,X): the CPU and bus after it from `c0`/`b0` (PC past the
/// opcode), and its extra cycles `r`.
pub open spec fn lda_indx_effect(c0: Cpu, b0: Bus, c1: Cpu, b1: Bus, r: u8) -> bool {
    &&& b1.wf()
    &&& exists|v: u8| c1 == #[trigger] read_op(ReadOp::Lda, past_operand(c0, Mode::Indx), v)
    &&& fetch_plain(Mode::Indx, c0, b0) && plain(b0, ea_of(Mode::Indx, c0, b0)) ==> c1 == read_op(ReadOp::Lda, past_operand(c0, Mode::Indx), b0.peek(ea_of(Mode::Indx, c0, b0))) && b1 == b0
    &&& r == 0
}

/// LDA (zero page),Y: the CPU and bus after it from `c0`/`b0` (PC past the
/// opcode), and its extra cycles `r`.
pub open spec fn lda_indy_effect(c0: Cpu, b0: Bus, c1: Cpu, b1: Bus, r: u8) -> bool {
    &&& b1.wf()
    &&& exists|v: u8| c1 == #[trigger] read_op(ReadOp::Lda, past_operand(c0, Mode::Indy), v)
    &&& fetch_plain(Mode::Indy, c0, b0) && plain(b0, ea_of(Mode::Indy, c0, b0)) ==> c1 == read_op(ReadOp::Lda, past_operand(c0, Mode::Indy), b0.peek(ea_of(Mode::Indy, c0, b0))) && b1 == b0 && r == (if crossed(Mode::Indy, c0, b0) { 1u8 } else { 0u8 })
    &&& r <= 1
}

/// LDA zero page: the CPU and bus after it from `c0`/`b0` (PC past the
/// opcode), and its extra cycles `r`.
pub open spec fn lda_zp_effect(c0: Cpu, b0: Bus, c1: Cpu, b1: Bus, r: u8) -> bool {
    &&& b1.wf()
    &&& exists|v: u8| c1 == #[trigger] read_op(ReadOp::Lda, past_operand(c0, Mode::Zp), v)
    &&& fetch_plain(Mode::Zp, c0, b0) && plain(b0, ea_of(Mode::Zp, c0, b0)) ==> c1 == read_op(ReadOp::Lda, past_operand(c0, Mode::Zp), b0.peek(ea_of(Mode::Zp, c0, b0))) && b1 == b0
    &&& r == 0
}

/// LDA zero page,X: the CPU and bus after it from `c0`/`b0` (PC past the
/// opcode), and its extra cycles `r`.
pub open spec fn lda_zpx_effect(c0: Cpu, b0: Bus, c1: Cpu, b1: Bus, r: u8) -> bool {
    &&& b1.wf()
    &&& exists|v: u8| c1 == #[trigger] read_op(ReadOp::Lda, past_operand(c0, Mode::Zpx), v)
    &&& fetch_plain(Mode::Zpx, c0, b0) && plain(b0, ea_of(Mode::Zpx, c0, b0)) ==> c1 == read_op(ReadOp::Lda, past_operand(c0, Mode::Zpx), b0.peek(ea_of(Mode::Zpx, c0, b0))) && b1 == b0
    &&& r == 0
}

/// LDX absolute: the CPU and bus after it from `c0`/`b0` (PC past the
/// opcode), and its extra cycles `r`.
pub open spec fn ldx_abs_effect(c0: Cpu, b0: Bus, c1: Cpu, b1: Bus, r: u8) -> bool {
    &&& b1.wf()
    &&& exists|v: u8| c1 == #[trigger] read_op(ReadOp::Ldx, past_operand(c0, Mode::Abs), v)
    &&& fetch_plain(Mode::Abs, c0, b0) && plain(b0, ea_of(Mode::Abs, c0, b0)) ==> c1 == read_op(ReadOp::Ldx, past_operand(c0, Mode::Abs), b0.peek(ea_of(Mode::Abs, c0, b0))) && b1 == b0
    &&& r == 0
}

/// LDX absolute,Y: the CPU and bus after it from `c0`/`b0` (PC past the
/// opcode), and its extra cycles `r`.
pub open spec fn ldx_absy_effect(c0: Cpu, b0: Bus, c1: Cpu, b1: Bus, r: u8) -> bool {
    &&& b1.wf()
    &&& exists|v: u8| c1 == #[trigger] read_op(ReadOp::Ldx, past_operand(c0, Mode::Absy), v)
    &&& fetch_plain(Mode::Absy, c0, b0) && plain(b0, ea_of(Mode::Absy, c0, b0)) ==> c1 == read_op(ReadOp::Ldx, past_operand(c0, Mode::Absy), b0.peek(ea_of(Mode::Absy, c0, b0))) && b1 == b0 && r == (if crossed(Mode::Absy, c0, b0) { 1u8 } else { 0u8 })
    &&& r <= 1
}

/// LDX immediate: the CPU and bus after it from `c0`/`b0` (PC past the
/// opcode), and its extra cycles `r`.
pub open spec fn ldx_imm_effect(c0: Cpu, b0: Bus, c1: Cpu, b1: Bus, r: u8) -> bool {
    &&& b1.wf()
    &&& exists|v: u8| c1 == #[trigger] read_op(ReadOp::Ldx, past_operand(c0, Mode::Imm), v)
    &&& fetch_plain(Mode::Imm, c0, b0) ==> c1 == read_op(ReadOp::Ldx, past_operand(c0, Mode::Imm), b0.peek(ea_of(Mode::Imm, c0, b0))) && b1 == b0
    &&& r == 0
}

/// LDX zero page: the CPU and bus after it from `c0`/`b0` (PC past the
/// opcode), and its extra cycles `r`.
pub open spec fn ldx_zp_effect(c0: Cpu, b0: Bus, c1: Cpu, b1: Bus, r: u8) -> bool {
    &&& b1.wf()
    &&& exists|v: u8| c1 == #[trigger] read_op(ReadOp::Ldx, past_operand(c0, Mode::Zp), v)
    &&& fetch_plain(Mode::Zp, c0, b0) && plain(b0, ea_of(Mode::Zp, c0, b0)) ==> c1 == read_op(ReadOp::Ldx, past_operand(c0, Mode::Zp), b0.peek(ea_of(Mode::Zp, c0, b0))) && b1 == b0
    &&& r == 0
}

/// LDX zero page,Y: the CPU and bus after it from `c0`/`b0` (PC past the
/// opcode), and its extra cycles `r`.
pub open spec fn ldx_zpy_effect(c0: Cpu, b0: Bus, c1: Cpu, b1: Bus, r: u8) -> bool {
    &&& b1.wf()
    &&& exists|v: u8| c1 == #[trigger] read_op(ReadOp::Ldx, past_operand(c0, Mode::Zpy), v)
    &&& fetch_plain(Mode::Zpy, c0, b0) && plain(b0, ea_of(Mode::Zpy, c0, b0)) ==> c1 == read_op(ReadOp::Ldx, past_operand(c0, Mode::Zpy), b0.peek(ea_of(Mode::Zpy, c0, b0))) && b1 == b0
    &&& r == 0
}

/// LDY absolute: the CPU and bus after it from `c0`/`b0` (PC past the
/// opcode), and its extra cycles `r`.
pub open spec fn ldy_abs_effect(c0: Cpu, b0: Bus, c1: Cpu, b1: Bus, r: u8) -> bool {
    &&& b1.wf()
    &&& exists|v: u8| c1 == #[trigger] read_op(ReadOp::Ldy, past_operand(c0, Mode::Abs), v)
    &&& fetch_plain(Mode::Abs, c0, b0) && plain(b0, ea_of(Mode::Abs, c0, b0)) ==> c1 == read_op(ReadOp::Ldy, past_operand(c0, Mode::Abs), b0.peek(ea_of(Mode::Abs, c0, b0))) && b1 == b0
    &&& r == 0
}

/// LDY absolute,X: the CPU and bus after it from `c0`/`b0` (PC past the
/// opcode), and its extra cycles `r`.
pub open spec fn ldy_absx_effect(c0: Cpu, b0: Bus, c1: Cpu, b1: Bus, r: u8) -> bool {
    &&& b1.wf()
    &&& exists|v: u8| c1 == #[trigger] read_op(ReadOp::Ldy, past_operand(c0, Mode::Absx), v)
    &&& fetch_plain(Mode::Absx, c0, b0) && plain(b0, ea_of(Mode::Absx, c0, b0)) ==> c1 == read_op(ReadOp::Ldy, past_operand(c0, Mode::Absx), b0.peek(ea_of(Mode::Absx, c0, b0))) && b1 == b0 && r == (if crossed(Mode::Absx, c0, b0) { 1u8 } else { 0u8 })
    &&& r <= 1
}

/// LDY immediate: the CPU and bus after it from `c0`/`b0` (PC past the
/// opcode), and its extra cycles `r`.
pub open spec fn ldy_imm_effect(c0: Cpu, b0: Bus, c1: Cpu, b1: Bus, r: u8) -> bool {
    &&& b1.wf()
    &&& exists|v: u8| c1 == #[trigger] read_op(ReadOp::Ldy, past_operand(c0, Mode::Imm), v)
    &&& fetch_plain(Mode::Imm, c0, b0) ==> c1 == read_op(ReadOp::Ldy, past_operand(c0, Mode::Imm), b0.peek(ea_of(Mode::Imm, c0, b0))) && b1 == b0
    &&& r == 0
}

/// LDY zero page: the CPU and bus after it from `c0`/`b0` (PC past the
/// opcode), and its extra cycles `r`.
pub open spec fn ldy_zp_effect(c0: Cpu, b0: Bus, c1: Cpu, b1: Bus, r: u8) -> bool {
    &&& b1.wf()
    &&& exists|v: u8| c1 == #[trigger] read_op(ReadOp::Ldy, past_operand(c0, Mode::Zp), v)
    &&& fetch_plain(Mode::Zp, c0, b0) && plain(b0, ea_of(Mode::Zp, c0, b0)) ==> c1 == read_op(ReadOp::Ldy, past_operand(c0, Mode::Zp), b0.peek(ea_of(Mode::Zp, c0, b0))) && b1 == b0
    &&& r == 0
}

/// LDY zero page,X: the CPU and bus after it from `c0`/`b0` (PC past the
/// opcode), and its extra cycles `r`.
pub open spec fn ldy_zpx_effect(c0: Cpu, b0: Bus, c1: Cpu, b1: Bus, r: u8) -> bool {
    &&& b1.wf()
    &&& exists|v: u8| c1 == #[trigger] read_op(ReadOp::Ldy, past_operand(c0, Mode::Zpx), v)
    &&& fetch_plain(Mode::Zpx, c0, b0) && plain(b0, ea_of(Mode::Zpx, c0, b0)) ==> c1 == read_op(ReadOp::Ldy, past_operand(c0, Mode::Zpx), b0.peek(ea_of(Mode::Zpx, c0, b0))) && b1 == b0
    &&& r == 0
}

/// LSR absolute: the CPU and bus after it from `c0`/`b0` (PC past the
/// opcode), and its extra cycles `r`.
pub open spec fn lsr_abs_effect(c0: Cpu, b0: Bus, c1: Cpu, b1: Bus, r: u8) -> bool {
    &&& b1.wf()
    &&& exists|v: u8| c1 == #[trigger] rmw_op(RmwOp::Lsr, past_operand(c0, Mode::Abs), v).0
    &&& fetch_plain(Mode::Abs, c0, b0) && plain(b0, ea_of(Mode::Abs, c0, b0)) && plain_w(ea_of(Mode::Abs, c0, b0)) ==> c1 == rmw_op(RmwOp::Lsr, past_operand(c0, Mode::Abs), b0.peek(ea_of(Mode::Abs, c0, b0))).0 && b1.stored(b0, ea_of(Mode::Abs, c0, b0), rmw_op(RmwOp::Lsr, past_operand(c0, Mode::Abs), b0.peek(ea_of(Mode::Abs, c0, b0))).1)
    &&& r == 0
}

/// LSR absolute,X: the CPU and bus after it from `c0`/`b0` (PC past the
/// opcode), and its extra cycles `r`.
pub open spec fn lsr_absx_effect(c0: Cpu, b0: Bus, c1: Cpu, b1: Bus, r: u8) -> bool {
    &&& b1.wf()
    &&& exists|v: u8| c1 == #[trigger] rmw_op(RmwOp::Lsr, past_operand(c0, Mode::Absx), v).0
    &&& fetch_plain(Mode::Absx, c0, b0) && plain(b0, ea_of(Mode::Absx, c0, b0)) && plain_w(ea_of(Mode::Absx, c0, b0)) ==> c1 == rmw_op(RmwOp::Lsr, past_operand(c0, Mode::Absx), b0.peek(ea_of(Mode::Absx, c0, b0))).0 && b1.stored(b0, ea_of(Mode::Absx, c0, b0), rmw_op(RmwOp::Lsr, past_operand(c0, Mode::Absx), b0.peek(ea_of(Mode::Absx, c0, b0))).1)
    &&& r == 0
}

/// LSR zero page: the CPU and bus after it from `c0`/`b0` (PC past the
/// opcode), and its extra cycles `r`.
pub open spec fn lsr_zp_effect(c0: Cpu, b0: Bus, c1: Cpu, b1: Bus, r: u8) -> bool {
    &&& b1.wf()
    &&& exists|v: u8| c1 == #[trigger] rmw_op(RmwOp::Lsr, past_operand(c0, Mode::Zp), v).0
    &&& fetch_plain(Mode::Zp, c0, b0) && plain(b0, ea_of(Mode::Zp, c0, b0)) && plain_w(ea_of(Mode::Zp, c0, b0)) ==> c1 == rmw_op(RmwOp::Lsr, past_operand(c0, Mode::Zp), b0.peek(ea_of(Mode::Zp, c0, b0))).0 && b1.stored(b0, ea_of(Mode::Zp, c0, b0), rmw_op(RmwOp::Lsr, past_operand(c0, Mode::Zp), b0.peek(ea_of(Mode::Zp, c0, b0))).1)
    &&& r == 0
}

/// LSR zero page,X: the CPU and bus after it from `c0`/`b0` (PC past the
/// opcode), and its extra cycles `r`.
pub open spec fn lsr_zpx_effect(c0: Cpu, b0: Bus, c1: Cpu, b1: Bus, r: u8) -> bool {
    &&& b1.wf()
    &&& exists|v: u8| c1 == #[trigger] rmw_op(RmwOp::Lsr, past_operand(c0, Mode::Zpx), v).0
    &&& fetch_plain(Mode::Zpx, c0, b0) && plain(b0, ea_of(Mode::Zpx, c0, b0)) && plain_w(ea_of(Mode::Zpx, c0, b0)) ==> c1 == rmw_op(RmwOp::Lsr, past_operand(c0, Mode::Zpx), b0.peek(ea_of(Mode::Zpx, c0, b0))).0 && b1.stored(b0, ea_of(Mode::Zpx, c0, b0), rmw_op(RmwOp::Lsr, past_operand(c0, Mode::Zpx), b0.peek(ea_of(Mode::Zpx, c0, b0))).1)
    &&& r == 0
}

/// NOP absolute: the CPU and bus after it from `c0`/`b0` (PC past the
/// opcode), and its extra cycles `r`.
pub open spec fn nop_abs_effect(c0: Cpu, b0: Bus, c1: Cpu, b1: Bus, r: u8) -> bool {
    &&& b1.wf()
    &&& c1 == past_operand(c0, Mode::Abs)
    &&& fetch_plain(Mode::Abs, c0, b0) ==> b1 == b0
    &&& r == 0
}

/// NOP absolute,X: the CPU and bus after it from `c0`/`b0` (PC past the
/// opcode), and its extra cycles `r`.
pub open spec fn nop_absx_effect(c0: Cpu, b0: Bus, c1: Cpu, b1: Bus, r: u8) -> bool {
    &&& b1.wf()
    &&& c1 == past_operand(c0, Mode::Absx)
    &&& fetch_plain(Mode::Absx, c0, b0) ==> b1 == b0 && r == (if crossed(Mode::Absx, c0, b0) { 1u8 } else { 0u8 })
    &&& r <= 1
}

/// NOP immediate: the CPU and bus after it from `c0`/`b0` (PC past the
/// opcode), and its extra cycles `r`.
pub open spec fn nop_imm_effect(c0: Cpu, b0: Bus, c1: Cpu, b1: Bus, r: u8) -> bool {
    &&& b1.wf()
    &&& c1 == past_operand(c0, Mode::Imm)
    &&& fetch_plain(Mode::Imm, c0, b0) ==> b1 == b0
    &&& r == 0
}

/// NOP zero page: the CPU and bus after it from `c0`/`b0` (PC past the
/// opcode), and its extra cycles `r`.
pub open spec fn nop_zp_effect(c0: Cpu, b0: Bus, c1: Cpu, b1: Bus, r: u8) -> bool {
    &&& b1.wf()
    &&& c1 == past_operand(c0, Mode::Zp)
    &&& fetch_plain(Mode::Zp, c0, b0) ==> b1 == b0
    &&& r == 0
}

/// NOP zero page,X: the CPU and bus after it from `c0`/`b0` (PC past the
/// opcode), and its extra cycles `r`.
pub open spec fn nop_zpx_effect(c0: Cpu, b0: Bus, c1: Cpu, b1: Bus, r: u8) -> bool {
    &&& b1.wf()
    &&& c1 == past_operand(c0, Mode::Zpx)
    &&& fetch_plain(Mode::Zpx, c0, b0) ==> b1 == b0
    &&& r == 0
}

/// ORA absolute: the CPU and bus after it from `c0`/`b0` (PC past the
/// opcode), and its extra cycles `r`.
pub open spec fn ora_abs_effect(c0: Cpu, b0: Bus, c1: Cpu, b1: Bus, r: u8) -> bool {
    &&& b1.wf()
    &&& exists|v: u8| c1 == #[trigger] read_op(ReadOp::Ora, past_operand(c0, Mode::Abs), v)
    &&& fetch_plain(Mode::Abs, c0, b0) && plain(b0, ea_of(Mode::Abs, c0, b0)) ==> c1 == read_op(ReadOp::Ora, past_operand(c0, Mode::Abs), b0.peek(ea_of(Mode::Abs, c0, b0))) && b1 == b0
    &&& r == 0
}

/// ORA absolute,X: the CPU and bus after it from `c0`/`b0` (PC past the
/// opcode), and its extra cycles `r`.
pub open spec fn ora_absx_effect(c0: Cpu, b0: Bus, c1: Cpu, b1: Bus, r: u8) -> bool {
    &&& b1.wf()
    &&& exists|v: u8| c1 == #[trigger] read_op(ReadOp::Ora, past_operand(c0, Mode::Absx), v)
    &&& fetch_plain(Mode::Absx, c0, b0) && plain(b0, ea_of(Mode::Absx, c0, b0)) ==> c1 == read_op(ReadOp::Ora, past_operand(c0, Mode::Absx), b0.peek(ea_of(Mode::Absx, c0, b0))) && b1 == b0 && r == (if crossed(Mode::Absx, c0, b0) { 1u8 } else { 0u8 })
    &&& r <= 1
}

/// ORA absolute,Y: the CPU and bus after it from `c0`/`b0` (PC past the
/// opcode), and its extra cycles `r`.
pub open spec fn ora_absy_effect(c0: Cpu, b0: Bus, c1: Cpu, b1: Bus, r: u8) -> bool {
    &&& b1.wf()
    &&& exists|v: u8| c1 == #[trigger] read_op(ReadOp::Ora, past_operand(c0, Mode::Absy), v)
    &&& fetch_plain(Mode::Absy, c0, b0) && plain(b0, ea_of(Mode::Absy, c0, b0)) ==> c1 == read_op(ReadOp::Ora, past_operand(c0, Mode::Absy), b0.peek(ea_of(Mode::Absy, c0, b0))) && b1 == b0 && r == (if crossed(Mode::Absy, c0, b0) { 1u8 } else { 0u8 })
    &&& r <= 1
}

/// ORA immediate: the CPU and bus after it from `c0`/`b0` (PC past the
/// opcode), and its extra cycles `r`.
pub open spec fn ora_imm_effect(c0: Cpu, b0: Bus, c1: Cpu, b1: Bus, r: u8) -> bool {
    &&& b1.wf()
    &&& exists|v: u8| c1 == #[trigger] read_op(ReadOp::Ora, past_operand(c0, Mode::Imm), v)
    &&& fetch_plain(Mode::Imm, c0, b0) ==> c1 == read_op(ReadOp::Ora, past_operand(c0, Mode::Imm), b0.peek(ea_of(Mode::Imm, c0, b0))) && b1 == b0
    &&& r == 0
}

/// ORA (zero page): the CPU and bus after it from `c0`/`b0` (PC past the
/// opcode), and its extra cycles `r`.
pub open spec fn ora_ind_zp_effect(c0: Cpu, b0: Bus, c1: Cpu, b1: Bus, r: u8) -> bool {
    &&& b1.wf()
    &&& exists|v: u8| c1 == #[trigger] read_op(ReadOp::Ora, past_operand(c0, Mode::IndZp), v)
    &&& fetch_plain(Mode::IndZp, c0, b0) && plain(b0, ea_of(Mode::IndZp, c0, b0)) ==> c1 == read_op(ReadOp::Ora, past_operand(c0, Mode::IndZp), b0.peek(ea_of(Mode::IndZp, c0, b0))) && b1 == b0
    &&& r == 0
}

/// ORA (zero page,X): the CPU and bus after it from `c0`/`b0` (PC past the
/// opcode), and its extra cycles `r`.
pub open spec fn ora_indx_effect(c0: Cpu, b0: Bus, c1: Cpu, b1: Bus, r: u8) -> bool {
    &&& b1.wf()
    &&& exists|v: u8| c1 == #[trigger] read_op(ReadOp::Ora, past_operand(c0, Mode::Indx), v)
    &&& fetch_plain(Mode::Indx, c0, b0) && plain(b0, ea_of(Mode::Indx, c0, b0)) ==> c1 == read_op(ReadOp::Ora, past_operand(c0, Mode::Indx), b0.peek(ea_of(Mode::Indx, c0, b0))) && b1 == b0
    &&& r == 0
}

/// ORA (zero page),Y: the CPU and bus after it from `c0`/`b0` (PC past the
/// opcode), and its extra cycles `r`.
pub open spec fn ora_indy_effect(c0: Cpu, b0: Bus, c1: Cpu, b1: Bus, r: u8) -> bool {
    &&& b1.wf()
    &&& exists|v: u8| c1 == #[trigger] read_op(ReadOp::Ora, past_operand(c0, Mode::Indy), v)
    &&& fetch_plain(Mode::Indy, c0, b0) && plain(b0, ea_of(Mode::Indy, c0, b0)) ==> c1 == read_op(ReadOp::Ora, past_operand(c0, Mode::Indy), b0.peek(ea_of(Mode::Indy, c0, b0))) && b1 == b0 && r == (if crossed(Mode::Indy, c0, b0) { 1u8 } else { 0u8 })
    &&& r <= 1
}

/// ORA zero page: the CPU and bus after it from `c0`/`b0` (PC past the
/// opcode), and its extra cycles `r`.
pub open spec fn ora_zp_effect(c0: Cpu, b0: Bus, c1: Cpu, b1: Bus, r: u8) -> bool {
    &&& b1.wf()
    &&& exists|v: u8| c1 == #[trigger] read_op(ReadOp::Ora, past_operand(c0, Mode::Zp), v)
    &&& fetch_plain(Mode::Zp, c0, b0) && plain(b0, ea_of(Mode::Zp, c0, b0)) ==> c1 == read_op(ReadOp::Ora, past_operand(c0, Mode::Zp), b0.peek(ea_of(Mode::Zp, c0, b0))) && b1 == b0
    &&& r == 0
}

/// ORA zero page,X: the CPU and bus after it from `c0`/`b0` (PC past the
/// opcode), and its extra cycles `r`.
pub open spec fn ora_zpx_effect(c0: Cpu, b0: Bus, c1: Cpu, b1: Bus, r: u8) -> bool {
    &&& b1.wf()
    &&& exists|v: u8| c1 == #[trigger] read_op(ReadOp::Ora, past_operand(c0, Mode::Zpx), v)
    &&& fetch_plain(Mode::Zpx, c0, b0) && plain(b0, ea_of(Mode::Zpx, c0, b0)) ==> c1 == read_op(ReadOp::Ora, past_operand(c0, Mode::Zpx), b0.peek(ea_of(Mode::Zpx, c0, b0))) && b1 == b0
    &&& r == 0
}

/// RLA absolute: the CPU and bus after it from `c0`/`b0` (PC past the
/// opcode), and its extra cycles `r`.
pub open spec fn rla_abs_effect(c0: Cpu, b0: Bus, c1: Cpu, b1: Bus, r: u8) -> bool {
    &&& b1.wf()
    &&& exists|v: u8| c1 == #[trigger] rmw_op(RmwOp::Rla, past_operand(c0, Mode::Abs), v).0
    &&& fetch_plain(Mode::Abs, c0, b0) && plain(b0, ea_of(Mode::Abs, c0, b0)) && plain_w(ea_of(Mode::Abs, c0, b0)) ==> c1 == rmw_op(RmwOp::Rla, past_operand(c0, Mode::Abs), b0.peek(ea_of(Mode::Abs, c0, b0))).0 && b1.stored(b0, ea_of(Mode::Abs, c0, b0), rmw_op(RmwOp::Rla, past_operand(c0, Mode::Abs), b0.peek(ea_of(Mode::Abs, c0, b0))).1)
    &&& r == 0
}

/// RLA absolute,X: the CPU and bus after it from `c0`/`b0` (PC past the
/// opcode), and its extra cycles `r`.
pub open spec fn rla_absx_effect(c0: Cpu, b0: Bus, c1: Cpu, b1: Bus, r: u8) -> bool {
    &&& b1.wf()
    &&& exists|v: u8| c1 == #[trigger] rmw_op(RmwOp::Rla, past_operand(c0, Mode::Absx), v).0
    &&& fetch_plain(Mode::Absx, c0, b0) && plain(b0, ea_of(Mode::Absx, c0, b0)) && plain_w(ea_of(Mode::Absx, c0, b0)) ==> c1 == rmw_op(RmwOp::Rla, past_operand(c0, Mode::Absx), b0.peek(ea_of(Mode::Absx, c0, b0))).0 && b1.stored(b0, ea_of(Mode::Absx, c0, b0), rmw_op(RmwOp::Rla, past_operand(c0, Mode::Absx), b0.peek(ea_of(Mode::Absx, c0, b0))).1)
    &&& r == 0
}

/// RLA absolute,Y: the CPU and bus after it from `c0`/`b0` (PC past the
/// opcode), and its extra cycles `r`.
pub open spec fn rla_absy_effect(c0: Cpu, b0: Bus, c1: Cpu, b1: Bus, r: u8) -> bool {
    &&& b1.wf()
    &&& exists|v: u8| c1 == #[trigger] rmw_op(RmwOp::Rla, past_operand(c0, Mode::Absy), v).0
    &&& fetch_plain(Mode::Absy, c0, b0) && plain(b0, ea_of(Mode::Absy, c0, b0)) && plain_w(ea_of(Mode::Absy, c0, b0)) ==> c1 == rmw_op(RmwOp::Rla, past_operand(c0, Mode::Absy), b0.peek(ea_of(Mode::Absy, c0, b0))).0 && b1.stored(b0, ea_of(Mode::Absy, c0, b0), rmw_op(RmwOp::Rla, past_operand(c0, Mode::Absy), b0.peek(ea_of(Mode::Absy, c0, b0))).1)
    &&& r == 0
}

/// RLA (zero page,X): the CPU and bus after it from `c0`/`b0` (PC past the
/// opcode), and its extra cycles `r`.
pub open spec fn rla_indx_effect(c0: Cpu, b0: Bus, c1: Cpu, b1: Bus, r: u8) -> bool {
    &&& b1.wf()
    &&& exists|v: u8| c1 == #[trigger] rmw_op(RmwOp::Rla, past_operand(c0, Mode::Indx), v).0
    &&& fetch_plain(Mode::Indx, c0, b0) && plain(b0, ea_of(Mode::Indx, c0, b0)) && plain_w(ea_of(Mode::Indx, c0, b0)) ==> c1 == rmw_op(RmwOp::Rla, past_operand(c0, Mode::Indx), b0.peek(ea_of(Mode::Indx, c0, b0))).0 && b1.stored(b0, ea_of(Mode::Indx, c0, b0), rmw_op(RmwOp::Rla, past_operand(c0, Mode::Indx), b0.peek(ea_of(Mode::Indx, c0, b0))).1)
    &&& r == 0
}

/// RLA (zero page),Y: the CPU and bus after it from `c0`/`b0` (PC past the
/// opcode), and its extra cycles `r`.
pub open spec fn rla_indy_effect(c0: Cpu, b0: Bus, c1: Cpu, b1: Bus, r: u8) -> bool {
    &&& b1.wf()
    &&& exists|v: u8| c1 == #[trigger] rmw_op(RmwOp::Rla, past_operand(c0, Mode::Indy), v).0
    &&& fetch_plain(Mode::Indy, c0, b0) && plain(b0, ea_of(Mode::Indy, c0, b0)) && plain_w(ea_of(Mode::Indy, c0, b0)) ==> c1 == rmw_op(RmwOp::Rla, past_operand(c0, Mode::Indy), b0.peek(ea_of(Mode::Indy, c0, b0))).0 && b1.stored(b0, ea_of(Mode::Indy, c0, b0), rmw_op(RmwOp::Rla, past_operand(c0, Mode::Indy), b0.peek(ea_of(Mode::Indy, c0, b0))).1)
    &&& r == 0
}

/// RLA zero page: the CPU and bus after it from `c0`/`b0` (PC past the
/// opcode), and its extra cycles `r`.
pub open spec fn rla_zp_effect(c0: Cpu, b0: Bus, c1: Cpu, b1: Bus, r: u8) -> bool {
    &&& b1.wf()
    &&& exists|v: u8| c1 == #[trigger] rmw_op(RmwOp::Rla, past_operand(c0, Mode::Zp), v).0
    &&& fetch_plain(Mode::Zp, c0, b0) && plain(b0, ea_of(Mode::Zp, c0, b0)) && plain_w(ea_of(Mode::Zp, c0, b0)) ==> c1 == rmw_op(RmwOp::Rla, past_operand(c0, Mode::Zp), b0.peek(ea_of(Mode::Zp, c0, b0))).0 && b1.stored(b0, ea_of(Mode::Zp, c0, b0), rmw_op(RmwOp::Rla, past_operand(c0, Mode::Zp), b0.peek(ea_of(Mode::Zp, c0, b0))).1)
    &&& r == 0
}

/// RLA zero page,X: the CPU and bus after it from `c0`/`b0` (PC past the
/// opcode), and its extra cycles `r`.
pub open spec fn rla_zpx_effect(c0: Cpu, b0: Bus, c1: Cpu, b1: Bus, r: u8) -> bool {
    &&& b1.wf()
    &&& exists|v: u8| c1 == #[trigger] rmw_op(RmwOp::Rla, past_operand(c0, Mode::Zpx), v).0
    &&& fetch_plain(Mode::Zpx, c0, b0) && plain(b0, ea_of(Mode::Zpx, c0, b0)) && plain_w(ea_of(Mode::Zpx, c0, b0)) ==> c1 == rmw_op(RmwOp::Rla, past_operand(c0, Mode::Zpx), b0.peek(ea_of(Mode::Zpx, c0, b0))).0 && b1.stored(b0, ea_of(Mode::Zpx, c0, b0), rmw_op(RmwOp::Rla, past_operand(c0, Mode::Zpx), b0.peek(ea_of(Mode::Zpx, c0, b0))).1)
    &&& r == 0
}

/// ROL absolute: the CPU and bus after it from `c0`/`b0` (PC past the
/// opcode), and its extra cycles `r`.
pub open spec fn rol_abs_effect(c0: Cpu, b0: Bus, c1: Cpu, b1: Bus, r: u8) -> bool {
    &&& b1.wf()
    &&& exists|v: u8| c1 == #[trigger] rmw_op(RmwOp::Rol, past_operand(c0, Mode::Abs), v).0
    &&& fetch_plain(Mode::Abs, c0, b0) && plain(b0, ea_of(Mode::Abs, c0, b0)) && plain_w(ea_of(Mode::Abs, c0, b0)) ==> c1 == rmw_op(RmwOp::Rol, past_operand(c0, Mode::Abs), b0.peek(ea_of(Mode::Abs, c0, b0))).0 && b1.stored(b0, ea_of(Mode::Abs, c0, b0), rmw_op(RmwOp::Rol, past_operand(c0, Mode::Abs), b0.peek(ea_of(Mode::Abs, c0, b0))).1)
    &&& r == 0
}

/// ROL absolute,X: the CPU and bus after it from `c0`/`b0` (PC past the
/// opcode), and its extra cycles `r`.
pub open spec fn rol_absx_effect(c0: Cpu, b0: Bus, c1: Cpu, b1: Bus, r: u8) -> bool {
    &&& b1.wf()
    &&& exists|v: u8| c1 == #[trigger] rmw_op(RmwOp::Rol, past_operand(c0, Mode::Absx), v).0
    &&& fetch_plain(Mode::Absx, c0, b0) && plain(b0, ea_of(Mode::Absx, c0, b0)) && plain_w(ea_of(Mode::Absx, c0, b0)) ==> c1 == rmw_op(RmwOp::Rol, past_operand(c0, Mode::Absx), b0.peek(ea_of(Mode::Absx, c0, b0))).0 && b1.stored(b0, ea_of(Mode::Absx, c0, b0), rmw_op(RmwOp::Rol, past_operand(c0, Mode::Absx), b0.peek(ea_of(Mode::Absx, c0, b0))).1)
    &&& r == 0
}

/// ROL zero page: the CPU and bus after it from `c0`/`b0` (PC past the
/// opcode), and its extra cycles `r`.
pub open spec fn rol_zp_effect(c0: Cpu, b0: Bus, c1: Cpu, b1: Bus, r: u8) -> bool {
    &&& b1.wf()
    &&& exists|v: u8| c1 == #[trigger] rmw_op(RmwOp::Rol, past_operand(c0, Mode::Zp), v).0
    &&& fetch_plain(Mode::Zp, c0, b0) && plain(b0, ea_of(Mode::Zp, c0, b0)) && plain_w(ea_of(Mode::Zp, c0, b0)) ==> c1 == rmw_op(RmwOp::Rol, past_operand(c0, Mode::Zp), b0.peek(ea_of(Mode::Zp, c0, b0))).0 && b1.stored(b0, ea_of(Mode::Zp, c0, b0), rmw_op(RmwOp::Rol, past_operand(c0, Mode::Zp), b0.peek(ea_of(Mode::Zp, c0, b0))).1)
    &&& r == 0
}

/// ROL zero page,X: the CPU and bus after it from `c0`/`b0` (PC past the
/// opcode), and its extra cycles `r`.
pub open spec fn rol_zpx_effect(c0: Cpu, b0: Bus, c1: Cpu, b1: Bus, r: u8) -> bool {
    &&& b1.wf()
    &&& exists|v: u8| c1 == #[trigger] rmw_op(RmwOp::Rol, past_operand(c0, Mode::Zpx), v).0
    &&& fetch_plain(Mode::Zpx, c0, b0) && plain(b0, ea_of(Mode::Zpx, c0, b0)) && plain_w(ea_of(Mode::Zpx, c0, b0)) ==> c1 == rmw_op(RmwOp::Rol, past_operand(c0, Mode::Zpx), b0.peek(ea_of(Mode::Zpx, c0, b0))).0 && b1.stored(b0, ea_of(Mode::Zpx, c0, b0), rmw_op(RmwOp::Rol, past_operand(c0, Mode::Zpx), b0.peek(ea_of(Mode::Zpx, c0, b0))).1)
    &&& r == 0
}

/// ROR absolute: the CPU and bus after it from `c0`/`b0` (PC past the
/// opcode), and its extra cycles `r`.
pub open spec fn ror_abs_effect(c0: Cpu, b0: Bus, c1: Cpu, b1: Bus, r: u8) -> bool {
    &&& b1.wf()
    &&& exists|v: u8| c1 == #[trigger] rmw_op(RmwOp::Ror, past_operand(c0, Mode::Abs), v).0
    &&& fetch_plain(Mode::Abs, c0, b0) && plain(b0, ea_of(Mode::Abs, c0, b0)) && plain_w(ea_of(Mode::Abs, c0, b0)) ==> c1 == rmw_op(RmwOp::Ror, past_operand(c0, Mode::Abs), b0.peek(ea_of(Mode::Abs, c0, b0))).0 && b1.stored(b0, ea_of(Mode::Abs, c0, b0), rmw_op(RmwOp::Ror, past_operand(c0, Mode::Abs), b0.peek(ea_of(Mode::Abs, c0, b0))).1)
    &&& r == 0
}

/// ROR absolute,X: the CPU and bus after it from `c0`/`b0` (PC past the
/// opcode), and its extra cycles `r`.
pub open spec fn ror_absx_effect(c0: Cpu, b0: Bus, c1: Cpu, b1: Bus, r: u8) -> bool {
    &&& b1.wf()
    &&& exists|v: u8| c1 == #[trigger] rmw_op(RmwOp::Ror, past_operand(c0, Mode::Absx), v).0
    &&& fetch_plain(Mode::Absx, c0, b0) && plain(b0, ea_of(Mode::Absx, c0, b0)) && plain_w(ea_of(Mode::Absx, c0, b0)) ==> c1 == rmw_op(RmwOp::Ror, past_operand(c0, Mode::Absx), b0.peek(ea_of(Mode::Absx, c0, b0))).0 && b1.stored(b0, ea_of(Mode::Absx, c0, b0), rmw_op(RmwOp::Ror, past_operand(c0, Mode::Absx), b0.peek(ea_of(Mode::Absx, c0, b0))).1)
    &&& r == 0
}

/// ROR zero page: the CPU and bus after it from `c0`/`b0` (PC past the
/// opcode), and its extra cycles `r`.
pub open spec fn ror_zp_effect(c0: Cpu, b0: Bus, c1: Cpu, b1: Bus, r: u8) -> bool {
    &&& b1.wf()
    &&& exists|v: u8| c1 == #[trigger] rmw_op(RmwOp::Ror, past_operand(c0, Mode::Zp), v).0
    &&& fetch_plain(Mode::Zp, c0, b0) && plain(b0, ea_of(Mode::Zp, c0, b0)) && plain_w(ea_of(Mode::Zp, c0, b0)) ==> c1 == rmw_op(RmwOp::Ror, past_operand(c0, Mode::Zp), b0.peek(ea_of(Mode::Zp, c0, b0))).0 && b1.stored(b0, ea_of(Mode::Zp, c0, b0), rmw_op(RmwOp::Ror, past_operand(c0, Mode::Zp), b0.peek(ea_of(Mode::Zp, c0, b0))).1)
    &&& r == 0
}

/// ROR zero page,X: the CPU and bus after it from `c0`/`b0` (PC past the
/// opcode), and its extra cycles `r`.
pub open spec fn ror_zpx_effect(c0: Cpu, b0: Bus, c1: Cpu, b1: Bus, r: u8) -> bool {
    &&& b1.wf()
    &&& exists|v: u8| c1 == #[trigger] rmw_op(RmwOp::Ror, past_operand(c0, Mode::Zpx), v).0
    &&& fetch_plain(Mode::Zpx, c0, b0) && plain(b0, ea_of(Mode::Zpx, c0, b0)) && plain_w(ea_of(Mode::Zpx, c0, b0)) ==> c1 == rmw_op(RmwOp::Ror, past_operand(c0, Mode::Zpx), b0.peek(ea_of(Mode::Zpx, c0, b0))).0 && b1.stored(b0, ea_of(Mode::Zpx, c0, b0), rmw_op(RmwOp::Ror, past_operand(c0, Mode::Zpx), b0.peek(ea_of(Mode::Zpx, c0, b0))).1)
    &&& r == 0
}

/// RRA absolute: the CPU and bus after it from `c0`/`b0` (PC past the
/// opcode), and its extra cycles `r`.
pub open spec fn rra_abs_effect(c0: Cpu, b0: Bus, c1: Cpu, b1: Bus, r: u8) -> bool {
    &&& b1.wf()
    &&& exists|v: u8| c1 == #[trigger] rmw_op(RmwOp::Rra, past_operand(c0, Mode::Abs), v).0
    &&& fetch_plain(Mode::Abs, c0, b0) && plain(b0, ea_of(Mode::Abs, c0, b0)) && plain_w(ea_of(Mode::Abs, c0, b0)) ==> c1 == rmw_op(RmwOp::Rra, past_operand(c0, Mode::Abs), b0.peek(ea_of(Mode::Abs, c0, b0))).0 && b1.stored(b0, ea_of(Mode::Abs, c0, b0), rmw_op(RmwOp::Rra, past_operand(c0, Mode::Abs), b0.peek(ea_of(Mode::Abs, c0, b0))).1)
    &&& r == 0
}

/// RRA absolute,X: the CPU and bus after it from `c0`/`b0` (PC past the
/// opcode), and its extra cycles `r`.
pub open spec fn rra_absx_effect(c0: Cpu, b0: Bus, c1: Cpu, b1: Bus, r: u8) -> bool {
    &&& b1.wf()
    &&& exists|v: u8| c1 == #[trigger] rmw_op(RmwOp::Rra, past_operand(c0, Mode::Absx), v).0
    &&& fetch_plain(Mode::Absx, c0, b0) && plain(b0, ea_of(Mode::Absx, c0, b0)) && plain_w(ea_of(Mode::Absx, c0, b0)) ==> c1 == rmw_op(RmwOp::Rra, past_operand(c0, Mode::Absx), b0.peek(ea_of(Mode::Absx, c0, b0))).0 && b1.stored(b0, ea_of(Mode::Absx, c0, b0), rmw_op(RmwOp::Rra, past_operand(c0, Mode::Absx), b0.peek(ea_of(Mode::Absx, c0, b0))).1)
    &&& r == 0
}

/// RRA absolute,Y: the CPU and bus after it from `c0`/`b0` (PC past the
/// opcode), and its extra cycles `r`.
pub open spec fn rra_absy_effect(c0: Cpu, b0: Bus, c1: Cpu, b1: Bus, r: u8) -> bool {
    &&& b1.wf()
    &&& exists|v: u8| c1 == #[trigger] rmw_op(RmwOp::Rra, past_operand(c0, Mode::Absy), v).0
    &&& fetch_plain(Mode::Absy, c0, b0) && plain(b0, ea_of(Mode::Absy, c0, b0)) && plain_w(ea_of(Mode::Absy, c0, b0)) ==> c1 == rmw_op(RmwOp::Rra, past_operand(c0, Mode::Absy), b0.peek(ea_of(Mode::Absy, c0, b0))).0 && b1.stored(b0, ea_of(Mode::Absy, c0, b0), rmw_op(RmwOp::Rra, past_operand(c0, Mode::Absy), b0.peek(ea_of(Mode::Absy, c0, b0))).1)
    &&& r == 0
}

/// RRA (zero page,X): the CPU and bus after it from `c0`/`b0` (PC past the
/// opcode), and its extra cycles `r`.
pub open spec fn rra_indx_effect(c0: Cpu, b0: Bus, c1: Cpu, b1: Bus, r: u8) -> bool {
    &&& b1.wf()
    &&& exists|v: u8| c1 == #[trigger] rmw_op(RmwOp::Rra, past_operand(c0, Mode::Indx), v).0
    &&& fetch_plain(Mode::Indx, c0, b0) && plain(b0, ea_of(Mode::Indx, c0, b0)) && plain_w(ea_of(Mode::Indx, c0, b0)) ==> c1 == rmw_op(RmwOp::Rra, past_operand(c0, Mode::Indx), b0.peek(ea_of(Mode::Indx, c0, b0))).0 && b1.stored(b0, ea_of(Mode::Indx, c0, b0), rmw_op(RmwOp::Rra, past_operand(c0, Mode::Indx), b0.peek(ea_of(Mode::Indx, c0, b0))).1)
    &&& r == 0
}

/// RRA (zero page),Y: the CPU and bus after it from `c0`/`b0` (PC past the
/// opcode), and its extra cycles `r`.
pub open spec fn rra_indy_effect(c0: Cpu, b0: Bus, c1: Cpu, b1: Bus, r: u8) -> bool {
    &&& b1.wf()
    &&& exists|v: u8| c1 == #[trigger] rmw_op(RmwOp::Rra, past_operand(c0, Mode::Indy), v).0
    &&& fetch_plain(Mode::Indy, c0, b0) && plain(b0, ea_of(Mode::Indy, c0, b0)) && plain_w(ea_of(Mode::Indy, c0, b0)) ==> c1 == rmw_op(RmwOp::Rra, past_operand(c0, Mode::Indy), b0.peek(ea_of(Mode::Indy, c0, b0))).0 && b1.stored(b0, ea_of(Mode::Indy, c0, b0), rmw_op(RmwOp::Rra, past_operand(c0, Mode::Indy), b0.peek(ea_of(Mode::Indy, c0, b0))).1)
    &&& r == 0
}

/// RRA zero page: the CPU and bus after it from `c0`/`b0` (PC past the
/// opcode), and its extra cycles `r`.
pub open spec fn rra_zp_effect(c0: Cpu, b0: Bus, c1: Cpu, b1: Bus, r: u8) -> bool {
    &&& b1.wf()
    &&& exists|v: u8| c1 == #[trigger] rmw_op(RmwOp::Rra, past_operand(c0, Mode::Zp), v).0
    &&& fetch_plain(Mode::Zp, c0, b0) && plain(b0, ea_of(Mode::Zp, c0, b0)) && plain_w(ea_of(Mode::Zp, c0, b0)) ==> c1 == rmw_op(RmwOp::Rra, past_operand(c0, Mode::Zp), b0.peek(ea_of(Mode::Zp, c0, b0))).0 && b1.stored(b0, ea_of(Mode::Zp, c0, b0), rmw_op(RmwOp::Rra, past_operand(c0, Mode::Zp), b0.peek(ea_of(Mode::Zp, c0, b0))).1)
    &&& r == 0
}

/// RRA zero page,X: the CPU and bus after it from `c0`/`b0` (PC past the
/// opcode), and its extra cycles `r`.
pub open spec fn rra_zpx_effect(c0: Cpu, b0: Bus, c1: Cpu, b1: Bus, r: u8) -> bool {
    &&& b1.wf()
    &&& exists|v: u8| c1 == #[trigger] rmw_op(RmwOp::Rra, past_operand(c0, Mode::Zpx), v).0
    &&& fetch_plain(Mode::Zpx, c0, b0) && plain(b0, ea_of(Mode::Zpx, c0, b0)) && plain_w(ea_of(Mode::Zpx, c0, b0)) ==> c1 == rmw_op(RmwOp::Rra, past_operand(c0, Mode::Zpx), b0.peek(ea_of(Mode::Zpx, c0, b0))).0 && b1.stored(b0, ea_of(Mode::Zpx, c0, b0), rmw_op(RmwOp::Rra, past_operand(c0, Mode::Zpx), b0.peek(ea_of(Mode::Zpx, c0, b0))).1)
    &&& r == 0
}

/// SAX absolute: the CPU and bus after it from `c0`/`b0` (PC past the
/// opcode), and its extra cycles `r`.
pub open spec fn sax_abs_effect(c0: Cpu, b0: Bus, c1: Cpu, b1: Bus, r: u8) -> bool {
    &&& b1.wf()
    &&& c1 == past_operand(c0, Mode::Abs)
    &&& fetch_plain(Mode::Abs, c0, b0) && plain_w(ea_of(Mode::Abs, c0, b0)) ==> b1.stored(b0, ea_of(Mode::Abs, c0, b0), c0.a & c0.x)
    &&& r == 0
}

/// SAX (zero page,X): the CPU and bus after it from `c0`/`b0` (PC past the
/// opcode), and its extra cycles `r`.
pub open spec fn sax_indx_effect(c0: Cpu, b0: Bus, c1: Cpu, b1: Bus, r: u8) -> bool {
    &&& b1.wf()
    &&& c1 == past_operand(c0, Mode::Indx)
    &&& fetch_plain(Mode::Indx, c0, b0) && plain_w(ea_of(Mode::Indx, c0, b0)) ==> b1.stored(b0, ea_of(Mode::Indx, c0, b0), c0.a & c0.x)
    &&& r == 0
}

/// SAX zero page: the CPU and bus after it from `c0`/`b0` (PC past the
/// opcode), and its extra cycles `r`.
pub open spec fn sax_zp_effect(c0: Cpu, b0: Bus, c1: Cpu, b1: Bus, r: u8) -> bool {
    &&& b1.wf()
    &&& c1 == past_operand(c0, Mode::Zp)
    &&& fetch_plain(Mode::Zp, c0, b0) && plain_w(ea_of(Mode::Zp, c0, b0)) ==> b1.stored(b0, ea_of(Mode::Zp, c0, b0), c0.a & c0.x)
    &&& r == 0
}

/// SAX zero page,Y: the CPU and bus after it from `c0`/`b0` (PC past the
/// opcode), and its extra cycles `r`.
pub open spec fn sax_zpy_effect(c0: Cpu, b0: Bus, c1: Cpu, b1: Bus, r: u8) -> bool {
    &&& b1.wf()
    &&& c1 == past_operand(c0, Mode::Zpy)
    &&& fetch_plain(Mode::Zpy, c0, b0) && plain_w(ea_of(Mode::Zpy, c0, b0)) ==> b1.stored(b0, ea_of(Mode::Zpy, c0, b0), c0.a & c0.x)
    &&& r == 0
}

/// SBC absolute: the CPU and bus after it from `c0`/`b0` (PC past the
/// opcode), and its extra cycles `r`.
pub open spec fn sbc_abs_effect(c0: Cpu, b0: Bus, c1: Cpu, b1: Bus, r: u8) -> bool {
    &&& b1.wf()
    &&& exists|v: u8| c1 == #[trigger] read_op(ReadOp::Sbc, past_operand(c0, Mode::Abs), v)
    &&& fetch_plain(Mode::Abs, c0, b0) && plain(b0, ea_of(Mode::Abs, c0, b0)) ==> c1 == read_op(ReadOp::Sbc, past_operand(c0, Mode::Abs), b0.peek(ea_of(Mode::Abs, c0, b0))) && b1 == b0
    &&& r == 0
}

/// SBC absolute,X: the CPU and bus after it from `c0`/`b0` (PC past the
/// opcode), and its extra cycles `r`.
pub open spec fn sbc_absx_effect(c0: Cpu, b0: Bus, c1: Cpu, b1: Bus, r: u8) -> bool {
    &&& b1.wf()
    &&& exists|v: u8| c1 == #[trigger] read_op(ReadOp::Sbc, past_operand(c0, Mode::Absx), v)
    &&& fetch_plain(Mode::Absx, c0, b0) && plain(b0, ea_of(Mode::Absx, c0, b0)) ==> c1 == read_op(ReadOp::Sbc, past_operand(c0, Mode::Absx), b0.peek(ea_of(Mode::Absx, c0, b0))) && b1 == b0 && r == (if crossed(Mode::Absx, c0, b0) { 1u8 } else { 0u8 })
    &&& r <= 1
}

/// SBC absolute,Y: the CPU and bus after it from `c0`/`b0` (PC past the
/// opcode), and its extra cycles `r`.
pub open spec fn sbc_absy_effect(c0: Cpu, b0: Bus, c1: Cpu, b1: Bus, r: u8) -> bool {
    &&& b1.wf()
    &&& exists|v: u8| c1 == #[trigger] read_op(ReadOp::Sbc, past_operand(c0, Mode::Absy), v)
    &&& fetch_plain(Mode::Absy, c0, b0) && plain(b0, ea_of(Mode::Absy, c0, b0)) ==> c1 == read_op(ReadOp::Sbc, past_operand(c0, Mode::Absy), b0.peek(ea_of(Mode::Absy, c0, b0))) && b1 == b0 && r == (if crossed(Mode::Absy, c0, b0) { 1u8 } else { 0u8 })
    &&& r <= 1
}

/// SBC immediate: the CPU and bus after it from `c0`/`b0` (PC past the
/// opcode), and its extra cycles `r`.
pub open spec fn sbc_imm_effect(c0: Cpu, b0: Bus, c1: Cpu, b1: Bus, r: u8) -> bool {
    &&& b1.wf()
    &&& exists|v: u8| c1 == #[trigger] read_op(ReadOp::Sbc, past_operand(c0, Mode::Imm), v)
    &&& fetch_plain(Mode::Imm, c0, b0) ==> c1 == read_op(ReadOp::Sbc, past_operand(c0, Mode::Imm), b0.peek(ea_of(Mode::Imm, c0, b0))) && b1 == b0
    &&& r == 0
}

/// SBC imm_eb: the CPU and bus after it from `c0`/`b0` (PC past the
/// opcode), and its extra cycles `r`.
pub open spec fn sbc_imm_eb_effect(c0: Cpu, b0: Bus, c1: Cpu, b1: Bus, r: u8) -> bool {
    &&& b1.wf()
    &&& exists|v: u8| c1 == #[trigger] read_op(ReadOp::Sbc, past_operand(c0, Mode::Imm), v)
    &&& fetch_plain(Mode::Imm, c0, b0) ==> c1 == read_op(ReadOp::Sbc, past_operand(c0, Mode::Imm), b0.peek(ea_of(Mode::Imm, c0, b0))) && b1 == b0
    &&& r == 0
}

/// SBC (zero page): the CPU and bus after it from `c0`/`b0` (PC past the
/// opcode), and its extra cycles `r`.
pub open spec fn sbc_ind_zp_effect(c0: Cpu, b0: Bus, c1: Cpu, b1: Bus, r: u8) -> bool {
    &&& b1.wf()
    &&& exists|v: u8| c1 == #[trigger] read_op(ReadOp::Sbc, past_operand(c0, Mode::IndZp), v)
    &&& fetch_plain(Mode::IndZp, c0, b0) && plain(b0, ea_of(Mode::IndZp, c0, b0)) ==> c1 == read_op(ReadOp::Sbc, past_operand(c0, Mode::IndZp), b0.peek(ea_of(Mode::IndZp, c0, b0))) && b1 == b0
    &&& r == 0
}

/// SBC (zero page,X): the CPU and bus after it from `c0`/`b0` (PC past the
/// opcode), and its extra cycles `r`.
pub open spec fn sbc_indx_effect(c0: Cpu, b0: Bus, c1: Cpu, b1: Bus, r: u8) -> bool {
    &&& b1.wf()
    &&& exists|v: u8| c1 == #[trigger] read_op(ReadOp::Sbc, past_operand(c0, Mode::Indx), v)
    &&& fetch_plain(Mode::Indx, c0, b0) && plain(b0, ea_of(Mode::Indx, c0, b0)) ==> c1 == read_op(ReadOp::Sbc, past_operand(c0, Mode::Indx), b0.peek(ea_of(Mode::Indx, c0, b0))) && b1 == b0
    &&& r == 0
}

/// SBC (zero page),Y: the CPU and bus after it from `c0`/`b0` (PC past the
/// opcode), and its extra cycles `r`.
pub open spec fn sbc_indy_effect(c0: Cpu, b0: Bus, c1: Cpu, b1: Bus, r: u8) -> bool {
    &&& b1.wf()
    &&& exists|v: u8| c1 == #[trigger] read_op(ReadOp::Sbc, past_operand(c0, Mode::Indy), v)
    &&& fetch_plain(Mode::Indy, c0, b0) && plain(b0, ea_of(Mode::Indy, c0, b0)) ==> c1 == read_op(ReadOp::Sbc, past_operand(c0, Mode::Indy), b0.peek(ea_of(Mode::Indy, c0, b0))) && b1 == b0 && r == (if crossed(Mode::Indy, c0, b0) { 1u8 } else { 0u8 })
    &&& r <= 1
}

/// SBC zero page: the CPU and bus after it from `c0`/`b0` (PC past the
/// opcode), and its extra cycles `r`.
pub open spec fn sbc_zp_effect(c0: Cpu, b0: Bus, c1: Cpu, b1: Bus, r: u8) -> bool {
    &&& b1.wf()
    &&& exists|v: u8| c1 == #[trigger] read_op(ReadOp::Sbc, past_operand(c0, Mode::Zp), v)
    &&& fetch_plain(Mode::Zp, c0, b0) && plain(b0, ea_of(Mode::Zp, c0, b0)) ==> c1 == read_op(ReadOp::Sbc, past_operand(c0, Mode::Zp), b0.peek(ea_of(Mode::Zp, c0, b0))) && b1 == b0
    &&& r == 0
}

/// SBC zero page,X: the CPU and bus after it from `c0`/`b0` (PC past the
/// opcode), and its extra cycles `r`.
pub open spec fn sbc_zpx_effect(c0: Cpu, b0: Bus, c1: Cpu, b1: Bus, r: u8) -> bool {
    &&& b1.wf()
    &&& exists|v: u8| c1 == #[trigger] read_op(ReadOp::Sbc, past_operand(c0, Mode::Zpx), v)
    &&& fetch_plain(Mode::Zpx, c0, b0) && plain(b0, ea_of(Mode::Zpx, c0, b0)) ==> c1 == read_op(ReadOp::Sbc, past_operand(c0, Mode::Zpx), b0.peek(ea_of(Mode::Zpx, c0, b0))) && b1 == b0
    &&& r == 0
}

/// SBX: the CPU and bus after it from `c0`/`b0` (PC past the
/// opcode), and its extra cycles `r`.
pub open spec fn sbx_effect(c0: Cpu, b0: Bus, c1: Cpu, b1: Bus, r: u8) -> bool {
    &&& b1.wf()
    &&& exists|v: u8| c1 == #[trigger] read_op(ReadOp::Sbx, past_operand(c0, Mode::Imm), v)
    &&& fetch_plain(Mode::Imm, c0, b0) ==> c1 == read_op(ReadOp::Sbx, past_operand(c0, Mode::Imm), b0.peek(ea_of(Mode::Imm, c0, b0))) && b1 == b0
    &&& r == 0
}

/// SLO absolute: the CPU and bus after it from `c0`/`b0` (PC past the
/// opcode), and its extra cycles `r`.
pub open spec fn slo_abs_effect(c0: Cpu, b0: Bus, c1: Cpu, b1: Bus, r: u8) -> bool {
    &&& b1.wf()
    &&& exists|v: u8| c1 == #[trigger] rmw_op(RmwOp::Slo, past_operand(c0, Mode::Abs), v).0
    &&& fetch_plain(Mode::Abs, c0, b0) && plain(b0, ea_of(Mode::Abs, c0, b0)) && plain_w(ea_of(Mode::Abs, c0, b0)) ==> c1 == rmw_op(RmwOp::Slo, past_operand(c0, Mode::Abs), b0.peek(ea_of(Mode::Abs, c0, b0))).0 && b1.stored(b0, ea_of(Mode::Abs, c0, b0), rmw_op(RmwOp::Slo, past_operand(c0, Mode::Abs), b0.peek(ea_of(Mode::Abs, c0, b0))).1)
    &&& r == 0
}

/// SLO absolute,X: the CPU and bus after it from `c0`/`b0` (PC past the
/// opcode), and its extra cycles `r`.
pub open spec fn slo_absx_effect(c0: Cpu, b0: Bus, c1: Cpu, b1: Bus, r: u8) -> bool {
    &&& b1.wf()
    &&& exists|v: u8| c1 == #[trigger] rmw_op(RmwOp::Slo, past_operand(c0, Mode::Absx), v).0
    &&& fetch_plain(Mode::Absx, c0, b0) && plain(b0, ea_of(Mode::Absx, c0, b0)) && plain_w(ea_of(Mode::Absx, c0, b0)) ==> c1 == rmw_op(RmwOp::Slo, past_operand(c0, Mode::Absx), b0.peek(ea_of(Mode::Absx, c0, b0))).0 && b1.stored(b0, ea_of(Mode::Absx, c0, b0), rmw_op(RmwOp::Slo, past_operand(c0, Mode::Absx), b0.peek(ea_of(Mode::Absx, c0, b0))).1)
    &&& r == 0
}

/// SLO absolute,Y: the CPU and bus after it from `c0`/`b0` (PC past the
/// opcode), and its extra cycles `r`.
pub open spec fn slo_absy_effect(c0: Cpu, b0: Bus, c1: Cpu, b1: Bus, r: u8) -> bool {
    &&& b1.wf()
    &&& exists|v: u8| c1 == #[trigger] rmw_op(RmwOp::Slo, past_operand(c0, Mode::Absy), v).0
    &&& fetch_plain(Mode::Absy, c0, b0) && plain(b0, ea_of(Mode::Absy, c0, b0)) && plain_w(ea_of(Mode::Absy, c0, b0)) ==> c1 == rmw_op(RmwOp::Slo, past_operand(c0, Mode::Absy), b0.peek(ea_of(Mode::Absy, c0, b0))).0 && b1.stored(b0, ea_of(Mode::Absy, c0, b0), rmw_op(RmwOp::Slo, past_operand(c0, Mode::Absy), b0.peek(ea_of(Mode::Absy, c0, b0))).1)
    &&& r == 0
}

/// SLO (zero page,X): the CPU and bus after it from `c0`/`b0` (PC past the
/// opcode), and its extra cycles `r`.
pub open spec fn slo_indx_effect(c0: Cpu, b0: Bus, c1: Cpu, b1: Bus, r: u8) -> bool {
    &&& b1.wf()
    &&& exists|v: u8| c1 == #[trigger] rmw_op(RmwOp::Slo, past_operand(c0, Mode::Indx), v).0
    &&& fetch_plain(Mode::Indx, c0, b0) && plain(b0, ea_of(Mode::Indx, c0, b0)) && plain_w(ea_of(Mode::Indx, c0, b0)) ==> c1 == rmw_op(RmwOp::Slo, past_operand(c0, Mode::Indx), b0.peek(ea_of(Mode::Indx, c0, b0))).0 && b1.stored(b0, ea_of(Mode::Indx, c0, b0), rmw_op(RmwOp::Slo, past_operand(c0, Mode::Indx), b0.peek(ea_of(Mode::Indx, c0, b0))).1)
    &&& r == 0
}

/// SLO (zero page),Y: the CPU and bus after it from `c0`/`b0` (PC past the
/// opcode), and its extra cycles `r`.
pub open spec fn slo_indy_effect(c0: Cpu, b0: Bus, c1: Cpu, b1: Bus, r: u8) -> bool {
    &&& b1.wf()
    &&& exists|v: u8| c1 == #[trigger] rmw_op(RmwOp::Slo, past_operand(c0, Mode::Indy), v).0
    &&& fetch_plain(Mode::Indy, c0, b0) && plain(b0, ea_of(Mode::Indy, c0, b0)) && plain_w(ea_of(Mode::Indy, c0, b0)) ==> c1 == rmw_op(RmwOp::Slo, past_operand(c0, Mode::Indy), b0.peek(ea_of(Mode::Indy, c0, b0))).0 && b1.stored(b0, ea_of(Mode::Indy, c0, b0), rmw_op(RmwOp::Slo, past_operand(c0, Mode::Indy), b0.peek(ea_of(Mode::Indy, c0, b0))).1)
    &&& r == 0
}

/// SLO zero page: the CPU and bus after it from `c0`/`b0` (PC past the
/// opcode), and its extra cycles `r`.
pub open spec fn slo_zp_effect(c0: Cpu, b0: Bus, c1: Cpu, b1: Bus, r: u8) -> bool {
    &&& b1.wf()
    &&& exists|v: u8| c1 == #[trigger] rmw_op(RmwOp::Slo, past_operand(c0, Mode::Zp), v).0
    &&& fetch_plain(Mode::Zp, c0, b0) && plain(b0, ea_of(Mode::Zp, c0, b0)) && plain_w(ea_of(Mode::Zp, c0, b0)) ==> c1 == rmw_op(RmwOp::Slo, past_operand(c0, Mode::Zp), b0.peek(ea_of(Mode::Zp, c0, b0))).0 && b1.stored(b0, ea_of(Mode::Zp, c0, b0), rmw_op(RmwOp::Slo, past_operand(c0, Mode::Zp), b0.peek(ea_of(Mode::Zp, c0, b0))).1)
    &&& r == 0
}

/// SLO zero page,X: the CPU and bus after it from `c0`/`b0` (PC past the
/// opcode), and its extra cycles `r`.
pub open spec fn slo_zpx_effect(c0: Cpu, b0: Bus, c1: Cpu, b1: Bus, r: u8) -> bool {
    &&& b1.wf()
    &&& exists|v: u8| c1 == #[trigger] rmw_op(RmwOp::Slo, past_operand(c0, Mode::Zpx), v).0
    &&& fetch_plain(Mode::Zpx, c0, b0) && plain(b0, ea_of(Mode::Zpx, c0, b0)) && plain_w(ea_of(Mode::Zpx, c0, b0)) ==> c1 == rmw_op(RmwOp::Slo, past_operand(c0, Mode::Zpx), b0.peek(ea_of(Mode::Zpx, c0, b0))).0 && b1.stored(b0, ea_of(Mode::Zpx, c0, b0), rmw_op(RmwOp::Slo, past_operand(c0, Mode::Zpx), b0.peek(ea_of(Mode::Zpx, c0, b0))).1)
    &&& r == 0
}

/// SRE absolute: the CPU and bus after it from `c0`/`b0` (PC past the
/// opcode), and its extra cycles `r`.
pub open spec fn sre_abs_effect(c0: Cpu, b0: Bus, c1: Cpu, b1: Bus, r: u8) -> bool {
    &&& b1.wf()
    &&& exists|v: u8| c1 == #[trigger] rmw_op(RmwOp::Sre, past_operand(c0, Mode::Abs), v).0
    &&& fetch_plain(Mode::Abs, c0, b0) && plain(b0, ea_of(Mode::Abs, c0, b0)) && plain_w(ea_of(Mode::Abs, c0, b0)) ==> c1 == rmw_op(RmwOp::Sre, past_operand(c0, Mode::Abs), b0.peek(ea_of(Mode::Abs, c0, b0))).0 && b1.stored(b0, ea_of(Mode::Abs, c0, b0), rmw_op(RmwOp::Sre, past_operand(c0, Mode::Abs), b0.peek(ea_of(Mode::Abs, c0, b0))).1)
    &&& r == 0
}

/// SRE absolute,X: the CPU and bus after it from `c0`/`b0` (PC past the
/// opcode), and its extra cycles `r`.
pub open spec fn sre_absx_effect(c0: Cpu, b0: Bus, c1: Cpu, b1: Bus, r: u8) -> bool {
    &&& b1.wf()
    &&& exists|v: u8| c1 == #[trigger] rmw_op(RmwOp::Sre, past_operand(c0, Mode::Absx), v).0
    &&& fetch_plain(Mode::Absx, c0, b0) && plain(b0, ea_of(Mode::Absx, c0, b0)) && plain_w(ea_of(Mode::Absx, c0, b0)) ==> c1 == rmw_op(RmwOp::Sre, past_operand(c0, Mode::Absx), b0.peek(ea_of(Mode::Absx, c0, b0))).0 && b1.stored(b0, ea_of(Mode::Absx, c0, b0), rmw_op(RmwOp::Sre, past_operand(c0, Mode::Absx), b0.peek(ea_of(Mode::Absx, c0, b0))).1)
    &&& r == 0
}

/// SRE absolute,Y: the CPU and bus after it from `c0`/`b0` (PC past the
/// opcode), and its extra cycles `r`.
pub open spec fn sre_absy_effect(c0: Cpu, b0: Bus, c1: Cpu, b1: Bus, r: u8) -> bool {
    &&& b1.wf()
    &&& exists|v: u8| c1 == #[trigger] rmw_op(RmwOp::Sre, past_operand(c0, Mode::Absy), v).0
    &&& fetch_plain(Mode::Absy, c0, b0) && plain(b0, ea_of(Mode::Absy, c0, b0)) && plain_w(ea_of(Mode::Absy, c0, b0)) ==> c1 == rmw_op(RmwOp::Sre, past_operand(c0, Mode::Absy), b0.peek(ea_of(Mode::Absy, c0, b0))).0 && b1.stored(b0, ea_of(Mode::Absy, c0, b0), rmw_op(RmwOp::Sre, past_operand(c0, Mode::Absy), b0.peek(ea_of(Mode::Absy, c0, b0))).1)
    &&& r == 0
}

/// SRE (zero page,X): the CPU and bus after it from `c0`/`b0` (PC past the
/// opcode), and its extra cycles `r`.
pub open spec fn sre_indx_effect(c0: Cpu, b0: Bus, c1: Cpu, b1: Bus, r: u8) -> bool {
    &&& b1.wf()
    &&& exists|v: u8| c1 == #[trigger] rmw_op(RmwOp::Sre, past_operand(c0, Mode::Indx), v).0
    &&& fetch_plain(Mode::Indx, c0, b0) && plain(b0, ea_of(Mode::Indx, c0, b0)) && plain_w(ea_of(Mode::Indx, c0, b0)) ==> c1 == rmw_op(RmwOp::Sre, past_operand(c0, Mode::Indx), b0.peek(ea_of(Mode::Indx, c0, b0))).0 && b1.stored(b0, ea_of(Mode::Indx, c0, b0), rmw_op(RmwOp::Sre, past_operand(c0, Mode::Indx), b0.peek(ea_of(Mode::Indx, c0, b0))).1)
    &&& r == 0
}

/// SRE (zero page),Y: the CPU and bus after it from `c0`/`b0` (PC past the
/// opcode), and its extra cycles `r`.
pub open spec fn sre_indy_effect(c0: Cpu, b0: Bus, c1: Cpu, b1: Bus, r: u8) -> bool {
    &&& b1.wf()
    &&& exists|v: u8| c1 == #[trigger] rmw_op(RmwOp::Sre, past_operand(c0, Mode::Indy), v).0
    &&& fetch_plain(Mode::Indy, c0, b0) && plain(b0, ea_of(Mode::Indy, c0, b0)) && plain_w(ea_of(Mode::Indy, c0, b0)) ==> c1 == rmw_op(RmwOp::Sre, past_operand(c0, Mode::Indy), b0.peek(ea_of(Mode::Indy, c0, b0))).0 && b1.stored(b0, ea_of(Mode::Indy, c0, b0), rmw_op(RmwOp::Sre, past_operand(c0, Mode::Indy), b0.peek(ea_of(Mode::Indy, c0, b0))).1)
    &&& r == 0
}

/// SRE zero page: the CPU and bus after it from `c0`/`b0` (PC past the
/// opcode), and its extra cycles `r`.
pub open spec fn sre_zp_effect(c0: Cpu, b0: Bus, c1: Cpu, b1: Bus, r: u8) -> bool {
    &&& b1.wf()
    &&& exists|v: u8| c1 == #[trigger] rmw_op(RmwOp::Sre, past_operand(c0, Mode::Zp), v).0
    &&& fetch_plain(Mode::Zp, c0, b0) && plain(b0, ea_of(Mode::Zp, c0, b0)) && plain_w(ea_of(Mode::Zp, c0, b0)) ==> c1 == rmw_op(RmwOp::Sre, past_operand(c0, Mode::Zp), b0.peek(ea_of(Mode::Zp, c0, b0))).0 && b1.stored(b0, ea_of(Mode::Zp, c0, b0), rmw_op(RmwOp::Sre, past_operand(c0, Mode::Zp), b0.peek(ea_of(Mode::Zp, c0, b0))).1)
    &&& r == 0
}

/// SRE zero page,X: the CPU and bus after it from `c0`/`b0` (PC past the
/// opcode), and its extra cycles `r`.
pub open spec fn sre_zpx_effect(c0: Cpu, b0: Bus, c1: Cpu, b1: Bus, r: u8) -> bool {
    &&& b1.wf()
    &&& exists|v: u8| c1 == #[trigger] rmw_op(RmwOp::Sre, past_operand(c0, Mode::Zpx), v).0
    &&& fetch_plain(Mode::Zpx, c0, b0) && plain(b0, ea_of(Mode::Zpx, c0, b0)) && plain_w(ea_of(Mode::Zpx, c0, b0)) ==> c1 == rmw_op(RmwOp::Sre, past_operand(c0, Mode::Zpx), b0.peek(ea_of(Mode::Zpx, c0, b0))).0 && b1.stored(b0, ea_of(Mode::Zpx, c0, b0), rmw_op(RmwOp::Sre, past_operand(c0, Mode::Zpx), b0.peek(ea_of(Mode::Zpx, c0, b0))).1)
    &&& r == 0
}

/// STA absolute: the CPU and bus after it from `c0`/`b0` (PC past the
/// opcode), and its extra cycles `r`.
pub open spec fn sta_abs_effect(c0: Cpu, b0: Bus, c1: Cpu, b1: Bus, r: u8) -> bool {
    &&& b1.wf()
    &&& c1 == past_operand(c0, Mode::Abs)
    &&& fetch_plain(Mode::Abs, c0, b0) && plain_w(ea_of(Mode::Abs, c0, b0)) ==> b1.stored(b0, ea_of(Mode::Abs, c0, b0), c0.a)
    &&& r == 0
}

/// STA absolute,X: the CPU and bus after it from `c0`/`b0` (PC past the
/// opcode), and its extra cycles `r`.
pub open spec fn sta_absx_effect(c0: Cpu, b0: Bus, c1: Cpu, b1: Bus, r: u8) -> bool {
    &&& b1.wf()
    &&& c1 == past_operand(c0, Mode::Absx)
    &&& fetch_plain(Mode::Absx, c0, b0) && plain_w(ea_of(Mode::Absx, c0, b0)) ==> b1.stored(b0, ea_of(Mode::Absx, c0, b0), c0.a)
    &&& r == 0
}

/// STA absolute,Y: the CPU and bus after it from `c0`/`b0` (PC past the
/// opcode), and its extra cycles `r`.
pub open spec fn sta_absy_effect(c0: Cpu, b0: Bus, c1: Cpu, b1: Bus, r: u8) -> bool {
    &&& b1.wf()
    &&& c1 == past_operand(c0, Mode::Absy)
    &&& fetch_plain(Mode::Absy, c0, b0) && plain_w(ea_of(Mode::Absy, c0, b0)) ==> b1.stored(b0, ea_of(Mode::Absy, c0, b0), c0.a)
    &&& r == 0
}

/// STA (zero page): the CPU and bus after it from `c0`/`b0` (PC past the
/// opcode), and its extra cycles `r`.
pub open spec fn sta_ind_zp_effect(c0: Cpu, b0: Bus, c1: Cpu, b1: Bus, r: u8) -> bool {
    &&& b1.wf()
    &&& c1 == past_operand(c0, Mode::IndZp)
    &&& fetch_plain(Mode::IndZp, c0, b0) && plain_w(ea_of(Mode::IndZp, c0, b0)) ==> b1.stored(b0, ea_of(Mode::IndZp, c0, b0), c0.a)
    &&& r == 0
}

/// STA (zero page,X): the CPU and bus after it from `c0`/`b0` (PC past the
/// opcode), and its extra cycles `r`.
pub open spec fn sta_indx_effect(c0: Cpu, b0: Bus, c1: Cpu, b1: Bus, r: u8) -> bool {
    &&& b1.wf()
    &&& c1 == past_operand(c0, Mode::Indx)
    &&& fetch_plain(Mode::Indx, c0, b0) && plain_w(ea_of(Mode::Indx, c0, b0)) ==> b1.stored(b0, ea_of(Mode::Indx, c0, b0), c0.a)
    &&& r == 0
}

/// STA (zero page),Y: the CPU and bus after it from `c0`/`b0` (PC past the
/// opcode), and its extra cycles `r`.
pub open spec fn sta_indy_effect(c0: Cpu, b0: Bus, c1: Cpu, b1: Bus, r: u8) -> bool {
    &&& b1.wf()
    &&& c1 == past_operand(c0, Mode::Indy)
    &&& fetch_plain(Mode::Indy, c0, b0) && plain_w(ea_of(Mode::Indy, c0, b0)) ==> b1.stored(b0, ea_of(Mode::Indy, c0, b0), c0.a)
    &&& r == 0
}

/// STA zero page: the CPU and bus after it from `c0`/`b0` (PC past the
/// opcode), and its extra cycles `r`.
pub open spec fn sta_zp_effect(c0: Cpu, b0: Bus, c1: Cpu, b1: Bus, r: u8) -> bool {
    &&& b1.wf()
    &&& c1 == past_operand(c0, Mode::Zp)
    &&& fetch_plain(Mode::Zp, c0, b0) && plain_w(ea_of(Mode::Zp, c0, b0)) ==> b1.stored(b0, ea_of(Mode::Zp, c0, b0), c0.a)
    &&& r == 0
}

/// STA zero page,X: the CPU and bus after it from `c0`/`b0` (PC past the
/// opcode), and its extra cycles `r`.
pub open spec fn sta_zpx_effect(c0: Cpu, b0: Bus, c1: Cpu, b1: Bus, r: u8) -> bool {
    &&& b1.wf()
    &&& c1 == past_operand(c0, Mode::Zpx)
    &&& fetch_plain(Mode::Zpx, c0, b0) && plain_w(ea_of(Mode::Zpx, c0, b0)) ==> b1.stored(b0, ea_of(Mode::Zpx, c0, b0), c0.a)
    &&& r == 0
}

/// STX absolute: the CPU and bus after it from `c0`/`b0` (PC past the
/// opcode), and its extra cycles `r`.
pub open spec fn stx_abs_effect(c0: Cpu, b0: Bus, c1: Cpu, b1: Bus, r: u8) -> bool {
    &&& b1.wf()
    &&& c1 == past_operand(c0, Mode::Abs)
    &&& fetch_plain(Mode::Abs, c0, b0) && plain_w(ea_of(Mode::Abs, c0, b0)) ==> b1.stored(b0, ea_of(Mode::Abs, c0, b0), c0.x)
    &&& r == 0
}

/// STX zero page: the CPU and bus after it from `c0`/`b0` (PC past the
/// opcode), and its extra cycles `r`.
pub open spec fn stx_zp_effect(c0: Cpu, b0: Bus, c1: Cpu, b1: Bus, r: u8) -> bool {
    &&& b1.wf()
    &&& c1 == past_operand(c0, Mode::Zp)
    &&& fetch_plain(Mode::Zp, c0, b0) && plain_w(ea_of(Mode::Zp, c0, b0)) ==> b1.stored(b0, ea_of(Mode::Zp, c0, b0), c0.x)
    &&& r == 0
}

/// STX zero page,Y: the CPU and bus after it from `c0`/`b0` (PC past the
/// opcode), and its extra cycles `r`.
pub open spec fn stx_zpy_effect(c0: Cpu, b0: Bus, c1: Cpu, b1: Bus, r: u8) -> bool {
    &&& b1.wf()
    &&& c1 == past_operand(c0, Mode::Zpy)
    &&& fetch_plain(Mode::Zpy, c0, b0) && plain_w(ea_of(Mode::Zpy, c0, b0)) ==> b1.stored(b0, ea_of(Mode::Zpy, c0, b0), c0.x)
    &&& r == 0
}

/// STY absolute: the CPU and bus after it from `c0`/`b0` (PC past the
/// opcode), and its extra cycles `r`.
pub open spec fn sty_abs_effect(c0: Cpu, b0: Bus, c1: Cpu, b1: Bus, r: u8) -> bool {
    &&& b1.wf()
    &&& c1 == past_operand(c0, Mode::Abs)
    &&& fetch_plain(Mode::Abs, c0, b0) && plain_w(ea_of(Mode::Abs, c0, b0)) ==> b1.stored(b0, ea_of(Mode::Abs, c0, b0), c0.y)
    &&& r == 0
}

/// STY zero page: the CPU and bus after it from `c0`/`b0` (PC past the
/// opcode), and its extra cycles `r`.
pub open spec fn sty_zp_effect(c0: Cpu, b0: Bus, c1: Cpu, b1: Bus, r: u8) -> bool {
    &&& b1.wf()
    &&& c1 == past_operand(c0, Mode::Zp)
    &&& fetch_plain(Mode::Zp, c0, b0) && plain_w(ea_of(Mode::Zp, c0, b0)) ==> b1.stored(b0, ea_of(Mode::Zp, c0, b0), c0.y)
    &&& r == 0
}

/// STY zero page,X: the CPU and bus after it from `c0`/`b0` (PC past the
/// opcode), and its extra cycles `r`.
pub open spec fn sty_zpx_effect(c0: Cpu, b0: Bus, c1: Cpu, b1: Bus, r: u8) -> bool {
    &&& b1.wf()
    &&& c1 == past_operand(c0, Mode::Zpx)
    &&& fetch_plain(Mode::Zpx, c0, b0) && plain_w(ea_of(Mode::Zpx, c0, b0)) ==> b1.stored(b0, ea_of(Mode::Zpx, c0, b0), c0.y)
    &&& r == 0
}

/// STZ absolute: the CPU and bus after it from `c0`/`b0` (PC past the
/// opcode), and its extra cycles `r`.
pub open spec fn stz_abs_effect(c0: Cpu, b0: Bus, c1: Cpu, b1: Bus, r: u8) -> bool {
    &&& b1.wf()
    &&& c1 == past_operand(c0, Mode::Abs)
    &&& fetch_plain(Mode::Abs, c0, b0) && plain_w(ea_of(Mode::Abs, c0, b0)) ==> b1.stored(b0, ea_of(Mode::Abs, c0, b0), 0u8)
    &&& r == 0
}

/// STZ absolute,X: the CPU and bus after it from `c0`/`b0` (PC past the
/// opcode), and its extra cycles `r`.
pub open spec fn stz_absx_effect(c0: Cpu, b0: Bus, c1: Cpu, b1: Bus, r: u8) -> bool {
    &&& b1.wf()
    &&& c1 == past_operand(c0, Mode::Absx)
    &&& fetch_plain(Mode::Absx, c0, b0) && plain_w(ea_of(Mode::Absx, c0, b0)) ==> b1.stored(b0, ea_of(Mode::Absx, c0, b0), 0u8)
    &&& r == 0
}

/// STZ zero page: the CPU and bus after it from `c0`/`b0` (PC past the
/// opcode), and its extra cycles `r`.
pub open spec fn stz_zp_effect(c0: Cpu, b0: Bus, c1: Cpu, b1: Bus, r: u8) -> bool {
    &&& b1.wf()
    &&& c1 == past_operand(c0, Mode::Zp)
    &&& fetch_plain(Mode::Zp, c0, b0) && plain_w(ea_of(Mode::Zp, c0, b0)) ==> b1.stored(b0, ea_of(Mode::Zp, c0, b0), 0u8)
    &&& r == 0
}

/// STZ zero page,X: the CPU and bus after it from `c0`/`b0` (PC past the
/// opcode), and its extra cycles `r`.
pub open spec fn stz_zpx_effect(c0: Cpu, b0: Bus, c1: Cpu, b1: Bus, r: u8) -> bool {
    &&& b1.wf()
    &&& c1 == past_operand(c0, Mode::Zpx)
    &&& fetch_plain(Mode::Zpx, c0, b0) && plain_w(ea_of(Mode::Zpx, c0, b0)) ==> b1.stored(b0, ea_of(Mode::Zpx, c0, b0), 0u8)
    &&& r == 0
}

/// TRB absolute: the CPU and bus after it from `c0`/`b0` (PC past the
/// opcode), and its extra cycles `r`.
pub open spec fn trb_abs_effect(c0: Cpu, b0: Bus, c1: Cpu, b1: Bus, r: u8) -> bool {
    &&& b1.wf()
    &&& exists|v: u8| c1 == #[trigger] rmw_op(RmwOp::Trb, past_operand(c0, Mode::Abs), v).0
    &&& fetch_plain(Mode::Abs, c0, b0) && plain(b0, ea_of(Mode::Abs, c0, b0)) && plain_w(ea_of(Mode::Abs, c0, b0)) ==> c1 == rmw_op(RmwOp::Trb, past_operand(c0, Mode::Abs), b0.peek(ea_of(Mode::Abs, c0, b0))).0 && b1.stored(b0, ea_of(Mode::Abs, c0, b0), rmw_op(RmwOp::Trb, past_operand(c0, Mode::Abs), b0.peek(ea_of(Mode::Abs, c0, b0))).1)
    &&& r == 0
}

/// TRB zero page: the CPU and bus after it from `c0`/`b0` (PC past the
/// opcode), and its extra cycles `r`.
pub open spec fn trb_zp_effect(c0: Cpu, b0: Bus, c1: Cpu, b1: Bus, r: u8) -> bool {
    &&& b1.wf()
    &&& exists|v: u8| c1 == #[trigger] rmw_op(RmwOp::Trb, past_operand(c0, Mode::Zp), v).0
    &&& fetch_plain(Mode::Zp, c0, b0) && plain(b0, ea_of(Mode::Zp, c0, b0)) && plain_w(ea_of(Mode::Zp, c0, b0)) ==> c1 == rmw_op(RmwOp::Trb, past_operand(c0, Mode::Zp), b0.peek(ea_of(Mode::Zp, c0, b0))).0 && b1.stored(b0, ea_of(Mode::Zp, c0, b0), rmw_op(RmwOp::Trb, past_operand(c0, Mode::Zp), b0.peek(ea_of(Mode::Zp, c0, b0))).1)
    &&& r == 0
}

/// TSB absolute: the CPU and bus after it from `c0`/`b0` (PC past the
/// opcode), and its extra cycles `r`.
pub open spec fn tsb_abs_effect(c0: Cpu, b0: Bus, c1: Cpu, b1: Bus, r: u8) -> bool {
    &&& b1.wf()
    &&& exists|v: u8| c1 == #[trigger] rmw_op(RmwOp::Tsb, past_operand(c0, Mode::Abs), v).0
    &&& fetch_plain(Mode::Abs, c0, b0) && plain(b0, ea_of(Mode::Abs, c0, b0)) && plain_w(ea_of(Mode::Abs, c0, b0)) ==> c1 == rmw_op(RmwOp::Tsb, past_operand(c0, Mode::Abs), b0.peek(ea_of(Mode::Abs, c0, b0))).0 && b1.stored(b0, ea_of(Mode::Abs, c0, b0), rmw_op(RmwOp::Tsb, past_operand(c0, Mode::Abs), b0.peek(ea_of(Mode::Abs, c0, b0))).1)
    &&& r == 0
}

/// TSB zero page: the CPU and bus after it from `c0`/`b0` (PC past the
/// opcode), and its extra cycles `r`.
pub open spec fn tsb_zp_effect(c0: Cpu, b0: Bus, c1: Cpu, b1: Bus, r: u8) -> bool {
    &&& b1.wf()
    &&& exists|v: u8| c1 == #[trigger] rmw_op(RmwOp::Tsb, past_operand(c0, Mode::Zp), v).0
    &&& fetch_plain(Mode::Zp, c0, b0) && plain(b0, ea_of(Mode::Zp, c0, b0)) && plain_w(ea_of(Mode::Zp, c0, b0)) ==> c1 == rmw_op(RmwOp::Tsb, past_operand(c0, Mode::Zp), b0.peek(ea_of(Mode::Zp, c0, b0))).0 && b1.stored(b0, ea_of(Mode::Zp, c0, b0), rmw_op(RmwOp::Tsb, past_operand(c0, Mode::Zp), b0.peek(ea_of(Mode::Zp, c0, b0))).1)
    &&& r == 0
}

/// CLC: the CPU and bus after it from `c0`/`b0` (PC past the
/// opcode), and its extra cycles `r`.
pub open spec fn clc_effect(c0: Cpu, b0: Bus, c1: Cpu, b1: Bus, r: u8) -> bool {
    &&& b1 == b0
    &&& c1 == (Cpu { flags: Flags { bits: with_mask(c0.flags.bits, C, false) }, ..c0 })
    &&& r == 0
}

/// SEC: the CPU and bus after it from `c0`/`b0` (PC past the
/// opcode), and its extra cycles `r`.
pub open spec fn sec_effect(c0: Cpu, b0: Bus, c1: Cpu, b1: Bus, r: u8) -> bool {
    &&& b1 == b0
    &&& c1 == (Cpu { flags: Flags { bits: with_mask(c0.flags.bits, C, true) }, ..c0 })
    &&& r == 0
}

/// CLI: the CPU and bus after it from `c0`/`b0` (PC past the
/// opcode), and its extra cycles `r`.
pub open spec fn cli_effect(c0: Cpu, b0: Bus, c1: Cpu, b1: Bus, r: u8) -> bool {
    &&& b1 == b0
    &&& c1 == (Cpu { flags: Flags { bits: with_mask(c0.flags.bits, I, false) }, ..c0 })
    &&& r == 0
}

/// SEI: the CPU and bus after it from `c0`/`b0` (PC past the
/// opcode), and its extra cycles `r`.
pub open spec fn sei_effect(c0: Cpu, b0: Bus, c1: Cpu, b1: Bus, r: u8) -> bool {
    &&& b1 == b0
    &&& c1 == (Cpu { flags: Flags { bits: with_mask(c0.flags.bits, I, true) }, ..c0 })
    &&& r == 0
}

/// CLV: the CPU and bus after it from `c0`/`b0` (PC past the
/// opcode), and its extra cycles `r`.
pub open spec fn clv_effect(c0: Cpu, b0: Bus, c1: Cpu, b1: Bus, r: u8) -> bool {
    &&& b1 == b0
    &&& c1 == (Cpu { flags: Flags { bits: with_mask(c0.flags.bits, V, false) }, ..c0 })
    &&& r == 0
}

/// CLD: the CPU and bus after it from `c0`/`b0` (PC past the
/// opcode), and its extra cycles `r`.
pub open spec fn cld_effect(c0: Cpu, b0: Bus, c1: Cpu, b1: Bus, r: u8) -> bool {
    &&& b1 == b0
    &&& c1 == (Cpu { flags: Flags { bits: with_mask(c0.flags.bits, D, false) }, ..c0 })
    &&& r == 0
}

/// SED: the CPU and bus after it from `c0`/`b0` (PC past the
/// opcode), and its extra cycles `r`.
pub open spec fn sed_effect(c0: Cpu, b0: Bus, c1: Cpu, b1: Bus, r: u8) -> bool {
    &&& b1 == b0
    &&& c1 == (Cpu { flags: Flags { bits: with_mask(c0.flags.bits, D, true) }, ..c0 })
    &&& r == 0
}

/// TAX: the CPU and bus after it from `c0`/`b0` (PC past the
/// opcode), and its extra cycles `r`.
pub open spec fn tax_effect(c0: Cpu, b0: Bus, c1: Cpu, b1: Bus, r: u8) -> bool {
    &&& b1 == b0
    &&& c1 == (Cpu { x: c0.a, flags: Flags { bits: nz_of(c0.flags.bits, c0.a) }, ..c0 })
    &&& r == 0
}

/// TAY: the CPU and bus after it from `c0`/`b0` (PC past the
/// opcode), and its extra cycles `r`.
pub open spec fn tay_effect(c0: Cpu, b0: Bus, c1: Cpu, b1: Bus, r: u8) -> bool {
    &&& b1 == b0
    &&& c1 == (Cpu { y: c0.a, flags: Flags { bits: nz_of(c0.flags.bits, c0.a) }, ..c0 })
    &&& r == 0
}

/// TXA: the CPU and bus after it from `c0`/`b0` (PC past the
/// opcode), and its extra cycles `r`.
pub open spec fn txa_effect(c0: Cpu, b0: Bus, c1: Cpu, b1: Bus, r: u8) -> bool {
    &&& b1 == b0
    &&& c1 == (Cpu { a: c0.x, flags: Flags { bits: nz_of(c0.flags.bits, c0.x) }, ..c0 })
    &&& r == 0
}

/// TYA: the CPU and bus after it from `c0`/`b0` (PC past the
/// opcode), and its extra cycles `r`.
pub open spec fn tya_effect(c0: Cpu, b0: Bus, c1: Cpu, b1: Bus, r: u8) -> bool {
    &&& b1 == b0
    &&& c1 == (Cpu { a: c0.y, flags: Flags { bits: nz_of(c0.flags.bits, c0.y) }, ..c0 })
    &&& r == 0
}

/// TSX: the CPU and bus after it from `c0`/`b0` (PC past the
/// opcode), and its extra cycles `r`.
pub open spec fn tsx_effect(c0: Cpu, b0: Bus, c1: Cpu, b1: Bus, r: u8) -> bool {
    &&& b1 == b0
    &&& c1 == (Cpu { x: c0.sp, flags: Flags { bits: nz_of(c0.flags.bits, c0.sp) }, ..c0 })
    &&& r == 0
}

/// TXS: the CPU and bus after it from `c0`/`b0` (PC past the
/// opcode), and its extra cycles `r`.
pub open spec fn txs_effect(c0: Cpu, b0: Bus, c1: Cpu, b1: Bus, r: u8) -> bool {
    &&& b1 == b0
    &&& c1 == (Cpu { sp: c0.x, ..c0 })
    &&& r == 0
}

/// INX: the CPU and bus after it from `c0`/`b0` (PC past the
/// opcode), and its extra cycles `r`.
pub open spec fn inx_effect(c0: Cpu, b0: Bus, c1: Cpu, b1: Bus, r: u8) -> bool {
    &&& b1 == b0
    &&& c1 == (Cpu { x: c0.x.wrapping_add(1), flags: Flags { bits: nz_of(c0.flags.bits, c0.x.wrapping_add(1)) }, ..c0 })
    &&& r == 0
}

/// INY: the CPU and bus after it from `c0`/`b0` (PC past the
/// opcode), and its extra cycles `r`.
pub open spec fn iny_effect(c0: Cpu, b0: Bus, c1: Cpu, b1: Bus, r: u8) -> bool {
    &&& b1 == b0
    &&& c1 == (Cpu { y: c0.y.wrapping_add(1), flags: Flags { bits: nz_of(c0.flags.bits, c0.y.wrapping_add(1)) }, ..c0 })
    &&& r == 0
}

/// DEX: the CPU and bus after it from `c0`/`b0` (PC past the
/// opcode), and its extra cycles `r`.
pub open spec fn dex_effect(c0: Cpu, b0: Bus, c1: Cpu, b1: Bus, r: u8) -> bool {
    &&& b1 == b0
    &&& c1 == (Cpu { x: c0.x.wrapping_sub(1), flags: Flags { bits: nz_of(c0.flags.bits, c0.x.wrapping_sub(1)) }, ..c0 })
    &&& r == 0
}

/// DEY: the CPU and bus after it from `c0`/`b0` (PC past the
/// opcode), and its extra cycles `r`.
pub open spec fn dey_effect(c0: Cpu, b0: Bus, c1: Cpu, b1: Bus, r: u8) -> bool {
    &&& b1 == b0
    &&& c1 == (Cpu { y: c0.y.wrapping_sub(1), flags: Flags { bits: nz_of(c0.flags.bits, c0.y.wrapping_sub(1)) }, ..c0 })
    &&& r == 0
}

/// INC a: the CPU and bus after it from `c0`/`b0` (PC past the
/// opcode), and its extra cycles `r`.
pub open spec fn inc_a_effect(c0: Cpu, b0: Bus, c1: Cpu, b1: Bus, r: u8) -> bool {
    &&& b1 == b0
    &&& c1 == (Cpu { a: c0.a.wrapping_add(1), flags: Flags { bits: nz_of(c0.flags.bits, c0.a.wrapping_add(1)) }, ..c0 })
    &&& r == 0
}

/// DEC a: the CPU and bus after it from `c0`/`b0` (PC past the
/// opcode), and its extra cycles `r`.
pub open spec fn dec_a_effect(c0: Cpu, b0: Bus, c1: Cpu, b1: Bus, r: u8) -> bool {
    &&& b1 == b0
    &&& c1 == (Cpu { a: c0.a.wrapping_sub(1), flags: Flags { bits: nz_of(c0.flags.bits, c0.a.wrapping_sub(1)) }, ..c0 })
    &&& r == 0
}

/// ASL a: the CPU and bus after it from `c0`/`b0` (PC past the
/// opcode), and its extra cycles `r`.
pub open spec fn asl_a_effect(c0: Cpu, b0: Bus, c1: Cpu, b1: Bus, r: u8) -> bool {
    &&& b1 == b0
    &&& c1 == (Cpu { a: asl_of(c0, c0.a).1, ..asl_of(c0, c0.a).0 })
    &&& r == 0
}

/// LSR a: the CPU and bus after it from `c0`/`b0` (PC past the
/// opcode), and its extra cycles `r`.
pub open spec fn lsr_a_effect(c0: Cpu, b0: Bus, c1: Cpu, b1: Bus, r: u8) -> bool {
    &&& b1 == b0
    &&& c1 == (Cpu { a: lsr_of(c0, c0.a).1, ..lsr_of(c0, c0.a).0 })
    &&& r == 0
}

/// ROL a: the CPU and bus after it from `c0`/`b0` (PC past the
/// opcode), and its extra cycles `r`.
pub open spec fn rol_a_effect(c0: Cpu, b0: Bus, c1: Cpu, b1: Bus, r: u8) -> bool {
    &&& b1 == b0
    &&& c1 == (Cpu { a: rol_of(c0, c0.a).1, ..rol_of(c0, c0.a).0 })
    &&& r == 0
}

/// ROR a: the CPU and bus after it from `c0`/`b0` (PC past the
/// opcode), and its extra cycles `r`.
pub open spec fn ror_a_effect(c0: Cpu, b0: Bus, c1: Cpu, b1: Bus, r: u8) -> bool {
    &&& b1 == b0
    &&& c1 == (Cpu { a: ror_of(c0, c0.a).1, ..ror_of(c0, c0.a).0 })
    &&& r == 0
}

/// NOP: the CPU and bus after it from `c0`/`b0` (PC past the
/// opcode), and its extra cycles `r`.
pub open spec fn nop_effect(c0: Cpu, b0: Bus, c1: Cpu, b1: Bus, r: u8) -> bool {
    &&& b1 == b0
    &&& c1 == c0
    &&& r == 0
}

/// JAM: the CPU and bus after it from `c0`/`b0` (PC past the
/// opcode), and its extra cycles `r`.
pub open spec fn jam_effect(c0: Cpu, b0: Bus, c1: Cpu, b1: Bus, r: u8) -> bool {
    &&& b1 == b0
    &&& c1 == (Cpu { jammed: true, pc: pc_add(c0.pc, 65535), ..c0 })
    &&& r == 0
}

/// WAI: the CPU and bus after it from `c0`/`b0` (PC past the
/// opcode), and its extra cycles `r`.
pub open spec fn wai_effect(c0: Cpu, b0: Bus, c1: Cpu, b1: Bus, r: u8) -> bool {
    &&& b1 == b0
    &&& c1 == (Cpu { waiting: true, ..c0 })
    &&& r == 0
}

/// STP: the CPU and bus after it from `c0`/`b0` (PC past the
/// opcode), and its extra cycles `r`.
pub open spec fn stp_effect(c0: Cpu, b0: Bus, c1: Cpu, b1: Bus, r: u8) -> bool {
    &&& b1 == b0
    &&& c1 == (Cpu { jammed: true, ..c0 })
    &&& r == 0
}

/// PHA: the CPU and bus after it from `c0`/`b0` (PC past the
/// opcode), and its extra cycles `r`.
pub open spec fn pha_effect(c0: Cpu, b0: Bus, c1: Cpu, b1: Bus, r: u8) -> bool {
    &&& b1.wf()
    &&& b1.stored(b0, stack_addr(c0.sp as int), c0.a)
    &&& c1 == (Cpu { sp: ((c0.sp + 255) % 256) as u8, ..c0 })
    &&& r == 0
}

/// PHX: the CPU and bus after it from `c0`/`b0` (PC past the
/// opcode), and its extra cycles `r`.
pub open spec fn phx_effect(c0: Cpu, b0: Bus, c1: Cpu, b1: Bus, r: u8) -> bool {
    &&& b1.wf()
    &&& b1.stored(b0, stack_addr(c0.sp as int), c0.x)
    &&& c1 == (Cpu { sp: ((c0.sp + 255) % 256) as u8, ..c0 })
    &&& r == 0
}

/// PHY: the CPU and bus after it from `c0`/`b0` (PC past the
/// opcode), and its extra cycles `r`.
pub open spec fn phy_effect(c0: Cpu, b0: Bus, c1: Cpu, b1: Bus, r: u8) -> bool {
    &&& b1.wf()
    &&& b1.stored(b0, stack_addr(c0.sp as int), c0.y)
    &&& c1 == (Cpu { sp: ((c0.sp + 255) % 256) as u8, ..c0 })
    &&& r == 0
}

/// PHP: the CPU and bus after it from `c0`/`b0` (PC past the
/// opcode), and its extra cycles `r`.
pub open spec fn php_effect(c0: Cpu, b0: Bus, c1: Cpu, b1: Bus, r: u8) -> bool {
    &&& b1.wf()
    &&& b1.stored(b0, stack_addr(c0.sp as int), c0.flags.bits | B | U)
    &&& c1 == (Cpu { sp: ((c0.sp + 255) % 256) as u8, ..c0 })
    &&& r == 0
}

/// PLA: the CPU and bus after it from `c0`/`b0` (PC past the
/// opcode), and its extra cycles `r`.
pub open spec fn pla_effect(c0: Cpu, b0: Bus, c1: Cpu, b1: Bus, r: u8) -> bool {
    &&& b1 == b0
    &&& c1 == (Cpu { a: b0.peek(stack_addr(c0.sp + 1)), sp: ((c0.sp + 1) % 256) as u8, flags: Flags { bits: nz_of(c0.flags.bits, b0.peek(stack_addr(c0.sp + 1))) }, ..c0 })
    &&& r == 0
}

/// PLX: the CPU and bus after it from `c0`/`b0` (PC past the
/// opcode), and its extra cycles `r`.
pub open spec fn plx_effect(c0: Cpu, b0: Bus, c1: Cpu, b1: Bus, r: u8) -> bool {
    &&& b1 == b0
    &&& c1 == (Cpu { x: b0.peek(stack_addr(c0.sp + 1)), sp: ((c0.sp + 1) % 256) as u8, flags: Flags { bits: nz_of(c0.flags.bits, b0.peek(stack_addr(c0.sp + 1))) }, ..c0 })
    &&& r == 0
}

/// PLY: the CPU and bus after it from `c0`/`b0` (PC past the
/// opcode), and its extra cycles `r`.
pub open spec fn ply_effect(c0: Cpu, b0: Bus, c1: Cpu, b1: Bus, r: u8) -> bool {
    &&& b1 == b0
    &&& c1 == (Cpu { y: b0.peek(stack_addr(c0.sp + 1)), sp: ((c0.sp + 1) % 256) as u8, flags: Flags { bits: nz_of(c0.flags.bits, b0.peek(stack_addr(c0.sp + 1))) }, ..c0 })
    &&& r == 0
}

/// PLP: the CPU and bus after it from `c0`/`b0` (PC past the
/// opcode), and its extra cycles `r`.
pub open spec fn plp_effect(c0: Cpu, b0: Bus, c1: Cpu, b1: Bus, r: u8) -> bool {
    &&& b1 == b0
    &&& c1 == (Cpu { flags: Flags { bits: b0.peek(stack_addr(c0.sp + 1)) | U }, sp: ((c0.sp + 1) % 256) as u8, ..c0 })
    &&& r == 0
}

/// BPL: the CPU and bus after it from `c0`/`b0` (PC past the
/// opcode), and its extra cycles `r`.
pub open spec fn bpl_effect(c0: Cpu, b0: Bus, c1: Cpu, b1: Bus, r: u8) -> bool {
    &&& b1.wf()
    &&& c1 == (Cpu { pc: c1.pc, ..c0 })
    &&& r <= 2
    &&& plain(b0, c0.pc) ==> b1 == b0 && c1.pc == (if c0.flags.bits & N != N { rel_dest(pc_add(c0.pc, 1), b0.peek(c0.pc)) } else { pc_add(c0.pc, 1) })
}

/// BMI: the CPU and bus after it from `c0`/`b0` (PC past the
/// opcode), and its extra cycles `r`.
pub open spec fn bmi_effect(c0: Cpu, b0: Bus, c1: Cpu, b1: Bus, r: u8) -> bool {
    &&& b1.wf()
    &&& c1 == (Cpu { pc: c1.pc, ..c0 })
    &&& r <= 2
    &&& plain(b0, c0.pc) ==> b1 == b0 && c1.pc == (if c0.flags.bits & N == N { rel_dest(pc_add(c0.pc, 1), b0.peek(c0.pc)) } else { pc_add(c0.pc, 1) })
}

/// BVC: the CPU and bus after it from `c0`/`b0` (PC past the
/// opcode), and its extra cycles `r`.
pub open spec fn bvc_effect(c0: Cpu, b0: Bus, c1: Cpu, b1: Bus, r: u8) -> bool {
    &&& b1.wf()
    &&& c1 == (Cpu { pc: c1.pc, ..c0 })
    &&& r <= 2
    &&& plain(b0, c0.pc) ==> b1 == b0 && c1.pc == (if c0.flags.bits & V != V { rel_dest(pc_add(c0.pc, 1), b0.peek(c0.pc)) } else { pc_add(c0.pc, 1) })
}

/// BVS: the CPU and bus after it from `c0`/`b0` (PC past the
/// opcode), and its extra cycles `r`.
pub open spec fn bvs_effect(c0: Cpu, b0: Bus, c1: Cpu, b1: Bus, r: u8) -> bool {
    &&& b1.wf()
    &&& c1 == (Cpu { pc: c1.pc, ..c0 })
    &&& r <= 2
    &&& plain(b0, c0.pc) ==> b1 == b0 && c1.pc == (if c0.flags.bits & V == V { rel_dest(pc_add(c0.pc, 1), b0.peek(c0.pc)) } else { pc_add(c0.pc, 1) })
}

/// BCC: the CPU and bus after it from `c0`/`b0` (PC past the
/// opcode), and its extra cycles `r`.
pub open spec fn bcc_effect(c0: Cpu, b0: Bus, c1: Cpu, b1: Bus, r: u8) -> bool {
    &&& b1.wf()
    &&& c1 == (Cpu { pc: c1.pc, ..c0 })
    &&& r <= 2
    &&& plain(b0, c0.pc) ==> b1 == b0 && c1.pc == (if c0.flags.bits & C != C { rel_dest(pc_add(c0.pc, 1), b0.peek(c0.pc)) } else { pc_add(c0.pc, 1) })
}

/// BCS: the CPU and bus after it from `c0`/`b0` (PC past the
/// opcode), and its extra cycles `r`.
pub open spec fn bcs_effect(c0: Cpu, b0: Bus, c1: Cpu, b1: Bus, r: u8) -> bool {
    &&& b1.wf()
    &&& c1 == (Cpu { pc: c1.pc, ..c0 })
    &&& r <= 2
    &&& plain(b0, c0.pc) ==> b1 == b0 && c1.pc == (if c0.flags.bits & C == C { rel_dest(pc_add(c0.pc, 1), b0.peek(c0.pc)) } else { pc_add(c0.pc, 1) })
}

/// BNE: the CPU and bus after it from `c0`/`b0` (PC past the
/// opcode), and its extra cycles `r`.
pub open spec fn bne_effect(c0: Cpu, b0: Bus, c1: Cpu, b1: Bus, r: u8) -> bool {
    &&& b1.wf()
    &&& c1 == (Cpu { pc: c1.pc, ..c0 })
    &&& r <= 2
    &&& plain(b0, c0.pc) ==> b1 == b0 && c1.pc == (if c0.flags.bits & Z != Z { rel_dest(pc_add(c0.pc, 1), b0.peek(c0.pc)) } else { pc_add(c0.pc, 1) })
}

/// BEQ: the CPU and bus after it from `c0`/`b0` (PC past the
/// opcode), and its extra cycles `r`.
pub open spec fn beq_effect(c0: Cpu, b0: Bus, c1: Cpu, b1: Bus, r: u8) -> bool {
    &&& b1.wf()
    &&& c1 == (Cpu { pc: c1.pc, ..c0 })
    &&& r <= 2
    &&& plain(b0, c0.pc) ==> b1 == b0 && c1.pc == (if c0.flags.bits & Z == Z { rel_dest(pc_add(c0.pc, 1), b0.peek(c0.pc)) } else { pc_add(c0.pc, 1) })
}

/// BRA: the CPU and bus after it from `c0`/`b0` (PC past the
/// opcode), and its extra cycles `r`.
pub open spec fn bra_effect(c0: Cpu, b0: Bus, c1: Cpu, b1: Bus, r: u8) -> bool {
    &&& b1.wf()
    &&& c1 == (Cpu { pc: c1.pc, ..c0 })
    &&& r <= 2
    &&& plain(b0, c0.pc) ==> b1 == b0 && c1.pc == (if true { rel_dest(pc_add(c0.pc, 1), b0.peek(c0.pc)) } else { pc_add(c0.pc, 1) })
}

/// JMP absolute: the CPU and bus after it from `c0`/`b0` (PC past the
/// opcode), and its extra cycles `r`.
pub open spec fn jmp_abs_effect(c0: Cpu, b0: Bus, c1: Cpu, b1: Bus, r: u8) -> bool {
    &&& b1.wf()
    &&& c1 == (Cpu { pc: c1.pc, ..c0 })
    &&& fetch_plain(Mode::Abs, c0, b0) ==> b1 == b0 && c1.pc == ea_of(Mode::Abs, c0, b0)
    &&& r == 0
}

/// JMP indirect: the CPU and bus after it from `c0`/`b0` (PC past the
/// opcode), and its extra cycles `r`.
pub open spec fn jmp_ind_effect(c0: Cpu, b0: Bus, c1: Cpu, b1: Bus, r: u8) -> bool {
    &&& b1.wf()
    &&& c1 == (Cpu { pc: c1.pc, ..c0 })
    &&& fetch_plain(Mode::Abs, c0, b0) && plain(b0, ea_of(Mode::Abs, c0, b0)) && plain(b0, jmp_ind_hi(c0, ea_of(Mode::Abs, c0, b0))) ==> b1 == b0 && c1.pc == word(b0.peek(ea_of(Mode::Abs, c0, b0)), b0.peek(jmp_ind_hi(c0, ea_of(Mode::Abs, c0, b0))))
    &&& r == 0
}

/// JMP ind_absx: the CPU and bus after it from `c0`/`b0` (PC past the
/// opcode), and its extra cycles `r`.
pub open spec fn jmp_ind_absx_effect(c0: Cpu, b0: Bus, c1: Cpu, b1: Bus, r: u8) -> bool {
    &&& b1.wf()
    &&& c1 == (Cpu { pc: c1.pc, ..c0 })
    &&& fetch_plain(Mode::Abs, c0, b0) && plain(b0, ea_of(Mode::Absx, c0, b0)) && plain(b0, pc_add(ea_of(Mode::Absx, c0, b0), 1)) ==> b1 == b0 && c1.pc == word(b0.peek(ea_of(Mode::Absx, c0, b0)), b0.peek(pc_add(ea_of(Mode::Absx, c0, b0), 1)))
    &&& r == 0
}

/// JSR: the CPU and bus after it from `c0`/`b0` (PC past the
/// opcode), and its extra cycles `r`.
pub open spec fn jsr_effect(c0: Cpu, b0: Bus, c1: Cpu, b1: Bus, r: u8) -> bool {
    &&& b1.wf()
    &&& c1 == (Cpu { pc: c1.pc, sp: ((c0.sp + 254) % 256) as u8, ..c0 })
    &&& fetch_plain(Mode::Abs, c0, b0) ==> c1.pc == ea_of(Mode::Abs, c0, b0) && exists|bm1: Bus| #[trigger] bm1.stored(b0, stack_addr(c0.sp as int), (pc_add(c0.pc, 1) / 256) as u8) && b1.stored(bm1, stack_addr(c0.sp + 255), (pc_add(c0.pc, 1) % 256) as u8)
    &&& r == 0
}

/// RTS: the CPU and bus after it from `c0`/`b0` (PC past the
/// opcode), and its extra cycles `r`.
pub open spec fn rts_effect(c0: Cpu, b0: Bus, c1: Cpu, b1: Bus, r: u8) -> bool {
    &&& b1 == b0
    &&& c1 == (Cpu { pc: pc_add(word(b0.peek(stack_addr(c0.sp + 1)), b0.peek(stack_addr(c0.sp + 2))), 1), sp: ((c0.sp + 2) % 256) as u8, ..c0 })
    &&& r == 0
}

/// RTI: the CPU and bus after it from `c0`/`b0` (PC past the
/// opcode), and its extra cycles `r`.
pub open spec fn rti_effect(c0: Cpu, b0: Bus, c1: Cpu, b1: Bus, r: u8) -> bool {
    &&& b1 == b0
    &&& c1 == (Cpu { flags: Flags { bits: b0.peek(stack_addr(c0.sp + 1)) | U }, pc: word(b0.peek(stack_addr(c0.sp + 2)), b0.peek(stack_addr(c0.sp + 3))), sp: ((c0.sp + 3) % 256) as u8, ..c0 })
    &&& r == 0
}

/// BRK: the CPU and bus after it from `c0`/`b0` (PC past the
/// opcode), and its extra cycles `r`.
pub open spec fn brk_effect(c0: Cpu, b0: Bus, c1: Cpu, b1: Bus, r: u8) -> bool {
    &&& b1.wf()
    &&& exists|bm1: Bus, bm2: Bus| #[trigger] bm1.stored(b0, stack_addr(c0.sp as int), (pc_add(c0.pc, 1) / 256) as u8) && #[trigger] bm2.stored(bm1, stack_addr(c0.sp + 255), (pc_add(c0.pc, 1) % 256) as u8) && b1.stored(bm2, stack_addr(c0.sp + 254), c0.flags.bits | B | U)
    &&& c1 == (Cpu { sp: ((c0.sp + 253) % 256) as u8, flags: Flags { bits: if c0.is_65c02 { (c0.flags.bits | I) & !D } else { c0.flags.bits | I } }, pc: word(b1.peek(0xFFFE), b1.peek(0xFFFF)), ..c0 })
    &&& r == 0
}

/// Opcode `op` on the NMOS 6502: the CPU and bus after it from `c0`/`b0`
/// (PC past the opcode), and its extra cycles `r`.
#[verifier::opaque]
pub open spec fn effect_6502(op: u8, c0: Cpu, b0: Bus, c1: Cpu, b1: Bus, r: u8) -> bool {
    match op {
        0x00 => brk_effect(c0, b0, c1, b1, r),
        0x01 => ora_indx_effect(c0, b0, c1, b1, r),
        0x02 => jam_effect(c0, b0, c1, b1, r),
        0x03 => slo_indx_effect(c0, b0, c1, b1, r),
        0x04 => nop_zp_effect(c0, b0, c1, b1, r),
        0x05 => ora_zp_effect(c0, b0, c1, b1, r),
        0x06 => asl_zp_effect(c0, b0, c1, b1, r),
        0x07 => slo_zp_effect(c0, b0, c1, b1, r),
        0x08 => php_effect(c0, b0, c1, b1, r),
        0x09 => ora_imm_effect(c0, b0, c1, b1, r),
        0x0A => asl_a_effect(c0, b0, c1, b1, r),
        0x0B => anc_effect(c0, b0, c1, b1, r),
        0x0C => nop_abs_effect(c0, b0, c1, b1, r),
        0x0D => ora_abs_effect(c0, b0, c1, b1, r),
        0x0E => asl_abs_effect(c0, b0, c1, b1, r),
        0x0F => slo_abs_effect(c0, b0, c1, b1, r),
        0x10 => bpl_effect(c0, b0, c1, b1, r),
        0x11 => ora_indy_effect(c0, b0, c1, b1, r),
        0x12 => jam_effect(c0, b0, c1, b1, r),
        0x13 => slo_indy_effect(c0, b0, c1, b1, r),
        0x14 => nop_zpx_effect(c0, b0, c1, b1, r),
        0x15 => ora_zpx_effect(c0, b0, c1, b1, r),
        0x16 => asl_zpx_effect(c0, b0, c1, b1, r),
        0x17 => slo_zpx_effect(c0, b0, c1, b1, r),
        0x18 => clc_effect(c0, b0, c1, b1, r),
        0x19 => ora_absy_effect(c0, b0, c1, b1, r),
        0x1A => nop_effect(c0, b0, c1, b1, r),
        0x1B => slo_absy_effect(c0, b0, c1, b1, r),
        0x1C => nop_absx_effect(c0, b0, c1, b1, r),
        0x1D => ora_absx_effect(c0, b0, c1, b1, r),
        0x1E => asl_absx_effect(c0, b0, c1, b1, r),
        0x1F => slo_absx_effect(c0, b0, c1, b1, r),
        0x20 => jsr_effect(c0, b0, c1, b1, r),
        0x21 => and_indx_effect(c0, b0, c1, b1, r),
        0x22 => jam_effect(c0, b0, c1, b1, r),
        0x23 => rla_indx_effect(c0, b0, c1, b1, r),
        0x24 => bit_zp_effect(c0, b0, c1, b1, r),
        0x25 => and_zp_effect(c0, b0, c1, b1, r),
        0x26 => rol_zp_effect(c0, b0, c1, b1, r),
        0x27 => rla_zp_effect(c0, b0, c1, b1, r),
        0x28 => plp_effect(c0, b0, c1, b1, r),
        0x29 => and_imm_effect(c0, b0, c1, b1, r),
        0x2A => rol_a_effect(c0, b0, c1, b1, r),
        0x2B => anc_effect(c0, b0, c1, b1, r),
        0x2C => bit_abs_effect(c0, b0, c1, b1, r),
        0x2D => and_abs_effect(c0, b0, c1, b1, r),
        0x2E => rol_abs_effect(c0, b0, c1, b1, r),
        0x2F => rla_abs_effect(c0, b0, c1, b1, r),
        0x30 => bmi_effect(c0, b0, c1, b1, r),
        0x31 => and_indy_effect(c0, b0, c1, b1, r),
        0x32 => jam_effect(c0, b0, c1, b1, r),
        0x33 => rla_indy_effect(c0, b0, c1, b1, r),
        0x34 => nop_zpx_effect(c0, b0, c1, b1, r),
        0x35 => and_zpx_effect(c0, b0, c1, b1, r),
        0x36 => rol_zpx_effect(c0, b0, c1, b1, r),
        0x37 => rla_zpx_effect(c0, b0, c1, b1, r),
        0x38 => sec_effect(c0, b0, c1, b1, r),
        0x39 => and_absy_effect(c0, b0, c1, b1, r),
        0x3A => nop_effect(c0, b0, c1, b1, r),
        0x3B => rla_absy_effect(c0, b0, c1, b1, r),
        0x3C => nop_absx_effect(c0, b0, c1, b1, r),
        0x3D => and_absx_effect(c0, b0, c1, b1, r),
        0x3E => rol_absx_effect(c0, b0, c1, b1, r),
        0x3F => rla_absx_effect(c0, b0, c1, b1, r),
        0x40 => rti_effect(c0, b0, c1, b1, r),
        0x41 => eor_indx_effect(c0, b0, c1, b1, r),
        0x42 => jam_effect(c0, b0, c1, b1, r),
        0x43 => sre_indx_effect(c0, b0, c1, b1, r),
        0x44 => nop_zp_effect(c0, b0, c1, b1, r),
        0x45 => eor_zp_effect(c0, b0, c1, b1, r),
        0x46 => lsr_zp_effect(c0, b0, c1, b1, r),
        0x47 => sre_zp_effect(c0, b0, c1, b1, r),
        0x48 => pha_effect(c0, b0, c1, b1, r),
        0x49 => eor_imm_effect(c0, b0, c1, b1, r),
        0x4A => lsr_a_effect(c0, b0, c1, b1, r),
        0x4B => alr_effect(c0, b0, c1, b1, r),
        0x4C => jmp_abs_effect(c0, b0, c1, b1, r),
        0x4D => eor_abs_effect(c0, b0, c1, b1, r),
        0x4E => lsr_abs_effect(c0, b0, c1, b1, r),
        0x4F => sre_abs_effect(c0, b0, c1, b1, r),
        0x50 => bvc_effect(c0, b0, c1, b1, r),
        0x51 => eor_indy_effect(c0, b0, c1, b1, r),
        0x52 => jam_effect(c0, b0, c1, b1, r),
        0x53 => sre_indy_effect(c0, b0, c1, b1, r),
        0x54 => nop_zpx_effect(c0, b0, c1, b1, r),
        0x55 => eor_zpx_effect(c0, b0, c1, b1, r),
        0x56 => lsr_zpx_effect(c0, b0, c1, b1, r),
        0x57 => sre_zpx_effect(c0, b0, c1, b1, r),
        0x58 => cli_effect(c0, b0, c1, b1, r),
        0x59 => eor_absy_effect(c0, b0, c1, b1, r),
        0x5A => nop_effect(c0, b0, c1, b1, r),
        0x5B => sre_absy_effect(c0, b0, c1, b1, r),
        0x5C => nop_absx_effect(c0, b0, c1, b1, r),
        0x5D => eor_absx_effect(c0, b0, c1, b1, r),
        0x5E => lsr_absx_effect(c0, b0, c1, b1, r),
        0x5F => sre_absx_effect(c0, b0, c1, b1, r),
        0x60 => rts_effect(c0, b0, c1, b1, r),
        0x61 => adc_indx_effect(c0, b0, c1, b1, r),
        0x62 => jam_effect(c0, b0, c1, b1, r),
        0x63 => rra_indx_effect(c0, b0, c1, b1, r),
        0x64 => nop_zp_effect(c0, b0, c1, b1, r),
        0x65 => adc_zp_effect(c0, b0, c1, b1, r),
        0x66 => ror_zp_effect(c0, b0, c1, b1, r),
        0x67 => rra_zp_effect(c0, b0, c1, b1, r),
        0x68 => pla_effect(c0, b0, c1, b1, r),
        0x69 => adc_imm_effect(c0, b0, c1, b1, r),
        0x6A => ror_a_effect(c0, b0, c1, b1, r),
        0x6B => arr_effect(c0, b0, c1, b1, r),
        0x6C => jmp_ind_effect(c0, b0, c1, b1, r),
        0x6D => adc_abs_effect(c0, b0, c1, b1, r),
        0x6E => ror_abs_effect(c0, b0, c1, b1, r),
        0x6F => rra_abs_effect(c0, b0, c1, b1, r),
        0x70 => bvs_effect(c0, b0, c1, b1, r),
        0x71 => adc_indy_effect(c0, b0, c1, b1, r),
        0x72 => jam_effect(c0, b0, c1, b1, r),
        0x73 => rra_indy_effect(c0, b0, c1, b1, r),
        0x74 => nop_zpx_effect(c0, b0, c1, b1, r),
        0x75 => adc_zpx_effect(c0, b0, c1, b1, r),
        0x76 => ror_zpx_effect(c0, b0, c1, b1, r),
        0x77 => rra_zpx_effect(c0, b0, c1, b1, r),
        0x78 => sei_effect(c0, b0, c1, b1, r),
        0x79 => adc_absy_effect(c0, b0, c1, b1, r),
        0x7A => nop_effect(c0, b0, c1, b1, r),
        0x7B => rra_absy_effect(c0, b0, c1, b1, r),
        0x7C => nop_absx_effect(c0, b0, c1, b1, r),
        0x7D => adc_absx_effect(c0, b0, c1, b1, r),
        0x7E => ror_absx_effect(c0, b0, c1, b1, r),
        0x7F => rra_absx_effect(c0, b0, c1, b1, r),
        0x80 => nop_imm_effect(c0, b0, c1, b1, r),
        0x81 => sta_indx_effect(c0, b0, c1, b1, r),
        0x82 => nop_imm_effect(c0, b0, c1, b1, r),
        0x83 => sax_indx_effect(c0, b0, c1, b1, r),
        0x84 => sty_zp_effect(c0, b0, c1, b1, r),
        0x85 => sta_zp_effect(c0, b0, c1, b1, r),
        0x86 => stx_zp_effect(c0, b0, c1, b1, r),
        0x87 => sax_zp_effect(c0, b0, c1, b1, r),
        0x88 => dey_effect(c0, b0, c1, b1, r),
        0x89 => nop_imm_effect(c0, b0, c1, b1, r),
        0x8A => txa_effect(c0, b0, c1, b1, r),
        0x8B => nop_effect(c0, b0, c1, b1, r),
        0x8C => sty_abs_effect(c0, b0, c1, b1, r),
        0x8D => sta_abs_effect(c0, b0, c1, b1, r),
        0x8E => stx_abs_effect(c0, b0, c1, b1, r),
        0x8F => sax_abs_effect(c0, b0, c1, b1, r),
        0x90 => bcc_effect(c0, b0, c1, b1, r),
        0x91 => sta_indy_effect(c0, b0, c1, b1, r),
        0x92 => jam_effect(c0, b0, c1, b1, r),
        0x93 => nop_effect(c0, b0, c1, b1, r),
        0x94 => sty_zpx_effect(c0, b0, c1, b1, r),
        0x95 => sta_zpx_effect(c0, b0, c1, b1, r),
        0x96 => stx_zpy_effect(c0, b0, c1, b1, r),
        0x97 => sax_zpy_effect(c0, b0, c1, b1, r),
        0x98 => tya_effect(c0, b0, c1, b1, r),
        0x99 => sta_absy_effect(c0, b0, c1, b1, r),
        0x9A => txs_effect(c0, b0, c1, b1, r),
        0x9B => nop_effect(c0, b0, c1, b1, r),
        0x9C => nop_effect(c0, b0, c1, b1, r),
        0x9D => sta_absx_effect(c0, b0, c1, b1, r),
        0x9E => nop_effect(c0, b0, c1, b1, r),
        0x9F => nop_effect(c0, b0, c1, b1, r),
        0xA0 => ldy_imm_effect(c0, b0, c1, b1, r),
        0xA1 => lda_indx_effect(c0, b0, c1, b1, r),
        0xA2 => ldx_imm_effect(c0, b0, c1, b1, r),
        0xA3 => lax_indx_effect(c0, b0, c1, b1, r),
        0xA4 => ldy_zp_effect(c0, b0, c1, b1, r),
        0xA5 => lda_zp_effect(c0, b0, c1, b1, r),
        0xA6 => ldx_zp_effect(c0, b0, c1, b1, r),
        0xA7 => lax_zp_effect(c0, b0, c1, b1, r),
        0xA8 => tay_effect(c0, b0, c1, b1, r),
        0xA9 => lda_imm_effect(c0, b0, c1, b1, r),
        0xAA => tax_effect(c0, b0, c1, b1, r),
        0xAB => lax_imm_effect(c0, b0, c1, b1, r),
        0xAC => ldy_abs_effect(c0, b0, c1, b1, r),
        0xAD => lda_abs_effect(c0, b0, c1, b1, r),
        0xAE => ldx_abs_effect(c0, b0, c1, b1, r),
        0xAF => lax_abs_effect(c0, b0, c1, b1, r),
        0xB0 => bcs_effect(c0, b0, c1, b1, r),
        0xB1 => lda_indy_effect(c0, b0, c1, b1, r),
        0xB2 => jam_effect(c0, b0, c1, b1, r),
        0xB3 => lax_indy_effect(c0, b0, c1, b1, r),
        0xB4 => ldy_zpx_effect(c0, b0, c1, b1, r),
        0xB5 => lda_zpx_effect(c0, b0, c1, b1, r),
        0xB6 => ldx_zpy_effect(c0, b0, c1, b1, r),
        0xB7 => lax_zpy_effect(c0, b0, c1, b1, r),
        0xB8 => clv_effect(c0, b0, c1, b1, r),
        0xB9 => lda_absy_effect(c0, b0, c1, b1, r),
        0xBA => tsx_effect(c0, b0, c1, b1, r),
        0xBB => las_effect(c0, b0, c1, b1, r),
        0xBC => ldy_absx_effect(c0, b0, c1, b1, r),
        0xBD => lda_absx_effect(c0, b0, c1, b1, r),
        0xBE => ldx_absy_effect(c0, b0, c1, b1, r),
        0xBF => lax_absy_effect(c0, b0, c1, b1, r),
        0xC0 => cpy_imm_effect(c0, b0, c1, b1, r),
        0xC1 => cmp_indx_effect(c0, b0, c1, b1, r),
        0xC2 => nop_imm_effect(c0, b0, c1, b1, r),
        0xC3 => dcp_indx_effect(c0, b0, c1, b1, r),
        0xC4 => cpy_zp_effect(c0, b0, c1, b1, r),
        0xC5 => cmp_zp_effect(c0, b0, c1, b1, r),
        0xC6 => dec_zp_effect(c0, b0, c1, b1, r),
        0xC7 => dcp_zp_effect(c0, b0, c1, b1, r),
        0xC8 => iny_effect(c0, b0, c1, b1, r),
        0xC9 => cmp_imm_effect(c0, b0, c1, b1, r),
        0xCA => dex_effect(c0, b0, c1, b1, r),
        0xCB => sbx_effect(c0, b0, c1, b1, r),
        0xCC => cpy_abs_effect(c0, b0, c1, b1, r),
        0xCD => cmp_abs_effect(c0, b0, c1, b1, r),
        0xCE => dec_abs_effect(c0, b0, c1, b1, r),
        0xCF => dcp_abs_effect(c0, b0, c1, b1, r),
        0xD0 => bne_effect(c0, b0, c1, b1, r),
        0xD1 => cmp_indy_effect(c0, b0, c1, b1, r),
        0xD2 => jam_effect(c0, b0, c1, b1, r),
        0xD3 => dcp_indy_effect(c0, b0, c1, b1, r),
        0xD4 => nop_zpx_effect(c0, b0, c1, b1, r),
        0xD5 => cmp_zpx_effect(c0, b0, c1, b1, r),
        0xD6 => dec_zpx_effect(c0, b0, c1, b1, r),
        0xD7 => dcp_zpx_effect(c0, b0, c1, b1, r),
        0xD8 => cld_effect(c0, b0, c1, b1, r),
        0xD9 => cmp_absy_effect(c0, b0, c1, b1, r),
        0xDA => nop_effect(c0, b0, c1, b1, r),
        0xDB => dcp_absy_effect(c0, b0, c1, b1, r),
        0xDC => nop_absx_effect(c0, b0, c1, b1, r),
        0xDD => cmp_absx_effect(c0, b0, c1, b1, r),
        0xDE => dec_absx_effect(c0, b0, c1, b1, r),
        0xDF => dcp_absx_effect(c0, b0, c1, b1, r),
        0xE0 => cpx_imm_effect(c0, b0, c1, b1, r),
        0xE1 => sbc_indx_effect(c0, b0, c1, b1, r),
        0xE2 => nop_imm_effect(c0, b0, c1, b1, r),
        0xE3 => isc_indx_effect(c0, b0, c1, b1, r),
        0xE4 => cpx_zp_effect(c0, b0, c1, b1, r),
        0xE5 => sbc_zp_effect(c0, b0, c1, b1, r),
        0xE6 => inc_zp_effect(c0, b0, c1, b1, r),
        0xE7 => isc_zp_effect(c0, b0, c1, b1, r),
        0xE8 => inx_effect(c0, b0, c1, b1, r),
        0xE9 => sbc_imm_effect(c0, b0, c1, b1, r),
        0xEA => nop_effect(c0, b0, c1, b1, r),
        0xEB => sbc_imm_eb_effect(c0, b0, c1, b1, r),
        0xEC => cpx_abs_effect(c0, b0, c1, b1, r),
        0xED => sbc_abs_effect(c0, b0, c1, b1, r),
        0xEE => inc_abs_effect(c0, b0, c1, b1, r),
        0xEF => isc_abs_effect(c0, b0, c1, b1, r),
        0xF0 => beq_effect(c0, b0, c1, b1, r),
        0xF1 => sbc_indy_effect(c0, b0, c1, b1, r),
        0xF2 => jam_effect(c0, b0, c1, b1, r),
        0xF3 => isc_indy_effect(c0, b0, c1, b1, r),
        0xF4 => nop_zpx_effect(c0, b0, c1, b1, r),
        0xF5 => sbc_zpx_effect(c0, b0, c1, b1, r),
        0xF6 => inc_zpx_effect(c0, b0, c1, b1, r),
        0xF7 => isc_zpx_effect(c0, b0, c1, b1, r),
        0xF8 => sed_effect(c0, b0, c1, b1, r),
        0xF9 => sbc_absy_effect(c0, b0, c1, b1, r),
        0xFA => nop_effect(c0, b0, c1, b1, r),
        0xFB => isc_absy_effect(c0, b0, c1, b1, r),
        0xFC => nop_absx_effect(c0, b0, c1, b1, r),
        0xFD => sbc_absx_effect(c0, b0, c1, b1, r),
        0xFE => inc_absx_effect(c0, b0, c1, b1, r),
        _ => isc_absx_effect(c0, b0, c1, b1, r),
    }
}

/// Opcode `op` on the CMOS 65C02: the CPU and bus after it from `c0`/`b0`
/// (PC past the opcode), and its extra cycles `r`.
#[verifier::opaque]
pub open spec fn effect_65c02(op: u8, c0: Cpu, b0: Bus, c1: Cpu, b1: Bus, r: u8) -> bool {
    match op {
        0x00 => brk_effect(c0, b0, c1, b1, r),
        0x01 => ora_indx_effect(c0, b0, c1, b1, r),
        0x02 => nop_effect(c0, b0, c1, b1, r),
        0x03 => nop_effect(c0, b0, c1, b1, r),
        0x04 => tsb_zp_effect(c0, b0, c1, b1, r),
        0x05 => ora_zp_effect(c0, b0, c1, b1, r),
        0x06 => asl_zp_effect(c0, b0, c1, b1, r),
        0x07 => nop_effect(c0, b0, c1, b1, r),
        0x08 => php_effect(c0, b0, c1, b1, r),
        0x09 => ora_imm_effect(c0, b0, c1, b1, r),
        0x0A => asl_a_effect(c0, b0, c1, b1, r),
        0x0B => nop_effect(c0, b0, c1, b1, r),
        0x0C => tsb_abs_effect(c0, b0, c1, b1, r),
        0x0D => ora_abs_effect(c0, b0, c1, b1, r),
        0x0E => asl_abs_effect(c0, b0, c1, b1, r),
        0x0F => nop_effect(c0, b0, c1, b1, r),
        0x10 => bpl_effect(c0, b0, c1, b1, r),
        0x11 => ora_indy_effect(c0, b0, c1, b1, r),
        0x12 => ora_ind_zp_effect(c0, b0, c1, b1, r),
        0x13 => nop_effect(c0, b0, c1, b1, r),
        0x14 => trb_zp_effect(c0, b0, c1, b1, r),
        0x15 => ora_zpx_effect(c0, b0, c1, b1, r),
        0x16 => asl_zpx_effect(c0, b0, c1, b1, r),
        0x17 => nop_effect(c0, b0, c1, b1, r),
        0x18 => clc_effect(c0, b0, c1, b1, r),
        0x19 => ora_absy_effect(c0, b0, c1, b1, r),
        0x1A => inc_a_effect(c0, b0, c1, b1, r),
        0x1B => nop_effect(c0, b0, c1, b1, r),
        0x1C => trb_abs_effect(c0, b0, c1, b1, r),
        0x1D => ora_absx_effect(c0, b0, c1, b1, r),
        0x1E => asl_absx_effect(c0, b0, c1, b1, r),
        0x1F => nop_effect(c0, b0, c1, b1, r),
        0x20 => jsr_effect(c0, b0, c1, b1, r),
        0x21 => and_indx_effect(c0, b0, c1, b1, r),
        0x22 => nop_effect(c0, b0, c1, b1, r),
        0x23 => nop_effect(c0, b0, c1, b1, r),
        0x24 => bit_zp_effect(c0, b0, c1, b1, r),
        0x25 => and_zp_effect(c0, b0, c1, b1, r),
        0x26 => rol_zp_effect(c0, b0, c1, b1, r),
        0x27 => nop_effect(c0, b0, c1, b1, r),
        0x28 => plp_effect(c0, b0, c1, b1, r),
        0x29 => and_imm_effect(c0, b0, c1, b1, r),
        0x2A => rol_a_effect(c0, b0, c1, b1, r),
        0x2B => nop_effect(c0, b0, c1, b1, r),
        0x2C => bit_abs_effect(c0, b0, c1, b1, r),
        0x2D => and_abs_effect(c0, b0, c1, b1, r),
        0x2E => rol_abs_effect(c0, b0, c1, b1, r),
        0x2F => nop_effect(c0, b0, c1, b1, r),
        0x30 => bmi_effect(c0, b0, c1, b1, r),
        0x31 => and_indy_effect(c0, b0, c1, b1, r),
        0x32 => and_ind_zp_effect(c0, b0, c1, b1, r),
        0x33 => nop_effect(c0, b0, c1, b1, r),
        0x34 => bit_zpx_effect(c0, b0, c1, b1, r),
        0x35 => and_zpx_effect(c0, b0, c1, b1, r),
        0x36 => rol_zpx_effect(c0, b0, c1, b1, r),
        0x37 => nop_effect(c0, b0, c1, b1, r),
        0x38 => sec_effect(c0, b0, c1, b1, r),
        0x39 => and_absy_effect(c0, b0, c1, b1, r),
        0x3A => dec_a_effect(c0, b0, c1, b1, r),
        0x3B => nop_effect(c0, b0, c1, b1, r),
        0x3C => bit_absx_effect(c0, b0, c1, b1, r),
        0x3D => and_absx_effect(c0, b0, c1, b1, r),
        0x3E => rol_absx_effect(c0, b0, c1, b1, r),
        0x3F => nop_effect(c0, b0, c1, b1, r),
        0x40 => rti_effect(c0, b0, c1, b1, r),
        0x41 => eor_indx_effect(c0, b0, c1, b1, r),
        0x42 => nop_effect(c0, b0, c1, b1, r),
        0x43 => nop_effect(c0, b0, c1, b1, r),
        0x44 => nop_effect(c0, b0, c1, b1, r),
        0x45 => eor_zp_effect(c0, b0, c1, b1, r),
        0x46 => lsr_zp_effect(c0, b0, c1, b1, r),
        0x47 => nop_effect(c0, b0, c1, b1, r),
        0x48 => pha_effect(c0, b0, c1, b1, r),
        0x49 => eor_imm_effect(c0, b0, c1, b1, r),
        0x4A => lsr_a_effect(c0, b0, c1, b1, r),
        0x4B => nop_effect(c0, b0, c1, b1, r),
        0x4C => jmp_abs_effect(c0, b0, c1, b1, r),
        0x4D => eor_abs_effect(c0, b0, c1, b1, r),
        0x4E => lsr_abs_effect(c0, b0, c1, b1, r),
        0x4F => nop_effect(c0, b0, c1, b1, r),
        0x50 => bvc_effect(c0, b0, c1, b1, r),
        0x51 => eor_indy_effect(c0, b0, c1, b1, r),
        0x52 => eor_ind_zp_effect(c0, b0, c1, b1, r),
        0x53 => nop_effect(c0, b0, c1, b1, r),
        0x54 => nop_effect(c0, b0, c1, b1, r),
        0x55 => eor_zpx_effect(c0, b0, c1, b1, r),
        0x56 => lsr_zpx_effect(c0, b0, c1, b1, r),
        0x57 => nop_effect(c0, b0, c1, b1, r),
        0x58 => cli_effect(c0, b0, c1, b1, r),
        0x59 => eor_absy_effect(c0, b0, c1, b1, r),
        0x5A => phy_effect(c0, b0, c1, b1, r),
        0x5B => nop_effect(c0, b0, c1, b1, r),
        0x5C => nop_effect(c0, b0, c1, b1, r),
        0x5D => eor_absx_effect(c0, b0, c1, b1, r),
        0x5E => lsr_absx_effect(c0, b0, c1, b1, r),
        0x5F => nop_effect(c0, b0, c1, b1, r),
        0x60 => rts_effect(c0, b0, c1, b1, r),
        0x61 => adc_indx_effect(c0, b0, c1, b1, r),
        0x62 => nop_effect(c0, b0, c1, b1, r),
        0x63 => nop_effect(c0, b0, c1, b1, r),
        0x64 => stz_zp_effect(c0, b0, c1, b1, r),
        0x65 => adc_zp_effect(c0, b0, c1, b1, r),
        0x66 => ror_zp_effect(c0, b0, c1, b1, r),
        0x67 => nop_effect(c0, b0, c1, b1, r),
        0x68 => pla_effect(c0, b0, c1, b1, r),
        0x69 => adc_imm_effect(c0, b0, c1, b1, r),
        0x6A => ror_a_effect(c0, b0, c1, b1, r),
        0x6B => nop_effect(c0, b0, c1, b1, r),
        0x6C => jmp_ind_effect(c0, b0, c1, b1, r),
        0x6D => adc_abs_effect(c0, b0, c1, b1, r),
        0x6E => ror_abs_effect(c0, b0, c1, b1, r),
        0x6F => nop_effect(c0, b0, c1, b1, r),
        0x70 => bvs_effect(c0, b0, c1, b1, r),
        0x71 => adc_indy_effect(c0, b0, c1, b1, r),
        0x72 => adc_ind_zp_effect(c0, b0, c1, b1, r),
        0x73 => nop_effect(c0, b0, c1, b1, r),
        0x74 => stz_zpx_effect(c0, b0, c1, b1, r),
        0x75 => adc_zpx_effect(c0, b0, c1, b1, r),
        0x76 => ror_zpx_effect(c0, b0, c1, b1, r),
        0x77 => nop_effect(c0, b0, c1, b1, r),
        0x78 => sei_effect(c0, b0, c1, b1, r),
        0x79 => adc_absy_effect(c0, b0, c1, b1, r),
        0x7A => ply_effect(c0, b0, c1, b1, r),
        0x7B => nop_effect(c0, b0, c1, b1, r),
        0x7C => jmp_ind_absx_effect(c0, b0, c1, b1, r),
        0x7D => adc_absx_effect(c0, b0, c1, b1, r),
        0x7E => ror_absx_effect(c0, b0, c1, b1, r),
        0x7F => nop_effect(c0, b0, c1, b1, r),
        0x80 => bra_effect(c0, b0, c1, b1, r),
        0x81 => sta_indx_effect(c0, b0, c1, b1, r),
        0x82 => nop_effect(c0, b0, c1, b1, r),
        0x83 => nop_effect(c0, b0, c1, b1, r),
        0x84 => sty_zp_effect(c0, b0, c1, b1, r),
        0x85 => sta_zp_effect(c0, b0, c1, b1, r),
        0x86 => stx_zp_effect(c0, b0, c1, b1, r),
        0x87 => nop_effect(c0, b0, c1, b1, r),
        0x88 => dey_effect(c0, b0, c1, b1, r),
        0x89 => bit_imm_effect(c0, b0, c1, b1, r),
        0x8A => txa_effect(c0, b0, c1, b1, r),
        0x8B => nop_effect(c0, b0, c1, b1, r),
        0x8C => sty_abs_effect(c0, b0, c1, b1, r),
        0x8D => sta_abs_effect(c0, b0, c1, b1, r),
        0x8E => stx_abs_effect(c0, b0, c1, b1, r),
        0x8F => nop_effect(c0, b0, c1, b1, r),
        0x90 => bcc_effect(c0, b0, c1, b1, r),
        0x91 => sta_indy_effect(c0, b0, c1, b1, r),
        0x92 => sta_ind_zp_effect(c0, b0, c1, b1, r),
        0x93 => nop_effect(c0, b0, c1, b1, r),
        0x94 => sty_zpx_effect(c0, b0, c1, b1, r),
        0x95 => sta_zpx_effect(c0, b0, c1, b1, r),
        0x96 => stx_zpy_effect(c0, b0, c1, b1, r),
        0x97 => nop_effect(c0, b0, c1, b1, r),
        0x98 => tya_effect(c0, b0, c1, b1, r),
        0x99 => sta_absy_effect(c0, b0, c1, b1, r),
        0x9A => txs_effect(c0, b0, c1, b1, r),
        0x9B => nop_effect(c0, b0, c1, b1, r),
        0x9C => stz_abs_effect(c0, b0, c1, b1, r),
        0x9D => sta_absx_effect(c0, b0, c1, b1, r),
        0x9E => stz_absx_effect(c0, b0, c1, b1, r),
        0x9F => nop_effect(c0, b0, c1, b1, r),
        0xA0 => ldy_imm_effect(c0, b0, c1, b1, r),
        0xA1 => lda_indx_effect(c0, b0, c1, b1, r),
        0xA2 => ldx_imm_effect(c0, b0, c1, b1, r),
        0xA3 => nop_effect(c0, b0, c1, b1, r),
        0xA4 => ldy_zp_effect(c0, b0, c1, b1, r),
        0xA5 => lda_zp_effect(c0, b0, c1, b1, r),
        0xA6 => ldx_zp_effect(c0, b0, c1, b1, r),
        0xA7 => nop_effect(c0, b0, c1, b1, r),
        0xA8 => tay_effect(c0, b0, c1, b1, r),
        0xA9 => lda_imm_effect(c0, b0, c1, b1, r),
        0xAA => tax_effect(c0, b0, c1, b1, r),
        0xAB => nop_effect(c0, b0, c1, b1, r),
        0xAC => ldy_abs_effect(c0, b0, c1, b1, r),
        0xAD => lda_abs_effect(c0, b0, c1, b1, r),
        0xAE => ldx_abs_effect(c0, b0, c1, b1, r),
        0xAF => nop_effect(c0, b0, c1, b1, r),
        0xB0 => bcs_effect(c0, b0, c1, b1, r),
        0xB1 => lda_indy_effect(c0, b0, c1, b1, r),
        0xB2 => lda_ind_zp_effect(c0, b0, c1, b1, r),
        0xB3 => nop_effect(c0, b0, c1, b1, r),
        0xB4 => ldy_zpx_effect(c0, b0, c1, b1, r),
        0xB5 => lda_zpx_effect(c0, b0, c1, b1, r),
        0xB6 => ldx_zpy_effect(c0, b0, c1, b1, r),
        0xB7 => nop_effect(c0, b0, c1, b1, r),
        0xB8 => clv_effect(c0, b0, c1, b1, r),
        0xB9 => lda_absy_effect(c0, b0, c1, b1, r),
        0xBA => tsx_effect(c0, b0, c1, b1, r),
        0xBB => nop_effect(c0, b0, c1, b1, r),
        0xBC => ldy_absx_effect(c0, b0, c1, b1, r),
        0xBD => lda_absx_effect(c0, b0, c1, b1, r),
        0xBE => ldx_absy_effect(c0, b0, c1, b1, r),
        0xBF => nop_effect(c0, b0, c1, b1, r),
        0xC0 => cpy_imm_effect(c0, b0, c1, b1, r),
        0xC1 => cmp_indx_effect(c0, b0, c1, b1, r),
        0xC2 => nop_effect(c0, b0, c1, b1, r),
        0xC3 => nop_effect(c0, b0, c1, b1, r),
        0xC4 => cpy_zp_effect(c0, b0, c1, b1, r),
        0xC5 => cmp_zp_effect(c0, b0, c1, b1, r),
        0xC6 => dec_zp_effect(c0, b0, c1, b1, r),
        0xC7 => nop_effect(c0, b0, c1, b1, r),
        0xC8 => iny_effect(c0, b0, c1, b1, r),
        0xC9 => cmp_imm_effect(c0, b0, c1, b1, r),
        0xCA => dex_effect(c0, b0, c1, b1, r),
        0xCB => wai_effect(c0, b0, c1, b1, r),
        0xCC => cpy_abs_effect(c0, b0, c1, b1, r),
        0xCD => cmp_abs_effect(c0, b0, c1, b1, r),
        0xCE => dec_abs_effect(c0, b0, c1, b1, r),
        0xCF => nop_effect(c0, b0, c1, b1, r),
        0xD0 => bne_effect(c0, b0, c1, b1, r),
        0xD1 => cmp_indy_effect(c0, b0, c1, b1, r),
        0xD2 => cmp_ind_zp_effect(c0, b0, c1, b1, r),
        0xD3 => nop_effect(c0, b0, c1, b1, r),
        0xD4 => nop_effect(c0, b0, c1, b1, r),
        0xD5 => cmp_zpx_effect(c0, b0, c1, b1, r),
        0xD6 => dec_zpx_effect(c0, b0, c1, b1, r),
        0xD7 => nop_effect(c0, b0, c1, b1, r),
        0xD8 => cld_effect(c0, b0, c1, b1, r),
        0xD9 => cmp_absy_effect(c0, b0, c1, b1, r),
        0xDA => phx_effect(c0, b0, c1, b1, r),
        0xDB => stp_effect(c0, b0, c1, b1, r),
        0xDC => nop_effect(c0, b0, c1, b1, r),
        0xDD => cmp_absx_effect(c0, b0, c1, b1, r),
        0xDE => dec_absx_effect(c0, b0, c1, b1, r),
        0xDF => nop_effect(c0, b0, c1, b1, r),
        0xE0 => cpx_imm_effect(c0, b0, c1, b1, r),
        0xE1 => sbc_indx_effect(c0, b0, c1, b1, r),
        0xE2 => nop_effect(c0, b0, c1, b1, r),
        0xE3 => nop_effect(c0, b0, c1, b1, r),
        0xE4 => cpx_zp_effect(c0, b0, c1, b1, r),
        0xE5 => sbc_zp_effect(c0, b0, c1, b1, r),
        0xE6 => inc_zp_effect(c0, b0, c1, b1, r),
        0xE7 => nop_effect(c0, b0, c1, b1, r),
        0xE8 => inx_effect(c0, b0, c1, b1, r),
        0xE9 => sbc_imm_effect(c0, b0, c1, b1, r),
        0xEA => nop_effect(c0, b0, c1, b1, r),
        0xEB => nop_effect(c0, b0, c1, b1, r),
        0xEC => cpx_abs_effect(c0, b0, c1, b1, r),
        0xED => sbc_abs_effect(c0, b0, c1, b1, r),
        0xEE => inc_abs_effect(c0, b0, c1, b1, r),
        0xEF => nop_effect(c0, b0, c1, b1, r),
        0xF0 => beq_effect(c0, b0, c1, b1, r),
        0xF1 => sbc_indy_effect(c0, b0, c1, b1, r),
        0xF2 => sbc_ind_zp_effect(c0, b0, c1, b1, r),
        0xF3 => nop_effect(c0, b0, c1, b1, r),
        0xF4 => nop_effect(c0, b0, c1, b1, r),
        0xF5 => sbc_zpx_effect(c0, b0, c1, b1, r),
        0xF6 => inc_zpx_effect(c0, b0, c1, b1, r),
        0xF7 => nop_effect(c0, b0, c1, b1, r),
        0xF8 => sed_effect(c0, b0, c1, b1, r),
        0xF9 => sbc_absy_effect(c0, b0, c1, b1, r),
        0xFA => plx_effect(c0, b0, c1, b1, r),
        0xFB => nop_effect(c0, b0, c1, b1, r),
        0xFC => nop_effect(c0, b0, c1, b1, r),
        0xFD => sbc_absx_effect(c0, b0, c1, b1, r),
        0xFE => inc_absx_effect(c0, b0, c1, b1, r),
        _ => nop_effect(c0, b0, c1, b1, r),
    }
}

fn op_adc_abs(cpu: &mut Cpu, bus: &mut Bus) -> (r: u8)
    requires
        can_read(*old(cpu), *old(bus)),
    ensures
        adc_abs_effect(*old(cpu), *old(bus), *final(cpu), *final(bus), r),
{
    let ghost c0 = *cpu;
    let ea = cpu.addr_abs(bus);
    let val = cpu.bus_read(bus, ea);
    let ghost c1 = *cpu;
    cpu.op_adc(val);
    assert(*cpu == read_op(ReadOp::Adc, c1, val));
    0
}

fn op_adc_absx(cpu: &mut Cpu, bus: &mut Bus) -> (r: u8)
    requires
        can_read(*old(cpu), *old(bus)),
    ensures
        adc_absx_effect(*old(cpu), *old(bus), *final(cpu), *final(bus), r),
{
    let ghost c0 = *cpu;
    let (ea, cross) = cpu.addr_absx(bus);
    let val = cpu.bus_read(bus, ea);
    let ghost c1 = *cpu;
    cpu.op_adc(val);
    assert(*cpu == read_op(ReadOp::Adc, c1, val));
    if cross { 1 } else { 0 }
}

fn op_adc_absy(cpu: &mut Cpu, bus: &mut Bus) -> (r: u8)
    requires
        can_read(*old(cpu), *old(bus)),
    ensures
        adc_absy_effect(*old(cpu), *old(bus), *final(cpu), *final(bus), r),
{
    let ghost c0 = *cpu;
    let (ea, cross) = cpu.addr_absy(bus);
    let val = cpu.bus_read(bus, ea);
    let ghost c1 = *cpu;
    cpu.op_adc(val);
    assert(*cpu == read_op(ReadOp::Adc, c1, val));
    if cross { 1 } else { 0 }
}

fn op_adc_imm(cpu: &mut Cpu, bus: &mut Bus) -> (r: u8)
    requires
        can_read(*old(cpu), *old(bus)),
    ensures
        adc_imm_effect(*old(cpu), *old(bus), *final(cpu), *final(bus), r),
{
    let ghost c0 = *cpu;
    let val = cpu.addr_imm(bus);
    let ghost c1 = *cpu;
    cpu.op_adc(val);
    assert(*cpu == read_op(ReadOp::Adc, c1, val));
    0
}

fn op_adc_ind_zp(cpu: &mut Cpu, bus: &mut Bus) -> (r: u8)
    requires
        can_read(*old(cpu), *old(bus)),
    ensures
        adc_ind_zp_effect(*old(cpu), *old(bus), *final(cpu), *final(bus), r),
{
    let ghost c0 = *cpu;
    let ea = cpu.addr_ind_zp(bus);
    let val = cpu.bus_read(bus, ea);
    let ghost c1 = *cpu;
    cpu.op_adc(val);
    assert(*cpu == read_op(ReadOp::Adc, c1, val));
    0
}

fn op_adc_indx(cpu: &mut Cpu, bus: &mut Bus) -> (r: u8)
    requires
        can_read(*old(cpu), *old(bus)),
    ensures
        adc_indx_effect(*old(cpu), *old(bus), *final(cpu), *final(bus), r),
{
    let ghost c0 = *cpu;
    let ea = cpu.addr_indx(bus);
    let val = cpu.bus_read(bus, ea);
    let ghost c1 = *cpu;
    cpu.op_adc(val);
    assert(*cpu == read_op(ReadOp::Adc, c1, val));
    0
}

fn op_adc_indy(cpu: &mut Cpu, bus: &mut Bus) -> (r: u8)
    requires
        can_read(*old(cpu), *old(bus)),
    ensures
        adc_indy_effect(*old(cpu), *old(bus), *final(cpu), *final(bus), r),
{
    let ghost c0 = *cpu;
    let (ea, cross) = cpu.addr_indy(bus);
    let val = cpu.bus_read(bus, ea);
    let ghost c1 = *cpu;
    cpu.op_adc(val);
    assert(*cpu == read_op(ReadOp::Adc, c1, val));
    if cross { 1 } else { 0 }
}

fn op_adc_zp(cpu: &mut Cpu, bus: &mut Bus) -> (r: u8)
    requires
        can_read(*old(cpu), *old(bus)),
    ensures
        adc_zp_effect(*old(cpu), *old(bus), *final(cpu), *final(bus), r),
{
    let ghost c0 = *cpu;
    let ea = cpu.addr_zp(bus);
    let val = cpu.bus_read(bus, ea);
    let ghost c1 = *cpu;
    cpu.op_adc(val);
    assert(*cpu == read_op(ReadOp::Adc, c1, val));
    0
}

fn op_adc_zpx(cpu: &mut Cpu, bus: &mut Bus) -> (r: u8)
    requires
        can_read(*old(cpu), *old(bus)),
    ensures
        adc_zpx_effect(*old(cpu), *old(bus), *final(cpu), *final(bus), r),
{
    let ghost c0 = *cpu;
    let ea = cpu.addr_zpx(bus);
    let val = cpu.bus_read(bus, ea);
    let ghost c1 = *cpu;
    cpu.op_adc(val);
    assert(*cpu == read_op(ReadOp::Adc, c1, val));
    0
}

fn op_alr(cpu: &mut Cpu, bus: &mut Bus) -> (r: u8)
    requires
        can_read(*old(cpu), *old(bus)),
    ensures
        alr_effect(*old(cpu), *old(bus), *final(cpu), *final(bus), r),
{
    let ghost c0 = *cpu;
    let val = cpu.addr_imm(bus);
    let ghost c1 = *cpu;
    cpu.a = cpu.a & val;
    let a = cpu.a;
    cpu.a = cpu.op_lsr(a);
    assert(*cpu == read_op(ReadOp::Alr, c1, val));
    0
}

fn op_anc(cpu: &mut Cpu, bus: &mut Bus) -> (r: u8)
    requires
        can_read(*old(cpu), *old(bus)),
    ensures
        anc_effect(*old(cpu), *old(bus), *final(cpu), *final(bus), r),
{
    let ghost c0 = *cpu;
    let val = cpu.addr_imm(bus);
    let ghost c1 = *cpu;
    cpu.a = cpu.a & val;
    let a = cpu.a;
    cpu.flags.set_nz(a);
    let n = cpu.flags.contains(N);
    cpu.flags.set(C, n);
    assert(*cpu == read_op(ReadOp::Anc, c1, val));
    0
}

fn op_and_abs(cpu: &mut Cpu, bus: &mut Bus) -> (r: u8)
    requires
        can_read(*old(cpu), *old(bus)),
    ensures
        and_abs_effect(*old(cpu), *old(bus), *final(cpu), *final(bus), r),
{
    let ghost c0 = *cpu;
    let ea = cpu.addr_abs(bus);
    let val = cpu.bus_read(bus, ea);
    let ghost c1 = *cpu;
    cpu.a = cpu.a & val;
    let a = cpu.a;
    cpu.flags.set_nz(a);
    assert(*cpu == read_op(ReadOp::And, c1, val));
    0
}

fn op_and_absx(cpu: &mut Cpu, bus: &mut Bus) -> (r: u8)
    requires
        can_read(*old(cpu), *old(bus)),
    ensures
        and_absx_effect(*old(cpu), *old(bus), *final(cpu), *final(bus), r),
{
    let ghost c0 = *cpu;
    let (ea, cross) = cpu.addr_absx(bus);
    let val = cpu.bus_read(bus, ea);
    let ghost c1 = *cpu;
    cpu.a = cpu.a & val;
    let a = cpu.a;
    cpu.flags.set_nz(a);
    assert(*cpu == read_op(ReadOp::And, c1, val));
    if cross { 1 } else { 0 }
}

fn op_and_absy(cpu: &mut Cpu, bus: &mut Bus) -> (r: u8)
    requires
        can_read(*old(cpu), *old(bus)),
    ensures
        and_absy_effect(*old(cpu), *old(bus), *final(cpu), *final(bus), r),
{
    let ghost c0 = *cpu;
    let (ea, cross) = cpu.addr_absy(bus);
    let val = cpu.bus_read(bus, ea);
    let ghost c1 = *cpu;
    cpu.a = cpu.a & val;
    let a = cpu.a;
    cpu.flags.set_nz(a);
    assert(*cpu == read_op(ReadOp::And, c1, val));
    if cross { 1 } else { 0 }
}

fn op_and_imm(cpu: &mut Cpu, bus: &mut Bus) -> (r: u8)
    requires
        can_read(*old(cpu), *old(bus)),
    ensures
        and_imm_effect(*old(cpu), *old(bus), *final(cpu), *final(bus), r),
{
    let ghost c0 = *cpu;
    let val = cpu.addr_imm(bus);
    let ghost c1 = *cpu;
    cpu.a = cpu.a & val;
    let a = cpu.a;
    cpu.flags.set_nz(a);
    assert(*cpu == read_op(ReadOp::And, c1, val));
    0
}

fn op_and_ind_zp(cpu: &mut Cpu, bus: &mut Bus) -> (r: u8)
    requires
        can_read(*old(cpu), *old(bus)),
    ensures
        and_ind_zp_effect(*old(cpu), *old(bus), *final(cpu), *final(bus), r),
{
    let ghost c0 = *cpu;
    let ea = cpu.addr_ind_zp(bus);
    let val = cpu.bus_read(bus, ea);
    let ghost c1 = *cpu;
    cpu.a = cpu.a & val;
    let a = cpu.a;
    cpu.flags.set_nz(a);
    assert(*cpu == read_op(ReadOp::And, c1, val));
    0
}

fn op_and_indx(cpu: &mut Cpu, bus: &mut Bus) -> (r: u8)
    requires
        can_read(*old(cpu), *old(bus)),
    ensures
        and_indx_effect(*old(cpu), *old(bus), *final(cpu), *final(bus), r),
{
    let ghost c0 = *cpu;
    let ea = cpu.addr_indx(bus);
    let val = cpu.bus_read(bus, ea);
    let ghost c1 = *cpu;
    cpu.a = cpu.a & val;
    let a = cpu.a;
    cpu.flags.set_nz(a);
    assert(*cpu == read_op(ReadOp::And, c1, val));
    0
}

fn op_and_indy(cpu: &mut Cpu, bus: &mut Bus) -> (r: u8)
    requires
        can_read(*old(cpu), *old(bus)),
    ensures
        and_indy_effect(*old(cpu), *old(bus), *final(cpu), *final(bus), r),
{
    let ghost c0 = *cpu;
    let (ea, cross) = cpu.addr_indy(bus);
    let val = cpu.bus_read(bus, ea);
    let ghost c1 = *cpu;
    cpu.a = cpu.a & val;
    let a = cpu.a;
    cpu.flags.set_nz(a);
    assert(*cpu == read_op(ReadOp::And, c1, val));
    if cross { 1 } else { 0 }
}

fn op_and_zp(cpu: &mut Cpu, bus: &mut Bus) -> (r: u8)
    requires
        can_read(*old(cpu), *old(bus)),
    ensures
        and_zp_effect(*old(cpu), *old(bus), *final(cpu), *final(bus), r),
{
    let ghost c0 = *cpu;
    let ea = cpu.addr_zp(bus);
    let val = cpu.bus_read(bus, ea);
    let ghost c1 = *cpu;
    cpu.a = cpu.a & val;
    let a = cpu.a;
    cpu.flags.set_nz(a);
    assert(*cpu == read_op(ReadOp::And, c1, val));
    0
}

fn op_and_zpx(cpu: &mut Cpu, bus: &mut Bus) -> (r: u8)
    requires
        can_read(*old(cpu), *old(bus)),
    ensures
        and_zpx_effect(*old(cpu), *old(bus), *final(cpu), *final(bus), r),
{
    let ghost c0 = *cpu;
    let ea = cpu.addr_zpx(bus);
    let val = cpu.bus_read(bus, ea);
    let ghost c1 = *cpu;
    cpu.a = cpu.a & val;
    let a = cpu.a;
    cpu.flags.set_nz(a);
    assert(*cpu == read_op(ReadOp::And, c1, val));
    0
}

fn op_arr(cpu: &mut Cpu, bus: &mut Bus) -> (r: u8)
    requires
        can_read(*old(cpu), *old(bus)),
    ensures
        arr_effect(*old(cpu), *old(bus), *final(cpu), *final(bus), r),
{
    let ghost c0 = *cpu;
    let val = cpu.addr_imm(bus);
    let ghost c1 = *cpu;
    let a0 = cpu.a & val;
    let c_in: u8 = if cpu.flags.contains(C) { 0x80 } else { 0 };
    let a = c_in | (a0 >> 1u8);
    cpu.a = a;
    cpu.flags.set_nz(a);
    let bit6 = (a >> 6u8) & 1;
    let bit5 = (a >> 5u8) & 1;
    cpu.flags.set(C, bit6 != 0);
    cpu.flags.set(V, (bit6 ^ bit5) != 0);
    assert(*cpu == read_op(ReadOp::Arr, c1, val));
    0
}

fn op_asl_abs(cpu: &mut Cpu, bus: &mut Bus) -> (r: u8)
    requires
        can_read(*old(cpu), *old(bus)),
    ensures
        asl_abs_effect(*old(cpu), *old(bus), *final(cpu), *final(bus), r),
{
    let ea = cpu.addr_abs(bus);
    let val = cpu.bus_read(bus, ea);
    let ghost c1 = *cpu;
    let res = cpu.op_asl(val);
    cpu.bus_write(bus, ea, res);
    assert(*cpu == rmw_op(RmwOp::Asl, c1, val).0 && res == rmw_op(RmwOp::Asl, c1, val).1);
    0
}

fn op_asl_absx(cpu: &mut Cpu, bus: &mut Bus) -> (r: u8)
    requires
        can_read(*old(cpu), *old(bus)),
    ensures
        asl_absx_effect(*old(cpu), *old(bus), *final(cpu), *final(bus), r),
{
    let (ea, _) = cpu.addr_absx(bus);
    let val = cpu.bus_read(bus, ea);
    let ghost c1 = *cpu;
    let res = cpu.op_asl(val);
    cpu.bus_write(bus, ea, res);
    assert(*cpu == rmw_op(RmwOp::Asl, c1, val).0 && res == rmw_op(RmwOp::Asl, c1, val).1);
    0
}

fn op_asl_zp(cpu: &mut Cpu, bus: &mut Bus) -> (r: u8)
    requires
        can_read(*old(cpu), *old(bus)),
    ensures
        asl_zp_effect(*old(cpu), *old(bus), *final(cpu), *final(bus), r),
{
    let ea = cpu.addr_zp(bus);
    let val = cpu.bus_read(bus, ea);
    let ghost c1 = *cpu;
    let res = cpu.op_asl(val);
    cpu.bus_write(bus, ea, res);
    assert(*cpu == rmw_op(RmwOp::Asl, c1, val).0 && res == rmw_op(RmwOp::Asl, c1, val).1);
    0
}

fn op_asl_zpx(cpu: &mut Cpu, bus: &mut Bus) -> (r: u8)
    requires
        can_read(*old(cpu), *old(bus)),
    ensures
        asl_zpx_effect(*old(cpu), *old(bus), *final(cpu), *final(bus), r),
{
    let ea = cpu.addr_zpx(bus);
    let val = cpu.bus_read(bus, ea);
    let ghost c1 = *cpu;
    let res = cpu.op_asl(val);
    cpu.bus_write(bus, ea, res);
    assert(*cpu == rmw_op(RmwOp::Asl, c1, val).0 && res == rmw_op(RmwOp::Asl, c1, val).1);
    0
}

fn op_bit_abs(cpu: &mut Cpu, bus: &mut Bus) -> (r: u8)
    requires
        can_read(*old(cpu), *old(bus)),
    ensures
        bit_abs_effect(*old(cpu), *old(bus), *final(cpu), *final(bus), r),
{
    let ghost c0 = *cpu;
    let ea = cpu.addr_abs(bus);
    let val = cpu.bus_read(bus, ea);
    let ghost c1 = *cpu;
    cpu.op_bit(val);
    assert(*cpu == read_op(ReadOp::Bit, c1, val));
    0
}

fn op_bit_absx(cpu: &mut Cpu, bus: &mut Bus) -> (r: u8)
    requires
        can_read(*old(cpu), *old(bus)),
    ensures
        bit_absx_effect(*old(cpu), *old(bus), *final(cpu), *final(bus), r),
{
    let ghost c0 = *cpu;
    let (ea, cross) = cpu.addr_absx(bus);
    let val = cpu.bus_read(bus, ea);
    let ghost c1 = *cpu;
    cpu.op_bit(val);
    assert(*cpu == read_op(ReadOp::Bit, c1, val));
    if cross { 1 } else { 0 }
}

fn op_bit_imm(cpu: &mut Cpu, bus: &mut Bus) -> (r: u8)
    requires
        can_read(*old(cpu), *old(bus)),
    ensures
        bit_imm_effect(*old(cpu), *old(bus), *final(cpu), *final(bus), r),
{
    let ghost c0 = *cpu;
    let val = cpu.addr_imm(bus);
    let ghost c1 = *cpu;
    let a = cpu.a;
    cpu.flags.set(Z, a & val == 0);
    assert(*cpu == read_op(ReadOp::BitZ, c1, val));
    0
}

fn op_bit_zp(cpu: &mut Cpu, bus: &mut Bus) -> (r: u8)
    requires
        can_read(*old(cpu), *old(bus)),
    ensures
        bit_zp_effect(*old(cpu), *old(bus), *final(cpu), *final(bus), r),
{
    let ghost c0 = *cpu;
    let ea = cpu.addr_zp(bus);
    let val = cpu.bus_read(bus, ea);
    let ghost c1 = *cpu;
    cpu.op_bit(val);
    assert(*cpu == read_op(ReadOp::Bit, c1, val));
    0
}

fn op_bit_zpx(cpu: &mut Cpu, bus: &mut Bus) -> (r: u8)
    requires
        can_read(*old(cpu), *old(bus)),
    ensures
        bit_zpx_effect(*old(cpu), *old(bus), *final(cpu), *final(bus), r),
{
    let ghost c0 = *cpu;
    let ea = cpu.addr_zpx(bus);
    let val = cpu.bus_read(bus, ea);
    let ghost c1 = *cpu;
    cpu.op_bit(val);
    assert(*cpu == read_op(ReadOp::Bit, c1, val));
    0
}

fn op_cmp_abs(cpu: &mut Cpu, bus: &mut Bus) -> (r: u8)
    requires
        can_read(*old(cpu), *old(bus)),
    ensures
        cmp_abs_effect(*old(cpu), *old(bus), *final(cpu), *final(bus), r),
{
    let ghost c0 = *cpu;
    let ea = cpu.addr_abs(bus);
    let val = cpu.bus_read(bus, ea);
    let ghost c1 = *cpu;
    let a = cpu.a;
    cpu.op_cmp(a, val);
    assert(*cpu == read_op(ReadOp::Cmp, c1, val));
    0
}

fn op_cmp_absx(cpu: &mut Cpu, bus: &mut Bus) -> (r: u8)
    requires
        can_read(*old(cpu), *old(bus)),
    ensures
        cmp_absx_effect(*old(cpu), *old(bus), *final(cpu), *final(bus), r),
{
    let ghost c0 = *cpu;
    let (ea, cross) = cpu.addr_absx(bus);
    let val = cpu.bus_read(bus, ea);
    let ghost c1 = *cpu;
    let a = cpu.a;
    cpu.op_cmp(a, val);
    assert(*cpu == read_op(ReadOp::Cmp, c1, val));
    if cross { 1 } else { 0 }
}

fn op_cmp_absy(cpu: &mut Cpu, bus: &mut Bus) -> (r: u8)
    requires
        can_read(*old(cpu), *old(bus)),
    ensures
        cmp_absy_effect(*old(cpu), *old(bus), *final(cpu), *final(bus), r),
{
    let ghost c0 = *cpu;
    let (ea, cross) = cpu.addr_absy(bus);
    let val = cpu.bus_read(bus, ea);
    let ghost c1 = *cpu;
    let a = cpu.a;
    cpu.op_cmp(a, val);
    assert(*cpu == read_op(ReadOp::Cmp, c1, val));
    if cross { 1 } else { 0 }
}

fn op_cmp_imm(cpu: &mut Cpu, bus: &mut Bus) -> (r: u8)
    requires
        can_read(*old(cpu), *old(bus)),
    ensures
        cmp_imm_effect(*old(cpu), *old(bus), *final(cpu), *final(bus), r),
{
    let ghost c0 = *cpu;
    let val = cpu.addr_imm(bus);
    let ghost c1 = *cpu;
    let a = cpu.a;
    cpu.op_cmp(a, val);
    assert(*cpu == read_op(ReadOp::Cmp, c1, val));
    0
}

fn op_cmp_ind_zp(cpu: &mut Cpu, bus: &mut Bus) -> (r: u8)
    requires
        can_read(*old(cpu), *old(bus)),
    ensures
        cmp_ind_zp_effect(*old(cpu), *old(bus), *final(cpu), *final(bus), r),
{
    let ghost c0 = *cpu;
    let ea = cpu.addr_ind_zp(bus);
    let val = cpu.bus_read(bus, ea);
    let ghost c1 = *cpu;
    let a = cpu.a;
    cpu.op_cmp(a, val);
    assert(*cpu == read_op(ReadOp::Cmp, c1, val));
    0
}

fn op_cmp_indx(cpu: &mut Cpu, bus: &mut Bus) -> (r: u8)
    requires
        can_read(*old(cpu), *old(bus)),
    ensures
        cmp_indx_effect(*old(cpu), *old(bus), *final(cpu), *final(bus), r),
{
    let ghost c0 = *cpu;
    let ea = cpu.addr_indx(bus);
    let val = cpu.bus_read(bus, ea);
    let ghost c1 = *cpu;
    let a = cpu.a;
    cpu.op_cmp(a, val);
    assert(*cpu == read_op(ReadOp::Cmp, c1, val));
    0
}

fn op_cmp_indy(cpu: &mut Cpu, bus: &mut Bus) -> (r: u8)
    requires
        can_read(*old(cpu), *old(bus)),
    ensures
        cmp_indy_effect(*old(cpu), *old(bus), *final(cpu), *final(bus), r),
{
    let ghost c0 = *cpu;
    let (ea, cross) = cpu.addr_indy(bus);
    let val = cpu.bus_read(bus, ea);
    let ghost c1 = *cpu;
    let a = cpu.a;
    cpu.op_cmp(a, val);
    assert(*cpu == read_op(ReadOp::Cmp, c1, val));
    if cross { 1 } else { 0 }
}

fn op_cmp_zp(cpu: &mut Cpu, bus: &mut Bus) -> (r: u8)
    requires
        can_read(*old(cpu), *old(bus)),
    ensures
        cmp_zp_effect(*old(cpu), *old(bus), *final(cpu), *final(bus), r),
{
    let ghost c0 = *cpu;
    let ea = cpu.addr_zp(bus);
    let val = cpu.bus_read(bus, ea);
    let ghost c1 = *cpu;
    let a = cpu.a;
    cpu.op_cmp(a, val);
    assert(*cpu == read_op(ReadOp::Cmp, c1, val));
    0
}

fn op_cmp_zpx(cpu: &mut Cpu, bus: &mut Bus) -> (r: u8)
    requires
        can_read(*old(cpu), *old(bus)),
    ensures
        cmp_zpx_effect(*old(cpu), *old(bus), *final(cpu), *final(bus), r),
{
    let ghost c0 = *cpu;
    let ea = cpu.addr_zpx(bus);
    let val = cpu.bus_read(bus, ea);
    let ghost c1 = *cpu;
    let a = cpu.a;
    cpu.op_cmp(a, val);
    assert(*cpu == read_op(ReadOp::Cmp, c1, val));
    0
}

fn op_cpx_abs(cpu: &mut Cpu, bus: &mut Bus) -> (r: u8)
    requires
        can_read(*old(cpu), *old(bus)),
    ensures
        cpx_abs_effect(*old(cpu), *old(bus), *final(cpu), *final(bus), r),
{
    let ghost c0 = *cpu;
    let ea = cpu.addr_abs(bus);
    let val = cpu.bus_read(bus, ea);
    let ghost c1 = *cpu;
    let x = cpu.x;
    cpu.op_cmp(x, val);
    assert(*cpu == read_op(ReadOp::Cpx, c1, val));
    0
}

fn op_cpx_imm(cpu: &mut Cpu, bus: &mut Bus) -> (r: u8)
    requires
        can_read(*old(cpu), *old(bus)),
    ensures
        cpx_imm_effect(*old(cpu), *old(bus), *final(cpu), *final(bus), r),
{
    let ghost c0 = *cpu;
    let val = cpu.addr_imm(bus);
    let ghost c1 = *cpu;
    let x = cpu.x;
    cpu.op_cmp(x, val);
    assert(*cpu == read_op(ReadOp::Cpx, c1, val));
    0
}

fn op_cpx_zp(cpu: &mut Cpu, bus: &mut Bus) -> (r: u8)
    requires
        can_read(*old(cpu), *old(bus)),
    ensures
        cpx_zp_effect(*old(cpu), *old(bus), *final(cpu), *final(bus), r),
{
    let ghost c0 = *cpu;
    let ea = cpu.addr_zp(bus);
    let val = cpu.bus_read(bus, ea);
    let ghost c1 = *cpu;
    let x = cpu.x;
    cpu.op_cmp(x, val);
    assert(*cpu == read_op(ReadOp::Cpx, c1, val));
    0
}

fn op_cpy_abs(cpu: &mut Cpu, bus: &mut Bus) -> (r: u8)
    requires
        can_read(*old(cpu), *old(bus)),
    ensures
        cpy_abs_effect(*old(cpu), *old(bus), *final(cpu), *final(bus), r),
{
    let ghost c0 = *cpu;
    let ea = cpu.addr_abs(bus);
    let val = cpu.bus_read(bus, ea);
    let ghost c1 = *cpu;
    let y = cpu.y;
    cpu.op_cmp(y, val);
    assert(*cpu == read_op(ReadOp::Cpy, c1, val));
    0
}

fn op_cpy_imm(cpu: &mut Cpu, bus: &mut Bus) -> (r: u8)
    requires
        can_read(*old(cpu), *old(bus)),
    ensures
        cpy_imm_effect(*old(cpu), *old(bus), *final(cpu), *final(bus), r),
{
    let ghost c0 = *cpu;
    let val = cpu.addr_imm(bus);
    let ghost c1 = *cpu;
    let y = cpu.y;
    cpu.op_cmp(y, val);
    assert(*cpu == read_op(ReadOp::Cpy, c1, val));
    0
}

fn op_cpy_zp(cpu: &mut Cpu, bus: &mut Bus) -> (r: u8)
    requires
        can_read(*old(cpu), *old(bus)),
    ensures
        cpy_zp_effect(*old(cpu), *old(bus), *final(cpu), *final(bus), r),
{
    let ghost c0 = *cpu;
    let ea = cpu.addr_zp(bus);
    let val = cpu.bus_read(bus, ea);
    let ghost c1 = *cpu;
    let y = cpu.y;
    cpu.op_cmp(y, val);
    assert(*cpu == read_op(ReadOp::Cpy, c1, val));
    0
}

fn op_dcp_abs(cpu: &mut Cpu, bus: &mut Bus) -> (r: u8)
    requires
        can_read(*old(cpu), *old(bus)),
    ensures
        dcp_abs_effect(*old(cpu), *old(bus), *final(cpu), *final(bus), r),
{
    let ea = cpu.addr_abs(bus);
    let val = cpu.bus_read(bus, ea);
    let ghost c1 = *cpu;
    let res = val.wrapping_sub(1);
    cpu.bus_write(bus, ea, res);
    let a = cpu.a;
    cpu.op_cmp(a, res);
    assert(*cpu == rmw_op(RmwOp::Dcp, c1, val).0 && res == rmw_op(RmwOp::Dcp, c1, val).1);
    0
}

fn op_dcp_absx(cpu: &mut Cpu, bus: &mut Bus) -> (r: u8)
    requires
        can_read(*old(cpu), *old(bus)),
    ensures
        dcp_absx_effect(*old(cpu), *old(bus), *final(cpu), *final(bus), r),
{
    let (ea, _) = cpu.addr_absx(bus);
    let val = cpu.bus_read(bus, ea);
    let ghost c1 = *cpu;
    let res = val.wrapping_sub(1);
    cpu.bus_write(bus, ea, res);
    let a = cpu.a;
    cpu.op_cmp(a, res);
    assert(*cpu == rmw_op(RmwOp::Dcp, c1, val).0 && res == rmw_op(RmwOp::Dcp, c1, val).1);
    0
}

fn op_dcp_absy(cpu: &mut Cpu, bus: &mut Bus) -> (r: u8)
    requires
        can_read(*old(cpu), *old(bus)),
    ensures
        dcp_absy_effect(*old(cpu), *old(bus), *final(cpu), *final(bus), r),
{
    let (ea, _) = cpu.addr_absy(bus);
    let val = cpu.bus_read(bus, ea);
    let ghost c1 = *cpu;
    let res = val.wrapping_sub(1);
    cpu.bus_write(bus, ea, res);
    let a = cpu.a;
    cpu.op_cmp(a, res);
    assert(*cpu == rmw_op(RmwOp::Dcp, c1, val).0 && res == rmw_op(RmwOp::Dcp, c1, val).1);
    0
}

fn op_dcp_indx(cpu: &mut Cpu, bus: &mut Bus) -> (r: u8)
    requires
        can_read(*old(cpu), *old(bus)),
    ensures
        dcp_indx_effect(*old(cpu), *old(bus), *final(cpu), *final(bus), r),
{
    let ea = cpu.addr_indx(bus);
    let val = cpu.bus_read(bus, ea);
    let ghost c1 = *cpu;
    let res = val.wrapping_sub(1);
    cpu.bus_write(bus, ea, res);
    let a = cpu.a;
    cpu.op_cmp(a, res);
    assert(*cpu == rmw_op(RmwOp::Dcp, c1, val).0 && res == rmw_op(RmwOp::Dcp, c1, val).1);
    0
}

fn op_dcp_indy(cpu: &mut Cpu, bus: &mut Bus) -> (r: u8)
    requires
        can_read(*old(cpu), *old(bus)),
    ensures
        dcp_indy_effect(*old(cpu), *old(bus), *final(cpu), *final(bus), r),
{
    let (ea, _) = cpu.addr_indy(bus);
    let val = cpu.bus_read(bus, ea);
    let ghost c1 = *cpu;
    let res = val.wrapping_sub(1);
    cpu.bus_write(bus, ea, res);
    let a = cpu.a;
    cpu.op_cmp(a, res);
    assert(*cpu == rmw_op(RmwOp::Dcp, c1, val).0 && res == rmw_op(RmwOp::Dcp, c1, val).1);
    0
}

fn op_dcp_zp(cpu: &mut Cpu, bus: &mut Bus) -> (r: u8)
    requires
        can_read(*old(cpu), *old(bus)),
    ensures
        dcp_zp_effect(*old(cpu), *old(bus), *final(cpu), *final(bus), r),
{
    let ea = cpu.addr_zp(bus);
    let val = cpu.bus_read(bus, ea);
    let ghost c1 = *cpu;
    let res = val.wrapping_sub(1);
    cpu.bus_write(bus, ea, res);
    let a = cpu.a;
    cpu.op_cmp(a, res);
    assert(*cpu == rmw_op(RmwOp::Dcp, c1, val).0 && res == rmw_op(RmwOp::Dcp, c1, val).1);
    0
}

fn op_dcp_zpx(cpu: &mut Cpu, bus: &mut Bus) -> (r: u8)
    requires
        can_read(*old(cpu), *old(bus)),
    ensures
        dcp_zpx_effect(*old(cpu), *old(bus), *final(cpu), *final(bus), r),
{
    let ea = cpu.addr_zpx(bus);
    let val = cpu.bus_read(bus, ea);
    let ghost c1 = *cpu;
    let res = val.wrapping_sub(1);
    cpu.bus_write(bus, ea, res);
    let a = cpu.a;
    cpu.op_cmp(a, res);
    assert(*cpu == rmw_op(RmwOp::Dcp, c1, val).0 && res == rmw_op(RmwOp::Dcp, c1, val).1);
    0
}

fn op_dec_abs(cpu: &mut Cpu, bus: &mut Bus) -> (r: u8)
    requires
        can_read(*old(cpu), *old(bus)),
    ensures
        dec_abs_effect(*old(cpu), *old(bus), *final(cpu), *final(bus), r),
{
    let ea = cpu.addr_abs(bus);
    let val = cpu.bus_read(bus, ea);
    let ghost c1 = *cpu;
    let res = val.wrapping_sub(1);
    cpu.flags.set_nz(res);
    cpu.bus_write(bus, ea, res);
    assert(*cpu == rmw_op(RmwOp::Dec, c1, val).0 && res == rmw_op(RmwOp::Dec, c1, val).1);
    0
}

fn op_dec_absx(cpu: &mut Cpu, bus: &mut Bus) -> (r: u8)
    requires
        can_read(*old(cpu), *old(bus)),
    ensures
        dec_absx_effect(*old(cpu), *old(bus), *final(cpu), *final(bus), r),
{
    let (ea, _) = cpu.addr_absx(bus);
    let val = cpu.bus_read(bus, ea);
    let ghost c1 = *cpu;
    let res = val.wrapping_sub(1);
    cpu.flags.set_nz(res);
    cpu.bus_write(bus, ea, res);
    assert(*cpu == rmw_op(RmwOp::Dec, c1, val).0 && res == rmw_op(RmwOp::Dec, c1, val).1);
    0
}

fn op_dec_zp(cpu: &mut Cpu, bus: &mut Bus) -> (r: u8)
    requires
        can_read(*old(cpu), *old(bus)),
    ensures
        dec_zp_effect(*old(cpu), *old(bus), *final(cpu), *final(bus), r),
{
    let ea = cpu.addr_zp(bus);
    let val = cpu.bus_read(bus, ea);
    let ghost c1 = *cpu;
    let res = val.wrapping_sub(1);
    cpu.flags.set_nz(res);
    cpu.bus_write(bus, ea, res);
    assert(*cpu == rmw_op(RmwOp::Dec, c1, val).0 && res == rmw_op(RmwOp::Dec, c1, val).1);
    0
}

fn op_dec_zpx(cpu: &mut Cpu, bus: &mut Bus) -> (r: u8)
    requires
        can_read(*old(cpu), *old(bus)),
    ensures
        dec_zpx_effect(*old(cpu), *old(bus), *final(cpu), *final(bus), r),
{
    let ea = cpu.addr_zpx(bus);
    let val = cpu.bus_read(bus, ea);
    let ghost c1 = *cpu;
    let res = val.wrapping_sub(1);
    cpu.flags.set_nz(res);
    cpu.bus_write(bus, ea, res);
    assert(*cpu == rmw_op(RmwOp::Dec, c1, val).0 && res == rmw_op(RmwOp::Dec, c1, val).1);
    0
}

fn op_eor_abs(cpu: &mut Cpu, bus: &mut Bus) -> (r: u8)
    requires
        can_read(*old(cpu), *old(bus)),
    ensures
        eor_abs_effect(*old(cpu), *old(bus), *final(cpu), *final(bus), r),
{
    let ghost c0 = *cpu;
    let ea = cpu.addr_abs(bus);
    let val = cpu.bus_read(bus, ea);
    let ghost c1 = *cpu;
    cpu.a = cpu.a ^ val;
    let a = cpu.a;
    cpu.flags.set_nz(a);
    assert(*cpu == read_op(ReadOp::Eor, c1, val));
    0
}

fn op_eor_absx(cpu: &mut Cpu, bus: &mut Bus) -> (r: u8)
    requires
        can_read(*old(cpu), *old(bus)),
    ensures
        eor_absx_effect(*old(cpu), *old(bus), *final(cpu), *final(bus), r),
{
    let ghost c0 = *cpu;
    let (ea, cross) = cpu.addr_absx(bus);
    let val = cpu.bus_read(bus, ea);
    let ghost c1 = *cpu;
    cpu.a = cpu.a ^ val;
    let a = cpu.a;
    cpu.flags.set_nz(a);
    assert(*cpu == read_op(ReadOp::Eor, c1, val));
    if cross { 1 } else { 0 }
}

fn op_eor_absy(cpu: &mut Cpu, bus: &mut Bus) -> (r: u8)
    requires
        can_read(*old(cpu), *old(bus)),
    ensures
        eor_absy_effect(*old(cpu), *old(bus), *final(cpu), *final(bus), r),
{
    let ghost c0 = *cpu;
    let (ea, cross) = cpu.addr_absy(bus);
    let val = cpu.bus_read(bus, ea);
    let ghost c1 = *cpu;
    cpu.a = cpu.a ^ val;
    let a = cpu.a;
    cpu.flags.set_nz(a);
    assert(*cpu == read_op(ReadOp::Eor, c1, val));
    if cross { 1 } else { 0 }
}

fn op_eor_imm(cpu: &mut Cpu, bus: &mut Bus) -> (r: u8)
    requires
        can_read(*old(cpu), *old(bus)),
    ensures
        eor_imm_effect(*old(cpu), *old(bus), *final(cpu), *final(bus), r),
{
    let ghost c0 = *cpu;
    let val = cpu.addr_imm(bus);
    let ghost c1 = *cpu;
    cpu.a = cpu.a ^ val;
    let a = cpu.a;
    cpu.flags.set_nz(a);
    assert(*cpu == read_op(ReadOp::Eor, c1, val));
    0
}

fn op_eor_ind_zp(cpu: &mut Cpu, bus: &mut Bus) -> (r: u8)
    requires
        can_read(*old(cpu), *old(bus)),
    ensures
        eor_ind_zp_effect(*old(cpu), *old(bus), *final(cpu), *final(bus), r),
{
    let ghost c0 = *cpu;
    let ea = cpu.addr_ind_zp(bus);
    let val = cpu.bus_read(bus, ea);
    let ghost c1 = *cpu;
    cpu.a = cpu.a ^ val;
    let a = cpu.a;
    cpu.flags.set_nz(a);
    assert(*cpu == read_op(ReadOp::Eor, c1, val));
    0
}

fn op_eor_indx(cpu: &mut Cpu, bus: &mut Bus) -> (r: u8)
    requires
        can_read(*old(cpu), *old(bus)),
    ensures
        eor_indx_effect(*old(cpu), *old(bus), *final(cpu), *final(bus), r),
{
    let ghost c0 = *cpu;
    let ea = cpu.addr_indx(bus);
    let val = cpu.bus_read(bus, ea);
    let ghost c1 = *cpu;
    cpu.a = cpu.a ^ val;
    let a = cpu.a;
    cpu.flags.set_nz(a);
    assert(*cpu == read_op(ReadOp::Eor, c1, val));
    0
}

fn op_eor_indy(cpu: &mut Cpu, bus: &mut Bus) -> (r: u8)
    requires
        can_read(*old(cpu), *old(bus)),
    ensures
        eor_indy_effect(*old(cpu), *old(bus), *final(cpu), *final(bus), r),
{
    let ghost c0 = *cpu;
    let (ea, cross) = cpu.addr_indy(bus);
    let val = cpu.bus_read(bus, ea);
    let ghost c1 = *cpu;
    cpu.a = cpu.a ^ val;
    let a = cpu.a;
    cpu.flags.set_nz(a);
    assert(*cpu == read_op(ReadOp::Eor, c1, val));
    if cross { 1 } else { 0 }
}

fn op_eor_zp(cpu: &mut Cpu, bus: &mut Bus) -> (r: u8)
    requires
        can_read(*old(cpu), *old(bus)),
    ensures
        eor_zp_effect(*old(cpu), *old(bus), *final(cpu), *final(bus), r),
{
    let ghost c0 = *cpu;
    let ea = cpu.addr_zp(bus);
    let val = cpu.bus_read(bus, ea);
    let ghost c1 = *cpu;
    cpu.a = cpu.a ^ val;
    let a = cpu.a;
    cpu.flags.set_nz(a);
    assert(*cpu == read_op(ReadOp::Eor, c1, val));
    0
}

fn op_eor_zpx(cpu: &mut Cpu, bus: &mut Bus) -> (r: u8)
    requires
        can_read(*old(cpu), *old(bus)),
    ensures
        eor_zpx_effect(*old(cpu), *old(bus), *final(cpu), *final(bus), r),
{
    let ghost c0 = *cpu;
    let ea = cpu.addr_zpx(bus);
    let val = cpu.bus_read(bus, ea);
    let ghost c1 = *cpu;
    cpu.a = cpu.a ^ val;
    let a = cpu.a;
    cpu.flags.set_nz(a);
    assert(*cpu == read_op(ReadOp::Eor, c1, val));
    0
}

fn op_inc_abs(cpu: &mut Cpu, bus: &mut Bus) -> (r: u8)
    requires
        can_read(*old(cpu), *old(bus)),
    ensures
        inc_abs_effect(*old(cpu), *old(bus), *final(cpu), *final(bus), r),
{
    let ea = cpu.addr_abs(bus);
    let val = cpu.bus_read(bus, ea);
    let ghost c1 = *cpu;
    let res = val.wrapping_add(1);
    cpu.flags.set_nz(res);
    cpu.bus_write(bus, ea, res);
    assert(*cpu == rmw_op(RmwOp::Inc, c1, val).0 && res == rmw_op(RmwOp::Inc, c1, val).1);
    0
}

fn op_inc_absx(cpu: &mut Cpu, bus: &mut Bus) -> (r: u8)
    requires
        can_read(*old(cpu), *old(bus)),
    ensures
        inc_absx_effect(*old(cpu), *old(bus), *final(cpu), *final(bus), r),
{
    let (ea, _) = cpu.addr_absx(bus);
    let val = cpu.bus_read(bus, ea);
    let ghost c1 = *cpu;
    let res = val.wrapping_add(1);
    cpu.flags.set_nz(res);
    cpu.bus_write(bus, ea, res);
    assert(*cpu == rmw_op(RmwOp::Inc, c1, val).0 && res == rmw_op(RmwOp::Inc, c1, val).1);
    0
}

fn op_inc_zp(cpu: &mut Cpu, bus: &mut Bus) -> (r: u8)
    requires
        can_read(*old(cpu), *old(bus)),
    ensures
        inc_zp_effect(*old(cpu), *old(bus), *final(cpu), *final(bus), r),
{
    let ea = cpu.addr_zp(bus);
    let val = cpu.bus_read(bus, ea);
    let ghost c1 = *cpu;
    let res = val.wrapping_add(1);
    cpu.flags.set_nz(res);
    cpu.bus_write(bus, ea, res);
    assert(*cpu == rmw_op(RmwOp::Inc, c1, val).0 && res == rmw_op(RmwOp::Inc, c1, val).1);
    0
}

fn op_inc_zpx(cpu: &mut Cpu, bus: &mut Bus) -> (r: u8)
    requires
        can_read(*old(cpu), *old(bus)),
    ensures
        inc_zpx_effect(*old(cpu), *old(bus), *final(cpu), *final(bus), r),
{
    let ea = cpu.addr_zpx(bus);
    let val = cpu.bus_read(bus, ea);
    let ghost c1 = *cpu;
    let res = val.wrapping_add(1);
    cpu.flags.set_nz(res);
    cpu.bus_write(bus, ea, res);
    assert(*cpu == rmw_op(RmwOp::Inc, c1, val).0 && res == rmw_op(RmwOp::Inc, c1, val).1);
    0
}

fn op_isc_abs(cpu: &mut Cpu, bus: &mut Bus) -> (r: u8)
    requires
        can_read(*old(cpu), *old(bus)),
    ensures
        isc_abs_effect(*old(cpu), *old(bus), *final(cpu), *final(bus), r),
{
    let ea = cpu.addr_abs(bus);
    let val = cpu.bus_read(bus, ea);
    let ghost c1 = *cpu;
    let res = val.wrapping_add(1);
    cpu.bus_write(bus, ea, res);
    cpu.op_sbc(res);
    assert(*cpu == rmw_op(RmwOp::Isc, c1, val).0 && res == rmw_op(RmwOp::Isc, c1, val).1);
    0
}

fn op_isc_absx(cpu: &mut Cpu, bus: &mut Bus) -> (r: u8)
    requires
        can_read(*old(cpu), *old(bus)),
    ensures
        isc_absx_effect(*old(cpu), *old(bus), *final(cpu), *final(bus), r),
{
    let (ea, _) = cpu.addr_absx(bus);
    let val = cpu.bus_read(bus, ea);
    let ghost c1 = *cpu;
    let res = val.wrapping_add(1);
    cpu.bus_write(bus, ea, res);
    cpu.op_sbc(res);
    assert(*cpu == rmw_op(RmwOp::Isc, c1, val).0 && res == rmw_op(RmwOp::Isc, c1, val).1);
    0
}

fn op_isc_absy(cpu: &mut Cpu, bus: &mut Bus) -> (r: u8)
    requires
        can_read(*old(cpu), *old(bus)),
    ensures
        isc_absy_effect(*old(cpu), *old(bus), *final(cpu), *final(bus), r),
{
    let (ea, _) = cpu.addr_absy(bus);
    let val = cpu.bus_read(bus, ea);
    let ghost c1 = *cpu;
    let res = val.wrapping_add(1);
    cpu.bus_write(bus, ea, res);
    cpu.op_sbc(res);
    assert(*cpu == rmw_op(RmwOp::Isc, c1, val).0 && res == rmw_op(RmwOp::Isc, c1, val).1);
    0
}

fn op_isc_indx(cpu: &mut Cpu, bus: &mut Bus) -> (r: u8)
    requires
        can_read(*old(cpu), *old(bus)),
    ensures
        isc_indx_effect(*old(cpu), *old(bus), *final(cpu), *final(bus), r),
{
    let ea = cpu.addr_indx(bus);
    let val = cpu.bus_read(bus, ea);
    let ghost c1 = *cpu;
    let res = val.wrapping_add(1);
    cpu.bus_write(bus, ea, res);
    cpu.op_sbc(res);
    assert(*cpu == rmw_op(RmwOp::Isc, c1, val).0 && res == rmw_op(RmwOp::Isc, c1, val).1);
    0
}

fn op_isc_indy(cpu: &mut Cpu, bus: &mut Bus) -> (r: u8)
    requires
        can_read(*old(cpu), *old(bus)),
    ensures
        isc_indy_effect(*old(cpu), *old(bus), *final(cpu), *final(bus), r),
{
    let (ea, _) = cpu.addr_indy(bus);
    let val = cpu.bus_read(bus, ea);
    let ghost c1 = *cpu;
    let res = val.wrapping_add(1);
    cpu.bus_write(bus, ea, res);
    cpu.op_sbc(res);
    assert(*cpu == rmw_op(RmwOp::Isc, c1, val).0 && res == rmw_op(RmwOp::Isc, c1, val).1);
    0
}

fn op_isc_zp(cpu: &mut Cpu, bus: &mut Bus) -> (r: u8)
    requires
        can_read(*old(cpu), *old(bus)),
    ensures
        isc_zp_effect(*old(cpu), *old(bus), *final(cpu), *final(bus), r),
{
    let ea = cpu.addr_zp(bus);
    let val = cpu.bus_read(bus, ea);
    let ghost c1 = *cpu;
    let res = val.wrapping_add(1);
    cpu.bus_write(bus, ea, res);
    cpu.op_sbc(res);
    assert(*cpu == rmw_op(RmwOp::Isc, c1, val).0 && res == rmw_op(RmwOp::Isc, c1, val).1);
    0
}

fn op_isc_zpx(cpu: &mut Cpu, bus: &mut Bus) -> (r: u8)
    requires
        can_read(*old(cpu), *old(bus)),
    ensures
        isc_zpx_effect(*old(cpu), *old(bus), *final(cpu), *final(bus), r),
{
    let ea = cpu.addr_zpx(bus);
    let val = cpu.bus_read(bus, ea);
    let ghost c1 = *cpu;
    let res = val.wrapping_add(1);
    cpu.bus_write(bus, ea, res);
    cpu.op_sbc(res);
    assert(*cpu == rmw_op(RmwOp::Isc, c1, val).0 && res == rmw_op(RmwOp::Isc, c1, val).1);
    0
}

fn op_las(cpu: &mut Cpu, bus: &mut Bus) -> (r: u8)
    requires
        can_read(*old(cpu), *old(bus)),
    ensures
        las_effect(*old(cpu), *old(bus), *final(cpu), *final(bus), r),
{
    let ghost c0 = *cpu;
    let (ea, cross) = cpu.addr_absy(bus);
    let val = cpu.bus_read(bus, ea);
    let ghost c1 = *cpu;
    let w = val & cpu.sp;
    cpu.a = w;
    cpu.x = w;
    cpu.sp = w;
    cpu.flags.set_nz(w);
    assert(*cpu == read_op(ReadOp::Las, c1, val));
    if cross { 1 } else { 0 }
}

fn op_lax_abs(cpu: &mut Cpu, bus: &mut Bus) -> (r: u8)
    requires
        can_read(*old(cpu), *old(bus)),
    ensures
        lax_abs_effect(*old(cpu), *old(bus), *final(cpu), *final(bus), r),
{
    let ghost c0 = *cpu;
    let ea = cpu.addr_abs(bus);
    let val = cpu.bus_read(bus, ea);
    let ghost c1 = *cpu;
    cpu.a = val;
    cpu.x = val;
    cpu.flags.set_nz(val);
    assert(*cpu == read_op(ReadOp::Lax, c1, val));
    0
}

fn op_lax_absy(cpu: &mut Cpu, bus: &mut Bus) -> (r: u8)
    requires
        can_read(*old(cpu), *old(bus)),
    ensures
        lax_absy_effect(*old(cpu), *old(bus), *final(cpu), *final(bus), r),
{
    let ghost c0 = *cpu;
    let (ea, cross) = cpu.addr_absy(bus);
    let val = cpu.bus_read(bus, ea);
    let ghost c1 = *cpu;
    cpu.a = val;
    cpu.x = val;
    cpu.flags.set_nz(val);
    assert(*cpu == read_op(ReadOp::Lax, c1, val));
    if cross { 1 } else { 0 }
}

fn op_lax_imm(cpu: &mut Cpu, bus: &mut Bus) -> (r: u8)
    requires
        can_read(*old(cpu), *old(bus)),
    ensures
        lax_imm_effect(*old(cpu), *old(bus), *final(cpu), *final(bus), r),
{
    let ghost c0 = *cpu;
    let val = cpu.addr_imm(bus);
    let ghost c1 = *cpu;
    let res = val & (cpu.a | 0xEE);
    cpu.a = res;
    cpu.x = res;
    cpu.flags.set_nz(res);
    assert(*cpu == read_op(ReadOp::LaxImm, c1, val));
    0
}

fn op_lax_indx(cpu: &mut Cpu, bus: &mut Bus) -> (r: u8)
    requires
        can_read(*old(cpu), *old(bus)),
    ensures
        lax_indx_effect(*old(cpu), *old(bus), *final(cpu), *final(bus), r),
{
    let ghost c0 = *cpu;
    let ea = cpu.addr_indx(bus);
    let val = cpu.bus_read(bus, ea);
    let ghost c1 = *cpu;
    cpu.a = val;
    cpu.x = val;
    cpu.flags.set_nz(val);
    assert(*cpu == read_op(ReadOp::Lax, c1, val));
    0
}

fn op_lax_indy(cpu: &mut Cpu, bus: &mut Bus) -> (r: u8)
    requires
        can_read(*old(cpu), *old(bus)),
    ensures
        lax_indy_effect(*old(cpu), *old(bus), *final(cpu), *final(bus), r),
{
    let ghost c0 = *cpu;
    let (ea, cross) = cpu.addr_indy(bus);
    let val = cpu.bus_read(bus, ea);
    let ghost c1 = *cpu;
    cpu.a = val;
    cpu.x = val;
    cpu.flags.set_nz(val);
    assert(*cpu == read_op(ReadOp::Lax, c1, val));
    if cross { 1 } else { 0 }
}

fn op_lax_zp(cpu: &mut Cpu, bus: &mut Bus) -> (r: u8)
    requires
        can_read(*old(cpu), *old(bus)),
    ensures
        lax_zp_effect(*old(cpu), *old(bus), *final(cpu), *final(bus), r),
{
    let ghost c0 = *cpu;
    let ea = cpu.addr_zp(bus);
    let val = cpu.bus_read(bus, ea);
    let ghost c1 = *cpu;
    cpu.a = val;
    cpu.x = val;
    cpu.flags.set_nz(val);
    assert(*cpu == read_op(ReadOp::Lax, c1, val));
    0
}

fn op_lax_zpy(cpu: &mut Cpu, bus: &mut Bus) -> (r: u8)
    requires
        can_read(*old(cpu), *old(bus)),
    ensures
        lax_zpy_effect(*old(cpu), *old(bus), *final(cpu), *final(bus), r),
{
    let ghost c0 = *cpu;
    let ea = cpu.addr_zpy(bus);
    let val = cpu.bus_read(bus, ea);
    let ghost c1 = *cpu;
    cpu.a = val;
    cpu.x = val;
    cpu.flags.set_nz(val);
    assert(*cpu == read_op(ReadOp::Lax, c1, val));
    0
}

fn op_lda_abs(cpu: &mut Cpu, bus: &mut Bus) -> (r: u8)
    requires
        can_read(*old(cpu), *old(bus)),
    ensures
        lda_abs_effect(*old(cpu), *old(bus), *final(cpu), *final(bus), r),
{
    let ghost c0 = *cpu;
    let ea = cpu.addr_abs(bus);
    let val = cpu.bus_read(bus, ea);
    let ghost c1 = *cpu;
    cpu.a = val;
    cpu.flags.set_nz(val);
    assert(*cpu == read_op(ReadOp::Lda, c1, val));
    0
}

fn op_lda_absx(cpu: &mut Cpu, bus: &mut Bus) -> (r: u8)
    requires
        can_read(*old(cpu), *old(bus)),
    ensures
        lda_absx_effect(*old(cpu), *old(bus), *final(cpu), *final(bus), r),
{
    let ghost c0 = *cpu;
    let (ea, cross) = cpu.addr_absx(bus);
    let val = cpu.bus_read(bus, ea);
    let ghost c1 = *cpu;
    cpu.a = val;
    cpu.flags.set_nz(val);
    assert(*cpu == read_op(ReadOp::Lda, c1, val));
    if cross { 1 } else { 0 }
}

fn op_lda_absy(cpu: &mut Cpu, bus: &mut Bus) -> (r: u8)
    requires
        can_read(*old(cpu), *old(bus)),
    ensures
        lda_absy_effect(*old(cpu), *old(bus), *final(cpu), *final(bus), r),
{
    let ghost c0 = *cpu;
    let (ea, cross) = cpu.addr_absy(bus);
    let val = cpu.bus_read(bus, ea);
    let ghost c1 = *cpu;
    cpu.a = val;
    cpu.flags.set_nz(val);
    assert(*cpu == read_op(ReadOp::Lda, c1, val));
    if cross { 1 } else { 0 }
}

fn op_lda_imm(cpu: &mut Cpu, bus: &mut Bus) -> (r: u8)
    requires
        can_read(*old(cpu), *old(bus)),
    ensures
        lda_imm_effect(*old(cpu), *old(bus), *final(cpu), *final(bus), r),
{
    let ghost c0 = *cpu;
    let val = cpu.addr_imm(bus);
    let ghost c1 = *cpu;
    cpu.a = val;
    cpu.flags.set_nz(val);
    assert(*cpu == read_op(ReadOp::Lda, c1, val));
    0
}

fn op_lda_ind_zp(cpu: &mut Cpu, bus: &mut Bus) -> (r: u8)
    requires
        can_read(*old(cpu), *old(bus)),
    ensures
        lda_ind_zp_effect(*old(cpu), *old(bus), *final(cpu), *final(bus), r),
{
    let ghost c0 = *cpu;
    let ea = cpu.addr_ind_zp(bus);
    let val = cpu.bus_read(bus, ea);
    let ghost c1 = *cpu;
    cpu.a = val;
    cpu.flags.set_nz(val);
    assert(*cpu == read_op(ReadOp::Lda, c1, val));
    0
}

fn op_lda_indx(cpu: &mut Cpu, bus: &mut Bus) -> (r: u8)
    requires
        can_read(*old(cpu), *old(bus)),
    ensures
        lda_indx_effect(*old(cpu), *old(bus), *final(cpu), *final(bus), r),
{
    let ghost c0 = *cpu;
    let ea = cpu.addr_indx(bus);
    let val = cpu.bus_read(bus, ea);
    let ghost c1 = *cpu;
    cpu.a = val;
    cpu.flags.set_nz(val);
    assert(*cpu == read_op(ReadOp::Lda, c1, val));
    0
}

fn op_lda_indy(cpu: &mut Cpu, bus: &mut Bus) -> (r: u8)
    requires
        can_read(*old(cpu), *old(bus)),
    ensures
        lda_indy_effect(*old(cpu), *old(bus), *final(cpu), *final(bus), r),
{
    let ghost c0 = *cpu;
    let (ea, cross) = cpu.addr_indy(bus);
    let val = cpu.bus_read(bus, ea);
    let ghost c1 = *cpu;
    cpu.a = val;
    cpu.flags.set_nz(val);
    assert(*cpu == read_op(ReadOp::Lda, c1, val));
    if cross { 1 } else { 0 }
}

fn op_lda_zp(cpu: &mut Cpu, bus: &mut Bus) -> (r: u8)
    requires
        can_read(*old(cpu), *old(bus)),
    ensures
        lda_zp_effect(*old(cpu), *old(bus), *final(cpu), *final(bus), r),
{
    let ghost c0 = *cpu;
    let ea = cpu.addr_zp(bus);
    let val = cpu.bus_read(bus, ea);
    let ghost c1 = *cpu;
    cpu.a = val;
    cpu.flags.set_nz(val);
    assert(*cpu == read_op(ReadOp::Lda, c1, val));
    0
}

fn op_lda_zpx(cpu: &mut Cpu, bus: &mut Bus) -> (r: u8)
    requires
        can_read(*old(cpu), *old(bus)),
    ensures
        lda_zpx_effect(*old(cpu), *old(bus), *final(cpu), *final(bus), r),
{
    let ghost c0 = *cpu;
    let ea = cpu.addr_zpx(bus);
    let val = cpu.bus_read(bus, ea);
    let ghost c1 = *cpu;
    cpu.a = val;
    cpu.flags.set_nz(val);
    assert(*cpu == read_op(ReadOp::Lda, c1, val));
    0
}

fn op_ldx_abs(cpu: &mut Cpu, bus: &mut Bus) -> (r: u8)
    requires
        can_read(*old(cpu), *old(bus)),
    ensures
        ldx_abs_effect(*old(cpu), *old(bus), *final(cpu), *final(bus), r),
{
    let ghost c0 = *cpu;
    let ea = cpu.addr_abs(bus);
    let val = cpu.bus_read(bus, ea);
    let ghost c1 = *cpu;
    cpu.x = val;
    cpu.flags.set_nz(val);
    assert(*cpu == read_op(ReadOp::Ldx, c1, val));
    0
}

fn op_ldx_absy(cpu: &mut Cpu, bus: &mut Bus) -> (r: u8)
    requires
        can_read(*old(cpu), *old(bus)),
    ensures
        ldx_absy_effect(*old(cpu), *old(bus), *final(cpu), *final(bus), r),
{
    let ghost c0 = *cpu;
    let (ea, cross) = cpu.addr_absy(bus);
    let val = cpu.bus_read(bus, ea);
    let ghost c1 = *cpu;
    cpu.x = val;
    cpu.flags.set_nz(val);
    assert(*cpu == read_op(ReadOp::Ldx, c1, val));
    if cross { 1 } else { 0 }
}

fn op_ldx_imm(cpu: &mut Cpu, bus: &mut Bus) -> (r: u8)
    requires
        can_read(*old(cpu), *old(bus)),
    ensures
        ldx_imm_effect(*old(cpu), *old(bus), *final(cpu), *final(bus), r),
{
    let ghost c0 = *cpu;
    let val = cpu.addr_imm(bus);
    let ghost c1 = *cpu;
    cpu.x = val;
    cpu.flags.set_nz(val);
    assert(*cpu == read_op(ReadOp::Ldx, c1, val));
    0
}

fn op_ldx_zp(cpu: &mut Cpu, bus: &mut Bus) -> (r: u8)
    requires
        can_read(*old(cpu), *old(bus)),
    ensures
        ldx_zp_effect(*old(cpu), *old(bus), *final(cpu), *final(bus), r),
{
    let ghost c0 = *cpu;
    let ea = cpu.addr_zp(bus);
    let val = cpu.bus_read(bus, ea);
    let ghost c1 = *cpu;
    cpu.x = val;
    cpu.flags.set_nz(val);
    assert(*cpu == read_op(ReadOp::Ldx, c1, val));
    0
}

fn op_ldx_zpy(cpu: &mut Cpu, bus: &mut Bus) -> (r: u8)
    requires
        can_read(*old(cpu), *old(bus)),
    ensures
        ldx_zpy_effect(*old(cpu), *old(bus), *final(cpu), *final(bus), r),
{
    let ghost c0 = *cpu;
    let ea = cpu.addr_zpy(bus);
    let val = cpu.bus_read(bus, ea);
    let ghost c1 = *cpu;
    cpu.x = val;
    cpu.flags.set_nz(val);
    assert(*cpu == read_op(ReadOp::Ldx, c1, val));
    0
}

fn op_ldy_abs(cpu: &mut Cpu, bus: &mut Bus) -> (r: u8)
    requires
        can_read(*old(cpu), *old(bus)),
    ensures
        ldy_abs_effect(*old(cpu), *old(bus), *final(cpu), *final(bus), r),
{
    let ghost c0 = *cpu;
    let ea = cpu.addr_abs(bus);
    let val = cpu.bus_read(bus, ea);
    let ghost c1 = *cpu;
    cpu.y = val;
    cpu.flags.set_nz(val);
    assert(*cpu == read_op(ReadOp::Ldy, c1, val));
    0
}

fn op_ldy_absx(cpu: &mut Cpu, bus: &mut Bus) -> (r: u8)
    requires
        can_read(*old(cpu), *old(bus)),
    ensures
        ldy_absx_effect(*old(cpu), *old(bus), *final(cpu), *final(bus), r),
{
    let ghost c0 = *cpu;
    let (ea, cross) = cpu.addr_absx(bus);
    let val = cpu.bus_read(bus, ea);
    let ghost c1 = *cpu;
    cpu.y = val;
    cpu.flags.set_nz(val);
    assert(*cpu == read_op(ReadOp::Ldy, c1, val));
    if cross { 1 } else { 0 }
}

fn op_ldy_imm(cpu: &mut Cpu, bus: &mut Bus) -> (r: u8)
    requires
        can_read(*old(cpu), *old(bus)),
    ensures
        ldy_imm_effect(*old(cpu), *old(bus), *final(cpu), *final(bus), r),
{
    let ghost c0 = *cpu;
    let val = cpu.addr_imm(bus);
    let ghost c1 = *cpu;
    cpu.y = val;
    cpu.flags.set_nz(val);
    assert(*cpu == read_op(ReadOp::Ldy, c1, val));
    0
}

fn op_ldy_zp(cpu: &mut Cpu, bus: &mut Bus) -> (r: u8)
    requires
        can_read(*old(cpu), *old(bus)),
    ensures
        ldy_zp_effect(*old(cpu), *old(bus), *final(cpu), *final(bus), r),
{
    let ghost c0 = *cpu;
    let ea = cpu.addr_zp(bus);
    let val = cpu.bus_read(bus, ea);
    let ghost c1 = *cpu;
    cpu.y = val;
    cpu.flags.set_nz(val);
    assert(*cpu == read_op(ReadOp::Ldy, c1, val));
    0
}

fn op_ldy_zpx(cpu: &mut Cpu, bus: &mut Bus) -> (r: u8)
    requires
        can_read(*old(cpu), *old(bus)),
    ensures
        ldy_zpx_effect(*old(cpu), *old(bus), *final(cpu), *final(bus), r),
{
    let ghost c0 = *cpu;
    let ea = cpu.addr_zpx(bus);
    let val = cpu.bus_read(bus, ea);
    let ghost c1 = *cpu;
    cpu.y = val;
    cpu.flags.set_nz(val);
    assert(*cpu == read_op(ReadOp::Ldy, c1, val));
    0
}

fn op_lsr_abs(cpu: &mut Cpu, bus: &mut Bus) -> (r: u8)
    requires
        can_read(*old(cpu), *old(bus)),
    ensures
        lsr_abs_effect(*old(cpu), *old(bus), *final(cpu), *final(bus), r),
{
    let ea = cpu.addr_abs(bus);
    let val = cpu.bus_read(bus, ea);
    let ghost c1 = *cpu;
    let res = cpu.op_lsr(val);
    cpu.bus_write(bus, ea, res);
    assert(*cpu == rmw_op(RmwOp::Lsr, c1, val).0 && res == rmw_op(RmwOp::Lsr, c1, val).1);
    0
}

fn op_lsr_absx(cpu: &mut Cpu, bus: &mut Bus) -> (r: u8)
    requires
        can_read(*old(cpu), *old(bus)),
    ensures
        lsr_absx_effect(*old(cpu), *old(bus), *final(cpu), *final(bus), r),
{
    let (ea, _) = cpu.addr_absx(bus);
    let val = cpu.bus_read(bus, ea);
    let ghost c1 = *cpu;
    let res = cpu.op_lsr(val);
    cpu.bus_write(bus, ea, res);
    assert(*cpu == rmw_op(RmwOp::Lsr, c1, val).0 && res == rmw_op(RmwOp::Lsr, c1, val).1);
    0
}

fn op_lsr_zp(cpu: &mut Cpu, bus: &mut Bus) -> (r: u8)
    requires
        can_read(*old(cpu), *old(bus)),
    ensures
        lsr_zp_effect(*old(cpu), *old(bus), *final(cpu), *final(bus), r),
{
    let ea = cpu.addr_zp(bus);
    let val = cpu.bus_read(bus, ea);
    let ghost c1 = *cpu;
    let res = cpu.op_lsr(val);
    cpu.bus_write(bus, ea, res);
    assert(*cpu == rmw_op(RmwOp::Lsr, c1, val).0 && res == rmw_op(RmwOp::Lsr, c1, val).1);
    0
}

fn op_lsr_zpx(cpu: &mut Cpu, bus: &mut Bus) -> (r: u8)
    requires
        can_read(*old(cpu), *old(bus)),
    ensures
        lsr_zpx_effect(*old(cpu), *old(bus), *final(cpu), *final(bus), r),
{
    let ea = cpu.addr_zpx(bus);
    let val = cpu.bus_read(bus, ea);
    let ghost c1 = *cpu;
    let res = cpu.op_lsr(val);
    cpu.bus_write(bus, ea, res);
    assert(*cpu == rmw_op(RmwOp::Lsr, c1, val).0 && res == rmw_op(RmwOp::Lsr, c1, val).1);
    0
}

fn op_nop_abs(cpu: &mut Cpu, bus: &mut Bus) -> (r: u8)
    requires
        can_read(*old(cpu), *old(bus)),
    ensures
        nop_abs_effect(*old(cpu), *old(bus), *final(cpu), *final(bus), r),
{
    let _ = cpu.addr_abs(bus);
    0
}

fn op_nop_absx(cpu: &mut Cpu, bus: &mut Bus) -> (r: u8)
    requires
        can_read(*old(cpu), *old(bus)),
    ensures
        nop_absx_effect(*old(cpu), *old(bus), *final(cpu), *final(bus), r),
{
    let (_, cross) = cpu.addr_absx(bus);
    if cross { 1 } else { 0 }
}

fn op_nop_imm(cpu: &mut Cpu, bus: &mut Bus) -> (r: u8)
    requires
        can_read(*old(cpu), *old(bus)),
    ensures
        nop_imm_effect(*old(cpu), *old(bus), *final(cpu), *final(bus), r),
{
    let _ = cpu.addr_imm(bus);
    0
}

fn op_nop_zp(cpu: &mut Cpu, bus: &mut Bus) -> (r: u8)
    requires
        can_read(*old(cpu), *old(bus)),
    ensures
        nop_zp_effect(*old(cpu), *old(bus), *final(cpu), *final(bus), r),
{
    let _ = cpu.addr_zp(bus);
    0
}

fn op_nop_zpx(cpu: &mut Cpu, bus: &mut Bus) -> (r: u8)
    requires
        can_read(*old(cpu), *old(bus)),
    ensures
        nop_zpx_effect(*old(cpu), *old(bus), *final(cpu), *final(bus), r),
{
    let _ = cpu.addr_zpx(bus);
    0
}

fn op_ora_abs(cpu: &mut Cpu, bus: &mut Bus) -> (r: u8)
    requires
        can_read(*old(cpu), *old(bus)),
    ensures
        ora_abs_effect(*old(cpu), *old(bus), *final(cpu), *final(bus), r),
{
    let ghost c0 = *cpu;
    let ea = cpu.addr_abs(bus);
    let val = cpu.bus_read(bus, ea);
    let ghost c1 = *cpu;
    cpu.a = cpu.a | val;
    let a = cpu.a;
    cpu.flags.set_nz(a);
    assert(*cpu == read_op(ReadOp::Ora, c1, val));
    0
}

fn op_ora_absx(cpu: &mut Cpu, bus: &mut Bus) -> (r: u8)
    requires
        can_read(*old(cpu), *old(bus)),
    ensures
        ora_absx_effect(*old(cpu), *old(bus), *final(cpu), *final(bus), r),
{
    let ghost c0 = *cpu;
    let (ea, cross) = cpu.addr_absx(bus);
    let val = cpu.bus_read(bus, ea);
    let ghost c1 = *cpu;
    cpu.a = cpu.a | val;
    let a = cpu.a;
    cpu.flags.set_nz(a);
    assert(*cpu == read_op(ReadOp::Ora, c1, val));
    if cross { 1 } else { 0 }
}

fn op_ora_absy(cpu: &mut Cpu, bus: &mut Bus) -> (r: u8)
    requires
        can_read(*old(cpu), *old(bus)),
    ensures
        ora_absy_effect(*old(cpu), *old(bus), *final(cpu), *final(bus), r),
{
    let ghost c0 = *cpu;
    let (ea, cross) = cpu.addr_absy(bus);
    let val = cpu.bus_read(bus, ea);
    let ghost c1 = *cpu;
    cpu.a = cpu.a | val;
    let a = cpu.a;
    cpu.flags.set_nz(a);
    assert(*cpu == read_op(ReadOp::Ora, c1, val));
    if cross { 1 } else { 0 }
}

fn op_ora_imm(cpu: &mut Cpu, bus: &mut Bus) -> (r: u8)
    requires
        can_read(*old(cpu), *old(bus)),
    ensures
        ora_imm_effect(*old(cpu), *old(bus), *final(cpu), *final(bus), r),
{
    let ghost c0 = *cpu;
    let val = cpu.addr_imm(bus);
    let ghost c1 = *cpu;
    cpu.a = cpu.a | val;
    let a = cpu.a;
    cpu.flags.set_nz(a);
    assert(*cpu == read_op(ReadOp::Ora, c1, val));
    0
}

fn op_ora_ind_zp(cpu: &mut Cpu, bus: &mut Bus) -> (r: u8)
    requires
        can_read(*old(cpu), *old(bus)),
    ensures
        ora_ind_zp_effect(*old(cpu), *old(bus), *final(cpu), *final(bus), r),
{
    let ghost c0 = *cpu;
    let ea = cpu.addr_ind_zp(bus);
    let val = cpu.bus_read(bus, ea);
    let ghost c1 = *cpu;
    cpu.a = cpu.a | val;
    let a = cpu.a;
    cpu.flags.set_nz(a);
    assert(*cpu == read_op(ReadOp::Ora, c1, val));
    0
}

fn op_ora_indx(cpu: &mut Cpu, bus: &mut Bus) -> (r: u8)
    requires
        can_read(*old(cpu), *old(bus)),
    ensures
        ora_indx_effect(*old(cpu), *old(bus), *final(cpu), *final(bus), r),
{
    let ghost c0 = *cpu;
    let ea = cpu.addr_indx(bus);
    let val = cpu.bus_read(bus, ea);
    let ghost c1 = *cpu;
    cpu.a = cpu.a | val;
    let a = cpu.a;
    cpu.flags.set_nz(a);
    assert(*cpu == read_op(ReadOp::Ora, c1, val));
    0
}

fn op_ora_indy(cpu: &mut Cpu, bus: &mut Bus) -> (r: u8)
    requires
        can_read(*old(cpu), *old(bus)),
    ensures
        ora_indy_effect(*old(cpu), *old(bus), *final(cpu), *final(bus), r),
{
    let ghost c0 = *cpu;
    let (ea, cross) = cpu.addr_indy(bus);
    let val = cpu.bus_read(bus, ea);
    let ghost c1 = *cpu;
    cpu.a = cpu.a | val;
    let a = cpu.a;
    cpu.flags.set_nz(a);
    assert(*cpu == read_op(ReadOp::Ora, c1, val));
    if cross { 1 } else { 0 }
}

fn op_ora_zp(cpu: &mut Cpu, bus: &mut Bus) -> (r: u8)
    requires
        can_read(*old(cpu), *old(bus)),
    ensures
        ora_zp_effect(*old(cpu), *old(bus), *final(cpu), *final(bus), r),
{
    let ghost c0 = *cpu;
    let ea = cpu.addr_zp(bus);
    let val = cpu.bus_read(bus, ea);
    let ghost c1 = *cpu;
    cpu.a = cpu.a | val;
    let a = cpu.a;
    cpu.flags.set_nz(a);
    assert(*cpu == read_op(ReadOp::Ora, c1, val));
    0
}

fn op_ora_zpx(cpu: &mut Cpu, bus: &mut Bus) -> (r: u8)
    requires
        can_read(*old(cpu), *old(bus)),
    ensures
        ora_zpx_effect(*old(cpu), *old(bus), *final(cpu), *final(bus), r),
{
    let ghost c0 = *cpu;
    let ea = cpu.addr_zpx(bus);
    let val = cpu.bus_read(bus, ea);
    let ghost c1 = *cpu;
    cpu.a = cpu.a | val;
    let a = cpu.a;
    cpu.flags.set_nz(a);
    assert(*cpu == read_op(ReadOp::Ora, c1, val));
    0
}

fn op_rla_abs(cpu: &mut Cpu, bus: &mut Bus) -> (r: u8)
    requires
        can_read(*old(cpu), *old(bus)),
    ensures
        rla_abs_effect(*old(cpu), *old(bus), *final(cpu), *final(bus), r),
{
    let ea = cpu.addr_abs(bus);
    let val = cpu.bus_read(bus, ea);
    let ghost c1 = *cpu;
    let res = cpu.op_rol(val);
    cpu.bus_write(bus, ea, res);
    cpu.a = cpu.a & res;
    let a = cpu.a;
    cpu.flags.set_nz(a);
    assert(*cpu == rmw_op(RmwOp::Rla, c1, val).0 && res == rmw_op(RmwOp::Rla, c1, val).1);
    0
}

fn op_rla_absx(cpu: &mut Cpu, bus: &mut Bus) -> (r: u8)
    requires
        can_read(*old(cpu), *old(bus)),
    ensures
        rla_absx_effect(*old(cpu), *old(bus), *final(cpu), *final(bus), r),
{
    let (ea, _) = cpu.addr_absx(bus);
    let val = cpu.bus_read(bus, ea);
    let ghost c1 = *cpu;
    let res = cpu.op_rol(val);
    cpu.bus_write(bus, ea, res);
    cpu.a = cpu.a & res;
    let a = cpu.a;
    cpu.flags.set_nz(a);
    assert(*cpu == rmw_op(RmwOp::Rla, c1, val).0 && res == rmw_op(RmwOp::Rla, c1, val).1);
    0
}

fn op_rla_absy(cpu: &mut Cpu, bus: &mut Bus) -> (r: u8)
    requires
        can_read(*old(cpu), *old(bus)),
    ensures
        rla_absy_effect(*old(cpu), *old(bus), *final(cpu), *final(bus), r),
{
    let (ea, _) = cpu.addr_absy(bus);
    let val = cpu.bus_read(bus, ea);
    let ghost c1 = *cpu;
    let res = cpu.op_rol(val);
    cpu.bus_write(bus, ea, res);
    cpu.a = cpu.a & res;
    let a = cpu.a;
    cpu.flags.set_nz(a);
    assert(*cpu == rmw_op(RmwOp::Rla, c1, val).0 && res == rmw_op(RmwOp::Rla, c1, val).1);
    0
}

fn op_rla_indx(cpu: &mut Cpu, bus: &mut Bus) -> (r: u8)
    requires
        can_read(*old(cpu), *old(bus)),
    ensures
        rla_indx_effect(*old(cpu), *old(bus), *final(cpu), *final(bus), r),
{
    let ea = cpu.addr_indx(bus);
    let val = cpu.bus_read(bus, ea);
    let ghost c1 = *cpu;
    let res = cpu.op_rol(val);
    cpu.bus_write(bus, ea, res);
    cpu.a = cpu.a & res;
    let a = cpu.a;
    cpu.flags.set_nz(a);
    assert(*cpu == rmw_op(RmwOp::Rla, c1, val).0 && res == rmw_op(RmwOp::Rla, c1, val).1);
    0
}

fn op_rla_indy(cpu: &mut Cpu, bus: &mut Bus) -> (r: u8)
    requires
        can_read(*old(cpu), *old(bus)),
    ensures
        rla_indy_effect(*old(cpu), *old(bus), *final(cpu), *final(bus), r),
{
    let (ea, _) = cpu.addr_indy(bus);
    let val = cpu.bus_read(bus, ea);
    let ghost c1 = *cpu;
    let res = cpu.op_rol(val);
    cpu.bus_write(bus, ea, res);
    cpu.a = cpu.a & res;
    let a = cpu.a;
    cpu.flags.set_nz(a);
    assert(*cpu == rmw_op(RmwOp::Rla, c1, val).0 && res == rmw_op(RmwOp::Rla, c1, val).1);
    0
}

fn op_rla_zp(cpu: &mut Cpu, bus: &mut Bus) -> (r: u8)
    requires
        can_read(*old(cpu), *old(bus)),
    ensures
        rla_zp_effect(*old(cpu), *old(bus), *final(cpu), *final(bus), r),
{
    let ea = cpu.addr_zp(bus);
    let val = cpu.bus_read(bus, ea);
    let ghost c1 = *cpu;
    let res = cpu.op_rol(val);
    cpu.bus_write(bus, ea, res);
    cpu.a = cpu.a & res;
    let a = cpu.a;
    cpu.flags.set_nz(a);
    assert(*cpu == rmw_op(RmwOp::Rla, c1, val).0 && res == rmw_op(RmwOp::Rla, c1, val).1);
    0
}

fn op_rla_zpx(cpu: &mut Cpu, bus: &mut Bus) -> (r: u8)
    requires
        can_read(*old(cpu), *old(bus)),
    ensures
        rla_zpx_effect(*old(cpu), *old(bus), *final(cpu), *final(bus), r),
{
    let ea = cpu.addr_zpx(bus);
    let val = cpu.bus_read(bus, ea);
    let ghost c1 = *cpu;
    let res = cpu.op_rol(val);
    cpu.bus_write(bus, ea, res);
    cpu.a = cpu.a & res;
    let a = cpu.a;
    cpu.flags.set_nz(a);
    assert(*cpu == rmw_op(RmwOp::Rla, c1, val).0 && res == rmw_op(RmwOp::Rla, c1, val).1);
    0
}

fn op_rol_abs(cpu: &mut Cpu, bus: &mut Bus) -> (r: u8)
    requires
        can_read(*old(cpu), *old(bus)),
    ensures
        rol_abs_effect(*old(cpu), *old(bus), *final(cpu), *final(bus), r),
{
    let ea = cpu.addr_abs(bus);
    let val = cpu.bus_read(bus, ea);
    let ghost c1 = *cpu;
    let res = cpu.op_rol(val);
    cpu.bus_write(bus, ea, res);
    assert(*cpu == rmw_op(RmwOp::Rol, c1, val).0 && res == rmw_op(RmwOp::Rol, c1, val).1);
    0
}

fn op_rol_absx(cpu: &mut Cpu, bus: &mut Bus) -> (r: u8)
    requires
        can_read(*old(cpu), *old(bus)),
    ensures
        rol_absx_effect(*old(cpu), *old(bus), *final(cpu), *final(bus), r),
{
    let (ea, _) = cpu.addr_absx(bus);
    let val = cpu.bus_read(bus, ea);
    let ghost c1 = *cpu;
    let res = cpu.op_rol(val);
    cpu.bus_write(bus, ea, res);
    assert(*cpu == rmw_op(RmwOp::Rol, c1, val).0 && res == rmw_op(RmwOp::Rol, c1, val).1);
    0
}

fn op_rol_zp(cpu: &mut Cpu, bus: &mut Bus) -> (r: u8)
    requires
        can_read(*old(cpu), *old(bus)),
    ensures
        rol_zp_effect(*old(cpu), *old(bus), *final(cpu), *final(bus), r),
{
    let ea = cpu.addr_zp(bus);
    let val = cpu.bus_read(bus, ea);
    let ghost c1 = *cpu;
    let res = cpu.op_rol(val);
    cpu.bus_write(bus, ea, res);
    assert(*cpu == rmw_op(RmwOp::Rol, c1, val).0 && res == rmw_op(RmwOp::Rol, c1, val).1);
    0
}

fn op_rol_zpx(cpu: &mut Cpu, bus: &mut Bus) -> (r: u8)
    requires
        can_read(*old(cpu), *old(bus)),
    ensures
        rol_zpx_effect(*old(cpu), *old(bus), *final(cpu), *final(bus), r),
{
    let ea = cpu.addr_zpx(bus);
    let val = cpu.bus_read(bus, ea);
    let ghost c1 = *cpu;
    let res = cpu.op_rol(val);
    cpu.bus_write(bus, ea, res);
    assert(*cpu == rmw_op(RmwOp::Rol, c1, val).0 && res == rmw_op(RmwOp::Rol, c1, val).1);
    0
}

fn op_ror_abs(cpu: &mut Cpu, bus: &mut Bus) -> (r: u8)
    requires
        can_read(*old(cpu), *old(bus)),
    ensures
        ror_abs_effect(*old(cpu), *old(bus), *final(cpu), *final(bus), r),
{
    let ea = cpu.addr_abs(bus);
    let val = cpu.bus_read(bus, ea);
    let ghost c1 = *cpu;
    let res = cpu.op_ror(val);
    cpu.bus_write(bus, ea, res);
    assert(*cpu == rmw_op(RmwOp::Ror, c1, val).0 && res == rmw_op(RmwOp::Ror, c1, val).1);
    0
}

fn op_ror_absx(cpu: &mut Cpu, bus: &mut Bus) -> (r: u8)
    requires
        can_read(*old(cpu), *old(bus)),
    ensures
        ror_absx_effect(*old(cpu), *old(bus), *final(cpu), *final(bus), r),
{
    let (ea, _) = cpu.addr_absx(bus);
    let val = cpu.bus_read(bus, ea);
    let ghost c1 = *cpu;
    let res = cpu.op_ror(val);
    cpu.bus_write(bus, ea, res);
    assert(*cpu == rmw_op(RmwOp::Ror, c1, val).0 && res == rmw_op(RmwOp::Ror, c1, val).1);
    0
}

fn op_ror_zp(cpu: &mut Cpu, bus: &mut Bus) -> (r: u8)
    requires
        can_read(*old(cpu), *old(bus)),
    ensures
        ror_zp_effect(*old(cpu), *old(bus), *final(cpu), *final(bus), r),
{
    let ea = cpu.addr_zp(bus);
    let val = cpu.bus_read(bus, ea);
    let ghost c1 = *cpu;
    let res = cpu.op_ror(val);
    cpu.bus_write(bus, ea, res);
    assert(*cpu == rmw_op(RmwOp::Ror, c1, val).0 && res == rmw_op(RmwOp::Ror, c1, val).1);
    0
}

fn op_ror_zpx(cpu: &mut Cpu, bus: &mut Bus) -> (r: u8)
    requires
        can_read(*old(cpu), *old(bus)),
    ensures
        ror_zpx_effect(*old(cpu), *old(bus), *final(cpu), *final(bus), r),
{
    let ea = cpu.addr_zpx(bus);
    let val = cpu.bus_read(bus, ea);
    let ghost c1 = *cpu;
    let res = cpu.op_ror(val);
    cpu.bus_write(bus, ea, res);
    assert(*cpu == rmw_op(RmwOp::Ror, c1, val).0 && res == rmw_op(RmwOp::Ror, c1, val).1);
    0
}

fn op_rra_abs(cpu: &mut Cpu, bus: &mut Bus) -> (r: u8)
    requires
        can_read(*old(cpu), *old(bus)),
    ensures
        rra_abs_effect(*old(cpu), *old(bus), *final(cpu), *final(bus), r),
{
    let ea = cpu.addr_abs(bus);
    let val = cpu.bus_read(bus, ea);
    let ghost c1 = *cpu;
    let res = cpu.op_ror(val);
    cpu.bus_write(bus, ea, res);
    cpu.op_adc(res);
    assert(*cpu == rmw_op(RmwOp::Rra, c1, val).0 && res == rmw_op(RmwOp::Rra, c1, val).1);
    0
}

fn op_rra_absx(cpu: &mut Cpu, bus: &mut Bus) -> (r: u8)
    requires
        can_read(*old(cpu), *old(bus)),
    ensures
        rra_absx_effect(*old(cpu), *old(bus), *final(cpu), *final(bus), r),
{
    let (ea, _) = cpu.addr_absx(bus);
    let val = cpu.bus_read(bus, ea);
    let ghost c1 = *cpu;
    let res = cpu.op_ror(val);
    cpu.bus_write(bus, ea, res);
    cpu.op_adc(res);
    assert(*cpu == rmw_op(RmwOp::Rra, c1, val).0 && res == rmw_op(RmwOp::Rra, c1, val).1);
    0
}

fn op_rra_absy(cpu: &mut Cpu, bus: &mut Bus) -> (r: u8)
    requires
        can_read(*old(cpu), *old(bus)),
    ensures
        rra_absy_effect(*old(cpu), *old(bus), *final(cpu), *final(bus), r),
{
    let (ea, _) = cpu.addr_absy(bus);
    let val = cpu.bus_read(bus, ea);
    let ghost c1 = *cpu;
    let res = cpu.op_ror(val);
    cpu.bus_write(bus, ea, res);
    cpu.op_adc(res);
    assert(*cpu == rmw_op(RmwOp::Rra, c1, val).0 && res == rmw_op(RmwOp::Rra, c1, val).1);
    0
}

fn op_rra_indx(cpu: &mut Cpu, bus: &mut Bus) -> (r: u8)
    requires
        can_read(*old(cpu), *old(bus)),
    ensures
        rra_indx_effect(*old(cpu), *old(bus), *final(cpu), *final(bus), r),
{
    let ea = cpu.addr_indx(bus);
    let val = cpu.bus_read(bus, ea);
    let ghost c1 = *cpu;
    let res = cpu.op_ror(val);
    cpu.bus_write(bus, ea, res);
    cpu.op_adc(res);
    assert(*cpu == rmw_op(RmwOp::Rra, c1, val).0 && res == rmw_op(RmwOp::Rra, c1, val).1);
    0
}

fn op_rra_indy(cpu: &mut Cpu, bus: &mut Bus) -> (r: u8)
    requires
        can_read(*old(cpu), *old(bus)),
    ensures
        rra_indy_effect(*old(cpu), *old(bus), *final(cpu), *final(bus), r),
{
    let (ea, _) = cpu.addr_indy(bus);
    let val = cpu.bus_read(bus, ea);
    let ghost c1 = *cpu;
    let res = cpu.op_ror(val);
    cpu.bus_write(bus, ea, res);
    cpu.op_adc(res);
    assert(*cpu == rmw_op(RmwOp::Rra, c1, val).0 && res == rmw_op(RmwOp::Rra, c1, val).1);
    0
}

fn op_rra_zp(cpu: &mut Cpu, bus: &mut Bus) -> (r: u8)
    requires
        can_read(*old(cpu), *old(bus)),
    ensures
        rra_zp_effect(*old(cpu), *old(bus), *final(cpu), *final(bus), r),
{
    let ea = cpu.addr_zp(bus);
    let val = cpu.bus_read(bus, ea);
    let ghost c1 = *cpu;
    let res = cpu.op_ror(val);
    cpu.bus_write(bus, ea, res);
    cpu.op_adc(res);
    assert(*cpu == rmw_op(RmwOp::Rra, c1, val).0 && res == rmw_op(RmwOp::Rra, c1, val).1);
    0
}

fn op_rra_zpx(cpu: &mut Cpu, bus: &mut Bus) -> (r: u8)
    requires
        can_read(*old(cpu), *old(bus)),
    ensures
        rra_zpx_effect(*old(cpu), *old(bus), *final(cpu), *final(bus), r),
{
    let ea = cpu.addr_zpx(bus);
    let val = cpu.bus_read(bus, ea);
    let ghost c1 = *cpu;
    let res = cpu.op_ror(val);
    cpu.bus_write(bus, ea, res);
    cpu.op_adc(res);
    assert(*cpu == rmw_op(RmwOp::Rra, c1, val).0 && res == rmw_op(RmwOp::Rra, c1, val).1);
    0
}

fn op_sax_abs(cpu: &mut Cpu, bus: &mut Bus) -> (r: u8)
    requires
        can_read(*old(cpu), *old(bus)),
    ensures
        sax_abs_effect(*old(cpu), *old(bus), *final(cpu), *final(bus), r),
{
    let v: u8 = cpu.a & cpu.x;
    let ea = cpu.addr_abs(bus);
    cpu.bus_write(bus, ea, v);
    0
}

fn op_sax_indx(cpu: &mut Cpu, bus: &mut Bus) -> (r: u8)
    requires
        can_read(*old(cpu), *old(bus)),
    ensures
        sax_indx_effect(*old(cpu), *old(bus), *final(cpu), *final(bus), r),
{
    let v: u8 = cpu.a & cpu.x;
    let ea = cpu.addr_indx(bus);
    cpu.bus_write(bus, ea, v);
    0
}

fn op_sax_zp(cpu: &mut Cpu, bus: &mut Bus) -> (r: u8)
    requires
        can_read(*old(cpu), *old(bus)),
    ensures
        sax_zp_effect(*old(cpu), *old(bus), *final(cpu), *final(bus), r),
{
    let v: u8 = cpu.a & cpu.x;
    let ea = cpu.addr_zp(bus);
    cpu.bus_write(bus, ea, v);
    0
}

fn op_sax_zpy(cpu: &mut Cpu, bus: &mut Bus) -> (r: u8)
    requires
        can_read(*old(cpu), *old(bus)),
    ensures
        sax_zpy_effect(*old(cpu), *old(bus), *final(cpu), *final(bus), r),
{
    let v: u8 = cpu.a & cpu.x;
    let ea = cpu.addr_zpy(bus);
    cpu.bus_write(bus, ea, v);
    0
}

fn op_sbc_abs(cpu: &mut Cpu, bus: &mut Bus) -> (r: u8)
    requires
        can_read(*old(cpu), *old(bus)),
    ensures
        sbc_abs_effect(*old(cpu), *old(bus), *final(cpu), *final(bus), r),
{
    let ghost c0 = *cpu;
    let ea = cpu.addr_abs(bus);
    let val = cpu.bus_read(bus, ea);
    let ghost c1 = *cpu;
    cpu.op_sbc(val);
    assert(*cpu == read_op(ReadOp::Sbc, c1, val));
    0
}

fn op_sbc_absx(cpu: &mut Cpu, bus: &mut Bus) -> (r: u8)
    requires
        can_read(*old(cpu), *old(bus)),
    ensures
        sbc_absx_effect(*old(cpu), *old(bus), *final(cpu), *final(bus), r),
{
    let ghost c0 = *cpu;
    let (ea, cross) = cpu.addr_absx(bus);
    let val = cpu.bus_read(bus, ea);
    let ghost c1 = *cpu;
    cpu.op_sbc(val);
    assert(*cpu == read_op(ReadOp::Sbc, c1, val));
    if cross { 1 } else { 0 }
}

fn op_sbc_absy(cpu: &mut Cpu, bus: &mut Bus) -> (r: u8)
    requires
        can_read(*old(cpu), *old(bus)),
    ensures
        sbc_absy_effect(*old(cpu), *old(bus), *final(cpu), *final(bus), r),
{
    let ghost c0 = *cpu;
    let (ea, cross) = cpu.addr_absy(bus);
    let val = cpu.bus_read(bus, ea);
    let ghost c1 = *cpu;
    cpu.op_sbc(val);
    assert(*cpu == read_op(ReadOp::Sbc, c1, val));
    if cross { 1 } else { 0 }
}

fn op_sbc_imm(cpu: &mut Cpu, bus: &mut Bus) -> (r: u8)
    requires
        can_read(*old(cpu), *old(bus)),
    ensures
        sbc_imm_effect(*old(cpu), *old(bus), *final(cpu), *final(bus), r),
{
    let ghost c0 = *cpu;
    let val = cpu.addr_imm(bus);
    let ghost c1 = *cpu;
    cpu.op_sbc(val);
    assert(*cpu == read_op(ReadOp::Sbc, c1, val));
    0
}

fn op_sbc_imm_eb(cpu: &mut Cpu, bus: &mut Bus) -> (r: u8)
    requires
        can_read(*old(cpu), *old(bus)),
    ensures
        sbc_imm_eb_effect(*old(cpu), *old(bus), *final(cpu), *final(bus), r),
{
    let ghost c0 = *cpu;
    let val = cpu.addr_imm(bus);
    let ghost c1 = *cpu;
    cpu.op_sbc(val);
    assert(*cpu == read_op(ReadOp::Sbc, c1, val));
    0
}

fn op_sbc_ind_zp(cpu: &mut Cpu, bus: &mut Bus) -> (r: u8)
    requires
        can_read(*old(cpu), *old(bus)),
    ensures
        sbc_ind_zp_effect(*old(cpu), *old(bus), *final(cpu), *final(bus), r),
{
    let ghost c0 = *cpu;
    let ea = cpu.addr_ind_zp(bus);
    let val = cpu.bus_read(bus, ea);
    let ghost c1 = *cpu;
    cpu.op_sbc(val);
    assert(*cpu == read_op(ReadOp::Sbc, c1, val));
    0
}

fn op_sbc_indx(cpu: &mut Cpu, bus: &mut Bus) -> (r: u8)
    requires
        can_read(*old(cpu), *old(bus)),
    ensures
        sbc_indx_effect(*old(cpu), *old(bus), *final(cpu), *final(bus), r),
{
    let ghost c0 = *cpu;
    let ea = cpu.addr_indx(bus);
    let val = cpu.bus_read(bus, ea);
    let ghost c1 = *cpu;
    cpu.op_sbc(val);
    assert(*cpu == read_op(ReadOp::Sbc, c1, val));
    0
}

fn op_sbc_indy(cpu: &mut Cpu, bus: &mut Bus) -> (r: u8)
    requires
        can_read(*old(cpu), *old(bus)),
    ensures
        sbc_indy_effect(*old(cpu), *old(bus), *final(cpu), *final(bus), r),
{
    let ghost c0 = *cpu;
    let (ea, cross) = cpu.addr_indy(bus);
    let val = cpu.bus_read(bus, ea);
    let ghost c1 = *cpu;
    cpu.op_sbc(val);
    assert(*cpu == read_op(ReadOp::Sbc, c1, val));
    if cross { 1 } else { 0 }
}

fn op_sbc_zp(cpu: &mut Cpu, bus: &mut Bus) -> (r: u8)
    requires
        can_read(*old(cpu), *old(bus)),
    ensures
        sbc_zp_effect(*old(cpu), *old(bus), *final(cpu), *final(bus), r),
{
    let ghost c0 = *cpu;
    let ea = cpu.addr_zp(bus);
    let val = cpu.bus_read(bus, ea);
    let ghost c1 = *cpu;
    cpu.op_sbc(val);
    assert(*cpu == read_op(ReadOp::Sbc, c1, val));
    0
}

fn op_sbc_zpx(cpu: &mut Cpu, bus: &mut Bus) -> (r: u8)
    requires
        can_read(*old(cpu), *old(bus)),
    ensures
        sbc_zpx_effect(*old(cpu), *old(bus), *final(cpu), *final(bus), r),
{
    let ghost c0 = *cpu;
    let ea = cpu.addr_zpx(bus);
    let val = cpu.bus_read(bus, ea);
    let ghost c1 = *cpu;
    cpu.op_sbc(val);
    assert(*cpu == read_op(ReadOp::Sbc, c1, val));
    0
}

fn op_sbx(cpu: &mut Cpu, bus: &mut Bus) -> (r: u8)
    requires
        can_read(*old(cpu), *old(bus)),
    ensures
        sbx_effect(*old(cpu), *old(bus), *final(cpu), *final(bus), r),
{
    let ghost c0 = *cpu;
    let val = cpu.addr_imm(bus);
    let ghost c1 = *cpu;
    let ax = cpu.a & cpu.x;
    cpu.flags.set(C, ax >= val);
    let x = ax.wrapping_sub(val);
    cpu.x = x;
    cpu.flags.set_nz(x);
    assert(*cpu == read_op(ReadOp::Sbx, c1, val));
    0
}

fn op_slo_abs(cpu: &mut Cpu, bus: &mut Bus) -> (r: u8)
    requires
        can_read(*old(cpu), *old(bus)),
    ensures
        slo_abs_effect(*old(cpu), *old(bus), *final(cpu), *final(bus), r),
{
    let ea = cpu.addr_abs(bus);
    let val = cpu.bus_read(bus, ea);
    let ghost c1 = *cpu;
    let res = cpu.op_asl(val);
    cpu.bus_write(bus, ea, res);
    cpu.a = cpu.a | res;
    let a = cpu.a;
    cpu.flags.set_nz(a);
    assert(*cpu == rmw_op(RmwOp::Slo, c1, val).0 && res == rmw_op(RmwOp::Slo, c1, val).1);
    0
}

fn op_slo_absx(cpu: &mut Cpu, bus: &mut Bus) -> (r: u8)
    requires
        can_read(*old(cpu), *old(bus)),
    ensures
        slo_absx_effect(*old(cpu), *old(bus), *final(cpu), *final(bus), r),
{
    let (ea, _) = cpu.addr_absx(bus);
    let val = cpu.bus_read(bus, ea);
    let ghost c1 = *cpu;
    let res = cpu.op_asl(val);
    cpu.bus_write(bus, ea, res);
    cpu.a = cpu.a | res;
    let a = cpu.a;
    cpu.flags.set_nz(a);
    assert(*cpu == rmw_op(RmwOp::Slo, c1, val).0 && res == rmw_op(RmwOp::Slo, c1, val).1);
    0
}

fn op_slo_absy(cpu: &mut Cpu, bus: &mut Bus) -> (r: u8)
    requires
        can_read(*old(cpu), *old(bus)),
    ensures
        slo_absy_effect(*old(cpu), *old(bus), *final(cpu), *final(bus), r),
{
    let (ea, _) = cpu.addr_absy(bus);
    let val = cpu.bus_read(bus, ea);
    let ghost c1 = *cpu;
    let res = cpu.op_asl(val);
    cpu.bus_write(bus, ea, res);
    cpu.a = cpu.a | res;
    let a = cpu.a;
    cpu.flags.set_nz(a);
    assert(*cpu == rmw_op(RmwOp::Slo, c1, val).0 && res == rmw_op(RmwOp::Slo, c1, val).1);
    0
}

fn op_slo_indx(cpu: &mut Cpu, bus: &mut Bus) -> (r: u8)
    requires
        can_read(*old(cpu), *old(bus)),
    ensures
        slo_indx_effect(*old(cpu), *old(bus), *final(cpu), *final(bus), r),
{
    let ea = cpu.addr_indx(bus);
    let val = cpu.bus_read(bus, ea);
    let ghost c1 = *cpu;
    let res = cpu.op_asl(val);
    cpu.bus_write(bus, ea, res);
    cpu.a = cpu.a | res;
    let a = cpu.a;
    cpu.flags.set_nz(a);
    assert(*cpu == rmw_op(RmwOp::Slo, c1, val).0 && res == rmw_op(RmwOp::Slo, c1, val).1);
    0
}

fn op_slo_indy(cpu: &mut Cpu, bus: &mut Bus) -> (r: u8)
    requires
        can_read(*old(cpu), *old(bus)),
    ensures
        slo_indy_effect(*old(cpu), *old(bus), *final(cpu), *final(bus), r),
{
    let (ea, _) = cpu.addr_indy(bus);
    let val = cpu.bus_read(bus, ea);
    let ghost c1 = *cpu;
    let res = cpu.op_asl(val);
    cpu.bus_write(bus, ea, res);
    cpu.a = cpu.a | res;
    let a = cpu.a;
    cpu.flags.set_nz(a);
    assert(*cpu == rmw_op(RmwOp::Slo, c1, val).0 && res == rmw_op(RmwOp::Slo, c1, val).1);
    0
}

fn op_slo_zp(cpu: &mut Cpu, bus: &mut Bus) -> (r: u8)
    requires
        can_read(*old(cpu), *old(bus)),
    ensures
        slo_zp_effect(*old(cpu), *old(bus), *final(cpu), *final(bus), r),
{
    let ea = cpu.addr_zp(bus);
    let val = cpu.bus_read(bus, ea);
    let ghost c1 = *cpu;
    let res = cpu.op_asl(val);
    cpu.bus_write(bus, ea, res);
    cpu.a = cpu.a | res;
    let a = cpu.a;
    cpu.flags.set_nz(a);
    assert(*cpu == rmw_op(RmwOp::Slo, c1, val).0 && res == rmw_op(RmwOp::Slo, c1, val).1);
    0
}

fn op_slo_zpx(cpu: &mut Cpu, bus: &mut Bus) -> (r: u8)
    requires
        can_read(*old(cpu), *old(bus)),
    ensures
        slo_zpx_effect(*old(cpu), *old(bus), *final(cpu), *final(bus), r),
{
    let ea = cpu.addr_zpx(bus);
    let val = cpu.bus_read(bus, ea);
    let ghost c1 = *cpu;
    let res = cpu.op_asl(val);
    cpu.bus_write(bus, ea, res);
    cpu.a = cpu.a | res;
    let a = cpu.a;
    cpu.flags.set_nz(a);
    assert(*cpu == rmw_op(RmwOp::Slo, c1, val).0 && res == rmw_op(RmwOp::Slo, c1, val).1);
    0
}

fn op_sre_abs(cpu: &mut Cpu, bus: &mut Bus) -> (r: u8)
    requires
        can_read(*old(cpu), *old(bus)),
    ensures
        sre_abs_effect(*old(cpu), *old(bus), *final(cpu), *final(bus), r),
{
    let ea = cpu.addr_abs(bus);
    let val = cpu.bus_read(bus, ea);
    let ghost c1 = *cpu;
    let res = cpu.op_lsr(val);
    cpu.bus_write(bus, ea, res);
    cpu.a = cpu.a ^ res;
    let a = cpu.a;
    cpu.flags.set_nz(a);
    assert(*cpu == rmw_op(RmwOp::Sre, c1, val).0 && res == rmw_op(RmwOp::Sre, c1, val).1);
    0
}

fn op_sre_absx(cpu: &mut Cpu, bus: &mut Bus) -> (r: u8)
    requires
        can_read(*old(cpu), *old(bus)),
    ensures
        sre_absx_effect(*old(cpu), *old(bus), *final(cpu), *final(bus), r),
{
    let (ea, _) = cpu.addr_absx(bus);
    let val = cpu.bus_read(bus, ea);
    let ghost c1 = *cpu;
    let res = cpu.op_lsr(val);
    cpu.bus_write(bus, ea, res);
    cpu.a = cpu.a ^ res;
    let a = cpu.a;
    cpu.flags.set_nz(a);
    assert(*cpu == rmw_op(RmwOp::Sre, c1, val).0 && res == rmw_op(RmwOp::Sre, c1, val).1);
    0
}

fn op_sre_absy(cpu: &mut Cpu, bus: &mut Bus) -> (r: u8)
    requires
        can_read(*old(cpu), *old(bus)),
    ensures
        sre_absy_effect(*old(cpu), *old(bus), *final(cpu), *final(bus), r),
{
    let (ea, _) = cpu.addr_absy(bus);
    let val = cpu.bus_read(bus, ea);
    let ghost c1 = *cpu;
    let res = cpu.op_lsr(val);
    cpu.bus_write(bus, ea, res);
    cpu.a = cpu.a ^ res;
    let a = cpu.a;
    cpu.flags.set_nz(a);
    assert(*cpu == rmw_op(RmwOp::Sre, c1, val).0 && res == rmw_op(RmwOp::Sre, c1, val).1);
    0
}

fn op_sre_indx(cpu: &mut Cpu, bus: &mut Bus) -> (r: u8)
    requires
        can_read(*old(cpu), *old(bus)),
    ensures
        sre_indx_effect(*old(cpu), *old(bus), *final(cpu), *final(bus), r),
{
    let ea = cpu.addr_indx(bus);
    let val = cpu.bus_read(bus, ea);
    let ghost c1 = *cpu;
    let res = cpu.op_lsr(val);
    cpu.bus_write(bus, ea, res);
    cpu.a = cpu.a ^ res;
    let a = cpu.a;
    cpu.flags.set_nz(a);
    assert(*cpu == rmw_op(RmwOp::Sre, c1, val).0 && res == rmw_op(RmwOp::Sre, c1, val).1);
    0
}

fn op_sre_indy(cpu: &mut Cpu, bus: &mut Bus) -> (r: u8)
    requires
        can_read(*old(cpu), *old(bus)),
    ensures
        sre_indy_effect(*old(cpu), *old(bus), *final(cpu), *final(bus), r),
{
    let (ea, _) = cpu.addr_indy(bus);
    let val = cpu.bus_read(bus, ea);
    let ghost c1 = *cpu;
    let res = cpu.op_lsr(val);
    cpu.bus_write(bus, ea, res);
    cpu.a = cpu.a ^ res;
    let a = cpu.a;
    cpu.flags.set_nz(a);
    assert(*cpu == rmw_op(RmwOp::Sre, c1, val).0 && res == rmw_op(RmwOp::Sre, c1, val).1);
    0
}

fn op_sre_zp(cpu: &mut Cpu, bus: &mut Bus) -> (r: u8)
    requires
        can_read(*old(cpu), *old(bus)),
    ensures
        sre_zp_effect(*old(cpu), *old(bus), *final(cpu), *final(bus), r),
{
    let ea = cpu.addr_zp(bus);
    let val = cpu.bus_read(bus, ea);
    let ghost c1 = *cpu;
    let res = cpu.op_lsr(val);
    cpu.bus_write(bus, ea, res);
    cpu.a = cpu.a ^ res;
    let a = cpu.a;
    cpu.flags.set_nz(a);
    assert(*cpu == rmw_op(RmwOp::Sre, c1, val).0 && res == rmw_op(RmwOp::Sre, c1, val).1);
    0
}

fn op_sre_zpx(cpu: &mut Cpu, bus: &mut Bus) -> (r: u8)
    requires
        can_read(*old(cpu), *old(bus)),
    ensures
        sre_zpx_effect(*old(cpu), *old(bus), *final(cpu), *final(bus), r),
{
    let ea = cpu.addr_zpx(bus);
    let val = cpu.bus_read(bus, ea);
    let ghost c1 = *cpu;
    let res = cpu.op_lsr(val);
    cpu.bus_write(bus, ea, res);
    cpu.a = cpu.a ^ res;
    let a = cpu.a;
    cpu.flags.set_nz(a);
    assert(*cpu == rmw_op(RmwOp::Sre, c1, val).0 && res == rmw_op(RmwOp::Sre, c1, val).1);
    0
}

fn op_sta_abs(cpu: &mut Cpu, bus: &mut Bus) -> (r: u8)
    requires
        can_read(*old(cpu), *old(bus)),
    ensures
        sta_abs_effect(*old(cpu), *old(bus), *final(cpu), *final(bus), r),
{
    let v: u8 = cpu.a;
    let ea = cpu.addr_abs(bus);
    cpu.bus_write(bus, ea, v);
    0
}

fn op_sta_absx(cpu: &mut Cpu, bus: &mut Bus) -> (r: u8)
    requires
        can_read(*old(cpu), *old(bus)),
    ensures
        sta_absx_effect(*old(cpu), *old(bus), *final(cpu), *final(bus), r),
{
    let v: u8 = cpu.a;
    let (ea, _) = cpu.addr_absx(bus);
    cpu.bus_write(bus, ea, v);
    0
}

fn op_sta_absy(cpu: &mut Cpu, bus: &mut Bus) -> (r: u8)
    requires
        can_read(*old(cpu), *old(bus)),
    ensures
        sta_absy_effect(*old(cpu), *old(bus), *final(cpu), *final(bus), r),
{
    let v: u8 = cpu.a;
    let (ea, _) = cpu.addr_absy(bus);
    cpu.bus_write(bus, ea, v);
    0
}

fn op_sta_ind_zp(cpu: &mut Cpu, bus: &mut Bus) -> (r: u8)
    requires
        can_read(*old(cpu), *old(bus)),
    ensures
        sta_ind_zp_effect(*old(cpu), *old(bus), *final(cpu), *final(bus), r),
{
    let v: u8 = cpu.a;
    let ea = cpu.addr_ind_zp(bus);
    cpu.bus_write(bus, ea, v);
    0
}

fn op_sta_indx(cpu: &mut Cpu, bus: &mut Bus) -> (r: u8)
    requires
        can_read(*old(cpu), *old(bus)),
    ensures
        sta_indx_effect(*old(cpu), *old(bus), *final(cpu), *final(bus), r),
{
    let v: u8 = cpu.a;
    let ea = cpu.addr_indx(bus);
    cpu.bus_write(bus, ea, v);
    0
}

fn op_sta_indy(cpu: &mut Cpu, bus: &mut Bus) -> (r: u8)
    requires
        can_read(*old(cpu), *old(bus)),
    ensures
        sta_indy_effect(*old(cpu), *old(bus), *final(cpu), *final(bus), r),
{
    let v: u8 = cpu.a;
    let (ea, _) = cpu.addr_indy(bus);
    cpu.bus_write(bus, ea, v);
    0
}

fn op_sta_zp(cpu: &mut Cpu, bus: &mut Bus) -> (r: u8)
    requires
        can_read(*old(cpu), *old(bus)),
    ensures
        sta_zp_effect(*old(cpu), *old(bus), *final(cpu), *final(bus), r),
{
    let v: u8 = cpu.a;
    let ea = cpu.addr_zp(bus);
    cpu.bus_write(bus, ea, v);
    0
}

fn op_sta_zpx(cpu: &mut Cpu, bus: &mut Bus) -> (r: u8)
    requires
        can_read(*old(cpu), *old(bus)),
    ensures
        sta_zpx_effect(*old(cpu), *old(bus), *final(cpu), *final(bus), r),
{
    let v: u8 = cpu.a;
    let ea = cpu.addr_zpx(bus);
    cpu.bus_write(bus, ea, v);
    0
}

fn op_stx_abs(cpu: &mut Cpu, bus: &mut Bus) -> (r: u8)
    requires
        can_read(*old(cpu), *old(bus)),
    ensures
        stx_abs_effect(*old(cpu), *old(bus), *final(cpu), *final(bus), r),
{
    let v: u8 = cpu.x;
    let ea = cpu.addr_abs(bus);
    cpu.bus_write(bus, ea, v);
    0
}

fn op_stx_zp(cpu: &mut Cpu, bus: &mut Bus) -> (r: u8)
    requires
        can_read(*old(cpu), *old(bus)),
    ensures
        stx_zp_effect(*old(cpu), *old(bus), *final(cpu), *final(bus), r),
{
    let v: u8 = cpu.x;
    let ea = cpu.addr_zp(bus);
    cpu.bus_write(bus, ea, v);
    0
}

fn op_stx_zpy(cpu: &mut Cpu, bus: &mut Bus) -> (r: u8)
    requires
        can_read(*old(cpu), *old(bus)),
    ensures
        stx_zpy_effect(*old(cpu), *old(bus), *final(cpu), *final(bus), r),
{
    let v: u8 = cpu.x;
    let ea = cpu.addr_zpy(bus);
    cpu.bus_write(bus, ea, v);
    0
}

fn op_sty_abs(cpu: &mut Cpu, bus: &mut Bus) -> (r: u8)
    requires
        can_read(*old(cpu), *old(bus)),
    ensures
        sty_abs_effect(*old(cpu), *old(bus), *final(cpu), *final(bus), r),
{
    let v: u8 = cpu.y;
    let ea = cpu.addr_abs(bus);
    cpu.bus_write(bus, ea, v);
    0
}

fn op_sty_zp(cpu: &mut Cpu, bus: &mut Bus) -> (r: u8)
    requires
        can_read(*old(cpu), *old(bus)),
    ensures
        sty_zp_effect(*old(cpu), *old(bus), *final(cpu), *final(bus), r),
{
    let v: u8 = cpu.y;
    let ea = cpu.addr_zp(bus);
    cpu.bus_write(bus, ea, v);
    0
}

fn op_sty_zpx(cpu: &mut Cpu, bus: &mut Bus) -> (r: u8)
    requires
        can_read(*old(cpu), *old(bus)),
    ensures
        sty_zpx_effect(*old(cpu), *old(bus), *final(cpu), *final(bus), r),
{
    let v: u8 = cpu.y;
    let ea = cpu.addr_zpx(bus);
    cpu.bus_write(bus, ea, v);
    0
}

fn op_stz_abs(cpu: &mut Cpu, bus: &mut Bus) -> (r: u8)
    requires
        can_read(*old(cpu), *old(bus)),
    ensures
        stz_abs_effect(*old(cpu), *old(bus), *final(cpu), *final(bus), r),
{
    let v: u8 = 0;
    let ea = cpu.addr_abs(bus);
    cpu.bus_write(bus, ea, v);
    0
}

fn op_stz_absx(cpu: &mut Cpu, bus: &mut Bus) -> (r: u8)
    requires
        can_read(*old(cpu), *old(bus)),
    ensures
        stz_absx_effect(*old(cpu), *old(bus), *final(cpu), *final(bus), r),
{
    let v: u8 = 0;
    let (ea, _) = cpu.addr_absx(bus);
    cpu.bus_write(bus, ea, v);
    0
}

fn op_stz_zp(cpu: &mut Cpu, bus: &mut Bus) -> (r: u8)
    requires
        can_read(*old(cpu), *old(bus)),
    ensures
        stz_zp_effect(*old(cpu), *old(bus), *final(cpu), *final(bus), r),
{
    let v: u8 = 0;
    let ea = cpu.addr_zp(bus);
    cpu.bus_write(bus, ea, v);
    0
}

fn op_stz_zpx(cpu: &mut Cpu, bus: &mut Bus) -> (r: u8)
    requires
        can_read(*old(cpu), *old(bus)),
    ensures
        stz_zpx_effect(*old(cpu), *old(bus), *final(cpu), *final(bus), r),
{
    let v: u8 = 0;
    let ea = cpu.addr_zpx(bus);
    cpu.bus_write(bus, ea, v);
    0
}

fn op_trb_abs(cpu: &mut Cpu, bus: &mut Bus) -> (r: u8)
    requires
        can_read(*old(cpu), *old(bus)),
    ensures
        trb_abs_effect(*old(cpu), *old(bus), *final(cpu), *final(bus), r),
{
    let ea = cpu.addr_abs(bus);
    let val = cpu.bus_read(bus, ea);
    let ghost c1 = *cpu;
    let a = cpu.a;
    cpu.flags.set(Z, a & val == 0);
    let res = val & !a;
    cpu.bus_write(bus, ea, res);
    assert(*cpu == rmw_op(RmwOp::Trb, c1, val).0 && res == rmw_op(RmwOp::Trb, c1, val).1);
    0
}

fn op_trb_zp(cpu: &mut Cpu, bus: &mut Bus) -> (r: u8)
    requires
        can_read(*old(cpu), *old(bus)),
    ensures
        trb_zp_effect(*old(cpu), *old(bus), *final(cpu), *final(bus), r),
{
    let ea = cpu.addr_zp(bus);
    let val = cpu.bus_read(bus, ea);
    let ghost c1 = *cpu;
    let a = cpu.a;
    cpu.flags.set(Z, a & val == 0);
    let res = val & !a;
    cpu.bus_write(bus, ea, res);
    assert(*cpu == rmw_op(RmwOp::Trb, c1, val).0 && res == rmw_op(RmwOp::Trb, c1, val).1);
    0
}

fn op_tsb_abs(cpu: &mut Cpu, bus: &mut Bus) -> (r: u8)
    requires
        can_read(*old(cpu), *old(bus)),
    ensures
        tsb_abs_effect(*old(cpu), *old(bus), *final(cpu), *final(bus), r),
{
    let ea = cpu.addr_abs(bus);
    let val = cpu.bus_read(bus, ea);
    let ghost c1 = *cpu;
    let a = cpu.a;
    cpu.flags.set(Z, a & val == 0);
    let res = val | a;
    cpu.bus_write(bus, ea, res);
    assert(*cpu == rmw_op(RmwOp::Tsb, c1, val).0 && res == rmw_op(RmwOp::Tsb, c1, val).1);
    0
}

fn op_tsb_zp(cpu: &mut Cpu, bus: &mut Bus) -> (r: u8)
    requires
        can_read(*old(cpu), *old(bus)),
    ensures
        tsb_zp_effect(*old(cpu), *old(bus), *final(cpu), *final(bus), r),
{
    let ea = cpu.addr_zp(bus);
    let val = cpu.bus_read(bus, ea);
    let ghost c1 = *cpu;
    let a = cpu.a;
    cpu.flags.set(Z, a & val == 0);
    let res = val | a;
    cpu.bus_write(bus, ea, res);
    assert(*cpu == rmw_op(RmwOp::Tsb, c1, val).0 && res == rmw_op(RmwOp::Tsb, c1, val).1);
    0
}

fn op_clc(cpu: &mut Cpu, bus: &mut Bus) -> (r: u8)
    requires
        can_read(*old(cpu), *old(bus)),
    ensures
        clc_effect(*old(cpu), *old(bus), *final(cpu), *final(bus), r),
{
    cpu.flags.set(C, false);
    0
}

fn op_sec(cpu: &mut Cpu, bus: &mut Bus) -> (r: u8)
    requires
        can_read(*old(cpu), *old(bus)),
    ensures
        sec_effect(*old(cpu), *old(bus), *final(cpu), *final(bus), r),
{
    cpu.flags.set(C, true);
    0
}

fn op_cli(cpu: &mut Cpu, bus: &mut Bus) -> (r: u8)
    requires
        can_read(*old(cpu), *old(bus)),
    ensures
        cli_effect(*old(cpu), *old(bus), *final(cpu), *final(bus), r),
{
    cpu.flags.set(I, false);
    0
}

fn op_sei(cpu: &mut Cpu, bus: &mut Bus) -> (r: u8)
    requires
        can_read(*old(cpu), *old(bus)),
    ensures
        sei_effect(*old(cpu), *old(bus), *final(cpu), *final(bus), r),
{
    cpu.flags.set(I, true);
    0
}

fn op_clv(cpu: &mut Cpu, bus: &mut Bus) -> (r: u8)
    requires
        can_read(*old(cpu), *old(bus)),
    ensures
        clv_effect(*old(cpu), *old(bus), *final(cpu), *final(bus), r),
{
    cpu.flags.set(V, false);
    0
}

fn op_cld(cpu: &mut Cpu, bus: &mut Bus) -> (r: u8)
    requires
        can_read(*old(cpu), *old(bus)),
    ensures
        cld_effect(*old(cpu), *old(bus), *final(cpu), *final(bus), r),
{
    cpu.flags.set(D, false);
    0
}

fn op_sed(cpu: &mut Cpu, bus: &mut Bus) -> (r: u8)
    requires
        can_read(*old(cpu), *old(bus)),
    ensures
        sed_effect(*old(cpu), *old(bus), *final(cpu), *final(bus), r),
{
    cpu.flags.set(D, true);
    0
}

fn op_tax(cpu: &mut Cpu, bus: &mut Bus) -> (r: u8)
    requires
        can_read(*old(cpu), *old(bus)),
    ensures
        tax_effect(*old(cpu), *old(bus), *final(cpu), *final(bus), r),
{
    let v = cpu.a;
    cpu.x = v;
    cpu.flags.set_nz(v);
    0
}

fn op_tay(cpu: &mut Cpu, bus: &mut Bus) -> (r: u8)
    requires
        can_read(*old(cpu), *old(bus)),
    ensures
        tay_effect(*old(cpu), *old(bus), *final(cpu), *final(bus), r),
{
    let v = cpu.a;
    cpu.y = v;
    cpu.flags.set_nz(v);
    0
}

fn op_txa(cpu: &mut Cpu, bus: &mut Bus) -> (r: u8)
    requires
        can_read(*old(cpu), *old(bus)),
    ensures
        txa_effect(*old(cpu), *old(bus), *final(cpu), *final(bus), r),
{
    let v = cpu.x;
    cpu.a = v;
    cpu.flags.set_nz(v);
    0
}

fn op_tya(cpu: &mut Cpu, bus: &mut Bus) -> (r: u8)
    requires
        can_read(*old(cpu), *old(bus)),
    ensures
        tya_effect(*old(cpu), *old(bus), *final(cpu), *final(bus), r),
{
    let v = cpu.y;
    cpu.a = v;
    cpu.flags.set_nz(v);
    0
}

fn op_tsx(cpu: &mut Cpu, bus: &mut Bus) -> (r: u8)
    requires
        can_read(*old(cpu), *old(bus)),
    ensures
        tsx_effect(*old(cpu), *old(bus), *final(cpu), *final(bus), r),
{
    let v = cpu.sp;
    cpu.x = v;
    cpu.flags.set_nz(v);
    0
}

fn op_txs(cpu: &mut Cpu, bus: &mut Bus) -> (r: u8)
    requires
        can_read(*old(cpu), *old(bus)),
    ensures
        txs_effect(*old(cpu), *old(bus), *final(cpu), *final(bus), r),
{
    let v = cpu.x;
    cpu.sp = v;
    0
}

fn op_inx(cpu: &mut Cpu, bus: &mut Bus) -> (r: u8)
    requires
        can_read(*old(cpu), *old(bus)),
    ensures
        inx_effect(*old(cpu), *old(bus), *final(cpu), *final(bus), r),
{
    let v = cpu.x.wrapping_add(1);
    cpu.x = v;
    cpu.flags.set_nz(v);
    0
}

fn op_iny(cpu: &mut Cpu, bus: &mut Bus) -> (r: u8)
    requires
        can_read(*old(cpu), *old(bus)),
    ensures
        iny_effect(*old(cpu), *old(bus), *final(cpu), *final(bus), r),
{
    let v = cpu.y.wrapping_add(1);
    cpu.y = v;
    cpu.flags.set_nz(v);
    0
}

fn op_dex(cpu: &mut Cpu, bus: &mut Bus) -> (r: u8)
    requires
        can_read(*old(cpu), *old(bus)),
    ensures
        dex_effect(*old(cpu), *old(bus), *final(cpu), *final(bus), r),
{
    let v = cpu.x.wrapping_sub(1);
    cpu.x = v;
    cpu.flags.set_nz(v);
    0
}

fn op_dey(cpu: &mut Cpu, bus: &mut Bus) -> (r: u8)
    requires
        can_read(*old(cpu), *old(bus)),
    ensures
        dey_effect(*old(cpu), *old(bus), *final(cpu), *final(bus), r),
{
    let v = cpu.y.wrapping_sub(1);
    cpu.y = v;
    cpu.flags.set_nz(v);
    0
}

fn op_inc_a(cpu: &mut Cpu, bus: &mut Bus) -> (r: u8)
    requires
        can_read(*old(cpu), *old(bus)),
    ensures
        inc_a_effect(*old(cpu), *old(bus), *final(cpu), *final(bus), r),
{
    let v = cpu.a.wrapping_add(1);
    cpu.a = v;
    cpu.flags.set_nz(v);
    0
}

fn op_dec_a(cpu: &mut Cpu, bus: &mut Bus) -> (r: u8)
    requires
        can_read(*old(cpu), *old(bus)),
    ensures
        dec_a_effect(*old(cpu), *old(bus), *final(cpu), *final(bus), r),
{
    let v = cpu.a.wrapping_sub(1);
    cpu.a = v;
    cpu.flags.set_nz(v);
    0
}

fn op_asl_a(cpu: &mut Cpu, bus: &mut Bus) -> (r: u8)
    requires
        can_read(*old(cpu), *old(bus)),
    ensures
        asl_a_effect(*old(cpu), *old(bus), *final(cpu), *final(bus), r),
{
    let a = cpu.a;
    let v = cpu.op_asl(a);
    cpu.a = v;
    0
}

fn op_lsr_a(cpu: &mut Cpu, bus: &mut Bus) -> (r: u8)
    requires
        can_read(*old(cpu), *old(bus)),
    ensures
        lsr_a_effect(*old(cpu), *old(bus), *final(cpu), *final(bus), r),
{
    let a = cpu.a;
    let v = cpu.op_lsr(a);
    cpu.a = v;
    0
}

fn op_rol_a(cpu: &mut Cpu, bus: &mut Bus) -> (r: u8)
    requires
        can_read(*old(cpu), *old(bus)),
    ensures
        rol_a_effect(*old(cpu), *old(bus), *final(cpu), *final(bus), r),
{
    let a = cpu.a;
    let v = cpu.op_rol(a);
    cpu.a = v;
    0
}

fn op_ror_a(cpu: &mut Cpu, bus: &mut Bus) -> (r: u8)
    requires
        can_read(*old(cpu), *old(bus)),
    ensures
        ror_a_effect(*old(cpu), *old(bus), *final(cpu), *final(bus), r),
{
    let a = cpu.a;
    let v = cpu.op_ror(a);
    cpu.a = v;
    0
}

fn op_nop(cpu: &mut Cpu, bus: &mut Bus) -> (r: u8)
    requires
        can_read(*old(cpu), *old(bus)),
    ensures
        nop_effect(*old(cpu), *old(bus), *final(cpu), *final(bus), r),
{
    0
}

fn op_jam(cpu: &mut Cpu, bus: &mut Bus) -> (r: u8)
    requires
        can_read(*old(cpu), *old(bus)),
    ensures
        jam_effect(*old(cpu), *old(bus), *final(cpu), *final(bus), r),
{
    cpu.jammed = true;
    cpu.pc = cpu.pc.wrapping_sub(1);
    0
}

fn op_wai(cpu: &mut Cpu, bus: &mut Bus) -> (r: u8)
    requires
        can_read(*old(cpu), *old(bus)),
    ensures
        wai_effect(*old(cpu), *old(bus), *final(cpu), *final(bus), r),
{
    cpu.waiting = true;
    0
}

fn op_stp(cpu: &mut Cpu, bus: &mut Bus) -> (r: u8)
    requires
        can_read(*old(cpu), *old(bus)),
    ensures
        stp_effect(*old(cpu), *old(bus), *final(cpu), *final(bus), r),
{
    cpu.jammed = true;
    0
}

fn op_pha(cpu: &mut Cpu, bus: &mut Bus) -> (r: u8)
    requires
        can_read(*old(cpu), *old(bus)),
    ensures
        pha_effect(*old(cpu), *old(bus), *final(cpu), *final(bus), r),
{
    let v = cpu.a;
    cpu.push(bus, v);
    0
}

fn op_phx(cpu: &mut Cpu, bus: &mut Bus) -> (r: u8)
    requires
        can_read(*old(cpu), *old(bus)),
    ensures
        phx_effect(*old(cpu), *old(bus), *final(cpu), *final(bus), r),
{
    let v = cpu.x;
    cpu.push(bus, v);
    0
}

fn op_phy(cpu: &mut Cpu, bus: &mut Bus) -> (r: u8)
    requires
        can_read(*old(cpu), *old(bus)),
    ensures
        phy_effect(*old(cpu), *old(bus), *final(cpu), *final(bus), r),
{
    let v = cpu.y;
    cpu.push(bus, v);
    0
}

fn op_php(cpu: &mut Cpu, bus: &mut Bus) -> (r: u8)
    requires
        can_read(*old(cpu), *old(bus)),
    ensures
        php_effect(*old(cpu), *old(bus), *final(cpu), *final(bus), r),
{
    let v = cpu.flags.bits | B | U;
    cpu.push(bus, v);
    0
}

fn op_pla(cpu: &mut Cpu, bus: &mut Bus) -> (r: u8)
    requires
        can_read(*old(cpu), *old(bus)),
    ensures
        pla_effect(*old(cpu), *old(bus), *final(cpu), *final(bus), r),
{
    let v = cpu.pop(bus);
    cpu.a = v;
    cpu.flags.set_nz(v);
    0
}

fn op_plx(cpu: &mut Cpu, bus: &mut Bus) -> (r: u8)
    requires
        can_read(*old(cpu), *old(bus)),
    ensures
        plx_effect(*old(cpu), *old(bus), *final(cpu), *final(bus), r),
{
    let v = cpu.pop(bus);
    cpu.x = v;
    cpu.flags.set_nz(v);
    0
}

fn op_ply(cpu: &mut Cpu, bus: &mut Bus) -> (r: u8)
    requires
        can_read(*old(cpu), *old(bus)),
    ensures
        ply_effect(*old(cpu), *old(bus), *final(cpu), *final(bus), r),
{
    let v = cpu.pop(bus);
    cpu.y = v;
    cpu.flags.set_nz(v);
    0
}

fn op_plp(cpu: &mut Cpu, bus: &mut Bus) -> (r: u8)
    requires
        can_read(*old(cpu), *old(bus)),
    ensures
        plp_effect(*old(cpu), *old(bus), *final(cpu), *final(bus), r),
{
    let v = cpu.pop(bus);
    cpu.flags = Flags { bits: v | U };
    0
}

fn op_bpl(cpu: &mut Cpu, bus: &mut Bus) -> (r: u8)
    requires
        can_read(*old(cpu), *old(bus)),
    ensures
        bpl_effect(*old(cpu), *old(bus), *final(cpu), *final(bus), r),
{
    let taken = cpu.flags.bits & N != N;
    cpu.branch_target(bus, taken)
}

fn op_bmi(cpu: &mut Cpu, bus: &mut Bus) -> (r: u8)
    requires
        can_read(*old(cpu), *old(bus)),
    ensures
        bmi_effect(*old(cpu), *old(bus), *final(cpu), *final(bus), r),
{
    let taken = cpu.flags.bits & N == N;
    cpu.branch_target(bus, taken)
}

fn op_bvc(cpu: &mut Cpu, bus: &mut Bus) -> (r: u8)
    requires
        can_read(*old(cpu), *old(bus)),
    ensures
        bvc_effect(*old(cpu), *old(bus), *final(cpu), *final(bus), r),
{
    let taken = cpu.flags.bits & V != V;
    cpu.branch_target(bus, taken)
}

fn op_bvs(cpu: &mut Cpu, bus: &mut Bus) -> (r: u8)
    requires
        can_read(*old(cpu), *old(bus)),
    ensures
        bvs_effect(*old(cpu), *old(bus), *final(cpu), *final(bus), r),
{
    let taken = cpu.flags.bits & V == V;
    cpu.branch_target(bus, taken)
}

fn op_bcc(cpu: &mut Cpu, bus: &mut Bus) -> (r: u8)
    requires
        can_read(*old(cpu), *old(bus)),
    ensures
        bcc_effect(*old(cpu), *old(bus), *final(cpu), *final(bus), r),
{
    let taken = cpu.flags.bits & C != C;
    cpu.branch_target(bus, taken)
}

fn op_bcs(cpu: &mut Cpu, bus: &mut Bus) -> (r: u8)
    requires
        can_read(*old(cpu), *old(bus)),
    ensures
        bcs_effect(*old(cpu), *old(bus), *final(cpu), *final(bus), r),
{
    let taken = cpu.flags.bits & C == C;
    cpu.branch_target(bus, taken)
}

fn op_bne(cpu: &mut Cpu, bus: &mut Bus) -> (r: u8)
    requires
        can_read(*old(cpu), *old(bus)),
    ensures
        bne_effect(*old(cpu), *old(bus), *final(cpu), *final(bus), r),
{
    let taken = cpu.flags.bits & Z != Z;
    cpu.branch_target(bus, taken)
}

fn op_beq(cpu: &mut Cpu, bus: &mut Bus) -> (r: u8)
    requires
        can_read(*old(cpu), *old(bus)),
    ensures
        beq_effect(*old(cpu), *old(bus), *final(cpu), *final(bus), r),
{
    let taken = cpu.flags.bits & Z == Z;
    cpu.branch_target(bus, taken)
}

fn op_bra(cpu: &mut Cpu, bus: &mut Bus) -> (r: u8)
    requires
        can_read(*old(cpu), *old(bus)),
    ensures
        bra_effect(*old(cpu), *old(bus), *final(cpu), *final(bus), r),
{
    let taken = true;
    cpu.branch_target(bus, taken)
}

fn op_jmp_abs(cpu: &mut Cpu, bus: &mut Bus) -> (r: u8)
    requires
        can_read(*old(cpu), *old(bus)),
    ensures
        jmp_abs_effect(*old(cpu), *old(bus), *final(cpu), *final(bus), r),
{
    let target = cpu.addr_abs(bus);
    cpu.pc = target;
    0
}

fn op_jmp_ind(cpu: &mut Cpu, bus: &mut Bus) -> (r: u8)
    requires
        can_read(*old(cpu), *old(bus)),
    ensures
        jmp_ind_effect(*old(cpu), *old(bus), *final(cpu), *final(bus), r),
{
    let ptr = cpu.addr_abs(bus);
    let lo = cpu.bus_read(bus, ptr) as u16;
    let hi_addr = if !cpu.is_65c02 && ptr % 256 == 0xFF { ptr - 0xFF } else { ptr.wrapping_add(1) };
    let hi = cpu.bus_read(bus, hi_addr) as u16;
    cpu.pc = hi * 256 + lo;
    0
}

fn op_jmp_ind_absx(cpu: &mut Cpu, bus: &mut Bus) -> (r: u8)
    requires
        can_read(*old(cpu), *old(bus)),
    ensures
        jmp_ind_absx_effect(*old(cpu), *old(bus), *final(cpu), *final(bus), r),
{
    let ghost c0 = *cpu;
    let ghost b0 = *bus;
    let base = cpu.addr_abs(bus);
    let ptr = base.wrapping_add(cpu.x as u16);
    assert(fetch_plain(Mode::Abs, c0, b0) ==> ptr == ea_of(Mode::Absx, c0, b0) && *bus == b0);
    let ghost b1 = *bus;
    let lo = cpu.bus_read(bus, ptr) as u16;
    let ghost b2 = *bus;
    assert(plain(b1, ptr) ==> b2 == b1 && lo == b1.peek(ptr));
    let ptr1 = ptr.wrapping_add(1);
    assert(ptr1 == pc_add(ptr, 1));
    let hi = cpu.bus_read(bus, ptr1) as u16;
    assert(plain(b2, ptr1) ==> *bus == b2 && hi == b2.peek(ptr1));
    cpu.pc = hi * 256 + lo;
    0
}

fn op_jsr(cpu: &mut Cpu, bus: &mut Bus) -> (r: u8)
    requires
        can_read(*old(cpu), *old(bus)),
    ensures
        jsr_effect(*old(cpu), *old(bus), *final(cpu), *final(bus), r),
{
    let target = cpu.addr_abs(bus);
    let ghost b0 = *bus;
    let ret = cpu.pc.wrapping_sub(1);
    assert(ret == pc_add(old(cpu).pc, 1));
    cpu.push(bus, (ret / 256) as u8);
    let ghost b1 = *bus;
    cpu.push(bus, (ret % 256) as u8);
    cpu.pc = target;
    assert(b1.stored(b0, stack_addr(old(cpu).sp as int), (ret / 256) as u8));
    0
}

fn op_rts(cpu: &mut Cpu, bus: &mut Bus) -> (r: u8)
    requires
        can_read(*old(cpu), *old(bus)),
    ensures
        rts_effect(*old(cpu), *old(bus), *final(cpu), *final(bus), r),
{
    let lo = cpu.pop(bus) as u16;
    let hi = cpu.pop(bus) as u16;
    cpu.pc = (hi * 256 + lo).wrapping_add(1);
    0
}

fn op_rti(cpu: &mut Cpu, bus: &mut Bus) -> (r: u8)
    requires
        can_read(*old(cpu), *old(bus)),
    ensures
        rti_effect(*old(cpu), *old(bus), *final(cpu), *final(bus), r),
{
    let p = cpu.pop(bus);
    cpu.flags = Flags { bits: p | U };
    let lo = cpu.pop(bus) as u16;
    let hi = cpu.pop(bus) as u16;
    cpu.pc = hi * 256 + lo;
    0
}

fn op_brk(cpu: &mut Cpu, bus: &mut Bus) -> (r: u8)
    requires
        can_read(*old(cpu), *old(bus)),
    ensures
        brk_effect(*old(cpu), *old(bus), *final(cpu), *final(bus), r),
{
    cpu.pc = cpu.pc.wrapping_add(1);
    let pc = cpu.pc;
    let ghost b0 = *bus;
    cpu.push(bus, (pc / 256) as u8);
    let ghost b1 = *bus;
    cpu.push(bus, (pc % 256) as u8);
    let ghost b2 = *bus;
    let p = cpu.flags.bits | B | U;
    cpu.push(bus, p);
    cpu.flags.insert(I);
    if cpu.is_65c02 {
        cpu.flags.remove(D);
    }
    let lo = bus.read_raw(0xFFFE) as u16;
    let hi = bus.read_raw(0xFFFF) as u16;
    cpu.pc = hi * 256 + lo;
    assert(b1.stored(b0, stack_addr(old(cpu).sp as int), (pc_add(old(cpu).pc, 1) / 256) as u8));
    assert(b2.stored(b1, stack_addr(old(cpu).sp + 255), (pc_add(old(cpu).pc, 1) % 256) as u8));
    0
}

/// Run opcode `op` on the NMOS 6502.
#[verifier::rlimit(100)]
#[verifier::spinoff_prover]
fn execute_6502(op: u8, cpu: &mut Cpu, bus: &mut Bus) -> (r: u8)
    requires
        can_read(*old(cpu), *old(bus)),
    ensures
        final(bus).wf(),
        steady(*old(cpu), *final(cpu)),
        r <= 2,
        effect_6502(op, *old(cpu), *old(bus), *final(cpu), *final(bus), r),
{
    proof {
        reveal(effect_6502);
    }
    match op {
        0x00 => op_brk(cpu, bus),
        0x01 => op_ora_indx(cpu, bus),
        0x02 => op_jam(cpu, bus),
        0x03 => op_slo_indx(cpu, bus),
        0x04 => op_nop_zp(cpu, bus),
        0x05 => op_ora_zp(cpu, bus),
        0x06 => op_asl_zp(cpu, bus),
        0x07 => op_slo_zp(cpu, bus),
        0x08 => op_php(cpu, bus),
        0x09 => op_ora_imm(cpu, bus),
        0x0A => op_asl_a(cpu, bus),
        0x0B => op_anc(cpu, bus),
        0x0C => op_nop_abs(cpu, bus),
        0x0D => op_ora_abs(cpu, bus),
        0x0E => op_asl_abs(cpu, bus),
        0x0F => op_slo_abs(cpu, bus),
        0x10 => op_bpl(cpu, bus),
        0x11 => op_ora_indy(cpu, bus),
        0x12 => op_jam(cpu, bus),
        0x13 => op_slo_indy(cpu, bus),
        0x14 => op_nop_zpx(cpu, bus),
        0x15 => op_ora_zpx(cpu, bus),
        0x16 => op_asl_zpx(cpu, bus),
        0x17 => op_slo_zpx(cpu, bus),
        0x18 => op_clc(cpu, bus),
        0x19 => op_ora_absy(cpu, bus),
        0x1A => op_nop(cpu, bus),
        0x1B => op_slo_absy(cpu, bus),
        0x1C => op_nop_absx(cpu, bus),
        0x1D => op_ora_absx(cpu, bus),
        0x1E => op_asl_absx(cpu, bus),
        0x1F => op_slo_absx(cpu, bus),
        0x20 => op_jsr(cpu, bus),
        0x21 => op_and_indx(cpu, bus),
        0x22 => op_jam(cpu, bus),
        0x23 => op_rla_indx(cpu, bus),
        0x24 => op_bit_zp(cpu, bus),
        0x25 => op_and_zp(cpu, bus),
        0x26 => op_rol_zp(cpu, bus),
        0x27 => op_rla_zp(cpu, bus),
        0x28 => op_plp(cpu, bus),
        0x29 => op_and_imm(cpu, bus),
        0x2A => op_rol_a(cpu, bus),
        0x2B => op_anc(cpu, bus),
        0x2C => op_bit_abs(cpu, bus),
        0x2D => op_and_abs(cpu, bus),
        0x2E => op_rol_abs(cpu, bus),
        0x2F => op_rla_abs(cpu, bus),
        0x30 => op_bmi(cpu, bus),
        0x31 => op_and_indy(cpu, bus),
        0x32 => op_jam(cpu, bus),
        0x33 => op_rla_indy(cpu, bus),
        0x34 => op_nop_zpx(cpu, bus),
        0x35 => op_and_zpx(cpu, bus),
        0x36 => op_rol_zpx(cpu, bus),
        0x37 => op_rla_zpx(cpu, bus),
        0x38 => op_sec(cpu, bus),
        0x39 => op_and_absy(cpu, bus),
        0x3A => op_nop(cpu, bus),
        0x3B => op_rla_absy(cpu, bus),
        0x3C => op_nop_absx(cpu, bus),
        0x3D => op_and_absx(cpu, bus),
        0x3E => op_rol_absx(cpu, bus),
        0x3F => op_rla_absx(cpu, bus),
        0x40 => op_rti(cpu, bus),
        0x41 => op_eor_indx(cpu, bus),
        0x42 => op_jam(cpu, bus),
        0x43 => op_sre_indx(cpu, bus),
        0x44 => op_nop_zp(cpu, bus),
        0x45 => op_eor_zp(cpu, bus),
        0x46 => op_lsr_zp(cpu, bus),
        0x47 => op_sre_zp(cpu, bus),
        0x48 => op_pha(cpu, bus),
        0x49 => op_eor_imm(cpu, bus),
        0x4A => op_lsr_a(cpu, bus),
        0x4B => op_alr(cpu, bus),
        0x4C => op_jmp_abs(cpu, bus),
        0x4D => op_eor_abs(cpu, bus),
        0x4E => op_lsr_abs(cpu, bus),
        0x4F => op_sre_abs(cpu, bus),
        0x50 => op_bvc(cpu, bus),
        0x51 => op_eor_indy(cpu, bus),
        0x52 => op_jam(cpu, bus),
        0x53 => op_sre_indy(cpu, bus),
        0x54 => op_nop_zpx(cpu, bus),
        0x55 => op_eor_zpx(cpu, bus),
        0x56 => op_lsr_zpx(cpu, bus),
        0x57 => op_sre_zpx(cpu, bus),
        0x58 => op_cli(cpu, bus),
        0x59 => op_eor_absy(cpu, bus),
        0x5A => op_nop(cpu, bus),
        0x5B => op_sre_absy(cpu, bus),
        0x5C => op_nop_absx(cpu, bus),
        0x5D => op_eor_absx(cpu, bus),
        0x5E => op_lsr_absx(cpu, bus),
        0x5F => op_sre_absx(cpu, bus),
        0x60 => op_rts(cpu, bus),
        0x61 => op_adc_indx(cpu, bus),
        0x62 => op_jam(cpu, bus),
        0x63 => op_rra_indx(cpu, bus),
        0x64 => op_nop_zp(cpu, bus),
        0x65 => op_adc_zp(cpu, bus),
        0x66 => op_ror_zp(cpu, bus),
        0x67 => op_rra_zp(cpu, bus),
        0x68 => op_pla(cpu, bus),
        0x69 => op_adc_imm(cpu, bus),
        0x6A => op_ror_a(cpu, bus),
        0x6B => op_arr(cpu, bus),
        0x6C => op_jmp_ind(cpu, bus),
        0x6D => op_adc_abs(cpu, bus),
        0x6E => op_ror_abs(cpu, bus),
        0x6F => op_rra_abs(cpu, bus),
        0x70 => op_bvs(cpu, bus),
        0x71 => op_adc_indy(cpu, bus),
        0x72 => op_jam(cpu, bus),
        0x73 => op_rra_indy(cpu, bus),
        0x74 => op_nop_zpx(cpu, bus),
        0x75 => op_adc_zpx(cpu, bus),
        0x76 => op_ror_zpx(cpu, bus),
        0x77 => op_rra_zpx(cpu, bus),
        0x78 => op_sei(cpu, bus),
        0x79 => op_adc_absy(cpu, bus),
        0x7A => op_nop(cpu, bus),
        0x7B => op_rra_absy(cpu, bus),
        0x7C => op_nop_absx(cpu, bus),
        0x7D => op_adc_absx(cpu, bus),
        0x7E => op_ror_absx(cpu, bus),
        0x7F => op_rra_absx(cpu, bus),
        0x80 => op_nop_imm(cpu, bus),
        0x81 => op_sta_indx(cpu, bus),
        0x82 => op_nop_imm(cpu, bus),
        0x83 => op_sax_indx(cpu, bus),
        0x84 => op_sty_zp(cpu, bus),
        0x85 => op_sta_zp(cpu, bus),
        0x86 => op_stx_zp(cpu, bus),
        0x87 => op_sax_zp(cpu, bus),
        0x88 => op_dey(cpu, bus),
        0x89 => op_nop_imm(cpu, bus),
        0x8A => op_txa(cpu, bus),
        0x8B => op_nop(cpu, bus),
        0x8C => op_sty_abs(cpu, bus),
        0x8D => op_sta_abs(cpu, bus),
        0x8E => op_stx_abs(cpu, bus),
        0x8F => op_sax_abs(cpu, bus),
        0x90 => op_bcc(cpu, bus),
        0x91 => op_sta_indy(cpu, bus),
        0x92 => op_jam(cpu, bus),
        0x93 => op_nop(cpu, bus),
        0x94 => op_sty_zpx(cpu, bus),
        0x95 => op_sta_zpx(cpu, bus),
        0x96 => op_stx_zpy(cpu, bus),
        0x97 => op_sax_zpy(cpu, bus),
        0x98 => op_tya(cpu, bus),
        0x99 => op_sta_absy(cpu, bus),
        0x9A => op_txs(cpu, bus),
        0x9B => op_nop(cpu, bus),
        0x9C => op_nop(cpu, bus),
        0x9D => op_sta_absx(cpu, bus),
        0x9E => op_nop(cpu, bus),
        0x9F => op_nop(cpu, bus),
        0xA0 => op_ldy_imm(cpu, bus),
        0xA1 => op_lda_indx(cpu, bus),
        0xA2 => op_ldx_imm(cpu, bus),
        0xA3 => op_lax_indx(cpu, bus),
        0xA4 => op_ldy_zp(cpu, bus),
        0xA5 => op_lda_zp(cpu, bus),
        0xA6 => op_ldx_zp(cpu, bus),
        0xA7 => op_lax_zp(cpu, bus),
        0xA8 => op_tay(cpu, bus),
        0xA9 => op_lda_imm(cpu, bus),
        0xAA => op_tax(cpu, bus),
        0xAB => op_lax_imm(cpu, bus),
        0xAC => op_ldy_abs(cpu, bus),
        0xAD => op_lda_abs(cpu, bus),
        0xAE => op_ldx_abs(cpu, bus),
        0xAF => op_lax_abs(cpu, bus),
        0xB0 => op_bcs(cpu, bus),
        0xB1 => op_lda_indy(cpu, bus),
        0xB2 => op_jam(cpu, bus),
        0xB3 => op_lax_indy(cpu, bus),
        0xB4 => op_ldy_zpx(cpu, bus),
        0xB5 => op_lda_zpx(cpu, bus),
        0xB6 => op_ldx_zpy(cpu, bus),
        0xB7 => op_lax_zpy(cpu, bus),
        0xB8 => op_clv(cpu, bus),
        0xB9 => op_lda_absy(cpu, bus),
        0xBA => op_tsx(cpu, bus),
        0xBB => op_las(cpu, bus),
        0xBC => op_ldy_absx(cpu, bus),
        0xBD => op_lda_absx(cpu, bus),
        0xBE => op_ldx_absy(cpu, bus),
        0xBF => op_lax_absy(cpu, bus),
        0xC0 => op_cpy_imm(cpu, bus),
        0xC1 => op_cmp_indx(cpu, bus),
        0xC2 => op_nop_imm(cpu, bus),
        0xC3 => op_dcp_indx(cpu, bus),
        0xC4 => op_cpy_zp(cpu, bus),
        0xC5 => op_cmp_zp(cpu, bus),
        0xC6 => op_dec_zp(cpu, bus),
        0xC7 => op_dcp_zp(cpu, bus),
        0xC8 => op_iny(cpu, bus),
        0xC9 => op_cmp_imm(cpu, bus),
        0xCA => op_dex(cpu, bus),
        0xCB => op_sbx(cpu, bus),
        0xCC => op_cpy_abs(cpu, bus),
        0xCD => op_cmp_abs(cpu, bus),
        0xCE => op_dec_abs(cpu, bus),
        0xCF => op_dcp_abs(cpu, bus),
        0xD0 => op_bne(cpu, bus),
        0xD1 => op_cmp_indy(cpu, bus),
        0xD2 => op_jam(cpu, bus),
        0xD3 => op_dcp_indy(cpu, bus),
        0xD4 => op_nop_zpx(cpu, bus),
        0xD5 => op_cmp_zpx(cpu, bus),
        0xD6 => op_dec_zpx(cpu, bus),
        0xD7 => op_dcp_zpx(cpu, bus),
        0xD8 => op_cld(cpu, bus),
        0xD9 => op_cmp_absy(cpu, bus),
        0xDA => op_nop(cpu, bus),
        0xDB => op_dcp_absy(cpu, bus),
        0xDC => op_nop_absx(cpu, bus),
        0xDD => op_cmp_absx(cpu, bus),
        0xDE => op_dec_absx(cpu, bus),
        0xDF => op_dcp_absx(cpu, bus),
        0xE0 => op_cpx_imm(cpu, bus),
        0xE1 => op_sbc_indx(cpu, bus),
        0xE2 => op_nop_imm(cpu, bus),
        0xE3 => op_isc_indx(cpu, bus),
        0xE4 => op_cpx_zp(cpu, bus),
        0xE5 => op_sbc_zp(cpu, bus),
        0xE6 => op_inc_zp(cpu, bus),
        0xE7 => op_isc_zp(cpu, bus),
        0xE8 => op_inx(cpu, bus),
        0xE9 => op_sbc_imm(cpu, bus),
        0xEA => op_nop(cpu, bus),
        0xEB => op_sbc_imm_eb(cpu, bus),
        0xEC => op_cpx_abs(cpu, bus),
        0xED => op_sbc_abs(cpu, bus),
        0xEE => op_inc_abs(cpu, bus),
        0xEF => op_isc_abs(cpu, bus),
        0xF0 => op_beq(cpu, bus),
        0xF1 => op_sbc_indy(cpu, bus),
        0xF2 => op_jam(cpu, bus),
        0xF3 => op_isc_indy(cpu, bus),
        0xF4 => op_nop_zpx(cpu, bus),
        0xF5 => op_sbc_zpx(cpu, bus),
        0xF6 => op_inc_zpx(cpu, bus),
        0xF7 => op_isc_zpx(cpu, bus),
        0xF8 => op_sed(cpu, bus),
        0xF9 => op_sbc_absy(cpu, bus),
        0xFA => op_nop(cpu, bus),
        0xFB => op_isc_absy(cpu, bus),
        0xFC => op_nop_absx(cpu, bus),
        0xFD => op_sbc_absx(cpu, bus),
        0xFE => op_inc_absx(cpu, bus),
        _ => op_isc_absx(cpu, bus),
    }
}

/// Run opcode `op` on the CMOS 65C02.
#[verifier::rlimit(100)]
#[verifier::spinoff_prover]
fn execute_65c02(op: u8, cpu: &mut Cpu, bus: &mut Bus) -> (r: u8)
    requires
        can_read(*old(cpu), *old(bus)),
    ensures
        final(bus).wf(),
        steady(*old(cpu), *final(cpu)),
        r <= 2,
        effect_65c02(op, *old(cpu), *old(bus), *final(cpu), *final(bus), r),
{
    proof {
        reveal(effect_65c02);
    }
    match op {
        0x00 => op_brk(cpu, bus),
        0x01 => op_ora_indx(cpu, bus),
        0x02 => op_nop(cpu, bus),
        0x03 => op_nop(cpu, bus),
        0x04 => op_tsb_zp(cpu, bus),
        0x05 => op_ora_zp(cpu, bus),
        0x06 => op_asl_zp(cpu, bus),
        0x07 => op_nop(cpu, bus),
        0x08 => op_php(cpu, bus),
        0x09 => op_ora_imm(cpu, bus),
        0x0A => op_asl_a(cpu, bus),
        0x0B => op_nop(cpu, bus),
        0x0C => op_tsb_abs(cpu, bus),
        0x0D => op_ora_abs(cpu, bus),
        0x0E => op_asl_abs(cpu, bus),
        0x0F => op_nop(cpu, bus),
        0x10 => op_bpl(cpu, bus),
        0x11 => op_ora_indy(cpu, bus),
        0x12 => op_ora_ind_zp(cpu, bus),
        0x13 => op_nop(cpu, bus),
        0x14 => op_trb_zp(cpu, bus),
        0x15 => op_ora_zpx(cpu, bus),
        0x16 => op_asl_zpx(cpu, bus),
        0x17 => op_nop(cpu, bus),
        0x18 => op_clc(cpu, bus),
        0x19 => op_ora_absy(cpu, bus),
        0x1A => op_inc_a(cpu, bus),
        0x1B => op_nop(cpu, bus),
        0x1C => op_trb_abs(cpu, bus),
        0x1D => op_ora_absx(cpu, bus),
        0x1E => op_asl_absx(cpu, bus),
        0x1F => op_nop(cpu, bus),
        0x20 => op_jsr(cpu, bus),
        0x21 => op_and_indx(cpu, bus),
        0x22 => op_nop(cpu, bus),
        0x23 => op_nop(cpu, bus),
        0x24 => op_bit_zp(cpu, bus),
        0x25 => op_and_zp(cpu, bus),
        0x26 => op_rol_zp(cpu, bus),
        0x27 => op_nop(cpu, bus),
        0x28 => op_plp(cpu, bus),
        0x29 => op_and_imm(cpu, bus),
        0x2A => op_rol_a(cpu, bus),
        0x2B => op_nop(cpu, bus),
        0x2C => op_bit_abs(cpu, bus),
        0x2D => op_and_abs(cpu, bus),
        0x2E => op_rol_abs(cpu, bus),
        0x2F => op_nop(cpu, bus),
        0x30 => op_bmi(cpu, bus),
        0x31 => op_and_indy(cpu, bus),
        0x32 => op_and_ind_zp(cpu, bus),
        0x33 => op_nop(cpu, bus),
        0x34 => op_bit_zpx(cpu, bus),
        0x35 => op_and_zpx(cpu, bus),
        0x36 => op_rol_zpx(cpu, bus),
        0x37 => op_nop(cpu, bus),
        0x38 => op_sec(cpu, bus),
        0x39 => op_and_absy(cpu, bus),
        0x3A => op_dec_a(cpu, bus),
        0x3B => op_nop(cpu, bus),
        0x3C => op_bit_absx(cpu, bus),
        0x3D => op_and_absx(cpu, bus),
        0x3E => op_rol_absx(cpu, bus),
        0x3F => op_nop(cpu, bus),
        0x40 => op_rti(cpu, bus),
        0x41 => op_eor_indx(cpu, bus),
        0x42 => op_nop(cpu, bus),
        0x43 => op_nop(cpu, bus),
        0x44 => op_nop(cpu, bus),
        0x45 => op_eor_zp(cpu, bus),
        0x46 => op_lsr_zp(cpu, bus),
        0x47 => op_nop(cpu, bus),
        0x48 => op_pha(cpu, bus),
        0x49 => op_eor_imm(cpu, bus),
        0x4A => op_lsr_a(cpu, bus),
        0x4B => op_nop(cpu, bus),
        0x4C => op_jmp_abs(cpu, bus),
        0x4D => op_eor_abs(cpu, bus),
        0x4E => op_lsr_abs(cpu, bus),
        0x4F => op_nop(cpu, bus),
        0x50 => op_bvc(cpu, bus),
        0x51 => op_eor_indy(cpu, bus),
        0x52 => op_eor_ind_zp(cpu, bus),
        0x53 => op_nop(cpu, bus),
        0x54 => op_nop(cpu, bus),
        0x55 => op_eor_zpx(cpu, bus),
        0x56 => op_lsr_zpx(cpu, bus),
        0x57 => op_nop(cpu, bus),
        0x58 => op_cli(cpu, bus),
        0x59 => op_eor_absy(cpu, bus),
        0x5A => op_phy(cpu, bus),
        0x5B => op_nop(cpu, bus),
        0x5C => op_nop(cpu, bus),
        0x5D => op_eor_absx(cpu, bus),
        0x5E => op_lsr_absx(cpu, bus),
        0x5F => op_nop(cpu, bus),
        0x60 => op_rts(cpu, bus),
        0x61 => op_adc_indx(cpu, bus),
        0x62 => op_nop(cpu, bus),
        0x63 => op_nop(cpu, bus),
        0x64 => op_stz_zp(cpu, bus),
        0x65 => op_adc_zp(cpu, bus),
        0x66 => op_ror_zp(cpu, bus),
        0x67 => op_nop(cpu, bus),
        0x68 => op_pla(cpu, bus),
        0x69 => op_adc_imm(cpu, bus),
        0x6A => op_ror_a(cpu, bus),
        0x6B => op_nop(cpu, bus),
        0x6C => op_jmp_ind(cpu, bus),
        0x6D => op_adc_abs(cpu, bus),
        0x6E => op_ror_abs(cpu, bus),
        0x6F => op_nop(cpu, bus),
        0x70 => op_bvs(cpu, bus),
        0x71 => op_adc_indy(cpu, bus),
        0x72 => op_adc_ind_zp(cpu, bus),
        0x73 => op_nop(cpu, bus),
        0x74 => op_stz_zpx(cpu, bus),
        0x75 => op_adc_zpx(cpu, bus),
        0x76 => op_ror_zpx(cpu, bus),
        0x77 => op_nop(cpu, bus),
        0x78 => op_sei(cpu, bus),
        0x79 => op_adc_absy(cpu, bus),
        0x7A => op_ply(cpu, bus),
        0x7B => op_nop(cpu, bus),
        0x7C => op_jmp_ind_absx(cpu, bus),
        0x7D => op_adc_absx(cpu, bus),
        0x7E => op_ror_absx(cpu, bus),
        0x7F => op_nop(cpu, bus),
        0x80 => op_bra(cpu, bus),
        0x81 => op_sta_indx(cpu, bus),
        0x82 => op_nop(cpu, bus),
        0x83 => op_nop(cpu, bus),
        0x84 => op_sty_zp(cpu, bus),
        0x85 => op_sta_zp(cpu, bus),
        0x86 => op_stx_zp(cpu, bus),
        0x87 => op_nop(cpu, bus),
        0x88 => op_dey(cpu, bus),
        0x89 => op_bit_imm(cpu, bus),
        0x8A => op_txa(cpu, bus),
        0x8B => op_nop(cpu, bus),
        0x8C => op_sty_abs(cpu, bus),
        0x8D => op_sta_abs(cpu, bus),
        0x8E => op_stx_abs(cpu, bus),
        0x8F => op_nop(cpu, bus),
        0x90 => op_bcc(cpu, bus),
        0x91 => op_sta_indy(cpu, bus),
        0x92 => op_sta_ind_zp(cpu, bus),
        0x93 => op_nop(cpu, bus),
        0x94 => op_sty_zpx(cpu, bus),
        0x95 => op_sta_zpx(cpu, bus),
        0x96 => op_stx_zpy(cpu, bus),
        0x97 => op_nop(cpu, bus),
        0x98 => op_tya(cpu, bus),
        0x99 => op_sta_absy(cpu, bus),
        0x9A => op_txs(cpu, bus),
        0x9B => op_nop(cpu, bus),
        0x9C => op_stz_abs(cpu, bus),
        0x9D => op_sta_absx(cpu, bus),
        0x9E => op_stz_absx(cpu, bus),
        0x9F => op_nop(cpu, bus),
        0xA0 => op_ldy_imm(cpu, bus),
        0xA1 => op_lda_indx(cpu, bus),
        0xA2 => op_ldx_imm(cpu, bus),
        0xA3 => op_nop(cpu, bus),
        0xA4 => op_ldy_zp(cpu, bus),
        0xA5 => op_lda_zp(cpu, bus),
        0xA6 => op_ldx_zp(cpu, bus),
        0xA7 => op_nop(cpu, bus),
        0xA8 => op_tay(cpu, bus),
        0xA9 => op_lda_imm(cpu, bus),
        0xAA => op_tax(cpu, bus),
        0xAB => op_nop(cpu, bus),
        0xAC => op_ldy_abs(cpu, bus),
        0xAD => op_lda_abs(cpu, bus),
        0xAE => op_ldx_abs(cpu, bus),
        0xAF => op_nop(cpu, bus),
        0xB0 => op_bcs(cpu, bus),
        0xB1 => op_lda_indy(cpu, bus),
        0xB2 => op_lda_ind_zp(cpu, bus),
        0xB3 => op_nop(cpu, bus),
        0xB4 => op_ldy_zpx(cpu, bus),
        0xB5 => op_lda_zpx(cpu, bus),
        0xB6 => op_ldx_zpy(cpu, bus),
        0xB7 => op_nop(cpu, bus),
        0xB8 => op_clv(cpu, bus),
        0xB9 => op_lda_absy(cpu, bus),
        0xBA => op_tsx(cpu, bus),
        0xBB => op_nop(cpu, bus),
        0xBC => op_ldy_absx(cpu, bus),
        0xBD => op_lda_absx(cpu, bus),
        0xBE => op_ldx_absy(cpu, bus),
        0xBF => op_nop(cpu, bus),
        0xC0 => op_cpy_imm(cpu, bus),
        0xC1 => op_cmp_indx(cpu, bus),
        0xC2 => op_nop(cpu, bus),
        0xC3 => op_nop(cpu, bus),
        0xC4 => op_cpy_zp(cpu, bus),
        0xC5 => op_cmp_zp(cpu, bus),
        0xC6 => op_dec_zp(cpu, bus),
        0xC7 => op_nop(cpu, bus),
        0xC8 => op_iny(cpu, bus),
        0xC9 => op_cmp_imm(cpu, bus),
        0xCA => op_dex(cpu, bus),
        0xCB => op_wai(cpu, bus),
        0xCC => op_cpy_abs(cpu, bus),
        0xCD => op_cmp_abs(cpu, bus),
        0xCE => op_dec_abs(cpu, bus),
        0xCF => op_nop(cpu, bus),
        0xD0 => op_bne(cpu, bus),
        0xD1 => op_cmp_indy(cpu, bus),
        0xD2 => op_cmp_ind_zp(cpu, bus),
        0xD3 => op_nop(cpu, bus),
        0xD4 => op_nop(cpu, bus),
        0xD5 => op_cmp_zpx(cpu, bus),
        0xD6 => op_dec_zpx(cpu, bus),
        0xD7 => op_nop(cpu, bus),
        0xD8 => op_cld(cpu, bus),
        0xD9 => op_cmp_absy(cpu, bus),
        0xDA => op_phx(cpu, bus),
        0xDB => op_stp(cpu, bus),
        0xDC => op_nop(cpu, bus),
        0xDD => op_cmp_absx(cpu, bus),
        0xDE => op_dec_absx(cpu, bus),
        0xDF => op_nop(cpu, bus),
        0xE0 => op_cpx_imm(cpu, bus),
        0xE1 => op_sbc_indx(cpu, bus),
        0xE2 => op_nop(cpu, bus),
        0xE3 => op_nop(cpu, bus),
        0xE4 => op_cpx_zp(cpu, bus),
        0xE5 => op_sbc_zp(cpu, bus),
        0xE6 => op_inc_zp(cpu, bus),
        0xE7 => op_nop(cpu, bus),
        0xE8 => op_inx(cpu, bus),
        0xE9 => op_sbc_imm(cpu, bus),
        0xEA => op_nop(cpu, bus),
        0xEB => op_nop(cpu, bus),
        0xEC => op_cpx_abs(cpu, bus),
        0xED => op_sbc_abs(cpu, bus),
        0xEE => op_inc_abs(cpu, bus),
        0xEF => op_nop(cpu, bus),
        0xF0 => op_beq(cpu, bus),
        0xF1 => op_sbc_indy(cpu, bus),
        0xF2 => op_sbc_ind_zp(cpu, bus),
        0xF3 => op_nop(cpu, bus),
        0xF4 => op_nop(cpu, bus),
        0xF5 => op_sbc_zpx(cpu, bus),
        0xF6 => op_inc_zpx(cpu, bus),
        0xF7 => op_nop(cpu, bus),
        0xF8 => op_sed(cpu, bus),
        0xF9 => op_sbc_absy(cpu, bus),
        0xFA => op_plx(cpu, bus),
        0xFB => op_nop(cpu, bus),
        0xFC => op_nop(cpu, bus),
        0xFD => op_sbc_absx(cpu, bus),
        0xFE => op_inc_absx(cpu, bus),
        _ => op_nop(cpu, bus),
    }
}

/// Opcode `op`, fetched, from `c0`/`b0` to `c1`/`b1` in `r` cycles: its base
/// cycles and the extra ones it takes, on the CPU `c0` is.
pub open spec fn opcode_step(op: u8, c0: Cpu, b0: Bus, c1: Cpu, b1: Bus, r: u8) -> bool {
    let extra = (r - base_cycles(op)) as u8;
    let c1_uncounted = Cpu { cycles: c0.cycles, ..c1 };
    &&& base_cycles(op) <= r
    &&& c1.cycles == c0.cycles + r
    &&& if c0.is_65c02 {
        effect_65c02(op, c0, b0, c1_uncounted, b1, extra)
    } else {
        effect_6502(op, c0, b0, c1_uncounted, b1, extra)
    }
}

/// What `step` does, from CPU `c0` and bus `b0` to `c1` and `b1`, taking `r`
/// cycles.
pub open spec fn step_post(c0: Cpu, b0: Bus, c1: Cpu, b1: Bus, r: u8) -> bool {
    &&& b1.wf()
    &&& c1.cycles == c0.cycles + r
    &&& c1.is_65c02 == c0.is_65c02
    &&& 2 <= r <= 10
    &&& c0.nmi_pending != 0 ==> r == 7 && c1.nmi_pending == 0 && c1.flags.bits
        == c0.flags.bits | I && c1.sp == (c0.sp + 253) % 256 && c1.pc == word(
        b1.peek(0xFFFA),
        b1.peek(0xFFFB),
    )
    &&& c0.nmi_pending == 0 && c0.irq_pending != 0 && c0.flags.bits & I != I ==> r == 7
        && c1.flags.bits == c0.flags.bits | I && c1.sp == (c0.sp + 253) % 256
        && c1.pc == word(b1.peek(0xFFFE), b1.peek(0xFFFF))
    &&& c0.nmi_pending == 0 && !(c0.irq_pending != 0 && c0.flags.bits & I != I) ==> r <= 10
        && c1.irq_pending == c0.irq_pending && c1.nmi_pending == 0 && (plain(
        b0,
        c0.pc,
    ) ==> base_cycles(b0.peek(c0.pc)) <= r <= base_cycles(b0.peek(c0.pc)) + 2)
    &&& c0.nmi_pending == 0 && !(c0.irq_pending != 0 && c0.flags.bits & I != I) ==> exists|op: u8, bm: Bus|
        #[trigger] read_post(b0, bm, c0.pc, c0.cycles, op) && opcode_step(
            op,
            Cpu { pc: pc_add(c0.pc, 1), ..c0 },
            bm,
            c1,
            b1,
            r,
        )
}

/// Execute one instruction, or enter a pending interrupt: an NMI first,
/// then an IRQ unless I is set (7 cycles each). Otherwise fetch the opcode
/// at PC and run it on the 6502 or the 65C02. Returns the cycles taken,
/// which are added to the counter.
pub fn step(cpu: &mut Cpu, bus: &mut Bus) -> (r: u8)
    requires
        can_read(*old(cpu), *old(bus)),
    ensures
        step_post(*old(cpu), *old(bus), *final(cpu), *final(bus), r),
{
    if cpu.nmi_pending != 0 {
        cpu.nmi_pending = 0;
        cpu.service_interrupt(bus, true);
        cpu.cycles = cpu.cycles + 7;
        return 7;
    }
    if cpu.irq_pending != 0 && !cpu.flags.contains(I) {
        cpu.service_interrupt(bus, false);
        cpu.cycles = cpu.cycles + 7;
        return 7;
    }
    let ghost b0 = *bus;
    let opcode = cpu.bus_read(bus, cpu.pc);
    cpu.pc = cpu.pc.wrapping_add(1);
    let ghost c1 = *cpu;
    let ghost b1 = *bus;
    let base = base_cycles_of(opcode);
    let extra = if cpu.is_65c02 {
        execute_65c02(opcode, cpu, bus)
    } else {
        execute_6502(opcode, cpu, bus)
    };
    let total = base + extra;
    let ghost c2 = *cpu;
    cpu.cycles = cpu.cycles + total as u64;
    assert(Cpu { cycles: c1.cycles, ..*cpu } == c2);
    assert(opcode_step(opcode, c1, b1, *cpu, *bus, total));
    total
}

} // verus!
