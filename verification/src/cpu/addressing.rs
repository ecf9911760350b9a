//! The 6502 addressing modes, the stack, relative branches, reset and
//! interrupt entry: how an instruction finds its operand on the bus.

use vstd::prelude::*;
use crate::bus::machine::{Bus, PADDLE_CYCLES_MAX};
use crate::bus::soft_switches::read_post;
use crate::bus::{PageDst, PageSrc};
use super::cpu6502::{cpu_power_on, Cpu};
use super::flags::{Flags, B, I, U};

verus! {

/// The ways an instruction names its operand.
#[derive(Debug, Clone, Copy, PartialEq, Eq, Structural)]
pub enum Mode {
    /// The byte after the opcode.
    Imm,
    /// A zero-page address.
    Zp,
    /// A zero-page address plus X, within page zero.
    Zpx,
    /// A zero-page address plus Y, within page zero.
    Zpy,
    /// A 16-bit address.
    Abs,
    /// A 16-bit address plus X.
    Absx,
    /// A 16-bit address plus Y.
    Absy,
    /// The word at a zero-page address plus X.
    Indx,
    /// The word at a zero-page address, plus Y.
    Indy,
    /// The word at a zero-page address (65C02).
    IndZp,
}

/// `pc + n` wrapped to 16 bits.
pub open spec fn pc_add(pc: u16, n: int) -> u16 {
    ((pc + n) % 65536) as u16
}

/// The little-endian word of `lo` and `hi`.
pub open spec fn word(lo: u8, hi: u8) -> u16 {
    (hi * 256 + lo) as u16
}

/// Reads of `addr` reach memory, not I/O.
pub open spec fn plain(b: Bus, addr: u16) -> bool {
    !(b.pages_r@[(addr / 256) as int] is Io)
}

/// Writes to `addr` reach no I/O: $C000-$CFFF are the I/O and card ROM
/// pages.
pub open spec fn plain_w(addr: u16) -> bool {
    !(0xC0 <= addr / 256 <= 0xCF)
}

/// Bytes of operand after the opcode.
pub open spec fn operand_len(m: Mode) -> int {
    match m {
        Mode::Abs | Mode::Absx | Mode::Absy => 2,
        _ => 1,
    }
}

/// The operand fetch reads memory only.
pub open spec fn fetch_plain(m: Mode, c: Cpu, b: Bus) -> bool {
    plain(b, c.pc) && (operand_len(m) == 2 ==> plain(b, pc_add(c.pc, 1)))
}

/// The word at zero-page address `zp` (the high byte wraps within page
/// zero).
pub open spec fn zp_word(b: Bus, zp: int) -> u16 {
    word(b.peek(zp as u16), b.peek(((zp + 1) % 256) as u16))
}

/// The address before indexing, for the indexed modes.
pub open spec fn base_of(m: Mode, c: Cpu, b: Bus) -> u16 {
    match m {
        Mode::Indy => zp_word(b, b.peek(c.pc) as int),
        _ => word(b.peek(c.pc), b.peek(pc_add(c.pc, 1))),
    }
}

/// The effective address of the operand (for `Imm`, the address of the
/// byte after the opcode), with memory read as it stands.
pub open spec fn ea_of(m: Mode, c: Cpu, b: Bus) -> u16 {
    let op = b.peek(c.pc);
    match m {
        Mode::Imm => c.pc,
        Mode::Zp => op as u16,
        Mode::Zpx => ((op + c.x) % 256) as u16,
        Mode::Zpy => ((op + c.y) % 256) as u16,
        Mode::Abs => base_of(m, c, b),
        Mode::Absx => ((base_of(m, c, b) + c.x) % 65536) as u16,
        Mode::Absy => ((base_of(m, c, b) + c.y) % 65536) as u16,
        Mode::Indx => zp_word(b, (op + c.x) % 256),
        Mode::Indy => ((base_of(m, c, b) + c.y) % 65536) as u16,
        Mode::IndZp => zp_word(b, op as int),
    }
}

/// The indexing crossed a page.
pub open spec fn crossed(m: Mode, c: Cpu, b: Bus) -> bool {
    match m {
        Mode::Absx | Mode::Absy | Mode::Indy => base_of(m, c, b) / 256 != ea_of(m, c, b) / 256,
        _ => false,
    }
}

/// `c` with the operand bytes of mode `m` consumed.
pub open spec fn past_operand(c: Cpu, m: Mode) -> Cpu {
    Cpu { pc: pc_add(c.pc, operand_len(m)), ..c }
}

/// The target of a relative branch whose offset byte `off` follows the
/// instruction ending at `pc1`.
pub open spec fn rel_dest(pc1: u16, off: u8) -> u16 {
    if off < 128 {
        ((pc1 + off) % 65536) as u16
    } else {
        ((pc1 + off + 0xFF00) % 65536) as u16
    }
}

/// The status byte an interrupt pushes: B clear, U set.
pub open spec fn interrupt_status(p: u8) -> u8 {
    (p & !B) | U
}

/// The bus and the CPU counter allow a read at any address.
pub open spec fn can_read(c: Cpu, b: Bus) -> bool {
    b.wf() && c.cycles <= PADDLE_CYCLES_MAX
}

/// Pages 0 and 1 (zero page and stack) are memory under every switch
/// setting.
pub proof fn lemma_low_pages_plain(b: Bus, addr: u16)
    requires
        b.wf(),
        addr < 0x200,
    ensures
        plain(b, addr),
        plain_w(addr),
        b.pages_w@[(addr / 256) as int] is Main || b.pages_w@[(addr / 256) as int] is Aux,
        b.pages_r@[(addr / 256) as int] is Main || b.pages_r@[(addr / 256) as int] is Aux,
{
    assert(b.pages_r@[(addr / 256) as int] == crate::bus::machine::page_src(b.mode.bits, (addr / 256) as int));
    assert(b.pages_w@[(addr / 256) as int] == crate::bus::machine::page_dst(b.mode.bits, (addr / 256) as int));
}

impl Cpu {
    /// Read `addr` through the bus at the current cycle.
    pub fn bus_read(&self, bus: &mut Bus, addr: u16) -> (r: u8)
        requires
            can_read(*self, *old(bus)),
        ensures
            final(bus).wf(),
            read_post(*old(bus), *final(bus), addr, self.cycles, r),
            plain(*old(bus), addr) ==> r == old(bus).peek(addr) && *final(bus) == *old(bus),
    {
        bus.read(addr, self.cycles)
    }

    /// Write `val` to `addr` through the bus at the current cycle.
    pub fn bus_write(&self, bus: &mut Bus, addr: u16, val: u8)
        requires
            can_read(*self, *old(bus)),
        ensures
            final(bus).wf(),
            crate::bus::soft_switches::write_post(*old(bus), *final(bus), addr, val, self.cycles),
            plain_w(addr) ==> final(bus).stored(*old(bus), addr, val),
    {
        bus.write(addr, val, self.cycles);
    }

    /// Fetch the byte at PC and step past it.
    pub fn fetch(&mut self, bus: &mut Bus) -> (r: u8)
        requires
            can_read(*old(self), *old(bus)),
        ensures
            final(bus).wf(),
            *final(self) == (Cpu { pc: pc_add(old(self).pc, 1), ..*old(self) }),
            plain(*old(bus), old(self).pc) ==> r == old(bus).peek(old(self).pc) && *final(bus) == *old(bus),
    {
        let v = self.bus_read(bus, self.pc);
        self.pc = self.pc.wrapping_add(1);
        v
    }

    /// Push `val` onto the stack (page 1) and move SP down.
    pub fn push(&mut self, bus: &mut Bus, val: u8)
        requires
            old(bus).wf(),
        ensures
            final(bus).wf(),
            final(bus).stored(*old(bus), (0x100 + old(self).sp) as u16, val),
            *final(self) == (Cpu { sp: ((old(self).sp + 255) % 256) as u8, ..*old(self) }),
    {
        bus.write_raw(0x0100 + self.sp as u16, val);
        self.sp = self.sp.wrapping_sub(1);
    }

    /// Move SP up and pull the byte there from the stack.
    pub fn pop(&mut self, bus: &mut Bus) -> (r: u8)
        requires
            old(bus).wf(),
        ensures
            *final(bus) == *old(bus),
            *final(self) == (Cpu { sp: ((old(self).sp + 1) % 256) as u8, ..*old(self) }),
            r == old(bus).peek((0x100 + final(self).sp) as u16),
    {
        self.sp = self.sp.wrapping_add(1);
        bus.read_raw(0x0100 + self.sp as u16)
    }

    /// The word at zero-page address `zp`, through the bus.
    fn zp_word_read(&self, bus: &mut Bus, zp: u8) -> (r: u16)
        requires
            can_read(*self, *old(bus)),
        ensures
            final(bus).wf(),
            *final(bus) == *old(bus),
            r == zp_word(*old(bus), zp as int),
    {
        proof {
            lemma_low_pages_plain(*bus, zp as u16);
            lemma_low_pages_plain(*bus, zp.wrapping_add(1) as u16);
        }
        let lo = self.bus_read(bus, zp as u16) as u16;
        let hi = self.bus_read(bus, zp.wrapping_add(1) as u16) as u16;
        hi * 256 + lo
    }

    /// Immediate: the operand byte.
    pub fn addr_imm(&mut self, bus: &mut Bus) -> (r: u8)
        requires
            can_read(*old(self), *old(bus)),
        ensures
            final(bus).wf(),
            *final(self) == past_operand(*old(self), Mode::Imm),
            fetch_plain(Mode::Imm, *old(self), *old(bus)) ==> r == old(bus).peek(old(self).pc) && *final(bus)
                == *old(bus),
    {
        self.fetch(bus)
    }

    /// Zero page.
    pub fn addr_zp(&mut self, bus: &mut Bus) -> (r: u16)
        requires
            can_read(*old(self), *old(bus)),
        ensures
            final(bus).wf(),
            *final(self) == past_operand(*old(self), Mode::Zp),
            r < 256,
            fetch_plain(Mode::Zp, *old(self), *old(bus)) ==> r == ea_of(Mode::Zp, *old(self), *old(bus))
                && *final(bus) == *old(bus),
    {
        self.fetch(bus) as u16
    }

    /// Zero page plus X.
    pub fn addr_zpx(&mut self, bus: &mut Bus) -> (r: u16)
        requires
            can_read(*old(self), *old(bus)),
        ensures
            final(bus).wf(),
            *final(self) == past_operand(*old(self), Mode::Zpx),
            r < 256,
            fetch_plain(Mode::Zpx, *old(self), *old(bus)) ==> r == ea_of(Mode::Zpx, *old(self), *old(bus))
                && *final(bus) == *old(bus),
    {
        let zp = self.fetch(bus);
        zp.wrapping_add(self.x) as u16
    }

    /// Zero page plus Y.
    pub fn addr_zpy(&mut self, bus: &mut Bus) -> (r: u16)
        requires
            can_read(*old(self), *old(bus)),
        ensures
            final(bus).wf(),
            *final(self) == past_operand(*old(self), Mode::Zpy),
            r < 256,
            fetch_plain(Mode::Zpy, *old(self), *old(bus)) ==> r == ea_of(Mode::Zpy, *old(self), *old(bus))
                && *final(bus) == *old(bus),
    {
        let zp = self.fetch(bus);
        zp.wrapping_add(self.y) as u16
    }

    /// Absolute.
    pub fn addr_abs(&mut self, bus: &mut Bus) -> (r: u16)
        requires
            can_read(*old(self), *old(bus)),
        ensures
            final(bus).wf(),
            *final(self) == past_operand(*old(self), Mode::Abs),
            fetch_plain(Mode::Abs, *old(self), *old(bus)) ==> r == ea_of(Mode::Abs, *old(self), *old(bus))
                && *final(bus) == *old(bus),
    {
        let lo = self.fetch(bus) as u16;
        let hi = self.fetch(bus) as u16;
        hi * 256 + lo
    }

    /// Absolute plus X, and whether a page was crossed.
    pub fn addr_absx(&mut self, bus: &mut Bus) -> (r: (u16, bool))
        requires
            can_read(*old(self), *old(bus)),
        ensures
            final(bus).wf(),
            *final(self) == past_operand(*old(self), Mode::Absx),
            fetch_plain(Mode::Absx, *old(self), *old(bus)) ==> r.0 == ea_of(Mode::Absx, *old(self), *old(bus))
                && r.1 == crossed(Mode::Absx, *old(self), *old(bus)) && *final(bus) == *old(bus),
    {
        let base = self.addr_abs(bus);
        let ea = base.wrapping_add(self.x as u16);
        (ea, base / 256 != ea / 256)
    }

    /// Absolute plus Y, and whether a page was crossed.
    pub fn addr_absy(&mut self, bus: &mut Bus) -> (r: (u16, bool))
        requires
            can_read(*old(self), *old(bus)),
        ensures
            final(bus).wf(),
            *final(self) == past_operand(*old(self), Mode::Absy),
            fetch_plain(Mode::Absy, *old(self), *old(bus)) ==> r.0 == ea_of(Mode::Absy, *old(self), *old(bus))
                && r.1 == crossed(Mode::Absy, *old(self), *old(bus)) && *final(bus) == *old(bus),
    {
        let base = self.addr_abs(bus);
        let ea = base.wrapping_add(self.y as u16);
        (ea, base / 256 != ea / 256)
    }

    /// (Zero page plus X) indirect.
    pub fn addr_indx(&mut self, bus: &mut Bus) -> (r: u16)
        requires
            can_read(*old(self), *old(bus)),
        ensures
            final(bus).wf(),
            *final(self) == past_operand(*old(self), Mode::Indx),
            fetch_plain(Mode::Indx, *old(self), *old(bus)) ==> r == ea_of(Mode::Indx, *old(self), *old(bus))
                && *final(bus) == *old(bus),
    {
        let zp = self.fetch(bus).wrapping_add(self.x);
        self.zp_word_read(bus, zp)
    }

    /// (Zero page) indirect plus Y, and whether a page was crossed.
    pub fn addr_indy(&mut self, bus: &mut Bus) -> (r: (u16, bool))
        requires
            can_read(*old(self), *old(bus)),
        ensures
            final(bus).wf(),
            *final(self) == past_operand(*old(self), Mode::Indy),
            fetch_plain(Mode::Indy, *old(self), *old(bus)) ==> r.0 == ea_of(Mode::Indy, *old(self), *old(bus))
                && r.1 == crossed(Mode::Indy, *old(self), *old(bus)) && *final(bus) == *old(bus),
    {
        let zp = self.fetch(bus);
        let base = self.zp_word_read(bus, zp);
        let ea = base.wrapping_add(self.y as u16);
        (ea, base / 256 != ea / 256)
    }

    /// (Zero page) indirect, 65C02.
    pub fn addr_ind_zp(&mut self, bus: &mut Bus) -> (r: u16)
        requires
            can_read(*old(self), *old(bus)),
        ensures
            final(bus).wf(),
            *final(self) == past_operand(*old(self), Mode::IndZp),
            fetch_plain(Mode::IndZp, *old(self), *old(bus)) ==> r == ea_of(Mode::IndZp, *old(self), *old(bus))
                && *final(bus) == *old(bus),
    {
        let zp = self.fetch(bus);
        self.zp_word_read(bus, zp)
    }

    /// Reset: registers cleared, SP 0xFF, I and U set, interrupts and the
    /// halt states cleared, and PC from the reset vector ($FFFC).
    pub fn reset(&mut self, bus: &mut Bus)
        requires
            old(bus).wf(),
        ensures
            *final(bus) == *old(bus),
            *final(self) == (Cpu {
                pc: word(old(bus).peek(0xFFFC), old(bus).peek(0xFFFD)),
                cycles: old(self).cycles,
                is_65c02: old(self).is_65c02,
                ..cpu_power_on(old(self).is_65c02)
            }),
    {
        self.a = 0;
        self.x = 0;
        self.y = 0;
        self.sp = 0xFF;
        self.flags = Flags::power_on();
        self.jammed = false;
        self.waiting = false;
        self.irq_pending = 0;
        self.nmi_pending = 0;
        self.irq_defer = false;
        let lo = bus.read_raw(0xFFFC) as u16;
        let hi = bus.read_raw(0xFFFD) as u16;
        self.pc = hi * 256 + lo;
    }

    /// Consume a relative branch offset; when `taken`, jump. The extra
    /// cycles: 0 when not taken, 1 when taken, 2 when taken across a page.
    pub fn branch_target(&mut self, bus: &mut Bus, taken: bool) -> (r: u8)
        requires
            can_read(*old(self), *old(bus)),
        ensures
            final(bus).wf(),
            *final(self) == (Cpu { pc: final(self).pc, ..*old(self) }),
            !taken ==> final(self).pc == pc_add(old(self).pc, 1) && r == 0,
            taken ==> r == (if final(self).pc / 256 != pc_add(old(self).pc, 1) / 256 { 2u8 } else { 1u8 }),
            plain(*old(bus), old(self).pc) ==> *final(bus) == *old(bus) && final(self).pc == (if taken {
                rel_dest(pc_add(old(self).pc, 1), old(bus).peek(old(self).pc))
            } else {
                pc_add(old(self).pc, 1)
            }),
    {
        let off = self.fetch(bus);
        if !taken {
            return 0;
        }
        let new_pc = if off < 128 {
            self.pc.wrapping_add(off as u16)
        } else {
            self.pc.wrapping_add(off as u16 + 0xFF00)
        };
        let extra: u8 = if new_pc / 256 != self.pc / 256 { 2 } else { 1 };
        self.pc = new_pc;
        extra
    }

    /// Interrupt entry (IRQ, or NMI when `is_nmi`): push PC and the status
    /// (B clear, U set), set I, and jump through the vector ($FFFA for NMI,
    /// $FFFE for IRQ).
    pub fn service_interrupt(&mut self, bus: &mut Bus, is_nmi: bool)
        requires
            old(bus).wf(),
        ensures
            final(bus).wf(),
            exists|b1: Bus, b2: Bus|
                #[trigger] b1.stored(*old(bus), (0x100 + old(self).sp) as u16, (old(self).pc / 256) as u8)
                    && #[trigger] b2.stored(
                    b1,
                    (0x100 + (old(self).sp + 255) % 256) as u16,
                    (old(self).pc % 256) as u8,
                ) && final(bus).stored(
                    b2,
                    (0x100 + (old(self).sp + 254) % 256) as u16,
                    interrupt_status(old(self).flags.bits),
                ),
            *final(self) == (Cpu {
                sp: ((old(self).sp + 253) % 256) as u8,
                flags: Flags { bits: old(self).flags.bits | I },
                pc: word(
                    final(bus).peek(if is_nmi { 0xFFFAu16 } else { 0xFFFEu16 }),
                    final(bus).peek(if is_nmi { 0xFFFBu16 } else { 0xFFFFu16 }),
                ),
                ..*old(self)
            }),
    {
        let pc = self.pc;
        self.push(bus, (pc / 256) as u8);
        let ghost b1 = *bus;
        self.push(bus, (pc % 256) as u8);
        let ghost b2 = *bus;
        let p = (self.flags.bits & !B) | U;
        self.push(bus, p);
        self.flags.insert(I);
        let vector: u16 = if is_nmi { 0xFFFA } else { 0xFFFE };
        let lo = bus.read_raw(vector) as u16;
        let hi = bus.read_raw(vector + 1) as u16;
        self.pc = hi * 256 + lo;
        assert(b1.stored(*old(bus), (0x100 + old(self).sp) as u16, (old(self).pc / 256) as u8));
        assert(b2.stored(b1, (0x100 + (old(self).sp + 255) % 256) as u16, (old(self).pc % 256) as u8));
    }
}

} // verus!
