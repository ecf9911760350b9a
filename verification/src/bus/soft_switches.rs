//! The soft switches of the $C000-$C0FF I/O page: keyboard, memory-mode
//! and video switches, speaker, annunciators, paddles, the //c VBL flag,
//! the language card, and the slot registers $C090-$C0FF.

use vstd::prelude::*;
use vstd::slice::slice_to_vec;
use vstd::string::StringSliceAdditionalSpecFns;
use crate::bus::machine::{
    page_dst, page_src, sw_on, Bus, CYCLES_PER_FRAME, CYCLES_VISIBLE, NUM_PAGES, PADDLE_CYCLES_MAX,
    RAM_SIZE, SPEAKER_TOGGLES_MAX,
};
use crate::bus::{dongle_overrides, paddle_values, GamepadState, MemMode, PageDst, PageSrc};
use crate::bus::{BusSnapshot, MEM_MODE_ALL};
use crate::cards::hd::{ext_2img, image_ext, unwrap_2img, unwrapped_2img};
use crate::card::{slot_spins, CardType, DmaWrite, SlotCard};
use crate::model::Apple2Model;

verus! {

/// The switches that route memory; the others only matter to the video.
pub const PAGING_BITS: u32 = 0x07FF;

/// `a + b` wrapped to 64 bits.
pub open spec fn wadd64(a: u64, b: u64) -> u64 {
    if a + b > u64::MAX {
        (a + b - 0x1_0000_0000_0000_0000) as u64
    } else {
        (a + b) as u64
    }
}

/// `a - b` wrapped to 64 bits.
pub open spec fn wsub64(a: u64, b: u64) -> u64 {
    if a >= b {
        (a - b) as u64
    } else {
        (a - b + 0x1_0000_0000_0000_0000) as u64
    }
}

/// A status register's answer: bit 7 set when the switches `m` are on.
pub open spec fn flag_byte(bits: u32, m: u32) -> u8 {
    if sw_on(bits, m) {
        0x80
    } else {
        0
    }
}

/// The switch that status register `reg` ($C011-$C018, $C01B-$C01F)
/// reports.
pub open spec fn status_flag(reg: u8) -> u32 {
    if reg == 0x11 {
        MemMode::MF_BANK2
    } else if reg == 0x12 {
        MemMode::MF_HIGHRAM
    } else if reg == 0x13 {
        MemMode::MF_AUXREAD
    } else if reg == 0x14 {
        MemMode::MF_AUXWRITE
    } else if reg == 0x15 {
        MemMode::MF_INTCXROM
    } else if reg == 0x16 {
        MemMode::MF_ALTZP
    } else if reg == 0x17 {
        MemMode::MF_SLOTC3ROM
    } else if reg == 0x18 {
        MemMode::MF_80STORE
    } else if reg == 0x1B {
        MemMode::MF_MIXED
    } else if reg == 0x1C {
        MemMode::MF_PAGE2
    } else if reg == 0x1D {
        MemMode::MF_HIRES
    } else if reg == 0x1E {
        MemMode::MF_ALTCHAR
    } else {
        MemMode::MF_VID80
    }
}

/// The machine is an Apple //c or //c+.
pub open spec fn is_iic(b: Bus) -> bool {
    b.model == Apple2Model::AppleIIc || b.model == Apple2Model::AppleIIcPlus
}

/// `b` with switch bits `bits`; the page tables follow in a well-formed
/// bus.
pub open spec fn with_bits(b: Bus, bits: u32) -> Bus {
    Bus { mode: MemMode { bits }, ..b }
}

/// The IRQ line for the //c VBL state `enabled` / `flag`.
pub open spec fn irq_with(b: Bus, enabled: bool, flag: bool) -> bool {
    b.cards.irq() || (enabled && flag)
}

/// The buttons the machine sees: the dongle's buttons added.
pub open spec fn eff_buttons(g: GamepadState) -> u8 {
    match g.dongle {
        Some(d) => g.buttons | dongle_overrides(d).2,
        None => g.buttons,
    }
}

/// The paddle one-shots started at `cycles`: each runs `value * 11 + 3`
/// cycles.
pub open spec fn strobed(g: GamepadState, cycles: u64) -> GamepadState {
    GamepadState {
        paddle0_end: (cycles + paddle_values(g).0 * 11 + 3) as u64,
        paddle1_end: (cycles + paddle_values(g).1 * 11 + 3) as u64,
        ..g
    }
}

/// $C070: the paddle one-shots start; on the //c the VBL interrupt is
/// acknowledged.
pub open spec fn paddle_strobe(o: Bus, cycles: u64) -> Bus {
    let g = strobed(o.gamepad, cycles);
    if is_iic(o) {
        Bus { gamepad: g, vbl_flag: false, irq_line: irq_with(o, o.vbl_irq_enabled, false), ..o }
    } else {
        Bus { gamepad: g, ..o }
    }
}

/// The frame start and the VBL bar ($C019 on the //e) at `cycles`: bit 7
/// is set during the 192 visible lines of the frame. The frame start
/// advances by whole frames.
pub open spec fn vbl_bar(start: u64, cycles: u64) -> (u64, u8) {
    let offset = wsub64(cycles, start);
    let frames = offset / CYCLES_PER_FRAME;
    let new_start = if offset >= CYCLES_PER_FRAME {
        wadd64(start, (frames * CYCLES_PER_FRAME) as u64)
    } else {
        start
    };
    (new_start, if offset % CYCLES_PER_FRAME < CYCLES_VISIBLE { 0x80 } else { 0 })
}

/// The switches after an access of language-card switch `reg`
/// ($C080-$C08F): bit 3 clear selects bank 2; RAM is read when bits 0 and
/// 1 agree; an even switch protects the RAM, and a second read in a row of
/// an odd switch enables writing.
pub open spec fn lc_bits(bits: u32, reg: u8, write: bool, prewrite: bool) -> u32 {
    let b1 = if reg & 0x08 == 0 {
        bits | MemMode::MF_BANK2
    } else {
        bits & !MemMode::MF_BANK2
    };
    let b2 = if (reg >> 1u8) & 1 == reg & 1 {
        b1 | MemMode::MF_HIGHRAM
    } else {
        b1 & !MemMode::MF_HIGHRAM
    };
    if reg & 1 != 0 {
        if !write && prewrite {
            b2 | MemMode::MF_WRITERAM
        } else {
            b2
        }
    } else {
        b2 & !MemMode::MF_WRITERAM
    }
}

/// The bus after an access of language-card switch `reg`.
pub open spec fn lc_access(o: Bus, reg: u8, write: bool) -> Bus {
    Bus {
        mode: MemMode { bits: lc_bits(o.mode.bits, reg, write, o.lc_prewrite) },
        lc_prewrite: reg & 1 != 0 && !write,
        ..o
    }
}

/// The bus after a switch access that the read and the write of `reg` share
/// (video, annunciators, DHIRES, paddles); `None` for other registers.
pub open spec fn common_switch(o: Bus, reg: u8, cycles: u64) -> Option<Bus> {
    let bits = o.mode.bits;
    if reg == 0x50 {
        Some(with_bits(o, bits | MemMode::MF_GRAPHICS))
    } else if reg == 0x51 {
        Some(with_bits(o, bits & !MemMode::MF_GRAPHICS))
    } else if reg == 0x52 {
        Some(with_bits(o, bits & !MemMode::MF_MIXED))
    } else if reg == 0x53 {
        Some(with_bits(o, bits | MemMode::MF_MIXED))
    } else if reg == 0x54 {
        Some(if sw_on(bits, MemMode::MF_PAGE2) { with_bits(o, bits & !MemMode::MF_PAGE2) } else { o })
    } else if reg == 0x55 {
        Some(if !sw_on(bits, MemMode::MF_PAGE2) { with_bits(o, bits | MemMode::MF_PAGE2) } else { o })
    } else if reg == 0x56 {
        Some(if sw_on(bits, MemMode::MF_HIRES) { with_bits(o, bits & !MemMode::MF_HIRES) } else { o })
    } else if reg == 0x57 {
        Some(if !sw_on(bits, MemMode::MF_HIRES) { with_bits(o, bits | MemMode::MF_HIRES) } else { o })
    } else if reg == 0x58 {
        Some(Bus { ann: vstd::array::spec_array_update(o.ann, 0, false), ..o })
    } else if reg == 0x59 {
        Some(Bus { ann: vstd::array::spec_array_update(o.ann, 0, true), ..o })
    } else if reg == 0x5A {
        Some(if is_iic(o) {
            Bus { vbl_irq_enabled: false, irq_line: irq_with(o, false, o.vbl_flag), ..o }
        } else {
            Bus { ann: vstd::array::spec_array_update(o.ann, 1, false), ..o }
        })
    } else if reg == 0x5B {
        Some(if is_iic(o) {
            Bus { vbl_irq_enabled: true, irq_line: irq_with(o, true, o.vbl_flag), ..o }
        } else {
            Bus { ann: vstd::array::spec_array_update(o.ann, 1, true), ..o }
        })
    } else if reg == 0x5C {
        Some(Bus { ann: vstd::array::spec_array_update(o.ann, 2, false), ..o })
    } else if reg == 0x5D {
        Some(Bus { ann: vstd::array::spec_array_update(o.ann, 2, true), ..o })
    } else if reg == 0x5E {
        Some(if !is_iic(o) || sw_on(bits, MemMode::MF_IOUDIS) {
            with_bits(o, bits | MemMode::MF_DHIRES)
        } else {
            o
        })
    } else if reg == 0x5F {
        Some(if !is_iic(o) || sw_on(bits, MemMode::MF_IOUDIS) {
            with_bits(o, bits & !MemMode::MF_DHIRES)
        } else {
            o
        })
    } else if reg == 0x70 {
        Some(paddle_strobe(o, cycles))
    } else if reg == 0x28 {
        Some(if is_iic(o) { with_bits(o, bits ^ MemMode::MF_ALTROM0) } else { o })
    } else if reg == 0x30 {
        Some(Bus { speaker_state: !o.speaker_state, ..o })
    } else {
        None
    }
}

/// A read of switch `reg` (below $C090) at `cycles`: the bus after it
/// (page tables and speaker toggle log aside) and the value read.
pub open spec fn read_switch(o: Bus, reg: u8, cycles: u64) -> (Bus, u8) {
    let fb = o.floating_bus;
    let bits = o.mode.bits;
    if 0x80 <= reg {
        (lc_access(o, reg, false), fb)
    } else if let Some(n) = common_switch(o, reg, cycles) {
        (n, fb)
    } else if reg == 0x00 {
        (o, o.keyboard_data)
    } else if reg == 0x10 {
        (Bus { keyboard_data: o.keyboard_data & 0x7F, ..o }, o.keyboard_data)
    } else if (0x11 <= reg <= 0x18) || (0x1B <= reg <= 0x1F) {
        (o, flag_byte(bits, status_flag(reg)))
    } else if reg == 0x19 {
        if is_iic(o) {
            (o, if o.vbl_flag { 0x80u8 } else { 0u8 })
        } else {
            (Bus { frame_start_cycles: vbl_bar(o.frame_start_cycles, cycles).0, ..o }, vbl_bar(
                o.frame_start_cycles,
                cycles,
            ).1)
        }
    } else if reg == 0x1A {
        (o, if sw_on(bits, MemMode::MF_GRAPHICS) { 0u8 } else { 0x80u8 })
    } else if reg == 0x60 || reg == 0x66 || reg == 0x67 {
        (o, 0)
    } else if reg == 0x61 {
        (o, if eff_buttons(o.gamepad) & 0x01 != 0 { 0x80u8 } else { 0u8 })
    } else if reg == 0x62 {
        (o, if eff_buttons(o.gamepad) & 0x02 != 0 { 0x80u8 } else { 0u8 })
    } else if reg == 0x63 {
        (o, if eff_buttons(o.gamepad) & 0x04 != 0 { 0x80u8 } else { 0u8 })
    } else if reg == 0x64 {
        (o, if cycles < o.gamepad.paddle0_end { 0x80u8 } else { 0u8 })
    } else if reg == 0x65 {
        (o, if cycles < o.gamepad.paddle1_end { 0x80u8 } else { 0u8 })
    } else if reg == 0x7D || reg == 0x7E {
        (o, flag_byte(bits, MemMode::MF_IOUDIS))
    } else if reg == 0x7F {
        (o, flag_byte(bits, MemMode::MF_DHIRES))
    } else {
        (o, fb)
    }
}

/// A write to switch `reg` (below $C090, other than $C073) at `cycles`:
/// the bus after it, page tables and speaker toggle log aside.
pub open spec fn write_switch(o: Bus, reg: u8, cycles: u64) -> Bus {
    let bits = o.mode.bits;
    if 0x80 <= reg {
        lc_access(o, reg, true)
    } else if let Some(n) = common_switch(o, reg, cycles) {
        n
    } else if reg == 0x00 {
        with_bits(o, bits & !MemMode::MF_80STORE)
    } else if reg == 0x01 {
        with_bits(o, bits | MemMode::MF_80STORE)
    } else if reg == 0x02 {
        with_bits(o, bits & !MemMode::MF_AUXREAD)
    } else if reg == 0x03 {
        with_bits(o, bits | MemMode::MF_AUXREAD)
    } else if reg == 0x04 {
        with_bits(o, bits & !MemMode::MF_AUXWRITE)
    } else if reg == 0x05 {
        with_bits(o, bits | MemMode::MF_AUXWRITE)
    } else if reg == 0x06 && !is_iic(o) {
        with_bits(o, bits & !MemMode::MF_INTCXROM)
    } else if reg == 0x07 && !is_iic(o) {
        with_bits(o, bits | MemMode::MF_INTCXROM)
    } else if reg == 0x08 {
        with_bits(o, bits & !MemMode::MF_ALTZP)
    } else if reg == 0x09 {
        with_bits(o, bits | MemMode::MF_ALTZP)
    } else if reg == 0x0A && !is_iic(o) {
        with_bits(o, bits & !MemMode::MF_SLOTC3ROM)
    } else if reg == 0x0B && !is_iic(o) {
        with_bits(o, bits | MemMode::MF_SLOTC3ROM)
    } else if reg == 0x0C {
        with_bits(o, bits & !MemMode::MF_VID80)
    } else if reg == 0x0D {
        with_bits(o, bits | MemMode::MF_VID80)
    } else if reg == 0x0E {
        with_bits(o, bits & !MemMode::MF_ALTCHAR)
    } else if reg == 0x0F {
        with_bits(o, bits | MemMode::MF_ALTCHAR)
    } else if reg == 0x10 {
        Bus { keyboard_data: o.keyboard_data & 0x7F, ..o }
    } else if reg == 0x7E {
        with_bits(o, bits | MemMode::MF_IOUDIS)
    } else if reg == 0x7F {
        with_bits(o, bits & !MemMode::MF_IOUDIS)
    } else {
        o
    }
}

/// `n` is `e` up to the page tables and the speaker toggle log, which
/// follows the speaker switch: a $C030 access at `cycles` logs `cycles`
/// while the log has room.
pub open spec fn switched(n: Bus, e: Bus, o: Bus, reg: u8, cycles: u64) -> bool {
    &&& n == Bus { pages_r: n.pages_r, pages_w: n.pages_w, speaker_toggles: n.speaker_toggles, ..e }
    &&& n.speaker_toggles@ == (if reg == 0x30 && o.speaker_toggles@.len() < SPEAKER_TOGGLES_MAX {
        o.speaker_toggles@.push(cycles)
    } else {
        o.speaker_toggles@
    })
}

/// `n` is `o` after an access of the card registers of `slot`: only that
/// card (which keeps its type), main RAM (DMA and bank swaps) and the IRQ
/// line, recomputed, may differ.
pub open spec fn slot_accessed(n: Bus, o: Bus, slot: int) -> bool {
    &&& n == Bus { cards: n.cards, main_ram: n.main_ram, irq_line: n.irq_line, ..o }
    &&& n.cards.same_except(o.cards, slot)
    &&& n.cards.same_kind_at(o.cards, slot)
    &&& n.irq_line == irq_with(n, n.vbl_irq_enabled, n.vbl_flag)
}

/// `n` is `o` after selecting RamWorks bank `bank`: banks that did not
/// exist yet are added, zeroed.
pub open spec fn rw3_selected(n: Bus, o: Bus, bank: u8) -> bool {
    &&& n == Bus { rw3_active: bank, rw3_extra: n.rw3_extra, ..o }
    &&& n.rw3_extra@.len() == (if o.rw3_extra@.len() >= bank { o.rw3_extra@.len() } else { bank as nat })
    &&& forall|b: int| 0 <= b < o.rw3_extra@.len() ==> #[trigger] n.rw3_extra@[b] == o.rw3_extra@[b]
    &&& forall|b: int| o.rw3_extra@.len() <= b < n.rw3_extra@.len() ==> (#[trigger] n.rw3_extra@[b])@
        == Seq::new(RAM_SIZE as nat, |i: int| 0u8)
}

/// The slot of register `reg` ($C090-$C0FF): 1-7.
pub open spec fn reg_slot(reg: u8) -> int {
    reg / 16 - 8
}

/// `n` and `r` after a read of slot register `reg` ($C090-$C0FF) of an
/// occupied slot: the card answers register `reg % 16` as its own read
/// says, then its DMA is carried out against main RAM, and the IRQ line is
/// recomputed.
pub open spec fn slot_read_done(o: Bus, n: Bus, reg: u8, cycles: u64, r: u8) -> bool {
    let s = reg_slot(reg);
    &&& slot_accessed(n, o, s)
    &&& exists|c1: SlotCard|
        #[trigger] o.cards.slots@[s]->0.slot_io_read_post(reg % 16, cycles, c1, r) && dma_applied(
            c1,
            o.main_ram@,
            n.cards.slots@[s],
            n.main_ram@,
        )
}

/// `n` after a write of `val` to slot register `reg` ($C090-$C0FF) of an
/// occupied slot: the card takes register `reg % 16` as its own write says,
/// then its DMA and its language-card bank swap are carried out against
/// main RAM, and the IRQ line is recomputed.
pub open spec fn slot_write_done(o: Bus, n: Bus, reg: u8, val: u8, cycles: u64) -> bool {
    let s = reg_slot(reg);
    &&& slot_accessed(n, o, s)
    &&& exists|c1: SlotCard, c2: SlotCard, ram2: Seq<u8>|
        #[trigger] o.cards.slots@[s]->0.slot_io_write_post(reg % 16, val, cycles, c1) && #[trigger] dma_applied(
            c1,
            o.main_ram@,
            Some(c2),
            ram2,
        ) && swap_applied(c2, ram2, n.cards.slots@[s], n.main_ram@)
}

/// What a read of soft switch `reg` at `cycles` does: below $C090 as
/// `read_switch` says; a slot register reads the card, or the floating bus
/// from an empty slot.
pub open spec fn switch_read_post(o: Bus, n: Bus, reg: u8, cycles: u64, r: u8) -> bool {
    if reg < 0x90 {
        r == read_switch(o, reg, cycles).1 && switched(n, read_switch(o, reg, cycles).0, o, reg, cycles)
    } else if o.cards.slots@[reg_slot(reg)] is None {
        r == o.floating_bus && n == o
    } else {
        slot_read_done(o, n, reg, cycles, r)
    }
}

/// What a write of `val` to soft switch `reg` at `cycles` does: below $C090
/// as `write_switch` says, $C073 selects a RamWorks bank, a slot register
/// goes to the card.
pub open spec fn switch_write_post(o: Bus, n: Bus, reg: u8, val: u8, cycles: u64) -> bool {
    if reg == 0x73 {
        rw3_selected(n, o, val)
    } else if reg < 0x90 {
        switched(n, write_switch(o, reg, cycles), o, reg, cycles)
    } else if o.cards.slots@[reg_slot(reg)] is None {
        n == o
    } else {
        slot_write_done(o, n, reg, val, cycles)
    }
}

/// The slot whose ROM page holds `addr` ($C100-$CFFF).
pub open spec fn rom_slot(addr: u16) -> int {
    ((addr / 256) % 16) as int
}

/// What a read of the card ROM space ($C100-$CFFF) does: the card of the
/// slot answers offset `addr % 256` as its own read says; pages $C8-$CF
/// and empty slots read as the floating bus.
pub open spec fn cx_read_post(o: Bus, n: Bus, addr: u16, cycles: u64, r: u8) -> bool {
    let s = rom_slot(addr);
    if s >= 8 || o.cards.slots@[s] is None {
        n == o && r == o.floating_bus
    } else {
        &&& n == Bus { cards: n.cards, ..o }
        &&& n.cards.same_except(o.cards, s)
        &&& n.cards.same_kind_at(o.cards, s)
        &&& n.cards.slots@[s] matches Some(c1) && o.cards.slots@[s]->0.io_read_post(
            (addr % 256) as u8,
            cycles,
            c1,
            r,
        )
    }
}

/// What a write of `val` to the card ROM space ($C100-$CFFF) does: the
/// card of the slot takes offset `addr % 256` as its own write says; pages
/// $C8-$CF and empty slots ignore it.
pub open spec fn cx_write_post(o: Bus, n: Bus, addr: u16, val: u8, cycles: u64) -> bool {
    let s = rom_slot(addr);
    if s >= 8 || o.cards.slots@[s] is None {
        n == o
    } else {
        &&& n == Bus { cards: n.cards, ..o }
        &&& n.cards.same_except(o.cards, s)
        &&& n.cards.same_kind_at(o.cards, s)
        &&& n.cards.slots@[s] matches Some(c1) && o.cards.slots@[s]->0.io_write_post(
            (addr % 256) as u8,
            val,
            cycles,
            c1,
        )
    }
}

/// What a read of `addr` at `cycles` does: RAM and ROM give the routed
/// byte and change nothing; the I/O page reads a soft switch; the card ROM
/// space reads the card.
pub open spec fn read_post(o: Bus, n: Bus, addr: u16, cycles: u64, r: u8) -> bool {
    if !(o.pages_r@[(addr / 256) as int] is Io) {
        r == o.peek(addr) && n == o
    } else if addr < 0xC100 {
        switch_read_post(o, n, (addr % 256) as u8, cycles, r)
    } else {
        cx_read_post(o, n, addr, cycles, r)
    }
}

/// What a write of `val` to `addr` at `cycles` does: RAM pages store it; on
/// write-inhibited pages the I/O page writes a soft switch, the card ROM
/// space goes to the card, and the rest ignore it.
pub open spec fn write_post(o: Bus, n: Bus, addr: u16, val: u8, cycles: u64) -> bool {
    let page = (addr / 256) as int;
    if !(o.pages_w@[page] is Inhibit) {
        n.stored(o, addr, val)
    } else if page == 0xC0 {
        switch_write_post(o, n, (addr % 256) as u8, val, cycles)
    } else if 0xC1 <= page <= 0xCF {
        cx_write_post(o, n, addr, val, cycles)
    } else {
        n == o
    }
}

/// `n` is `e` up to the page tables.
pub open spec fn same_up_to_pages(n: Bus, e: Bus) -> bool {
    n == Bus { pages_r: n.pages_r, pages_w: n.pages_w, ..e }
}

/// `o` with the IRQ line recomputed.
pub open spec fn irq_updated(o: Bus) -> Bus {
    Bus { irq_line: irq_with(o, o.vbl_irq_enabled, o.vbl_flag), ..o }
}

/// `o` with the speaker flipped.
pub open spec fn speaker_flipped(o: Bus) -> Bus {
    Bus { speaker_state: !o.speaker_state, ..o }
}

/// Switch bits `x` that route no memory leave the page tables as they are.
pub proof fn lemma_paging_independent(b: u32, x: u32)
    requires
        x & PAGING_BITS == 0,
    ensures
        forall|p: int| page_src(b | x, p) == page_src(b, p) && page_dst(b | x, p) == page_dst(b, p),
        forall|p: int| page_src(b & !x, p) == page_src(b, p) && page_dst(b & !x, p) == page_dst(b, p),
        forall|p: int| page_src(b ^ x, p) == page_src(b, p) && page_dst(b ^ x, p) == page_dst(b, p),
{
    crate::bits::lemma_mode_bits(b, x);
}

/// RAM `ram` with `data` written from `dest` on; bytes that would fall
/// past the end of RAM are dropped.
pub open spec fn ram_with(ram: Seq<u8>, dest: int, data: Seq<u8>) -> Seq<u8> {
    Seq::new(ram.len(), |j: int| if dest <= j < dest + data.len() { data[j - dest] } else { ram[j] })
}

/// The `len` bytes of `ram` from `src` on, cut at the end of RAM.
pub open spec fn ram_range(ram: Seq<u8>, src: int, len: int) -> Seq<u8> {
    ram.subrange(src, if src + len <= ram.len() { src + len } else { ram.len() as int })
}

/// RAM `ram` after the DMA write `w`, if there is one.
pub open spec fn ram_after_dma(ram: Seq<u8>, w: Option<DmaWrite>) -> Seq<u8> {
    match w {
        Some(dw) => ram_with(ram, dw.dest as int, dw.data@),
        None => ram,
    }
}

/// The DMA of card `c0` with RAM `ram0`, ending with the slot holding
/// `slot1` and RAM `ram1`: its pending write `w` goes into RAM, then its
/// pending read request `q` is answered from that RAM.
pub open spec fn dma_applied(c0: SlotCard, ram0: Seq<u8>, slot1: Option<SlotCard>, ram1: Seq<u8>) -> bool {
    exists|c1: SlotCard, w: Option<DmaWrite>, c2: SlotCard, q: Option<(u16, u16)>|
        #![trigger c0.take_dma_write_post(c1, w), c1.take_dma_read_request_post(c2, q)]
        c0.take_dma_write_post(c1, w) && c1.take_dma_read_request_post(c2, q) && ram1 == ram_after_dma(ram0, w)
            && (match q {
            None => slot1 == Some(c2),
            Some(rq) => slot1 matches Some(c3) && c2.dma_read_complete_post(
                ram_range(ram1, rq.0 as int, rq.1 as int),
                c3,
            ),
        })
}

/// The bank swap of card `c0` with RAM `ram0`, ending with the slot
/// holding `slot1` and RAM `ram1`: a pending 16 KB bank goes into RAM at
/// $C000 and the bytes it displaced go back to the card.
pub open spec fn swap_applied(c0: SlotCard, ram0: Seq<u8>, slot1: Option<SlotCard>, ram1: Seq<u8>) -> bool {
    exists|c1: SlotCard, w: Option<Vec<u8>>|
        #[trigger] c0.take_lc_bank_swap_post(c1, w) && match w {
            Some(bank) if bank@.len() == 16384 => ram1 == ram_with(ram0, 0xC000, bank@) && (slot1 matches Some(c2)
                && c1.store_lc_bank_post(ram0.subrange(0xC000, 0x10000), c2)),
            _ => ram1 == ram0 && slot1 == Some(c1),
        }
}

impl Bus {
    /// Set the switch bits to `bits` and reroute the pages.
    fn set_bits(&mut self, bits: u32)
        requires
            old(self).wf_mem(),
        ensures
            final(self).wf(),
            same_up_to_pages(*final(self), with_bits(*old(self), bits)),
    {
        self.mode = MemMode { bits };
        self.rebuild_page_tables();
    }

    /// Set the switch bits to `bits`, which differ from the current ones
    /// only in switches that route no memory.
    fn set_video_bits(&mut self, bits: u32, x: u32)
        requires
            old(self).wf(),
            x & PAGING_BITS == 0,
            bits == old(self).mode.bits | x || bits == old(self).mode.bits & !x || bits == old(self).mode.bits ^ x,
        ensures
            final(self).wf(),
            *final(self) == with_bits(*old(self), bits),
    {
        proof {
            lemma_paging_independent(self.mode.bits, x);
            assert forall|p: int| 0 <= p < NUM_PAGES implies #[trigger] page_src(bits, p) == page_src(self.mode.bits, p)
                && page_dst(bits, p) == page_dst(self.mode.bits, p) by {}
        }
        self.mode = MemMode { bits };
    }

    /// Recompute the IRQ line: any card's IRQ, or the //c VBL interrupt.
    pub fn update_irq_line(&mut self)
        requires
            old(self).cards.wf(),
        ensures
            *final(self) == irq_updated(*old(self)),
    {
        let any = self.cards.any_irq_active();
        self.irq_line = any || (self.vbl_irq_enabled && self.vbl_flag);
    }

    /// Flip the speaker and log the cycle while the log has room.
    fn toggle_speaker(&mut self, cycles: u64)
        requires
            old(self).wf(),
        ensures
            final(self).wf(),
            switched(*final(self), speaker_flipped(*old(self)), *old(self), 0x30, cycles),
    {
        self.speaker_state = !self.speaker_state;
        if self.speaker_toggles.len() < SPEAKER_TOGGLES_MAX {
            self.speaker_toggles.push(cycles);
        }
    }

    /// $C070: start the paddle one-shots; on the //c acknowledge the VBL
    /// interrupt.
    fn strobe_paddles(&mut self, cycles: u64)
        requires
            old(self).wf(),
            cycles <= PADDLE_CYCLES_MAX,
        ensures
            final(self).wf(),
            *final(self) == paddle_strobe(*old(self), cycles),
    {
        self.gamepad.strobe(cycles);
        if self.model.is_iic() {
            self.vbl_flag = false;
            self.update_irq_line();
        }
    }

    /// An access of language-card switch `reg` ($C080-$C08F).
    fn lc_switch(&mut self, reg: u8, write: bool)
        requires
            old(self).wf(),
        ensures
            final(self).wf(),
            same_up_to_pages(*final(self), lc_access(*old(self), reg, write)),
    {
        let mut bits = self.mode.bits;
        if reg & 0x08 == 0 {
            bits = bits | MemMode::MF_BANK2;
        } else {
            bits = bits & !MemMode::MF_BANK2;
        }
        if (reg >> 1u8) & 1 == reg & 1 {
            bits = bits | MemMode::MF_HIGHRAM;
        } else {
            bits = bits & !MemMode::MF_HIGHRAM;
        }
        if reg & 1 != 0 {
            if !write && self.lc_prewrite {
                bits = bits | MemMode::MF_WRITERAM;
            }
        } else {
            bits = bits & !MemMode::MF_WRITERAM;
        }
        self.lc_prewrite = reg & 1 != 0 && !write;
        self.set_bits(bits);
    }

    /// The accesses that reads and writes of `reg` share; `false` when `reg`
    /// is none of them.
    fn common_switch(&mut self, reg: u8, cycles: u64) -> (r: bool)
        requires
            old(self).wf(),
            reg == 0x70 ==> cycles <= PADDLE_CYCLES_MAX,
        ensures
            final(self).wf(),
            r == (common_switch(*old(self), reg, cycles) is Some),
            r ==> switched(*final(self), common_switch(*old(self), reg, cycles)->0, *old(self), reg, cycles),
            !r ==> *final(self) == *old(self),
    {
        let bits = self.mode.bits;
        let iic = self.model.is_iic();
        proof {
            crate::bits::lemma_mode_facts(bits, 0, 0);
        }
        match reg {
            0x50 => self.set_video_bits(bits | MemMode::MF_GRAPHICS, MemMode::MF_GRAPHICS),
            0x51 => self.set_video_bits(bits & !MemMode::MF_GRAPHICS, MemMode::MF_GRAPHICS),
            0x52 => self.set_video_bits(bits & !MemMode::MF_MIXED, MemMode::MF_MIXED),
            0x53 => self.set_video_bits(bits | MemMode::MF_MIXED, MemMode::MF_MIXED),
            0x54 => {
                if bits & MemMode::MF_PAGE2 == MemMode::MF_PAGE2 {
                    self.set_bits(bits & !MemMode::MF_PAGE2);
                }
            },
            0x55 => {
                if bits & MemMode::MF_PAGE2 != MemMode::MF_PAGE2 {
                    self.set_bits(bits | MemMode::MF_PAGE2);
                }
            },
            0x56 => {
                if bits & MemMode::MF_HIRES == MemMode::MF_HIRES {
                    self.set_bits(bits & !MemMode::MF_HIRES);
                }
            },
            0x57 => {
                if bits & MemMode::MF_HIRES != MemMode::MF_HIRES {
                    self.set_bits(bits | MemMode::MF_HIRES);
                }
            },
            0x58 => self.ann[0] = false,
            0x59 => self.ann[0] = true,
            0x5A => {
                if iic {
                    self.vbl_irq_enabled = false;
                    self.update_irq_line();
                } else {
                    self.ann[1] = false;
                }
            },
            0x5B => {
                if iic {
                    self.vbl_irq_enabled = true;
                    self.update_irq_line();
                } else {
                    self.ann[1] = true;
                }
            },
            0x5C => self.ann[2] = false,
            0x5D => self.ann[2] = true,
            0x5E => {
                if !iic || bits & MemMode::MF_IOUDIS == MemMode::MF_IOUDIS {
                    self.set_video_bits(bits | MemMode::MF_DHIRES, MemMode::MF_DHIRES);
                }
            },
            0x5F => {
                if !iic || bits & MemMode::MF_IOUDIS == MemMode::MF_IOUDIS {
                    self.set_video_bits(bits & !MemMode::MF_DHIRES, MemMode::MF_DHIRES);
                }
            },
            0x70 => self.strobe_paddles(cycles),
            0x28 => {
                if iic {
                    self.set_video_bits(bits ^ MemMode::MF_ALTROM0, MemMode::MF_ALTROM0);
                }
            },
            0x30 => self.toggle_speaker(cycles),
            _ => return false,
        }
        true
    }

    /// The switch that status register `reg` reports.
    fn status_flag_of(reg: u8) -> (r: u32)
        ensures
            r == status_flag(reg),
    {
        match reg {
            0x11 => MemMode::MF_BANK2,
            0x12 => MemMode::MF_HIGHRAM,
            0x13 => MemMode::MF_AUXREAD,
            0x14 => MemMode::MF_AUXWRITE,
            0x15 => MemMode::MF_INTCXROM,
            0x16 => MemMode::MF_ALTZP,
            0x17 => MemMode::MF_SLOTC3ROM,
            0x18 => MemMode::MF_80STORE,
            0x1B => MemMode::MF_MIXED,
            0x1C => MemMode::MF_PAGE2,
            0x1D => MemMode::MF_HIRES,
            0x1E => MemMode::MF_ALTCHAR,
            _ => MemMode::MF_VID80,
        }
    }

    /// Bit 7 set when the switches `m` are on.
    fn flag_byte(&self, m: u32) -> (r: u8)
        ensures
            r == flag_byte(self.mode.bits, m),
    {
        if self.mode.bits & m == m {
            0x80
        } else {
            0
        }
    }

    /// Apply the card's pending DMA: its write into main RAM (clipped at
    /// the end of RAM), then its read from main RAM.
    fn process_card_dma(&mut self, slot: usize)
        requires
            old(self).wf(),
            slot < 8,
        ensures
            final(self).wf(),
            *final(self) == (Bus { cards: final(self).cards, main_ram: final(self).main_ram, ..*old(self) }),
            final(self).cards.same_except(old(self).cards, slot as int),
            final(self).cards.same_kind_at(old(self).cards, slot as int),
            old(self).cards.slots@[slot as int] is None ==> final(self).cards.slots@ == old(self).cards.slots@
                && final(self).main_ram@ == old(self).main_ram@,
            old(self).cards.slots@[slot as int] matches Some(c0) ==> dma_applied(
                c0,
                old(self).main_ram@,
                final(self).cards.slots@[slot as int],
                final(self).main_ram@,
            ),
    {
        let ghost ram0 = self.main_ram@;
        let wr = self.cards.take_dma_write(slot);
        let ghost wg = wr;
        let ghost slot1 = self.cards.slots@[slot as int];
        match wr {
            Some(w) => {
                let dest = w.dest as usize;
                let mut i: usize = 0;
                while i < w.data.len() && dest + i < RAM_SIZE
                    invariant
                        self.wf(),
                        dest < RAM_SIZE,
                        dest == w.dest,
                        i <= w.data@.len(),
                        dest + i <= RAM_SIZE,
                        ram0.len() == RAM_SIZE,
                        self.main_ram@.len() == RAM_SIZE,
                        forall|j: int|
                            0 <= j < RAM_SIZE ==> #[trigger] self.main_ram@[j] == (if dest <= j < dest + i {
                                w.data@[j - dest]
                            } else {
                                ram0[j]
                            }),
                        *self == (Bus { cards: self.cards, main_ram: self.main_ram, ..*old(self) }),
                        self.cards.same_except(old(self).cards, slot as int),
                        self.cards.same_kind_at(old(self).cards, slot as int),
                        self.cards.slots@[slot as int] == slot1,
                    decreases w.data.len() - i,
                {
                    self.main_ram.set(dest + i, w.data[i]);
                    i = i + 1;
                }
                assert(self.main_ram@ =~= ram_with(ram0, dest as int, w.data@));
            },
            None => {},
        }
        assert(self.main_ram@ == ram_after_dma(ram0, wg));
        let ghost ram1 = self.main_ram@;
        let rq = self.cards.take_dma_read_request(slot);
        let ghost qg = rq;
        let ghost slot2 = self.cards.slots@[slot as int];
        match rq {
            Some(req) => {
                let src = req.0 as usize;
                let len = req.1 as usize;
                let mut buf: Vec<u8> = Vec::new();
                let mut i: usize = 0;
                while i < len && src + i < RAM_SIZE
                    invariant
                        self.wf(),
                        src < RAM_SIZE,
                        i <= len,
                        src + i <= RAM_SIZE,
                        self.main_ram@ == ram1,
                        ram1.len() == RAM_SIZE,
                        buf@ == ram1.subrange(src as int, src + i),
                        *self == (Bus { cards: self.cards, main_ram: self.main_ram, ..*old(self) }),
                        self.cards.same_except(old(self).cards, slot as int),
                        self.cards.same_kind_at(old(self).cards, slot as int),
                    decreases len - i,
                {
                    buf.push(self.main_ram[src + i]);
                    i = i + 1;
                    assert(buf@ =~= ram1.subrange(src as int, src + i));
                }
                assert(buf@ =~= ram_range(ram1, src as int, len as int));
                self.cards.dma_read_complete(slot, buf.as_slice());
            },
            None => {},
        }
        proof {
            if old(self).cards.slots@[slot as int] is None {
                assert(self.cards.slots@ =~= old(self).cards.slots@);
            }
            if let Some(c0) = old(self).cards.slots@[slot as int] {
                let c1 = slot1->0;
                let c2 = slot2->0;
                assert(c0.take_dma_write_post(c1, wg));
                assert(c1.take_dma_read_request_post(c2, qg));
            }
        }
    }

    /// Apply the card's pending language-card bank swap: its bank goes into
    /// main RAM $C000-$FFFF and the displaced bytes go back to the card.
    fn process_lc_bank_swap(&mut self, slot: usize)
        requires
            old(self).wf(),
            slot < 8,
        ensures
            final(self).wf(),
            *final(self) == (Bus { cards: final(self).cards, main_ram: final(self).main_ram, ..*old(self) }),
            final(self).cards.same_except(old(self).cards, slot as int),
            final(self).cards.same_kind_at(old(self).cards, slot as int),
            old(self).cards.slots@[slot as int] is None ==> final(self).cards.slots@ == old(self).cards.slots@
                && final(self).main_ram@ == old(self).main_ram@,
            old(self).cards.slots@[slot as int] matches Some(c0) ==> swap_applied(
                c0,
                old(self).main_ram@,
                final(self).cards.slots@[slot as int],
                final(self).main_ram@,
            ),
    {
        let ghost ram0 = self.main_ram@;
        let sw = self.cards.take_lc_bank_swap(slot);
        let ghost swg = sw;
        let ghost slot1 = self.cards.slots@[slot as int];
        match sw {
            Some(incoming) => {
                if incoming.len() == 16384 {
                    let mut displaced: Vec<u8> = Vec::new();
                    let mut i: usize = 0;
                    while i < 16384
                        invariant
                            self.wf(),
                            incoming@.len() == 16384,
                            displaced@.len() == i,
                            i <= 16384,
                            ram0.len() == RAM_SIZE,
                            self.main_ram@.len() == RAM_SIZE,
                            displaced@ == ram0.subrange(0xC000, 0xC000 + i),
                            forall|j: int|
                                0 <= j < RAM_SIZE ==> #[trigger] self.main_ram@[j] == (if 0xC000 <= j < 0xC000 + i {
                                    incoming@[j - 0xC000]
                                } else {
                                    ram0[j]
                                }),
                            *self == (Bus { cards: self.cards, main_ram: self.main_ram, ..*old(self) }),
                            self.cards.same_except(old(self).cards, slot as int),
                            self.cards.same_kind_at(old(self).cards, slot as int),
                            self.cards.slots@[slot as int] == slot1,
                        decreases 16384 - i,
                    {
                        displaced.push(self.main_ram[0xC000 + i]);
                        self.main_ram.set(0xC000 + i, incoming[i]);
                        i = i + 1;
                        assert(displaced@ =~= ram0.subrange(0xC000, 0xC000 + i));
                    }
                    assert(self.main_ram@ =~= ram_with(ram0, 0xC000, incoming@));
                    self.cards.store_lc_bank(slot, displaced.as_slice());
                }
            },
            None => {},
        }
        proof {
            if old(self).cards.slots@[slot as int] is None {
                assert(self.cards.slots@ =~= old(self).cards.slots@);
            }
            if let Some(c0) = old(self).cards.slots@[slot as int] {
                assert(c0.take_lc_bank_swap_post(slot1->0, swg));
            }
        }
    }

    /// Read of slot register `reg` ($C090-$C0FF).
    fn slot_switch_read(&mut self, reg: u8, cycles: u64) -> (r: u8)
        requires
            old(self).wf(),
            reg >= 0x90,
        ensures
            final(self).wf(),
            old(self).cards.slots@[reg_slot(reg)] is None ==> r == old(self).floating_bus && *final(self) == *old(self),
            old(self).cards.slots@[reg_slot(reg)] is Some ==> slot_read_done(*old(self), *final(self), reg, cycles, r),
    {
        let slot = (reg / 16 - 8) as usize;
        let lo = reg % 16;
        if self.cards.slots[slot].is_none() {
            return self.floating_bus;
        }
        match self.cards.slot_io_read(slot, lo, cycles) {
            Some(v) => {
                self.process_card_dma(slot);
                self.update_irq_line();
                v
            },
            None => self.floating_bus,
        }
    }

    /// Write to slot register `reg` ($C090-$C0FF).
    fn slot_switch_write(&mut self, reg: u8, val: u8, cycles: u64)
        requires
            old(self).wf(),
            reg >= 0x90,
        ensures
            final(self).wf(),
            old(self).cards.slots@[reg_slot(reg)] is None ==> *final(self) == *old(self),
            old(self).cards.slots@[reg_slot(reg)] is Some ==> slot_write_done(*old(self), *final(self), reg, val, cycles),
    {
        let slot = (reg / 16 - 8) as usize;
        let lo = reg % 16;
        if self.cards.slots[slot].is_none() {
            return;
        }
        if self.cards.slot_io_write(slot, lo, val, cycles) {
            self.process_card_dma(slot);
            self.process_lc_bank_swap(slot);
            self.update_irq_line();
        }
    }

    /// RamWorks III: select aux bank `bank`, adding zeroed banks up to it.
    fn rw3_switch(&mut self, bank: u8)
        requires
            old(self).wf(),
        ensures
            final(self).wf(),
            rw3_selected(*final(self), *old(self), bank),
    {
        if self.rw3_active == bank {
            return;
        }
        let ghost pre = self.rw3_extra@;
        while self.rw3_extra.len() < bank as usize
            invariant
                self.wf(),
                *self == (Bus { rw3_extra: self.rw3_extra, ..*old(self) }),
                self.rw3_extra@.len() >= old(self).rw3_extra@.len(),
                self.rw3_extra@.len() <= (if old(self).rw3_extra@.len() >= bank { old(self).rw3_extra@.len() } else { bank as nat }),
                forall|b: int| 0 <= b < old(self).rw3_extra@.len() ==> #[trigger] self.rw3_extra@[b] == old(self).rw3_extra@[b],
                forall|b: int| old(self).rw3_extra@.len() <= b < self.rw3_extra@.len() ==> (#[trigger] self.rw3_extra@[b])@
                    == Seq::new(RAM_SIZE as nat, |i: int| 0u8),
            decreases bank as usize - self.rw3_extra.len(),
        {
            let fresh = vec![0u8; RAM_SIZE];
            assert(fresh@ =~= Seq::new(RAM_SIZE as nat, |i: int| 0u8));
            self.rw3_extra.push(fresh);
        }
        self.rw3_active = bank;
    }

    /// Read of soft switch `reg` ($C000-$C0FF) at `cycles`.
    pub fn soft_switch_read(&mut self, reg: u8, cycles: u64) -> (r: u8)
        requires
            old(self).wf(),
            reg == 0x70 ==> cycles <= PADDLE_CYCLES_MAX,
        ensures
            final(self).wf(),
            switch_read_post(*old(self), *final(self), reg, cycles, r),
    {
        if reg >= 0x90 {
            return self.slot_switch_read(reg, cycles);
        }
        if reg >= 0x80 {
            self.lc_switch(reg, false);
            return self.floating_bus;
        }
        if self.common_switch(reg, cycles) {
            return self.floating_bus;
        }
        match reg {
            0x00 => self.keyboard_data,
            0x10 => {
                let old_kbd = self.keyboard_data;
                self.keyboard_data = self.keyboard_data & 0x7F;
                old_kbd
            },
            0x11..=0x18 | 0x1B..=0x1F => self.flag_byte(Self::status_flag_of(reg)),
            0x19 => {
                if self.model.is_iic() {
                    if self.vbl_flag { 0x80 } else { 0 }
                } else {
                    let mut offset = cycles.wrapping_sub(self.frame_start_cycles);
                    if offset >= CYCLES_PER_FRAME {
                        let frames = offset / CYCLES_PER_FRAME;
                        self.frame_start_cycles = self.frame_start_cycles.wrapping_add(frames * CYCLES_PER_FRAME);
                        offset = offset - frames * CYCLES_PER_FRAME;
                    }
                    if offset < CYCLES_VISIBLE { 0x80 } else { 0 }
                }
            },
            0x1A => {
                if self.mode.bits & MemMode::MF_GRAPHICS == MemMode::MF_GRAPHICS { 0 } else { 0x80 }
            },
            0x60 | 0x66 | 0x67 => 0,
            0x61 => if self.gamepad.effective_buttons() & 0x01 != 0 { 0x80 } else { 0 },
            0x62 => if self.gamepad.effective_buttons() & 0x02 != 0 { 0x80 } else { 0 },
            0x63 => if self.gamepad.effective_buttons() & 0x04 != 0 { 0x80 } else { 0 },
            0x64 => if cycles < self.gamepad.paddle0_end { 0x80 } else { 0 },
            0x65 => if cycles < self.gamepad.paddle1_end { 0x80 } else { 0 },
            0x7D | 0x7E => self.flag_byte(MemMode::MF_IOUDIS),
            0x7F => self.flag_byte(MemMode::MF_DHIRES),
            _ => self.floating_bus,
        }
    }

    /// Write of `val` to soft switch `reg` ($C000-$C0FF) at `cycles`.
    pub fn soft_switch_write(&mut self, reg: u8, val: u8, cycles: u64)
        requires
            old(self).wf(),
            reg == 0x70 ==> cycles <= PADDLE_CYCLES_MAX,
        ensures
            final(self).wf(),
            switch_write_post(*old(self), *final(self), reg, val, cycles),
    {
        if reg >= 0x90 {
            self.slot_switch_write(reg, val, cycles);
            return;
        }
        if reg >= 0x80 {
            self.lc_switch(reg, true);
            return;
        }
        if reg == 0x73 {
            self.rw3_switch(val);
            return;
        }
        if self.common_switch(reg, cycles) {
            return;
        }
        let bits = self.mode.bits;
        let iic = self.model.is_iic();
        proof {
            crate::bits::lemma_mode_facts(bits, 0, 0);
        }
        match reg {
            0x00 => self.set_bits(bits & !MemMode::MF_80STORE),
            0x01 => self.set_bits(bits | MemMode::MF_80STORE),
            0x02 => self.set_bits(bits & !MemMode::MF_AUXREAD),
            0x03 => self.set_bits(bits | MemMode::MF_AUXREAD),
            0x04 => self.set_bits(bits & !MemMode::MF_AUXWRITE),
            0x05 => self.set_bits(bits | MemMode::MF_AUXWRITE),
            0x06 => {
                if !iic {
                    self.set_bits(bits & !MemMode::MF_INTCXROM);
                }
            },
            0x07 => {
                if !iic {
                    self.set_bits(bits | MemMode::MF_INTCXROM);
                }
            },
            0x08 => self.set_bits(bits & !MemMode::MF_ALTZP),
            0x09 => self.set_bits(bits | MemMode::MF_ALTZP),
            0x0A => {
                if !iic {
                    self.set_bits(bits & !MemMode::MF_SLOTC3ROM);
                }
            },
            0x0B => {
                if !iic {
                    self.set_bits(bits | MemMode::MF_SLOTC3ROM);
                }
            },
            0x0C => self.set_video_bits(bits & !MemMode::MF_VID80, MemMode::MF_VID80),
            0x0D => self.set_video_bits(bits | MemMode::MF_VID80, MemMode::MF_VID80),
            0x0E => self.set_video_bits(bits & !MemMode::MF_ALTCHAR, MemMode::MF_ALTCHAR),
            0x0F => self.set_video_bits(bits | MemMode::MF_ALTCHAR, MemMode::MF_ALTCHAR),
            0x10 => self.keyboard_data = self.keyboard_data & 0x7F,
            0x7E => self.set_video_bits(bits | MemMode::MF_IOUDIS, MemMode::MF_IOUDIS),
            0x7F => self.set_video_bits(bits & !MemMode::MF_IOUDIS, MemMode::MF_IOUDIS),
            _ => {},
        }
    }

    /// Read of the card ROM space ($C100-$CFFF).
    fn cx_read(&mut self, addr: u16, cycles: u64) -> (r: u8)
        requires
            old(self).wf(),
            0xC100 <= addr,
        ensures
            final(self).wf(),
            cx_read_post(*old(self), *final(self), addr, cycles, r),
    {
        let slot = ((addr / 256) % 16) as usize;
        if slot >= 8 || self.cards.slots[slot].is_none() {
            return self.floating_bus;
        }
        match self.cards.io_read(slot, (addr % 256) as u8, cycles) {
            Some(v) => v,
            None => self.floating_bus,
        }
    }

    /// Write to the card ROM space ($C100-$CFFF).
    fn cx_write(&mut self, addr: u16, val: u8, cycles: u64)
        requires
            old(self).wf(),
            0xC100 <= addr,
        ensures
            final(self).wf(),
            cx_write_post(*old(self), *final(self), addr, val, cycles),
    {
        let slot = ((addr / 256) % 16) as usize;
        if slot >= 8 || self.cards.slots[slot].is_none() {
            return;
        }
        self.cards.io_write(slot, (addr % 256) as u8, val, cycles);
    }

    /// Read of `addr` at CPU cycle `cycles`, with its I/O side effects.
    pub fn read(&mut self, addr: u16, cycles: u64) -> (r: u8)
        requires
            old(self).wf(),
            addr == 0xC070 ==> cycles <= PADDLE_CYCLES_MAX,
        ensures
            final(self).wf(),
            read_post(*old(self), *final(self), addr, cycles, r),
    {
        let page = (addr / 256) as usize;
        match self.pages_r[page] {
            PageSrc::Io => {
                if addr < 0xC100 {
                    self.soft_switch_read((addr % 256) as u8, cycles)
                } else {
                    self.cx_read(addr, cycles)
                }
            },
            _ => self.read_raw(addr),
        }
    }

    /// Write of `val` to `addr` at CPU cycle `cycles`, with its I/O side
    /// effects.
    pub fn write(&mut self, addr: u16, val: u8, cycles: u64)
        requires
            old(self).wf(),
            addr == 0xC070 ==> cycles <= PADDLE_CYCLES_MAX,
        ensures
            final(self).wf(),
            write_post(*old(self), *final(self), addr, val, cycles),
    {
        let page = (addr / 256) as usize;
        match self.pages_w[page] {
            PageDst::Inhibit => {
                if page == 0xC0 {
                    self.soft_switch_write((addr % 256) as u8, val, cycles);
                } else if 0xC1 <= page && page <= 0xCF {
                    self.cx_write(addr, val, cycles);
                }
            },
            _ => self.write_raw(addr, val),
        }
    }

    /// Note that a video frame may have ended by `cycles`: when a whole
    /// frame has passed since the tracked start, the start advances by one
    /// frame, and on the //c the VBL interrupt flag latches.
    pub fn advance_frame(&mut self, cycles: u64)
        requires
            old(self).wf(),
        ensures
            final(self).wf(),
            wsub64(cycles, old(self).frame_start_cycles) < CYCLES_PER_FRAME ==> *final(self) == *old(self),
            wsub64(cycles, old(self).frame_start_cycles) >= CYCLES_PER_FRAME && !is_iic(*old(self)) ==> *final(self)
                == (Bus { frame_start_cycles: wadd64(old(self).frame_start_cycles, CYCLES_PER_FRAME), ..*old(self) }),
            wsub64(cycles, old(self).frame_start_cycles) >= CYCLES_PER_FRAME && is_iic(*old(self)) ==> *final(self)
                == (Bus {
                frame_start_cycles: wadd64(old(self).frame_start_cycles, CYCLES_PER_FRAME),
                vbl_flag: true,
                irq_line: irq_with(*old(self), old(self).vbl_irq_enabled, true),
                ..*old(self)
            }),
    {
        if cycles.wrapping_sub(self.frame_start_cycles) >= CYCLES_PER_FRAME {
            self.frame_start_cycles = self.frame_start_cycles.wrapping_add(CYCLES_PER_FRAME);
            if self.model.is_iic() {
                self.vbl_flag = true;
                self.update_irq_line();
            }
        }
    }

    /// A snapshot of RAM, the switches and the speaker.
    pub fn take_snapshot(&self) -> (r: BusSnapshot)
        requires
            self.wf(),
        ensures
            r.main_ram@ == self.main_ram@,
            r.aux_ram@ == self.aux_ram@,
            r.mode == self.mode.bits,
            r.speaker_state == self.speaker_state,
    {
        BusSnapshot {
            main_ram: copy_bytes(&self.main_ram),
            aux_ram: copy_bytes(&self.aux_ram),
            mode: self.mode.bits,
            speaker_state: self.speaker_state,
        }
    }

    /// Restore RAM, the switches (the bits naming no switch dropped) and
    /// the speaker from a snapshot.
    pub fn restore_snapshot(&mut self, snap: &BusSnapshot)
        requires
            old(self).wf(),
            snap.main_ram@.len() == RAM_SIZE,
            snap.aux_ram@.len() == RAM_SIZE,
        ensures
            final(self).wf(),
            final(self).main_ram@ == snap.main_ram@,
            final(self).aux_ram@ == snap.aux_ram@,
            final(self).mode.bits == snap.mode & MEM_MODE_ALL,
            final(self).speaker_state == snap.speaker_state,
            *final(self) == (Bus {
                main_ram: final(self).main_ram,
                aux_ram: final(self).aux_ram,
                mode: final(self).mode,
                speaker_state: final(self).speaker_state,
                pages_r: final(self).pages_r,
                pages_w: final(self).pages_w,
                ..*old(self)
            }),
    {
        let mut i: usize = 0;
        while i < RAM_SIZE
            invariant
                self.wf_mem(),
                i <= RAM_SIZE,
                snap.main_ram@.len() == RAM_SIZE,
                snap.aux_ram@.len() == RAM_SIZE,
                forall|j: int| 0 <= j < i ==> #[trigger] self.main_ram@[j] == snap.main_ram@[j],
                forall|j: int| 0 <= j < i ==> #[trigger] self.aux_ram@[j] == snap.aux_ram@[j],
                *self == (Bus { main_ram: self.main_ram, aux_ram: self.aux_ram, ..*old(self) }),
            decreases RAM_SIZE - i,
        {
            self.main_ram.set(i, snap.main_ram[i]);
            self.aux_ram.set(i, snap.aux_ram[i]);
            i = i + 1;
        }
        assert(self.main_ram@ =~= snap.main_ram@);
        assert(self.aux_ram@ =~= snap.aux_ram@);
        self.mode = MemMode::from_bits_truncate(snap.mode);
        self.speaker_state = snap.speaker_state;
        self.rebuild_page_tables();
    }

    /// Load a disk image into drive `drive` of the Disk II card in `slot`;
    /// a 2IMG file is unwrapped first and loaded by its image format.
    /// `false` when the slot holds no Disk II card or the image is refused.
    pub fn load_disk(&mut self, slot: usize, drive: usize, data: &[u8], ext: &str) -> (r: bool)
        requires
            old(self).wf(),
        ensures
            final(self).wf(),
            slot >= 8 || !(old(self).cards.slots@[slot as int] matches Some(c) && c is Disk2) ==> !r
                && *final(self) == *old(self),
            *final(self) == (Bus { cards: final(self).cards, ..*old(self) }),
            slot < 8 && (old(self).cards.slots@[slot as int] matches Some(c) && c is Disk2) ==> (old(
                self,
            ).cards.slots@[slot as int] matches Some(c0) && final(self).cards.slots@[slot as int] matches Some(c1)
                && c0.load_disk_post(drive, unwrapped_2img(data@), ext_2img(data@, ext.spec_bytes()), c1, r)
                && final(self).cards.same_except(
                old(self).cards,
                slot as int,
            )),
    {
        if slot >= 8 {
            return false;
        }
        let is_disk2 = match &self.cards.slots[slot] {
            Some(SlotCard::Disk2(_)) => true,
            Some(_) => false,
            None => false,
        };
        if !is_disk2 {
            return false;
        }
        let ext2 = image_ext(data, ext);
        let image = unwrap_2img(slice_to_vec(data));
        match self.cards.load_disk(slot, drive, image.as_slice(), ext2) {
            Some(ok) => ok,
            None => false,
        }
    }

    /// Set the write-back path of drive `drive` of the Disk II card in
    /// `slot`.
    pub fn set_disk_path(&mut self, slot: usize, drive: usize, path: String)
        requires
            old(self).wf(),
        ensures
            final(self).wf(),
            slot >= 8 || old(self).cards.slots@[slot as int] is None ==> *final(self) == *old(self),
            *final(self) == (Bus { cards: final(self).cards, ..*old(self) }),
            slot < 8 ==> (old(self).cards.slots@[slot as int] matches Some(c0) ==> (final(self).cards.slots@[
                slot as int] matches Some(c1) && c0.set_disk_path_post(drive, path, c1) && final(self).cards.same_except(
                old(self).cards,
                slot as int,
            ))),
    {
        if slot >= 8 || self.cards.slots[slot].is_none() {
            return;
        }
        self.cards.set_disk_path(slot, drive, path);
    }

    /// Eject the disk of drive `drive` of the Disk II card in `slot`.
    pub fn eject_disk(&mut self, slot: usize, drive: usize)
        requires
            old(self).wf(),
        ensures
            final(self).wf(),
            slot >= 8 || old(self).cards.slots@[slot as int] is None ==> *final(self) == *old(self),
            *final(self) == (Bus { cards: final(self).cards, ..*old(self) }),
            slot < 8 ==> (old(self).cards.slots@[slot as int] matches Some(c0) ==> (final(self).cards.slots@[
                slot as int] matches Some(c1) && c0.eject_disk_post(drive, c1) && final(self).cards.same_except(
                old(self).cards,
                slot as int,
            ))),
    {
        if slot >= 8 || self.cards.slots[slot].is_none() {
            return;
        }
        self.cards.eject_disk(slot, drive);
    }

    /// Whether a disk motor spins on any card.
    pub fn disk_motor_on(&self) -> (r: bool)
        requires
            self.wf(),
        ensures
            r == exists|i: int| 0 <= i < 8 && slot_spins(#[trigger] self.cards.slots@[i]),
    {
        self.cards.disk_motor_on()
    }
}

/// A copy of the bytes of `v`.
pub fn copy_bytes(v: &Vec<u8>) -> (r: Vec<u8>)
    ensures
        r@ == v@,
{
    let mut out: Vec<u8> = Vec::new();
    let mut i: usize = 0;
    while i < v.len()
        invariant
            i <= v@.len(),
            out@ == v@.subrange(0, i as int),
        decreases v@.len() - i,
    {
        out.push(v[i]);
        i = i + 1;
    }
    assert(out@ =~= v@);
    out
}

} // verus!
