//! The Apple II memory bus: RAM, ROM, the page routing tables and the
//! cards.

use vstd::prelude::*;
use crate::bus::{BusSnapshot, GamepadState, MemMode, PageDst, PageSrc, MEM_MODE_ALL};
use crate::card::CardManager;
use crate::model::Apple2Model;

verus! {

/// Bytes in one 64K bank of RAM.
pub const RAM_SIZE: usize = 65536;
/// Pages in the address space.
pub const NUM_PAGES: usize = 256;
/// Speaker toggles kept between two drains by the audio side.
pub const SPEAKER_TOGGLES_MAX: usize = 65536;
/// CPU cycles in one NTSC video frame (262 lines of 65 cycles).
pub const CYCLES_PER_FRAME: u64 = 17030;
/// CPU cycles of the visible part of a frame (192 lines of 65 cycles).
pub const CYCLES_VISIBLE: u64 = 12480;
/// Last CPU cycle at which the paddle one-shots can still be started: the
/// longest one-shot (255 * 11 + 3 cycles) must end within a `u64`.
pub const PADDLE_CYCLES_MAX: u64 = 0xFFFF_FFFF_FFFF_F507;

/// The switch bits `m` are all set in `bits`.
pub open spec fn sw_on(bits: u32, m: u32) -> bool {
    bits & m == m
}

/// Language-card RAM (and zero page) lives in aux memory with ALTZP, in
/// main memory without.
pub open spec fn lc_src(bits: u32, base: int) -> PageSrc {
    if sw_on(bits, MemMode::MF_ALTZP) {
        PageSrc::Aux(base as u16)
    } else {
        PageSrc::Main(base as u16)
    }
}

/// Write side of `lc_src`.
pub open spec fn lc_dst(bits: u32, base: int) -> PageDst {
    if sw_on(bits, MemMode::MF_ALTZP) {
        PageDst::Aux(base as u16)
    } else {
        PageDst::Main(base as u16)
    }
}

/// With 80STORE, PAGE2 picks the bank of the text page ($0400-$07FF) and,
/// with HIRES too, of hi-res page 1 ($2000-$3FFF).
pub open spec fn store80_page(bits: u32, page: int) -> bool {
    sw_on(bits, MemMode::MF_80STORE) && ((4 <= page < 8) || (sw_on(bits, MemMode::MF_HIRES) && 0x20
        <= page < 0x40))
}

/// The language-card base address of page `page` ($D0-$FF): bank 1 of
/// $D000-$DFFF is kept at $C000-$CFFF.
pub open spec fn lc_base(bits: u32, page: int) -> int {
    if page < 0xE0 && !sw_on(bits, MemMode::MF_BANK2) {
        page * 256 - 0x1000
    } else {
        page * 256
    }
}

/// Where reads of page `page` go, for switch bits `bits`.
pub open spec fn page_src(bits: u32, page: int) -> PageSrc {
    if page < 2 {
        lc_src(bits, page * 256)
    } else if page < 0xC0 {
        if store80_page(bits, page) {
            if sw_on(bits, MemMode::MF_PAGE2) {
                PageSrc::Aux((page * 256) as u16)
            } else {
                PageSrc::Main((page * 256) as u16)
            }
        } else if sw_on(bits, MemMode::MF_AUXREAD) {
            PageSrc::Aux((page * 256) as u16)
        } else {
            PageSrc::Main((page * 256) as u16)
        }
    } else if page == 0xC0 {
        PageSrc::Io
    } else if page < 0xD0 {
        if sw_on(bits, MemMode::MF_INTCXROM) {
            PageSrc::Rom((page * 256) as u16)
        } else {
            PageSrc::Io
        }
    } else if sw_on(bits, MemMode::MF_HIGHRAM) {
        lc_src(bits, lc_base(bits, page))
    } else {
        PageSrc::Rom((page * 256) as u16)
    }
}

/// Where writes to page `page` go, for switch bits `bits`.
pub open spec fn page_dst(bits: u32, page: int) -> PageDst {
    if page < 2 {
        lc_dst(bits, page * 256)
    } else if page < 0xC0 {
        if store80_page(bits, page) {
            if sw_on(bits, MemMode::MF_PAGE2) {
                PageDst::Aux((page * 256) as u16)
            } else {
                PageDst::Main((page * 256) as u16)
            }
        } else if sw_on(bits, MemMode::MF_AUXWRITE) {
            PageDst::Aux((page * 256) as u16)
        } else {
            PageDst::Main((page * 256) as u16)
        }
    } else if page < 0xD0 {
        PageDst::Inhibit
    } else if sw_on(bits, MemMode::MF_WRITERAM) {
        lc_dst(bits, lc_base(bits, page))
    } else {
        PageDst::Inhibit
    }
}

/// The switches a machine starts with: language-card bank 2 and write
/// enable, and on the //c the internal $Cn ROM.
pub open spec fn power_on_bits(model: Apple2Model) -> u32 {
    if model == Apple2Model::AppleIIc || model == Apple2Model::AppleIIcPlus {
        MemMode::MF_BANK2 | MemMode::MF_WRITERAM | MemMode::MF_INTCXROM
    } else {
        MemMode::MF_BANK2 | MemMode::MF_WRITERAM
    }
}

/// The Apple II memory bus.
pub struct Bus {
    /// Main 64K RAM.
    pub main_ram: Vec<u8>,
    /// Auxiliary 64K RAM (//e and later).
    pub aux_ram: Vec<u8>,
    /// System ROM, mapped from $C000 (a 32K //c ROM holds two banks).
    pub rom: Vec<u8>,
    /// Peripheral ROM space $C000-$CFFF.
    pub cx_rom: Vec<u8>,
    /// Memory-mode soft switches.
    pub mode: MemMode,
    /// The machine model.
    pub model: Apple2Model,
    /// Read routing, one entry per 256-byte page.
    pub pages_r: Vec<PageSrc>,
    /// Write routing, one entry per 256-byte page.
    pub pages_w: Vec<PageDst>,
    /// The cards in the slots.
    pub cards: CardManager,
    /// Value of the floating bus.
    pub floating_bus: u8,
    /// Keyboard latch: bit 7 set while a key waits, bits 0-6 its ASCII.
    pub keyboard_data: u8,
    /// Speaker cone position, flipped by each $C030 access.
    pub speaker_state: bool,
    /// Cycle of each speaker toggle since the audio side last drained them.
    pub speaker_toggles: Vec<u64>,
    /// Joystick / paddle state.
    pub gamepad: GamepadState,
    /// RamWorks III: active aux bank (0 is `aux_ram`).
    pub rw3_active: u8,
    /// RamWorks III: extra aux banks; bank `n` is `rw3_extra[n - 1]`.
    pub rw3_extra: Vec<Vec<u8>>,
    /// Annunciator outputs 0-3.
    pub ann: [bool; 4],
    /// The IRQ line: any card's IRQ, or the //c VBL interrupt.
    pub irq_line: bool,
    /// CPU cycle at which the current video frame began.
    pub frame_start_cycles: u64,
    /// Language card: the last access was a read of an odd switch, so a
    /// second one enables writing.
    pub lc_prewrite: bool,
    /// Apple //c: VBL interrupt pending, acknowledged by $C070.
    pub vbl_flag: bool,
    /// Apple //c: VBL interrupt enabled ($C05B) or masked ($C05A).
    pub vbl_irq_enabled: bool,
}

impl Bus {
    /// The storage invariant: 64K banks, 256-entry page tables, cards
    /// well formed.
    pub open spec fn wf_mem(&self) -> bool {
        &&& self.main_ram@.len() == RAM_SIZE
        &&& self.aux_ram@.len() == RAM_SIZE
        &&& self.pages_r@.len() == NUM_PAGES
        &&& self.pages_w@.len() == NUM_PAGES
        &&& self.cards.wf()
        &&& self.rw3_active as int <= self.rw3_extra@.len()
        &&& forall|b: int| 0 <= b < self.rw3_extra@.len() ==> (#[trigger] self.rw3_extra@[b])@.len()
            == RAM_SIZE
        &&& self.speaker_toggles@.len() <= SPEAKER_TOGGLES_MAX
    }

    /// The page tables route every page as the switches say.
    pub open spec fn pages_match(&self) -> bool {
        &&& forall|p: int| 0 <= p < NUM_PAGES ==> #[trigger] self.pages_r@[p] == page_src(self.mode.bits, p)
        &&& forall|p: int| 0 <= p < NUM_PAGES ==> #[trigger] self.pages_w@[p] == page_dst(self.mode.bits, p)
    }

    /// The bus invariant.
    pub open spec fn wf(&self) -> bool {
        self.wf_mem() && self.pages_match()
    }

    /// Byte `idx` of the active aux bank.
    pub open spec fn aux_byte(&self, idx: int) -> u8 {
        if self.rw3_active == 0 {
            self.aux_ram@[idx]
        } else {
            self.rw3_extra@[self.rw3_active - 1]@[idx]
        }
    }

    /// The index into `rom` of ROM address `addr`: a 32K ROM holds the
    /// standard bank in its upper half and the alternate bank (ALTROM0) in
    /// its lower half.
    pub open spec fn rom_index(&self, addr: int) -> int {
        if self.rom@.len() >= 0x8000 && !sw_on(self.mode.bits, MemMode::MF_ALTROM0) {
            0x4000 + addr - 0xC000
        } else {
            addr - 0xC000
        }
    }

    /// The ROM byte at address `addr`, 0 past the image.
    pub open spec fn rom_byte(&self, addr: int) -> u8 {
        let i = self.rom_index(addr);
        if 0 <= i < self.rom@.len() {
            self.rom@[i]
        } else {
            0
        }
    }

    /// What a read of `addr` gives where no I/O takes place: the routed
    /// RAM or ROM byte, or the floating bus.
    pub open spec fn peek(&self, addr: u16) -> u8 {
        let lo = (addr % 256) as int;
        match self.pages_r@[(addr / 256) as int] {
            PageSrc::Main(base) => self.main_ram@[base + lo],
            PageSrc::Aux(base) => self.aux_byte(base + lo),
            PageSrc::Rom(base) => self.rom_byte(base + lo),
            PageSrc::Io => self.floating_bus,
            PageSrc::FloatingBus => self.floating_bus,
        }
    }

    /// Everything but the page tables and the switches is as in `other`.
    pub open spec fn same_but_mode(&self, other: Bus) -> bool {
        &&& self.main_ram == other.main_ram
        &&& self.aux_ram == other.aux_ram
        &&& self.rom == other.rom
        &&& self.cx_rom == other.cx_rom
        &&& self.model == other.model
        &&& self.cards == other.cards
        &&& self.floating_bus == other.floating_bus
        &&& self.keyboard_data == other.keyboard_data
        &&& self.speaker_state == other.speaker_state
        &&& self.speaker_toggles == other.speaker_toggles
        &&& self.gamepad == other.gamepad
        &&& self.rw3_active == other.rw3_active
        &&& self.rw3_extra == other.rw3_extra
        &&& self.ann == other.ann
        &&& self.irq_line == other.irq_line
        &&& self.frame_start_cycles == other.frame_start_cycles
        &&& self.lc_prewrite == other.lc_prewrite
        &&& self.vbl_flag == other.vbl_flag
        &&& self.vbl_irq_enabled == other.vbl_irq_enabled
    }

    /// A bus for `model` with zeroed RAM, the power-on switches and empty
    /// slots.
    pub fn new(rom: Vec<u8>, model: Apple2Model) -> (r: Self)
        ensures
            r.wf(),
            r.rom == rom,
            r.model == model,
            r.mode.bits == power_on_bits(model),
            r.main_ram@ == Seq::new(RAM_SIZE as nat, |i: int| 0u8),
            r.aux_ram@ == Seq::new(RAM_SIZE as nat, |i: int| 0u8),
            forall|i: int| 0 <= i < 8 ==> #[trigger] r.cards.slots@[i] is None,
            r.cards.aux is None,
            r.floating_bus == 0 && r.keyboard_data == 0,
            !r.speaker_state && r.speaker_toggles@.len() == 0,
            r.rw3_active == 0 && r.rw3_extra@.len() == 0,
            !r.irq_line && r.frame_start_cycles == 0,
            !r.lc_prewrite && !r.vbl_flag && !r.vbl_irq_enabled,
            r.ann@ == seq![false, false, false, false],
    {
        let is_iic = model.is_iic();
        let mut bits: u32 = MemMode::MF_BANK2 | MemMode::MF_WRITERAM;
        if is_iic {
            bits = bits | MemMode::MF_INTCXROM;
        }
        let mut pages_r: Vec<PageSrc> = Vec::new();
        let mut pages_w: Vec<PageDst> = Vec::new();
        let mut i: usize = 0;
        while i < NUM_PAGES
            invariant
                i <= NUM_PAGES,
                pages_r@.len() == i,
                pages_w@.len() == i,
            decreases NUM_PAGES - i,
        {
            pages_r.push(PageSrc::Main(0));
            pages_w.push(PageDst::Main(0));
            i = i + 1;
        }
        let mut bus = Bus {
            main_ram: vec![0u8; RAM_SIZE],
            aux_ram: vec![0u8; RAM_SIZE],
            rom,
            cx_rom: vec![0u8; 0x1000],
            mode: MemMode { bits },
            model,
            pages_r,
            pages_w,
            cards: CardManager::new(),
            floating_bus: 0,
            keyboard_data: 0,
            speaker_state: false,
            speaker_toggles: Vec::new(),
            gamepad: GamepadState::default(),
            rw3_active: 0,
            rw3_extra: Vec::new(),
            ann: [false, false, false, false],
            irq_line: false,
            frame_start_cycles: 0,
            lc_prewrite: false,
            vbl_flag: false,
            vbl_irq_enabled: false,
        };
        assert(bus.main_ram@ =~= Seq::new(RAM_SIZE as nat, |i: int| 0u8));
        assert(bus.aux_ram@ =~= Seq::new(RAM_SIZE as nat, |i: int| 0u8));
        bus.rebuild_page_tables();
        bus
    }

    /// Where reads of page `page` go under the current switches.
    fn page_src_of(&self, page: usize) -> (r: PageSrc)
        requires
            page < NUM_PAGES,
        ensures
            r == page_src(self.mode.bits, page as int),
    {
        let bits = self.mode.bits;
        let altzp = bits & MemMode::MF_ALTZP == MemMode::MF_ALTZP;
        let base: u16 = (page * 256) as u16;
        if page < 2 {
            if altzp { PageSrc::Aux(base) } else { PageSrc::Main(base) }
        } else if page < 0xC0 {
            let store80 = bits & MemMode::MF_80STORE == MemMode::MF_80STORE
                && ((4 <= page && page < 8) || (bits & MemMode::MF_HIRES == MemMode::MF_HIRES
                && 0x20 <= page && page < 0x40));
            if store80 {
                if bits & MemMode::MF_PAGE2 == MemMode::MF_PAGE2 {
                    PageSrc::Aux(base)
                } else {
                    PageSrc::Main(base)
                }
            } else if bits & MemMode::MF_AUXREAD == MemMode::MF_AUXREAD {
                PageSrc::Aux(base)
            } else {
                PageSrc::Main(base)
            }
        } else if page == 0xC0 {
            PageSrc::Io
        } else if page < 0xD0 {
            if bits & MemMode::MF_INTCXROM == MemMode::MF_INTCXROM {
                PageSrc::Rom(base)
            } else {
                PageSrc::Io
            }
        } else if bits & MemMode::MF_HIGHRAM == MemMode::MF_HIGHRAM {
            let lc: u16 = if page < 0xE0 && bits & MemMode::MF_BANK2 != MemMode::MF_BANK2 {
                base - 0x1000
            } else {
                base
            };
            if altzp { PageSrc::Aux(lc) } else { PageSrc::Main(lc) }
        } else {
            PageSrc::Rom(base)
        }
    }

    /// Where writes to page `page` go under the current switches.
    fn page_dst_of(&self, page: usize) -> (r: PageDst)
        requires
            page < NUM_PAGES,
        ensures
            r == page_dst(self.mode.bits, page as int),
    {
        let bits = self.mode.bits;
        let altzp = bits & MemMode::MF_ALTZP == MemMode::MF_ALTZP;
        let base: u16 = (page * 256) as u16;
        if page < 2 {
            if altzp { PageDst::Aux(base) } else { PageDst::Main(base) }
        } else if page < 0xC0 {
            let store80 = bits & MemMode::MF_80STORE == MemMode::MF_80STORE
                && ((4 <= page && page < 8) || (bits & MemMode::MF_HIRES == MemMode::MF_HIRES
                && 0x20 <= page && page < 0x40));
            if store80 {
                if bits & MemMode::MF_PAGE2 == MemMode::MF_PAGE2 {
                    PageDst::Aux(base)
                } else {
                    PageDst::Main(base)
                }
            } else if bits & MemMode::MF_AUXWRITE == MemMode::MF_AUXWRITE {
                PageDst::Aux(base)
            } else {
                PageDst::Main(base)
            }
        } else if page < 0xD0 {
            PageDst::Inhibit
        } else if bits & MemMode::MF_WRITERAM == MemMode::MF_WRITERAM {
            let lc: u16 = if page < 0xE0 && bits & MemMode::MF_BANK2 != MemMode::MF_BANK2 {
                base - 0x1000
            } else {
                base
            };
            if altzp { PageDst::Aux(lc) } else { PageDst::Main(lc) }
        } else {
            PageDst::Inhibit
        }
    }

    /// Rebuild the page routing tables from the switches.
    pub fn rebuild_page_tables(&mut self)
        requires
            old(self).wf_mem(),
        ensures
            final(self).wf(),
            final(self).mode == old(self).mode,
            final(self).same_but_mode(*old(self)),
    {
        let mut p: usize = 0;
        while p < NUM_PAGES
            invariant
                self.wf_mem(),
                p <= NUM_PAGES,
                self.mode == old(self).mode,
                self.same_but_mode(*old(self)),
                forall|q: int| 0 <= q < p ==> #[trigger] self.pages_r@[q] == page_src(self.mode.bits, q),
                forall|q: int| 0 <= q < p ==> #[trigger] self.pages_w@[q] == page_dst(self.mode.bits, q),
            decreases NUM_PAGES - p,
        {
            let src = self.page_src_of(p);
            let dst = self.page_dst_of(p);
            self.pages_r.set(p, src);
            self.pages_w.set(p, dst);
            p = p + 1;
        }
    }

    /// Everything but RAM contents is as in `other`.
    pub open spec fn same_but_ram(&self, other: Bus) -> bool {
        &&& self.rom == other.rom
        &&& self.cx_rom == other.cx_rom
        &&& self.mode == other.mode
        &&& self.model == other.model
        &&& self.pages_r == other.pages_r
        &&& self.pages_w == other.pages_w
        &&& self.cards == other.cards
        &&& self.floating_bus == other.floating_bus
        &&& self.keyboard_data == other.keyboard_data
        &&& self.speaker_state == other.speaker_state
        &&& self.speaker_toggles == other.speaker_toggles
        &&& self.gamepad == other.gamepad
        &&& self.rw3_active == other.rw3_active
        &&& self.ann == other.ann
        &&& self.irq_line == other.irq_line
        &&& self.frame_start_cycles == other.frame_start_cycles
        &&& self.lc_prewrite == other.lc_prewrite
        &&& self.vbl_flag == other.vbl_flag
        &&& self.vbl_irq_enabled == other.vbl_irq_enabled
    }

    /// `self` is `old` with byte `idx` of the active aux bank set to `val`.
    pub open spec fn aux_stored(&self, old: Bus, idx: int, val: u8) -> bool {
        &&& self.main_ram == old.main_ram
        &&& self.rw3_extra@.len() == old.rw3_extra@.len()
        &&& if old.rw3_active == 0 {
            &&& self.aux_ram@ == old.aux_ram@.update(idx, val)
            &&& self.rw3_extra == old.rw3_extra
        } else {
            &&& self.aux_ram == old.aux_ram
            &&& forall|b: int| 0 <= b < old.rw3_extra@.len() && b != old.rw3_active - 1
                ==> #[trigger] self.rw3_extra@[b] == old.rw3_extra@[b]
            &&& self.rw3_extra@[old.rw3_active - 1]@ == old.rw3_extra@[old.rw3_active - 1]@.update(idx, val)
        }
    }

    /// `self` is `old` after a store of `val` to `addr` through the write
    /// routing: into main RAM, into the active aux bank, or nowhere.
    pub open spec fn stored(&self, old: Bus, addr: u16, val: u8) -> bool {
        let lo = (addr % 256) as int;
        &&& self.same_but_ram(old)
        &&& match old.pages_w@[(addr / 256) as int] {
            PageDst::Main(base) => self.main_ram@ == old.main_ram@.update(base + lo, val)
                && self.aux_ram == old.aux_ram && self.rw3_extra == old.rw3_extra,
            PageDst::Aux(base) => self.aux_stored(old, base + lo, val),
            PageDst::Inhibit => self.main_ram == old.main_ram && self.aux_ram == old.aux_ram
                && self.rw3_extra == old.rw3_extra,
        }
    }

    /// Byte `idx` of the active aux bank (aux RAM or a RamWorks bank).
    fn aux_read(&self, idx: usize) -> (r: u8)
        requires
            self.wf_mem(),
            idx < RAM_SIZE,
        ensures
            r == self.aux_byte(idx as int),
    {
        if self.rw3_active == 0 {
            self.aux_ram[idx]
        } else {
            self.rw3_extra[(self.rw3_active - 1) as usize][idx]
        }
    }

    /// Store `val` at byte `idx` of the active aux bank.
    fn aux_write(&mut self, idx: usize, val: u8)
        requires
            old(self).wf_mem(),
            idx < RAM_SIZE,
        ensures
            final(self).wf_mem(),
            final(self).aux_stored(*old(self), idx as int, val),
            final(self).same_but_ram(*old(self)),
    {
        if self.rw3_active == 0 {
            self.aux_ram.set(idx, val);
        } else {
            let k = (self.rw3_active - 1) as usize;
            let ghost pre = self.rw3_extra@;
            self.rw3_extra[k].set(idx, val);
            assert forall|b: int| 0 <= b < self.rw3_extra@.len() implies (#[trigger] self.rw3_extra@[b])@.len()
                == RAM_SIZE by {
                if b != k {
                    assert(self.rw3_extra@[b] == pre[b]);
                }
            }
        }
    }

    /// The byte at `addr`, with no I/O side effect: I/O pages read as the
    /// floating bus.
    pub fn read_raw(&self, addr: u16) -> (r: u8)
        requires
            self.wf(),
        ensures
            r == self.peek(addr),
    {
        let page = (addr / 256) as usize;
        let lo = (addr % 256) as usize;
        match self.pages_r[page] {
            PageSrc::Main(base) => self.main_ram[base as usize + lo],
            PageSrc::Aux(base) => self.aux_read(base as usize + lo),
            PageSrc::Rom(base) => self.rom_read(base as usize + lo),
            PageSrc::Io => self.floating_bus,
            PageSrc::FloatingBus => self.floating_bus,
        }
    }

    /// The ROM byte at address `addr` ($C000-$FFFF).
    fn rom_read(&self, addr: usize) -> (r: u8)
        requires
            addr < RAM_SIZE,
        ensures
            r == self.rom_byte(addr as int),
    {
        let idx: usize = if self.rom.len() >= 0x8000 && self.mode.bits & MemMode::MF_ALTROM0
            != MemMode::MF_ALTROM0 {
            if addr + 0x4000 >= 0xC000 {
                addr + 0x4000 - 0xC000
            } else {
                return 0;
            }
        } else {
            if addr >= 0xC000 {
                addr - 0xC000
            } else {
                return 0;
            }
        };
        if idx < self.rom.len() {
            self.rom[idx]
        } else {
            0
        }
    }

    /// Store `val` at `addr` through the write routing, with no I/O side
    /// effect.
    pub fn write_raw(&mut self, addr: u16, val: u8)
        requires
            old(self).wf(),
        ensures
            final(self).wf(),
            final(self).stored(*old(self), addr, val),
    {
        let page = (addr / 256) as usize;
        let lo = (addr % 256) as usize;
        match self.pages_w[page] {
            PageDst::Main(base) => {
                self.main_ram.set(base as usize + lo, val);
            },
            PageDst::Aux(base) => {
                self.aux_write(base as usize + lo, val);
            },
            PageDst::Inhibit => {},
        }
    }

    /// A key was pressed: latch its ASCII with the strobe (bit 7) set.
    pub fn key_press(&mut self, ascii: u8)
        ensures
            *final(self) == (Bus { keyboard_data: ascii | 0x80, ..*old(self) }),
    {
        self.keyboard_data = ascii | 0x80;
    }
}

} // verus!
