//! VidHD: an HDMI output card with super hi-res mode. Provides its
//! identification ROM, presence bytes, the SHR enable and new-video
//! registers, and a simulated vertical-blank status bit.

use vstd::prelude::*;
use crate::card::CardType;
use crate::error::{unexpected_eof, Error};

verus! {

/// Status bit 7: vertical blank active.
pub const SHR_STATUS_VBLANK: u8 = 0x80;
/// Status bit 6: horizontal blank active.
pub const SHR_STATUS_HBLANK: u8 = 0x40;
/// Status bit 5: super hi-res mode enabled.
pub const SHR_STATUS_SHR_EN: u8 = 0x20;

/// The card's $Cn00 ROM page: the BIT / NOP / JMP entry bytes, the SEC /
/// CLC identification bytes, card ID and marker, "VIDHD" at 0x10 and the
/// firmware version 1.0.0 at 0xFB, zero elsewhere.
pub open spec fn vidhd_rom_spec() -> Seq<u8> {
    Seq::new(
        256,
        |i: int|
            if i == 0x00 {
                0x24u8
            } else if i == 0x01 {
                0xEA
            } else if i == 0x02 {
                0x4C
            } else if i == 0x05 {
                0x38
            } else if i == 0x07 {
                0x18
            } else if i == 0x0B {
                0x01
            } else if i == 0x0C {
                0x24
            } else if i == 0x10 {
                0x56
            } else if i == 0x11 {
                0x49
            } else if i == 0x12 {
                0x44
            } else if i == 0x13 {
                0x48
            } else if i == 0x14 {
                0x44
            } else if i == 0xFB {
                0x01
            } else {
                0x00
            },
    )
}

/// Build the identification ROM page.
pub fn make_vidhd_rom() -> (rom: Box<[u8; 256]>)
    ensures
        rom@ == vidhd_rom_spec(),
{
    let mut rom = [0u8; 256];
    rom.set(0x00, 0x24);
    rom.set(0x01, 0xEA);
    rom.set(0x02, 0x4C);
    rom.set(0x05, 0x38);
    rom.set(0x07, 0x18);
    rom.set(0x0B, 0x01);
    rom.set(0x0C, 0x24);
    rom.set(0x10, 0x56);
    rom.set(0x11, 0x49);
    rom.set(0x12, 0x44);
    rom.set(0x13, 0x48);
    rom.set(0x14, 0x44);
    rom.set(0xFB, 0x01);
    rom.set(0xFC, 0x00);
    rom.set(0xFD, 0x00);
    rom.set(0xFE, 0x00);
    rom.set(0xFF, 0x00);
    assert(rom@ =~= vidhd_rom_spec());
    Box::new(rom)
}

/// The VidHD card.
pub struct VidHdCard {
    pub slot: usize,
    /// Card ROM with identification bytes.
    pub rom: Box<[u8; 256]>,
    /// SHR status register.
    pub status: u8,
    /// Super hi-res mode has been enabled by software.
    pub shr_enabled: bool,
    /// Update ticks, for the simulated vertical blank.
    pub vblank_counter: u32,
    /// New-video control register (IIgs-style).
    pub new_video: u8,
}

/// What reading register `reg` (low four bits) gives: the status with the
/// SHR bit while SHR is on (0), the new-video register (1), the presence
/// bytes 'V' (2) and 'H' (3), 0xFF otherwise.
pub open spec fn vidhd_read_spec(c: VidHdCard, reg: u8) -> u8 {
    let r = reg & 0x0F;
    if r == 0x00 {
        if c.shr_enabled {
            c.status | SHR_STATUS_SHR_EN
        } else {
            c.status
        }
    } else if r == 0x01 {
        c.new_video
    } else if r == 0x02 {
        0x56
    } else if r == 0x03 {
        0x48
    } else {
        0xFF
    }
}

impl VidHdCard {
    /// A card in `slot` with SHR off and all registers zero.
    pub fn new(slot: usize) -> (r: Self)
        ensures
            r.slot == slot,
            r.rom@ == vidhd_rom_spec(),
            r.status == 0,
            !r.shr_enabled,
            r.vblank_counter == 0,
            r.new_video == 0,
    {
        Self { slot, rom: make_vidhd_rom(), status: 0, shr_enabled: false, vblank_counter: 0, new_video: 0 }
    }

    /// Whether super hi-res mode is enabled.
    pub fn is_shr_enabled(&self) -> (r: bool)
        ensures
            r == self.shr_enabled,
    {
        self.shr_enabled
    }

    /// The card type: VidHD.
    pub fn card_type(&self) -> (r: CardType)
        ensures
            r == CardType::VidHD,
    {
        CardType::VidHD
    }

    /// The slot number.
    pub fn slot(&self) -> (r: usize)
        ensures
            r == self.slot,
    {
        self.slot
    }

    /// The card after a read of its ROM page at `offset`, and the byte `r` read.
    pub open spec fn io_read_post(self, offset: u8, cycles: u64, next: Self, r: u8) -> bool {
        &&& r == self.rom@[offset as int]
        &&& next == self
    }

    /// A read of the ROM page.
    pub fn io_read(&mut self, offset: u8, cycles: u64) -> (r: u8)
        ensures
            old(self).io_read_post(offset, cycles, *final(self), r),
    {
        self.rom[offset as usize]
    }

    /// The card after a write of `value` to its ROM page at `offset`.
    pub open spec fn io_write_post(self, offset: u8, value: u8, cycles: u64, next: Self) -> bool {
        &&& next == self
    }

    /// The ROM page is not writable.
    pub fn io_write(&mut self, offset: u8, value: u8, cycles: u64)
        ensures
            old(self).io_write_post(offset, value, cycles, *final(self)),
    {
    }

    /// The card's $Cn00 ROM page.
    pub fn cx_rom(&self) -> (r: Option<&[u8; 256]>)
        ensures
            r matches Some(rom) && rom@ == self.rom@,
    {
        Some(&*self.rom)
    }

    /// The card after a read of its register `reg`, and the byte `r` read.
    pub open spec fn slot_io_read_post(self, reg: u8, cycles: u64, next: Self, r: u8) -> bool {
        &&& r == vidhd_read_spec(self, reg)
        &&& next == self
    }

    /// A read of the card's I/O registers (no side effects).
    pub fn slot_io_read(&mut self, reg: u8, cycles: u64) -> (r: u8)
        ensures
            old(self).slot_io_read_post(reg, cycles, *final(self), r),
    {
        let r = reg & 0x0F;
        if r == 0x00 {
            let mut s = self.status;
            if self.shr_enabled {
                s = s | SHR_STATUS_SHR_EN;
            }
            s
        } else if r == 0x01 {
            self.new_video
        } else if r == 0x02 {
            0x56
        } else if r == 0x03 {
            0x48
        } else {
            0xFF
        }
    }

    /// The card after a write of `value` to its register `reg`.
    pub open spec fn slot_io_write_post(self, reg: u8, val: u8, cycles: u64, next: Self) -> bool {
        &&& ({
            let s = self;
            let r = reg & 0x0F;
            if r == 0x00 {
                next == VidHdCard { shr_enabled: val & 0x01 != 0, ..s }
            } else if r == 0x01 {
                next == VidHdCard { new_video: val, shr_enabled: val & 0x80 != 0, ..s }
            } else {
                next == s
            }
        })
    }

    /// A write: register 0 switches SHR by bit 0; register 1 sets the
    /// new-video register and switches SHR by its bit 7.
    pub fn slot_io_write(&mut self, reg: u8, val: u8, cycles: u64)
        ensures
            old(self).slot_io_write_post(reg, val, cycles, *final(self)),
    {
        let r = reg & 0x0F;
        if r == 0x00 {
            self.shr_enabled = val & 0x01 != 0;
        } else if r == 0x01 {
            self.new_video = val;
            self.shr_enabled = val & 0x80 != 0;
        }
    }

    /// The card after a reset (`power_cycle` for a power cycle).
    pub open spec fn reset_post(self, power_cycle: bool, next: Self) -> bool {
        &&& next == (VidHdCard {
            status: 0,
            shr_enabled: false,
            vblank_counter: 0,
            new_video: 0,
            ..self
        })
    }

    /// Reset: SHR off, registers and the blank counter zero.
    pub fn reset(&mut self, power_cycle: bool)
        ensures
            old(self).reset_post(power_cycle, *final(self)),
    {
        self.status = 0;
        self.shr_enabled = false;
        self.vblank_counter = 0;
        self.new_video = 0;
    }

    /// The card after its periodic update at cycle `cycles`.
    pub open spec fn update_post(self, cycles: u64, next: Self) -> bool {
        &&& next.vblank_counter == self.vblank_counter.wrapping_add(1)
        &&& next.status == (if next.vblank_counter % 4 == 0 {
            self.status ^ SHR_STATUS_VBLANK
        } else {
            self.status
        })
        &&& next == (VidHdCard {
            vblank_counter: next.vblank_counter,
            status: next.status,
            ..self
        })
    }

    /// One update tick: every fourth tick toggles the vertical-blank bit.
    pub fn update(&mut self, cycles: u64)
        ensures
            old(self).update_post(cycles, *final(self)),
    {
        self.vblank_counter = self.vblank_counter.wrapping_add(1);
        if self.vblank_counter % 4 == 0 {
            self.status = self.status ^ SHR_STATUS_VBLANK;
        }
    }

    /// Append the 4-byte save record: version 1, status, SHR flag (0/1),
    /// new-video register.
    pub fn save_state(&self, out: &mut Vec<u8>)
        ensures
            final(out)@ == old(out)@ + seq![1u8, self.status, (if self.shr_enabled { 1u8 } else { 0u8 }), self.new_video],
    {
        out.push(1);
        out.push(self.status);
        out.push(if self.shr_enabled { 1 } else { 0 });
        out.push(self.new_video);
    }

    /// Read the save record from the start of `src`; an I/O error, and no
    /// change, if it is shorter than 4 bytes.
    pub fn load_state(&mut self, src: &[u8], version: u32) -> (r: Result<(), Error>)
        ensures
            r is Ok <==> src@.len() >= 4,
            r is Err ==> *final(self) == *old(self),
            r is Ok ==> *final(self) == (VidHdCard {
                status: src@[1],
                shr_enabled: src@[2] != 0,
                new_video: src@[3],
                ..*old(self)
            }),
    {
        if src.len() < 4 {
            return Err(unexpected_eof());
        }
        self.status = src[1];
        self.shr_enabled = src[2] != 0;
        self.new_video = src[3];
        Ok(())
    }
}

/// Four update ticks always toggle the vertical-blank bit exactly once.
pub proof fn lemma_vblank_four_ticks(counter: u32, status: u8)
    ensures
        ({
            let step = |c: u32, s: u8| {
                let c1 = c.wrapping_add(1);
                (c1, if c1 % 4 == 0 { s ^ SHR_STATUS_VBLANK } else { s })
            };
            let (c1, s1) = step(counter, status);
            let (c2, s2) = step(c1, s1);
            let (c3, s3) = step(c2, s2);
            let (c4, s4) = step(c3, s3);
            s4 & SHR_STATUS_VBLANK != status & SHR_STATUS_VBLANK
        }),
{
    assert((status ^ 0x80) & 0x80 != status & 0x80) by (bit_vector);
    assert(((status ^ 0x80) ^ 0x80) == status) by (bit_vector);
}

/// An access a program makes to a VidHD card.
#[derive(Debug, Clone, Copy, PartialEq, Eq, Structural)]
pub enum VidHdCall {
    /// `slot_io_read(reg, cycles)`.
    Read { reg: u8, cycles: u64 },
    /// `slot_io_write(reg, value, cycles)`.
    Write { reg: u8, value: u8, cycles: u64 },
    /// `update(cycles)`.
    Update { cycles: u64 },
    /// `reset(power_cycle)`.
    Reset { power_cycle: bool },
}

/// Card `s` becomes `t` by the access `call`.
pub open spec fn vidhd_call(s: VidHdCard, call: VidHdCall, t: VidHdCard) -> bool {
    match call {
        VidHdCall::Read { reg, cycles } => exists|r: u8| #[trigger] s.slot_io_read_post(reg, cycles, t, r),
        VidHdCall::Write { reg, value, cycles } => s.slot_io_write_post(reg, value, cycles, t),
        VidHdCall::Update { cycles } => s.update_post(cycles, t),
        VidHdCall::Reset { power_cycle } => s.reset_post(power_cycle, t),
    }
}

/// How `call` sets SHR: a write to register 0 by bit 0 of the value, to
/// register 1 by bit 7, a reset off; other accesses leave it.
pub open spec fn shr_switch(call: VidHdCall) -> Option<bool> {
    match call {
        VidHdCall::Write { reg, value, .. } => if reg & 0x0F == 0 {
            Some(value & 0x01 != 0)
        } else if reg & 0x0F == 1 {
            Some(value & 0x80 != 0)
        } else {
            None
        },
        VidHdCall::Reset { .. } => Some(false),
        _ => None,
    }
}

/// What the last of `calls` that sets SHR set it to (off when none did).
pub open spec fn shr_switched_on(calls: Seq<VidHdCall>) -> bool
    decreases calls.len(),
{
    if calls.len() == 0 {
        false
    } else {
        match shr_switch(calls.last()) {
            Some(on) => on,
            None => shr_switched_on(calls.drop_last()),
        }
    }
}

/// SHR of a card that starts as `VidHdCard::new` makes it (SHR off, status
/// zero), after any run of `slot_io_read`, `slot_io_write`, `update` and
/// `reset` calls (`cards[k + 1]` is `cards[k]` after `calls[k]`), is what
/// the last call that set it set: a write to register 0 bit 0 of the value,
/// to register 1 bit 7, a reset off; it is off when no call set it. It is
/// what `is_shr_enabled()` returns, and shows as bit 5 of a read of
/// register 0.
pub proof fn lemma_shr_law(cards: Seq<VidHdCard>, calls: Seq<VidHdCall>)
    requires
        cards.len() == calls.len() + 1,
        !cards[0].shr_enabled,
        cards[0].status == 0,
        forall|k: int| 0 <= k < calls.len() ==> vidhd_call(cards[k], #[trigger] calls[k], cards[k + 1]),
    ensures
        cards.last().shr_enabled == shr_switched_on(calls),
        cards.last().shr_enabled <==> vidhd_read_spec(cards.last(), 0) & 0x20 != 0,
        cards.last().status == 0 || cards.last().status == 0x80,
    decreases calls.len(),
{
    crate::bits::lemma_byte(0, 0, 0, 0);
    if calls.len() > 0 {
        let n = calls.len() - 1;
        assert forall|k: int| 0 <= k < calls.drop_last().len() implies vidhd_call(
            cards.drop_last()[k],
            #[trigger] calls.drop_last()[k],
            cards.drop_last()[k + 1],
        ) by {
            assert(calls.drop_last()[k] == calls[k]);
            assert(vidhd_call(cards[k], calls[k], cards[k + 1]));
        }
        lemma_shr_law(cards.drop_last(), calls.drop_last());
        let s = cards[n];
        let t = cards[n + 1];
        assert(vidhd_call(s, calls[n], t));
        match calls[n] {
            VidHdCall::Read { reg, cycles } => {
                let r = choose|r: u8| #[trigger] s.slot_io_read_post(reg, cycles, t, r);
                assert(s.slot_io_read_post(reg, cycles, t, r));
            },
            VidHdCall::Update { cycles } => {
                assert(t.status == 0 || t.status == 0x80);
            },
            _ => {},
        }
    }
}

} // verus!
