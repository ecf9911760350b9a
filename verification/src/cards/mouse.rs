//! Mouse interface card: a 6821 PIA whose ports report the mouse position
//! and button, and the card's firmware page.

use vstd::prelude::*;
use crate::card::CardType;

verus! {

/// The mouse interface card.
pub struct MouseCard {
    pub slot: usize,
    pub x: i16,
    pub y: i16,
    pub buttons: u8,
    /// Port A data.
    pub pra: u8,
    /// Port B data.
    pub prb: u8,
    pub ddra: u8,
    pub ddrb: u8,
    pub cra: u8,
    pub crb: u8,
    /// The card's $Cn00 firmware page.
    pub firmware: [u8; 256],
}

impl MouseCard {
    /// A card in `slot` with the mouse at the origin and the PIA cleared.
    /// Its firmware page is zero until `set_firmware` supplies the ROM.
    pub fn new(slot: usize) -> (r: Self)
        ensures
            r.slot == slot,
            r.x == 0 && r.y == 0 && r.buttons == 0,
            r.pra == 0 && r.prb == 0 && r.ddra == 0 && r.ddrb == 0 && r.cra == 0 && r.crb == 0,
    {
        Self { slot, x: 0, y: 0, buttons: 0, pra: 0, prb: 0, ddra: 0, ddrb: 0, cra: 0, crb: 0, firmware: [0u8; 256] }
    }

    /// Install the firmware ROM page.
    pub fn set_firmware(&mut self, rom: [u8; 256])
        ensures
            *final(self) == (MouseCard { firmware: rom, ..*old(self) }),
    {
        self.firmware = rom;
    }

    /// The card type.
    pub fn card_type(&self) -> (r: CardType)
        ensures
            r == CardType::MouseInterface,
    {
        CardType::MouseInterface
    }

    /// The slot number.
    pub fn slot(&self) -> (r: usize)
        ensures
            r == self.slot,
    {
        self.slot
    }

    /// The card after a read of its ROM page at `offset`, and the byte `r` read.
    pub open spec fn io_read_post(self, offset: u8, cycles: u64, next: Self, r: u8) -> bool {
        &&& r == self.firmware@[offset as int]
        &&& next == self
    }

    /// A read of the firmware page.
    pub fn io_read(&mut self, offset: u8, cycles: u64) -> (r: u8)
        ensures
            old(self).io_read_post(offset, cycles, *final(self), r),
    {
        self.firmware[offset as usize]
    }

    /// The card's $Cn00 ROM page.
    pub fn cx_rom(&self) -> (r: Option<&[u8; 256]>)
        ensures
            r matches Some(rom) && *rom == self.firmware,
    {
        Some(&self.firmware)
    }

    /// The card after a read of its register `reg`, and the byte `r` read.
    pub open spec fn slot_io_read_post(self, reg: u8, cycles: u64, next: Self, r: u8) -> bool {
        &&& next == self
        &&& r == pia_read(self, reg)
    }

    /// A read of the PIA (register bits 1:0): port A (data, or its
    /// direction register when CRA bit 2 is clear), CRA, port B likewise,
    /// CRB.
    pub fn slot_io_read(&mut self, reg: u8, cycles: u64) -> (r: u8)
        ensures
            old(self).slot_io_read_post(reg, cycles, *final(self), r),
    {
        let r = reg & 0x03;
        if r == 0x0 {
            if self.cra & 0x04 != 0 {
                self.pra
            } else {
                self.ddra
            }
        } else if r == 0x1 {
            self.cra
        } else if r == 0x2 {
            if self.crb & 0x04 != 0 {
                self.prb
            } else {
                self.ddrb
            }
        } else if r == 0x3 {
            self.crb
        } else {
            0xFF
        }
    }

    /// The card after a write of `value` to its register `reg`.
    pub open spec fn slot_io_write_post(self, reg: u8, val: u8, cycles: u64, next: Self) -> bool {
        &&& next == pia_write(self, reg, val)
    }

    /// A write to the PIA: ports (or their direction registers) as for
    /// reads; control registers keep their low six bits.
    pub fn slot_io_write(&mut self, reg: u8, val: u8, cycles: u64)
        ensures
            old(self).slot_io_write_post(reg, val, cycles, *final(self)),
    {
        let r = reg & 0x03;
        if r == 0x0 {
            if self.cra & 0x04 != 0 {
                self.pra = val;
            } else {
                self.ddra = val;
            }
        } else if r == 0x1 {
            self.cra = val & 0x3F;
        } else if r == 0x2 {
            if self.crb & 0x04 != 0 {
                self.prb = val;
            } else {
                self.ddrb = val;
            }
        } else if r == 0x3 {
            self.crb = val & 0x3F;
        }
    }

    /// The host reports the mouse: position into the ports (low bytes),
    /// button 0 into CRA bit 7.
    pub fn set_mouse_state(&mut self, x: i16, y: i16, buttons: u8)
        ensures
            *final(self) == (MouseCard {
                x,
                y,
                buttons,
                pra: (x & 0xFF) as u8,
                prb: (y & 0xFF) as u8,
                cra: if buttons & 0x01 != 0 { old(self).cra | 0x80 } else { old(self).cra & !0x80u8 },
                ..*old(self)
            }),
    {
        self.x = x;
        self.y = y;
        self.buttons = buttons;
        self.pra = (x & 0xFF) as u8;
        self.prb = (y & 0xFF) as u8;
        if buttons & 0x01 != 0 {
            self.cra = self.cra | 0x80;
        } else {
            self.cra = self.cra & !0x80u8;
        }
    }

    /// The card after a reset (`power_cycle` for a power cycle).
    pub open spec fn reset_post(self, power_cycle: bool, next: Self) -> bool {
        &&& next == (MouseCard { pra: 0, prb: 0, ddra: 0, ddrb: 0, cra: 0, crb: 0, ..self })
    }

    /// Reset: the PIA registers are cleared.
    pub fn reset(&mut self, power_cycle: bool)
        ensures
            old(self).reset_post(power_cycle, *final(self)),
    {
        self.pra = 0;
        self.prb = 0;
        self.ddra = 0;
        self.ddrb = 0;
        self.cra = 0;
        self.crb = 0;
    }
}

/// What reading PIA register `reg` gives.
pub open spec fn pia_read(c: MouseCard, reg: u8) -> u8 {
    let r = reg & 0x03;
    if r == 0x0 {
        if c.cra & 0x04 != 0 { c.pra } else { c.ddra }
    } else if r == 0x1 {
        c.cra
    } else if r == 0x2 {
        if c.crb & 0x04 != 0 { c.prb } else { c.ddrb }
    } else if r == 0x3 {
        c.crb
    } else {
        0xFF
    }
}

/// The card after writing `val` to PIA register `reg`.
pub open spec fn pia_write(c: MouseCard, reg: u8, val: u8) -> MouseCard {
    let r = reg & 0x03;
    if r == 0x0 {
        if c.cra & 0x04 != 0 { MouseCard { pra: val, ..c } } else { MouseCard { ddra: val, ..c } }
    } else if r == 0x1 {
        MouseCard { cra: val & 0x3F, ..c }
    } else if r == 0x2 {
        if c.crb & 0x04 != 0 { MouseCard { prb: val, ..c } } else { MouseCard { ddrb: val, ..c } }
    } else if r == 0x3 {
        MouseCard { crb: val & 0x3F, ..c }
    } else {
        c
    }
}

/// A port written through the PIA reads back the value written, as long
/// as the control register does not change in between.
pub proof fn lemma_pia_write_read(c: MouseCard, reg: u8, val: u8)
    requires
        reg & 0x03 == 0 || reg & 0x03 == 2,
    ensures
        pia_read(pia_write(c, reg, val), reg) == val,
{
}

} // verus!
