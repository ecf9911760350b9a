//! SNES MAX: two SNES controllers read one button bit at a time through
//! the slot I/O registers.

use vstd::prelude::*;
use crate::card::CardType;
use crate::error::{unexpected_eof, Error};

verus! {

/// Buttons shifted out per controller.
pub const BUTTON_COUNT: u8 = 17;

/// The SNES MAX card.
pub struct SnesMaxCard {
    pub slot: usize,
    /// The button being read (0-17).
    pub btn_index: u8,
    /// Latched controller 1 state (inverted).
    pub ctrl1_bits: u32,
    /// Latched controller 2 state (inverted).
    pub ctrl2_bits: u32,
}

impl SnesMaxCard {
    /// A card in `slot` with nothing latched.
    pub fn new(slot: usize) -> (r: Self)
        ensures
            r.slot == slot && r.btn_index == 0 && r.ctrl1_bits == 0 && r.ctrl2_bits == 0,
    {
        Self { slot, btn_index: 0, ctrl1_bits: 0, ctrl2_bits: 0 }
    }

    /// Latch the controllers (no host input: both read released) and go
    /// back to the first button.
    fn latch_controllers(&mut self)
        ensures
            final(self).ctrl1_bits == 0 && final(self).ctrl2_bits == 0 && final(self).btn_index == 0,
            final(self).slot == old(self).slot,
    {
        self.ctrl1_bits = 0;
        self.ctrl2_bits = 0;
        self.btn_index = 0;
    }

    /// The card type.
    pub fn card_type(&self) -> (r: CardType)
        ensures
            r == CardType::SnesMax,
    {
        CardType::SnesMax
    }

    /// The slot number.
    pub fn slot(&self) -> (r: usize)
        ensures
            r == self.slot,
    {
        self.slot
    }

    /// The card after a read of its register `reg`, and the byte `r` read.
    pub open spec fn slot_io_read_post(self, reg: u8, cycles: u64, next: Self, r: u8) -> bool {
        &&& next == self
        &&& reg & 0x0F == 0 && self.btn_index < BUTTON_COUNT ==> r == ((((self.ctrl1_bits >> self.btn_index) & 1) as u8) << 7u8) | ((((self.ctrl2_bits >> self.btn_index) & 1) as u8) << 6u8)
        &&& reg & 0x0F == 0 && self.btn_index >= BUTTON_COUNT ==> r == 0
        &&& reg & 0x0F != 0 ==> r == 0xFF
    }

    /// Register 0 reads the current button of both controllers (controller
    /// 1 in bit 7, controller 2 in bit 6; 0 past the last button); others
    /// read 0xFF.
    pub fn slot_io_read(&mut self, reg: u8, cycles: u64) -> (r: u8)
        ensures
            old(self).slot_io_read_post(reg, cycles, *final(self), r),
    {
        if reg & 0x0F == 0x00 {
            if self.btn_index < BUTTON_COUNT {
                let c1 = self.ctrl1_bits;
                let c2 = self.ctrl2_bits;
                let k = self.btn_index;
                let b1 = ((c1 >> k) & 1) as u8;
                let b2 = ((c2 >> k) & 1) as u8;
                assert(b1 <= 1 && b2 <= 1) by (bit_vector)
                    requires
                        b1 == ((c1 >> k) & 1) as u8,
                        b2 == ((c2 >> k) & 1) as u8,
                ;
                (b1 << 7u8) | (b2 << 6u8)
            } else {
                0x00
            }
        } else {
            0xFF
        }
    }

    /// The card after a write of `value` to its register `reg`.
    pub open spec fn slot_io_write_post(self, reg: u8, value: u8, cycles: u64, next: Self) -> bool {
        &&& reg & 0x0F == 0 ==> next.ctrl1_bits == 0 && next.ctrl2_bits == 0
            && next.btn_index == 0
        &&& reg & 0x0F == 1 ==> next.btn_index == (if self.btn_index < BUTTON_COUNT {
            (self.btn_index + 1) as u8
        } else {
            self.btn_index
        }) && next.ctrl1_bits == self.ctrl1_bits && next.ctrl2_bits == self.ctrl2_bits
        &&& reg & 0x0F > 1 ==> next == self
        &&& next.slot == self.slot
    }

    /// Register 0 latches the controllers; register 1 moves to the next
    /// button (stopping after the last).
    pub fn slot_io_write(&mut self, reg: u8, value: u8, cycles: u64)
        ensures
            old(self).slot_io_write_post(reg, value, cycles, *final(self)),
    {
        if reg & 0x0F == 0x00 {
            self.latch_controllers();
        } else if reg & 0x0F == 0x01 {
            if self.btn_index < BUTTON_COUNT {
                self.btn_index += 1;
            }
        }
    }

    /// The card after a reset (`power_cycle` for a power cycle).
    pub open spec fn reset_post(self, power_cycle: bool, next: Self) -> bool {
        &&& next.btn_index == 0 && next.ctrl1_bits == 0 && next.ctrl2_bits == 0
        &&& next.slot == self.slot
    }

    /// Reset: nothing latched, first button.
    pub fn reset(&mut self, power_cycle: bool)
        ensures
            old(self).reset_post(power_cycle, *final(self)),
    {
        self.btn_index = 0;
        self.ctrl1_bits = 0;
        self.ctrl2_bits = 0;
    }

    /// Append the save record: the version byte 1 (controller state is not
    /// kept).
    pub fn save_state(&self, out: &mut Vec<u8>)
        ensures
            final(out)@ == old(out)@.push(1),
    {
        out.push(1);
    }

    /// Read the save record: an I/O error if it is empty.
    pub fn load_state(&mut self, src: &[u8], version: u32) -> (r: Result<(), Error>)
        ensures
            r is Ok <==> src@.len() >= 1,
            *final(self) == *old(self),
    {
        if src.len() < 1 {
            return Err(unexpected_eof());
        }
        Ok(())
    }
}

} // verus!
