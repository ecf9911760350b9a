//! 4play joystick card: four digital joysticks read through the slot I/O
//! registers.

use vstd::prelude::*;
use crate::card::CardType;
use crate::error::{unexpected_eof, Error};

verus! {

/// The "stationary" bit every joystick state carries.
pub const STATIONARY: u8 = 0x20;

/// The 4play card.
pub struct FourPlayCard {
    pub slot: usize,
    pub joy: [u8; 4],
}

impl FourPlayCard {
    /// A card in `slot` with all four joysticks at rest.
    pub fn new(slot: usize) -> (r: Self)
        ensures
            r.slot == slot,
            r.joy@ == seq![STATIONARY, STATIONARY, STATIONARY, STATIONARY],
    {
        let joy = [STATIONARY; 4];
        assert(joy@ =~= seq![STATIONARY, STATIONARY, STATIONARY, STATIONARY]);
        Self { slot, joy }
    }

    /// Set joystick `idx` (0-3) to `state`, with the stationary bit.
    pub fn set_joystick(&mut self, idx: usize, state: u8)
        ensures
            idx >= 4 ==> final(self).joy == old(self).joy,
            idx < 4 ==> final(self).joy@ == old(self).joy@.update(idx as int, state | STATIONARY),
            final(self).slot == old(self).slot,
    {
        if idx < 4 {
            self.joy.set(idx, state | STATIONARY);
        }
    }

    /// The card type.
    pub fn card_type(&self) -> (r: CardType)
        ensures
            r == CardType::FourPlay,
    {
        CardType::FourPlay
    }

    /// The slot number.
    pub fn slot(&self) -> (r: usize)
        ensures
            r == self.slot,
    {
        self.slot
    }

    /// The card after a read of its register `reg`, and the byte `r` read.
    pub open spec fn slot_io_read_post(self, reg: u8, cycles: u64, next: Self, r: u8) -> bool {
        &&& r == (if reg & 0x0F <= 3 { self.joy@[reg as int] } else { 0xFF })
        &&& next == self
    }

    /// Registers 0-3 read the joysticks; others read 0xFF. (The register
    /// number selects the joystick without its high bits masked, so the
    /// bus passes only register numbers 0-15.)
    pub fn slot_io_read(&mut self, reg: u8, cycles: u64) -> (r: u8)
        requires
            reg & 0x0F > 3 || reg < 4,
        ensures
            old(self).slot_io_read_post(reg, cycles, *final(self), r),
    {
        if reg & 0x0F <= 3 {
            self.joy[reg as usize]
        } else {
            0xFF
        }
    }

    /// The card after a reset (`power_cycle` for a power cycle).
    pub open spec fn reset_post(self, power_cycle: bool, next: Self) -> bool {
        &&& next.joy@ == seq![STATIONARY, STATIONARY, STATIONARY, STATIONARY]
        &&& next.slot == self.slot
    }

    /// Reset: all joysticks at rest.
    pub fn reset(&mut self, power_cycle: bool)
        ensures
            old(self).reset_post(power_cycle, *final(self)),
    {
        self.joy = [STATIONARY; 4];
        assert(self.joy@ =~= seq![STATIONARY, STATIONARY, STATIONARY, STATIONARY]);
    }

    /// Append the save record: version 1, then the four joystick states.
    pub fn save_state(&self, out: &mut Vec<u8>)
        ensures
            final(out)@ == old(out)@ + seq![1u8] + self.joy@,
    {
        out.push(1);
        out.push(self.joy[0]);
        out.push(self.joy[1]);
        out.push(self.joy[2]);
        out.push(self.joy[3]);
        assert(self.joy@ =~= seq![self.joy[0], self.joy[1], self.joy[2], self.joy[3]]);
    }

    /// Read the save record (version byte unchecked); an I/O error, and no
    /// change, if it is shorter than 5 bytes.
    pub fn load_state(&mut self, src: &[u8], version: u32) -> (r: Result<(), Error>)
        ensures
            r is Ok <==> src@.len() >= 5,
            r is Err ==> final(self).joy == old(self).joy,
            r is Ok ==> final(self).joy@ == src@.subrange(1, 5),
            final(self).slot == old(self).slot,
    {
        if src.len() < 5 {
            return Err(unexpected_eof());
        }
        self.joy.set(0, src[1]);
        self.joy.set(1, src[2]);
        self.joy.set(2, src[3]);
        self.joy.set(3, src[4]);
        assert(self.joy@ =~= src@.subrange(1, 5));
        Ok(())
    }
}

} // verus!
