//! RamWorks III auxiliary memory card. Its banks live in the bus; the card
//! itself only identifies the slot and versions its save record.

use vstd::prelude::*;
use crate::card::CardType;
use crate::error::{unexpected_eof, Error};

verus! {

/// The RamWorks III card.
pub struct RamWorksCard {
    pub slot: usize,
}

impl RamWorksCard {
    /// A card in `slot`.
    pub fn new(slot: usize) -> (r: Self)
        ensures
            r.slot == slot,
    {
        Self { slot }
    }

    /// The card type.
    pub fn card_type(&self) -> (r: CardType)
        ensures
            r == CardType::RamWorksIII,
    {
        CardType::RamWorksIII
    }

    /// The slot number.
    pub fn slot(&self) -> (r: usize)
        ensures
            r == self.slot,
    {
        self.slot
    }

    /// The card after a read of its ROM page at `offset`, and the byte `r` read.
    pub open spec fn io_read_post(self, offset: u8, cycles: u64, next: Self, r: u8) -> bool {
        &&& r == 0xFF
        &&& next == self
    }

    /// Its ROM page floats high.
    pub fn io_read(&mut self, offset: u8, cycles: u64) -> (r: u8)
        ensures
            old(self).io_read_post(offset, cycles, *final(self), r),
    {
        0xFF
    }

    /// Append the save record: the version byte 1.
    pub fn save_state(&self, out: &mut Vec<u8>)
        ensures
            final(out)@ == old(out)@.push(1),
    {
        out.push(1);
    }

    /// Read the save record: an I/O error if it is empty.
    pub fn load_state(&mut self, src: &[u8], version: u32) -> (r: Result<(), Error>)
        ensures
            r is Ok <==> src@.len() >= 1,
            final(self).slot == old(self).slot,
            *final(self) == *old(self),
    {
        if src.len() < 1 {
            return Err(unexpected_eof());
        }
        Ok(())
    }
}

} // verus!
