//! 80-column cards (plain and extended): a ROM page whose first byte
//! identifies the card.

use vstd::prelude::*;
use crate::card::CardType;

verus! {

/// The 80-column ROM page: 0xC3 at offset 0 (the self-identification
/// byte), zero elsewhere.
pub open spec fn col80_rom_spec() -> Seq<u8> {
    Seq::new(256, |i: int| if i == 0 { 0xC3u8 } else { 0x00 })
}

/// Build the 80-column ROM page.
pub fn make_col80_rom() -> (rom: Box<[u8; 256]>)
    ensures
        rom@ == col80_rom_spec(),
{
    let mut rom = [0u8; 256];
    rom.set(0, 0xC3);
    assert(rom@ =~= col80_rom_spec());
    Box::new(rom)
}

/// The 80-column text card.
pub struct Col80Card {
    pub slot: usize,
    pub rom: Box<[u8; 256]>,
}

impl Col80Card {
    /// A card in `slot`.
    pub fn new(slot: usize) -> (r: Self)
        ensures
            r.slot == slot,
            r.rom@ == col80_rom_spec(),
    {
        Self { slot, rom: make_col80_rom() }
    }

    /// The card type.
    pub fn card_type(&self) -> (r: CardType)
        ensures
            r == CardType::Col80,
    {
        CardType::Col80
    }

    /// The slot number.
    pub fn slot(&self) -> (r: usize)
        ensures
            r == self.slot,
    {
        self.slot
    }

    /// The card after a read of its ROM page at `offset`, and the byte `r` read.
    pub open spec fn io_read_post(self, offset: u8, cycles: u64, next: Self, r: u8) -> bool {
        &&& r == self.rom@[offset as int]
        &&& next == self
    }

    /// A read of the ROM page.
    pub fn io_read(&mut self, offset: u8, cycles: u64) -> (r: u8)
        ensures
            old(self).io_read_post(offset, cycles, *final(self), r),
    {
        self.rom[offset as usize]
    }

    /// The card's $Cn00 ROM page.
    pub fn cx_rom(&self) -> (r: Option<&[u8; 256]>)
        ensures
            r matches Some(rom) && rom@ == self.rom@,
    {
        Some(&*self.rom)
    }
}

/// The extended 80-column card (with 64K of auxiliary memory, which the
/// bus holds).
pub struct Extended80ColCard {
    pub slot: usize,
    pub rom: Box<[u8; 256]>,
}

impl Extended80ColCard {
    /// A card in `slot`.
    pub fn new(slot: usize) -> (r: Self)
        ensures
            r.slot == slot,
            r.rom@ == col80_rom_spec(),
    {
        Self { slot, rom: make_col80_rom() }
    }

    /// The card type.
    pub fn card_type(&self) -> (r: CardType)
        ensures
            r == CardType::Extended80Col,
    {
        CardType::Extended80Col
    }

    /// The slot number.
    pub fn slot(&self) -> (r: usize)
        ensures
            r == self.slot,
    {
        self.slot
    }

    /// The card after a read of its ROM page at `offset`, and the byte `r` read.
    pub open spec fn io_read_post(self, offset: u8, cycles: u64, next: Self, r: u8) -> bool {
        &&& r == self.rom@[offset as int]
        &&& next == self
    }

    /// A read of the ROM page.
    pub fn io_read(&mut self, offset: u8, cycles: u64) -> (r: u8)
        ensures
            old(self).io_read_post(offset, cycles, *final(self), r),
    {
        self.rom[offset as usize]
    }

    /// The card's $Cn00 ROM page.
    pub fn cx_rom(&self) -> (r: Option<&[u8; 256]>)
        ensures
            r matches Some(rom) && rom@ == self.rom@,
    {
        Some(&*self.rom)
    }
}

} // verus!
