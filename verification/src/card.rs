//! Expansion-card plumbing shared by all cards: the card type codes, DMA
//! requests, drive activity and the empty slot.

use vstd::prelude::*;
use vstd::string::StringSliceAdditionalSpecFns;
use crate::cards::col80::{Col80Card, Extended80ColCard};
use crate::cards::disk2::Disk2Card;
use crate::cards::fourplay::FourPlayCard;
use crate::cards::hd::HdCard;
use crate::cards::languagecard::LanguageCardCard;
use crate::cards::mouse::MouseCard;
use crate::cards::noslotclock::NoSlotClockCard;
use crate::cards::printer::PrinterCard;
use crate::cards::ramworks::RamWorksCard;
use crate::cards::saturn::Saturn128KCard;
use crate::cards::snesmax::SnesMaxCard;
use crate::cards::ssc::SscCard;
use crate::cards::vidhd::VidHdCard;
use crate::cards::z80card::Z80Card;
use crate::cards::host::HostCard;
use crate::cards::soundcard::SoundCard;
use crate::cards::uthernet::NetCard;

verus! {

/// All known card types; `code` gives the number used in save-state files.
#[derive(Debug, Clone, Copy, PartialEq, Eq, Hash, Structural)]
pub enum CardType {
    Empty,
    Disk2,
    Ssc,
    Mockingboard,
    GenericPrinter,
    GenericHdd,
    GenericClock,
    MouseInterface,
    Z80,
    Phasor,
    Echo,
    Sam,
    Col80,
    Extended80Col,
    RamWorksIII,
    Uthernet,
    LanguageCard,
    LanguageCardIIe,
    Saturn128K,
    FourPlay,
    SnesMax,
    VidHD,
    Uthernet2,
    MegaAudio,
    SdMusic,
    BreakpointCard,
}

/// The save-state number of a card type.
pub open spec fn card_type_code(t: CardType) -> u32 {
    match t {
        CardType::Empty => 0,
        CardType::Disk2 => 1,
        CardType::Ssc => 2,
        CardType::Mockingboard => 3,
        CardType::GenericPrinter => 4,
        CardType::GenericHdd => 5,
        CardType::GenericClock => 6,
        CardType::MouseInterface => 7,
        CardType::Z80 => 8,
        CardType::Phasor => 9,
        CardType::Echo => 10,
        CardType::Sam => 11,
        CardType::Col80 => 12,
        CardType::Extended80Col => 13,
        CardType::RamWorksIII => 14,
        CardType::Uthernet => 15,
        CardType::LanguageCard => 16,
        CardType::LanguageCardIIe => 17,
        CardType::Saturn128K => 18,
        CardType::FourPlay => 19,
        CardType::SnesMax => 20,
        CardType::VidHD => 21,
        CardType::Uthernet2 => 22,
        CardType::MegaAudio => 23,
        CardType::SdMusic => 24,
        CardType::BreakpointCard => 25,
    }
}

impl CardType {
    /// The save-state number of this card type.
    pub fn code(&self) -> (r: u32)
        ensures
            r == card_type_code(*self),
    {
        match self {
        CardType::Empty => 0,
        CardType::Disk2 => 1,
        CardType::Ssc => 2,
        CardType::Mockingboard => 3,
        CardType::GenericPrinter => 4,
        CardType::GenericHdd => 5,
        CardType::GenericClock => 6,
        CardType::MouseInterface => 7,
        CardType::Z80 => 8,
        CardType::Phasor => 9,
        CardType::Echo => 10,
        CardType::Sam => 11,
        CardType::Col80 => 12,
        CardType::Extended80Col => 13,
        CardType::RamWorksIII => 14,
        CardType::Uthernet => 15,
        CardType::LanguageCard => 16,
        CardType::LanguageCardIIe => 17,
        CardType::Saturn128K => 18,
        CardType::FourPlay => 19,
        CardType::SnesMax => 20,
        CardType::VidHD => 21,
        CardType::Uthernet2 => 22,
        CardType::MegaAudio => 23,
        CardType::SdMusic => 24,
        CardType::BreakpointCard => 25,
        }
    }
}

/// Number of regular slots (0-7).
pub const NUM_SLOTS: usize = 8;
/// Auxiliary slot index (//e extended memory etc.).
pub const SLOT_AUX: usize = 8;

/// A pending DMA write from a card into Apple II main RAM.
pub struct DmaWrite {
    /// Destination address in Apple II main RAM.
    pub dest: u16,
    /// Bytes to write.
    pub data: Vec<u8>,
}

/// Per-drive activity state for disk controllers.
#[derive(Clone, Copy, Debug)]
pub struct DriveActivity {
    pub motor_on: bool,
    pub writing: bool,
    /// Current track number (0-34 for floppy, block-based for HDD).
    pub track: i32,
}

impl Default for DriveActivity {
    fn default() -> (r: Self)
        ensures
            !r.motor_on,
            !r.writing,
            r.track == 0,
    {
        DriveActivity { motor_on: false, writing: false, track: 0 }
    }
}

/// An empty slot: does nothing.
pub struct EmptyCard {
    pub slot: usize,
}

impl EmptyCard {
    /// An empty slot numbered `slot`.
    pub fn new(slot: usize) -> (r: Self)
        ensures
            r.slot == slot,
    {
        Self { slot }
    }

    /// The card type: empty.
    pub fn card_type(&self) -> (r: CardType)
        ensures
            r == CardType::Empty,
    {
        CardType::Empty
    }

    /// The slot number.
    pub fn slot(&self) -> (r: usize)
        ensures
            r == self.slot,
    {
        self.slot
    }

    /// The card after a read of its ROM page at `offset`, and the byte `r` read.
    pub open spec fn io_read_post(self, offset: u8, cycles: u64, next: Self, r: u8) -> bool {
        &&& r == 0xFF
        &&& next == self
    }

    /// Reads of its ROM page float high.
    pub fn io_read(&mut self, offset: u8, cycles: u64) -> (r: u8)
        ensures
            old(self).io_read_post(offset, cycles, *final(self), r),
    {
        0xFF
    }
}


/// A card in a slot: one of the cards this library emulates.
pub enum SlotCard {
    Empty(EmptyCard),
    Disk2(Disk2Card),
    Ssc(SscCard),
    Hdd(HdCard),
    Mouse(MouseCard),
    Clock(NoSlotClockCard),
    Printer(PrinterCard),
    Col80(Col80Card),
    Extended80Col(Extended80ColCard),
    RamWorks(RamWorksCard),
    LanguageCard(LanguageCardCard),
    Saturn(Saturn128KCard),
    FourPlay(FourPlayCard),
    SnesMax(SnesMaxCard),
    VidHd(VidHdCard),
    Z80(Z80Card),
    /// A sound card of the Mockingboard family.
    Sound(SoundCard),
    /// An Uthernet card, whose network operations the host performs.
    Net(NetCard),
    /// A card whose work the host program does.
    Host(HostCard),
}

impl SlotCard {
    /// The invariant of the card inside.
    pub open spec fn wf(&self) -> bool {
        match self {
            SlotCard::Disk2(c) => c.wf(),
            SlotCard::Hdd(c) => c.wf(),
            SlotCard::Clock(c) => c.wf(),
            SlotCard::Printer(c) => c.wf(),
            SlotCard::LanguageCard(c) => c.wf(),
            SlotCard::Saturn(c) => c.wf(),
            SlotCard::Z80(c) => c.wf(),
            SlotCard::Sound(c) => c.wf(),
            SlotCard::Net(c) => c.wf(),
            _ => true,
        }
    }

    /// The type of the card inside.
    pub open spec fn kind(&self) -> CardType {
        match self {
            SlotCard::Empty(_) => CardType::Empty,
            SlotCard::Disk2(_) => CardType::Disk2,
            SlotCard::Ssc(_) => CardType::Ssc,
            SlotCard::Hdd(_) => CardType::GenericHdd,
            SlotCard::Mouse(_) => CardType::MouseInterface,
            SlotCard::Clock(_) => CardType::GenericClock,
            SlotCard::Printer(_) => CardType::GenericPrinter,
            SlotCard::Col80(_) => CardType::Col80,
            SlotCard::Extended80Col(_) => CardType::Extended80Col,
            SlotCard::RamWorks(_) => CardType::RamWorksIII,
            SlotCard::LanguageCard(_) => CardType::LanguageCard,
            SlotCard::Saturn(_) => CardType::Saturn128K,
            SlotCard::FourPlay(_) => CardType::FourPlay,
            SlotCard::SnesMax(_) => CardType::SnesMax,
            SlotCard::VidHd(_) => CardType::VidHD,
            SlotCard::Z80(_) => CardType::Z80,
            SlotCard::Host(c) => c.kind,
            SlotCard::Net(c) => c.card.card_type,
            SlotCard::Sound(c) => c.kind(),
        }
    }

    /// The slot number the card was made for.
    pub open spec fn slot_no(&self) -> usize {
        match self {
            SlotCard::Empty(c) => c.slot,
            SlotCard::Disk2(c) => c.slot,
            SlotCard::Ssc(c) => c.slot,
            SlotCard::Hdd(c) => c.slot,
            SlotCard::Mouse(c) => c.slot,
            SlotCard::Clock(c) => c.slot,
            SlotCard::Printer(c) => c.slot,
            SlotCard::Col80(c) => c.slot,
            SlotCard::Extended80Col(c) => c.slot,
            SlotCard::RamWorks(c) => c.slot,
            SlotCard::LanguageCard(c) => c.slot,
            SlotCard::Saturn(c) => c.slot,
            SlotCard::FourPlay(c) => c.slot,
            SlotCard::SnesMax(c) => c.slot,
            SlotCard::VidHd(c) => c.slot,
            SlotCard::Z80(c) => c.slot,
            SlotCard::Host(c) => c.slot,
            SlotCard::Net(c) => c.card.slot,
            SlotCard::Sound(c) => c.slot,
        }
    }

    /// The card type.
    pub fn card_type(&self) -> (r: CardType)
        ensures
            r == self.kind(),
    {
        match self {
            SlotCard::Empty(c) => c.card_type(),
            SlotCard::Disk2(c) => c.card_type(),
            SlotCard::Ssc(c) => c.card_type(),
            SlotCard::Hdd(c) => c.card_type(),
            SlotCard::Mouse(c) => c.card_type(),
            SlotCard::Clock(c) => c.card_type(),
            SlotCard::Printer(c) => c.card_type(),
            SlotCard::Col80(c) => c.card_type(),
            SlotCard::Extended80Col(c) => c.card_type(),
            SlotCard::RamWorks(c) => c.card_type(),
            SlotCard::LanguageCard(c) => c.card_type(),
            SlotCard::Saturn(c) => c.card_type(),
            SlotCard::FourPlay(c) => c.card_type(),
            SlotCard::SnesMax(c) => c.card_type(),
            SlotCard::VidHd(c) => c.card_type(),
            SlotCard::Z80(c) => c.card_type(),
            SlotCard::Host(c) => c.card_type(),
            SlotCard::Net(c) => c.card_type(),
            SlotCard::Sound(c) => c.card_type(),
        }
    }

    /// The slot number.
    pub fn slot(&self) -> (r: usize)
        ensures
            r == self.slot_no(),
    {
        match self {
            SlotCard::Empty(c) => c.slot(),
            SlotCard::Disk2(c) => c.slot(),
            SlotCard::Ssc(c) => c.slot(),
            SlotCard::Hdd(c) => c.slot(),
            SlotCard::Mouse(c) => c.slot(),
            SlotCard::Clock(c) => c.slot(),
            SlotCard::Printer(c) => c.slot(),
            SlotCard::Col80(c) => c.slot(),
            SlotCard::Extended80Col(c) => c.slot(),
            SlotCard::RamWorks(c) => c.slot(),
            SlotCard::LanguageCard(c) => c.slot(),
            SlotCard::Saturn(c) => c.slot(),
            SlotCard::FourPlay(c) => c.slot(),
            SlotCard::SnesMax(c) => c.slot(),
            SlotCard::VidHd(c) => c.slot(),
            SlotCard::Z80(c) => c.slot(),
            SlotCard::Host(c) => c.slot(),
            SlotCard::Net(c) => c.slot(),
            SlotCard::Sound(c) => c.slot(),
        }
    }
}

impl SlotCard {
    /// The slot after a read of its ROM page at `offset`, and the byte `r` read:
    /// what the card in it does, 0xFF from a card with no ROM page.
    pub open spec fn io_read_post(self, offset: u8, cycles: u64, next: SlotCard, r: u8) -> bool {
        match (self, next) {
            (SlotCard::Empty(a), SlotCard::Empty(b)) => a.io_read_post(offset, cycles, b, r),
            (SlotCard::Disk2(a), SlotCard::Disk2(b)) => a.io_read_post(offset, cycles, b, r),
            (SlotCard::Ssc(a), SlotCard::Ssc(b)) => a.io_read_post(offset, cycles, b, r),
            (SlotCard::Hdd(a), SlotCard::Hdd(b)) => a.io_read_post(offset, cycles, b, r),
            (SlotCard::Mouse(a), SlotCard::Mouse(b)) => a.io_read_post(offset, cycles, b, r),
            (SlotCard::Clock(a), SlotCard::Clock(b)) => a.io_read_post(offset, cycles, b, r),
            (SlotCard::Printer(a), SlotCard::Printer(b)) => b == a && r == 0xFF,
            (SlotCard::Col80(a), SlotCard::Col80(b)) => a.io_read_post(offset, cycles, b, r),
            (SlotCard::Extended80Col(a), SlotCard::Extended80Col(b)) => a.io_read_post(offset, cycles, b, r),
            (SlotCard::RamWorks(a), SlotCard::RamWorks(b)) => a.io_read_post(offset, cycles, b, r),
            (SlotCard::LanguageCard(a), SlotCard::LanguageCard(b)) => b == a && r == 0xFF,
            (SlotCard::Saturn(a), SlotCard::Saturn(b)) => b == a && r == 0xFF,
            (SlotCard::FourPlay(a), SlotCard::FourPlay(b)) => b == a && r == 0xFF,
            (SlotCard::SnesMax(a), SlotCard::SnesMax(b)) => b == a && r == 0xFF,
            (SlotCard::VidHd(a), SlotCard::VidHd(b)) => a.io_read_post(offset, cycles, b, r),
            (SlotCard::Z80(a), SlotCard::Z80(b)) => b == a && r == 0xFF,
            (SlotCard::Host(a), SlotCard::Host(b)) => a.io_read_post(offset, cycles, b, r),
            (SlotCard::Net(a), SlotCard::Net(b)) => a.io_read_post(offset, cycles, b, r),
            (SlotCard::Sound(a), SlotCard::Sound(b)) => a.io_read_post(offset, cycles, b, r),
            _ => false,
        }
    }

    /// Read of the card's $Cn00-$CnFF ROM page: 0xFF where the card has none.
    pub fn io_read(&mut self, offset: u8, cycles: u64) -> (r: u8)
        requires
            old(self).wf(),
        ensures
            final(self).wf(),
            final(self).kind() == old(self).kind(),
            old(self).io_read_post(offset, cycles, *final(self), r),
    {
        match self {
            SlotCard::Empty(c) => c.io_read(offset, cycles),
            SlotCard::Disk2(c) => c.io_read(offset, cycles),
            SlotCard::Ssc(c) => c.io_read(offset, cycles),
            SlotCard::Hdd(c) => c.io_read(offset, cycles),
            SlotCard::Mouse(c) => c.io_read(offset, cycles),
            SlotCard::Clock(c) => c.io_read(offset, cycles),
            SlotCard::Printer(_) => 0xFF,
            SlotCard::Col80(c) => c.io_read(offset, cycles),
            SlotCard::Extended80Col(c) => c.io_read(offset, cycles),
            SlotCard::RamWorks(c) => c.io_read(offset, cycles),
            SlotCard::LanguageCard(_) => 0xFF,
            SlotCard::Saturn(_) => 0xFF,
            SlotCard::FourPlay(_) => 0xFF,
            SlotCard::SnesMax(_) => 0xFF,
            SlotCard::VidHd(c) => c.io_read(offset, cycles),
            SlotCard::Z80(_) => 0xFF,
            SlotCard::Host(c) => c.io_read(offset, cycles),
            SlotCard::Net(c) => c.io_read(offset, cycles),
            SlotCard::Sound(c) => c.io_read(offset, cycles),
        }
    }

    /// The slot after a write of `value` to its ROM page at `offset`: what
    /// the card in it does; a card with no writable page is unchanged.
    pub open spec fn io_write_post(self, offset: u8, value: u8, cycles: u64, next: SlotCard) -> bool {
        match (self, next) {
            (SlotCard::Empty(a), SlotCard::Empty(b)) => b == a,
            (SlotCard::Disk2(a), SlotCard::Disk2(b)) => a.io_write_post(offset, value, cycles, b),
            (SlotCard::Ssc(a), SlotCard::Ssc(b)) => a.io_write_post(offset, value, cycles, b),
            (SlotCard::Hdd(a), SlotCard::Hdd(b)) => b == a,
            (SlotCard::Mouse(a), SlotCard::Mouse(b)) => b == a,
            (SlotCard::Clock(a), SlotCard::Clock(b)) => b == a,
            (SlotCard::Printer(a), SlotCard::Printer(b)) => b == a,
            (SlotCard::Col80(a), SlotCard::Col80(b)) => b == a,
            (SlotCard::Extended80Col(a), SlotCard::Extended80Col(b)) => b == a,
            (SlotCard::RamWorks(a), SlotCard::RamWorks(b)) => b == a,
            (SlotCard::LanguageCard(a), SlotCard::LanguageCard(b)) => b == a,
            (SlotCard::Saturn(a), SlotCard::Saturn(b)) => b == a,
            (SlotCard::FourPlay(a), SlotCard::FourPlay(b)) => b == a,
            (SlotCard::SnesMax(a), SlotCard::SnesMax(b)) => b == a,
            (SlotCard::VidHd(a), SlotCard::VidHd(b)) => a.io_write_post(offset, value, cycles, b),
            (SlotCard::Z80(a), SlotCard::Z80(b)) => b == a,
            (SlotCard::Host(a), SlotCard::Host(b)) => a.io_write_post(offset, value, cycles, b),
            (SlotCard::Net(a), SlotCard::Net(b)) => a.io_write_post(offset, value, cycles, b),
            (SlotCard::Sound(a), SlotCard::Sound(b)) => a.io_write_post(offset, value, cycles, b),
            _ => false,
        }
    }

    /// Write to the card's $Cn00-$CnFF page.
    pub fn io_write(&mut self, offset: u8, value: u8, cycles: u64)
        requires
            old(self).wf(),
        ensures
            final(self).wf(),
            final(self).kind() == old(self).kind(),
            old(self).io_write_post(offset, value, cycles, *final(self)),
    {
        match self {
            SlotCard::Empty(_) => {},
            SlotCard::Disk2(c) => c.io_write(offset, value, cycles),
            SlotCard::Ssc(c) => c.io_write(offset, value, cycles),
            SlotCard::Hdd(_) => {},
            SlotCard::Mouse(_) => {},
            SlotCard::Clock(_) => {},
            SlotCard::Printer(_) => {},
            SlotCard::Col80(_) => {},
            SlotCard::Extended80Col(_) => {},
            SlotCard::RamWorks(_) => {},
            SlotCard::LanguageCard(_) => {},
            SlotCard::Saturn(_) => {},
            SlotCard::FourPlay(_) => {},
            SlotCard::SnesMax(_) => {},
            SlotCard::VidHd(c) => c.io_write(offset, value, cycles),
            SlotCard::Z80(_) => {},
            SlotCard::Host(c) => c.io_write(offset, value, cycles),
            SlotCard::Net(c) => c.io_write(offset, value, cycles),
            SlotCard::Sound(c) => c.io_write(offset, value, cycles),
        }
    }

    /// The slot after a read of its register `reg`, and the byte `r` read:
    /// what the card in it does, 0xFF from a card with no registers.
    pub open spec fn slot_io_read_post(self, reg: u8, cycles: u64, next: SlotCard, r: u8) -> bool {
        match (self, next) {
            (SlotCard::Empty(a), SlotCard::Empty(b)) => b == a && r == 0xFF,
            (SlotCard::Disk2(a), SlotCard::Disk2(b)) => a.slot_io_read_post(reg, cycles, b, r),
            (SlotCard::Ssc(a), SlotCard::Ssc(b)) => a.slot_io_read_post(reg, cycles, b, r),
            (SlotCard::Hdd(a), SlotCard::Hdd(b)) => a.slot_io_read_post(reg, cycles, b, r),
            (SlotCard::Mouse(a), SlotCard::Mouse(b)) => a.slot_io_read_post(reg, cycles, b, r),
            (SlotCard::Clock(a), SlotCard::Clock(b)) => b == a && r == 0xFF,
            (SlotCard::Printer(a), SlotCard::Printer(b)) => a.slot_io_read_post(reg, cycles, b, r),
            (SlotCard::Col80(a), SlotCard::Col80(b)) => b == a && r == 0xFF,
            (SlotCard::Extended80Col(a), SlotCard::Extended80Col(b)) => b == a && r == 0xFF,
            (SlotCard::RamWorks(a), SlotCard::RamWorks(b)) => b == a && r == 0xFF,
            (SlotCard::LanguageCard(a), SlotCard::LanguageCard(b)) => b == a && r == 0xFF,
            (SlotCard::Saturn(a), SlotCard::Saturn(b)) => b == a && r == 0xFF,
            (SlotCard::FourPlay(a), SlotCard::FourPlay(b)) => a.slot_io_read_post(reg, cycles, b, r),
            (SlotCard::SnesMax(a), SlotCard::SnesMax(b)) => a.slot_io_read_post(reg, cycles, b, r),
            (SlotCard::VidHd(a), SlotCard::VidHd(b)) => a.slot_io_read_post(reg, cycles, b, r),
            (SlotCard::Z80(a), SlotCard::Z80(b)) => a.slot_io_read_post(reg, cycles, b, r),
            (SlotCard::Host(a), SlotCard::Host(b)) => a.slot_io_read_post(reg, cycles, b, r),
            (SlotCard::Net(a), SlotCard::Net(b)) => a.slot_io_read_post(reg, cycles, b, r),
            (SlotCard::Sound(a), SlotCard::Sound(b)) => a.slot_io_read_post(reg, cycles, b, r),
            _ => false,
        }
    }

    /// Read of the card's $C0n0-$C0nF register `reg` (0-15): 0xFF where it has none.
    pub fn slot_io_read(&mut self, reg: u8, cycles: u64) -> (r: u8)
        requires
            old(self).wf(),
            reg < 16,
        ensures
            final(self).wf(),
            final(self).kind() == old(self).kind(),
            old(self).slot_io_read_post(reg, cycles, *final(self), r),
    {
        match self {
            SlotCard::Empty(_) => 0xFF,
            SlotCard::Disk2(c) => c.slot_io_read(reg, cycles),
            SlotCard::Ssc(c) => c.slot_io_read(reg, cycles),
            SlotCard::Hdd(c) => c.slot_io_read(reg, cycles),
            SlotCard::Mouse(c) => c.slot_io_read(reg, cycles),
            SlotCard::Clock(_) => 0xFF,
            SlotCard::Printer(c) => c.slot_io_read(reg, cycles),
            SlotCard::Col80(_) => 0xFF,
            SlotCard::Extended80Col(_) => 0xFF,
            SlotCard::RamWorks(_) => 0xFF,
            SlotCard::LanguageCard(_) => 0xFF,
            SlotCard::Saturn(_) => 0xFF,
            SlotCard::FourPlay(c) => {
                proof {
                    crate::bits::lemma_byte(reg, 0, 0, 0);
                }
                c.slot_io_read(reg, cycles)
            },
            SlotCard::SnesMax(c) => c.slot_io_read(reg, cycles),
            SlotCard::VidHd(c) => c.slot_io_read(reg, cycles),
            SlotCard::Z80(c) => c.slot_io_read(reg, cycles),
            SlotCard::Host(c) => c.slot_io_read(reg, cycles),
            SlotCard::Net(c) => c.slot_io_read(reg, cycles),
            SlotCard::Sound(c) => c.slot_io_read(reg, cycles),
        }
    }

    /// The slot after a write of `value` to its register `reg`: what the card
    /// in it does; a card with no registers is unchanged.
    pub open spec fn slot_io_write_post(self, reg: u8, value: u8, cycles: u64, next: SlotCard) -> bool {
        match (self, next) {
            (SlotCard::Empty(a), SlotCard::Empty(b)) => b == a,
            (SlotCard::Disk2(a), SlotCard::Disk2(b)) => a.slot_io_write_post(reg, value, cycles, b),
            (SlotCard::Ssc(a), SlotCard::Ssc(b)) => a.slot_io_write_post(reg, value, cycles, b),
            (SlotCard::Hdd(a), SlotCard::Hdd(b)) => a.slot_io_write_post(reg, value, cycles, b),
            (SlotCard::Mouse(a), SlotCard::Mouse(b)) => a.slot_io_write_post(reg, value, cycles, b),
            (SlotCard::Clock(a), SlotCard::Clock(b)) => b == a,
            (SlotCard::Printer(a), SlotCard::Printer(b)) => a.slot_io_write_post(reg, value, cycles, b),
            (SlotCard::Col80(a), SlotCard::Col80(b)) => b == a,
            (SlotCard::Extended80Col(a), SlotCard::Extended80Col(b)) => b == a,
            (SlotCard::RamWorks(a), SlotCard::RamWorks(b)) => b == a,
            (SlotCard::LanguageCard(a), SlotCard::LanguageCard(b)) => b == a,
            (SlotCard::Saturn(a), SlotCard::Saturn(b)) => a.slot_io_write_post(reg, value, cycles, b),
            (SlotCard::FourPlay(a), SlotCard::FourPlay(b)) => b == a,
            (SlotCard::SnesMax(a), SlotCard::SnesMax(b)) => a.slot_io_write_post(reg, value, cycles, b),
            (SlotCard::VidHd(a), SlotCard::VidHd(b)) => a.slot_io_write_post(reg, value, cycles, b),
            (SlotCard::Z80(a), SlotCard::Z80(b)) => a.slot_io_write_post(reg, value, cycles, b),
            (SlotCard::Host(a), SlotCard::Host(b)) => a.slot_io_write_post(reg, value, cycles, b),
            (SlotCard::Net(a), SlotCard::Net(b)) => a.slot_io_write_post(reg, value, cycles, b),
            (SlotCard::Sound(a), SlotCard::Sound(b)) => a.slot_io_write_post(reg, value, cycles, b),
            _ => false,
        }
    }

    /// Write to the card's $C0n0-$C0nF register `reg`.
    pub fn slot_io_write(&mut self, reg: u8, value: u8, cycles: u64)
        requires
            old(self).wf(),
        ensures
            final(self).wf(),
            final(self).kind() == old(self).kind(),
            old(self).slot_io_write_post(reg, value, cycles, *final(self)),
    {
        match self {
            SlotCard::Empty(_) => {},
            SlotCard::Disk2(c) => c.slot_io_write(reg, value, cycles),
            SlotCard::Ssc(c) => c.slot_io_write(reg, value, cycles),
            SlotCard::Hdd(c) => c.slot_io_write(reg, value, cycles),
            SlotCard::Mouse(c) => c.slot_io_write(reg, value, cycles),
            SlotCard::Clock(_) => {},
            SlotCard::Printer(c) => c.slot_io_write(reg, value, cycles),
            SlotCard::Col80(_) => {},
            SlotCard::Extended80Col(_) => {},
            SlotCard::RamWorks(_) => {},
            SlotCard::LanguageCard(_) => {},
            SlotCard::Saturn(c) => c.slot_io_write(reg, value, cycles),
            SlotCard::FourPlay(_) => {},
            SlotCard::SnesMax(c) => c.slot_io_write(reg, value, cycles),
            SlotCard::VidHd(c) => c.slot_io_write(reg, value, cycles),
            SlotCard::Z80(c) => c.slot_io_write(reg, value, cycles),
            SlotCard::Host(c) => c.slot_io_write(reg, value, cycles),
            SlotCard::Net(c) => c.slot_io_write(reg, value, cycles),
            SlotCard::Sound(c) => c.slot_io_write(reg, value, cycles),
        }
    }

    /// The slot after a reset: what the card in it does; a card with no
    /// reset is unchanged.
    pub open spec fn reset_post(self, power_cycle: bool, next: SlotCard) -> bool {
        match (self, next) {
            (SlotCard::Empty(a), SlotCard::Empty(b)) => b == a,
            (SlotCard::Disk2(a), SlotCard::Disk2(b)) => a.reset_post(power_cycle, b),
            (SlotCard::Ssc(a), SlotCard::Ssc(b)) => a.reset_post(power_cycle, b),
            (SlotCard::Hdd(a), SlotCard::Hdd(b)) => a.reset_post(power_cycle, b),
            (SlotCard::Mouse(a), SlotCard::Mouse(b)) => a.reset_post(power_cycle, b),
            (SlotCard::Clock(a), SlotCard::Clock(b)) => a.reset_post(power_cycle, b),
            (SlotCard::Printer(a), SlotCard::Printer(b)) => a.reset_post(power_cycle, b),
            (SlotCard::Col80(a), SlotCard::Col80(b)) => b == a,
            (SlotCard::Extended80Col(a), SlotCard::Extended80Col(b)) => b == a,
            (SlotCard::RamWorks(a), SlotCard::RamWorks(b)) => b == a,
            (SlotCard::LanguageCard(a), SlotCard::LanguageCard(b)) => a.reset_post(power_cycle, b),
            (SlotCard::Saturn(a), SlotCard::Saturn(b)) => a.reset_post(power_cycle, b),
            (SlotCard::FourPlay(a), SlotCard::FourPlay(b)) => a.reset_post(power_cycle, b),
            (SlotCard::SnesMax(a), SlotCard::SnesMax(b)) => a.reset_post(power_cycle, b),
            (SlotCard::VidHd(a), SlotCard::VidHd(b)) => a.reset_post(power_cycle, b),
            (SlotCard::Z80(a), SlotCard::Z80(b)) => a.reset_post(power_cycle, b),
            (SlotCard::Host(a), SlotCard::Host(b)) => a.reset_post(power_cycle, b),
            (SlotCard::Net(a), SlotCard::Net(b)) => a.reset_post(power_cycle, b),
            (SlotCard::Sound(a), SlotCard::Sound(b)) => a.reset_post(power_cycle, b),
            _ => false,
        }
    }

    /// Reset (or power-cycle) the card.
    pub fn reset(&mut self, power_cycle: bool)
        requires
            old(self).wf(),
        ensures
            final(self).wf(),
            final(self).kind() == old(self).kind(),
            old(self).reset_post(power_cycle, *final(self)),
    {
        match self {
            SlotCard::Empty(_) => {},
            SlotCard::Disk2(c) => c.reset(power_cycle),
            SlotCard::Ssc(c) => c.reset(power_cycle),
            SlotCard::Hdd(c) => c.reset(power_cycle),
            SlotCard::Mouse(c) => c.reset(power_cycle),
            SlotCard::Clock(c) => c.reset(power_cycle),
            SlotCard::Printer(c) => c.reset(power_cycle),
            SlotCard::Col80(_) => {},
            SlotCard::Extended80Col(_) => {},
            SlotCard::RamWorks(_) => {},
            SlotCard::LanguageCard(c) => c.reset(power_cycle),
            SlotCard::Saturn(c) => c.reset(power_cycle),
            SlotCard::FourPlay(c) => c.reset(power_cycle),
            SlotCard::SnesMax(c) => c.reset(power_cycle),
            SlotCard::VidHd(c) => c.reset(power_cycle),
            SlotCard::Z80(c) => c.reset(power_cycle),
            SlotCard::Host(c) => c.reset(power_cycle),
            SlotCard::Net(c) => c.reset(power_cycle),
            SlotCard::Sound(c) => c.reset(power_cycle),
        }
    }

    /// The slot after its periodic update at cycle `cycles`: what the card
    /// in it does; a card with no update is unchanged.
    pub open spec fn update_post(self, cycles: u64, next: SlotCard) -> bool {
        match (self, next) {
            (SlotCard::Empty(a), SlotCard::Empty(b)) => b == a,
            (SlotCard::Disk2(a), SlotCard::Disk2(b)) => a.update_post(cycles, b),
            (SlotCard::Ssc(a), SlotCard::Ssc(b)) => a.update_post(cycles, b),
            (SlotCard::Hdd(a), SlotCard::Hdd(b)) => a.update_post(cycles, b),
            (SlotCard::Mouse(a), SlotCard::Mouse(b)) => b == a,
            (SlotCard::Clock(a), SlotCard::Clock(b)) => b == a,
            (SlotCard::Printer(a), SlotCard::Printer(b)) => b == a,
            (SlotCard::Col80(a), SlotCard::Col80(b)) => b == a,
            (SlotCard::Extended80Col(a), SlotCard::Extended80Col(b)) => b == a,
            (SlotCard::RamWorks(a), SlotCard::RamWorks(b)) => b == a,
            (SlotCard::LanguageCard(a), SlotCard::LanguageCard(b)) => b == a,
            (SlotCard::Saturn(a), SlotCard::Saturn(b)) => b == a,
            (SlotCard::FourPlay(a), SlotCard::FourPlay(b)) => b == a,
            (SlotCard::SnesMax(a), SlotCard::SnesMax(b)) => b == a,
            (SlotCard::VidHd(a), SlotCard::VidHd(b)) => a.update_post(cycles, b),
            (SlotCard::Z80(a), SlotCard::Z80(b)) => a.update_post(cycles, b),
            (SlotCard::Host(a), SlotCard::Host(b)) => a.update_post(cycles, b),
            (SlotCard::Net(a), SlotCard::Net(b)) => a.update_post(cycles, b),
            (SlotCard::Sound(a), SlotCard::Sound(b)) => a.update_post(cycles, b),
            _ => false,
        }
    }

    /// Periodic update at CPU cycle `cycles`.
    pub fn update(&mut self, cycles: u64)
        requires
            old(self).wf(),
        ensures
            final(self).wf(),
            final(self).kind() == old(self).kind(),
            old(self).update_post(cycles, *final(self)),
    {
        match self {
            SlotCard::Empty(_) => {},
            SlotCard::Disk2(c) => c.update(cycles),
            SlotCard::Ssc(c) => c.update(cycles),
            SlotCard::Hdd(c) => c.update(cycles),
            SlotCard::Mouse(_) => {},
            SlotCard::Clock(_) => {},
            SlotCard::Printer(_) => {},
            SlotCard::Col80(_) => {},
            SlotCard::Extended80Col(_) => {},
            SlotCard::RamWorks(_) => {},
            SlotCard::LanguageCard(_) => {},
            SlotCard::Saturn(_) => {},
            SlotCard::FourPlay(_) => {},
            SlotCard::SnesMax(_) => {},
            SlotCard::VidHd(c) => c.update(cycles),
            SlotCard::Z80(c) => c.update(cycles),
            SlotCard::Host(c) => c.update(cycles),
            SlotCard::Net(c) => c.update(cycles),
            SlotCard::Sound(c) => c.update(cycles),
        }
    }

    /// The slot after its pending DMA write `r` is taken: only the hard disk
    /// card has one.
    pub open spec fn take_dma_write_post(self, next: SlotCard, r: Option<DmaWrite>) -> bool {
        match (self, next) {
            (SlotCard::Empty(a), SlotCard::Empty(b)) => b == a && r is None,
            (SlotCard::Disk2(a), SlotCard::Disk2(b)) => b == a && r is None,
            (SlotCard::Ssc(a), SlotCard::Ssc(b)) => b == a && r is None,
            (SlotCard::Hdd(a), SlotCard::Hdd(b)) => a.take_dma_write_post(b, r),
            (SlotCard::Mouse(a), SlotCard::Mouse(b)) => b == a && r is None,
            (SlotCard::Clock(a), SlotCard::Clock(b)) => b == a && r is None,
            (SlotCard::Printer(a), SlotCard::Printer(b)) => b == a && r is None,
            (SlotCard::Col80(a), SlotCard::Col80(b)) => b == a && r is None,
            (SlotCard::Extended80Col(a), SlotCard::Extended80Col(b)) => b == a && r is None,
            (SlotCard::RamWorks(a), SlotCard::RamWorks(b)) => b == a && r is None,
            (SlotCard::LanguageCard(a), SlotCard::LanguageCard(b)) => b == a && r is None,
            (SlotCard::Saturn(a), SlotCard::Saturn(b)) => b == a && r is None,
            (SlotCard::FourPlay(a), SlotCard::FourPlay(b)) => b == a && r is None,
            (SlotCard::SnesMax(a), SlotCard::SnesMax(b)) => b == a && r is None,
            (SlotCard::VidHd(a), SlotCard::VidHd(b)) => b == a && r is None,
            (SlotCard::Z80(a), SlotCard::Z80(b)) => b == a && r is None,
            (SlotCard::Host(a), SlotCard::Host(b)) => b == a && r is None,
            (SlotCard::Net(a), SlotCard::Net(b)) => b == a && r is None,
            (SlotCard::Sound(a), SlotCard::Sound(b)) => b == a && r is None,
            _ => false,
        }
    }

    /// Take the card's pending DMA write into main RAM, if any.
    pub fn take_dma_write(&mut self) -> (r: Option<DmaWrite>)
        requires
            old(self).wf(),
        ensures
            final(self).wf(),
            final(self).kind() == old(self).kind(),
            old(self).take_dma_write_post(*final(self), r),
    {
        match self {
            SlotCard::Empty(_) => None,
            SlotCard::Disk2(_) => None,
            SlotCard::Ssc(_) => None,
            SlotCard::Hdd(c) => c.take_dma_write(),
            SlotCard::Mouse(_) => None,
            SlotCard::Clock(_) => None,
            SlotCard::Printer(_) => None,
            SlotCard::Col80(_) => None,
            SlotCard::Extended80Col(_) => None,
            SlotCard::RamWorks(_) => None,
            SlotCard::LanguageCard(_) => None,
            SlotCard::Saturn(_) => None,
            SlotCard::FourPlay(_) => None,
            SlotCard::SnesMax(_) => None,
            SlotCard::VidHd(_) => None,
            SlotCard::Z80(_) => None,
            SlotCard::Host(_) => None,
            SlotCard::Net(_) => None,
            SlotCard::Sound(_) => None,
        }
    }

    /// The slot after its pending DMA read request `r` is taken: only the
    /// hard disk card has one.
    pub open spec fn take_dma_read_request_post(self, next: SlotCard, r: Option<(u16, u16)>) -> bool {
        match (self, next) {
            (SlotCard::Empty(a), SlotCard::Empty(b)) => b == a && r is None,
            (SlotCard::Disk2(a), SlotCard::Disk2(b)) => b == a && r is None,
            (SlotCard::Ssc(a), SlotCard::Ssc(b)) => b == a && r is None,
            (SlotCard::Hdd(a), SlotCard::Hdd(b)) => a.take_dma_read_request_post(b, r),
            (SlotCard::Mouse(a), SlotCard::Mouse(b)) => b == a && r is None,
            (SlotCard::Clock(a), SlotCard::Clock(b)) => b == a && r is None,
            (SlotCard::Printer(a), SlotCard::Printer(b)) => b == a && r is None,
            (SlotCard::Col80(a), SlotCard::Col80(b)) => b == a && r is None,
            (SlotCard::Extended80Col(a), SlotCard::Extended80Col(b)) => b == a && r is None,
            (SlotCard::RamWorks(a), SlotCard::RamWorks(b)) => b == a && r is None,
            (SlotCard::LanguageCard(a), SlotCard::LanguageCard(b)) => b == a && r is None,
            (SlotCard::Saturn(a), SlotCard::Saturn(b)) => b == a && r is None,
            (SlotCard::FourPlay(a), SlotCard::FourPlay(b)) => b == a && r is None,
            (SlotCard::SnesMax(a), SlotCard::SnesMax(b)) => b == a && r is None,
            (SlotCard::VidHd(a), SlotCard::VidHd(b)) => b == a && r is None,
            (SlotCard::Z80(a), SlotCard::Z80(b)) => b == a && r is None,
            (SlotCard::Host(a), SlotCard::Host(b)) => b == a && r is None,
            (SlotCard::Net(a), SlotCard::Net(b)) => b == a && r is None,
            (SlotCard::Sound(a), SlotCard::Sound(b)) => b == a && r is None,
            _ => false,
        }
    }

    /// Take the card's pending DMA read request (source, length), if any.
    pub fn take_dma_read_request(&mut self) -> (r: Option<(u16, u16)>)
        requires
            old(self).wf(),
        ensures
            final(self).wf(),
            final(self).kind() == old(self).kind(),
            old(self).take_dma_read_request_post(*final(self), r),
    {
        match self {
            SlotCard::Empty(_) => None,
            SlotCard::Disk2(_) => None,
            SlotCard::Ssc(_) => None,
            SlotCard::Hdd(c) => c.take_dma_read_request(),
            SlotCard::Mouse(_) => None,
            SlotCard::Clock(_) => None,
            SlotCard::Printer(_) => None,
            SlotCard::Col80(_) => None,
            SlotCard::Extended80Col(_) => None,
            SlotCard::RamWorks(_) => None,
            SlotCard::LanguageCard(_) => None,
            SlotCard::Saturn(_) => None,
            SlotCard::FourPlay(_) => None,
            SlotCard::SnesMax(_) => None,
            SlotCard::VidHd(_) => None,
            SlotCard::Z80(_) => None,
            SlotCard::Host(_) => None,
            SlotCard::Net(_) => None,
            SlotCard::Sound(_) => None,
        }
    }

    /// The slot after it is handed the bytes `data` of a DMA read: only the
    /// hard disk card takes them.
    pub open spec fn dma_read_complete_post(self, data: Seq<u8>, next: SlotCard) -> bool {
        match (self, next) {
            (SlotCard::Empty(a), SlotCard::Empty(b)) => b == a,
            (SlotCard::Disk2(a), SlotCard::Disk2(b)) => b == a,
            (SlotCard::Ssc(a), SlotCard::Ssc(b)) => b == a,
            (SlotCard::Hdd(a), SlotCard::Hdd(b)) => a.dma_read_complete_post(data, b),
            (SlotCard::Mouse(a), SlotCard::Mouse(b)) => b == a,
            (SlotCard::Clock(a), SlotCard::Clock(b)) => b == a,
            (SlotCard::Printer(a), SlotCard::Printer(b)) => b == a,
            (SlotCard::Col80(a), SlotCard::Col80(b)) => b == a,
            (SlotCard::Extended80Col(a), SlotCard::Extended80Col(b)) => b == a,
            (SlotCard::RamWorks(a), SlotCard::RamWorks(b)) => b == a,
            (SlotCard::LanguageCard(a), SlotCard::LanguageCard(b)) => b == a,
            (SlotCard::Saturn(a), SlotCard::Saturn(b)) => b == a,
            (SlotCard::FourPlay(a), SlotCard::FourPlay(b)) => b == a,
            (SlotCard::SnesMax(a), SlotCard::SnesMax(b)) => b == a,
            (SlotCard::VidHd(a), SlotCard::VidHd(b)) => b == a,
            (SlotCard::Z80(a), SlotCard::Z80(b)) => b == a,
            (SlotCard::Host(a), SlotCard::Host(b)) => b == a,
            (SlotCard::Net(a), SlotCard::Net(b)) => b == a,
            (SlotCard::Sound(a), SlotCard::Sound(b)) => b == a,
            _ => false,
        }
    }

    /// Hand the card the bytes its DMA read asked for.
    pub fn dma_read_complete(&mut self, data: &[u8])
        requires
            old(self).wf(),
        ensures
            final(self).wf(),
            final(self).kind() == old(self).kind(),
            old(self).dma_read_complete_post(data@, *final(self)),
    {
        match self {
            SlotCard::Empty(_) => {},
            SlotCard::Disk2(_) => {},
            SlotCard::Ssc(_) => {},
            SlotCard::Hdd(c) => c.dma_read_complete(data),
            SlotCard::Mouse(_) => {},
            SlotCard::Clock(_) => {},
            SlotCard::Printer(_) => {},
            SlotCard::Col80(_) => {},
            SlotCard::Extended80Col(_) => {},
            SlotCard::RamWorks(_) => {},
            SlotCard::LanguageCard(_) => {},
            SlotCard::Saturn(_) => {},
            SlotCard::FourPlay(_) => {},
            SlotCard::SnesMax(_) => {},
            SlotCard::VidHd(_) => {},
            SlotCard::Z80(_) => {},
            SlotCard::Host(_) => {},
            SlotCard::Net(_) => {},
            SlotCard::Sound(_) => {},
        }
    }

    /// The slot after its pending bank swap `r` is taken: only the language
    /// and Saturn cards have one.
    pub open spec fn take_lc_bank_swap_post(self, next: SlotCard, r: Option<Vec<u8>>) -> bool {
        match (self, next) {
            (SlotCard::Empty(a), SlotCard::Empty(b)) => b == a && r is None,
            (SlotCard::Disk2(a), SlotCard::Disk2(b)) => b == a && r is None,
            (SlotCard::Ssc(a), SlotCard::Ssc(b)) => b == a && r is None,
            (SlotCard::Hdd(a), SlotCard::Hdd(b)) => b == a && r is None,
            (SlotCard::Mouse(a), SlotCard::Mouse(b)) => b == a && r is None,
            (SlotCard::Clock(a), SlotCard::Clock(b)) => b == a && r is None,
            (SlotCard::Printer(a), SlotCard::Printer(b)) => b == a && r is None,
            (SlotCard::Col80(a), SlotCard::Col80(b)) => b == a && r is None,
            (SlotCard::Extended80Col(a), SlotCard::Extended80Col(b)) => b == a && r is None,
            (SlotCard::RamWorks(a), SlotCard::RamWorks(b)) => b == a && r is None,
            (SlotCard::LanguageCard(a), SlotCard::LanguageCard(b)) => a.take_lc_bank_swap_post(b, r),
            (SlotCard::Saturn(a), SlotCard::Saturn(b)) => a.take_lc_bank_swap_post(b, r),
            (SlotCard::FourPlay(a), SlotCard::FourPlay(b)) => b == a && r is None,
            (SlotCard::SnesMax(a), SlotCard::SnesMax(b)) => b == a && r is None,
            (SlotCard::VidHd(a), SlotCard::VidHd(b)) => b == a && r is None,
            (SlotCard::Z80(a), SlotCard::Z80(b)) => b == a && r is None,
            (SlotCard::Host(a), SlotCard::Host(b)) => b == a && r is None,
            (SlotCard::Net(a), SlotCard::Net(b)) => b == a && r is None,
            (SlotCard::Sound(a), SlotCard::Sound(b)) => b == a && r is None,
            _ => false,
        }
    }

    /// Take the card's pending language-card bank swap, if any.
    pub fn take_lc_bank_swap(&mut self) -> (r: Option<Vec<u8>>)
        requires
            old(self).wf(),
        ensures
            final(self).wf(),
            final(self).kind() == old(self).kind(),
            old(self).take_lc_bank_swap_post(*final(self), r),
    {
        match self {
            SlotCard::Empty(_) => None,
            SlotCard::Disk2(_) => None,
            SlotCard::Ssc(_) => None,
            SlotCard::Hdd(_) => None,
            SlotCard::Mouse(_) => None,
            SlotCard::Clock(_) => None,
            SlotCard::Printer(_) => None,
            SlotCard::Col80(_) => None,
            SlotCard::Extended80Col(_) => None,
            SlotCard::RamWorks(_) => None,
            SlotCard::LanguageCard(c) => c.take_lc_bank_swap(),
            SlotCard::Saturn(c) => c.take_lc_bank_swap(),
            SlotCard::FourPlay(_) => None,
            SlotCard::SnesMax(_) => None,
            SlotCard::VidHd(_) => None,
            SlotCard::Z80(_) => None,
            SlotCard::Host(_) => None,
            SlotCard::Net(_) => None,
            SlotCard::Sound(_) => None,
        }
    }

    /// The slot after it is handed back the displaced bank `data`: only the
    /// language and Saturn cards take it.
    pub open spec fn store_lc_bank_post(self, data: Seq<u8>, next: SlotCard) -> bool {
        match (self, next) {
            (SlotCard::Empty(a), SlotCard::Empty(b)) => b == a,
            (SlotCard::Disk2(a), SlotCard::Disk2(b)) => b == a,
            (SlotCard::Ssc(a), SlotCard::Ssc(b)) => b == a,
            (SlotCard::Hdd(a), SlotCard::Hdd(b)) => b == a,
            (SlotCard::Mouse(a), SlotCard::Mouse(b)) => b == a,
            (SlotCard::Clock(a), SlotCard::Clock(b)) => b == a,
            (SlotCard::Printer(a), SlotCard::Printer(b)) => b == a,
            (SlotCard::Col80(a), SlotCard::Col80(b)) => b == a,
            (SlotCard::Extended80Col(a), SlotCard::Extended80Col(b)) => b == a,
            (SlotCard::RamWorks(a), SlotCard::RamWorks(b)) => b == a,
            (SlotCard::LanguageCard(a), SlotCard::LanguageCard(b)) => a.store_lc_bank_post(data, b),
            (SlotCard::Saturn(a), SlotCard::Saturn(b)) => a.store_lc_bank_post(data, b),
            (SlotCard::FourPlay(a), SlotCard::FourPlay(b)) => b == a,
            (SlotCard::SnesMax(a), SlotCard::SnesMax(b)) => b == a,
            (SlotCard::VidHd(a), SlotCard::VidHd(b)) => b == a,
            (SlotCard::Z80(a), SlotCard::Z80(b)) => b == a,
            (SlotCard::Host(a), SlotCard::Host(b)) => b == a,
            (SlotCard::Net(a), SlotCard::Net(b)) => b == a,
            (SlotCard::Sound(a), SlotCard::Sound(b)) => b == a,
            _ => false,
        }
    }

    /// Give the card back the bank that a swap displaced.
    pub fn store_lc_bank(&mut self, data: &[u8])
        requires
            old(self).wf(),
            data@.len() == 16384,
        ensures
            final(self).wf(),
            final(self).kind() == old(self).kind(),
            old(self).store_lc_bank_post(data@, *final(self)),
    {
        match self {
            SlotCard::Empty(_) => {},
            SlotCard::Disk2(_) => {},
            SlotCard::Ssc(_) => {},
            SlotCard::Hdd(_) => {},
            SlotCard::Mouse(_) => {},
            SlotCard::Clock(_) => {},
            SlotCard::Printer(_) => {},
            SlotCard::Col80(_) => {},
            SlotCard::Extended80Col(_) => {},
            SlotCard::RamWorks(_) => {},
            SlotCard::LanguageCard(c) => c.store_lc_bank(data),
            SlotCard::Saturn(c) => c.store_lc_bank(data),
            SlotCard::FourPlay(_) => {},
            SlotCard::SnesMax(_) => {},
            SlotCard::VidHd(_) => {},
            SlotCard::Z80(_) => {},
            SlotCard::Host(_) => {},
            SlotCard::Net(_) => {},
            SlotCard::Sound(_) => {},
        }
    }

    /// The slot after an image is loaded into drive `drive`, and whether it
    /// was: only a Disk II card takes one.
    pub open spec fn load_disk_post(self, drive: usize, data: Seq<u8>, ext: Seq<u8>, next: SlotCard, r: bool) -> bool {
        match (self, next) {
            (SlotCard::Empty(a), SlotCard::Empty(b)) => b == a && r == false,
            (SlotCard::Disk2(a), SlotCard::Disk2(b)) => a.load_drive_post(drive, data, ext, b, r),
            (SlotCard::Ssc(a), SlotCard::Ssc(b)) => b == a && r == false,
            (SlotCard::Hdd(a), SlotCard::Hdd(b)) => b == a && r == false,
            (SlotCard::Mouse(a), SlotCard::Mouse(b)) => b == a && r == false,
            (SlotCard::Clock(a), SlotCard::Clock(b)) => b == a && r == false,
            (SlotCard::Printer(a), SlotCard::Printer(b)) => b == a && r == false,
            (SlotCard::Col80(a), SlotCard::Col80(b)) => b == a && r == false,
            (SlotCard::Extended80Col(a), SlotCard::Extended80Col(b)) => b == a && r == false,
            (SlotCard::RamWorks(a), SlotCard::RamWorks(b)) => b == a && r == false,
            (SlotCard::LanguageCard(a), SlotCard::LanguageCard(b)) => b == a && r == false,
            (SlotCard::Saturn(a), SlotCard::Saturn(b)) => b == a && r == false,
            (SlotCard::FourPlay(a), SlotCard::FourPlay(b)) => b == a && r == false,
            (SlotCard::SnesMax(a), SlotCard::SnesMax(b)) => b == a && r == false,
            (SlotCard::VidHd(a), SlotCard::VidHd(b)) => b == a && r == false,
            (SlotCard::Z80(a), SlotCard::Z80(b)) => b == a && r == false,
            (SlotCard::Host(a), SlotCard::Host(b)) => b == a && r == false,
            (SlotCard::Net(a), SlotCard::Net(b)) => b == a && r == false,
            (SlotCard::Sound(a), SlotCard::Sound(b)) => b == a && r == false,
            _ => false,
        }
    }

    /// Load a disk image into drive `drive` of a Disk II card; `false` for other cards.
    pub fn load_disk(&mut self, drive: usize, data: &[u8], ext: &str) -> (r: bool)
        requires
            old(self).wf(),
        ensures
            final(self).wf(),
            final(self).kind() == old(self).kind(),
            old(self).load_disk_post(drive, data@, ext.spec_bytes(), *final(self), r),
    {
        match self {
            SlotCard::Empty(_) => false,
            SlotCard::Disk2(c) => c.load_drive(drive, data, ext),
            SlotCard::Ssc(_) => false,
            SlotCard::Hdd(_) => false,
            SlotCard::Mouse(_) => false,
            SlotCard::Clock(_) => false,
            SlotCard::Printer(_) => false,
            SlotCard::Col80(_) => false,
            SlotCard::Extended80Col(_) => false,
            SlotCard::RamWorks(_) => false,
            SlotCard::LanguageCard(_) => false,
            SlotCard::Saturn(_) => false,
            SlotCard::FourPlay(_) => false,
            SlotCard::SnesMax(_) => false,
            SlotCard::VidHd(_) => false,
            SlotCard::Z80(_) => false,
            SlotCard::Host(_) => false,
            SlotCard::Net(_) => false,
            SlotCard::Sound(_) => false,
        }
    }

    /// The slot after drive `drive` is given the write-back path `path`: only
    /// a Disk II card keeps one.
    pub open spec fn set_disk_path_post(self, drive: usize, path: String, next: SlotCard) -> bool {
        match (self, next) {
            (SlotCard::Empty(a), SlotCard::Empty(b)) => b == a,
            (SlotCard::Disk2(a), SlotCard::Disk2(b)) => a.set_drive_path_post(drive, path, b),
            (SlotCard::Ssc(a), SlotCard::Ssc(b)) => b == a,
            (SlotCard::Hdd(a), SlotCard::Hdd(b)) => b == a,
            (SlotCard::Mouse(a), SlotCard::Mouse(b)) => b == a,
            (SlotCard::Clock(a), SlotCard::Clock(b)) => b == a,
            (SlotCard::Printer(a), SlotCard::Printer(b)) => b == a,
            (SlotCard::Col80(a), SlotCard::Col80(b)) => b == a,
            (SlotCard::Extended80Col(a), SlotCard::Extended80Col(b)) => b == a,
            (SlotCard::RamWorks(a), SlotCard::RamWorks(b)) => b == a,
            (SlotCard::LanguageCard(a), SlotCard::LanguageCard(b)) => b == a,
            (SlotCard::Saturn(a), SlotCard::Saturn(b)) => b == a,
            (SlotCard::FourPlay(a), SlotCard::FourPlay(b)) => b == a,
            (SlotCard::SnesMax(a), SlotCard::SnesMax(b)) => b == a,
            (SlotCard::VidHd(a), SlotCard::VidHd(b)) => b == a,
            (SlotCard::Z80(a), SlotCard::Z80(b)) => b == a,
            (SlotCard::Host(a), SlotCard::Host(b)) => b == a,
            (SlotCard::Net(a), SlotCard::Net(b)) => b == a,
            (SlotCard::Sound(a), SlotCard::Sound(b)) => b == a,
            _ => false,
        }
    }

    /// Set the write-back path of drive `drive` of a Disk II card.
    pub fn set_disk_path(&mut self, drive: usize, path: String)
        requires
            old(self).wf(),
        ensures
            final(self).wf(),
            final(self).kind() == old(self).kind(),
            old(self).set_disk_path_post(drive, path, *final(self)),
    {
        match self {
            SlotCard::Empty(_) => {},
            SlotCard::Disk2(c) => c.set_drive_path(drive, path),
            SlotCard::Ssc(_) => {},
            SlotCard::Hdd(_) => {},
            SlotCard::Mouse(_) => {},
            SlotCard::Clock(_) => {},
            SlotCard::Printer(_) => {},
            SlotCard::Col80(_) => {},
            SlotCard::Extended80Col(_) => {},
            SlotCard::RamWorks(_) => {},
            SlotCard::LanguageCard(_) => {},
            SlotCard::Saturn(_) => {},
            SlotCard::FourPlay(_) => {},
            SlotCard::SnesMax(_) => {},
            SlotCard::VidHd(_) => {},
            SlotCard::Z80(_) => {},
            SlotCard::Host(_) => {},
            SlotCard::Net(_) => {},
            SlotCard::Sound(_) => {},
        }
    }

    /// The slot after the disk of drive `drive` is ejected: only a Disk II
    /// card has one.
    pub open spec fn eject_disk_post(self, drive: usize, next: SlotCard) -> bool {
        match (self, next) {
            (SlotCard::Empty(a), SlotCard::Empty(b)) => b == a,
            (SlotCard::Disk2(a), SlotCard::Disk2(b)) => a.eject_drive_post(drive, b),
            (SlotCard::Ssc(a), SlotCard::Ssc(b)) => b == a,
            (SlotCard::Hdd(a), SlotCard::Hdd(b)) => b == a,
            (SlotCard::Mouse(a), SlotCard::Mouse(b)) => b == a,
            (SlotCard::Clock(a), SlotCard::Clock(b)) => b == a,
            (SlotCard::Printer(a), SlotCard::Printer(b)) => b == a,
            (SlotCard::Col80(a), SlotCard::Col80(b)) => b == a,
            (SlotCard::Extended80Col(a), SlotCard::Extended80Col(b)) => b == a,
            (SlotCard::RamWorks(a), SlotCard::RamWorks(b)) => b == a,
            (SlotCard::LanguageCard(a), SlotCard::LanguageCard(b)) => b == a,
            (SlotCard::Saturn(a), SlotCard::Saturn(b)) => b == a,
            (SlotCard::FourPlay(a), SlotCard::FourPlay(b)) => b == a,
            (SlotCard::SnesMax(a), SlotCard::SnesMax(b)) => b == a,
            (SlotCard::VidHd(a), SlotCard::VidHd(b)) => b == a,
            (SlotCard::Z80(a), SlotCard::Z80(b)) => b == a,
            (SlotCard::Host(a), SlotCard::Host(b)) => b == a,
            (SlotCard::Net(a), SlotCard::Net(b)) => b == a,
            (SlotCard::Sound(a), SlotCard::Sound(b)) => b == a,
            _ => false,
        }
    }

    /// Eject the disk of drive `drive` of a Disk II card.
    pub fn eject_disk(&mut self, drive: usize)
        requires
            old(self).wf(),
        ensures
            final(self).wf(),
            final(self).kind() == old(self).kind(),
            old(self).eject_disk_post(drive, *final(self)),
    {
        match self {
            SlotCard::Empty(_) => {},
            SlotCard::Disk2(c) => c.eject_drive(drive),
            SlotCard::Ssc(_) => {},
            SlotCard::Hdd(_) => {},
            SlotCard::Mouse(_) => {},
            SlotCard::Clock(_) => {},
            SlotCard::Printer(_) => {},
            SlotCard::Col80(_) => {},
            SlotCard::Extended80Col(_) => {},
            SlotCard::RamWorks(_) => {},
            SlotCard::LanguageCard(_) => {},
            SlotCard::Saturn(_) => {},
            SlotCard::FourPlay(_) => {},
            SlotCard::SnesMax(_) => {},
            SlotCard::VidHd(_) => {},
            SlotCard::Z80(_) => {},
            SlotCard::Host(_) => {},
            SlotCard::Net(_) => {},
            SlotCard::Sound(_) => {},
        }
    }

    /// Whether the card is asserting IRQ: the serial card, or a host-driven
    /// card the host says is.
    pub open spec fn irq(&self) -> bool {
        match self {
            SlotCard::Ssc(c) => c.irq && c.command & 0x01 != 0,
            SlotCard::Host(c) => c.irq,
            SlotCard::Net(_) => false,
            SlotCard::Sound(c) => c.irq(),
            _ => false,
        }
    }

    /// Whether the card is asserting IRQ.
    pub fn irq_active(&self) -> (r: bool)
        ensures
            r == self.irq(),
    {
        match self {
            SlotCard::Ssc(c) => c.irq_active(),
            SlotCard::Host(c) => c.irq_active(),
            SlotCard::Net(_) => false,
            SlotCard::Sound(c) => c.irq_active(),
            _ => false,
        }
    }

    /// Whether a disk motor of the card spins: only a Disk II card has one.
    pub open spec fn motor_spins(&self) -> bool {
        match self {
            SlotCard::Disk2(c) => c.motor_on,
            _ => false,
        }
    }

    /// Whether a disk motor of the card spins.
    pub fn disk_motor_on(&self) -> (r: bool)
        ensures
            r == self.motor_spins(),
    {
        match self {
            SlotCard::Disk2(c) => c.disk_motor_on(),
            _ => false,
        }
    }
}


/// What the slots of a machine hold: cards in slots 0-7 and the auxiliary
/// slot.
pub struct CardManager {
    pub slots: Vec<Option<SlotCard>>,
    pub aux: Option<SlotCard>,
}

/// A slot that holds nothing, or a card whose invariant holds.
pub open spec fn slot_wf(c: Option<SlotCard>) -> bool {
    c matches Some(card) ==> card.wf()
}

/// A slot whose card asserts IRQ.
pub open spec fn slot_irq(c: Option<SlotCard>) -> bool {
    c matches Some(card) && card.irq()
}

/// Slot contents `a` before and `b` after a reset of the card in it (an
/// empty slot stays empty).
pub open spec fn slot_reset(a: Option<SlotCard>, b: Option<SlotCard>, power_cycle: bool) -> bool {
    match (a, b) {
        (None, None) => true,
        (Some(c0), Some(c1)) => c0.reset_post(power_cycle, c1),
        _ => false,
    }
}

/// Slot contents `a` before and `b` after the periodic update of the card
/// in it at cycle `cycles` (an empty slot stays empty).
pub open spec fn slot_updated(a: Option<SlotCard>, b: Option<SlotCard>, cycles: u64) -> bool {
    match (a, b) {
        (None, None) => true,
        (Some(c0), Some(c1)) => c0.update_post(cycles, c1),
        _ => false,
    }
}

/// `m1` is `m0` after the periodic update of every card at cycle `cycles`.
pub open spec fn cards_updated(m0: CardManager, m1: CardManager, cycles: u64) -> bool {
    &&& m1.wf()
    &&& m1.slots@.len() == m0.slots@.len()
    &&& forall|i: int| 0 <= i < NUM_SLOTS ==> slot_updated(m0.slots@[i], #[trigger] m1.slots@[i], cycles)
    &&& slot_updated(m0.aux, m1.aux, cycles)
}

/// A slot whose card has a disk motor spinning.
pub open spec fn slot_spins(c: Option<SlotCard>) -> bool {
    c matches Some(card) && card.motor_spins()
}

impl CardManager {
    /// Eight slots, each empty or holding a well-formed card.
    pub open spec fn wf(&self) -> bool {
        &&& self.slots@.len() == NUM_SLOTS
        &&& forall|i: int| 0 <= i < NUM_SLOTS ==> slot_wf(#[trigger] self.slots@[i])
        &&& slot_wf(self.aux)
    }

    /// Whether any card asserts IRQ.
    pub open spec fn irq(&self) -> bool {
        (exists|i: int| 0 <= i < NUM_SLOTS && slot_irq(#[trigger] self.slots@[i])) || slot_irq(self.aux)
    }

    /// The slots other than `slot`, and the auxiliary slot, are as in `other`.
    pub open spec fn same_except(&self, other: CardManager, slot: int) -> bool {
        &&& self.slots@.len() == other.slots@.len()
        &&& forall|i: int| 0 <= i < self.slots@.len() && i != slot ==> #[trigger] self.slots@[i] == other.slots@[i]
        &&& self.aux == other.aux
    }

    /// Slot `slot` holds a card of the same type in `self` and in `other`.
    pub open spec fn same_kind_at(&self, other: CardManager, slot: int) -> bool {
        match (self.slots@[slot], other.slots@[slot]) {
            (Some(a), Some(b)) => a.kind() == b.kind(),
            (None, None) => true,
            _ => false,
        }
    }

    /// All slots empty.
    pub fn new() -> (r: Self)
        ensures
            r.wf(),
            forall|i: int| 0 <= i < NUM_SLOTS ==> #[trigger] r.slots@[i] is None,
            r.aux is None,
    {
        let mut slots: Vec<Option<SlotCard>> = Vec::new();
        let mut i: usize = 0;
        while i < NUM_SLOTS
            invariant
                i <= NUM_SLOTS,
                slots@.len() == i,
                forall|j: int| 0 <= j < i ==> #[trigger] slots@[j] is None,
            decreases NUM_SLOTS - i,
        {
            slots.push(None);
            i = i + 1;
        }
        CardManager { slots, aux: None }
    }

    /// Put `card` into the slot it was made for; the card that was there
    /// comes back.
    pub fn insert(&mut self, card: SlotCard) -> (r: Option<SlotCard>)
        requires
            old(self).wf(),
            card.wf(),
            card.slot_no() < NUM_SLOTS,
        ensures
            final(self).wf(),
            r == old(self).slots@[card.slot_no() as int],
            final(self).slots@ == old(self).slots@.update(card.slot_no() as int, Some(card)),
            final(self).aux == old(self).aux,
    {
        let slot = card.slot();
        let mut prev = Some(card);
        std::mem::swap(&mut self.slots[slot], &mut prev);
        prev
    }

    /// Put `card` into the auxiliary slot; the card that was there comes
    /// back.
    pub fn insert_aux(&mut self, card: SlotCard) -> (r: Option<SlotCard>)
        requires
            old(self).wf(),
            card.wf(),
        ensures
            final(self).wf(),
            r == old(self).aux,
            final(self).aux == Some(card),
            final(self).slots@ == old(self).slots@,
    {
        let mut prev = Some(card);
        std::mem::swap(&mut self.aux, &mut prev);
        prev
    }

    /// Take the card out of `slot`.
    pub fn remove(&mut self, slot: usize) -> (r: Option<SlotCard>)
        requires
            old(self).wf(),
            slot < NUM_SLOTS,
        ensures
            final(self).wf(),
            r == old(self).slots@[slot as int],
            final(self).slots@ == old(self).slots@.update(slot as int, None),
            final(self).aux == old(self).aux,
    {
        let mut prev = None;
        std::mem::swap(&mut self.slots[slot], &mut prev);
        prev
    }

    /// The card in `slot`; `None` for an empty slot or a number past the
    /// last slot.
    pub fn slot(&self, slot: usize) -> (r: Option<&SlotCard>)
        requires
            self.wf(),
        ensures
            slot >= NUM_SLOTS ==> r is None,
            slot < NUM_SLOTS ==> (r is Some <==> self.slots@[slot as int] is Some),
            r matches Some(c) ==> self.slots@[slot as int] == Some(*c),
    {
        if slot < NUM_SLOTS {
            self.slots[slot].as_ref()
        } else {
            None
        }
    }

    /// The card in `slot`, to change; `None` for an empty slot or a number
    /// past the last slot.
    pub fn slot_mut(&mut self, slot: usize) -> (r: Option<&mut SlotCard>)
        requires
            old(self).wf(),
        ensures
            (slot >= NUM_SLOTS || old(self).slots@[slot as int] is None) ==> r is None && final(self).slots@
                == old(self).slots@,
            slot < NUM_SLOTS && old(self).slots@[slot as int] is Some ==> r is Some && old(self).slots@[slot as int]
                == Some(*r.unwrap()) && final(self).slots@ == old(self).slots@.update(
                slot as int,
                Some(*final(r.unwrap())),
            ),
            final(self).aux == old(self).aux,
    {
        if slot < NUM_SLOTS {
            self.slots[slot].as_mut()
        } else {
            None
        }
    }

    /// The card in the auxiliary slot, to change.
    pub fn aux_mut(&mut self) -> (r: Option<&mut SlotCard>)
        ensures
            old(self).aux is None ==> r is None && final(self).aux is None,
            old(self).aux is Some ==> r is Some && old(self).aux == Some(*r.unwrap()) && final(self).aux
                == Some(*final(r.unwrap())),
            final(self).slots == old(self).slots,
    {
        self.aux.as_mut()
    }

    /// Whether any card asserts IRQ.
    pub fn any_irq_active(&self) -> (r: bool)
        requires
            self.wf(),
        ensures
            r == self.irq(),
    {
        let mut i: usize = 0;
        while i < NUM_SLOTS
            invariant
                self.wf(),
                i <= NUM_SLOTS,
                forall|j: int| 0 <= j < i ==> !slot_irq(#[trigger] self.slots@[j]),
            decreases NUM_SLOTS - i,
        {
            let hit = match &self.slots[i] {
                Some(c) => c.irq_active(),
                None => false,
            };
            if hit {
                assert(slot_irq(self.slots@[i as int]));
                return true;
            }
            i = i + 1;
        }
        match &self.aux {
            Some(c) => c.irq_active(),
            None => false,
        }
    }

    /// Read of offset `offset` of the ROM page of the card in `slot`; `None` for an empty slot.
    pub fn io_read(&mut self, slot: usize, offset: u8, cycles: u64) -> (r: Option<u8>)
        requires
            old(self).wf(),
            slot < NUM_SLOTS,
        ensures
            final(self).wf(),
            final(self).same_except(*old(self), slot as int),
            final(self).same_kind_at(*old(self), slot as int),
            (r is None) <==> (old(self).slots@[slot as int] is None),
            r is None ==> final(self).slots@[slot as int] is None,
            old(self).slots@[slot as int] matches Some(c0) ==> (r matches Some(v) && final(self).slots@[slot as int] matches Some(c1) && c0.io_read_post(offset, cycles, c1, v)),
    {
        match self.slots[slot].as_mut() {
            Some(c) => Some(c.io_read(offset, cycles)),
            None => None,
        }
    }

    /// Write to the ROM page of the card in `slot`; `false` for an empty slot.
    pub fn io_write(&mut self, slot: usize, offset: u8, value: u8, cycles: u64) -> (r: bool)
        requires
            old(self).wf(),
            slot < NUM_SLOTS,
        ensures
            final(self).wf(),
            final(self).same_except(*old(self), slot as int),
            final(self).same_kind_at(*old(self), slot as int),
            (!r) <==> (old(self).slots@[slot as int] is None),
            !r ==> final(self).slots@[slot as int] is None,
            old(self).slots@[slot as int] matches Some(c0) ==> (final(self).slots@[slot as int] matches Some(c1) && c0.io_write_post(offset, value, cycles, c1)),
    {
        match self.slots[slot].as_mut() {
            Some(c) => {
                c.io_write(offset, value, cycles);
                true
            },
            None => false,
        }
    }

    /// Read of register `reg` of the card in `slot`; `None` for an empty slot.
    pub fn slot_io_read(&mut self, slot: usize, reg: u8, cycles: u64) -> (r: Option<u8>)
        requires
            old(self).wf(),
            slot < NUM_SLOTS,
            reg < 16,
        ensures
            final(self).wf(),
            final(self).same_except(*old(self), slot as int),
            final(self).same_kind_at(*old(self), slot as int),
            (r is None) <==> (old(self).slots@[slot as int] is None),
            r is None ==> final(self).slots@[slot as int] is None,
            old(self).slots@[slot as int] matches Some(c0) ==> (r matches Some(v) && final(self).slots@[slot as int] matches Some(c1) && c0.slot_io_read_post(reg, cycles, c1, v)),
    {
        match self.slots[slot].as_mut() {
            Some(c) => Some(c.slot_io_read(reg, cycles)),
            None => None,
        }
    }

    /// Write to register `reg` of the card in `slot`; `false` for an empty slot.
    pub fn slot_io_write(&mut self, slot: usize, reg: u8, value: u8, cycles: u64) -> (r: bool)
        requires
            old(self).wf(),
            slot < NUM_SLOTS,
        ensures
            final(self).wf(),
            final(self).same_except(*old(self), slot as int),
            final(self).same_kind_at(*old(self), slot as int),
            (!r) <==> (old(self).slots@[slot as int] is None),
            !r ==> final(self).slots@[slot as int] is None,
            old(self).slots@[slot as int] matches Some(c0) ==> (final(self).slots@[slot as int] matches Some(c1) && c0.slot_io_write_post(reg, value, cycles, c1)),
    {
        match self.slots[slot].as_mut() {
            Some(c) => {
                c.slot_io_write(reg, value, cycles);
                true
            },
            None => false,
        }
    }

    /// Take the pending DMA write of the card in `slot`.
    pub fn take_dma_write(&mut self, slot: usize) -> (r: Option<DmaWrite>)
        requires
            old(self).wf(),
            slot < NUM_SLOTS,
        ensures
            final(self).wf(),
            final(self).same_except(*old(self), slot as int),
            final(self).same_kind_at(*old(self), slot as int),
            old(self).slots@[slot as int] is None ==> r is None && final(self).slots@[slot as int] is None,
            old(self).slots@[slot as int] matches Some(c0) ==> (final(self).slots@[slot as int] matches Some(c1) && c0.take_dma_write_post(c1, r)),
    {
        match self.slots[slot].as_mut() {
            Some(c) => c.take_dma_write(),
            None => None,
        }
    }

    /// Take the pending DMA read request of the card in `slot`.
    pub fn take_dma_read_request(&mut self, slot: usize) -> (r: Option<(u16, u16)>)
        requires
            old(self).wf(),
            slot < NUM_SLOTS,
        ensures
            final(self).wf(),
            final(self).same_except(*old(self), slot as int),
            final(self).same_kind_at(*old(self), slot as int),
            old(self).slots@[slot as int] is None ==> r is None && final(self).slots@[slot as int] is None,
            old(self).slots@[slot as int] matches Some(c0) ==> (final(self).slots@[slot as int] matches Some(c1) && c0.take_dma_read_request_post(c1, r)),
    {
        match self.slots[slot].as_mut() {
            Some(c) => c.take_dma_read_request(),
            None => None,
        }
    }

    /// Hand the card in `slot` the bytes of its DMA read.
    pub fn dma_read_complete(&mut self, slot: usize, data: &[u8]) -> (r: bool)
        requires
            old(self).wf(),
            slot < NUM_SLOTS,
        ensures
            final(self).wf(),
            final(self).same_except(*old(self), slot as int),
            final(self).same_kind_at(*old(self), slot as int),
            (!r) <==> (old(self).slots@[slot as int] is None),
            !r ==> final(self).slots@[slot as int] is None,
            old(self).slots@[slot as int] matches Some(c0) ==> (final(self).slots@[slot as int] matches Some(c1) && c0.dma_read_complete_post(data@, c1)),
    {
        match self.slots[slot].as_mut() {
            Some(c) => {
                c.dma_read_complete(data);
                true
            },
            None => false,
        }
    }

    /// Take the pending bank swap of the card in `slot`.
    pub fn take_lc_bank_swap(&mut self, slot: usize) -> (r: Option<Vec<u8>>)
        requires
            old(self).wf(),
            slot < NUM_SLOTS,
        ensures
            final(self).wf(),
            final(self).same_except(*old(self), slot as int),
            final(self).same_kind_at(*old(self), slot as int),
            old(self).slots@[slot as int] is None ==> r is None && final(self).slots@[slot as int] is None,
            old(self).slots@[slot as int] matches Some(c0) ==> (final(self).slots@[slot as int] matches Some(c1) && c0.take_lc_bank_swap_post(c1, r)),
    {
        match self.slots[slot].as_mut() {
            Some(c) => c.take_lc_bank_swap(),
            None => None,
        }
    }

    /// Give the card in `slot` the bank its swap displaced.
    pub fn store_lc_bank(&mut self, slot: usize, data: &[u8]) -> (r: bool)
        requires
            old(self).wf(),
            slot < NUM_SLOTS,
            data@.len() == 16384,
        ensures
            final(self).wf(),
            final(self).same_except(*old(self), slot as int),
            final(self).same_kind_at(*old(self), slot as int),
            (!r) <==> (old(self).slots@[slot as int] is None),
            !r ==> final(self).slots@[slot as int] is None,
            old(self).slots@[slot as int] matches Some(c0) ==> (final(self).slots@[slot as int] matches Some(c1) && c0.store_lc_bank_post(data@, c1)),
    {
        match self.slots[slot].as_mut() {
            Some(c) => {
                c.store_lc_bank(data);
                true
            },
            None => false,
        }
    }

    /// Load a disk image into drive `drive` of the card in `slot`.
    pub fn load_disk(&mut self, slot: usize, drive: usize, data: &[u8], ext: &str) -> (r: Option<bool>)
        requires
            old(self).wf(),
            slot < NUM_SLOTS,
        ensures
            final(self).wf(),
            final(self).same_except(*old(self), slot as int),
            final(self).same_kind_at(*old(self), slot as int),
            (r is None) <==> (old(self).slots@[slot as int] is None),
            r is None ==> final(self).slots@[slot as int] is None,
            old(self).slots@[slot as int] matches Some(c0) ==> (r matches Some(v) && final(self).slots@[slot as int] matches Some(c1) && c0.load_disk_post(drive, data@, ext.spec_bytes(), c1, v)),
    {
        match self.slots[slot].as_mut() {
            Some(c) => Some(c.load_disk(drive, data, ext)),
            None => None,
        }
    }

    /// Set the write-back path of drive `drive` of the card in `slot`.
    pub fn set_disk_path(&mut self, slot: usize, drive: usize, path: String) -> (r: bool)
        requires
            old(self).wf(),
            slot < NUM_SLOTS,
        ensures
            final(self).wf(),
            final(self).same_except(*old(self), slot as int),
            final(self).same_kind_at(*old(self), slot as int),
            (!r) <==> (old(self).slots@[slot as int] is None),
            !r ==> final(self).slots@[slot as int] is None,
            old(self).slots@[slot as int] matches Some(c0) ==> (final(self).slots@[slot as int] matches Some(c1) && c0.set_disk_path_post(drive, path, c1)),
    {
        match self.slots[slot].as_mut() {
            Some(c) => {
                c.set_disk_path(drive, path);
                true
            },
            None => false,
        }
    }

    /// Eject the disk of drive `drive` of the card in `slot`.
    pub fn eject_disk(&mut self, slot: usize, drive: usize) -> (r: bool)
        requires
            old(self).wf(),
            slot < NUM_SLOTS,
        ensures
            final(self).wf(),
            final(self).same_except(*old(self), slot as int),
            final(self).same_kind_at(*old(self), slot as int),
            (!r) <==> (old(self).slots@[slot as int] is None),
            !r ==> final(self).slots@[slot as int] is None,
            old(self).slots@[slot as int] matches Some(c0) ==> (final(self).slots@[slot as int] matches Some(c1) && c0.eject_disk_post(drive, c1)),
    {
        match self.slots[slot].as_mut() {
            Some(c) => {
                c.eject_disk(drive);
                true
            },
            None => false,
        }
    }

    /// Reset (or power-cycle) every card.
    pub fn reset_all(&mut self, power_cycle: bool)
        requires
            old(self).wf(),
        ensures
            final(self).wf(),
            forall|i: int| 0 <= i < NUM_SLOTS ==> #[trigger] final(self).same_kind_at(*old(self), i),
            forall|i: int| 0 <= i < NUM_SLOTS ==> slot_reset(old(self).slots@[i], #[trigger] final(self).slots@[i], power_cycle),
            slot_reset(old(self).aux, final(self).aux, power_cycle),
    {
        let mut i: usize = 0;
        while i < NUM_SLOTS
            invariant
                self.wf(),
                i <= NUM_SLOTS,
                self.slots@.len() == NUM_SLOTS,
                self.aux == old(self).aux,
                forall|j: int| 0 <= j < NUM_SLOTS ==> #[trigger] self.same_kind_at(*old(self), j),
                forall|j: int| 0 <= j < i ==> slot_reset(old(self).slots@[j], #[trigger] self.slots@[j], power_cycle),
                forall|j: int| i <= j < NUM_SLOTS ==> #[trigger] self.slots@[j] == old(self).slots@[j],
            decreases NUM_SLOTS - i,
        {
            let ghost pre = *self;
            match self.slots[i].as_mut() {
                Some(c) => c.reset(power_cycle),
                None => {},
            }
            assert forall|j: int| 0 <= j < NUM_SLOTS implies #[trigger] self.same_kind_at(*old(self), j) by {
                assert(pre.same_kind_at(*old(self), j));
            }
            assert forall|j: int| 0 <= j < i + 1 implies slot_reset(old(self).slots@[j], #[trigger] self.slots@[j], power_cycle) by {
                if j < i {
                    assert(self.slots@[j] == pre.slots@[j]);
                }
            }
            i = i + 1;
        }
        let ghost pre = *self;
        match self.aux.as_mut() {
            Some(c) => c.reset(power_cycle),
            None => {},
        }
        assert forall|j: int| 0 <= j < NUM_SLOTS implies #[trigger] self.same_kind_at(*old(self), j) by {
            assert(pre.same_kind_at(*old(self), j));
        }
        assert forall|j: int| 0 <= j < NUM_SLOTS implies slot_reset(old(self).slots@[j], #[trigger] self.slots@[j], power_cycle) by {
            assert(self.slots@[j] == pre.slots@[j]);
        }
    }

    /// Periodic update of every card at CPU cycle `cycles`.
    pub fn update_all(&mut self, cycles: u64)
        requires
            old(self).wf(),
        ensures
            final(self).wf(),
            forall|i: int| 0 <= i < NUM_SLOTS ==> #[trigger] final(self).same_kind_at(*old(self), i),
            forall|i: int| 0 <= i < NUM_SLOTS ==> slot_updated(old(self).slots@[i], #[trigger] final(self).slots@[i], cycles),
            slot_updated(old(self).aux, final(self).aux, cycles),
            cards_updated(*old(self), *final(self), cycles),
    {
        let mut i: usize = 0;
        while i < NUM_SLOTS
            invariant
                self.wf(),
                i <= NUM_SLOTS,
                self.slots@.len() == NUM_SLOTS,
                self.aux == old(self).aux,
                forall|j: int| 0 <= j < NUM_SLOTS ==> #[trigger] self.same_kind_at(*old(self), j),
                forall|j: int| 0 <= j < i ==> slot_updated(old(self).slots@[j], #[trigger] self.slots@[j], cycles),
                forall|j: int| i <= j < NUM_SLOTS ==> #[trigger] self.slots@[j] == old(self).slots@[j],
            decreases NUM_SLOTS - i,
        {
            let ghost pre = *self;
            match self.slots[i].as_mut() {
                Some(c) => c.update(cycles),
                None => {},
            }
            assert forall|j: int| 0 <= j < NUM_SLOTS implies #[trigger] self.same_kind_at(*old(self), j) by {
                assert(pre.same_kind_at(*old(self), j));
            }
            assert forall|j: int| 0 <= j < i + 1 implies slot_updated(old(self).slots@[j], #[trigger] self.slots@[j], cycles) by {
                if j < i {
                    assert(self.slots@[j] == pre.slots@[j]);
                }
            }
            i = i + 1;
        }
        let ghost pre = *self;
        match self.aux.as_mut() {
            Some(c) => c.update(cycles),
            None => {},
        }
        assert forall|j: int| 0 <= j < NUM_SLOTS implies #[trigger] self.same_kind_at(*old(self), j) by {
            assert(pre.same_kind_at(*old(self), j));
        }
        assert forall|j: int| 0 <= j < NUM_SLOTS implies slot_updated(old(self).slots@[j], #[trigger] self.slots@[j], cycles) by {
            assert(self.slots@[j] == pre.slots@[j]);
        }
    }

    /// Whether a disk motor spins on any card.
    pub fn disk_motor_on(&self) -> (r: bool)
        requires
            self.wf(),
        ensures
            r == exists|i: int| 0 <= i < NUM_SLOTS && slot_spins(#[trigger] self.slots@[i]),
    {
        let mut i: usize = 0;
        while i < NUM_SLOTS
            invariant
                self.wf(),
                i <= NUM_SLOTS,
                forall|j: int| 0 <= j < i ==> !slot_spins(#[trigger] self.slots@[j]),
            decreases NUM_SLOTS - i,
        {
            let on = match &self.slots[i] {
                Some(c) => c.disk_motor_on(),
                None => false,
            };
            if on {
                assert(slot_spins(self.slots@[i as int]));
                return true;
            }
            i = i + 1;
        }
        false
    }
}

} // verus!
