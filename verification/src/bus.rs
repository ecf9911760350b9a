//! Game I/O and memory-routing types of the system bus: copy-protection
//! dongles, the joystick / paddle state with its one-shot timers, the page
//! routing of the memory map, and the bus memory snapshot.

use vstd::prelude::*;

pub mod machine;
pub mod soft_switches;
pub mod laws;

pub use machine::Bus;



verus! {

/// The memory-mode soft switches, one bit per switch.
#[derive(Debug, Clone, Copy, PartialEq, Eq, Hash, Structural)]
pub struct MemMode {
    pub bits: u32,
}

/// Every bit that names a switch.
pub const MEM_MODE_ALL: u32 = 0x0007_FFFF;

impl MemMode {
    /// 80STORE: PAGE2 (and with HIRES the hi-res page) selects aux memory
    /// for the display pages.
    pub const MF_80STORE: u32 = 0x0001;
    /// ALTZP: zero page, stack and language-card RAM in aux memory.
    pub const MF_ALTZP: u32 = 0x0002;
    /// RAMRD: reads of $0200-$BFFF from aux memory.
    pub const MF_AUXREAD: u32 = 0x0004;
    /// RAMWRT: writes of $0200-$BFFF to aux memory.
    pub const MF_AUXWRITE: u32 = 0x0008;
    /// Language card: bank 2 at $D000-$DFFF.
    pub const MF_BANK2: u32 = 0x0010;
    /// Language card: RAM read at $D000-$FFFF.
    pub const MF_HIGHRAM: u32 = 0x0020;
    /// HIRES: high-resolution graphics page.
    pub const MF_HIRES: u32 = 0x0040;
    /// PAGE2: alternate text / graphics page.
    pub const MF_PAGE2: u32 = 0x0080;
    /// SLOTC3ROM: slot 3 ROM visible.
    pub const MF_SLOTC3ROM: u32 = 0x0100;
    /// INTCXROM: internal ROM at $C100-$CFFF.
    pub const MF_INTCXROM: u32 = 0x0200;
    /// Language card: RAM write-enabled.
    pub const MF_WRITERAM: u32 = 0x0400;
    /// IOUDIS (Apple //c).
    pub const MF_IOUDIS: u32 = 0x0800;
    /// Alternate ROM bank, bit 0.
    pub const MF_ALTROM0: u32 = 0x1000;
    /// Alternate ROM bank, bit 1.
    pub const MF_ALTROM1: u32 = 0x2000;
    /// Graphics mode ($C050 set, $C051 clear).
    pub const MF_GRAPHICS: u32 = 0x4000;
    /// Mixed mode: the last four text rows over graphics ($C053).
    pub const MF_MIXED: u32 = 0x8000;
    /// 80-column video ($C00D set, $C00C clear).
    pub const MF_VID80: u32 = 0x0001_0000;
    /// Alternate character set ($C00F set, $C00E clear).
    pub const MF_ALTCHAR: u32 = 0x0002_0000;
    /// Double hi-res / double lo-res ($C05E on, $C05F off).
    pub const MF_DHIRES: u32 = 0x0004_0000;

    /// No switch set.
    pub fn empty() -> (r: Self)
        ensures
            r.bits == 0,
    {
        MemMode { bits: 0 }
    }

    /// The switches of `bits`, with the bits that name no switch dropped.
    pub fn from_bits_truncate(bits: u32) -> (r: Self)
        ensures
            r.bits == bits & MEM_MODE_ALL,
    {
        MemMode { bits: bits & MEM_MODE_ALL }
    }

    /// The bits of the switches.
    pub fn bits(&self) -> (r: u32)
        ensures
            r == self.bits,
    {
        self.bits
    }

    /// All the switches of `mask` are set.
    pub fn contains(&self, mask: u32) -> (r: bool)
        ensures
            r == (self.bits & mask == mask),
    {
        self.bits & mask == mask
    }

    /// Set the switches of `mask`.
    pub fn insert(&mut self, mask: u32)
        ensures
            final(self).bits == old(self).bits | mask,
    {
        self.bits = self.bits | mask;
    }

    /// Clear the switches of `mask`.
    pub fn remove(&mut self, mask: u32)
        ensures
            final(self).bits == old(self).bits & !mask,
    {
        self.bits = self.bits & !mask;
    }

    /// Flip the switches of `mask`.
    pub fn toggle(&mut self, mask: u32)
        ensures
            final(self).bits == old(self).bits ^ mask,
    {
        self.bits = self.bits ^ mask;
    }
}

impl Default for MemMode {
    fn default() -> (r: Self)
        ensures
            r.bits == 0,
    {
        MemMode { bits: 0 }
    }
}

/// Copy-protection dongles for the game I/O connector: each presents fixed
/// paddle values and buttons.
#[derive(Debug, Clone, Copy, PartialEq, Eq, Hash, Structural)]
pub enum DongleType {
    /// SDS SpeedStar (Southwestern Data Systems).
    SdsSpeedStar,
    /// CodeWriter (Dynatech/Cortechs).
    CodeWriter,
    /// Robocom Interface Module (500 variant).
    Robocom500,
    /// Robocom Interface Module (1500 variant).
    Robocom1500,
    /// Hayden's Applesoft Compiler Key.
    Hayden,
}

/// A dongle's paddle 0 and paddle 1 values and the buttons it holds down.
pub open spec fn dongle_overrides(d: DongleType) -> (u8, u8, u8) {
    match d {
        DongleType::SdsSpeedStar => (255, 255, 0x04),
        DongleType::CodeWriter => (128, 128, 0x00),
        DongleType::Robocom500 => (0, 255, 0x00),
        DongleType::Robocom1500 => (255, 0, 0x00),
        DongleType::Hayden => (255, 255, 0x06),
    }
}

impl DongleType {
    /// The paddle values (paddle 0, paddle 1) and button bits (PB0-PB2)
    /// this dongle presents.
    pub fn overrides(&self) -> (r: (u8, u8, u8))
        ensures
            r == dongle_overrides(*self),
    {
        match self {
            DongleType::SdsSpeedStar => (255, 255, 0x04),
            DongleType::CodeWriter => (128, 128, 0x00),
            DongleType::Robocom500 => (0, 255, 0x00),
            DongleType::Robocom1500 => (255, 0, 0x00),
            DongleType::Hayden => (255, 255, 0x06),
        }
    }
}

/// Joystick / paddle state of the game I/O connector.
#[derive(Debug, Clone)]
pub struct GamepadState {
    /// Paddle 0 (X axis): 0 left, 255 right, 127 centre.
    pub paddle0: u8,
    /// Paddle 1 (Y axis): 0 up, 255 down, 127 centre.
    pub paddle1: u8,
    /// Buttons: bit 0 open apple, bit 1 closed apple, bit 2 button 2.
    pub buttons: u8,
    /// CPU cycle at which the paddle 0 one-shot expires.
    pub paddle0_end: u64,
    /// CPU cycle at which the paddle 1 one-shot expires.
    pub paddle1_end: u64,
    /// A copy-protection dongle, which overrides paddles and buttons.
    pub dongle: Option<DongleType>,
}

/// The paddle values the one-shots time: the dongle's, or the sticks'.
pub open spec fn paddle_values(g: GamepadState) -> (u8, u8) {
    match g.dongle {
        Some(d) => (dongle_overrides(d).0, dongle_overrides(d).1),
        None => (g.paddle0, g.paddle1),
    }
}

impl Default for GamepadState {
    fn default() -> (r: Self)
        ensures
            r.paddle0 == 127 && r.paddle1 == 127 && r.buttons == 0,
            r.paddle0_end == 0 && r.paddle1_end == 0,
            r.dongle is None,
    {
        Self { paddle0: 127, paddle1: 127, buttons: 0, paddle0_end: 0, paddle1_end: 0, dongle: None }
    }
}

impl GamepadState {
    /// Start the paddle one-shots ($C070): each runs `value * 11 + 3` CPU
    /// cycles from `cycles`.
    pub fn strobe(&mut self, cycles: u64)
        requires
            cycles + paddle_values(*old(self)).0 * 11 + 3 <= u64::MAX,
            cycles + paddle_values(*old(self)).1 * 11 + 3 <= u64::MAX,
        ensures
            final(self).paddle0_end == cycles + paddle_values(*old(self)).0 * 11 + 3,
            final(self).paddle1_end == cycles + paddle_values(*old(self)).1 * 11 + 3,
            final(self).paddle0 == old(self).paddle0 && final(self).paddle1 == old(self).paddle1,
            final(self).buttons == old(self).buttons && final(self).dongle == old(self).dongle,
    {
        let (p0, p1) = match &self.dongle {
            Some(d) => {
                let (dp0, dp1, _) = d.overrides();
                (dp0, dp1)
            },
            None => (self.paddle0, self.paddle1),
        };
        self.paddle0_end = cycles + p0 as u64 * 11 + 3;
        self.paddle1_end = cycles + p1 as u64 * 11 + 3;
    }

    /// The buttons as the machine sees them: with a dongle's buttons added.
    pub fn effective_buttons(&self) -> (r: u8)
        ensures
            r == (match self.dongle {
                Some(d) => self.buttons | dongle_overrides(d).2,
                None => self.buttons,
            }),
    {
        match &self.dongle {
            Some(d) => {
                let (_, _, btn_or) = d.overrides();
                self.buttons | btn_or
            },
            None => self.buttons,
        }
    }
}

/// Source of a 256-byte read page.
#[derive(Debug, Clone, Copy, PartialEq, Eq, Structural)]
pub enum PageSrc {
    /// Main RAM at the given base address.
    Main(u16),
    /// Aux RAM at the given base address.
    Aux(u16),
    /// ROM image at the given base address.
    Rom(u16),
    /// I/O space, handled by card dispatch.
    Io,
    /// Floating bus (open bus value).
    FloatingBus,
}

/// Destination of a 256-byte write page.
#[derive(Debug, Clone, Copy, PartialEq, Eq, Structural)]
pub enum PageDst {
    /// Main RAM at the given base address.
    Main(u16),
    /// Aux RAM at the given base address.
    Aux(u16),
    /// Writes are ignored (ROM, etc.).
    Inhibit,
}

/// Snapshot of bus memory state for save states.
#[derive(Debug, Clone)]
pub struct BusSnapshot {
    pub main_ram: Vec<u8>,
    pub aux_ram: Vec<u8>,
    pub mode: u32,
    pub speaker_state: bool,
}

} // verus!
