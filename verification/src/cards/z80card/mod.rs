//! Microsoft Z80 SoftCard: a Z80 that takes over the bus while the 6502
//! waits, running on its own 64 KiB of memory until it executes `OUT (0), A`.

pub mod regs;
pub mod access;
pub mod alu;
pub mod decode;
pub mod card;

pub use card::Z80Card;
pub mod semantics;
