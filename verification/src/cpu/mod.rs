//! The 6502 / 65C02 processor: status flags and the register file with its
//! arithmetic and logic operations.

pub mod cpu6502;
pub mod flags;
pub mod addressing;
pub mod dispatch;
pub mod laws;

pub use cpu6502::{Cpu, CpuSnapshot};
pub use flags::Flags;
