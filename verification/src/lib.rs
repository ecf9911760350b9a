//! Apple II emulation core: CPU, expansion cards, disk encodings and ProDOS
//! volume formatting, with their behaviour stated as Verus contracts.

pub mod bits;
pub mod bus;
pub mod card;
pub mod cards;
pub mod cpu;
pub mod emulator;
pub mod error;
pub mod model;
pub mod prodos;
