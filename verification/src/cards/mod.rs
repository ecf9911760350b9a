//! Expansion cards.

pub mod disk2;
pub mod via6522;
pub mod ssc;
pub mod vidhd;
pub mod hd;
pub mod col80;
pub mod fourplay;
pub mod languagecard;
pub mod ramworks;
pub mod saturn;
pub mod printer;
pub mod snesmax;
pub mod mouse;
pub mod noslotclock;
pub mod z80card;
pub mod sound;
pub mod uthernet;
pub mod host;
pub mod ay;
pub mod soundcard;
