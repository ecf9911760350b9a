//! Disk II interface card: GCR nibble encodings, WOZ bit streams and the
//! drive / controller state machine.

pub mod gcr;
pub mod nib;
pub mod woz;
pub mod drive;
pub mod controller;

pub use controller::Disk2Card;
pub use drive::{DiskFormat, Drive, ImageWrite};
pub use woz::{crc32, detect_weak_bits, parse_woz, SimpleRng, WozImage, WozTrack};
