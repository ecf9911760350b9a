//! The library's error type.

use vstd::prelude::*;

verus! {

/// What can go wrong in the emulator core.
#[derive(Debug, Clone, PartialEq, Eq)]
pub enum Error {
    /// A card slot number out of range.
    InvalidSlot(u8),
    /// A save-state version this build cannot read.
    InvalidVersion(u32),
    /// A ROM image could not be loaded.
    RomLoad(String),
    /// A disk image could not be used.
    DiskImage(String),
    /// Reading or writing failed (the message of the underlying I/O error).
    Io(String),
    /// A save state could not be encoded or decoded.
    Serde(String),
}

/// The error a reader gives when the data ends before a record is complete.
pub fn unexpected_eof() -> (e: Error)
    ensures
        e is Io,
{
    Error::Io("failed to fill whole buffer".to_string())
}

} // verus!
