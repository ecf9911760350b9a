//! ProDOS and DOS 3.3 disk-image creation and formatting.

pub mod bitmap;
pub mod create;
pub mod directory;
pub mod file;
pub mod format;
pub mod types;
