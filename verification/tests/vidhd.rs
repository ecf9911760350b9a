//! Tests of the VidHD card.

use apple2_core::cards::vidhd::{VidHdCard, SHR_STATUS_SHR_EN, SHR_STATUS_VBLANK};

#[test]
fn vidhd_test_rom_identification() {
    let card = VidHdCard::new(7);
    let rom = card.cx_rom().expect("VidHD should have ROM");
    // Check VIDHD ASCII signature
    assert_eq!(rom[0x10], b'V');
    assert_eq!(rom[0x11], b'I');
    assert_eq!(rom[0x12], b'D');
    assert_eq!(rom[0x13], b'H');
    assert_eq!(rom[0x14], b'D');
}

#[test]
fn test_presence_detection() {
    let mut card = VidHdCard::new(7);
    // Read slot I/O presence bytes
    let v = card.slot_io_read(0x02, 0);
    let h = card.slot_io_read(0x03, 0);
    assert_eq!(v, 0x56, "Presence byte should be 'V'");
    assert_eq!(h, 0x48, "Presence byte should be 'H'");
}

#[test]
fn test_shr_enable_disable() {
    let mut card = VidHdCard::new(7);
    assert!(!card.is_shr_enabled());
    // Enable SHR via control register
    card.slot_io_write(0x00, 0x01, 0);
    assert!(card.is_shr_enabled());
    // Status should reflect SHR enabled
    let status = card.slot_io_read(0x00, 0);
    assert_ne!(status & SHR_STATUS_SHR_EN, 0);
    // Disable
    card.slot_io_write(0x00, 0x00, 0);
    assert!(!card.is_shr_enabled());
}

#[test]
fn test_new_video_register() {
    let mut card = VidHdCard::new(7);
    // Write NEWVIDEO with SHR bit set
    card.slot_io_write(0x01, 0x80, 0);
    assert!(card.is_shr_enabled());
    assert_eq!(card.slot_io_read(0x01, 0), 0x80);
    // Clear SHR
    card.slot_io_write(0x01, 0x00, 0);
    assert!(!card.is_shr_enabled());
}

#[test]
fn test_vblank_toggles() {
    let mut card = VidHdCard::new(7);
    let initial = card.slot_io_read(0x00, 0) & SHR_STATUS_VBLANK;
    // Run update ticks
    for _ in 0..4 {
        card.update(0);
    }
    let after = card.slot_io_read(0x00, 0) & SHR_STATUS_VBLANK;
    assert_ne!(initial, after, "VBlank should toggle after update ticks");
}

#[test]
fn test_reset() {
    let mut card = VidHdCard::new(7);
    card.slot_io_write(0x00, 0x01, 0); // enable SHR
    card.slot_io_write(0x01, 0x80, 0); // set NEWVIDEO
    card.reset(true);
    assert!(!card.is_shr_enabled());
    assert_eq!(card.slot_io_read(0x01, 0), 0x00);
}
