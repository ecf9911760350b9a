//! Tests of the Super Serial Card.

use apple2_core::cards::ssc::{SscCard, STATUS_OVERRUN, STATUS_RDRF, STATUS_TDRE};

#[test]
fn test_tx_buffer_stores_bytes() {
    let mut card = SscCard::new(2);
    card.slot_io_write(0x08, 0x41, 0); // write 'A'
    card.slot_io_write(0x08, 0x42, 0); // write 'B'
    card.slot_io_write(0x08, 0x43, 0); // write 'C'
    let bytes = card.take_tx_bytes();
    assert_eq!(bytes, vec![0x41, 0x42, 0x43]);
    // Second drain should be empty
    assert!(card.take_tx_bytes().is_empty());
}

#[test]
fn test_rx_rdrf_set_and_cleared() {
    let mut card = SscCard::new(2);
    // Enable DTR so IRQs can work
    card.command = 0x01; // DTR=1, Rx IRQ disabled (bit1=0 actually enables!)
    card.push_rx_byte(0x55);
    // Status should have RDRF set
    let status = card.slot_io_read(0x09, 0);
    assert_ne!(status & STATUS_RDRF, 0, "RDRF should be set after push_rx_byte");
    // Read data register — should return 0x55 and clear RDRF
    let data = card.slot_io_read(0x08, 0);
    assert_eq!(data, 0x55);
    // Now status should have RDRF cleared (no more bytes)
    let status2 = card.slot_io_read(0x09, 0);
    assert_eq!(status2 & STATUS_RDRF, 0, "RDRF should be cleared after reading data");
}

#[test]
fn test_overrun_detection() {
    let mut card = SscCard::new(2);
    card.command = 0x03; // DTR=1, Rx IRQ disabled
    card.push_rx_byte(0xAA);
    // RDRF is now set; push another byte without reading
    card.push_rx_byte(0xBB);
    // Overrun flag should be set
    assert_ne!(card.status & STATUS_OVERRUN, 0, "Overrun should be set");
}

#[test]
fn test_rx_irq_when_enabled() {
    let mut card = SscCard::new(2);
    // Command: DTR=1, Rx IRQ enabled (bit1=0)
    card.command = 0x01;
    card.push_rx_byte(0x42);
    assert!(card.irq_active(), "IRQ should fire when Rx IRQ enabled and data arrives");
}

#[test]
fn test_rx_irq_not_fired_when_disabled() {
    let mut card = SscCard::new(2);
    // Command: DTR=1, Rx IRQ disabled (bit1=1)
    card.command = 0x03;
    card.push_rx_byte(0x42);
    assert!(!card.irq_active(), "IRQ should not fire when Rx IRQ disabled");
}

#[test]
fn test_programmed_reset() {
    let mut card = SscCard::new(2);
    card.push_rx_byte(0xAA);
    card.push_rx_byte(0xBB); // overrun
    card.slot_io_write(0x09, 0x00, 0); // programmed reset
    assert_eq!(card.status, STATUS_TDRE, "Status should be reset to TDRE only");
    assert!(!card.irq, "IRQ should be cleared");
}

#[test]
fn ssc_test_rom_identification() {
    let card = SscCard::new(2);
    let rom = card.cx_rom().expect("SSC should have ROM");
    assert_eq!(rom[0x01], 0x38);
    assert_eq!(rom[0x03], 0x18);
    assert_eq!(rom[0x05], 0x01);
    assert_eq!(rom[0x07], 0x31);
}
