//! Tests of the 6522 VIA.

use apple2_core::cards::via6522::Via6522;

#[test]
fn new_initializes_all_fields_to_zero() {
    let via = Via6522::new();
    assert_eq!(via.ora, 0);
    assert_eq!(via.orb, 0);
    assert_eq!(via.ddra, 0);
    assert_eq!(via.ddrb, 0);
    assert_eq!(via.t1cl, 0);
    assert_eq!(via.t1ch, 0);
    assert_eq!(via.t1ll, 0);
    assert_eq!(via.t1lh, 0);
    assert_eq!(via.t2cl, 0);
    assert_eq!(via.t2ch, 0);
    assert_eq!(via.sr, 0);
    assert_eq!(via.acr, 0);
    assert_eq!(via.pcr, 0);
    assert_eq!(via.ifr, 0);
    assert_eq!(via.ier, 0);
    assert_eq!(via.last_cycles, 0);
    assert!(!via.t1_running);
    assert!(!via.t2_running);
}

#[test]
fn reset_clears_state() {
    let mut via = Via6522::new();
    via.ora = 0xAB;
    via.t1_running = true;
    via.ifr = 0x40;
    via.last_cycles = 1000;
    via.reset();
    assert_eq!(via.ora, 0);
    assert!(!via.t1_running);
    assert_eq!(via.ifr, 0);
    assert_eq!(via.last_cycles, 0);
}

#[test]
fn read_write_register_roundtrip() {
    let mut via = Via6522::new();
    // Write and read back each addressable register
    via.write(0x0, 0x12); // ORB
    via.write(0x1, 0x34); // ORA
    via.write(0x2, 0x56); // DDRB
    via.write(0x3, 0x78); // DDRA
    via.write(0xA, 0x9A); // SR
    via.write(0xB, 0xBC); // ACR
    via.write(0xC, 0xDE); // PCR
    via.write(0xE, 0xF0); // IER

    assert_eq!(via.read(0x0), 0x12);
    assert_eq!(via.read(0x1), 0x34);
    assert_eq!(via.read(0x2), 0x56);
    assert_eq!(via.read(0x3), 0x78);
    assert_eq!(via.read(0xA), 0x9A);
    assert_eq!(via.read(0xB), 0xBC);
    assert_eq!(via.read(0xC), 0xDE);
    assert_eq!(via.read(0xE), 0xF0);
}

#[test]
fn write_t1ch_arms_timer_and_clears_ifr() {
    let mut via = Via6522::new();
    via.ifr = 0x40; // T1 interrupt flag set
    via.write(0x4, 0x10); // T1CL = 0x10 (also sets T1LL)
    via.write(0x5, 0x02); // T1CH = 0x02 (arms timer, clears IFR bit 6)

    assert!(via.t1_running);
    assert_eq!(via.ifr & 0x40, 0, "T1 IFR bit should be cleared");
    assert_eq!(via.t1cl, 0x10);
    assert_eq!(via.t1ch, 0x02);
    assert_eq!(via.t1ll, 0x10); // Latch updated by T1CL write
    assert_eq!(via.t1lh, 0x02); // Latch updated by T1CH write
}

#[test]
fn write_t2ch_arms_timer_and_clears_ifr() {
    let mut via = Via6522::new();
    via.ifr = 0x20; // T2 interrupt flag set
    via.write(0x8, 0x50); // T2CL
    via.write(0x9, 0x01); // T2CH (arms timer, clears IFR bit 5)

    assert!(via.t2_running);
    assert_eq!(via.ifr & 0x20, 0, "T2 IFR bit should be cleared");
    assert_eq!(via.t2cl, 0x50);
    assert_eq!(via.t2ch, 0x01);
}

#[test]
fn t1_one_shot_expires_and_stops() {
    let mut via = Via6522::new();
    via.acr = 0x00; // One-shot mode (ACR bit 6 = 0)
    via.write(0x4, 0x10); // T1CL = 0x10
    via.write(0x5, 0x00); // T1CH = 0x00 → counter = 0x0010 = 16

    // Advance past expiry: counter=16, needs delta >= 16+2 = 18
    via.tick(20);

    assert_eq!(via.ifr & 0x40, 0x40, "T1 IFR bit should be set");
    assert!(!via.t1_running, "One-shot timer should stop after expiry");
    assert_eq!(via.t1cl, 0xFF);
    assert_eq!(via.t1ch, 0xFF);
}

#[test]
fn t1_continuous_reloads_from_latch() {
    let mut via = Via6522::new();
    via.acr = 0x40; // Continuous mode (ACR bit 6 = 1)
    // Set latch to 0x0020 = 32
    via.write(0x6, 0x20); // T1LL
    via.write(0x7, 0x00); // T1LH
    // Arm timer with counter = 0x0010 = 16
    via.write(0x4, 0x10); // T1CL
    via.write(0x5, 0x00); // T1CH

    // Advance past expiry
    via.tick(20);

    assert_eq!(via.ifr & 0x40, 0x40, "T1 IFR bit should be set");
    assert!(via.t1_running, "Continuous timer should keep running");
    // Counter reloaded from latch, not 0xFFFF
    assert_ne!(via.t1cl, 0xFF);
}

#[test]
fn t2_one_shot_expires_and_stops() {
    let mut via = Via6522::new();
    via.write(0x8, 0x08); // T2CL = 0x08
    via.write(0x9, 0x00); // T2CH = 0x00 → counter = 8

    // Advance past expiry: needs delta >= 8+2 = 10
    via.tick(12);

    assert_eq!(via.ifr & 0x20, 0x20, "T2 IFR bit should be set");
    assert!(!via.t2_running, "T2 should stop after expiry");
    assert_eq!(via.t2cl, 0xFF);
    assert_eq!(via.t2ch, 0xFF);
}

#[test]
fn tick_decrements_timer_without_expiry() {
    let mut via = Via6522::new();
    via.write(0x4, 0x00); // T1CL = 0x00
    via.write(0x5, 0x01); // T1CH = 0x01 → counter = 0x0100 = 256

    // Advance by 100 cycles (not enough to expire)
    via.tick(100);

    assert!(via.t1_running, "Timer should still be running");
    assert_eq!(via.ifr & 0x40, 0, "T1 IFR should not be set");
    // Counter should be 256 - 100 = 156 = 0x009C
    let counter = ((via.t1ch as u16) << 8) | via.t1cl as u16;
    assert_eq!(counter, 156);
}

#[test]
fn tick_no_op_when_cycles_not_advanced() {
    let mut via = Via6522::new();
    via.write(0x4, 0x10);
    via.write(0x5, 0x00);
    via.tick(5);

    let cl_before = via.t1cl;
    let ch_before = via.t1ch;

    // Tick with same or earlier cycle count — should be a no-op
    via.tick(5);
    assert_eq!(via.t1cl, cl_before);
    assert_eq!(via.t1ch, ch_before);

    via.tick(3); // Earlier cycle count
    assert_eq!(via.t1cl, cl_before);
    assert_eq!(via.t1ch, ch_before);
}

#[test]
fn ifr_writing_ones_clears_bits() {
    let mut via = Via6522::new();
    via.ifr = 0x60; // T1 + T2 flags set

    // Writing 0x40 to IFR should clear bit 6 (T1)
    via.write(0xD, 0x40);
    assert_eq!(via.ifr, 0x20, "Only T2 bit should remain");

    // Writing 0x20 clears T2
    via.write(0xD, 0x20);
    assert_eq!(via.ifr, 0x00);
}

#[test]
fn ifr_read_sets_bit7_when_enabled_interrupt_active() {
    let mut via = Via6522::new();
    via.ifr = 0x40; // T1 flag set
    via.ier = 0x40; // T1 interrupt enabled

    // Reading IFR should have bit 7 set (enabled interrupt is active)
    let ifr_val = via.read(0xD);
    assert_eq!(ifr_val & 0x80, 0x80, "Bit 7 should be set");
    assert_eq!(ifr_val & 0x40, 0x40, "T1 flag should be present");
}

#[test]
fn ifr_read_clears_bit7_when_no_enabled_interrupt() {
    let mut via = Via6522::new();
    via.ifr = 0x40; // T1 flag set
    via.ier = 0x20; // Only T2 interrupt enabled (not T1)

    let ifr_val = via.read(0xD);
    assert_eq!(ifr_val & 0x80, 0x00, "Bit 7 should be clear");
}

#[test]
fn irq_active_reflects_enabled_flags() {
    let mut via = Via6522::new();
    assert!(!via.irq_active());

    via.ifr = 0x40;
    via.ier = 0x00;
    assert!(!via.irq_active(), "No enabled interrupts");

    via.ier = 0x40;
    assert!(via.irq_active(), "T1 enabled and flagged");

    via.ifr = 0x00;
    assert!(!via.irq_active(), "Flag cleared");
}

#[test]
fn save_load_state_roundtrip() {
    let mut via = Via6522::new();
    via.ora = 0x11;
    via.orb = 0x22;
    via.ddra = 0x33;
    via.ddrb = 0x44;
    via.t1cl = 0x55;
    via.t1ch = 0x66;
    via.t1ll = 0x77;
    via.t1lh = 0x88;
    via.t2cl = 0x99;
    via.t2ch = 0xAA;
    via.sr = 0xBB;
    via.acr = 0xCC;
    via.pcr = 0xDD;
    via.ifr = 0x60;
    via.ier = 0x40;
    via.last_cycles = 123456789;
    via.t1_running = true;
    via.t2_running = false;

    // Save
    let mut buf = Vec::new();
    via.save_state(&mut buf);
    assert_eq!(buf.len(), 25, "17 reg bytes + 8 cycle bytes");

    // Load into fresh VIA
    let mut via2 = Via6522::new();
    via2.load_state(&buf).unwrap();

    assert_eq!(via2.ora, 0x11);
    assert_eq!(via2.orb, 0x22);
    assert_eq!(via2.ddra, 0x33);
    assert_eq!(via2.ddrb, 0x44);
    assert_eq!(via2.t1cl, 0x55);
    assert_eq!(via2.t1ch, 0x66);
    assert_eq!(via2.t1ll, 0x77);
    assert_eq!(via2.t1lh, 0x88);
    assert_eq!(via2.t2cl, 0x99);
    assert_eq!(via2.t2ch, 0xAA);
    assert_eq!(via2.sr, 0xBB);
    assert_eq!(via2.acr, 0xCC);
    assert_eq!(via2.pcr, 0xDD);
    assert_eq!(via2.ifr, 0x60);
    assert_eq!(via2.ier, 0x40);
    assert_eq!(via2.last_cycles, 123456789);
    assert!(via2.t1_running);
    assert!(!via2.t2_running);
}

#[test]
fn write_t1ll_does_not_restart_timer() {
    let mut via = Via6522::new();
    // T1 not running
    assert!(!via.t1_running);

    // Write to T1LL (reg 6) — should update latch only, not arm timer
    via.write(0x6, 0xFF);
    assert!(!via.t1_running, "T1LL write should not arm timer");
    assert_eq!(via.t1ll, 0xFF);
}

#[test]
fn read_unknown_register_returns_0xff() {
    let via = Via6522::new();
    assert_eq!(via.read(0xF), 0xFF);
}

#[test]
fn register_addressing_masks_to_4_bits() {
    let mut via = Via6522::new();
    via.write(0x1, 0xAB); // ORA
    // Reading with upper bits set should still address ORA (reg & 0x0F = 1)
    assert_eq!(via.read(0x11), 0xAB);
    assert_eq!(via.read(0xF1), 0xAB);
}
