//! Tests of the sound-card rules: AY bus cycles, VIA selection, Phasor
//! chip selects and the SSI-263 speech chip.

use apple2_core::cards::ay::AyGen;
use apple2_core::cards::sound::{
    ay_bus_op, phasor_targets, phoneme_duration, read_strobes_ay, speech_write, strobe_ay, strobe_ay_mirrored, via_ay_read,
    via_ay_write, via_register, write_strobes_ay, AyBusOp, SpeechChip,
};
use apple2_core::cards::via6522::Via6522;

#[test]
fn sound_ay_bus_cycles_from_port_b() {
    assert_eq!(ay_bus_op(0x00), AyBusOp::Inactive);
    assert_eq!(ay_bus_op(0x01), AyBusOp::Read);
    assert_eq!(ay_bus_op(0x02), AyBusOp::Write);
    assert_eq!(ay_bus_op(0x03), AyBusOp::Latch);
    // Only bits 1:0 count.
    assert_eq!(ay_bus_op(0xFE), AyBusOp::Write);
    assert_eq!(ay_bus_op(0x04), AyBusOp::Inactive);
}

#[test]
fn sound_via_register_selection() {
    assert_eq!(via_register(0x00), (0, 0));
    assert_eq!(via_register(0x07), (0, 7));
    assert_eq!(via_register(0x08), (1, 0));
    assert_eq!(via_register(0x0C), (1, 4));
}

#[test]
fn sound_phasor_chip_selects() {
    assert_eq!(phasor_targets(0x18, 1, true), (Some(2), Some(3)));
    assert_eq!(phasor_targets(0x08, 0, true), (Some(0), None));
    assert_eq!(phasor_targets(0x10, 0, true), (None, Some(1)));
    assert_eq!(phasor_targets(0x03, 1, true), (None, None));
    assert_eq!(phasor_targets(0xFF, 1, false), (Some(1), None));
}

#[test]
fn sound_phoneme_lengths() {
    // Duration bits 7:6 = 0: four times the base length.
    assert_eq!(phoneme_duration(0x01, 0x01), 7200);
    // Bits 7:6 = 3: the base length.
    assert_eq!(phoneme_duration(0x30, 0xF0), 800);
    assert_eq!(phoneme_duration(0x10, 0x90), 4400);
}

#[test]
fn sound_speech_phoneme_and_ready() {
    let mut chip = SpeechChip::new();
    assert!(chip.is_ready());
    assert!(chip.write_reg(0, 0x01));
    assert_eq!(chip.phoneme, 1);
    assert_eq!(chip.samples_remaining, 7200);
    assert_eq!(chip.ready_countdown, 7200);
    assert!(!chip.tick(7000));
    assert_eq!(chip.ready_countdown, 200);
    assert!(chip.tick(300));
    assert!(chip.is_ready());
    // Once ready it stays quiet.
    assert!(!chip.tick(1000));
}

#[test]
fn sound_speech_power_down_and_restart() {
    let mut chip = SpeechChip::new();
    chip.write_reg(0, 0x01);
    // CTL set: powered down, no restart.
    assert!(!chip.write_reg(3, 0x80));
    assert!(!chip.powered);
    chip.ready_countdown = 5;
    assert!(!chip.tick(100));
    assert_eq!(chip.ready_countdown, 5);
    // CTL cleared: powered up and the phoneme restarts.
    assert!(chip.write_reg(3, 0x05));
    assert!(chip.powered);
    assert_eq!(chip.ready_countdown, 7200);
    assert_eq!(chip.regs[3], 0x05);
}

#[test]
fn sound_speech_register_select() {
    let mut chip = SpeechChip::new();
    // Data-port write: bits 4:3 = 01 select register 1.
    chip.write(0x0A);
    assert_eq!(chip.regs[1], 0x0A);
    chip.write_reg(4, 0x33);
    assert_eq!(chip.regs[4], 0x33);
    // Register numbers past 4 with low bits 4 write nothing.
    chip.write_reg(12, 0x44);
    assert_eq!(chip.regs, [0, 0x0A, 0, 0, 0x33]);
}

#[test]
fn ay_bus_cycles_through_port_b() {
    let mut via = Via6522::new();
    let mut ay = AyGen::new();
    // Latch register 7 from port A.
    via.ora = 7;
    via.orb = 0x03;
    strobe_ay(&mut via, &mut ay);
    assert_eq!(ay.selected_reg, 7);
    // Write 0x3F to it.
    via.ora = 0x3F;
    via.orb = 0x02;
    strobe_ay(&mut via, &mut ay);
    assert_eq!(ay.regs[7], 0x3F);
    // Read it back into port A.
    via.ora = 0;
    via.orb = 0x01;
    strobe_ay(&mut via, &mut ay);
    assert_eq!(via.ora, 0x3F);
    // Inactive: nothing moves.
    via.ora = 0x55;
    via.orb = 0x00;
    strobe_ay(&mut via, &mut ay);
    assert_eq!(via.ora, 0x55);
    assert_eq!(ay.regs[7], 0x3F);
}

#[test]
fn via_port_writes_drive_the_ay() {
    let mut via = Via6522::new();
    let mut ay = AyGen::new();
    // Port A holds the register number; a port B write latches it.
    via_ay_write(&mut via, &mut ay, 1, 0x08, 10);
    assert_eq!(ay.selected_reg, 0);
    via_ay_write(&mut via, &mut ay, 0, 0x03, 20);
    assert_eq!(ay.selected_reg, 8);
    // Port A holds the value; a port B write stores it.
    via_ay_write(&mut via, &mut ay, 1, 0x0F, 30);
    via_ay_write(&mut via, &mut ay, 0, 0x02, 40);
    assert_eq!(ay.regs[8], 0x0F);
    // Read mode: a port A read first puts the register on the bus.
    via_ay_write(&mut via, &mut ay, 1, 0x00, 50);
    via_ay_write(&mut via, &mut ay, 0, 0x00, 55);
    via.orb = 0x01;
    assert_eq!(via_ay_read(&mut via, &mut ay, 1, 60), 0x0F);
    // With BC1 low a port A read just reads the port.
    via.orb = 0x00;
    via.ora = 0x44;
    assert_eq!(via_ay_read(&mut via, &mut ay, 1, 70), 0x44);
    // Other registers are plain VIA reads.
    assert_eq!(via_ay_read(&mut via, &mut ay, 0, 80), 0x00);
}

#[test]
fn speech_chip_gets_port_a_writes_with_cb2_control() {
    assert!(speech_write(1, 0x20));
    assert!(speech_write(1, 0xE0));
    assert!(!speech_write(1, 0x1F));
    assert!(!speech_write(0, 0xE0));
}

#[test]
fn ay_read_after_write_is_cut_to_register_width() {
    let mut ay = AyGen::new();
    for (reg, expect) in [(1u8, 0x0Fu8), (3, 0x0F), (5, 0x0F), (6, 0x1F), (7, 0xFF), (8, 0xFF), (13, 0xFF)] {
        ay.select_reg(reg);
        ay.write_reg(0xFF);
        assert_eq!(ay.read_reg(), expect, "register {reg}");
    }
    // Only the low four bits of a latched address count.
    ay.select_reg(0x1F);
    assert_eq!(ay.selected_reg, 0x0F);
}

#[test]
fn port_accesses_that_run_the_bus_cycle() {
    assert!(read_strobes_ay(1, 0x01));
    assert!(read_strobes_ay(1, 0xFF));
    assert!(!read_strobes_ay(1, 0xFE));
    assert!(!read_strobes_ay(0, 0x01));
    assert!(write_strobes_ay(0));
    assert!(!write_strobes_ay(1));
}

#[test]
fn megaaudio_third_chip_follows_first_via() {
    let mut via = Via6522::new();
    let mut ay = AyGen::new();
    let mut third = AyGen::new();
    via.ora = 4;
    via.orb = 0x03;
    strobe_ay_mirrored(&mut via, &mut ay, &mut third, true);
    assert_eq!((ay.selected_reg, third.selected_reg), (4, 4));
    via.ora = 0x9A;
    via.orb = 0x02;
    strobe_ay_mirrored(&mut via, &mut ay, &mut third, true);
    assert_eq!((ay.regs[4], third.regs[4]), (0x9A, 0x9A));
    // Reads come from the first chip only.
    third.regs[4] = 0x11;
    via.orb = 0x01;
    strobe_ay_mirrored(&mut via, &mut ay, &mut third, true);
    assert_eq!(via.ora, 0x9A);
    // The second VIA does not reach the third chip.
    via.ora = 0x77;
    via.orb = 0x02;
    strobe_ay_mirrored(&mut via, &mut ay, &mut third, false);
    assert_eq!((ay.regs[4], third.regs[4]), (0x77, 0x11));
}
