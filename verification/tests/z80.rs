//! Tests of the Z80 SoftCard.

use apple2_core::cards::z80card::Z80Card;

/// A card in slot 4 with `program` at address 0, activated.
fn card_with(program: &[u8]) -> Z80Card {
    let mut card = Z80Card::new(4);
    card.z80_mem_mut()[..program.len()].copy_from_slice(program);
    card.set_pc(0);
    assert_eq!(card.slot_io_read(4, 0), 0xFF);
    assert!(card.z80_active());
    card
}

#[test]
fn z80_new_card_is_inactive_and_cleared() {
    let card = Z80Card::new(4);
    assert!(!card.z80_active());
    assert_eq!(card.pc(), 0);
    assert_eq!(card.z80_mem().len(), 65536);
    assert!(card.z80_mem().iter().all(|&b| b == 0));
    assert_eq!(card.regs.sp, 0xFFFF);
    assert_eq!(card.regs.a, 0xFF);
}

#[test]
fn z80_inactive_card_runs_nothing() {
    let mut card = Z80Card::new(4);
    assert_eq!(card.execute_z80(1000), 0);
    assert_eq!(card.pc(), 0);
}

#[test]
fn z80_add_store_and_hand_back() {
    // LD A,$12 ; LD B,$34 ; ADD A,B ; LD ($1000),A ; OUT ($00),A
    let mut card = card_with(&[0x3E, 0x12, 0x06, 0x34, 0x80, 0x32, 0x00, 0x10, 0xD3, 0x00]);
    let t = card.execute_z80(1000);
    assert_eq!(t, 7 + 7 + 4 + 13 + 11);
    assert!(!card.z80_active());
    assert_eq!(card.z80_mem()[0x1000], 0x46);
    assert_eq!(card.regs.a, 0x46);
    assert_eq!(card.pc(), 10);
    // S, Z, H, P/V, N, C all clear for $12 + $34.
    assert_eq!(card.regs.f & 0xD7, 0x00);
}

#[test]
fn z80_quantum_stops_after_enough_states() {
    // A loop of NOPs: JR -1 would spin; NOP takes 4 T-states each.
    let mut card = card_with(&[]);
    let t = card.execute_z80(10);
    assert_eq!(t, 12);
    assert!(card.z80_active());
    assert_eq!(card.pc(), 3);
}

#[test]
fn z80_out_to_other_port_keeps_running() {
    // OUT ($01),A ; OUT ($00),A
    let mut card = card_with(&[0xD3, 0x01, 0xD3, 0x00]);
    let t = card.execute_z80(1000);
    assert_eq!(t, 22);
    assert!(!card.z80_active());
}

#[test]
fn z80_call_and_ret() {
    // LD SP,$8000 ; CALL $0010 ; OUT (0),A ; ... at $10: LD A,$55 ; RET
    let mut prog = vec![0u8; 0x20];
    prog[..8].copy_from_slice(&[0x31, 0x00, 0x80, 0xCD, 0x10, 0x00, 0xD3, 0x00]);
    prog[0x10..0x13].copy_from_slice(&[0x3E, 0x55, 0xC9]);
    let mut card = card_with(&prog);
    card.execute_z80(1000);
    assert!(!card.z80_active());
    assert_eq!(card.regs.a, 0x55);
    assert_eq!(card.regs.sp, 0x8000);
    // The return address was pushed little-endian below $8000.
    assert_eq!(card.z80_mem()[0x7FFE], 0x06);
    assert_eq!(card.z80_mem()[0x7FFF], 0x00);
    assert_eq!(card.pc(), 8);
}

#[test]
fn z80_push_pop_round_trip() {
    // LD SP,$9000 ; LD BC,$BEEF ; PUSH BC ; POP DE ; OUT (0),A
    let mut card = card_with(&[0x31, 0x00, 0x90, 0x01, 0xEF, 0xBE, 0xC5, 0xD1, 0xD3, 0x00]);
    card.execute_z80(1000);
    assert_eq!(card.regs.d, 0xBE);
    assert_eq!(card.regs.e, 0xEF);
    assert_eq!(card.regs.sp, 0x9000);
}

#[test]
fn z80_daa_after_bcd_add() {
    // LD A,$15 ; ADD A,$27 ; DAA ; OUT (0),A
    let mut card = card_with(&[0x3E, 0x15, 0xC6, 0x27, 0x27, 0xD3, 0x00]);
    card.execute_z80(1000);
    assert_eq!(card.regs.a, 0x42);
}

#[test]
fn z80_sub_sets_borrow_and_sign() {
    // LD A,$10 ; SUB $20 ; OUT (0),A
    let mut card = card_with(&[0x3E, 0x10, 0xD6, 0x20, 0xD3, 0x00]);
    card.execute_z80(1000);
    assert_eq!(card.regs.a, 0xF0);
    // S, N and C set; Z clear.
    assert_eq!(card.regs.f & 0x80, 0x80);
    assert_eq!(card.regs.f & 0x02, 0x02);
    assert_eq!(card.regs.f & 0x01, 0x01);
    assert_eq!(card.regs.f & 0x40, 0x00);
}

#[test]
fn z80_xor_a_sets_zero_and_parity() {
    // XOR A ; OUT (0),A
    let mut card = card_with(&[0xAF, 0xD3, 0x00]);
    card.execute_z80(1000);
    assert_eq!(card.regs.a, 0);
    assert_eq!(card.regs.f, 0x44);
}

#[test]
fn z80_cb_set_bit_and_rotate() {
    // LD A,$01 ; SET 7,A ; RLC A ; BIT 0,A ; OUT (0),A
    let mut card = card_with(&[0x3E, 0x01, 0xCB, 0xFF, 0xCB, 0x07, 0xCB, 0x47, 0xD3, 0x00]);
    card.execute_z80(1000);
    // $81 rotated left: $03, carry out of bit 7.
    assert_eq!(card.regs.a, 0x03);
    assert_eq!(card.regs.f & 0x01, 0x01);
    // BIT 0 of $03 is set: Z clear, H set.
    assert_eq!(card.regs.f & 0x40, 0x00);
    assert_eq!(card.regs.f & 0x10, 0x10);
}

#[test]
fn z80_index_register_store() {
    // LD IX,$2000 ; LD (IX+5),$AB ; LD A,(IX+5) ; INC (IX+5) ; OUT (0),A
    let mut card = card_with(&[
        0xDD, 0x21, 0x00, 0x20, 0xDD, 0x36, 0x05, 0xAB, 0xDD, 0x7E, 0x05, 0xDD, 0x34, 0x05, 0xD3, 0x00,
    ]);
    card.execute_z80(1000);
    assert_eq!(card.regs.ix, 0x2000);
    assert_eq!(card.regs.a, 0xAB);
    assert_eq!(card.z80_mem()[0x2005], 0xAC);
}

#[test]
fn z80_halt_idles() {
    // HALT
    let mut card = card_with(&[0x76]);
    let t = card.execute_z80(20);
    assert_eq!(t, 20);
    assert!(card.regs.halted);
    assert_eq!(card.pc(), 1);
    assert!(card.z80_active());
}

#[test]
fn z80_slot_write_zero_deactivates() {
    let mut card = card_with(&[]);
    card.slot_io_write(1, 0, 0);
    assert!(card.z80_active());
    card.slot_io_write(0, 0, 0);
    assert!(!card.z80_active());
}

#[test]
fn z80_reset_clears_memory_only_on_power_cycle() {
    let mut card = card_with(&[0x3E, 0x12]);
    card.execute_z80(7);
    card.reset(false);
    assert!(!card.z80_active());
    assert_eq!(card.regs.a, 0xFF);
    assert_eq!(card.z80_mem()[0], 0x3E);
    card.reset(true);
    assert_eq!(card.z80_mem()[0], 0);
}

#[test]
fn z80_update_runs_twice_the_cycles() {
    // JR -2: loops forever, 12 T-states a turn.
    let mut card = card_with(&[0x18, 0xFE]);
    card.update(6);
    // 12 T-states requested: one JR.
    assert_eq!(card.pc(), 0);
    assert_eq!(card.regs.r, 1);
}

#[test]
fn z80_load_and_store_apple_ram() {
    let mut card = Z80Card::new(4);
    let src: Vec<u8> = (0..16u8).collect();
    card.load_from_apple_ram(&src);
    assert_eq!(&card.z80_mem()[..16], &src[..]);
    assert_eq!(card.z80_mem()[16], 0);
    let mut dst = vec![0xEEu8; 20];
    card.store_to_apple_ram(&mut dst);
    assert_eq!(&dst[..16], &src[..]);
    assert_eq!(&dst[16..], &[0u8, 0, 0, 0][..]);
}

#[test]
fn z80_save_load_round_trip() {
    // LD A,$5A ; LD HL,$1234 ; EXX ; OUT (0),A
    let mut card = card_with(&[0x3E, 0x5A, 0x21, 0x34, 0x12, 0xD9, 0xD3, 0x00]);
    card.execute_z80(1000);
    card.z80_mem_mut()[0x4000] = 0x99;
    let mut out = Vec::new();
    card.save_state(&mut out);
    assert_eq!(out.len(), 0x10020);
    assert_eq!(out[0], 1);
    let mut other = Z80Card::new(4);
    assert!(other.load_state(&out, 1).is_ok());
    assert_eq!(other.z80_active(), card.z80_active());
    assert_eq!(other.regs.a, 0x5A);
    assert_eq!(other.regs.h2, 0x12);
    assert_eq!(other.regs.l2, 0x34);
    assert_eq!(other.pc(), card.pc());
    assert_eq!(other.z80_mem()[0x4000], 0x99);
    assert_eq!(other.z80_mem(), card.z80_mem());
}

#[test]
fn z80_load_short_record_is_an_error() {
    let mut card = Z80Card::new(4);
    let rec = [1u8, 1];
    assert!(card.load_state(&rec, 1).is_err());
    // The active flag was read before the record ran out.
    assert!(card.z80_active());
    assert!(card.load_state(&[], 1).is_err());
}
