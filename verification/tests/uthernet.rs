//! Tests of the Uthernet cards' register model.

use apple2_core::cards::uthernet::{NetCommand, PollResult, UthernCard, UthernetChip};

/// Point the data port at `addr`.
fn set_addr(card: &mut UthernCard, addr: u16) {
    assert!(card.slot_io_write(1, (addr >> 8) as u8, 0).is_none());
    assert!(card.slot_io_write(2, addr as u8, 0).is_none());
}

fn poke(card: &mut UthernCard, addr: u16, val: u8) -> Option<NetCommand> {
    set_addr(card, addr);
    card.slot_io_write(3, val, 0)
}

fn peek(card: &mut UthernCard, addr: u16) -> u8 {
    set_addr(card, addr);
    card.slot_io_read(3, 0)
}

#[test]
fn uthernet1_plain_registers() {
    let mut card = UthernCard::new_uthernet1(3);
    card.slot_io_write(5, 0x77, 0);
    assert_eq!(card.slot_io_read(5, 0), 0x77);
    // Only the low four bits select.
    assert_eq!(card.slot_io_read(0x15, 0), 0x77);
    card.reset(false);
    assert_eq!(card.slot_io_read(5, 0), 0);
}

#[test]
fn uthernet2_identifies_and_steps_address() {
    let mut card = UthernCard::new_uthernet2(3);
    set_addr(&mut card, 0x0019);
    assert_eq!(card.slot_io_read(1, 0), 0x00);
    assert_eq!(card.slot_io_read(2, 0), 0x19);
    assert_eq!(card.slot_io_read(3, 0), 0x04);
    assert_eq!(card.slot_io_read(3, 0), 0x55);
    assert_eq!(card.slot_io_read(2, 0), 0x1B);
}

#[test]
fn uthernet2_tcp_open_and_connect() {
    let mut card = UthernCard::new_uthernet2(3);
    assert!(poke(&mut card, 0x0400, 0x01).is_none());
    assert!(poke(&mut card, 0x0401, 0x01).is_none());
    assert_eq!(peek(&mut card, 0x0403), 0x13);
    assert_eq!(peek(&mut card, 0x0401), 0);
    for (i, b) in [10u8, 0, 0, 1].iter().enumerate() {
        poke(&mut card, 0x040C + i as u16, *b);
    }
    poke(&mut card, 0x0410, 0x00);
    poke(&mut card, 0x0411, 80);
    match poke(&mut card, 0x0401, 0x04) {
        Some(NetCommand::Connect { sock, ip, port }) => {
            assert_eq!(sock, 0);
            assert_eq!(ip, [10, 0, 0, 1]);
            assert_eq!(port, 80);
        }
        other => panic!("expected a connect, got {:?}", other),
    }
    if let UthernetChip::W5100(w) = &mut card.inner {
        w.connect_done(0, true);
    }
    assert_eq!(peek(&mut card, 0x0403), 0x17);
}

#[test]
fn uthernet2_udp_open_send_and_receive() {
    let mut card = UthernCard::new_uthernet2(3);
    poke(&mut card, 0x0500, 0x02);
    poke(&mut card, 0x0504, 0x12);
    poke(&mut card, 0x0505, 0x34);
    match poke(&mut card, 0x0501, 0x01) {
        Some(NetCommand::OpenUdp { sock, port }) => {
            assert_eq!(sock, 1);
            assert_eq!(port, 0x1234);
        }
        other => panic!("expected a UDP open, got {:?}", other),
    }
    assert_eq!(peek(&mut card, 0x0503), 0x22);
    // Socket 1's transmit buffer starts 2 KiB into the transmit area.
    set_addr(&mut card, 0x4800);
    card.slot_io_write(3, b'H', 0);
    card.slot_io_write(3, b'I', 0);
    match poke(&mut card, 0x0501, 0x20) {
        Some(NetCommand::Send { sock, data, .. }) => {
            assert_eq!(sock, 1);
            assert_eq!(data, b"HI".to_vec());
        }
        other => panic!("expected a send, got {:?}", other),
    }
    assert_eq!(peek(&mut card, 0x0525), 2);
    // Data arrives: the received size reads 3 and the bytes are there.
    if let UthernetChip::W5100(w) = &mut card.inner {
        w.poll_result(1, PollResult::Data(vec![7, 8, 9]));
    }
    assert_eq!(peek(&mut card, 0x0526), 0);
    assert_eq!(peek(&mut card, 0x0527), 3);
    assert_eq!(peek(&mut card, 0x6800), 7);
    assert_eq!(card.slot_io_read(3, 0), 8);
    // RECV consumes it.
    poke(&mut card, 0x0501, 0x40);
    assert_eq!(peek(&mut card, 0x0527), 0);
    assert_eq!(peek(&mut card, 0x0521), 0x00);
    assert_eq!(peek(&mut card, 0x0520), 0x08);
}

#[test]
fn uthernet2_close_and_software_reset() {
    let mut card = UthernCard::new_uthernet2(3);
    poke(&mut card, 0x0400, 0x01);
    poke(&mut card, 0x0401, 0x01);
    assert!(matches!(poke(&mut card, 0x0401, 0x10), Some(NetCommand::Close { sock: 0 })));
    assert_eq!(peek(&mut card, 0x0403), 0x00);
    poke(&mut card, 0x0010, 0xAB);
    assert!(matches!(card.slot_io_write(0, 0x80, 0), Some(NetCommand::CloseAll)));
    assert_eq!(peek(&mut card, 0x0010), 0);
    assert_eq!(peek(&mut card, 0x0019), 4);
}

#[test]
fn uthernet2_pending_poll_only_for_received_size() {
    let mut card = UthernCard::new_uthernet2(3);
    set_addr(&mut card, 0x0626);
    assert_eq!(card.pending_poll(3), Some(2));
    assert_eq!(card.pending_poll(2), None);
    set_addr(&mut card, 0x0620);
    assert_eq!(card.pending_poll(3), None);
}
