//! The library's laws checked on concrete values.

use apple2_core::bus::Bus;
use apple2_core::cards::disk2::gcr::{code44a, code44b, code62, decode44, decode62, disk_byte, disk_byte_inv};
use apple2_core::cards::disk2::Disk2Card;
use apple2_core::cards::disk2::nib::{denibblize_track, dos33_skew, nibblize_track};
use apple2_core::cards::hd::HdDrive;
use apple2_core::cards::mouse::MouseCard;
use apple2_core::cards::noslotclock::bcd;
use apple2_core::cards::soundcard::{SoundCard, SoundModel};
use apple2_core::cards::ssc::SscCard;
use apple2_core::cards::via6522::Via6522;
use apple2_core::cards::vidhd::VidHdCard;
use apple2_core::model::Apple2Model;

fn make_bus() -> Bus {
    Bus::new(vec![0u8; 16384], Apple2Model::AppleIIeEnh)
}

#[test]
fn law_bus_store_then_read() {
    let mut bus = make_bus();
    for &(addr, val) in &[(0x0300u16, 0x5Au8), (0x2000, 0xA5), (0x9FFF, 0x01), (0x0001, 0xFF)] {
        bus.write(addr, val, 0);
        assert_eq!(bus.read(addr, 0), val);
    }
}

#[test]
fn law_bus_main_and_aux_independent() {
    let mut bus = make_bus();
    bus.write(0x2000, 0x11, 0);
    bus.write(0xC005, 0, 0); // RAMWRT: writes to aux
    bus.write(0x2000, 0x22, 0);
    assert_eq!(bus.read(0x2000, 0), 0x11); // reads still from main
    bus.write(0xC003, 0, 0); // RAMRD: reads from aux
    assert_eq!(bus.read(0x2000, 0), 0x22);
    bus.write(0xC002, 0, 0);
    bus.write(0xC004, 0, 0);
    assert_eq!(bus.read(0x2000, 0), 0x11);
}

#[test]
fn law_bus_language_card_write_enable() {
    let mut bus = make_bus();
    // An even switch ($C08A: bank 1, read ROM) protects the RAM.
    bus.read(0xC08A, 0);
    // One read of $C08B (bank 1, read RAM, odd): not yet write-enabled.
    bus.read(0xC08B, 0);
    bus.write(0xD000, 0x77, 0);
    assert_ne!(bus.read(0xD000, 0), 0x77);
    // A second read enables writing.
    bus.read(0xC08B, 0);
    bus.write(0xD000, 0x77, 0);
    assert_eq!(bus.read(0xD000, 0), 0x77);
    // An even switch protects the RAM again.
    bus.read(0xC08A, 0);
    bus.read(0xC08B, 0);
    bus.write(0xD000, 0x12, 0);
    assert_eq!(bus.read(0xD000, 0), 0x77);
}

#[test]
fn law_bus_switch_status() {
    let mut bus = make_bus();
    for &(set, status) in &[(0xC001u16, 0xC018u16), (0xC003, 0xC013), (0xC005, 0xC014), (0xC009, 0xC016),
        (0xC00D, 0xC01F), (0xC00F, 0xC01E)]
    {
        bus.write(set, 0, 0);
        assert_eq!(bus.read(status, 0) & 0x80, 0x80);
        bus.write(set - 1, 0, 0);
        assert_eq!(bus.read(status, 0) & 0x80, 0);
    }
}

#[test]
fn law_bus_keyboard_strobe() {
    let mut bus = make_bus();
    bus.key_press(b'Q');
    assert_eq!(bus.read(0xC000, 0), b'Q' | 0x80);
    bus.read(0xC010, 0);
    assert_eq!(bus.read(0xC000, 0), b'Q');
}

#[test]
fn law_bus_speaker_twice() {
    let mut bus = make_bus();
    let before = bus.speaker_state;
    bus.read(0xC030, 10);
    assert_ne!(bus.speaker_state, before);
    bus.read(0xC030, 20);
    assert_eq!(bus.speaker_state, before);
}

#[test]
fn law_bus_paddle_timer() {
    let mut bus = make_bus();
    bus.gamepad.paddle0 = 100;
    bus.write(0xC070, 0, 1000);
    let end = 1000 + 100 * 11 + 3;
    assert_eq!(bus.read(0xC064, end - 1) & 0x80, 0x80);
    assert_eq!(bus.read(0xC064, end) & 0x80, 0);
}

#[test]
fn law_gcr_disk_bytes_invert() {
    let inv = disk_byte_inv();
    for v in 0..64u8 {
        assert_eq!(inv[disk_byte(v) as usize], v);
        assert!(disk_byte(v) >= 0x96);
    }
}

#[test]
fn law_gcr_44_round_trip() {
    for a in [0u8, 1, 0x55, 0xAA, 0xFE, 0xFF] {
        assert_eq!(decode44(code44a(a), code44b(a)), a);
    }
}

#[test]
fn law_gcr_62_round_trip() {
    let inv = disk_byte_inv();
    let mut sector = [0u8; 256];
    for (i, b) in sector.iter_mut().enumerate() {
        *b = (i * 7 + 3) as u8;
    }
    let encoded = code62(&sector);
    assert_eq!(decode62(&encoded, &inv), Some(sector));
}

#[test]
fn law_nibblize_then_denibblize() {
    let skew = dos33_skew();
    let track: Vec<u8> = (0..4096).map(|i| (i % 253) as u8).collect();
    let nibs = nibblize_track(&track, 5, &skew);
    let mut out = vec![0u8; 4096];
    denibblize_track(&nibs, 5, &skew, &mut out);
    assert_eq!(out, track);
}

#[test]
fn law_hd_block_write_then_read() {
    let mut drive = HdDrive { image: vec![0u8; 4 * 512] };
    let data: Vec<u8> = (0..512).map(|i| (i % 256) as u8).collect();
    assert!(drive.write_block(2, &data));
    assert_eq!(drive.read_block(2), Some(&data[..]));
    assert_eq!(drive.read_block(1), Some(&[0u8; 512][..]));
}

#[test]
fn law_mouse_pia_write_then_read() {
    let mut card = MouseCard::new(4);
    // Port A data register selected (CRA bit 2 set).
    card.slot_io_write(1, 0x04, 0);
    card.slot_io_write(0, 0x3C, 0);
    assert_eq!(card.slot_io_read(0, 0), 0x3C);
    // Port B direction register (CRB bit 2 clear).
    card.slot_io_write(2, 0xF0, 0);
    assert_eq!(card.slot_io_read(2, 0), 0xF0);
}

#[test]
fn law_clock_bcd_digits() {
    for n in [0u64, 7, 10, 42, 59, 99] {
        let b = bcd(n);
        assert_eq!((b >> 4) * 10 + (b & 0x0F), n);
        assert!(b & 0x0F < 10);
    }
}

#[test]
fn law_via_save_then_load() {
    let mut via = Via6522::new();
    via.write(0x03, 0xFF);
    via.write(0x01, 0x42);
    via.write(0x04, 0x34);
    via.write(0x05, 0x12);
    let mut out = Vec::new();
    via.save_state(&mut out);
    let mut other = Via6522::new();
    assert!(other.load_state(&out).is_ok());
    assert_eq!(other.read(0x01), via.read(0x01));
    assert_eq!(other.read(0x03), 0xFF);
}

#[test]
fn law_ssc_save_then_load() {
    let mut card = SscCard::new(2);
    card.slot_io_write(0x0A, 0x0B, 0);
    card.slot_io_write(0x0B, 0x1E, 0);
    let mut out = Vec::new();
    card.save_state(&mut out);
    let mut other = SscCard::new(2);
    assert!(other.load_state(&out, 1).is_ok());
    assert_eq!(other.slot_io_read(0x0A, 0), card.slot_io_read(0x0A, 0));
    assert_eq!(other.slot_io_read(0x0B, 0), card.slot_io_read(0x0B, 0));
}

#[test]
fn law_disk2_motor_follows_last_switch() {
    let mut card = Disk2Card::new(6);
    assert!(!card.motor_on());
    card.slot_io_read(0x09, 10);
    assert!(card.motor_on() && card.disk_motor_on());
    // Accesses to other registers leave the motor alone.
    card.slot_io_read(0x0C, 20);
    card.slot_io_write(0x0A, 0x00, 30);
    assert!(card.motor_on());
    card.slot_io_write(0x08, 0x00, 40);
    assert!(!card.motor_on() && !card.disk_motor_on());
    card.slot_io_write(0x09, 0x00, 50);
    assert!(card.motor_on());
    card.reset(false);
    assert!(!card.motor_on());
}

#[test]
fn law_vidhd_shr_follows_last_setting() {
    let mut card = VidHdCard::new(7);
    assert!(!card.is_shr_enabled());
    card.slot_io_write(0x00, 0x01, 0);
    assert!(card.is_shr_enabled());
    assert_ne!(card.slot_io_read(0x00, 0) & 0x20, 0);
    // Other registers and updates leave it.
    card.slot_io_write(0x05, 0xFF, 0);
    card.update(100);
    assert!(card.is_shr_enabled());
    card.slot_io_write(0x01, 0x00, 0);
    assert!(!card.is_shr_enabled());
    assert_eq!(card.slot_io_read(0x00, 0) & 0x20, 0);
    card.slot_io_write(0x01, 0x80, 0);
    assert!(card.is_shr_enabled());
    card.reset(true);
    assert!(!card.is_shr_enabled());
}

#[test]
fn law_sound_ay_write_then_read_back() {
    for (model, base) in [(SoundModel::Mockingboard, 0u8), (SoundModel::SdMusic, 8u8)] {
        let mut card = SoundCard::new(4, model);
        // Select register 1 (a coarse tone register) and put 0xFF on port A.
        card.slot_io_write(base + 1, 0x01, 1);
        card.slot_io_write(base, 0x03, 2);
        card.slot_io_write(base + 1, 0xFF, 3);
        card.slot_io_write(base, 0x02, 4);
        card.slot_io_write(base, 0x01, 5);
        assert_eq!(card.slot_io_read(base + 1, 6), 0x0F);
    }
}
