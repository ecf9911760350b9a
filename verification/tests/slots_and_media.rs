use apple2_core::bus::Bus;
use apple2_core::model::Apple2Model;
use apple2_core::card::{CardManager, CardType, SlotCard};
use apple2_core::cards::ay::AyGen;
use apple2_core::cards::disk2::nib::{denibblize_track, dos33_skew, nibblize_track};
use apple2_core::cards::disk2::Disk2Card;
use apple2_core::cards::hd::{unwrap_2img, HdCard};
use apple2_core::cards::host::{HostArea, HostCard, HostEvent};
use apple2_core::cards::vidhd::VidHdCard;
use apple2_core::prodos::bitmap::init_free;

#[test]
fn test_unit_bit7_selects_drive() {
    let mut card = HdCard::new(7);
    card.slot_io_write(0x3, 0x70, 0);
    assert_eq!(card.drive_idx(), 0);
    card.slot_io_write(0x3, 0xF0, 0);
    assert_eq!(card.drive_idx(), 1);
    card.slot_io_write(0x3, 0x80, 0);
    assert_eq!(card.drive_idx(), 1);
}

#[test]
fn test_init_free_marks_only_existing_blocks() {
    let mut image = vec![0u8; 4];
    let mut total: u16 = 0;
    init_free(&mut image, 9 * 512, 0, &mut total);
    assert_eq!(image, vec![0xFF, 0x80, 0, 0]);
    assert_eq!(total, 9);
    let mut image = vec![0u8; 2];
    init_free(&mut image, 16 * 512, 0, &mut total);
    assert_eq!(image, vec![0xFF, 0xFF]);
    assert_eq!(total, 16);
}

#[test]
fn test_host_card_records_accesses() {
    let mut cards = CardManager::new();
    let mut host = HostCard::new(4, CardType::Sam);
    host.set_reg(0x2, 0x5A);
    cards.insert(SlotCard::Host(host));
    assert_eq!(cards.slot_io_write(4, 0x11, 0x42, 100), true);
    assert_eq!(cards.slot_io_read(4, 0x02, 101), Some(0x5A));
    match cards.slots[4].as_mut() {
        Some(SlotCard::Host(h)) => {
            let events = h.take_events();
            assert_eq!(events, vec![
                HostEvent::Write { area: HostArea::Registers, offset: 0x1, value: 0x42, cycles: 100 },
                HostEvent::Read { area: HostArea::Registers, offset: 0x2, cycles: 101 },
            ]);
            assert!(h.events.is_empty());
            h.set_irq(true);
        }
        _ => panic!("slot 4 should hold the host card"),
    }
    assert!(cards.any_irq_active());
}

#[test]
fn test_motor_follows_last_switch() {
    let mut card = Disk2Card::new(6);
    assert!(!card.disk_motor_on());
    card.slot_io_read(0x09, 0);
    assert!(card.disk_motor_on());
    card.slot_io_read(0x0A, 0);
    assert!(card.disk_motor_on());
    card.slot_io_write(0x08, 0, 0);
    assert!(!card.disk_motor_on());
    card.slot_io_write(0x09, 0, 0);
    card.reset(false);
    assert!(!card.disk_motor_on());
}

#[test]
fn test_shr_follows_last_setting() {
    let mut card = VidHdCard::new(3);
    card.slot_io_write(0x01, 0x80, 0);
    assert!(card.is_shr_enabled());
    assert_ne!(card.slot_io_read(0x00, 0) & 0x20, 0);
    card.update(0);
    card.slot_io_write(0x05, 0x00, 0);
    assert!(card.is_shr_enabled());
    card.slot_io_write(0x00, 0x00, 0);
    assert!(!card.is_shr_enabled());
    assert_eq!(card.slot_io_read(0x00, 0) & 0x20, 0);
    card.slot_io_write(0x00, 0x01, 0);
    card.reset(false);
    assert!(!card.is_shr_enabled());
}

#[test]
fn test_denibblize_skips_damaged_sector() {
    let skew = dos33_skew();
    let data: Vec<u8> = (0..4096u32).map(|i| (i % 251) as u8).collect();
    let mut nibs = nibblize_track(&data, 5, &skew);
    // Damage the data field of the first sector on the track.
    let mark = (0..nibs.len() - 2)
        .find(|&i| nibs[i] == 0xD5 && nibs[i + 1] == 0xAA && nibs[i + 2] == 0xAD)
        .unwrap();
    nibs[mark + 10] = 0x00;
    let mut out = vec![0xEEu8; 4096];
    denibblize_track(&nibs, 5, &skew, &mut out);
    let damaged = skew[0] as usize;
    for s in 0..16 {
        let got = &out[s * 256..s * 256 + 256];
        if s == damaged {
            assert!(got.iter().all(|&b| b == 0xEE));
        } else {
            assert_eq!(got, &data[s * 256..s * 256 + 256]);
        }
    }
}

#[test]
fn test_denibblize_wrong_track_writes_nothing() {
    let skew = dos33_skew();
    let data = vec![0x33u8; 4096];
    let nibs = nibblize_track(&data, 2, &skew);
    let mut out = vec![0u8; 4096];
    denibblize_track(&nibs, 3, &skew, &mut out);
    assert!(out.iter().all(|&b| b == 0));
}

#[test]
fn test_unwrap_2img() {
    let mut img = vec![0u8; 64];
    img[0..4].copy_from_slice(b"2IMG");
    img[24] = 64;
    img[28] = 4;
    img.extend_from_slice(&[1, 2, 3, 4, 5]);
    assert_eq!(unwrap_2img(img.clone()), vec![1, 2, 3, 4]);
    img[28] = 0;
    assert_eq!(unwrap_2img(img.clone()), vec![1, 2, 3, 4, 5]);
    let plain = vec![9u8; 100];
    assert_eq!(unwrap_2img(plain.clone()), plain);
}

#[test]
fn test_ay_tone_and_envelope_step() {
    let mut ay = AyGen::new();
    ay.select_reg(0);
    ay.write_reg(2);
    ay.select_reg(1);
    ay.write_reg(0xF0);
    assert_eq!(ay.regs[1], 0x00);
    assert_eq!(ay.tone_period(0), 2);
    ay.tick();
    assert!(!ay.tone_states[0]);
    ay.tick();
    assert!(ay.tone_states[0]);
    ay.select_reg(13);
    ay.write_reg(0x04);
    ay.select_reg(8);
    ay.write_reg(0x10);
    assert_eq!(ay.level(0), 0);
    ay.tick();
    assert_eq!(ay.env_step, 1);
    assert_eq!(ay.level(0), 1);
    ay.select_reg(9);
    ay.write_reg(0x07);
    assert_eq!(ay.level(1), 14);
    ay.select_reg(7);
    ay.write_reg(0xFE);
    assert!(!ay.gate(1));
}

#[test]
fn test_bus_load_disk_unwraps_2img() {
    let dsk: Vec<u8> = (0..143360u32).map(|i| (i % 253) as u8).collect();
    let mut wrapped = vec![0u8; 64];
    wrapped[0..4].copy_from_slice(b"2IMG");
    wrapped[12] = 0; // DOS order
    wrapped[24] = 64;
    let len = dsk.len() as u32;
    wrapped[28..32].copy_from_slice(&len.to_le_bytes());
    wrapped.extend_from_slice(&dsk);

    let mut plain = Bus::new(vec![0u8; 16384], Apple2Model::AppleIIeEnh);
    plain.cards.insert(SlotCard::Disk2(Disk2Card::new(6)));
    assert!(plain.load_disk(6, 0, &dsk, "dsk"));
    let mut bus = Bus::new(vec![0u8; 16384], Apple2Model::AppleIIeEnh);
    bus.cards.insert(SlotCard::Disk2(Disk2Card::new(6)));
    assert!(bus.load_disk(6, 0, &wrapped, "2mg"));
    match (&plain.cards.slots[6], &bus.cards.slots[6]) {
        (Some(SlotCard::Disk2(a)), Some(SlotCard::Disk2(b))) => {
            assert_eq!(a.drives[0].tracks, b.drives[0].tracks);
        }
        _ => panic!("slot 6 should hold the Disk II card"),
    }
}
