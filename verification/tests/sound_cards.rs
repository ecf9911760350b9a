//! Tests of the Mockingboard-family sound cards and the Uthernet card as
//! the bus reaches them: every read is answered at the access.

use apple2_core::bus::Bus;
use apple2_core::card::{CardManager, CardType, SlotCard};
use apple2_core::cards::soundcard::{SoundCard, SoundModel};
use apple2_core::cards::uthernet::{NetCard, NetCommand, UthernCard};
use apple2_core::model::Apple2Model;

fn sound_in_slot4(model: SoundModel) -> CardManager {
    let mut cards = CardManager::new();
    cards.insert(SlotCard::Sound(SoundCard::new(4, model)));
    cards
}

fn sound(cards: &CardManager) -> &SoundCard {
    match cards.slots[4].as_ref() {
        Some(SlotCard::Sound(c)) => c,
        _ => panic!("slot 4 should hold the sound card"),
    }
}

/// Latch AY register `reg` of VIA `base` (0 or 8), then write `val` to it.
fn ay_write(cards: &mut CardManager, base: u8, reg: u8, val: u8, orb_extra: u8) {
    cards.slot_io_write(4, base + 1, reg, 1);
    cards.slot_io_write(4, base, 0x03 | orb_extra, 2);
    cards.slot_io_write(4, base + 1, val, 3);
    cards.slot_io_write(4, base, 0x02 | orb_extra, 4);
    cards.slot_io_write(4, base, orb_extra, 5);
}

#[test]
fn mockingboard_ay_read_answers_at_the_access() {
    let mut cards = sound_in_slot4(SoundModel::Mockingboard);
    ay_write(&mut cards, 0, 7, 0x3F, 0);
    assert_eq!(sound(&cards).ay[0].regs[7], 0x3F);
    // Read mode, then a port A read gets the register at once.
    cards.slot_io_write(4, 0x01, 0x00, 6);
    cards.slot_io_write(4, 0x00, 0x01, 7);
    assert_eq!(cards.slot_io_read(4, 0x01, 8), Some(0x3F));
    // The second VIA drives the second chip.
    ay_write(&mut cards, 8, 2, 0x99, 0);
    assert_eq!(sound(&cards).ay[1].regs[2], 0x99);
    assert_eq!(sound(&cards).ay[0].regs[2], 0x00);
}

#[test]
fn mockingboard_through_the_bus() {
    let mut bus = Bus::new(vec![0u8; 16384], Apple2Model::AppleIIeEnh);
    bus.cards.insert(SlotCard::Sound(SoundCard::new(4, SoundModel::Mockingboard)));
    // VIA 1 port A and B at $C0C1 and $C0C0.
    bus.write(0xC0C1, 0x08, 10);
    bus.write(0xC0C0, 0x03, 11);
    bus.write(0xC0C1, 0x0C, 12);
    bus.write(0xC0C0, 0x02, 13);
    bus.write(0xC0C0, 0x01, 14);
    assert_eq!(bus.read(0xC0C1, 15), 0x0C);
    // The data direction register reads back what was written.
    bus.write(0xC0C3, 0xFF, 16);
    assert_eq!(bus.read(0xC0C3, 17), 0xFF);
}

#[test]
fn mockingboard_speech_chip_and_ready() {
    let mut cards = sound_in_slot4(SoundModel::Mockingboard);
    // CB2 control set in the PCR (a register the slot registers do not
    // reach): port A writes go to the speech chip.
    if let Some(SlotCard::Sound(c)) = cards.slots[4].as_mut() {
        c.via[0].pcr = 0x20;
    }
    // Register 0 (bits 4:3 clear): phoneme 5.
    cards.slot_io_write(4, 0x01, 0x05, 2);
    let c = sound(&cards);
    assert_eq!(c.speech[0].phoneme, 5);
    assert!(c.speech_started[0]);
    assert!(c.speech[0].ready_countdown > 0);
    // Enough cycles fire READY, which sets CA1 in the VIA's IFR.
    cards.update_all(1_000_000);
    assert_ne!(sound(&cards).via[0].ifr & 0x02, 0);
    assert_eq!(sound(&cards).speech[0].ready_countdown, 0);
}

#[test]
fn phasor_native_mode_selects_chips_by_port_b() {
    let mut cards = sound_in_slot4(SoundModel::Phasor);
    // Bit 3 selects chip 0, bit 4 chip 1 of the first VIA.
    ay_write(&mut cards, 0, 1, 0x05, 0x08);
    ay_write(&mut cards, 0, 1, 0x0A, 0x10);
    assert_eq!(sound(&cards).ay[0].regs[1], 0x05);
    assert_eq!(sound(&cards).ay[1].regs[1], 0x0A);
    // Both at once.
    ay_write(&mut cards, 0, 4, 0x77, 0x18);
    assert_eq!((sound(&cards).ay[0].regs[4], sound(&cards).ay[1].regs[4]), (0x77, 0x77));
    // Register 9 (also the second VIA's port A) with bit 0 clear:
    // Mockingboard mode, one chip per VIA.
    cards.slot_io_write(4, 0x09, 0x00, 20);
    assert!(!sound(&cards).phasor_mode);
    ay_write(&mut cards, 8, 2, 0x0A, 0x00);
    assert!(!sound(&cards).phasor_mode);
    assert_eq!(sound(&cards).ay[1].regs[2], 0x0A);
    // An odd value there selects native mode again.
    cards.slot_io_write(4, 0x09, 0x01, 30);
    assert!(sound(&cards).phasor_mode);
}

#[test]
fn megaaudio_third_chip_and_sd_music_page() {
    let mut cards = sound_in_slot4(SoundModel::MegaAudio);
    ay_write(&mut cards, 0, 8, 0x0F, 0);
    assert_eq!((sound(&cards).ay[0].regs[8], sound(&cards).ay[2].regs[8]), (0x0F, 0x0F));
    ay_write(&mut cards, 8, 9, 0x0E, 0);
    assert_eq!((sound(&cards).ay[1].regs[9], sound(&cards).ay[2].regs[9]), (0x0E, 0x00));

    let mut sd = sound_in_slot4(SoundModel::SdMusic);
    if let Some(SlotCard::Sound(c)) = sd.slots[4].as_mut() {
        let mut rom = [0u8; 256];
        rom[0x10] = 0xA9;
        rom[0xF0] = 0x11;
        c.set_firmware(rom);
    }
    assert_eq!(sd.io_read(4, 0x10, 0), Some(0xA9));
    assert_eq!(sd.io_read(4, 0xF0, 0), Some(0xFF));
    sd.io_write(4, 0xF0, 0x5A, 0);
    sd.io_write(4, 0xF1, 0xA5, 0);
    assert_eq!((sound(&sd).sd_ctrl, sound(&sd).sd_data), (0x5A, 0xA5));
    assert_eq!(sound(&sd).card_type(), CardType::SdMusic);
}

#[test]
fn uthernet2_registers_answer_at_once_and_queue_operations() {
    let mut cards = CardManager::new();
    cards.insert(SlotCard::Net(NetCard::new(UthernCard::new_uthernet2(3))));
    // Address $0019 (the version register) through the data port.
    cards.slot_io_write(3, 0x01, 0x00, 1);
    cards.slot_io_write(3, 0x02, 0x19, 2);
    assert_eq!(cards.slot_io_read(3, 0x03, 3), Some(4));
    // The address stepped on.
    assert_eq!(cards.slot_io_read(3, 0x02, 4), Some(0x1A));
    // A reset asks the host to drop every socket.
    cards.reset_all(false);
    match cards.slots[3].as_mut() {
        Some(SlotCard::Net(n)) => {
            let ops = n.take_commands();
            assert_eq!(ops.len(), 1);
            assert!(matches!(ops[0], NetCommand::CloseAll));
            assert!(n.commands.is_empty());
        }
        _ => panic!("slot 3 should hold the Uthernet card"),
    }
}
