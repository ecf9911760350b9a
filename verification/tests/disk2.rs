//! Tests of the Disk II card: WOZ parsing, bit-level reads and writes,
//! weak bits, and loading images.

use apple2_core::cards::disk2::nib::DSK_SIZE;
use apple2_core::cards::disk2::{
    crc32, detect_weak_bits, parse_woz, Disk2Card, Drive, SimpleRng, WozImage, WozTrack,
};

// ── Helper: build a minimal WOZ v1 image in memory ───────────────────

/// Create a minimal WOZ v1 image with one track of known bit data.
fn make_woz1_image(track_bits: &[u8], bit_count: u16) -> Vec<u8> {
    let mut img = Vec::new();

    // Magic
    img.extend_from_slice(b"WOZ1\xff\x0a\x0d\x0a");
    // CRC placeholder (will be filled in)
    img.extend_from_slice(&[0u8; 4]);

    // INFO chunk (60 bytes)
    img.extend_from_slice(b"INFO");
    img.extend_from_slice(&60u32.to_le_bytes());
    let mut info = [0u8; 60];
    info[0] = 1;  // version
    info[1] = 1;  // disk type = 5.25"
    info[2] = 0;  // not write protected
    info[3] = 0;  // not synchronized
    info[4] = 0;  // not cleaned
    // creator (32 bytes at offset 5)
    info[5..5 + 4].copy_from_slice(b"TEST");
    img.extend_from_slice(&info);

    // TMAP chunk (160 bytes)
    img.extend_from_slice(b"TMAP");
    img.extend_from_slice(&160u32.to_le_bytes());
    let mut tmap = [0xFFu8; 160];
    tmap[0] = 0; // quarter-track 0 -> TRKS index 0
    img.extend_from_slice(&tmap);

    // TRKS chunk: one entry = 6656 bytes
    // Layout: 6646 bytes data, 2 bytes bytes_used, 2 bytes bit_count, 8 bytes padding
    const ENTRY_SIZE: usize = 6656;
    let trks_size = ENTRY_SIZE;
    img.extend_from_slice(b"TRKS");
    img.extend_from_slice(&(trks_size as u32).to_le_bytes());

    let mut entry = vec![0u8; ENTRY_SIZE];
    let copy_len = track_bits.len().min(6646);
    entry[..copy_len].copy_from_slice(&track_bits[..copy_len]);
    // bytes_used at offset 6646
    entry[6646] = (copy_len & 0xFF) as u8;
    entry[6647] = ((copy_len >> 8) & 0xFF) as u8;
    // bit_count at offset 6648
    entry[6648] = (bit_count & 0xFF) as u8;
    entry[6649] = ((bit_count >> 8) & 0xFF) as u8;
    img.extend_from_slice(&entry);

    // Compute and fill CRC32
    let computed_crc = crc32(&img[12..]);
    img[8..12].copy_from_slice(&computed_crc.to_le_bytes());

    img
}

/// Create a minimal WOZ v2 image with one track of known bit data.
fn make_woz2_image(track_bits: &[u8], bit_count: u32) -> Vec<u8> {
    let mut img = Vec::new();

    // Magic
    img.extend_from_slice(b"WOZ2\xff\x0a\x0d\x0a");
    // CRC placeholder
    img.extend_from_slice(&[0u8; 4]);

    // INFO chunk (60 bytes)
    img.extend_from_slice(b"INFO");
    img.extend_from_slice(&60u32.to_le_bytes());
    let mut info = [0u8; 60];
    info[0] = 2;  // version
    info[1] = 1;  // disk type = 5.25"
    info[2] = 1;  // write protected
    info[3] = 0;  // not synchronized
    info[4] = 0;  // not cleaned
    img.extend_from_slice(&info);

    // TMAP chunk (160 bytes)
    img.extend_from_slice(b"TMAP");
    img.extend_from_slice(&160u32.to_le_bytes());
    let mut tmap = [0xFFu8; 160];
    tmap[0] = 0;  // quarter-track 0 -> TRKS index 0
    tmap[4] = 0;  // quarter-track 4 also -> TRKS index 0 (shared)
    tmap[1] = 0;  // quarter-track 1 also -> TRKS index 0
    img.extend_from_slice(&tmap);

    // TRKS chunk: 160 track descriptors (8 bytes each = 1280),
    // followed by actual track data in 512-byte blocks.
    // Track data starts at block 3 (offset 3*512 = 1536 from file start).
    // The file so far: 12 + 68 + 168 + 8 = 256 bytes of header+chunks-before-TRKS
    // But TRKS data blocks are relative to the file, not the chunk.
    // We need to calculate: after writing TRKS chunk header + 1280 desc bytes,
    // where does the file offset land? That tells us the starting block.

    // Let's compute: current file size + 8 (TRKS header) + 1280 (descs)
    let trks_chunk_start = img.len() + 8; // position right after TRKS chunk header
    let descs_end = trks_chunk_start + 1280;
    // Round up to next 512-byte block
    let data_block_start = descs_end.div_ceil(512);
    let data_file_offset = data_block_start * 512;
    // Padding needed between descs and first data block
    let padding = data_file_offset - descs_end;

    // Calculate block count: ceil(track_bits.len() / 512)
    let block_count = track_bits.len().div_ceil(512) as u16;

    // Build descriptors: only index 0 is used
    let mut descs = vec![0u8; 1280];
    descs[0..2].copy_from_slice(&(data_block_start as u16).to_le_bytes());
    descs[2..4].copy_from_slice(&block_count.to_le_bytes());
    descs[4..8].copy_from_slice(&bit_count.to_le_bytes());

    let trks_total_size = 1280 + padding + (block_count as usize * 512);
    img.extend_from_slice(b"TRKS");
    img.extend_from_slice(&(trks_total_size as u32).to_le_bytes());
    img.extend_from_slice(&descs);
    img.extend(std::iter::repeat_n(0u8, padding));

    // Write track data padded to block_count * 512
    let mut track_data = track_bits.to_vec();
    track_data.resize(block_count as usize * 512, 0);
    img.extend_from_slice(&track_data);

    // Compute and fill CRC32
    let computed_crc = crc32(&img[12..]);
    img[8..12].copy_from_slice(&computed_crc.to_le_bytes());

    img
}

// ── CRC32 tests ──────────────────────────────────────────────────────

#[test]
fn test_crc32_known() {
    // CRC32 of "123456789" is 0xCBF43926
    assert_eq!(crc32(b"123456789"), 0xCBF4_3926);
}

#[test]
fn test_crc32_empty() {
    assert_eq!(crc32(b""), 0x0000_0000);
}

// ── WOZ v1 parsing tests ─────────────────────────────────────────────

#[test]
fn test_parse_woz1_basic() {
    // Create a simple bitstream: alternating 1-0 pattern = 0xAA
    let track_data = vec![0xAA; 100];
    let bit_count = 800u16; // 100 bytes * 8 bits
    let img = make_woz1_image(&track_data, bit_count);

    let woz = parse_woz(&img).expect("should parse WOZ v1");
    assert_eq!(woz.version, 1);
    assert_eq!(woz.disk_type, 1);
    assert!(!woz.write_protected);

    // Quarter-track 0 should map to track index 0
    assert_eq!(woz.tmap[0], 0);
    assert_eq!(woz.tmap[1], 0xFF); // unmapped

    let track = woz.track_for_quarter(0).expect("track 0 should exist");
    assert_eq!(track.bit_count, 800);
    assert_eq!(track.bits[0], 0xAA);
}

#[test]
fn test_parse_woz1_bad_magic() {
    let mut img = make_woz1_image(&[0xFF; 10], 80);
    img[0..4].copy_from_slice(b"NOPE");
    assert!(parse_woz(&img).is_none());
}

#[test]
fn test_parse_woz1_bad_crc() {
    let mut img = make_woz1_image(&[0xFF; 10], 80);
    // Corrupt the CRC
    img[8] = img[8].wrapping_add(1);
    assert!(parse_woz(&img).is_none());
}

// ── WOZ v2 parsing tests ─────────────────────────────────────────────

#[test]
fn test_parse_woz2_basic() {
    let track_data = vec![0xD5; 64];
    let bit_count = 512u32;
    let img = make_woz2_image(&track_data, bit_count);

    let woz = parse_woz(&img).expect("should parse WOZ v2");
    assert_eq!(woz.version, 2);
    assert!(woz.write_protected);

    let track = woz.track_for_quarter(0).expect("track 0 should exist");
    assert_eq!(track.bit_count, 512);
}

#[test]
fn test_parse_woz2_quarter_track_mapping() {
    let track_data = vec![0xFF; 64];
    let img = make_woz2_image(&track_data, 512);

    let woz = parse_woz(&img).expect("should parse");
    // Quarter-track 0, 1, and 4 all map to track index 0
    assert!(woz.track_for_quarter(0).is_some());
    assert!(woz.track_for_quarter(1).is_some());
    assert!(woz.track_for_quarter(4).is_some());
    // Quarter-track 2 is unmapped
    assert!(woz.track_for_quarter(2).is_none());
    // Out of range
    assert!(woz.track_for_quarter(160).is_none());
}

// ── Bit-level read tests ─────────────────────────────────────────────

#[test]
fn test_woz_read_bit() {
    // Bitstream: 0b10110100 = 0xB4
    let track = WozTrack {
        bits: vec![0xB4],
        bit_count: 8,
        has_weak_bits: false,
        weak_mask: vec![0],
    };
    let mut rng = SimpleRng::new(42);

    assert_eq!(track.read_bit(0, &mut rng), 1); // bit 7
    assert_eq!(track.read_bit(1, &mut rng), 0); // bit 6
    assert_eq!(track.read_bit(2, &mut rng), 1); // bit 5
    assert_eq!(track.read_bit(3, &mut rng), 1); // bit 4
    assert_eq!(track.read_bit(4, &mut rng), 0); // bit 3
    assert_eq!(track.read_bit(5, &mut rng), 1); // bit 2
    assert_eq!(track.read_bit(6, &mut rng), 0); // bit 1
    assert_eq!(track.read_bit(7, &mut rng), 0); // bit 0
}

#[test]
fn test_woz_read_nibble_shift_register() {
    // Create a bitstream that encodes nibble 0xD5:
    // 0xD5 = 0b11010101
    // The shift register accumulates bits until bit 7 is set.
    // So bits: 1,1,0,1,0,1,0,1 -> first 1 starts, then 7 more -> 0xD5
    let track = WozTrack {
        bits: vec![0xD5, 0xAA], // 0xD5 followed by 0xAA
        bit_count: 16,
        has_weak_bits: false,
        weak_mask: vec![0, 0],
    };

    let woz = WozImage {
        version: 1,
        tracks: vec![Some(track)],
        tmap: {
            let mut t = [0xFFu8; 160];
            t[0] = 0;
            t
        },
        write_protected: false,
        disk_type: 1,
        synchronized: false,
    };

    let mut drive = Drive::new();
    drive.woz = Some(woz);
    drive.loaded = true;
    drive.last_cycle = 0;

    // Reading a nibble with enough cycles elapsed (8 bits * 4 cycles = 32 cycles)
    let nibble = drive.woz_read_nibble(32);
    assert_eq!(nibble, Some(0xD5));
}

// ── Bit-level write tests ────────────────────────────────────────────

#[test]
fn test_woz_write_bit() {
    let mut track = WozTrack {
        bits: vec![0x00],
        bit_count: 8,
        has_weak_bits: false,
        weak_mask: vec![0],
    };

    // Write 1 at position 0 (MSB)
    track.write_bit(0, 1);
    assert_eq!(track.bits[0], 0x80);

    // Write 1 at position 7 (LSB)
    track.write_bit(7, 1);
    assert_eq!(track.bits[0], 0x81);

    // Write 0 at position 0 (clear MSB)
    track.write_bit(0, 0);
    assert_eq!(track.bits[0], 0x01);
}

#[test]
fn test_woz_write_nibble() {
    let track = WozTrack {
        bits: vec![0x00; 4],
        bit_count: 32,
        has_weak_bits: false,
        weak_mask: vec![0; 4],
    };

    let woz = WozImage {
        version: 1,
        tracks: vec![Some(track)],
        tmap: {
            let mut t = [0xFFu8; 160];
            t[0] = 0;
            t
        },
        write_protected: false,
        disk_type: 1,
        synchronized: false,
    };

    let mut drive = Drive::new();
    drive.woz = Some(woz);
    drive.loaded = true;
    drive.last_cycle = 0;

    // Write nibble 0xD5 starting at bit position 0
    drive.woz_write_nibble(0xD5, 0);
    assert!(drive.dirty);

    // Check the bits: 0xD5 = 11010101 should be written at positions 0..8
    let track = drive.woz.as_ref().unwrap().track_for_quarter(0).unwrap();
    assert_eq!(track.bits[0], 0xD5);
}

// ── Weak bit tests ───────────────────────────────────────────────────

#[test]
fn test_detect_weak_bits() {
    // 3 consecutive zero bytes = weak area
    let bits = vec![0xFF, 0x00, 0x00, 0x00, 0xFF];
    let (has_weak, mask) = detect_weak_bits(&bits, 40);
    assert!(has_weak);
    assert_eq!(mask[0], 0x00); // not weak
    assert_eq!(mask[1], 0xFF); // weak
    assert_eq!(mask[2], 0xFF); // weak
    assert_eq!(mask[3], 0xFF); // weak
    assert_eq!(mask[4], 0x00); // not weak
}

#[test]
fn test_detect_weak_bits_short_run() {
    // Only 2 consecutive zero bytes = NOT weak
    let bits = vec![0xFF, 0x00, 0x00, 0xFF];
    let (has_weak, _mask) = detect_weak_bits(&bits, 32);
    assert!(!has_weak);
}

#[test]
fn test_weak_bit_randomization() {
    let track = WozTrack {
        bits: vec![0x00, 0x00, 0x00], // all zeros = weak area
        bit_count: 24,
        has_weak_bits: true,
        weak_mask: vec![0xFF, 0xFF, 0xFF],
    };

    let mut rng = SimpleRng::new(12345);

    // Read several weak bits — they should not all be the same value
    let mut seen_zero = false;
    let mut seen_one = false;
    for _ in 0..100 {
        let bit = track.read_bit(0, &mut rng);
        if bit == 0 { seen_zero = true; }
        if bit == 1 { seen_one = true; }
        if seen_zero && seen_one { break; }
    }
    assert!(seen_zero && seen_one, "weak bits should produce both 0 and 1");
}

#[test]
fn test_write_clears_weak_bits() {
    let mut track = WozTrack {
        bits: vec![0x00, 0x00, 0x00],
        bit_count: 24,
        has_weak_bits: true,
        weak_mask: vec![0xFF, 0xFF, 0xFF],
    };

    // Write a 1 at position 0
    track.write_bit(0, 1);
    // The weak mask at byte 0, bit 7 should now be cleared
    assert_eq!(track.weak_mask[0] & 0x80, 0);
}

// ── SimpleRng tests ──────────────────────────────────────────────────

#[test]
fn test_simple_rng_produces_both_values() {
    let mut rng = SimpleRng::new(42);
    let mut seen = [false; 2];
    for _ in 0..100 {
        seen[rng.next_bit() as usize] = true;
        if seen[0] && seen[1] { break; }
    }
    assert!(seen[0] && seen[1]);
}

#[test]
fn test_simple_rng_deterministic() {
    let mut rng1 = SimpleRng::new(999);
    let mut rng2 = SimpleRng::new(999);
    for _ in 0..50 {
        assert_eq!(rng1.next(), rng2.next());
    }
}

// ── Disk2Card integration tests ──────────────────────────────────────

#[test]
fn test_load_woz1_into_card() {
    let track_data = vec![0xD5; 100];
    let img = make_woz1_image(&track_data, 800);

    let mut card = Disk2Card::new(6);
    assert!(card.load_drive(0, &img, "woz"));
    assert!(card.drives[0].is_woz());
    assert!(card.drives[0].loaded);
}

#[test]
fn test_load_woz2_into_card() {
    let track_data = vec![0xAA; 128];
    let img = make_woz2_image(&track_data, 1024);

    let mut card = Disk2Card::new(6);
    assert!(card.load_drive(0, &img, "woz"));
    assert!(card.drives[0].is_woz());
    assert!(card.drives[0].write_protected); // WOZ v2 test image is write-protected
}

#[test]
fn test_autodetect_woz_by_magic() {
    let track_data = vec![0xFF; 100];
    let img = make_woz1_image(&track_data, 800);

    let mut card = Disk2Card::new(6);
    // Even with "dsk" extension, WOZ magic should be auto-detected
    assert!(card.load_drive(0, &img, "dsk"));
    assert!(card.drives[0].is_woz());
}

#[test]
fn test_dsk_still_works() {
    // Ensure a normal DSK image still loads in nibble mode
    let dsk = vec![0x00u8; DSK_SIZE];
    let mut card = Disk2Card::new(6);
    assert!(card.load_drive(0, &dsk, "dsk"));
    assert!(!card.drives[0].is_woz());
    assert!(card.drives[0].loaded);
}

#[test]
fn test_woz_eject() {
    let track_data = vec![0xFF; 100];
    let img = make_woz1_image(&track_data, 800);

    let mut card = Disk2Card::new(6);
    card.load_drive(0, &img, "woz");
    card.eject_drive(0);
    assert!(!card.drives[0].loaded);
}

// ── Bit timing tests ─────────────────────────────────────────────────

#[test]
fn test_advance_bits_timing() {
    let mut drive = Drive::new();
    drive.last_cycle = 100;

    // 16 cycles elapsed = 4 bits (at 4 cycles per bit)
    let bits = drive.advance_bits(116);
    assert_eq!(bits, 4);
    assert_eq!(drive.last_cycle, 116);
}

#[test]
fn test_advance_bits_no_time() {
    let mut drive = Drive::new();
    drive.last_cycle = 100;
    assert_eq!(drive.advance_bits(100), 0);
    assert_eq!(drive.advance_bits(50), 0); // backwards = 0
}

// ── Track wrap-around test ───────────────────────────────────────────

#[test]
fn test_bit_position_wraps() {
    let track = WozTrack {
        bits: vec![0xFF, 0x00], // 16 bits
        bit_count: 16,
        has_weak_bits: false,
        weak_mask: vec![0, 0],
    };

    let woz = WozImage {
        version: 1,
        tracks: vec![Some(track)],
        tmap: {
            let mut t = [0xFFu8; 160];
            t[0] = 0;
            t
        },
        write_protected: false,
        disk_type: 1,
        synchronized: false,
    };

    let mut drive = Drive::new();
    drive.woz = Some(woz);
    drive.loaded = true;
    drive.bit_pos = 15; // at last bit

    // Read one bit, should wrap to position 0
    let _bit = drive.woz_read_bit();
    assert_eq!(drive.bit_pos, 0); // wrapped around
}
