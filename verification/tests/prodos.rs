//! Tests of ProDOS and DOS 3.3 image creation.

use apple2_core::prodos::create::{
    create_blank_disk, create_dos33_disk, create_prodos_disk, format_dos33_disk, format_prodos_disk,
    needs_interleave, ProDosCreateOptions, ProDosFirmware,
};
use apple2_core::prodos::types::ProDosError;

const FLOPPY_SIZE: usize = 143360; // 35 tracks x 16 sectors x 256 bytes

/// Stand-ins for the system files: distinct non-zero bytes of the real sizes.
fn firmware() -> ProDosFirmware {
    ProDosFirmware {
        boot: (0..1024).map(|i| (i % 251) as u8 + 1).collect(),
        prodos: vec![0x4C; 17128],
        basic: vec![0x20; 10240],
        bitsy_boot: vec![0xA9; 512],
        quit: vec![0xEA; 300],
    }
}

fn opts(name: &str) -> ProDosCreateOptions {
    ProDosCreateOptions { volume_name: name.to_string(), ..Default::default() }
}

#[test]
fn test_create_blank_disk() {
    let image = create_blank_disk(FLOPPY_SIZE);
    assert_eq!(image.len(), FLOPPY_SIZE);
    assert!(image.iter().all(|&b| b == 0));
}

#[test]
fn test_create_prodos_floppy_volume_header() {
    let image = create_prodos_disk(FLOPPY_SIZE, &opts("TESTDISK"), &firmware()).unwrap();
    assert_eq!(image.len(), FLOPPY_SIZE);

    // Volume header at block 2, offset +4 (skips prev/next 4 bytes)
    let base = 2 * 512 + 4;
    let kind_byte = image[base];
    assert_eq!((kind_byte >> 4) & 0xF, 0xF, "Root kind byte expected");
    assert_eq!(kind_byte & 0xF, 8, "Name length = 8 (TESTDISK)");

    // Volume name bytes 1..9 should be "TESTDISK"
    let name = &image[base + 1..base + 9];
    assert_eq!(name, b"TESTDISK");
}

#[test]
fn test_create_prodos_floppy_with_prodos_file() {
    let o = ProDosCreateOptions { copy_prodos: true, ..opts("MYVOLUME") };
    let image = create_prodos_disk(FLOPPY_SIZE, &o, &firmware()).unwrap();
    assert_eq!(image.len(), FLOPPY_SIZE);

    // First file entry starts at block 2 offset +4+39 = base+43
    let base = 2 * 512 + 4;
    let entry = base + 39; // first file entry (after volume header)
    let kind_byte = image[entry];
    // Must be SAPLING (0x2) or SEED (0x1), not DEL (0x0)
    let kind = (kind_byte >> 4) & 0xF;
    assert!(kind == 0x1 || kind == 0x2, "Expected SEED or SAPLING file, got kind={kind}");
}

#[test]
fn test_format_prodos_disk() {
    // Create blank, then re-format as ProDOS
    let mut image = create_blank_disk(FLOPPY_SIZE);
    format_prodos_disk(&mut image, false).unwrap();
    let base = 2 * 512 + 4;
    let kind_byte = image[base];
    assert_eq!((kind_byte >> 4) & 0xF, 0xF, "Root kind expected after format");
}

#[test]
fn test_create_dos33_disk() {
    let dos = vec![0x60u8; 3 * 16 * 256];
    let image = create_dos33_disk(FLOPPY_SIZE, &dos).unwrap();
    assert_eq!(image.len(), FLOPPY_SIZE);

    // VTOC at track 17, sector 0 (offset = 17 * 4096)
    let vtoc_off = 17 * 16 * 256;
    assert_eq!(image[vtoc_off + 0x03], 0x03, "DOS 3.3 version byte at VTOC+3");
    assert_eq!(image[vtoc_off + 0x35], 16, "16 sectors/track");
}

#[test]
fn prodos_new_volume_keeps_boot_blocks_and_strips_slash() {
    let fw = firmware();
    let image = create_prodos_disk(FLOPPY_SIZE, &opts("/games"), &fw).unwrap();
    assert_eq!(&image[..1024], &fw.boot[..]);
    let base = 2 * 512 + 4;
    assert_eq!(image[base] & 0xF, 5);
    assert_eq!(&image[base + 1..base + 6], b"GAMES");
}

#[test]
fn prodos_new_volume_with_all_system_files() {
    let o = ProDosCreateOptions {
        copy_bitsy_boot: true,
        copy_bitsy_bye: true,
        copy_basic: true,
        copy_prodos: true,
        ..opts("SYSTEM")
    };
    let image = create_prodos_disk(FLOPPY_SIZE, &o, &firmware()).unwrap();
    let base = 2 * 512 + 4;
    // File count in the volume header.
    assert_eq!(image[base + 33] as u16 + image[base + 34] as u16 * 256, 4);
    // First entry is BITSY.BOOT, a seedling.
    let entry = base + 39;
    assert_eq!(image[entry] >> 4, 0x1);
    assert_eq!(&image[entry + 1..entry + 11], b"BITSY.BOOT");
}

#[test]
fn prodos_volume_too_small_for_files_is_disk_full() {
    // 8 KiB: the bitmap leaves no room for a 17 KiB file.
    let o = ProDosCreateOptions { copy_prodos: true, ..opts("TINY") };
    assert!(matches!(create_prodos_disk(8192, &o, &firmware()), Err(ProDosError::DiskFull)));
}

#[test]
fn dos33_size_limits() {
    let dos = vec![0u8; 16];
    assert!(matches!(create_dos33_disk(33 * 4096, &dos), Err(ProDosError::ImageTooSmall)));
    assert!(matches!(create_dos33_disk(41 * 4096, &dos), Err(ProDosError::ImageTooLarge)));
    let mut small = vec![0u8; 4096];
    assert!(matches!(format_dos33_disk(&mut small), Err(ProDosError::ImageTooSmall)));
    let mut ok = vec![0u8; FLOPPY_SIZE];
    assert!(format_dos33_disk(&mut ok).is_ok());
}

#[test]
fn prodos_interleave_by_extension() {
    assert!(needs_interleave("dsk"));
    assert!(needs_interleave("do"));
    assert!(!needs_interleave("po"));
    assert!(!needs_interleave("hdv"));
}

#[test]
fn prodos_format_with_interleave_round_trips_boot_blocks() {
    let mut image = vec![0u8; FLOPPY_SIZE];
    for (i, b) in image.iter_mut().take(1024).enumerate() {
        *b = (i % 200) as u8;
    }
    let boot: Vec<u8> = image[..256].to_vec();
    format_prodos_disk(&mut image, true).unwrap();
    // Sector 0 of track 0 is the same in both orders.
    assert_eq!(&image[..256], &boot[..]);
}
