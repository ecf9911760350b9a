//! Tests of adding files to a ProDOS volume: block placement, index blocks,
//! sparse blocks, the bitmap and the errors.

use apple2_core::prodos::file::{add_file, FileMeta};
use apple2_core::prodos::format::format_filesystem;
use apple2_core::prodos::types::ProDosError;

const FLOPPY: usize = 143360;
const HEADER: usize = 2 * 512 + 4;
const ENTRY: usize = HEADER + 39;
const BITMAP: usize = 6 * 512;

fn volume() -> Vec<u8> {
    let mut image = vec![0u8; FLOPPY];
    format_filesystem(&mut image, FLOPPY, "FILES");
    image
}

fn meta(name: &str) -> FileMeta {
    FileMeta {
        name: name.to_string(),
        file_type: 0x06,
        aux: 0x2000,
        date: 0x1234,
        time: 0x0A0B,
        mod_date: 0x4321,
        mod_time: 0x0B0A,
        access: 0xC3,
        cur_ver: 0,
        min_ver: 0,
    }
}

fn le16(image: &[u8], off: usize) -> usize {
    image[off] as usize | (image[off + 1] as usize) << 8
}

fn is_free(image: &[u8], block: usize) -> bool {
    image[BITMAP + block / 8] & (0x80 >> (block % 8)) != 0
}

#[test]
fn seed_file_goes_to_lowest_free_block() {
    let mut image = volume();
    // Blocks 0-6 (boot, directory, bitmap) are in use; 7 is the first free.
    assert!(is_free(&image, 7) && !is_free(&image, 6));
    let data: Vec<u8> = (0..100u32).map(|i| (i * 3 % 256) as u8).collect();
    assert!(add_file(&mut image, FLOPPY, &data, &meta("hello.txt"), false).is_ok());
    assert_eq!(image[ENTRY] >> 4, 1);
    assert_eq!(image[ENTRY] & 0xF, 9);
    assert_eq!(&image[ENTRY + 1..ENTRY + 10], b"HELLO.TXT");
    assert_eq!(image[ENTRY + 16], 0x06);
    assert_eq!(le16(&image, ENTRY + 17), 7);
    assert_eq!(le16(&image, ENTRY + 19), 1);
    assert_eq!(le16(&image, ENTRY + 21), 100);
    assert_eq!(image[ENTRY + 23], 0);
    assert_eq!(le16(&image, ENTRY + 31), 0x2000);
    assert_eq!(le16(&image, ENTRY + 37), 2);
    assert_eq!(&image[7 * 512..7 * 512 + 100], &data[..]);
    assert!(!is_free(&image, 7));
    assert!(is_free(&image, 8));
    assert_eq!(le16(&image, HEADER + 33), 1);
}

#[test]
fn sapling_file_has_index_block_then_data_blocks() {
    let mut image = volume();
    let data: Vec<u8> = (0..1200u32).map(|i| (i % 251) as u8).collect();
    assert!(add_file(&mut image, FLOPPY, &data, &meta("BIG"), false).is_ok());
    assert_eq!(image[ENTRY] >> 4, 2);
    // Index block 7, data blocks 8, 9, 10.
    assert_eq!(le16(&image, ENTRY + 17), 7);
    assert_eq!(le16(&image, ENTRY + 19), 4);
    for (k, blk) in [8usize, 9, 10].iter().enumerate() {
        assert_eq!(image[7 * 512 + k] as usize, *blk);
        assert_eq!(image[7 * 512 + 256 + k], 0);
        let len = if k == 2 { 1200 - 1024 } else { 512 };
        assert_eq!(&image[blk * 512..blk * 512 + len], &data[k * 512..k * 512 + len]);
        assert!(!is_free(&image, *blk));
    }
    assert_eq!(image[7 * 512 + 3], 0);
    assert!(!is_free(&image, 7));
    assert!(is_free(&image, 11));
}

#[test]
fn sparse_block_gets_zero_index_entry() {
    let mut data = vec![0x11u8; 1536];
    for b in data[512..1024].iter_mut() {
        *b = 0;
    }
    let mut sparse = volume();
    assert!(add_file(&mut sparse, FLOPPY, &data, &meta("SPARSE"), true).is_ok());
    assert_eq!(le16(&sparse, ENTRY + 19), 3);
    assert_eq!(sparse[7 * 512], 8);
    assert_eq!(sparse[7 * 512 + 1], 0);
    assert_eq!(sparse[7 * 512 + 257], 0);
    assert_eq!(sparse[7 * 512 + 2], 9);
    assert!(is_free(&sparse, 10));
    assert_eq!(&sparse[9 * 512..10 * 512], &data[1024..1536]);

    // Without sparse storage the zero block is written like the others.
    let mut dense = volume();
    assert!(add_file(&mut dense, FLOPPY, &data, &meta("DENSE"), false).is_ok());
    assert_eq!(le16(&dense, ENTRY + 19), 4);
    assert_eq!(dense[7 * 512 + 1], 9);
    assert_eq!(dense[7 * 512 + 2], 10);
    assert!(!is_free(&dense, 10));
}

#[test]
fn file_over_128k_is_too_big_and_volume_unchanged() {
    let mut image = volume();
    let before = image.clone();
    let data = vec![1u8; 256 * 512 + 1];
    assert!(matches!(add_file(&mut image, FLOPPY, &data, &meta("HUGE"), false), Err(ProDosError::FileTooBig)));
    assert_eq!(image, before);
}

#[test]
fn full_bitmap_is_disk_full() {
    let mut image = volume();
    // Leave block 7 as the only free block.
    for b in image[BITMAP..BITMAP + 35].iter_mut() {
        *b = 0;
    }
    image[BITMAP] = 0x01;
    // A two-block file needs an index block and two data blocks.
    let data = vec![0x22u8; 1000];
    assert!(matches!(add_file(&mut image, FLOPPY, &data, &meta("NOFIT"), false), Err(ProDosError::DiskFull)));
    // A one-block file fits in the one free block.
    let mut image2 = volume();
    for b in image2[BITMAP..BITMAP + 35].iter_mut() {
        *b = 0;
    }
    image2[BITMAP] = 0x01;
    assert!(add_file(&mut image2, FLOPPY, &data[..400], &meta("FITS"), false).is_ok());
    assert_eq!(le16(&image2, ENTRY + 17), 7);
    assert!(!is_free(&image2, 7));
}

#[test]
fn fresh_volume_takes_exactly_its_free_blocks() {
    // 100 blocks: boot (2), directory (4) and bitmap (1) leave 93 free.
    let size = 100 * 512;
    let fresh = || {
        let mut image = vec![0u8; size];
        format_filesystem(&mut image, size, "SMALL");
        // Whatever the boot blocks hold.
        for b in image[..1024].iter_mut() {
            *b = 0xEE;
        }
        image
    };
    // An index block and 92 data blocks: 93 blocks.
    let mut image = fresh();
    assert!(add_file(&mut image, size, &vec![0x5Au8; 92 * 512], &meta("FITS"), false).is_ok());
    for blk in 7..100 {
        assert!(!is_free(&image, blk));
    }
    // One data block more does not fit.
    let mut image = fresh();
    assert!(matches!(add_file(&mut image, size, &vec![0x5Au8; 93 * 512], &meta("NOFIT"), false), Err(ProDosError::DiskFull)));
}
