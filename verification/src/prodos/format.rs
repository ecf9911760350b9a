//! ProDOS and DOS 3.3 filesystem formatting, plus sector interleave swizzling.

use vstd::prelude::*;
use vstd::string::StringSliceAdditionalSpecFns;
use super::bitmap::{
    bitmap_block_count, block_is_free, block_mask, cleared, get_first_free, init_free,
    lemma_set_used_marks_only_that_block, set_used, spec_bitmap_block_count, spec_bitmap_byte_count,
    spec_block_count,
};
use super::types::{
    ACCESS_B, ACCESS_D, ACCESS_N, ACCESS_R, ACCESS_W, BLOCK_SIZE, ROOT_BLOCK, VolumeHeader,
    ascii_upper, copy_upper_bytes, le16, lemma_volume_header_roundtrip, name_len, put_u16,
    set_volume_header, store16, volume_header_read, volume_header_storable,
};

verus! {

// ── DOS 3.3 constants ─────────────────────────────────────────────────────────

/// Bytes per DOS 3.3 track (16 sectors of 256 bytes).
pub const TRACK_DENIBBLIZED_SIZE: usize = 4096;
/// 35 standard tracks plus 5 extra (160 KB).
pub const TRACKS_MAX: usize = 40;
/// Bytes per DOS 3.3 sector.
pub const DSK_SECTOR_SIZE: usize = 256;
/// Volume number written to a new DOS 3.3 VTOC.
pub const DEFAULT_VOLUME_NUMBER: u8 = 254;

// ── Volume name handling ─────────────────────────────────────────────────────

/// Index of the first byte of `b` at or after `i` that is not a `/`.
pub open spec fn first_non_slash_from(b: Seq<u8>, i: int) -> int
    decreases b.len() - i,
{
    if i < 0 || i >= b.len() {
        if i < 0 { 0 } else { b.len() as int }
    } else if b[i] == 47 {
        first_non_slash_from(b, i + 1)
    } else {
        i
    }
}

/// A volume name with its leading `/` characters removed.
pub open spec fn trim_slashes(b: Seq<u8>) -> Seq<u8> {
    b.skip(first_non_slash_from(b, 0))
}

proof fn lemma_first_non_slash_bounds(b: Seq<u8>, i: int)
    requires
        0 <= i <= b.len(),
    ensures
        i <= first_non_slash_from(b, i) <= b.len(),
    decreases b.len() - i,
{
    if i < b.len() && b[i] == 47 {
        lemma_first_non_slash_bounds(b, i + 1);
    }
}

/// The volume name bytes without their leading `/` characters.
fn trimmed_name(b: &[u8]) -> (r: Vec<u8>)
    ensures
        r@ == trim_slashes(b@),
{
    let mut k: usize = 0;
    while k < b.len() && b[k] == 47
        invariant
            k <= b@.len(),
            first_non_slash_from(b@, 0) == first_non_slash_from(b@, k as int),
        decreases b@.len() - k,
    {
        k = k + 1;
    }
    proof {
        lemma_first_non_slash_bounds(b@, k as int);
    }
    assert(first_non_slash_from(b@, k as int) == k);
    let mut out: Vec<u8> = Vec::new();
    let mut j = k;
    while j < b.len()
        invariant
            k <= j <= b@.len(),
            out@ == b@.subrange(k as int, j as int),
        decreases b@.len() - j,
    {
        out.push(b[j]);
        j = j + 1;
    }
    assert(out@ =~= b@.skip(k as int));
    out
}

// ── ProDOS formatting ────────────────────────────────────────────────────────

/// Block number of the volume bitmap on a freshly formatted volume: right
/// after the four root directory blocks.
pub open spec fn fresh_bitmap_block() -> int {
    6
}

/// The root volume header of a freshly formatted volume named `name`.
pub open spec fn fresh_root_header(h: VolumeHeader, name: Seq<u8>, total: int) -> bool {
    let len = name_len(name.len() as int);
    &&& h.kind == 0xF
    &&& h.len == len
    &&& forall|i: int| 0 <= i < len ==> h.name@[i] == ascii_upper(name[i])
    &&& forall|i: int| len <= i < 16 ==> h.name@[i] == 0
    &&& forall|i: int| 0 <= i < 8 ==> h.pad8@[i] == 0
    &&& h.date == 0
    &&& h.time == 0
    &&& h.cur_ver == 0
    &&& h.min_ver == 0
    &&& h.access == 0xE3
    &&& h.entry_len == 0x27
    &&& h.entry_num == 13
    &&& h.file_count == 0
    &&& h.bitmap_block == 6
    &&& h.total_blocks == total
    &&& h.parent_block == 0
    &&& h.parent_entry_num == 0
    &&& h.parent_entry_len == 0
}

/// Bytes of a fresh volume that hold something other than zero: the four
/// root directory link words, the root header and the bitmap.
pub open spec fn fresh_volume_marked(j: int, nbytes: int) -> bool {
    ||| 1024 <= j < 1067
    ||| 1536 <= j < 1540
    ||| 2048 <= j < 2052
    ||| 2560 <= j < 2564
    ||| 3072 <= j < 3072 + nbytes
}

/// The block count stored in a fresh volume header.
pub open spec fn fresh_total_blocks(disk_size: int) -> int {
    if spec_block_count(disk_size) > 0xFFFF {
        0xFFFF
    } else {
        spec_block_count(disk_size)
    }
}

/// The bitmap at `3072` marks exactly the blocks from `k` up to the last
/// of the volume's `nblk` blocks as free.
pub open spec fn free_from(s: Seq<u8>, nbytes: int, nblk: int, k: int) -> bool {
    forall|c: int| 0 <= c < nbytes * 8 ==> (#[trigger] block_is_free(s, 3072, c) <==> k <= c < nblk)
}

/// Allocating the first free block when the free blocks are exactly those
/// from `k` on marks `k` used and leaves the blocks from `k + 1` free.
proof fn lemma_alloc_next(s: Seq<u8>, nbytes: int, nblk: int, k: int)
    requires
        0 <= k < nbytes * 8,
        3072 + nbytes <= s.len(),
        free_from(s, nbytes, nblk, k),
    ensures
        free_from(s.update(3072 + k / 8, cleared(s[3072 + k / 8], k)), nbytes, nblk, k + 1),
{
    let s2 = s.update(3072 + k / 8, cleared(s[3072 + k / 8], k));
    lemma_set_used_marks_only_that_block(s, 3072, k, k);
    assert forall|c: int| 0 <= c < nbytes * 8 implies (#[trigger] block_is_free(s2, 3072, c) <==> k
        + 1 <= c < nblk) by {
        lemma_set_used_marks_only_that_block(s, 3072, k, c);
    }
}

/// `s` is `s0` with a fresh ProDOS volume named `name` (slashes trimmed)
/// written over its first `disk_size` bytes: the two boot blocks kept, four
/// linked root-directory blocks, a bitmap with everything past the volume's
/// own blocks free, the rest of the volume zeroed, and nothing past
/// `disk_size` touched.
pub open spec fn prodos_formatted(s0: Seq<u8>, s: Seq<u8>, disk_size: int, name: Seq<u8>) -> bool {
    let nbytes = spec_bitmap_byte_count(disk_size);
    &&& s.len() == s0.len()
    &&& forall|j: int| 0 <= j < 1024 ==> s[j] == s0[j]
    &&& forall|j: int| disk_size <= j < s.len() && !fresh_volume_marked(j, nbytes) ==> s[j] == s0[j]
    &&& forall|j: int| 1024 <= j < disk_size && !fresh_volume_marked(j, nbytes) ==> s[j] == 0
    &&& le16(s, 1024) == 0 && le16(s, 1026) == 3
    &&& le16(s, 1536) == 2 && le16(s, 1538) == 4
    &&& le16(s, 2048) == 3 && le16(s, 2050) == 5
    &&& le16(s, 2560) == 4 && le16(s, 2562) == 0
    &&& free_from(s, nbytes, spec_block_count(disk_size), 6 + spec_bitmap_block_count(disk_size))
    &&& exists|h: VolumeHeader|
        volume_header_read(h, s, 1028) && fresh_root_header(
            h,
            trim_slashes(name),
            fresh_total_blocks(disk_size),
        )
}

/// Initialize a ProDOS volume on `image` (which must be in block order).
///
/// - Clears all bytes from block 2 up to `disk_size` (boot blocks 0-1 kept).
/// - Creates 4 doubly-linked root-directory blocks (blocks 2-5).
/// - Puts the free-block bitmap at block 6 and marks the boot blocks, the
///   directory blocks and the bitmap blocks used.
/// - Writes the root volume header with the upper-cased volume name.
pub fn format_filesystem(image: &mut [u8], disk_size: usize, volume_name: &str)
    requires
        1024 <= disk_size <= old(image).len(),
        3072 + spec_bitmap_byte_count(disk_size as int) <= old(image).len(),
        spec_bitmap_byte_count(disk_size as int) * 8 <= u32::MAX,
        6 + spec_bitmap_block_count(disk_size as int) <= spec_block_count(disk_size as int),
    ensures
        prodos_formatted(old(image)@, final(image)@, disk_size as int, volume_name.spec_bytes()),
{
    let ghost s0 = image@;
    let ghost nbytes = spec_bitmap_byte_count(disk_size as int);
    let ghost nblk = spec_block_count(disk_size as int);
    // Clear everything from block 2 onward, preserving both boot blocks.
    let boot_size = ROOT_BLOCK as usize * BLOCK_SIZE;
    let mut j = boot_size;
    while j < disk_size
        invariant
            1024 <= j <= disk_size,
            disk_size <= image.len(),
            image@.len() == s0.len(),
            forall|k: int|
                0 <= k < s0.len() ==> image@[k] == (if 1024 <= k < j { 0u8 } else { s0[k] }),
        decreases disk_size - j,
    {
        image[j] = 0;
        j = j + 1;
    }
    let ghost s1 = image@;
    // The bitmap lives right after the root directory blocks.
    let bitmap_block: u16 = 6;
    let mut total_blocks: u16 = 0;
    init_free(image, disk_size, bitmap_block, &mut total_blocks);
    let ghost s2 = image@;
    assert(free_from(image@, nbytes, nblk, 0));
    assert(nbytes >= 1);
    // Mark the boot blocks used.
    proof {
        lemma_alloc_next(image@, nbytes, nblk, 0);
    }
    set_used(image, bitmap_block, 0);
    proof {
        lemma_alloc_next(image@, nbytes, nblk, 1);
    }
    set_used(image, bitmap_block, 1);
    // The frame: bytes outside the marked areas keep their cleared value.
    assert forall|k: int|
        0 <= k < s0.len() && !fresh_volume_marked(k, nbytes) implies image@[k] == s1[k] by {}
    // Allocate the four root directory blocks (2, 3, 4, 5).
    let mut prev_dir_block: u16 = 0;
    let mut i: usize = 0;
    while i < 4
        invariant
            i <= 4,
            nbytes == spec_bitmap_byte_count(disk_size as int),
            nbytes >= 1,
            bitmap_block == 6,
            3072 + nbytes <= image.len(),
            nbytes * 8 <= u32::MAX,
            image@.len() == s0.len(),
            free_from(image@, nbytes, nblk, 2 + i),
            nblk == spec_block_count(disk_size as int),
            6 + spec_bitmap_block_count(disk_size as int) <= nblk,
            prev_dir_block == (if i == 0 { 0 } else { 1 + i }),
            forall|k: int|
                0 <= k < s0.len() && !fresh_volume_marked(k, nbytes) ==> image@[k] == s1[k],
            i >= 1 ==> le16(image@, 1024) == 0,
            i >= 2 ==> le16(image@, 1026) == 3 && le16(image@, 1536) == 2,
            i >= 3 ==> le16(image@, 1538) == 4 && le16(image@, 2048) == 3,
            i >= 4 ==> le16(image@, 2050) == 5 && le16(image@, 2560) == 4,
            i >= 1 ==> le16(image@, 1024 + (i - 1) * 512 + 2) == 0,
        decreases 4 - i,
    {
        let blk = match get_first_free(image, disk_size, bitmap_block) {
            Some(b) => b,
            None => {
                proof {
                    assert(bitmap_block as int * 512 == 3072);
                    assert(!block_is_free(image@, bitmap_block as int * 512, 2 + i as int));
                    assert(block_is_free(image@, 3072, 2 + i as int));
                    assert(false);
                }
                0
            },
        };
        assert(blk == 2 + i) by {
            assert(block_is_free(image@, 3072, 2 + i as int));
            assert(block_is_free(image@, 3072, blk as int));
            assert(blk >= 2 + i);
        }
        proof {
            lemma_alloc_next(image@, nbytes, nblk, blk as int);
        }
        set_used(image, bitmap_block, blk);
        let blk = blk as u16;
        let off = blk as usize * BLOCK_SIZE;
        let ghost before = image@;
        put_u16(image, off, prev_dir_block);
        put_u16(image, off + 2, 0);
        if i > 0 {
            let prev_off = prev_dir_block as usize * BLOCK_SIZE;
            put_u16(image, prev_off + 2, blk);
        }
        assert forall|c: int| 0 <= c < nbytes * 8 implies #[trigger] block_is_free(image@, 3072, c)
            == block_is_free(before, 3072, c) by {
            assert(image@[3072 + c / 8] == before[3072 + c / 8]);
        }
        prev_dir_block = blk;
        i = i + 1;
    }
    // Allocate the bitmap blocks (6, 7, ...).
    let n_bitmap_blks = bitmap_block_count(disk_size);
    assert(6 + n_bitmap_blks <= nbytes * 8);
    let mut i: usize = 0;
    while i < n_bitmap_blks
        invariant
            i <= n_bitmap_blks,
            n_bitmap_blks == spec_bitmap_block_count(disk_size as int),
            6 + n_bitmap_blks <= nbytes * 8,
            nbytes == spec_bitmap_byte_count(disk_size as int),
            bitmap_block == 6,
            3072 + nbytes <= image.len(),
            nbytes * 8 <= u32::MAX,
            image@.len() == s0.len(),
            free_from(image@, nbytes, nblk, 6 + i),
            nblk == spec_block_count(disk_size as int),
            6 + n_bitmap_blks <= nblk,
            forall|k: int|
                0 <= k < s0.len() && !fresh_volume_marked(k, nbytes) ==> image@[k] == s1[k],
            le16(image@, 1024) == 0 && le16(image@, 1026) == 3,
            le16(image@, 1536) == 2 && le16(image@, 1538) == 4,
            le16(image@, 2048) == 3 && le16(image@, 2050) == 5,
            le16(image@, 2560) == 4 && le16(image@, 2562) == 0,
        decreases n_bitmap_blks - i,
    {
        let blk = match get_first_free(image, disk_size, bitmap_block) {
            Some(b) => b,
            None => {
                proof {
                    assert(bitmap_block as int * 512 == 3072);
                    assert(!block_is_free(image@, bitmap_block as int * 512, 6 + i as int));
                    assert(block_is_free(image@, 3072, 6 + i as int));
                    assert(false);
                }
                0
            },
        };
        assert(blk == 6 + i) by {
            assert(block_is_free(image@, 3072, 6 + i as int));
            assert(block_is_free(image@, 3072, blk as int));
            assert(blk >= 6 + i);
        }
        proof {
            lemma_alloc_next(image@, nbytes, nblk, blk as int);
        }
        set_used(image, bitmap_block, blk);
        i = i + 1;
    }
    // Build and write the volume header.
    let mut vh = VolumeHeader::default();
    vh.kind = 0xF;
    vh.entry_len = 0x27;
    vh.entry_num = (BLOCK_SIZE / 0x27) as u8;
    vh.file_count = 0;
    vh.bitmap_block = bitmap_block;
    vh.total_blocks = total_blocks;
    vh.access = ACCESS_D | ACCESS_N | ACCESS_B | ACCESS_W | ACCESS_R;
    assert(0x80u8 | 0x40u8 | 0x20u8 | 0x02u8 | 0x01u8 == 0xE3u8) by (bit_vector);
    let vname = trimmed_name(volume_name.as_bytes());
    let name_len_written = copy_upper_bytes(&mut vh.name, vname.as_slice());
    vh.len = name_len_written as u8;
    let ghost before_header = image@;
    set_volume_header(image, &vh, 2);
    proof {
        let s = image@;
        assert(s.len() == s0.len());
        assert forall|k: int|
            0 <= k < s0.len() && !fresh_volume_marked(k, nbytes) implies s[k] == s1[k] by {
            assert(s[k] == before_header[k]);
        }
        assert forall|j: int| 0 <= j < 1024 implies s[j] == s0[j] by {
            assert(!fresh_volume_marked(j, nbytes));
            assert(s[j] == s1[j]);
            assert(s1[j] == s0[j]);
        }
        assert(forall|j: int|
            disk_size <= j < s.len() && !fresh_volume_marked(j, nbytes) ==> s[j] == s0[j]);
        assert(forall|j: int| 1024 <= j < disk_size && !fresh_volume_marked(j, nbytes) ==> s[j] == 0);
        assert(le16(s, 1024) == 0 && le16(s, 1026) == 3);
        assert(le16(s, 1536) == 2 && le16(s, 1538) == 4);
        assert(volume_header_storable(vh));
        lemma_volume_header_roundtrip(before_header, vh, 1028);
        assert(fresh_root_header(
            vh,
            trim_slashes(volume_name.spec_bytes()),
            fresh_total_blocks(disk_size as int),
        ));
        assert forall|c: int| 0 <= c < nbytes * 8 implies #[trigger] block_is_free(image@, 3072, c)
            == block_is_free(before_header, 3072, c) by {
            assert(image@[3072 + c / 8] == before_header[3072 + c / 8]);
        }
    }
}


// ── DOS 3.3 formatting ───────────────────────────────────────────────────────

/// The VTOC sector byte that marks the sector usage of `track`: 1 = free.
/// Track 0 and the VTOC track are always fully used; the others are free.
pub open spec fn dos33_usage_byte(track: int, vtoc_track: int, k: int) -> u8 {
    if k >= 2 || track == 0 || track == vtoc_track {
        0u8
    } else {
        0xFFu8
    }
}

/// Whether DOS 3.3 formatting writes the byte at offset `j` of the VTOC
/// track, and its value: the catalog chain of sectors 15..1, the VTOC fields
/// and the per-track sector usage.
pub open spec fn dos33_track_byte(j: int, vtoc_track: int, n_tracks: int) -> Option<u8> {
    let sector = j / 256;
    let b = j % 256;
    if 1 <= sector <= 15 && (b == 1 || b == 2) {
        if sector == 1 {
            Some(0u8)
        } else if b == 1 {
            Some(vtoc_track as u8)
        } else {
            Some((sector - 1) as u8)
        }
    } else if sector == 0 {
        if b == 0x01 {
            Some(vtoc_track as u8)
        } else if b == 0x02 {
            Some(0x0Fu8)
        } else if b == 0x03 {
            Some(0x03u8)
        } else if b == 0x06 {
            Some(DEFAULT_VOLUME_NUMBER)
        } else if b == 0x27 {
            Some(122u8)
        } else if b == 0x30 {
            Some(vtoc_track as u8)
        } else if b == 0x31 {
            Some(1u8)
        } else if b == 0x34 {
            Some(n_tracks as u8)
        } else if b == 0x35 {
            Some(16u8)
        } else if b == 0x36 {
            Some(0u8)
        } else if b == 0x37 {
            Some(1u8)
        } else if 0x38 <= b < 0x38 + 4 * n_tracks {
            Some(dos33_usage_byte((b - 0x38) / 4, vtoc_track, (b - 0x38) % 4))
        } else {
            None
        }
    } else {
        None
    }
}

/// `s` after DOS 3.3 formatting with the VTOC on `vtoc_track`.
pub open spec fn dos33_formatted(s: Seq<u8>, vtoc_track: int, n_tracks: int) -> Seq<u8> {
    Seq::new(
        s.len(),
        |j: int|
            if vtoc_track * 4096 <= j < vtoc_track * 4096 + 4096 {
                match dos33_track_byte(j - vtoc_track * 4096, vtoc_track, n_tracks) {
                    Some(v) => v,
                    None => s[j],
                }
            } else {
                s[j]
            },
    )
}

/// Set the usage bytes of one track in the VTOC sector at `vtoc_off`
/// (`bitmask`: 1 = free, 0 = used).
fn dos33_set_track_sector_usage(image: &mut [u8], vtoc_off: usize, track: usize, bitmask: u16)
    requires
        track < 40,
        vtoc_off + 4096 <= old(image).len(),
    ensures
        final(image)@ == old(image)@.update(vtoc_off + 0x38 + track * 4, hi8_u16(bitmask)).update(
            vtoc_off + 0x38 + track * 4 + 1,
            (bitmask % 256) as u8,
        ).update(vtoc_off + 0x38 + track * 4 + 2, 0u8).update(vtoc_off + 0x38 + track * 4 + 3, 0u8),
{
    let off = vtoc_off + 0x38 + track * 4;
    image[off] = (bitmask / 256) as u8;
    image[off + 1] = (bitmask % 256) as u8;
    image[off + 2] = 0x00;
    image[off + 3] = 0x00;
}

/// High byte of a 16-bit value.
pub open spec fn hi8_u16(v: u16) -> u8 {
    (v / 256) as u8
}

/// Write a DOS 3.3 VTOC and catalog chain into `image` (`vtoc_track` is
/// normally 0x11). The image may hold at most 40 tracks.
pub fn format_dos33_filesystem(image: &mut [u8], disk_size: usize, vtoc_track: usize)
    requires
        disk_size / 4096 <= 40,
        vtoc_track * 4096 + 4096 <= old(image).len(),
    ensures
        final(image)@ == dos33_formatted(old(image)@, vtoc_track as int, disk_size as int / 4096),
{
    let ghost s0 = image@;
    let n_tracks = disk_size / TRACK_DENIBBLIZED_SIZE;
    let vtoc_off = vtoc_track * TRACK_DENIBBLIZED_SIZE;
    let ghost target = dos33_formatted(s0, vtoc_track as int, n_tracks as int);
    // The catalog chain: sector $F down to $2, each pointing to the next.
    let mut sector: usize = 15;
    while sector >= 2
        invariant
            1 <= sector <= 15,
            vtoc_off == vtoc_track * 4096,
            vtoc_off + 4096 <= image.len(),
            image@.len() == s0.len(),
            target == dos33_formatted(s0, vtoc_track as int, n_tracks as int),
            forall|j: int|
                0 <= j < s0.len() ==> image@[j] == (if vtoc_off + 256 * (sector + 1) <= j < vtoc_off
                    + 4096 && ((j - vtoc_off) % 256 == 1 || (j - vtoc_off) % 256 == 2) {
                    target[j]
                } else {
                    s0[j]
                }),
        decreases sector,
    {
        let off = vtoc_off + sector * DSK_SECTOR_SIZE;
        image[off + 1] = vtoc_track as u8;
        image[off + 2] = (sector - 1) as u8;
        sector = sector - 1;
    }
    // The last catalog sector ($1) has no link.
    let off = vtoc_off + DSK_SECTOR_SIZE;
    image[off + 1] = 0;
    image[off + 2] = 0;
    image[vtoc_off + 0x01] = vtoc_track as u8;
    image[vtoc_off + 0x02] = 0x0F;
    image[vtoc_off + 0x03] = 0x03;
    image[vtoc_off + 0x06] = DEFAULT_VOLUME_NUMBER;
    image[vtoc_off + 0x27] = 122;
    image[vtoc_off + 0x30] = vtoc_track as u8;
    image[vtoc_off + 0x31] = 1;
    image[vtoc_off + 0x34] = n_tracks as u8;
    image[vtoc_off + 0x35] = 16;
    image[vtoc_off + 0x36] = 0x00;
    image[vtoc_off + 0x37] = 0x01;
    // The sector usage of every track.
    let mut track: usize = 0;
    while track < n_tracks
        invariant
            track <= n_tracks <= 40,
            n_tracks == disk_size / 4096,
            vtoc_off == vtoc_track * 4096,
            vtoc_off + 4096 <= image.len(),
            image@.len() == s0.len(),
            target == dos33_formatted(s0, vtoc_track as int, n_tracks as int),
            forall|j: int|
                0 <= j < s0.len() ==> image@[j] == (if vtoc_off <= j < vtoc_off + 4096 && (j
                    - vtoc_off >= 256 || j - vtoc_off < 0x38 + 4 * track) {
                    target[j]
                } else {
                    s0[j]
                }),
        decreases n_tracks - track,
    {
        let bitmask: u16 = if track == 0 || track == vtoc_track {
            0x0000
        } else {
            0xFFFF
        };
        dos33_set_track_sector_usage(image, vtoc_off, track, bitmask);
        track = track + 1;
    }
    assert(image@ =~= target);
}

// ── Sector interleave swizzling ──────────────────────────────────────────────

/// DOS 3.3 logical sector → ProDOS sector order.
pub open spec fn interleave(s: int) -> int {
    seq![0int, 14, 13, 12, 11, 10, 9, 8, 7, 6, 5, 4, 3, 2, 1, 15][s]
}

/// The interleave table entry for sector `s`.
fn interleave_dsk(s: usize) -> (r: usize)
    requires
        s < 16,
    ensures
        r == interleave(s as int),
{
    if s == 0 || s == 15 {
        s
    } else {
        15 - s
    }
}

/// The interleave swaps sectors in pairs: applying it twice is the identity.
pub proof fn lemma_interleave_involution(s: int)
    requires
        0 <= s < 16,
    ensures
        0 <= interleave(s) < 16,
        interleave(interleave(s)) == s,
{
}

/// The DOS 3.3 to ProDOS sector table is the fixed permutation that keeps
/// sectors 0 and 15 and reverses 1-14: sector `s` goes to `15 - s`. So
/// ProDOS block 2 (sectors 4 and 5 in ProDOS order) sits in DOS sectors 11
/// and 10 of track 0.
pub proof fn lemma_interleave_table(s: int)
    requires
        0 <= s < 16,
    ensures
        interleave(s) == (if s == 0 || s == 15 { s } else { 15 - s }),
        interleave(1) == 14 && interleave(11) == 4 && interleave(10) == 5,
{
    assert(interleave(1) == 14 && interleave(11) == 4 && interleave(10) == 5);
    assert(interleave(s) == (if s == 0 || s == 15 { s } else { 15 - s }));
}

/// In a re-ordered image of whole tracks, byte `b` of sector `sec` of
/// track `t` is byte `b` of sector `15 - sec` of the same track (sectors 0
/// and 15 stay).
pub proof fn lemma_interleave_image_sectors(img: Seq<u8>, disk_size: int, t: int, sec: int, b: int)
    requires
        swizzled(disk_size),
        disk_size <= img.len(),
        0 <= t < disk_size / 4096,
        0 <= sec < 16,
        0 <= b < 256,
    ensures
        interleave_image(img, disk_size)[t * 4096 + sec * 256 + b] == img[t * 4096 + (if sec == 0 || sec == 15 {
            sec
        } else {
            15 - sec
        }) * 256 + b],
{
    let j = t * 4096 + sec * 256 + b;
    assert(j < disk_size) by (nonlinear_arith)
        requires
            0 <= t < disk_size / 4096,
            0 <= sec < 16,
            0 <= b < 256,
            j == t * 4096 + sec * 256 + b,
            disk_size % 4096 == 0,
    ;
    assert(j / 4096 == t && (j % 4096) / 256 == sec && j % 256 == b) by (nonlinear_arith)
        requires
            0 <= t,
            0 <= sec < 16,
            0 <= b < 256,
            j == t * 4096 + sec * 256 + b,
    ;
    reveal(swizzle_src);
    lemma_interleave_table(sec);
}

/// Whether an image of `disk_size` bytes is swizzled at all: a whole,
/// non-zero number of 4096-byte tracks.
pub open spec fn swizzled(disk_size: int) -> bool {
    disk_size % 4096 == 0 && disk_size / 4096 > 0
}

/// The byte that lands at `j` when the sectors of its track are re-ordered:
/// the same byte of sector `interleave(s)` of the same track.
#[verifier::opaque]
pub open spec fn swizzle_src(j: int) -> int {
    (j / 4096) * 4096 + interleave((j % 4096) / 256) * 256 + j % 256
}

/// The source of each byte lies in the same track.
proof fn lemma_swizzle_src_bounds(j: int, disk_size: int)
    requires
        0 <= j < disk_size,
        disk_size % 4096 == 0,
    ensures
        0 <= swizzle_src(j) < disk_size,
        (j / 4096) * 4096 <= swizzle_src(j) < (j / 4096) * 4096 + 4096,
{
    reveal(swizzle_src);
    assert((j / 4096) * 4096 + 4096 <= disk_size) by (nonlinear_arith)
        requires
            0 <= j < disk_size,
            disk_size % 4096 == 0,
    ;
    assert(0 <= interleave((j % 4096) / 256) < 16);
}

/// The image with the 256-byte sectors of each track re-ordered: sector `s`
/// of each track takes the bytes of sector `interleave(s)`.
pub open spec fn interleave_image(s: Seq<u8>, disk_size: int) -> Seq<u8> {
    Seq::new(
        s.len(),
        |j: int|
            if swizzled(disk_size) && j < disk_size {
                s[swizzle_src(j)]
            } else {
                s[j]
            },
    )
}

/// Re-order the 256-byte sectors of `image` within each track by the
/// interleave table, reading from a copy of the original.
fn swizzle_sectors(image: &mut [u8], disk_size: usize)
    requires
        disk_size <= old(image).len(),
        disk_size % 4096 == 0,
    ensures
        final(image)@ == Seq::new(
            old(image)@.len(),
            |j: int|
                if j < disk_size {
                    old(image)@[swizzle_src(j)]
                } else {
                    old(image)@[j]
                },
        ),
{
    let mut source: Vec<u8> = Vec::new();
    let mut k: usize = 0;
    while k < disk_size
        invariant
            k <= disk_size <= image@.len(),
            source@ == image@.take(k as int),
        decreases disk_size - k,
    {
        source.push(image[k]);
        k = k + 1;
    }
    let ghost s0 = image@;
    let mut j: usize = 0;
    while j < disk_size
        invariant
            j <= disk_size <= image.len(),
            disk_size % 4096 == 0,
            image@.len() == s0.len(),
            source@ == s0.take(disk_size as int),
            forall|i: int|
                0 <= i < s0.len() ==> image@[i] == (if i < j {
                    s0[swizzle_src(i)]
                } else {
                    s0[i]
                }),
        decreases disk_size - j,
    {
        let sector = (j % 4096) / 256;
        let src = (j / 4096) * 4096 + interleave_dsk(sector) * 256 + j % 256;
        proof {
            lemma_swizzle_src_bounds(j as int, disk_size as int);
            reveal(swizzle_src);
        }
        image[j] = source[src];
        j = j + 1;
    }
    assert(image@ =~= Seq::new(
        s0.len(),
        |i: int|
            if i < disk_size {
                s0[swizzle_src(i)]
            } else {
                s0[i]
            },
    ));
}

/// Re-order 256-byte sectors from DOS 3.3 physical order to ProDOS order.
/// Only a whole number of 4096-byte tracks is re-ordered; for any other
/// size (a hard-disk `.po` image, say) the image is left as it is.
pub fn forward_sector_interleave(image: &mut [u8], disk_size: usize)
    requires
        swizzled(disk_size as int) ==> disk_size <= old(image).len(),
    ensures
        final(image)@ == interleave_image(old(image)@, disk_size as int),
{
    let n_tracks = disk_size / TRACK_DENIBBLIZED_SIZE;
    if disk_size % TRACK_DENIBBLIZED_SIZE != 0 || n_tracks == 0 {
        assert(image@ =~= interleave_image(image@, disk_size as int));
        return;
    }
    swizzle_sectors(image, disk_size);
    assert(image@ =~= interleave_image(old(image)@, disk_size as int));
}

/// Re-order 256-byte sectors from ProDOS order back to DOS 3.3 physical
/// order; as the table swaps sectors in pairs, this is the same re-ordering.
pub fn reverse_sector_interleave(image: &mut [u8], disk_size: usize)
    requires
        swizzled(disk_size as int) ==> disk_size <= old(image).len(),
    ensures
        final(image)@ == interleave_image(old(image)@, disk_size as int),
{
    let n_tracks = disk_size / TRACK_DENIBBLIZED_SIZE;
    if disk_size % TRACK_DENIBBLIZED_SIZE != 0 || n_tracks == 0 {
        assert(image@ =~= interleave_image(image@, disk_size as int));
        return;
    }
    swizzle_sectors(image, disk_size);
    assert(image@ =~= interleave_image(old(image)@, disk_size as int));
}

/// Swizzling to ProDOS order and back gives the original image.
pub proof fn lemma_interleave_roundtrip(s: Seq<u8>, disk_size: int)
    requires
        disk_size <= s.len(),
    ensures
        interleave_image(interleave_image(s, disk_size), disk_size) == s,
{
    let m = interleave_image(s, disk_size);
    let r = interleave_image(m, disk_size);
    assert forall|j: int| 0 <= j < s.len() implies r[j] == s[j] by {
        if swizzled(disk_size) && j < disk_size {
            reveal(swizzle_src);
            let t = j / 4096;
            let sec = (j % 4096) / 256;
            let b = j % 256;
            let i = t * 4096 + interleave(sec) * 256 + b;
            lemma_interleave_involution(sec);
            lemma_swizzle_src_bounds(j, disk_size);
            assert(i / 4096 == t && (i % 4096) / 256 == interleave(sec) && i % 256 == b) by {
                assert(0 <= interleave(sec) * 256 + b < 4096);
            }
            assert(i < disk_size) by {
                assert(t * 4096 + 4096 <= disk_size);
            }
            assert(t * 4096 + sec * 256 + b == j);
        }
    }
    assert(r =~= s);
}

} // verus!
