//! ProDOS volume free-block bitmap: one bit per block, most significant bit
//! first, 1 = free.

use vstd::prelude::*;
use super::types::{BLOCK_SIZE, MAX_BLOCKS};

verus! {

/// Number of 512-byte blocks in an image of `disk_size` bytes (rounded up).
pub open spec fn spec_block_count(disk_size: int) -> int {
    (disk_size + 511) / 512
}

/// Number of bitmap bytes that cover every block of the image.
pub open spec fn spec_bitmap_byte_count(disk_size: int) -> int {
    (spec_block_count(disk_size) + 7) / 8
}

/// Number of 512-byte blocks that the bitmap itself occupies.
pub open spec fn spec_bitmap_block_count(disk_size: int) -> int {
    (spec_bitmap_byte_count(disk_size) + 511) / 512
}

/// The bitmap mask of `block` within its byte.
pub open spec fn block_mask(block: int) -> u8 {
    0x80u8 >> ((block % 8) as u8)
}

/// Whether the bitmap starting at `offset` marks `block` as free.
pub open spec fn block_is_free(s: Seq<u8>, offset: int, block: int) -> bool {
    s[offset + block / 8] & block_mask(block) != 0
}

/// Byte offset of the bitmap in the image.
pub fn bitmap_offset(bitmap_block: u16) -> (r: usize)
    ensures
        r == bitmap_block as int * 512,
{
    bitmap_block as usize * BLOCK_SIZE
}

/// Total number of blocks in a disk image of `disk_size` bytes.
pub fn block_count(disk_size: usize) -> (r: usize)
    ensures
        r == spec_block_count(disk_size as int),
{
    disk_size / BLOCK_SIZE + if disk_size % BLOCK_SIZE != 0 { 1 } else { 0 }
}

/// Number of bitmap bytes needed to cover all blocks in the image.
pub fn bitmap_byte_count(disk_size: usize) -> (r: usize)
    ensures
        r == spec_bitmap_byte_count(disk_size as int),
{
    let blocks = block_count(disk_size);
    blocks / 8 + if blocks % 8 != 0 { 1 } else { 0 }
}

/// Bitmap byte `k` of a volume of `nblk` blocks with every block free: the
/// bits of blocks below `nblk` set, those of blocks past the end clear.
pub open spec fn free_bits(k: int, nblk: int) -> u8 {
    if 8 * k + 8 <= nblk {
        0xFF
    } else if nblk <= 8 * k {
        0
    } else {
        ((0xFF00u16 >> ((nblk - 8 * k) as u16)) as u8)
    }
}

/// Mark every block of the volume free (and no block past its end) and
/// store the block count, capped at the largest ProDOS volume, in
/// `total_blocks`.
pub fn init_free(image: &mut [u8], disk_size: usize, bitmap_block: u16, total_blocks: &mut u16)
    requires
        bitmap_block as int * 512 + spec_bitmap_byte_count(disk_size as int) <= old(image).len(),
    ensures
        final(image)@.len() == old(image)@.len(),
        forall|i: int|
            0 <= i < final(image)@.len() ==> final(image)@[i] == (if bitmap_block as int * 512 <= i
                < bitmap_block as int * 512 + spec_bitmap_byte_count(disk_size as int) {
                free_bits(i - bitmap_block as int * 512, spec_block_count(disk_size as int))
            } else {
                old(image)@[i]
            }),
        forall|b: int|
            0 <= b < spec_bitmap_byte_count(disk_size as int) * 8 ==> (#[trigger] block_is_free(
                final(image)@,
                bitmap_block as int * 512,
                b,
            ) <==> b < spec_block_count(disk_size as int)),
        *final(total_blocks) as int == if spec_block_count(disk_size as int) > 0xFFFF {
            0xFFFF
        } else {
            spec_block_count(disk_size as int)
        },
{
    let offset = bitmap_offset(bitmap_block);
    let size = bitmap_byte_count(disk_size);
    let blocks = block_count(disk_size);
    let ghost s0 = image@;
    let mut i: usize = 0;
    while i < size
        invariant
            i <= size,
            size == spec_bitmap_byte_count(disk_size as int),
            blocks == spec_block_count(disk_size as int),
            offset + size <= image.len(),
            image@.len() == s0.len(),
            forall|j: int|
                0 <= j < s0.len() ==> image@[j] == (if offset <= j < offset + i {
                    free_bits(j - offset, blocks as int)
                } else {
                    s0[j]
                }),
        decreases size - i,
    {
        assert(8 * i < blocks);
        let v: u8 = if 8 * i + 8 <= blocks {
            0xFF
        } else {
            ((0xFF00u16 >> ((blocks - 8 * i) as u16)) as u8)
        };
        assert(v == free_bits(i as int, blocks as int));
        image[offset + i] = v;
        i = i + 1;
    }
    proof {
        assert forall|b: int| 0 <= b < size * 8 implies (#[trigger] block_is_free(
            image@,
            offset as int,
            b,
        ) <==> b < blocks) by {
            let k = b / 8;
            let kb = (b % 8) as u8;
            assert(image@[offset + k] == free_bits(k, blocks as int));
            assert(8 * k < blocks);
            if 8 * k + 8 <= blocks {
                crate::bits::lemma_byte(0, 0, kb, 0);
            } else {
                let m = (blocks - 8 * k) as u8;
                crate::bits::lemma_byte(0, m, kb, 0);
                assert((m as u16) == (blocks - 8 * k) as u16);
            }
        }
    }
    *total_blocks = if blocks > MAX_BLOCKS as usize {
        MAX_BLOCKS
    } else {
        blocks as u16
    };
}

/// Number of 512-byte bitmap blocks needed for a disk of `disk_size` bytes.
pub fn bitmap_block_count(disk_size: usize) -> (r: usize)
    ensures
        r == spec_bitmap_block_count(disk_size as int),
{
    let size = bitmap_byte_count(disk_size);
    size / BLOCK_SIZE + if size % BLOCK_SIZE != 0 { 1 } else { 0 }
}

/// Scan the bitmap for the first free block. Returns `None` if the disk is full.
pub fn get_first_free(image: &[u8], disk_size: usize, bitmap_block: u16) -> (r: Option<u32>)
    requires
        bitmap_block as int * 512 + spec_bitmap_byte_count(disk_size as int) <= image.len(),
        spec_bitmap_byte_count(disk_size as int) * 8 <= u32::MAX,
    ensures
        match r {
            Some(b) => {
                &&& b < spec_bitmap_byte_count(disk_size as int) * 8
                &&& block_is_free(image@, bitmap_block as int * 512, b as int)
                &&& forall|c: int|
                    0 <= c < b ==> !#[trigger] block_is_free(image@, bitmap_block as int * 512, c)
            },
            None => forall|c: int|
                0 <= c < spec_bitmap_byte_count(disk_size as int) * 8 ==> !#[trigger] block_is_free(
                    image@,
                    bitmap_block as int * 512,
                    c,
                ),
        },
{
    let offset = bitmap_offset(bitmap_block);
    let size = bitmap_byte_count(disk_size);
    let mut byte: usize = 0;
    while byte < size
        invariant
            byte <= size,
            size == spec_bitmap_byte_count(disk_size as int),
            offset == bitmap_block as int * 512,
            offset + size <= image.len(),
            size * 8 <= u32::MAX,
            forall|c: int| 0 <= c < byte * 8 ==> !#[trigger] block_is_free(image@, offset as int, c),
        decreases size - byte,
    {
        let mut bit: u8 = 0;
        while bit < 8
            invariant
                bit <= 8,
                byte < size,
                size == spec_bitmap_byte_count(disk_size as int),
                offset == bitmap_block as int * 512,
                size * 8 <= u32::MAX,
                offset + size <= image.len(),
                forall|c: int| 0 <= c < byte * 8 + bit ==> !#[trigger] block_is_free(image@, offset as int, c),
            decreases 8 - bit,
        {
            let mask: u8 = 0x80u8 >> bit;
            let block = (byte * 8 + bit as usize) as u32;
            assert((block as int) / 8 == byte && (block as int) % 8 == bit);
            if image[offset + byte] & mask != 0 {
                assert(block_mask(block as int) == mask);
                assert(block_is_free(image@, offset as int, block as int));
                return Some(block);
            }
            bit = bit + 1;
        }
        byte = byte + 1;
    }
    None
}

/// The bitmap byte holding `block` after `block` is marked used.
pub open spec fn cleared(x: u8, block: int) -> u8 {
    x & !block_mask(block)
}

/// Mark `block` as used (clear its bit in the bitmap).
pub fn set_used(image: &mut [u8], bitmap_block: u16, block: u32)
    requires
        bitmap_block as int * 512 + block / 8 < old(image).len(),
    ensures
        final(image)@ == old(image)@.update(
            bitmap_block as int * 512 + block / 8,
            cleared(old(image)@[bitmap_block as int * 512 + block / 8], block as int),
        ),
{
    let offset = bitmap_offset(bitmap_block);
    let byte = (block / 8) as usize;
    let bit = (block % 8) as u8;
    let mask = 0x80u8 >> bit;
    // Setting and then toggling the bit clears it.
    let x = image[offset + byte];
    let y = (x | mask) ^ mask;
    assert(y == x & !mask) by (bit_vector)
        requires
            y == (x | mask) ^ mask,
    ;
    image[offset + byte] = y;
}

/// Marking a block used makes exactly that block used: every other block
/// keeps its state.
pub proof fn lemma_set_used_marks_only_that_block(s: Seq<u8>, offset: int, block: int, c: int)
    requires
        0 <= offset,
        0 <= block,
        0 <= c,
        offset + block / 8 < s.len(),
        offset + c / 8 < s.len(),
    ensures
        !block_is_free(s.update(offset + block / 8, cleared(s[offset + block / 8], block)), offset, block),
        c != block ==> block_is_free(
            s.update(offset + block / 8, cleared(s[offset + block / 8], block)),
            offset,
            c,
        ) == block_is_free(s, offset, c),
{
    let x = s[offset + block / 8];
    let kb = (block % 8) as u8;
    assert((x & !(0x80u8 >> kb)) & (0x80u8 >> kb) == 0) by (bit_vector);
    if c != block && c / 8 == block / 8 {
        let kc = (c % 8) as u8;
        assert(kc != kb);
        assert(kb < 8 && kc < 8 && kb != kc ==> ((x & !(0x80u8 >> kb)) & (0x80u8 >> kc) != 0) == (x
            & (0x80u8 >> kc) != 0)) by (bit_vector);
    }
}

} // verus!
