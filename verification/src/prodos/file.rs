//! ProDOS file allocation: add a file to an existing formatted volume.

use vstd::prelude::*;
use vstd::utf8::encode_utf8;
use super::bitmap::{
    spec_bitmap_block_count, spec_block_count,
    bitmap_byte_count, block_is_free, block_mask, cleared, get_first_free, lemma_set_used_marks_only_that_block, set_used,
    spec_bitmap_byte_count,
};
use super::directory::{
    chain_fuel, dir_block_of, scan_dir_defined, get_first_free_entry_offset, get_path_offset, lemma_scan_dir_in_bounds,
    scan_dir, scan_entries,
};
use super::format::{fresh_root_header, fresh_total_blocks, prodos_formatted, trim_slashes};
use super::types::{
    BLOCK_SIZE, FileHeader, ProDosError, ProDosKind, VolumeHeader, ascii_upper, file_header_read,
    file_header_storable, get_u16, get_volume_header, le16, lemma_file_header_roundtrip,
    lemma_volume_header_roundtrip, name_len, put_file_header, put_index_block, set_volume_header,
    to_upper_byte, volume_header_read, volume_header_storable, write_file_header,
    write_volume_header,
};

verus! {

/// Metadata supplied by the caller when adding a file to a ProDOS volume.
#[derive(Debug, Clone)]
pub struct FileMeta {
    /// File name (ASCII; upper-cased on write).
    pub name: String,
    /// ProDOS file type byte (0xFF = SYS, 0xFC = BAS, 0x06 = BIN, ...).
    pub file_type: u8,
    /// Load address (for SYS/BIN files).
    pub aux: u16,
    pub date: u16,
    pub time: u16,
    pub mod_date: u16,
    pub mod_time: u16,
    pub access: u8,
    pub cur_ver: u8,
    pub min_ver: u8,
}

// ── Volume layout facts used by the allocator ────────────────────────────────

/// Byte offset of the root volume header (block 2, after prev/next).
pub open spec fn root_header() -> int {
    1028
}

/// The bitmap block recorded in the root volume header.
pub open spec fn root_bitmap_block(s: Seq<u8>) -> int {
    le16(s, root_header() + 35)
}

/// Every block that the bitmap marks free lies inside the image and outside
/// the bitmap bytes themselves, so writing a free block never corrupts the
/// bitmap or leaves the image.
pub open spec fn free_blocks_safe(s: Seq<u8>, bb: int, nbytes: int) -> bool {
    forall|c: int|
        0 <= c < nbytes * 8 && #[trigger] block_is_free(s, bb * 512, c) ==> {
            &&& (c + 1) * 512 <= s.len()
            &&& (c * 512 >= bb * 512 + nbytes || (c + 1) * 512 <= bb * 512)
        }
}

/// The directory scan for a free root entry, as recorded in the image.
pub open spec fn root_entry_scan(s: Seq<u8>) -> Option<Option<int>> {
    scan_dir(s, 0x400, s[root_header() + 31] as int, s[root_header() + 32] as nat, chain_fuel(s))
}

/// The state a volume must be in for `add_file` to run without a fault: the
/// root header and its directory chain lie in the image, the bitmap lies in
/// the image, the file count can grow, and free blocks are safe to write.
pub open spec fn volume_ready(s: Seq<u8>, disk_size: int) -> bool {
    let bb = root_bitmap_block(s);
    let nbytes = spec_bitmap_byte_count(disk_size);
    &&& root_header() + 39 <= s.len()
    &&& s.len() + 1024 < usize::MAX
    &&& bb * 512 + nbytes <= s.len()
    &&& nbytes * 8 <= u32::MAX
    &&& root_entry_scan(s) is Some
    &&& le16(s, root_header() + 33) < 0xFFFF
    &&& free_blocks_safe(s, bb, nbytes)
}

/// Whether the volume in `image` is in the state `add_file` needs.
pub fn volume_ready_check(image: &[u8], disk_size: usize) -> (r: bool)
    ensures
        r == volume_ready(image@, disk_size as int),
{
    if image.len() < 1028 + 39 || image.len() >= usize::MAX - 1024 {
        return false;
    }
    let bb = get_u16(image, 1028 + 35) as usize;
    let nbytes = bitmap_byte_count(disk_size);
    if nbytes > image.len() || bb * BLOCK_SIZE > image.len() - nbytes {
        return false;
    }
    if nbytes > 0xFFFF_FFFF / 8 {
        return false;
    }
    if !scan_dir_defined(image, 0x400, image[1028 + 31], image[1028 + 32]) {
        return false;
    }
    if get_u16(image, 1028 + 33) >= 0xFFFF {
        return false;
    }
    let offset = bb * BLOCK_SIZE;
    let mut c: usize = 0;
    while c < nbytes * 8
        invariant
            c <= nbytes * 8,
            nbytes == spec_bitmap_byte_count(disk_size as int),
            offset == root_bitmap_block(image@) * 512,
            offset + nbytes <= image@.len(),
            image@.len() == image.len(),
            forall|c2: int|
                0 <= c2 < c && #[trigger] block_is_free(image@, offset as int, c2) ==> {
                    &&& (c2 + 1) * 512 <= image@.len()
                    &&& (c2 * 512 >= offset + nbytes || (c2 + 1) * 512 <= offset)
                },
        decreases nbytes * 8 - c,
    {
        let mask: u8 = 0x80u8 >> ((c % 8) as u8);
        assert(block_mask(c as int) == mask);
        if image[offset + c / 8] & mask != 0 {
            assert(block_is_free(image@, offset as int, c as int));
            if c + 1 > image.len() / BLOCK_SIZE {
                return false;
            }
            if !(c * BLOCK_SIZE >= offset + nbytes || (c + 1) * BLOCK_SIZE <= offset) {
                return false;
            }
        }
        c = c + 1;
    }
    true
}

// ── File layout ──────────────────────────────────────────────────────────────

/// Whether the 512-byte block at `off` of the file exists and is all zero.
pub open spec fn block_is_sparse(data: Seq<u8>, off: int) -> bool {
    off < data.len() && forall|j: int| off <= j < data.len() && j < off + 512 ==> data[j] == 0
}

/// Number of data blocks of a file of `size` bytes (at least one).
pub open spec fn data_blocks(size: int) -> int {
    if size <= 512 {
        1
    } else {
        (size + 511) / 512
    }
}

/// How many of the first `n` data blocks are written to disk: all of them,
/// except all-zero blocks when sparse storage is allowed.
pub open spec fn stored_blocks(data: Seq<u8>, allow_sparse: bool, n: int) -> int
    decreases n,
{
    if n <= 0 {
        0
    } else {
        stored_blocks(data, allow_sparse, n - 1) + if allow_sparse && block_is_sparse(
            data,
            (n - 1) * 512,
        ) {
            0int
        } else {
            1int
        }
    }
}

/// The directory entry `f` describes the file: storage kind by size, the
/// upper-cased name (at most 15 bytes), the caller's metadata, the block
/// count (index block plus stored data blocks) and the root as directory.
pub open spec fn entry_describes_file(
    f: FileHeader,
    meta: FileMeta,
    data: Seq<u8>,
    allow_sparse: bool,
) -> bool {
    let size = data.len() as int;
    let nb = encode_utf8(meta.name@);
    let len = name_len(nb.len() as int);
    &&& f.kind == (if size <= 512 { 1u8 } else { 2u8 })
    &&& f.len == len
    &&& forall|i: int| 0 <= i < len ==> f.name@[i] == ascii_upper(nb[i])
    &&& f.file_type == meta.file_type
    &&& f.blocks == (if size <= 512 { 0int } else { 1int }) + stored_blocks(
        data,
        allow_sparse,
        data_blocks(size),
    )
    &&& f.size == size
    &&& f.date == meta.date
    &&& f.time == meta.time
    &&& f.cur_ver == meta.cur_ver
    &&& f.min_ver == meta.min_ver
    &&& f.access == meta.access
    &&& f.aux == meta.aux
    &&& f.mod_date == meta.mod_date
    &&& f.mod_time == meta.mod_time
    &&& f.dir_block == 2
}

/// Return `true` if the 512-byte block at `file_offset` within `file_data`
/// is all zeroes (a "sparse" block that need not be written to disk).
fn is_sparse(file_offset: usize, file_data: &[u8]) -> (r: bool)
    requires
        file_offset + 512 <= usize::MAX,
    ensures
        r == block_is_sparse(file_data@, file_offset as int),
{
    if file_offset >= file_data.len() {
        return false;
    }
    let end = if file_offset + BLOCK_SIZE < file_data.len() {
        file_offset + BLOCK_SIZE
    } else {
        file_data.len()
    };
    let mut j = file_offset;
    while j < end
        invariant
            file_offset <= j <= end,
            end <= file_data@.len(),
            end == file_data@.len() || end == file_offset + 512,
            end <= file_offset + 512,
            forall|k: int| file_offset <= k < j ==> file_data@[k] == 0,
        decreases end - j,
    {
        if file_data[j] != 0 {
            assert(file_data@[j as int] != 0);
            return false;
        }
        j = j + 1;
    }
    assert forall|k: int|
        file_offset <= k < file_data@.len() && k < file_offset + 512 implies file_data@[k] == 0 by {
        assert(k < end);
    }
    true
}

/// `s` with `n` bytes of `src` (from `src_off`) copied to `dst`.
pub open spec fn copy_range(s: Seq<u8>, dst: int, src: Seq<u8>, src_off: int, n: int) -> Seq<u8> {
    Seq::new(s.len(), |j: int| if dst <= j < dst + n { src[src_off + j - dst] } else { s[j] })
}

/// Copy `n` bytes of `src` starting at `src_off` into `image` at `dst`.
fn copy_bytes(image: &mut [u8], dst: usize, src: &[u8], src_off: usize, n: usize)
    requires
        dst + n <= old(image).len(),
        src_off + n <= src.len(),
    ensures
        final(image)@ == copy_range(old(image)@, dst as int, src@, src_off as int, n as int),
{
    let ghost s0 = image@;
    let mut k: usize = 0;
    while k < n
        invariant
            k <= n,
            dst + n <= image.len(),
            src_off + n <= src.len(),
            image@.len() == s0.len(),
            forall|j: int|
                0 <= j < s0.len() ==> image@[j] == (if dst <= j < dst + k {
                    src@[src_off + j - dst]
                } else {
                    s0[j]
                }),
        decreases n - k,
    {
        image[dst + k] = src[src_off + k];
        k = k + 1;
    }
    assert(image@ =~= copy_range(s0, dst as int, src@, src_off as int, n as int));
}

/// A write that stays outside the bitmap bytes leaves every block's free
/// state as it was.
proof fn lemma_write_outside_bitmap(s: Seq<u8>, s2: Seq<u8>, bb: int, nbytes: int, lo: int, hi: int)
    requires
        s2.len() == s.len(),
        0 <= bb,
        0 <= nbytes,
        bb * 512 + nbytes <= s.len(),
        hi <= bb * 512 || lo >= bb * 512 + nbytes,
        forall|j: int| 0 <= j < s.len() && !(lo <= j < hi) ==> s2[j] == s[j],
        free_blocks_safe(s, bb, nbytes),
    ensures
        free_blocks_safe(s2, bb, nbytes),
        forall|c: int|
            0 <= c < nbytes * 8 ==> #[trigger] block_is_free(s2, bb * 512, c) == block_is_free(
                s,
                bb * 512,
                c,
            ),
{
    assert forall|c: int| 0 <= c < nbytes * 8 implies #[trigger] block_is_free(s2, bb * 512, c)
        == block_is_free(s, bb * 512, c) by {
        assert(s2[bb * 512 + c / 8] == s[bb * 512 + c / 8]);
    }
}

/// Marking a block used keeps free blocks safe to write.
proof fn lemma_set_used_keeps_safe(s: Seq<u8>, bb: int, nbytes: int, blk: int)
    requires
        0 <= bb,
        0 <= blk < nbytes * 8,
        bb * 512 + nbytes <= s.len(),
        free_blocks_safe(s, bb, nbytes),
    ensures
        free_blocks_safe(s.update(bb * 512 + blk / 8, cleared(s[bb * 512 + blk / 8], blk)), bb, nbytes),
        !block_is_free(s.update(bb * 512 + blk / 8, cleared(s[bb * 512 + blk / 8], blk)), bb * 512, blk),
{
    let s2 = s.update(bb * 512 + blk / 8, cleared(s[bb * 512 + blk / 8], blk));
    lemma_set_used_marks_only_that_block(s, bb * 512, blk, blk);
    assert forall|c: int| 0 <= c < nbytes * 8 && #[trigger] block_is_free(s2, bb * 512, c) implies {
        &&& (c + 1) * 512 <= s2.len()
        &&& (c * 512 >= bb * 512 + nbytes || (c + 1) * 512 <= bb * 512)
    } by {
        lemma_set_used_marks_only_that_block(s, bb * 512, blk, c);
        assert(block_is_free(s, bb * 512, c));
    }
}

/// The number of stored blocks grows by one at each block that is written.
proof fn lemma_stored_blocks_step(data: Seq<u8>, allow_sparse: bool, i: int)
    requires
        0 <= i,
    ensures
        stored_blocks(data, allow_sparse, i + 1) == stored_blocks(data, allow_sparse, i) + if allow_sparse
            && block_is_sparse(data, i * 512) {
            0int
        } else {
            1int
        },
        stored_blocks(data, allow_sparse, i) <= i,
    decreases i,
{
    if i > 0 {
        lemma_stored_blocks_step(data, allow_sparse, i - 1);
    }
}

/// Build the directory entry for a file, with its name upper-cased.
fn make_entry(
    meta: &FileMeta,
    kind: u8,
    inode: u16,
    blocks: u16,
    size: u32,
) -> (f: FileHeader)
    ensures
        f.kind == kind,
        f.len == name_len(encode_utf8(meta.name@).len() as int),
        forall|i: int| 0 <= i < f.len ==> f.name@[i] == ascii_upper(encode_utf8(meta.name@)[i]),
        forall|i: int| f.len <= i < 16 ==> f.name@[i] == 0,
        f.file_type == meta.file_type,
        f.inode == inode,
        f.blocks == blocks,
        f.size == size,
        f.date == meta.date,
        f.time == meta.time,
        f.cur_ver == meta.cur_ver,
        f.min_ver == meta.min_ver,
        f.access == meta.access,
        f.aux == meta.aux,
        f.mod_date == meta.mod_date,
        f.mod_time == meta.mod_time,
        f.dir_block == 2,
{
    let name_bytes = meta.name.as_str().as_bytes();
    let n = if name_bytes.len() < 15 {
        name_bytes.len()
    } else {
        15
    };
    let mut name_buf = [0u8; 16];
    let mut i: usize = 0;
    while i < n
        invariant
            i <= n,
            n == name_len(name_bytes@.len() as int),
            name_bytes@ == encode_utf8(meta.name@),
            forall|k: int| 0 <= k < i ==> name_buf@[k] == ascii_upper(name_bytes@[k]),
            forall|k: int| i <= k < 16 ==> name_buf@[k] == 0,
        decreases n - i,
    {
        name_buf[i] = to_upper_byte(name_bytes[i]);
        i = i + 1;
    }
    FileHeader {
        kind,
        len: n as u8,
        name: name_buf,
        file_type: meta.file_type,
        inode,
        blocks,
        size,
        date: meta.date,
        time: meta.time,
        cur_ver: meta.cur_ver,
        min_ver: meta.min_ver,
        access: meta.access,
        aux: meta.aux,
        mod_date: meta.mod_date,
        mod_time: meta.mod_time,
        dir_block: 2,
    }
}

/// Data block `k` of the file is written to disk: it is not an all-zero
/// block stored sparse.
pub open spec fn stored_at(data: Seq<u8>, allow_sparse: bool, k: int) -> bool {
    !(allow_sparse && block_is_sparse(data, k * 512))
}

/// The number of file bytes in data block `k` of a file of `size` bytes.
pub open spec fn piece_len(size: int, k: int) -> int {
    if size - k * 512 < 512 {
        size - k * 512
    } else {
        512
    }
}

/// The blocks that the bitmap of volume `s` marks free.
pub open spec fn free_set(s: Seq<u8>, disk_size: int) -> Set<int> {
    Set::new(
        |c: int|
            0 <= c < spec_bitmap_byte_count(disk_size) * 8 && block_is_free(s, root_bitmap_block(s) * 512, c),
    )
}

/// How many free blocks adding `data` asks the bitmap for: the index block
/// of a file over one block, a block for each stored data block before
/// the last, and one for the last data block, stored or not.
pub open spec fn blocks_needed(data: Seq<u8>, allow_sparse: bool) -> int {
    (if data.len() > 512 { 1int } else { 0int }) + stored_blocks(
        data,
        allow_sparse,
        data_blocks(data.len() as int) - 1,
    ) + 1
}

/// The blocks of the file: its key block `key` (the index block of a file
/// over one block) and data block `k` in `blocks[k]` for each stored `k`
/// below `n`.
pub open spec fn file_block(
    data: Seq<u8>,
    allow_sparse: bool,
    key: int,
    blocks: Seq<int>,
    n: int,
    c: int,
) -> bool {
    ||| data.len() > 512 && c == key
    ||| exists|k: int| 0 <= k < n && stored_at(data, allow_sparse, k) && #[trigger] blocks[k] == c
}

/// Byte `j` is in the part of a data block that holds file bytes.
pub open spec fn in_data(data: Seq<u8>, allow_sparse: bool, blocks: Seq<int>, n: int, j: int) -> bool {
    exists|k: int|
        0 <= k < n && stored_at(data, allow_sparse, k) && #[trigger] blocks[k] * 512 <= j < blocks[k] * 512
            + piece_len(data.len() as int, k)
}

/// Byte `j` is one of the first `n` pointers of the index block `key`.
pub open spec fn in_index(data: Seq<u8>, key: int, n: int, j: int) -> bool {
    data.len() > 512 && key != 0 && key * 512 <= j < key * 512 + 512 && (j - key * 512) % 256 < n
}

/// Byte `t` of the block that holds data block `k`.
pub open spec fn block_byte(s: Seq<u8>, blocks: Seq<int>, k: int, t: int) -> u8 {
    s[blocks[k] * 512 + t]
}

/// The low byte of pointer `k` of the index block `key`.
pub open spec fn index_lo(s: Seq<u8>, key: int, k: int) -> u8 {
    s[key * 512 + k]
}

/// The high byte of pointer `k` of the index block `key`.
pub open spec fn index_hi(s: Seq<u8>, key: int, k: int) -> u8 {
    s[key * 512 + k + 256]
}

/// The pointer index entry `k` holds: the data block, or 0 for a sparse one.
pub open spec fn index_value(data: Seq<u8>, allow_sparse: bool, blocks: Seq<int>, k: int) -> int {
    if stored_at(data, allow_sparse, k) {
        blocks[k]
    } else {
        0
    }
}

/// Volume `s` holds the first `n` data blocks of `data` as the volume `s0`
/// became after allocating them: each stored block `k` in `blocks[k]`, the
/// index block `key` (of a file over one block, when not block 0) pointing
/// at them, those blocks and no others marked used in the bitmap, and
/// every other byte as in `s0`. The allocated blocks are the lowest free
/// blocks of `s0`.
pub open spec fn blocks_written(
    s0: Seq<u8>,
    s: Seq<u8>,
    disk_size: int,
    data: Seq<u8>,
    allow_sparse: bool,
    key: int,
    blocks: Seq<int>,
    n: int,
) -> bool {
    let bb = root_bitmap_block(s0);
    let nbytes = spec_bitmap_byte_count(disk_size);
    let size = data.len() as int;
    &&& s.len() == s0.len()
    &&& blocks.len() >= n
    &&& forall|k1: int, k2: int|
        0 <= k1 < k2 < n && stored_at(data, allow_sparse, k1) && stored_at(data, allow_sparse, k2) ==> #[trigger] blocks[k1]
            < #[trigger] blocks[k2]
    &&& size > 512 ==> forall|k: int| 0 <= k < n && stored_at(data, allow_sparse, k) ==> key < #[trigger] blocks[k]
    &&& forall|c: int|
        #[trigger] file_block(data, allow_sparse, key, blocks, n, c) ==> free_set(s0, disk_size).contains(c)
    &&& forall|a: int, c: int|
        #![trigger file_block(data, allow_sparse, key, blocks, n, a), free_set(s0, disk_size).contains(c)]
        file_block(data, allow_sparse, key, blocks, n, a) && free_set(s0, disk_size).contains(c)
            && !file_block(data, allow_sparse, key, blocks, n, c) ==> a < c
    &&& forall|c: int|
        0 <= c < nbytes * 8 ==> (#[trigger] block_is_free(s, bb * 512, c) <==> free_set(s0, disk_size).contains(c)
            && !file_block(data, allow_sparse, key, blocks, n, c))
    &&& forall|k: int, t: int|
        0 <= k < n && stored_at(data, allow_sparse, k) && 0 <= t < piece_len(size, k) ==> #[trigger] block_byte(
            s,
            blocks,
            k,
            t,
        ) == data[k * 512 + t]
    &&& size > 512 && key != 0 ==> forall|k: int|
        0 <= k < n ==> #[trigger] index_lo(s, key, k) == index_value(data, allow_sparse, blocks, k) % 256 && index_hi(
            s,
            key,
            k,
        ) == (index_value(data, allow_sparse, blocks, k) / 256) % 256
    &&& forall|j: int|
        0 <= j < s0.len() && !(bb * 512 <= j < bb * 512 + nbytes) && !in_data(data, allow_sparse, blocks, n, j)
            && !in_index(data, key, n, j) ==> s[j] == s0[j]
}

/// The free blocks of a volume are finitely many.
proof fn lemma_free_set_finite(s: Seq<u8>, disk_size: int)
    requires
        0 <= disk_size,
    ensures
        free_set(s, disk_size).finite(),
{
    let n = spec_bitmap_byte_count(disk_size) * 8;
    assert(n >= 0);
    vstd::set_lib::lemma_int_range(0, n);
    assert(free_set(s, disk_size).subset_of(vstd::set_lib::set_int_range(0, n)));
    vstd::set_lib::lemma_len_subset(free_set(s, disk_size), vstd::set_lib::set_int_range(0, n));
}

/// A free block of a ready volume lies in the image and outside the bitmap.
proof fn lemma_in_free_set(s: Seq<u8>, disk_size: int, c: int)
    requires
        volume_ready(s, disk_size),
        free_set(s, disk_size).contains(c),
    ensures
        0 <= c < spec_bitmap_byte_count(disk_size) * 8,
        (c + 1) * 512 <= s.len(),
        c * 512 >= root_bitmap_block(s) * 512 + spec_bitmap_byte_count(disk_size) || (c + 1) * 512
            <= root_bitmap_block(s) * 512,
{
    assert(block_is_free(s, root_bitmap_block(s) * 512, c));
}

/// Stored blocks only grow.
proof fn lemma_stored_blocks_monotone(data: Seq<u8>, allow_sparse: bool, a: int, b: int)
    requires
        0 <= a <= b,
    ensures
        stored_blocks(data, allow_sparse, a) <= stored_blocks(data, allow_sparse, b),
    decreases b - a,
{
    if a < b {
        lemma_stored_blocks_step(data, allow_sparse, b - 1);
        lemma_stored_blocks_monotone(data, allow_sparse, a, b - 1);
    }
}

/// A sparse data block `i`: nothing is allocated, and a file over one
/// block gets a zero index entry.
proof fn lemma_sparse_step(
    s0: Seq<u8>,
    pre: Seq<u8>,
    post: Seq<u8>,
    disk_size: int,
    data: Seq<u8>,
    allow_sparse: bool,
    key0: int,
    key: int,
    blocks0: Seq<int>,
    b: int,
    i: int,
    alloc: Set<int>,
)
    requires
        volume_ready(s0, disk_size),
        0 <= i < 256,
        blocks0.len() == i,
        !stored_at(data, allow_sparse, i),
        blocks_written(s0, pre, disk_size, data, allow_sparse, key0, blocks0, i),
        key == (if i == 0 && data.len() <= 512 { b } else { key0 }),
        forall|c: int| alloc.contains(c) <==> file_block(data, allow_sparse, key0, blocks0, i, c),
        data.len() > 512 ==> free_set(s0, disk_size).contains(key),
        post == (if data.len() > 512 && key != 0 {
            pre.update(key * 512 + i, 0u8).update(key * 512 + i + 256, 0u8)
        } else {
            pre
        }),
    ensures
        blocks_written(s0, post, disk_size, data, allow_sparse, key, blocks0.push(b), i + 1),
        forall|c: int| alloc.contains(c) <==> file_block(data, allow_sparse, key, blocks0.push(b), i + 1, c),
{
    let bs = blocks0.push(b);
    let bb = root_bitmap_block(s0);
    let nbytes = spec_bitmap_byte_count(disk_size);
    let size = data.len() as int;
    assert forall|c: int| file_block(data, allow_sparse, key, bs, i + 1, c) <==> file_block(
        data,
        allow_sparse,
        key0,
        blocks0,
        i,
        c,
    ) by {
        if file_block(data, allow_sparse, key, bs, i + 1, c) && !(size > 512 && c == key) {
            let k = choose|k: int| 0 <= k < i + 1 && stored_at(data, allow_sparse, k) && #[trigger] bs[k] == c;
            assert(k < i);
            assert(blocks0[k] == c);
        }
        if file_block(data, allow_sparse, key0, blocks0, i, c) && !(size > 512 && c == key0) {
            let k = choose|k: int| 0 <= k < i && stored_at(data, allow_sparse, k) && #[trigger] blocks0[k] == c;
            assert(bs[k] == c);
        }
    }
    if size > 512 && key != 0 {
        lemma_in_free_set(s0, disk_size, key);
    }
    assert forall|j: int| 0 <= j < s0.len() && !(key * 512 + i == j) && !(key * 512 + i + 256 == j) implies post[j]
        == pre[j] by {}
    assert forall|c: int| 0 <= c < nbytes * 8 implies (#[trigger] block_is_free(post, bb * 512, c) <==> free_set(
        s0,
        disk_size,
    ).contains(c) && !file_block(data, allow_sparse, key, bs, i + 1, c)) by {
        assert(post[bb * 512 + c / 8] == pre[bb * 512 + c / 8]);
        assert(block_is_free(pre, bb * 512, c) <==> free_set(s0, disk_size).contains(c) && !file_block(
            data,
            allow_sparse,
            key0,
            blocks0,
            i,
            c,
        ));
    }
    assert forall|k: int, t: int|
        0 <= k < i + 1 && stored_at(data, allow_sparse, k) && 0 <= t < piece_len(size, k) implies #[trigger] block_byte(
        post,
        bs,
        k,
        t,
    ) == data[k * 512 + t] by {
        assert(k < i);
        assert(bs[k] == blocks0[k]);
        assert(free_set(s0, disk_size).contains(blocks0[k])) by {
            assert(file_block(data, allow_sparse, key0, blocks0, i, blocks0[k]));
        }
        lemma_in_free_set(s0, disk_size, blocks0[k]);
        if size > 512 {
            assert(key < blocks0[k]);
        }
        assert(block_byte(pre, blocks0, k, t) == data[k * 512 + t]);
    }
    assert forall|k: int| 0 <= k < i + 1 implies #[trigger] index_value(data, allow_sparse, bs, k)
        == (if k < i { index_value(data, allow_sparse, blocks0, k) } else { 0 }) by {}
    assert forall|c: int| #[trigger] file_block(data, allow_sparse, key, bs, i + 1, c) implies free_set(
        s0,
        disk_size,
    ).contains(c) by {
        assert(file_block(data, allow_sparse, key0, blocks0, i, c));
    }
    if size > 512 && key != 0 {
        assert(key == key0);
        assert forall|k: int| 0 <= k < i + 1 implies #[trigger] index_lo(post, key, k) == index_value(
            data,
            allow_sparse,
            bs,
            k,
        ) % 256 && index_hi(post, key, k) == (index_value(data, allow_sparse, bs, k) / 256) % 256 by {
            if k < i {
                assert(post[key * 512 + k] == pre[key * 512 + k]);
                assert(post[key * 512 + k + 256] == pre[key * 512 + k + 256]);
                assert(index_lo(pre, key, k) == index_value(data, allow_sparse, blocks0, k) % 256);
                assert(index_hi(pre, key, k) == (index_value(data, allow_sparse, blocks0, k) / 256) % 256);
            }
        }
    }
    assert forall|j: int|
        0 <= j < s0.len() && !(bb * 512 <= j < bb * 512 + nbytes) && !in_data(data, allow_sparse, bs, i + 1, j)
            && !in_index(data, key, i + 1, j) implies post[j] == s0[j] by {
        if in_data(data, allow_sparse, blocks0, i, j) {
            let k = choose|k: int|
                0 <= k < i && stored_at(data, allow_sparse, k) && #[trigger] blocks0[k] * 512 <= j < blocks0[k] * 512
                    + piece_len(size, k);
            assert(bs[k] == blocks0[k]);
        }
        if size > 512 && key != 0 && (j == key * 512 + i || j == key * 512 + i + 256) {
            assert(in_index(data, key, i + 1, j));
        }
    }
    assert forall|k1: int, k2: int|
        0 <= k1 < k2 < i + 1 && stored_at(data, allow_sparse, k1) && stored_at(data, allow_sparse, k2) implies #[trigger] bs[k1]
        < #[trigger] bs[k2] by {
        assert(bs[k1] == blocks0[k1] && bs[k2] == blocks0[k2]);
    }
    assert forall|a: int, c: int|
        #![trigger file_block(data, allow_sparse, key, bs, i + 1, a), free_set(s0, disk_size).contains(c)]
        file_block(data, allow_sparse, key, bs, i + 1, a) && free_set(s0, disk_size).contains(c) && !file_block(
            data,
            allow_sparse,
            key,
            bs,
            i + 1,
            c,
        ) implies a < c by {
        assert(file_block(data, allow_sparse, key0, blocks0, i, a));
        assert(!file_block(data, allow_sparse, key0, blocks0, i, c));
    }
}

/// A stored data block `i` goes to `b`, the lowest free block not yet
/// allocated: its bytes are copied there, it is marked used, and a file
/// over one block gets its index entry.
proof fn lemma_stored_step(
    s0: Seq<u8>,
    pre: Seq<u8>,
    copied: Seq<u8>,
    marked: Seq<u8>,
    post: Seq<u8>,
    disk_size: int,
    data: Seq<u8>,
    allow_sparse: bool,
    key0: int,
    key: int,
    blocks0: Seq<int>,
    b: int,
    i: int,
    alloc: Set<int>,
)
    requires
        volume_ready(s0, disk_size),
        0 <= i < 256,
        i * 512 < data.len() <= 256 * 512,
        blocks0.len() == i,
        stored_at(data, allow_sparse, i),
        blocks_written(s0, pre, disk_size, data, allow_sparse, key0, blocks0, i),
        key == (if i == 0 && data.len() <= 512 { b } else { key0 }),
        forall|c: int| alloc.contains(c) <==> file_block(data, allow_sparse, key0, blocks0, i, c),
        free_set(s0, disk_size).contains(b),
        !alloc.contains(b),
        forall|c: int| free_set(s0, disk_size).contains(c) && !alloc.contains(c) ==> b <= c,
        data.len() > 512 ==> free_set(s0, disk_size).contains(key),
        copied == copy_range(pre, b * 512, data, i * 512, piece_len(data.len() as int, i)),
        marked == copied.update(
            root_bitmap_block(s0) * 512 + b / 8,
            cleared(copied[root_bitmap_block(s0) * 512 + b / 8], b),
        ),
        post == (if data.len() > 512 && key != 0 {
            marked.update(key * 512 + i, (b % 256) as u8).update(key * 512 + i + 256, ((b / 256) % 256) as u8)
        } else {
            marked
        }),
    ensures
        blocks_written(s0, post, disk_size, data, allow_sparse, key, blocks0.push(b), i + 1),
        forall|c: int|
            alloc.insert(b).contains(c) <==> file_block(data, allow_sparse, key, blocks0.push(b), i + 1, c),
{
    let bs = blocks0.push(b);
    let bb = root_bitmap_block(s0);
    let nbytes = spec_bitmap_byte_count(disk_size);
    let size = data.len() as int;
    let f0 = free_set(s0, disk_size);
    let pl = piece_len(size, i);
    lemma_in_free_set(s0, disk_size, b);
    if size > 512 {
        lemma_in_free_set(s0, disk_size, key);
        assert(file_block(data, allow_sparse, key0, blocks0, i, key));
        assert(alloc.contains(key));
        assert(key < b);
    }
    assert forall|c: int| file_block(data, allow_sparse, key, bs, i + 1, c) <==> (file_block(
        data,
        allow_sparse,
        key0,
        blocks0,
        i,
        c,
    ) || c == b) by {
        if file_block(data, allow_sparse, key, bs, i + 1, c) && !(size > 512 && c == key) && c != b {
            let k = choose|k: int| 0 <= k < i + 1 && stored_at(data, allow_sparse, k) && #[trigger] bs[k] == c;
            assert(k < i);
            assert(blocks0[k] == c);
        }
        if file_block(data, allow_sparse, key0, blocks0, i, c) && !(size > 512 && c == key0) {
            let k = choose|k: int| 0 <= k < i && stored_at(data, allow_sparse, k) && #[trigger] blocks0[k] == c;
            assert(bs[k] == c);
        }
        if c == b {
            assert(bs[i] == b);
        }
    }
    // Everything allocated before lies below `b`.
    assert forall|a: int| file_block(data, allow_sparse, key0, blocks0, i, a) implies a < b by {}
    assert forall|k: int| 0 <= k < i && stored_at(data, allow_sparse, k) implies #[trigger] blocks0[k] < b by {
        assert(file_block(data, allow_sparse, key0, blocks0, i, blocks0[k]));
    }
    // Where each write lands.
    assert forall|j: int|
        0 <= j < s0.len() && !(b * 512 <= j < b * 512 + pl) && j != bb * 512 + b / 8 && !(size > 512 && key
            != 0 && (j == key * 512 + i || j == key * 512 + i + 256)) implies post[j] == pre[j] by {}
    assert forall|c: int| 0 <= c < nbytes * 8 implies (#[trigger] block_is_free(post, bb * 512, c) <==> f0.contains(
        c,
    ) && !file_block(data, allow_sparse, key, bs, i + 1, c)) by {
        lemma_set_used_marks_only_that_block(copied, bb * 512, b, c);
        assert(copied[bb * 512 + c / 8] == pre[bb * 512 + c / 8]);
        assert(post[bb * 512 + c / 8] == marked[bb * 512 + c / 8]);
        assert(block_is_free(pre, bb * 512, c) <==> f0.contains(c) && !file_block(
            data,
            allow_sparse,
            key0,
            blocks0,
            i,
            c,
        ));
    }
    assert forall|k: int, t: int|
        0 <= k < i + 1 && stored_at(data, allow_sparse, k) && 0 <= t < piece_len(size, k) implies #[trigger] block_byte(
        post,
        bs,
        k,
        t,
    ) == data[k * 512 + t] by {
        if k < i {
            assert(bs[k] == blocks0[k]);
            assert(f0.contains(blocks0[k])) by {
                assert(file_block(data, allow_sparse, key0, blocks0, i, blocks0[k]));
            }
            lemma_in_free_set(s0, disk_size, blocks0[k]);
            assert(blocks0[k] < b);
            if size > 512 {
                assert(key < blocks0[k]);
            }
            assert(post[bs[k] * 512 + t] == pre[bs[k] * 512 + t]);
            assert(block_byte(pre, blocks0, k, t) == data[k * 512 + t]);
        } else {
            assert(bs[k] == b);
            assert(copied[b * 512 + t] == data[i * 512 + t]);
            assert(post[b * 512 + t] == copied[b * 512 + t]);
        }
    }
    assert forall|k: int| 0 <= k < i + 1 implies #[trigger] index_value(data, allow_sparse, bs, k)
        == (if k < i { index_value(data, allow_sparse, blocks0, k) } else { b }) by {}
    assert forall|c: int| #[trigger] file_block(data, allow_sparse, key, bs, i + 1, c) implies f0.contains(c) by {
        if c != b {
            assert(file_block(data, allow_sparse, key0, blocks0, i, c));
        }
    }
    if size > 512 && key != 0 {
        assert forall|k: int| 0 <= k < i + 1 implies #[trigger] index_lo(post, key, k) == index_value(
            data,
            allow_sparse,
            bs,
            k,
        ) % 256 && index_hi(post, key, k) == (index_value(data, allow_sparse, bs, k) / 256) % 256 by {
            if k < i {
                assert(post[key * 512 + k] == pre[key * 512 + k]);
                assert(post[key * 512 + k + 256] == pre[key * 512 + k + 256]);
                assert(index_lo(pre, key, k) == index_value(data, allow_sparse, blocks0, k) % 256);
                assert(index_hi(pre, key, k) == (index_value(data, allow_sparse, blocks0, k) / 256) % 256);
            }
        }
    }
    assert forall|j: int|
        0 <= j < s0.len() && !(bb * 512 <= j < bb * 512 + nbytes) && !in_data(data, allow_sparse, bs, i + 1, j)
            && !in_index(data, key, i + 1, j) implies post[j] == s0[j] by {
        if in_data(data, allow_sparse, blocks0, i, j) {
            let k = choose|k: int|
                0 <= k < i && stored_at(data, allow_sparse, k) && #[trigger] blocks0[k] * 512 <= j < blocks0[k] * 512
                    + piece_len(size, k);
            assert(bs[k] == blocks0[k]);
        }
        if b * 512 <= j < b * 512 + pl {
            assert(bs[i] == b);
            assert(in_data(data, allow_sparse, bs, i + 1, j));
        }
        if size > 512 && key != 0 && (j == key * 512 + i || j == key * 512 + i + 256) {
            assert(in_index(data, key, i + 1, j));
        }
    }
    assert forall|k1: int, k2: int|
        0 <= k1 < k2 < i + 1 && stored_at(data, allow_sparse, k1) && stored_at(data, allow_sparse, k2) implies #[trigger] bs[k1]
        < #[trigger] bs[k2] by {
        assert(bs[k1] == blocks0[k1]);
        if k2 < i {
            assert(bs[k2] == blocks0[k2]);
        }
    }
    if size > 512 {
        assert forall|k: int| 0 <= k < i + 1 && stored_at(data, allow_sparse, k) implies key < #[trigger] bs[k] by {
            if k < i {
                assert(bs[k] == blocks0[k]);
            }
        }
    }
    assert forall|a: int, c: int|
        #![trigger file_block(data, allow_sparse, key, bs, i + 1, a), f0.contains(c)]
        file_block(data, allow_sparse, key, bs, i + 1, a) && f0.contains(c) && !file_block(
            data,
            allow_sparse,
            key,
            bs,
            i + 1,
            c,
        ) implies a < c by {
        assert(!alloc.contains(c));
        if a != b {
            assert(file_block(data, allow_sparse, key0, blocks0, i, a));
        }
    }
}

/// What `add_file` leaves: volume `s1` and result `r`, from volume `s0` of
/// `disk_size` bytes and a file of bytes `data` described by `meta`.
///
/// It fails with `DiskFull` when the root directory has no free entry or
/// the bitmap fewer free blocks than the file needs, with `FileTooBig` for
/// a file over 128 KiB. Without a free entry, or for a file too big, the
/// volume stays as it was; when the blocks run out, the blocks allocated
/// up to then stay written and marked used, and no entry is written. On success the file's blocks are the lowest free blocks: a file of
/// one block has its data in its key block; a larger one has an index
/// block whose entries point at its data blocks (0 for a sparse block).
/// Those blocks are marked used, the new directory entry describes the file
/// and points at its key block, the file count grows by one, and no other
/// byte changes.
pub open spec fn add_file_post(
    s0: Seq<u8>,
    s1: Seq<u8>,
    disk_size: int,
    data: Seq<u8>,
    meta: FileMeta,
    allow_sparse: bool,
    r: Result<(), ProDosError>,
) -> bool {
    &&& s1.len() == s0.len()
    &&& root_entry_scan(s0)->0 is None ==> r == Err::<(), ProDosError>(ProDosError::DiskFull) && s1 == s0
    &&& root_entry_scan(s0)->0 is Some && data.len() > 256 * 512 ==> r == Err::<(), ProDosError>(
        ProDosError::FileTooBig,
    ) && s1 == s0
    &&& root_entry_scan(s0)->0 is Some && data.len() <= 256 * 512 ==> (r is Ok <==> free_set(
        s0,
        disk_size,
    ).len() >= blocks_needed(data, allow_sparse))
    &&& r is Err ==> r == Err::<(), ProDosError>(ProDosError::DiskFull) || r == Err::<(), ProDosError>(
        ProDosError::FileTooBig,
    )
    &&& root_entry_scan(s0)->0 is Some && data.len() <= 256 * 512 && r is Err ==> s1 == s0 || exists|
        key: int,
        blocks: Seq<int>,
        n: int,
    | 0 <= n < data_blocks(data.len() as int) && #[trigger] blocks_written(
        s0,
        s1,
        disk_size,
        data,
        allow_sparse,
        key,
        blocks,
        n,
    )
    &&& r is Ok ==> {
        let e = root_entry_scan(s0)->0->0;
        &&& root_entry_scan(s0)->0 is Some
        &&& data.len() <= 256 * 512
        &&& le16(s1, root_header() + 33) == le16(s0, root_header() + 33) + 1
        &&& exists|key: int, blocks: Seq<int>, mid: Seq<u8>|
            #[trigger] blocks_written(s0, mid, disk_size, data, allow_sparse, key, blocks, data_blocks(
                data.len() as int,
            )) && (forall|j: int|
                0 <= j < s0.len() && !(e <= j < e + 39) && !(root_header() <= j < root_header() + 39) ==> s1[j]
                    == mid[j]) && ((e + 39 <= root_header() || e >= root_header() + 39) ==> exists|
                f: FileHeader,
            |
                file_header_read(f, s1, e) && entry_describes_file(f, meta, data, allow_sparse) && f.inode
                    == key as u16)
    }
}

/// Add a single file to a formatted ProDOS volume image.
///
/// - `image`        — disk image in ProDOS block order
/// - `disk_size`    — total size of the image in bytes
/// - `file_data`    — raw file content
/// - `meta`         — file metadata (name, type, aux, dates, ...)
/// - `allow_sparse` — all-zero blocks are stored as sparse (index entry 0)
pub fn add_file(
    image: &mut [u8],
    disk_size: usize,
    file_data: &[u8],
    meta: &FileMeta,
    allow_sparse: bool,
) -> (r: Result<(), ProDosError>)
    requires
        volume_ready(old(image)@, disk_size as int),
        file_data.len() > 0 || root_entry_scan(old(image)@)->0 is None,
    ensures
        final(image)@.len() == old(image)@.len(),
        add_file_post(old(image)@, final(image)@, disk_size as int, file_data@, *meta, allow_sparse, r),
{
    let ghost s0 = image@;
    // ── Locate the root directory ─────────────────────────────────────────
    let root = "/";
    proof {
        reveal_strlit("/");
    }
    let base_offset = match get_path_offset(root) {
        Some(off) => off,
        None => 0x400,
    };
    let dir_block = dir_block_of(base_offset);
    assert(base_offset == 0x400 && dir_block == 2);
    let mut vh = get_volume_header(image, dir_block);
    let bb = vh.bitmap_block;
    let ghost nbytes = spec_bitmap_byte_count(disk_size as int);
    let ghost f0 = free_set(s0, disk_size as int);
    proof {
        lemma_free_set_finite(s0, disk_size as int);
    }
    // ── Find a free directory entry ───────────────────────────────────────
    let free_entry_off = match get_first_free_entry_offset(
        image,
        base_offset,
        vh.entry_len,
        vh.entry_num,
    ) {
        Some(off) => off,
        None => {
            return Err(ProDosError::DiskFull);
        },
    };
    proof {
        lemma_scan_dir_in_bounds(
            s0,
            0x400,
            s0[root_header() + 31] as int,
            s0[root_header() + 32] as nat,
            chain_fuel(s0),
        );
    }
    assert(free_entry_off + 39 <= s0.len());
    // ── Storage kind and block counts ─────────────────────────────────────
    let file_size = file_data.len();
    if file_size > 256 * BLOCK_SIZE {
        return Err(ProDosError::FileTooBig);
    }
    let n_data_blks = if file_size <= BLOCK_SIZE {
        1
    } else {
        (file_size + BLOCK_SIZE - 1) / BLOCK_SIZE
    };
    let is_sapling = file_size > BLOCK_SIZE;
    let n_index_blks: usize = if is_sapling {
        1
    } else {
        0
    };
    let kind = if is_sapling {
        ProDosKind::Sapling
    } else {
        ProDosKind::Seed
    };
    proof {
        lemma_stored_blocks_monotone(file_data@, allow_sparse, 0, n_data_blks as int - 1);
    }
    // ── Allocate the index block ──────────────────────────────────────────
    let mut n_blocks_total: u16 = n_index_blks as u16;
    let mut inode: u16 = 0;
    let mut index_off: usize = 0;
    let ghost mut key: int = 0;
    let ghost mut alloc: Set<int> = Set::empty();
    let ghost mut blocks: Seq<int> = Seq::empty();
    if is_sapling {
        let blk = match get_first_free(image, disk_size, bb) {
            Some(b) => b,
            None => {
                proof {
                    assert(f0 =~= Set::empty());
                }
                return Err(ProDosError::DiskFull);
            },
        };
        proof {
            lemma_set_used_keeps_safe(image@, bb as int, nbytes, blk as int);
            assert(f0.contains(blk as int));
            lemma_in_free_set(s0, disk_size as int, blk as int);
        }
        let ghost pre = image@;
        set_used(image, bb, blk);
        proof {
            key = blk as int;
            alloc = set![blk as int];
            assert forall|c: int| 0 <= c < nbytes * 8 implies (#[trigger] block_is_free(image@, bb * 512, c)
                <==> f0.contains(c) && !alloc.contains(c)) by {
                lemma_set_used_marks_only_that_block(pre, bb * 512, blk as int, c);
            }
        }
        inode = blk as u16;
        index_off = blk as usize * BLOCK_SIZE;
    }
    // ── Copy data blocks ──────────────────────────────────────────────────
    let slack = file_size % BLOCK_SIZE;
    let last_blk_size = if slack != 0 {
        slack
    } else {
        BLOCK_SIZE
    };
    let mut i: usize = 0;
    while i < n_data_blks
        invariant
            i <= n_data_blks,
            n_data_blks == data_blocks(file_size as int),
            n_data_blks <= 256,
            file_size == file_data@.len(),
            0 < file_size <= 256 * 512,
            is_sapling == (file_size > 512),
            last_blk_size == (if file_size % 512 != 0 { file_size % 512 } else { 512 }),
            image@.len() == s0.len(),
            image@.len() == image.len(),
            s0 == old(image)@,
            bb as int == root_bitmap_block(s0),
            volume_ready(s0, disk_size as int),
            root_entry_scan(s0)->0 == Some(free_entry_off as int),
            free_entry_off + 39 <= s0.len(),
            s0.len() + 1024 < usize::MAX,
            nbytes == spec_bitmap_byte_count(disk_size as int),
            bb as int * 512 + nbytes <= image.len(),
            nbytes * 8 <= u32::MAX,
            f0 == free_set(s0, disk_size as int),
            f0.finite(),
            free_blocks_safe(image@, bb as int, nbytes),
            is_sapling ==> inode == key as u16 && index_off == key * 512 && f0.contains(key),
            !is_sapling && i > 0 ==> key == blocks[0] && inode == key as u16,
            is_sapling ==> index_off + 512 <= image.len() && (index_off >= bb * 512 + nbytes
                || index_off + 512 <= bb * 512),
            n_blocks_total == n_index_blks + stored_blocks(file_data@, allow_sparse, i as int),
            n_index_blks == (if is_sapling { 1usize } else { 0usize }),
            blocks.len() == i,
            alloc.finite(),
            alloc.len() == n_index_blks + stored_blocks(file_data@, allow_sparse, i as int),
            forall|c: int| alloc.contains(c) <==> file_block(file_data@, allow_sparse, key, blocks, i as int, c),
            blocks_written(s0, image@, disk_size as int, file_data@, allow_sparse, key, blocks, i as int),
            i > 0 ==> f0.len() >= n_index_blks + stored_blocks(file_data@, allow_sparse, i - 1) + 1,
        decreases n_data_blks - i,
    {
        proof {
            lemma_stored_blocks_step(file_data@, allow_sparse, i as int);
            lemma_stored_blocks_monotone(file_data@, allow_sparse, i as int, n_data_blks as int - 1);
        }
        let data_blk = match get_first_free(image, disk_size, bb) {
            Some(b) => b,
            None => {
                proof {
                    assert forall|c: int| f0.contains(c) implies alloc.contains(c) by {
                        assert(!block_is_free(image@, bb * 512, c));
                    }
                    vstd::set_lib::lemma_len_subset(f0, alloc);
                    assert(blocks_written(s0, image@, disk_size as int, file_data@, allow_sparse, key, blocks, i as int));
                }
                return Err(ProDosError::DiskFull);
            },
        };
        let ghost b = data_blk as int;
        proof {
            assert(block_is_free(image@, bb * 512, b));
            assert(f0.contains(b) && !alloc.contains(b));
            lemma_in_free_set(s0, disk_size as int, b);
            assert(alloc.insert(b).subset_of(f0));
            vstd::set_lib::lemma_len_subset(alloc.insert(b), f0);
            assert forall|c: int| f0.contains(c) && !alloc.contains(c) implies b <= c by {
                if c < b {
                    assert(!block_is_free(image@, bb * 512, c));
                }
            }
        }
        if i == 0 && !is_sapling {
            inode = data_blk as u16;
        }
        let dst_off = data_blk as usize * BLOCK_SIZE;
        let src_off = i * BLOCK_SIZE;
        let is_last = i == n_data_blks - 1;
        let block_is_sparse = is_sparse(src_off, file_data);
        let ghost pre = image@;
        let ghost key0 = key;
        let ghost blocks0 = blocks;
        let ghost alloc0 = alloc;
        proof {
            if i == 0 && !is_sapling {
                key = b;
            }
            blocks = blocks.push(b);
        }
        if block_is_sparse && allow_sparse {
            if is_sapling && index_off != 0 {
                put_index_block(image, index_off, i, 0);
                proof {
                    lemma_write_outside_bitmap(
                        pre,
                        image@,
                        bb as int,
                        nbytes,
                        index_off as int,
                        index_off + 512,
                    );
                }
            }
            proof {
                lemma_sparse_step(s0, pre, image@, disk_size as int, file_data@, allow_sparse, key0, key,
                    blocks0, b, i as int, alloc0);
            }
        } else {
            let copy_len = if is_last {
                last_blk_size
            } else {
                BLOCK_SIZE
            };
            assert(src_off + copy_len <= file_size) by {
                if is_last {
                    assert(file_size <= n_data_blks * 512);
                    assert(file_size > (n_data_blks - 1) * 512);
                }
            }
            assert(copy_len == piece_len(file_size as int, i as int));
            copy_bytes(image, dst_off, file_data, src_off, copy_len);
            let ghost copied = image@;
            proof {
                lemma_write_outside_bitmap(
                    pre,
                    image@,
                    bb as int,
                    nbytes,
                    dst_off as int,
                    dst_off + copy_len,
                );
                lemma_set_used_keeps_safe(image@, bb as int, nbytes, data_blk as int);
            }
            set_used(image, bb, data_blk);
            let ghost marked = image@;
            n_blocks_total = n_blocks_total + 1;
            if is_sapling && index_off != 0 {
                let ghost before = image@;
                put_index_block(image, index_off, i, data_blk);
                proof {
                    lemma_write_outside_bitmap(
                        before,
                        image@,
                        bb as int,
                        nbytes,
                        index_off as int,
                        index_off + 512,
                    );
                }
            }
            proof {
                alloc = alloc.insert(b);
                lemma_stored_step(s0, pre, copied, marked, image@, disk_size as int, file_data@, allow_sparse,
                    key0, key, blocks0, b, i as int, alloc0);
            }
        }
        i = i + 1;
    }
    // ── Write the directory entry ─────────────────────────────────────────
    let fh = make_entry(meta, kind.code(), inode, n_blocks_total, file_size as u32);
    let ghost pre_entry = image@;
    put_file_header(image, free_entry_off, &fh);
    let ghost mid = image@;
    proof {
        lemma_file_header_roundtrip(pre_entry, fh, free_entry_off as int);
    }
    // ── Update the volume header ──────────────────────────────────────────
    vh.file_count = vh.file_count + 1;
    set_volume_header(image, &vh, dir_block);
    proof {
        let e = free_entry_off as int;
        let before = write_file_header(mid, fh, e);
        assert(volume_header_storable(vh));
        lemma_volume_header_roundtrip(mid, vh, root_header());
        assert(inode == key as u16);
        if e + 39 <= root_header() || e >= root_header() + 39 {
            assert(file_header_storable(fh));
            assert(file_header_read(fh, image@, e)) by {
                assert forall|j: int| e <= j < e + 39 implies image@[j] == mid[j] by {}
            }
            assert(entry_describes_file(fh, *meta, file_data@, allow_sparse));
        }
        assert forall|j: int|
            0 <= j < s0.len() && !(e <= j < e + 39) && !(root_header() <= j < root_header() + 39) implies image@[j]
            == pre_entry[j] by {}
        assert(blocks_written(s0, pre_entry, disk_size as int, file_data@, allow_sparse, key, blocks, n_data_blks as int));
        assert(f0.len() >= blocks_needed(file_data@, allow_sparse));
    }
    Ok(())
}

/// A freshly formatted volume, whatever its boot blocks hold, is ready for
/// `add_file` once its last block lies in the image: the root directory
/// has a free entry, and the free blocks are exactly those after the boot
/// blocks, the four directory blocks and the bitmap, up to the volume's
/// last block. So by `add_file`'s contract a first file of at most 128 KiB
/// is added exactly when it needs no more blocks than that.
pub proof fn lemma_fresh_volume_ready(s0: Seq<u8>, f: Seq<u8>, s: Seq<u8>, disk_size: int, name: Seq<u8>)
    requires
        prodos_formatted(s0, f, disk_size, name),
        s.len() == f.len(),
        forall|j: int| 1024 <= j < s.len() ==> s[j] == f[j],
        3072 + spec_bitmap_byte_count(disk_size) <= disk_size,
        spec_block_count(disk_size) * 512 <= s.len(),
        s.len() + 1024 < usize::MAX,
        spec_bitmap_byte_count(disk_size) * 8 <= u32::MAX,
        6 + spec_bitmap_block_count(disk_size) <= spec_block_count(disk_size),
    ensures
        volume_ready(s, disk_size),
        root_entry_scan(s)->0 is Some,
        free_set(s, disk_size) == vstd::set_lib::set_int_range(
            6 + spec_bitmap_block_count(disk_size),
            spec_block_count(disk_size),
        ),
        free_set(s, disk_size).len() == spec_block_count(disk_size) - 6 - spec_bitmap_block_count(disk_size),
{
    let nbytes = spec_bitmap_byte_count(disk_size);
    let nblk = spec_block_count(disk_size);
    let bm = spec_bitmap_block_count(disk_size);
    let lo = 6 + bm;
    assert(bm * 512 >= nbytes) by (nonlinear_arith)
        requires
            bm == (nbytes + 511) / 512,
            nbytes >= 0,
    ;
    assert(nbytes * 8 >= nblk);
    let h = choose|h: VolumeHeader|
        volume_header_read(h, f, 1028) && fresh_root_header(h, trim_slashes(name), fresh_total_blocks(disk_size));
    assert(volume_header_read(h, f, 1028));
    // The root header reads the same in `s`.
    assert(s[1028] == f[1028]);
    assert(s[1059] == f[1059] && s[1060] == f[1060]);
    assert(s[1061] == f[1061] && s[1062] == f[1062]);
    assert(s[1063] == f[1063] && s[1064] == f[1064]);
    assert(root_bitmap_block(s) == 6);
    assert(le16(s, root_header() + 33) == 0);
    // The bitmap reads the same in `s`.
    assert forall|c: int| 0 <= c < nbytes * 8 implies #[trigger] block_is_free(s, 3072, c) == (lo <= c < nblk) by {
        assert(s[3072 + c / 8] == f[3072 + c / 8]);
        assert(block_is_free(f, 3072, c) == (lo <= c < nblk));
    }
    assert forall|c: int| 0 <= c < nbytes * 8 && #[trigger] block_is_free(s, 3072int, c) implies {
        &&& (c + 1) * 512 <= s.len()
        &&& (c * 512 >= 6 * 512 + nbytes || (c + 1) * 512 <= 6 * 512)
    } by {
        assert(block_is_free(s, 3072, c));
        assert(c * 512 >= lo * 512);
        assert((c + 1) * 512 <= nblk * 512);
    }
    // The first free entry: the header's own if its name is empty, else
    // the next one, which a fresh directory leaves zero.
    assert(f[1067] == 0);
    assert(s[1067] == 0);
    assert(s[root_header() + 31] == 0x27 && s[root_header() + 32] == 13);
    assert(scan_entries(s, 1067, 39, 12) == Some(Some(1067int)));
    assert(scan_entries(s, 1028, 39, 13) is Some && scan_entries(s, 1028, 39, 13)->0 is Some);
    assert(chain_fuel(s) > 0);
    assert(root_entry_scan(s) is Some && root_entry_scan(s)->0 is Some);
    // The free blocks.
    assert(free_set(s, disk_size) =~= vstd::set_lib::set_int_range(lo, nblk));
    vstd::set_lib::lemma_int_range(lo, nblk);
}

} // verus!
