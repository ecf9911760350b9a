//! ProDOS on-disk types, constants, and byte-level helpers.

use vstd::prelude::*;
use vstd::string::StringSliceAdditionalSpecFns;

verus! {

// ── Constants ─────────────────────────────────────────────────────────────────

/// 512 bytes per block.
pub const BLOCK_SIZE: usize = 0x200;
/// The root directory starts at block 2.
pub const ROOT_BLOCK: u32 = 2;
/// Byte offset of the root directory (block 2).
pub const ROOT_OFFSET: usize = 0x400;
/// Longest file or volume name.
pub const MAX_FILENAME: usize = 15;
/// 32 MB volume limit, in blocks.
pub const MAX_BLOCKS: u16 = 0xFFFF;

// ── Access flags ──────────────────────────────────────────────────────────────

/// Can destroy.
pub const ACCESS_D: u8 = 0x80;
/// Can rename.
pub const ACCESS_N: u8 = 0x40;
/// Can backup.
pub const ACCESS_B: u8 = 0x20;
/// Invisible.
pub const ACCESS_I: u8 = 0x04;
/// Can write.
pub const ACCESS_W: u8 = 0x02;
/// Can read.
pub const ACCESS_R: u8 = 0x01;

// ── Storage kinds ────────────────────────────────────────────────────────────

/// ProDOS storage-type codes (high nibble of the kind byte).
#[derive(Debug, Clone, Copy, PartialEq, Eq)]
pub enum ProDosKind {
    /// Deleted / unused entry.
    Del,
    /// Seedling: at most 512 bytes, the key block is the data block.
    Seed,
    /// Sapling: at most 128 KB, one index block.
    Sapling,
    /// Tree: over 128 KB, master and sub-index blocks.
    Tree,
    Pascal,
    GsOs,
    /// Sub-directory entry in its parent.
    Dir,
    /// Sub-directory header.
    Sub,
    /// Volume (root) directory header.
    Root,
}

/// The on-disk code of each storage kind.
pub open spec fn kind_code(k: ProDosKind) -> u8 {
    match k {
        ProDosKind::Del => 0x0,
        ProDosKind::Seed => 0x1,
        ProDosKind::Sapling => 0x2,
        ProDosKind::Tree => 0x3,
        ProDosKind::Pascal => 0x4,
        ProDosKind::GsOs => 0x5,
        ProDosKind::Dir => 0xD,
        ProDosKind::Sub => 0xE,
        ProDosKind::Root => 0xF,
    }
}

/// The storage kind that a nibble names; unknown nibbles read as deleted.
pub open spec fn kind_of_nibble(n: u8) -> ProDosKind {
    if n == 0x1 {
        ProDosKind::Seed
    } else if n == 0x2 {
        ProDosKind::Sapling
    } else if n == 0x3 {
        ProDosKind::Tree
    } else if n == 0x4 {
        ProDosKind::Pascal
    } else if n == 0x5 {
        ProDosKind::GsOs
    } else if n == 0xD {
        ProDosKind::Dir
    } else if n == 0xE {
        ProDosKind::Sub
    } else if n == 0xF {
        ProDosKind::Root
    } else {
        ProDosKind::Del
    }
}

impl ProDosKind {
    /// Decode the storage kind held in the low nibble of `v`.
    pub fn from_u8(v: u8) -> (r: Self)
        ensures
            r == kind_of_nibble(v % 16),
    {
        let n = v % 16;
        if n == 0x1 {
            ProDosKind::Seed
        } else if n == 0x2 {
            ProDosKind::Sapling
        } else if n == 0x3 {
            ProDosKind::Tree
        } else if n == 0x4 {
            ProDosKind::Pascal
        } else if n == 0x5 {
            ProDosKind::GsOs
        } else if n == 0xD {
            ProDosKind::Dir
        } else if n == 0xE {
            ProDosKind::Sub
        } else if n == 0xF {
            ProDosKind::Root
        } else {
            ProDosKind::Del
        }
    }

    /// The on-disk code of this storage kind.
    pub fn code(&self) -> (r: u8)
        ensures
            r == kind_code(*self),
    {
        match self {
            ProDosKind::Del => 0x0,
            ProDosKind::Seed => 0x1,
            ProDosKind::Sapling => 0x2,
            ProDosKind::Tree => 0x3,
            ProDosKind::Pascal => 0x4,
            ProDosKind::GsOs => 0x5,
            ProDosKind::Dir => 0xD,
            ProDosKind::Sub => 0xE,
            ProDosKind::Root => 0xF,
        }
    }
}

/// Decoding a kind's own code gives the kind back.
pub proof fn lemma_kind_code_roundtrip(k: ProDosKind)
    ensures
        kind_of_nibble(kind_code(k)) == k,
        kind_code(k) < 16,
{
}

// ── Error type ────────────────────────────────────────────────────────────────

/// Errors of ProDOS / DOS 3.3 image creation.
#[derive(Debug)]
pub enum ProDosError {
    /// No free block or directory entry is left.
    DiskFull,
    /// The file needs a TREE index (over 128 KB), which is not supported.
    FileTooBig,
    /// Invalid volume or file name.
    InvalidName,
    /// The image exceeds the largest volume size.
    ImageTooLarge,
    /// The image is too small for DOS 3.3.
    ImageTooSmall,
    /// A read or write of the image file failed (its message).
    Io(String),
}

// ── Date / time packing ───────────────────────────────────────────────────────

/// The packed ProDOS date word: `YYYYYYYMMMMDDDDD`.
pub open spec fn spec_pack_date(year: u16, month: u8, day: u8) -> int {
    (year % 128) * 512 + (month % 16) * 32 + (day % 32)
}

/// The packed ProDOS time word: `000HHHHH00MMMMMM`.
pub open spec fn spec_pack_time(hours: u8, minutes: u8) -> int {
    (hours % 32) * 256 + (minutes % 64)
}

/// Pack a ProDOS date word from a 2-digit year, a month and a day.
pub fn pack_date(year: u16, month: u8, day: u8) -> (r: u16)
    ensures
        r == spec_pack_date(year, month, day),
{
    (year % 128) * 512 + (month as u16 % 16) * 32 + (day as u16 % 32)
}

/// Pack a ProDOS time word from hours and minutes.
pub fn pack_time(hours: u8, minutes: u8) -> (r: u16)
    ensures
        r == spec_pack_time(hours, minutes),
{
    (hours as u16 % 32) * 256 + (minutes as u16 % 64)
}

// ── Little-endian byte helpers ────────────────────────────────────────────────

/// The little-endian 16-bit value at `off`.
pub open spec fn le16(s: Seq<u8>, off: int) -> int {
    s[off] as int + 256 * s[off + 1] as int
}

/// The little-endian 24-bit value at `off`.
pub open spec fn le24(s: Seq<u8>, off: int) -> int {
    s[off] as int + 256 * s[off + 1] as int + 65536 * s[off + 2] as int
}

/// `s` with the 16-bit value `v` stored little-endian at `off`.
pub open spec fn store16(s: Seq<u8>, off: int, v: u16) -> Seq<u8> {
    s.update(off, (v % 256) as u8).update(off + 1, (v / 256) as u8)
}

/// `s` with the low 24 bits of `v` stored little-endian at `off`.
pub open spec fn store24(s: Seq<u8>, off: int, v: u32) -> Seq<u8> {
    s.update(off, (v % 256) as u8).update(off + 1, ((v / 256) % 256) as u8).update(
        off + 2,
        ((v / 65536) % 256) as u8,
    )
}

/// Read a little-endian `u16` at `off`.
pub fn get_u16(buf: &[u8], off: usize) -> (r: u16)
    requires
        off + 1 < buf@.len(),
    ensures
        r == le16(buf@, off as int),
{
    buf[off] as u16 + (buf[off + 1] as u16) * 256
}

/// Store `v` little-endian at `off`.
pub fn put_u16(buf: &mut [u8], off: usize, v: u16)
    requires
        off + 1 < old(buf)@.len(),
    ensures
        final(buf)@ == store16(old(buf)@, off as int, v),
{
    buf[off] = (v % 256) as u8;
    buf[off + 1] = (v / 256) as u8;
}

/// Read a little-endian 24-bit value at `off`.
pub fn get_u24(buf: &[u8], off: usize) -> (r: u32)
    requires
        off + 2 < buf@.len(),
    ensures
        r == le24(buf@, off as int),
{
    buf[off] as u32 + (buf[off + 1] as u32) * 256 + (buf[off + 2] as u32) * 65536
}

/// Store the low 24 bits of `v` little-endian at `off`.
pub fn put_u24(buf: &mut [u8], off: usize, v: u32)
    requires
        off + 2 < old(buf)@.len(),
    ensures
        final(buf)@ == store24(old(buf)@, off as int, v),
{
    buf[off] = (v % 256) as u8;
    buf[off + 1] = ((v / 256) % 256) as u8;
    buf[off + 2] = ((v / 65536) % 256) as u8;
}

/// Reading a 16-bit value back gives what was stored.
pub proof fn lemma_u16_roundtrip(s: Seq<u8>, off: int, v: u16)
    requires
        0 <= off,
        off + 1 < s.len(),
    ensures
        le16(store16(s, off, v), off) == v,
        store16(s, off, v).len() == s.len(),
{
}

/// Reading a 24-bit value back gives the low 24 bits of what was stored.
pub proof fn lemma_u24_roundtrip(s: Seq<u8>, off: int, v: u32)
    requires
        0 <= off,
        off + 2 < s.len(),
    ensures
        le24(store24(s, off, v), off) == v % 0x100_0000,
        store24(s, off, v).len() == s.len(),
{
    assert(v % 0x100_0000 == v % 256 + 256 * ((v / 256) % 256) + 65536 * ((v / 65536) % 256))
        by (nonlinear_arith);
}

// ── Split index-block helpers ────────────────────────────────────────────────
// An index block stores 256 low bytes at offset 0..255 and 256 high bytes at
// offset 256..511, giving 256 block pointers per index block.

/// The block pointer stored at `entry` of the index block at `block_off`.
pub open spec fn index_entry(s: Seq<u8>, block_off: int, entry: int) -> int {
    s[block_off + entry] as int + 256 * s[block_off + entry + 256] as int
}

/// Read the block pointer at `entry` of the index block at `block_off`.
pub fn get_index_block(buf: &[u8], block_off: usize, entry: usize) -> (r: u32)
    requires
        block_off + entry + 256 < buf.len(),
    ensures
        r == index_entry(buf@, block_off as int, entry as int),
{
    let lo = buf[block_off + entry] as u32;
    let hi = buf[block_off + entry + 256] as u32;
    lo + hi * 256
}

/// Store the low 16 bits of `block` at `entry` of the index block at `block_off`.
pub fn put_index_block(buf: &mut [u8], block_off: usize, entry: usize, block: u32)
    requires
        block_off + entry + 256 < old(buf).len(),
    ensures
        final(buf)@ == old(buf)@.update(block_off + entry, (block % 256) as u8).update(
            block_off + entry + 256,
            ((block / 256) % 256) as u8,
        ),
{
    buf[block_off + entry] = (block % 256) as u8;
    buf[block_off + entry + 256] = ((block / 256) % 256) as u8;
}

/// An index entry reads back as the low 16 bits of the pointer stored there.
pub proof fn lemma_index_entry_roundtrip(s: Seq<u8>, block_off: int, entry: int, block: u32)
    requires
        0 <= block_off,
        0 <= entry < 256,
        block_off + entry + 256 < s.len(),
    ensures
        index_entry(
            s.update(block_off + entry, (block % 256) as u8).update(
                block_off + entry + 256,
                ((block / 256) % 256) as u8,
            ),
            block_off,
            entry,
        ) == block % 0x10000,
{
    assert(block % 0x10000 == block % 256 + 256 * ((block / 256) % 256)) by (nonlinear_arith);
}

// ── Filename helpers ──────────────────────────────────────────────────────────

/// ASCII upper-casing of one byte.
pub open spec fn ascii_upper(b: u8) -> u8 {
    if 97 <= b <= 122 {
        (b - 32) as u8
    } else {
        b
    }
}

/// Upper-case one ASCII byte.
pub fn to_upper_byte(b: u8) -> (r: u8)
    ensures
        r == ascii_upper(b),
{
    if b >= 97 && b <= 122 {
        b - 32
    } else {
        b
    }
}

/// The number of name bytes that fit: at most `MAX_FILENAME`.
pub open spec fn name_len(n: int) -> int {
    if n < 15 {
        n
    } else {
        15
    }
}

/// Copy the bytes of `src` into `dst` upper-cased, at most `MAX_FILENAME` of
/// them, and end them with a zero when `dst` has room. Returns the count.
pub fn copy_upper_bytes(dst: &mut [u8], src: &[u8]) -> (n: usize)
    requires
        name_len(src@.len() as int) <= old(dst)@.len(),
    ensures
        n == name_len(src@.len() as int),
        final(dst)@.len() == old(dst)@.len(),
        forall|i: int| 0 <= i < n ==> final(dst)@[i] == ascii_upper(src@[i]),
        n < old(dst)@.len() ==> final(dst)@[n as int] == 0,
        forall|i: int| n < i < old(dst)@.len() ==> final(dst)@[i] == old(dst)@[i],
{
    let mut n: usize = 0;
    while n < src.len() && n < MAX_FILENAME
        invariant
            n <= src@.len(),
            n <= 15,
            name_len(src@.len() as int) <= dst@.len(),
            dst@.len() == old(dst)@.len(),
            forall|i: int| 0 <= i < n ==> dst@[i] == ascii_upper(src@[i]),
            forall|i: int| n <= i < dst@.len() ==> dst@[i] == old(dst)@[i],
        decreases src@.len() - n,
    {
        dst[n] = to_upper_byte(src[n]);
        n = n + 1;
    }
    if n < dst.len() {
        dst[n] = 0;
    }
    n
}

/// Copy `src` into `dst` as ASCII uppercase, up to `MAX_FILENAME` bytes, and
/// end it with a zero when `dst` has room. Returns the number of name bytes.
pub fn copy_upper(dst: &mut [u8], src: &str) -> (n: usize)
    requires
        name_len(src.spec_bytes().len() as int) <= old(dst)@.len(),
    ensures
        n == name_len(src.spec_bytes().len() as int),
        final(dst)@.len() == old(dst)@.len(),
        forall|i: int| 0 <= i < n ==> final(dst)@[i] == ascii_upper(src.spec_bytes()[i]),
        n < old(dst)@.len() ==> final(dst)@[n as int] == 0,
        forall|i: int| n < i < old(dst)@.len() ==> final(dst)@[i] == old(dst)@[i],
{
    copy_upper_bytes(dst, src.as_bytes())
}


// ── On-disk headers ──────────────────────────────────────────────────────────

/// Bytes of a volume header on disk.
pub const VOLUME_HEADER_LEN: usize = 39;
/// Bytes of a file entry on disk.
pub const FILE_HEADER_LEN: usize = 39;

/// A volume (or sub-directory) header.
/// Use `get_volume_header` / `set_volume_header` to read/write it on an image.
#[derive(Debug, Clone, Copy)]
pub struct VolumeHeader {
    /// Storage kind (4 bits).
    pub kind: u8,
    /// Name length (4 bits).
    pub len: u8,
    /// Volume name; `len` bytes are used on disk.
    pub name: [u8; 16],
    /// Root-only padding / sub-directory magic byte.
    pub pad8: [u8; 8],
    pub date: u16,
    pub time: u16,
    pub cur_ver: u8,
    pub min_ver: u8,
    pub access: u8,
    /// Size of each directory entry in bytes (0x27).
    pub entry_len: u8,
    /// Number of directory entries per block (0x0D).
    pub entry_num: u8,
    /// Active file entries in this directory.
    pub file_count: u16,
    pub bitmap_block: u16,
    pub total_blocks: u16,
    /// Sub-directory fields (not stored by `set_volume_header`).
    pub parent_block: u16,
    pub parent_entry_num: u8,
    pub parent_entry_len: u8,
}

impl Default for VolumeHeader {
    fn default() -> (r: Self)
        ensures
            volume_header_is_zero(r),
    {
        VolumeHeader {
            kind: 0,
            len: 0,
            name: [0u8; 16],
            pad8: [0u8; 8],
            date: 0,
            time: 0,
            cur_ver: 0,
            min_ver: 0,
            access: 0,
            entry_len: 0,
            entry_num: 0,
            file_count: 0,
            bitmap_block: 0,
            total_blocks: 0,
            parent_block: 0,
            parent_entry_num: 0,
            parent_entry_len: 0,
        }
    }
}

/// Every field of `h` is zero.
pub open spec fn volume_header_is_zero(h: VolumeHeader) -> bool {
    &&& h.kind == 0
    &&& h.len == 0
    &&& forall|i: int| 0 <= i < 16 ==> h.name@[i] == 0
    &&& forall|i: int| 0 <= i < 8 ==> h.pad8@[i] == 0
    &&& h.date == 0
    &&& h.time == 0
    &&& h.cur_ver == 0
    &&& h.min_ver == 0
    &&& h.access == 0
    &&& h.entry_len == 0
    &&& h.entry_num == 0
    &&& h.file_count == 0
    &&& h.bitmap_block == 0
    &&& h.total_blocks == 0
    &&& h.parent_block == 0
    &&& h.parent_entry_num == 0
    &&& h.parent_entry_len == 0
}

/// Low byte of a 16-bit value.
pub open spec fn lo8(v: u16) -> u8 {
    (v % 256) as u8
}

/// High byte of a 16-bit value.
pub open spec fn hi8(v: u16) -> u8 {
    (v / 256) as u8
}

/// The first byte of a header: kind in the high nibble, name length in the low.
pub open spec fn kind_len_byte(kind: u8, len: u8) -> u8 {
    ((kind % 16) * 16 + len % 16) as u8
}

/// Byte `i` (0..39) of the on-disk form of a volume header.
pub open spec fn vh_byte(h: VolumeHeader, i: int) -> u8 {
    if i == 0 {
        kind_len_byte(h.kind, h.len)
    } else if i < 16 {
        h.name@[i - 1]
    } else if i < 24 {
        h.pad8@[i - 16]
    } else if i == 24 {
        lo8(h.date)
    } else if i == 25 {
        hi8(h.date)
    } else if i == 26 {
        lo8(h.time)
    } else if i == 27 {
        hi8(h.time)
    } else if i == 28 {
        h.cur_ver
    } else if i == 29 {
        h.min_ver
    } else if i == 30 {
        h.access
    } else if i == 31 {
        h.entry_len
    } else if i == 32 {
        h.entry_num
    } else if i == 33 {
        lo8(h.file_count)
    } else if i == 34 {
        hi8(h.file_count)
    } else if i == 35 {
        lo8(h.bitmap_block)
    } else if i == 36 {
        hi8(h.bitmap_block)
    } else if i == 37 {
        lo8(h.total_blocks)
    } else {
        hi8(h.total_blocks)
    }
}

/// Whether `set_volume_header` writes byte `i` of the header: the name takes
/// only `len` bytes, the rest of the name field is left as it was.
pub open spec fn vh_written(h: VolumeHeader, i: int) -> bool {
    i == 0 || (1 <= i && i <= h.len) || (16 <= i && i < 39)
}

/// `s` with the volume header `h` written at byte `base`.
pub open spec fn write_volume_header(s: Seq<u8>, h: VolumeHeader, base: int) -> Seq<u8> {
    Seq::new(
        s.len(),
        |j: int|
            if base <= j < base + 39 && vh_written(h, j - base) {
                vh_byte(h, j - base)
            } else {
                s[j]
            },
    )
}

/// `h` is the volume header that `get_volume_header` reads at `base` of `s`.
pub open spec fn volume_header_read(h: VolumeHeader, s: Seq<u8>, base: int) -> bool {
    let kl = s[base];
    &&& h.kind == kl / 16
    &&& h.len == kl % 16
    &&& forall|i: int| 0 <= i < 16 ==> h.name@[i] == (if i < kl % 16 { s[base + 1 + i] } else { 0u8 })
    &&& forall|i: int| 0 <= i < 8 ==> h.pad8@[i] == s[base + 16 + i]
    &&& h.date == le16(s, base + 24)
    &&& h.time == le16(s, base + 26)
    &&& h.cur_ver == s[base + 28]
    &&& h.min_ver == s[base + 29]
    &&& h.access == s[base + 30]
    &&& h.entry_len == s[base + 31]
    &&& h.entry_num == s[base + 32]
    &&& h.file_count == le16(s, base + 33)
    &&& h.bitmap_block == le16(s, base + 35)
    &&& h.total_blocks == le16(s, base + 37)
    &&& h.parent_block == 0
    &&& h.parent_entry_num == 0
    &&& h.parent_entry_len == 0
}

/// A volume header that survives a write and a read unchanged: kind and
/// length fit their nibbles, the unused name bytes are zero and the
/// sub-directory fields, which are not stored, are zero.
pub open spec fn volume_header_storable(h: VolumeHeader) -> bool {
    &&& h.kind < 16
    &&& h.len < 16
    &&& forall|i: int| h.len <= i < 16 ==> h.name@[i] == 0
    &&& h.parent_block == 0
    &&& h.parent_entry_num == 0
    &&& h.parent_entry_len == 0
}

/// Byte offset of the volume header of `block` (after the prev/next pointers).
pub open spec fn header_base(block: u32) -> int {
    block as int * 512 + 4
}

/// Read a `VolumeHeader` from `image` at the given block.
pub fn get_volume_header(image: &[u8], block: u32) -> (h: VolumeHeader)
    requires
        header_base(block) + 39 <= image.len(),
    ensures
        volume_header_read(h, image@, header_base(block)),
{
    let base = block as usize * BLOCK_SIZE + 4;
    let kind_len = image[base];
    let len = kind_len % 16;
    let mut name = [0u8; 16];
    let mut i: usize = 0;
    while i < len as usize
        invariant
            i <= len,
            len < 16,
            base + 39 <= image.len(),
            forall|k: int| 0 <= k < 16 ==> name@[k] == (if k < i { image@[base + 1 + k] } else { 0u8 }),
        decreases len - i,
    {
        name[i] = image[base + 1 + i];
        i = i + 1;
    }
    let mut pad8 = [0u8; 8];
    let mut i: usize = 0;
    while i < 8
        invariant
            i <= 8,
            base + 39 <= image.len(),
            forall|k: int| 0 <= k < i ==> pad8@[k] == image@[base + 16 + k],
        decreases 8 - i,
    {
        pad8[i] = image[base + 16 + i];
        i = i + 1;
    }
    VolumeHeader {
        kind: kind_len / 16,
        len,
        name,
        pad8,
        date: get_u16(image, base + 24),
        time: get_u16(image, base + 26),
        cur_ver: image[base + 28],
        min_ver: image[base + 29],
        access: image[base + 30],
        entry_len: image[base + 31],
        entry_num: image[base + 32],
        file_count: get_u16(image, base + 33),
        bitmap_block: get_u16(image, base + 35),
        total_blocks: get_u16(image, base + 37),
        parent_block: 0,
        parent_entry_num: 0,
        parent_entry_len: 0,
    }
}

/// Write a `VolumeHeader` into `image` at the given block.
pub fn set_volume_header(image: &mut [u8], h: &VolumeHeader, block: u32)
    requires
        header_base(block) + 39 <= old(image).len(),
        h.len <= 16,
    ensures
        final(image)@ == write_volume_header(old(image)@, *h, header_base(block)),
{
    let ghost s0 = image@;
    let base = block as usize * BLOCK_SIZE + 4;
    image[base] = (h.kind % 16) * 16 + h.len % 16;
    let mut i: usize = 0;
    while i < h.len as usize
        invariant
            i <= h.len,
            h.len <= 16,
            base == header_base(block),
            base + 39 <= image.len(),
            image@.len() == s0.len(),
            forall|j: int|
                0 <= j < s0.len() ==> image@[j] == (if j == base {
                    vh_byte(*h, 0)
                } else if base + 1 <= j < base + 1 + i {
                    h.name@[j - base - 1]
                } else {
                    s0[j]
                }),
        decreases h.len - i,
    {
        image[base + 1 + i] = h.name[i];
        i = i + 1;
    }
    let mut i: usize = 0;
    while i < 8
        invariant
            i <= 8,
            h.len <= 16,
            base == header_base(block),
            base + 39 <= image.len(),
            image@.len() == s0.len(),
            forall|j: int|
                0 <= j < s0.len() ==> image@[j] == (if j == base {
                    vh_byte(*h, 0)
                } else if base + 16 <= j < base + 16 + i {
                    h.pad8@[j - base - 16]
                } else if base + 1 <= j < base + 1 + h.len {
                    h.name@[j - base - 1]
                } else {
                    s0[j]
                }),
        decreases 8 - i,
    {
        image[base + 16 + i] = h.pad8[i];
        i = i + 1;
    }
    put_u16(image, base + 24, h.date);
    put_u16(image, base + 26, h.time);
    image[base + 28] = h.cur_ver;
    image[base + 29] = h.min_ver;
    image[base + 30] = h.access;
    image[base + 31] = h.entry_len;
    image[base + 32] = h.entry_num;
    put_u16(image, base + 33, h.file_count);
    put_u16(image, base + 35, h.bitmap_block);
    put_u16(image, base + 37, h.total_blocks);
    assert(image@ =~= write_volume_header(s0, *h, base as int));
}

/// Reading a volume header back from where it was written gives the header.
pub proof fn lemma_volume_header_roundtrip(s: Seq<u8>, h: VolumeHeader, base: int)
    requires
        volume_header_storable(h),
        0 <= base,
        base + 39 <= s.len(),
    ensures
        volume_header_read(h, write_volume_header(s, h, base), base),
{
    let w = write_volume_header(s, h, base);
    assert(w[base] == kind_len_byte(h.kind, h.len));
    assert(w[base] / 16 == h.kind && w[base] % 16 == h.len);
    assert forall|i: int| 0 <= i < 16 implies h.name@[i] == (if i < w[base] % 16 {
        w[base + 1 + i]
    } else {
        0u8
    }) by {
        if i < h.len {
            assert(w[base + 1 + i] == vh_byte(h, 1 + i));
        }
    }
    assert forall|i: int| 0 <= i < 8 implies h.pad8@[i] == w[base + 16 + i] by {
        assert(w[base + 16 + i] == vh_byte(h, 16 + i));
    }
}


/// A file entry of a directory.
/// Use `get_file_header` / `put_file_header` to read/write it on an image.
#[derive(Debug, Clone, Copy)]
pub struct FileHeader {
    /// Storage kind (4 bits).
    pub kind: u8,
    /// Name length (4 bits).
    pub len: u8,
    /// File name; `len` bytes are used on disk.
    pub name: [u8; 16],
    /// File type byte (0xFF = SYS, ...).
    pub file_type: u8,
    /// Key block pointer.
    pub inode: u16,
    /// Total blocks used (index + non-sparse data blocks).
    pub blocks: u16,
    /// EOF address (24-bit on disk).
    pub size: u32,
    pub date: u16,
    pub time: u16,
    pub cur_ver: u8,
    pub min_ver: u8,
    pub access: u8,
    /// Load address for BIN/SYS files.
    pub aux: u16,
    pub mod_date: u16,
    pub mod_time: u16,
    /// Pointer back to the directory block.
    pub dir_block: u16,
}

/// Byte `i` (0..39) of the on-disk form of a file entry.
pub open spec fn fh_byte(f: FileHeader, i: int) -> u8 {
    if i == 0 {
        kind_len_byte(f.kind, f.len)
    } else if i < 16 {
        f.name@[i - 1]
    } else if i == 16 {
        f.file_type
    } else if i == 17 {
        lo8(f.inode)
    } else if i == 18 {
        hi8(f.inode)
    } else if i == 19 {
        lo8(f.blocks)
    } else if i == 20 {
        hi8(f.blocks)
    } else if i == 21 {
        (f.size % 256) as u8
    } else if i == 22 {
        ((f.size / 256) % 256) as u8
    } else if i == 23 {
        ((f.size / 65536) % 256) as u8
    } else if i == 24 {
        lo8(f.date)
    } else if i == 25 {
        hi8(f.date)
    } else if i == 26 {
        lo8(f.time)
    } else if i == 27 {
        hi8(f.time)
    } else if i == 28 {
        f.cur_ver
    } else if i == 29 {
        f.min_ver
    } else if i == 30 {
        f.access
    } else if i == 31 {
        lo8(f.aux)
    } else if i == 32 {
        hi8(f.aux)
    } else if i == 33 {
        lo8(f.mod_date)
    } else if i == 34 {
        hi8(f.mod_date)
    } else if i == 35 {
        lo8(f.mod_time)
    } else if i == 36 {
        hi8(f.mod_time)
    } else if i == 37 {
        lo8(f.dir_block)
    } else {
        hi8(f.dir_block)
    }
}

/// Whether `put_file_header` writes byte `i` of the entry: the name takes
/// only `len` bytes, the rest of the name field is left as it was.
pub open spec fn fh_written(f: FileHeader, i: int) -> bool {
    i == 0 || (1 <= i && i <= f.len) || (16 <= i && i < 39)
}

/// `s` with the file entry `f` written at byte `off`.
pub open spec fn write_file_header(s: Seq<u8>, f: FileHeader, off: int) -> Seq<u8> {
    Seq::new(
        s.len(),
        |j: int|
            if off <= j < off + 39 && fh_written(f, j - off) {
                fh_byte(f, j - off)
            } else {
                s[j]
            },
    )
}

/// `f` is the file entry that `get_file_header` reads at `off` of `s`.
pub open spec fn file_header_read(f: FileHeader, s: Seq<u8>, off: int) -> bool {
    let kl = s[off];
    &&& f.kind == kl / 16
    &&& f.len == kl % 16
    &&& forall|i: int| 0 <= i < 16 ==> f.name@[i] == (if i < kl % 16 { s[off + 1 + i] } else { 0u8 })
    &&& f.file_type == s[off + 16]
    &&& f.inode == le16(s, off + 17)
    &&& f.blocks == le16(s, off + 19)
    &&& f.size == le24(s, off + 21)
    &&& f.date == le16(s, off + 24)
    &&& f.time == le16(s, off + 26)
    &&& f.cur_ver == s[off + 28]
    &&& f.min_ver == s[off + 29]
    &&& f.access == s[off + 30]
    &&& f.aux == le16(s, off + 31)
    &&& f.mod_date == le16(s, off + 33)
    &&& f.mod_time == le16(s, off + 35)
    &&& f.dir_block == le16(s, off + 37)
}

/// A file entry that survives a write and a read unchanged: kind and length
/// fit their nibbles, the unused name bytes are zero and the size fits 24 bits.
pub open spec fn file_header_storable(f: FileHeader) -> bool {
    &&& f.kind < 16
    &&& f.len < 16
    &&& forall|i: int| f.len <= i < 16 ==> f.name@[i] == 0
    &&& f.size < 0x100_0000
}

/// Read a `FileHeader` from `image` at byte offset `off`.
pub fn get_file_header(image: &[u8], off: usize) -> (f: FileHeader)
    requires
        off + 39 <= image.len(),
    ensures
        file_header_read(f, image@, off as int),
{
    let kind_len = image[off];
    let len = kind_len % 16;
    let mut name = [0u8; 16];
    let mut i: usize = 0;
    while i < len as usize
        invariant
            i <= len,
            len < 16,
            off + 39 <= image.len(),
            forall|k: int| 0 <= k < 16 ==> name@[k] == (if k < i { image@[off + 1 + k] } else { 0u8 }),
        decreases len - i,
    {
        name[i] = image[off + 1 + i];
        i = i + 1;
    }
    FileHeader {
        kind: kind_len / 16,
        len,
        name,
        file_type: image[off + 16],
        inode: get_u16(image, off + 17),
        blocks: get_u16(image, off + 19),
        size: get_u24(image, off + 21),
        date: get_u16(image, off + 24),
        time: get_u16(image, off + 26),
        cur_ver: image[off + 28],
        min_ver: image[off + 29],
        access: image[off + 30],
        aux: get_u16(image, off + 31),
        mod_date: get_u16(image, off + 33),
        mod_time: get_u16(image, off + 35),
        dir_block: get_u16(image, off + 37),
    }
}

/// Write a `FileHeader` into `image` at byte offset `off`.
pub fn put_file_header(image: &mut [u8], off: usize, f: &FileHeader)
    requires
        off + 39 <= old(image).len(),
        f.len <= 16,
    ensures
        final(image)@ == write_file_header(old(image)@, *f, off as int),
{
    let ghost s0 = image@;
    image[off] = (f.kind % 16) * 16 + f.len % 16;
    let mut i: usize = 0;
    while i < f.len as usize
        invariant
            i <= f.len,
            f.len <= 16,
            off + 39 <= image.len(),
            image@.len() == s0.len(),
            forall|j: int|
                0 <= j < s0.len() ==> image@[j] == (if j == off {
                    fh_byte(*f, 0)
                } else if off + 1 <= j < off + 1 + i {
                    f.name@[j - off - 1]
                } else {
                    s0[j]
                }),
        decreases f.len - i,
    {
        image[off + 1 + i] = f.name[i];
        i = i + 1;
    }
    image[off + 16] = f.file_type;
    put_u16(image, off + 17, f.inode);
    put_u16(image, off + 19, f.blocks);
    put_u24(image, off + 21, f.size);
    put_u16(image, off + 24, f.date);
    put_u16(image, off + 26, f.time);
    image[off + 28] = f.cur_ver;
    image[off + 29] = f.min_ver;
    image[off + 30] = f.access;
    put_u16(image, off + 31, f.aux);
    put_u16(image, off + 33, f.mod_date);
    put_u16(image, off + 35, f.mod_time);
    put_u16(image, off + 37, f.dir_block);
    assert(image@ =~= write_file_header(s0, *f, off as int));
}

/// Reading a file entry back from where it was written gives the entry.
pub proof fn lemma_file_header_roundtrip(s: Seq<u8>, f: FileHeader, off: int)
    requires
        file_header_storable(f),
        0 <= off,
        off + 39 <= s.len(),
    ensures
        file_header_read(f, write_file_header(s, f, off), off),
{
    let w = write_file_header(s, f, off);
    assert(w[off] == kind_len_byte(f.kind, f.len));
    assert(w[off] / 16 == f.kind && w[off] % 16 == f.len);
    assert forall|i: int| 0 <= i < 16 implies f.name@[i] == (if i < w[off] % 16 {
        w[off + 1 + i]
    } else {
        0u8
    }) by {
        if i < f.len {
            assert(w[off + 1 + i] == fh_byte(f, 1 + i));
        }
    }
    let v = f.size;
    assert(v == v % 256 + 256 * ((v / 256) % 256) + 65536 * ((v / 65536) % 256)) by (nonlinear_arith)
        requires v < 0x100_0000;
}

} // verus!
