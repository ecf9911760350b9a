//! Track images in nibble form: building the GCR byte stream of each track
//! from sector images (16- and 13-sector), cutting raw nibble images into
//! tracks, and reading sectors back out of a nibble stream.

use vstd::prelude::*;
use vstd::slice::{slice_subrange, slice_to_vec};
use super::gcr::{
    code44a, code44a_of, code44b, code44b_of, code53, code53_checksum, code53_spec, code62,
    code62_spec, decode44, decode44_of, decode62, decode62_spec, disk_byte_inv,
    lemma_decode44_code44, lemma_decode62_code62,
};

verus! {

/// Tracks on a 5.25" disk.
pub const NUM_TRACKS: usize = 35;
/// Sectors per track, 16-sector format.
pub const SECTORS_PER_TRACK: usize = 16;
/// Sectors per track, 13-sector (DOS 3.2) format.
pub const SECTORS_PER_TRACK_13: usize = 13;
/// Bytes per sector.
pub const SECTOR_SIZE: usize = 256;
/// Size of a 16-sector image (.dsk/.do/.po).
pub const DSK_SIZE: usize = 143360;
/// Bytes per track of a .nib image.
pub const NIB_TRACK_SIZE: usize = 6656;
/// Size of a .nib image.
pub const NIB_SIZE: usize = 232960;
/// Bytes per track of a .nb2 image.
pub const NB2_TRACK_SIZE: usize = 6384;
/// Size of a .nb2 image.
pub const NB2_SIZE: usize = 223440;
/// Size of a 13-sector image (.d13).
pub const D13_SIZE: usize = 116480;
/// Volume number written in every address field.
pub const VOLUME: u8 = 0xFE;

/// DOS 3.3 physical to logical sector skew.
pub open spec fn dos33_skew_spec() -> Seq<u8> {
    seq![0x00u8, 0x07, 0x0E, 0x06, 0x0D, 0x05, 0x0C, 0x04, 0x0B, 0x03, 0x0A, 0x02, 0x09, 0x01, 0x08, 0x0F]
}

/// ProDOS physical to logical sector skew.
pub open spec fn prodos_skew_spec() -> Seq<u8> {
    seq![0x00u8, 0x08, 0x01, 0x09, 0x02, 0x0A, 0x03, 0x0B, 0x04, 0x0C, 0x05, 0x0D, 0x06, 0x0E, 0x07, 0x0F]
}

/// A skew table maps the 16 physical sectors to logical sectors.
pub open spec fn valid_skew(skew: Seq<u8>) -> bool {
    skew.len() == 16 && forall|p: int| 0 <= p < 16 ==> skew[p] < 16
}

/// The DOS 3.3 sector skew table.
pub fn dos33_skew() -> (r: [u8; 16])
    ensures
        r@ == dos33_skew_spec(),
        valid_skew(r@),
{
    let t: [u8; 16] = [
        0x00, 0x07, 0x0E, 0x06, 0x0D, 0x05, 0x0C, 0x04, 0x0B, 0x03, 0x0A, 0x02, 0x09, 0x01, 0x08, 0x0F,
    ];
    assert(t@ == dos33_skew_spec());
    t
}

/// The ProDOS sector skew table.
pub fn prodos_skew() -> (r: [u8; 16])
    ensures
        r@ == prodos_skew_spec(),
        valid_skew(r@),
{
    let t: [u8; 16] = [
        0x00, 0x08, 0x01, 0x09, 0x02, 0x0A, 0x03, 0x0B, 0x04, 0x0C, 0x05, 0x0D, 0x06, 0x0E, 0x07, 0x0F,
    ];
    assert(t@ == prodos_skew_spec());
    t
}

/// `n` copies of byte `b`.
pub open spec fn fill(n: nat, b: u8) -> Seq<u8> {
    Seq::new(n, |i: int| b)
}

/// The 256 bytes of sector `log` of a track image.
pub open spec fn sector_of(data: Seq<u8>, log: int) -> Seq<u8> {
    data.subrange(log * 256, log * 256 + 256)
}

/// An address field: prologue `D5 AA <mark>`, 4-and-4 volume, track, sector
/// and checksum (their XOR), epilogue `DE AA EB`.
pub open spec fn address_field(mark: u8, vol: u8, track: u8, sector: u8) -> Seq<u8> {
    let chk = vol ^ track ^ sector;
    seq![
        0xD5u8, 0xAA, mark,
        code44a_of(vol), code44b_of(vol),
        code44a_of(track), code44b_of(track),
        code44a_of(sector), code44b_of(sector),
        code44a_of(chk), code44b_of(chk),
        0xDE, 0xAA, 0xEB,
    ]
}

/// The nibbles of physical sector `phys` of a 16-sector track: address
/// field, gap, data field holding logical sector `skew[phys]`, gap.
pub open spec fn sector_nibbles(data: Seq<u8>, track: u8, skew: Seq<u8>, phys: int) -> Seq<u8> {
    address_field(0x96, VOLUME, track, phys as u8) + fill(6, 0xFF) + seq![0xD5u8, 0xAA, 0xAD]
        + code62_spec(sector_of(data, skew[phys] as int)) + seq![0xDEu8, 0xAA, 0xEB] + fill(27, 0xFF)
}

/// The nibbles of the first `n` physical sectors of a 16-sector track.
pub open spec fn track_sectors(data: Seq<u8>, track: u8, skew: Seq<u8>, n: int) -> Seq<u8>
    decreases n,
{
    if n <= 0 {
        Seq::empty()
    } else {
        track_sectors(data, track, skew, n - 1) + sector_nibbles(data, track, skew, n - 1)
    }
}

/// The nibble stream of a 16-sector track: a 48-byte sync gap, then the 16
/// physical sectors in order.
pub open spec fn nibblize_track_spec(data: Seq<u8>, track: u8, skew: Seq<u8>) -> Seq<u8> {
    fill(48, 0xFF) + track_sectors(data, track, skew, 16)
}

/// The nibbles of sector `phys` of a 13-sector track: address field with
/// mark B5, gap, 5-and-3 data field of sector `phys` (no skew), gap.
pub open spec fn sector_nibbles_13(data: Seq<u8>, track: u8, phys: int) -> Seq<u8> {
    let s = sector_of(data, phys);
    address_field(0xB5, VOLUME, track, phys as u8) + fill(6, 0xFF) + seq![0xD5u8, 0xAA, 0xAD]
        + code53_spec(s) + seq![code53_checksum(s)] + seq![0xDEu8, 0xAA, 0xEB] + fill(27, 0xFF)
}

/// The nibbles of the first `n` sectors of a 13-sector track.
pub open spec fn track_sectors_13(data: Seq<u8>, track: u8, n: int) -> Seq<u8>
    decreases n,
{
    if n <= 0 {
        Seq::empty()
    } else {
        track_sectors_13(data, track, n - 1) + sector_nibbles_13(data, track, n - 1)
    }
}

/// The nibble stream of a 13-sector track.
pub open spec fn nibblize_track_13_spec(data: Seq<u8>, track: u8) -> Seq<u8> {
    fill(48, 0xFF) + track_sectors_13(data, track, 13)
}

/// Every track built from a 16-sector image is 6384 bytes long, every
/// 13-sector track 5196.
pub proof fn lemma_track_lengths(data: Seq<u8>, track: u8, skew: Seq<u8>, data13: Seq<u8>)
    requires
        valid_skew(skew),
        4096 <= data.len(),
    ensures
        nibblize_track_spec(data, track, skew).len() == 6384,
        nibblize_track_13_spec(data13, track).len() == 5196,
{
    lemma_track_layout(data, track, skew, 0, 0);
    lemma_track_sectors_13_len(data13, track, 13);
}

/// The first `n` sectors of a 13-sector track take `396 * n` bytes.
proof fn lemma_track_sectors_13_len(data: Seq<u8>, track: u8, n: int)
    requires
        0 <= n,
    ensures
        track_sectors_13(data, track, n).len() == 396 * n,
    decreases n,
{
    if n > 0 {
        lemma_track_sectors_13_len(data, track, n - 1);
    }
}

/// Append the bytes of `s`.
fn push_bytes(v: &mut Vec<u8>, s: &[u8])
    ensures
        final(v)@ == old(v)@ + s@,
{
    let mut i: usize = 0;
    while i < s.len()
        invariant
            i <= s.len(),
            v@ == old(v)@ + s@.subrange(0, i as int),
        decreases s.len() - i,
    {
        v.push(s[i]);
        i += 1;
        assert(s@.subrange(0, i as int) == s@.subrange(0, i - 1).push(s@[i - 1]));
    }
    assert(s@.subrange(0, s.len() as int) == s@);
}

/// Append `n` copies of `b`.
fn push_fill(v: &mut Vec<u8>, b: u8, n: usize)
    ensures
        final(v)@ == old(v)@ + fill(n as nat, b),
{
    let mut i: usize = 0;
    while i < n
        invariant
            i <= n,
            v@ == old(v)@ + fill(i as nat, b),
        decreases n - i,
    {
        v.push(b);
        i += 1;
        assert(fill(i as nat, b) == fill((i - 1) as nat, b).push(b));
    }
}

/// Append an address field.
fn push_address_field(v: &mut Vec<u8>, mark: u8, vol: u8, track: u8, sector: u8)
    ensures
        final(v)@ == old(v)@ + address_field(mark, vol, track, sector),
{
    let chk = vol ^ track ^ sector;
    let field: [u8; 14] = [
        0xD5, 0xAA, mark,
        code44a(vol), code44b(vol),
        code44a(track), code44b(track),
        code44a(sector), code44b(sector),
        code44a(chk), code44b(chk),
        0xDE, 0xAA, 0xEB,
    ];
    assert(field@ == address_field(mark, vol, track, sector));
    push_bytes(v, &field);
}

/// Copy sector `log` of a track image into a 256-byte buffer.
fn copy_sector(track_data: &[u8], log: usize) -> (r: [u8; 256])
    requires
        log * 256 + 256 <= track_data.len(),
    ensures
        r@ == sector_of(track_data@, log as int),
{
    let mut sector = [0u8; 256];
    let off = log * SECTOR_SIZE;
    let mut i: usize = 0;
    while i < 256
        invariant
            i <= 256,
            off == log * 256,
            off + 256 <= track_data.len(),
            sector@.len() == 256,
            forall|k: int| 0 <= k < i ==> sector@[k] == track_data@[off + k],
        decreases 256 - i,
    {
        sector.set(i, track_data[off + i]);
        i += 1;
    }
    assert(sector@ == sector_of(track_data@, log as int));
    sector
}

/// Nibblize one 16-sector track: physical sector `p` carries logical
/// sector `skew[p]` of `track_data`.
pub fn nibblize_track(track_data: &[u8], track_num: u8, skew: &[u8; 16]) -> (nibs: Vec<u8>)
    requires
        valid_skew(skew@),
        4096 <= track_data.len(),
    ensures
        nibs@ == nibblize_track_spec(track_data@, track_num, skew@),
{
    let mut nibs: Vec<u8> = Vec::with_capacity(6656);
    push_fill(&mut nibs, 0xFF, 48);
    let mut phys: u8 = 0;
    while phys < 16
        invariant
            phys <= 16,
            valid_skew(skew@),
            4096 <= track_data.len(),
            nibs@ == fill(48, 0xFF) + track_sectors(track_data@, track_num, skew@, phys as int),
        decreases 16 - phys,
    {
        let ghost before = nibs@;
        let log = skew[phys as usize] as usize;
        let sector = copy_sector(track_data, log);
        push_address_field(&mut nibs, 0x96, VOLUME, track_num, phys);
        push_fill(&mut nibs, 0xFF, 6);
        push_bytes(&mut nibs, &[0xD5, 0xAA, 0xAD]);
        let data = code62(&sector);
        push_bytes(&mut nibs, &data);
        push_bytes(&mut nibs, &[0xDE, 0xAA, 0xEB]);
        push_fill(&mut nibs, 0xFF, 27);
        proof {
            let tail = seq![0xDEu8, 0xAA, 0xEB];
            let mark = seq![0xD5u8, 0xAA, 0xAD];
            assert(nibs@ == before + sector_nibbles(track_data@, track_num, skew@, phys as int));
        }
        phys += 1;
    }
    nibs
}

/// Nibblize one 13-sector track (no skew) with 5-and-3 data fields.
pub fn nibblize_track_13(track_data: &[u8], track_num: u8) -> (nibs: Vec<u8>)
    requires
        13 * 256 <= track_data.len(),
    ensures
        nibs@ == nibblize_track_13_spec(track_data@, track_num),
{
    let mut nibs: Vec<u8> = Vec::with_capacity(6656);
    push_fill(&mut nibs, 0xFF, 48);
    let mut phys: u8 = 0;
    while phys < 13
        invariant
            phys <= 13,
            13 * 256 <= track_data.len(),
            nibs@ == fill(48, 0xFF) + track_sectors_13(track_data@, track_num, phys as int),
        decreases 13 - phys,
    {
        let ghost before = nibs@;
        let sector = copy_sector(track_data, phys as usize);
        push_address_field(&mut nibs, 0xB5, VOLUME, track_num, phys);
        push_fill(&mut nibs, 0xFF, 6);
        push_bytes(&mut nibs, &[0xD5, 0xAA, 0xAD]);
        let (encoded, checksum) = code53(&sector);
        push_bytes(&mut nibs, &encoded);
        nibs.push(checksum);
        push_bytes(&mut nibs, &[0xDE, 0xAA, 0xEB]);
        push_fill(&mut nibs, 0xFF, 27);
        proof {
            assert(nibs@ == before + sector_nibbles_13(track_data@, track_num, phys as int));
        }
        phys += 1;
    }
    nibs
}

/// The tracks of a 16-sector image: `None` when the image is shorter than
/// 35 tracks, else the nibble stream of each of the 35 tracks.
pub fn nibblize_image(data: &[u8], skew: &[u8; 16]) -> (r: Option<Vec<Vec<u8>>>)
    requires
        valid_skew(skew@),
    ensures
        r is None <==> data.len() < DSK_SIZE,
        r is Some ==> r->0@.len() == NUM_TRACKS && forall|t: int|
            0 <= t < 35 ==> (#[trigger] r->0@[t])@ == nibblize_track_spec(
                data@.subrange(t * 4096, data@.len() as int),
                t as u8,
                skew@,
            ),
{
    if data.len() < DSK_SIZE {
        return None;
    }
    let mut tracks: Vec<Vec<u8>> = Vec::with_capacity(NUM_TRACKS);
    let mut t: usize = 0;
    while t < NUM_TRACKS
        invariant
            t <= 35,
            DSK_SIZE <= data.len(),
            valid_skew(skew@),
            tracks@.len() == t,
            forall|k: int|
                0 <= k < t ==> (#[trigger] tracks@[k])@ == nibblize_track_spec(
                    data@.subrange(k * 4096, data@.len() as int),
                    k as u8,
                    skew@,
                ),
        decreases 35 - t,
    {
        let base = t * SECTORS_PER_TRACK * SECTOR_SIZE;
        let rest = slice_subrange(data, base, data.len());
        tracks.push(nibblize_track(rest, t as u8, skew));
        t += 1;
    }
    Some(tracks)
}

/// The tracks of a 13-sector image: `None` when the image is shorter than
/// 35 tracks, else the nibble stream of each track.
pub fn nibblize_image_13(data: &[u8]) -> (r: Option<Vec<Vec<u8>>>)
    ensures
        r is None <==> data.len() < D13_SIZE,
        r is Some ==> r->0@.len() == NUM_TRACKS && forall|t: int|
            0 <= t < 35 ==> (#[trigger] r->0@[t])@ == nibblize_track_13_spec(
                data@.subrange(t * 3328, t * 3328 + 3328),
                t as u8,
            ),
{
    if data.len() < D13_SIZE {
        return None;
    }
    let mut tracks: Vec<Vec<u8>> = Vec::with_capacity(NUM_TRACKS);
    let mut t: usize = 0;
    while t < NUM_TRACKS
        invariant
            t <= 35,
            D13_SIZE <= data.len(),
            tracks@.len() == t,
            forall|k: int|
                0 <= k < t ==> (#[trigger] tracks@[k])@ == nibblize_track_13_spec(
                    data@.subrange(k * 3328, k * 3328 + 3328),
                    k as u8,
                ),
        decreases 35 - t,
    {
        let base = t * SECTORS_PER_TRACK_13 * SECTOR_SIZE;
        let part = slice_subrange(data, base, base + SECTORS_PER_TRACK_13 * SECTOR_SIZE);
        tracks.push(nibblize_track_13(part, t as u8));
        t += 1;
    }
    Some(tracks)
}

/// Cut a raw nibble image into 35 tracks of `track_size` bytes: `None` when
/// the image is shorter than that.
pub fn load_nib_sized(data: &[u8], track_size: usize) -> (r: Option<Vec<Vec<u8>>>)
    requires
        35 * track_size <= usize::MAX,
    ensures
        r is None <==> data.len() < 35 * track_size,
        r is Some ==> r->0@.len() == NUM_TRACKS && forall|t: int|
            0 <= t < 35 ==> (#[trigger] r->0@[t])@ == data@.subrange(
                t * track_size,
                (t + 1) * track_size,
            ),
{
    let expected = NUM_TRACKS * track_size;
    if data.len() < expected {
        return None;
    }
    let mut tracks: Vec<Vec<u8>> = Vec::with_capacity(NUM_TRACKS);
    let mut t: usize = 0;
    while t < NUM_TRACKS
        invariant
            t <= 35,
            expected == 35 * track_size,
            expected <= data.len(),
            tracks@.len() == t,
            forall|k: int|
                0 <= k < t ==> (#[trigger] tracks@[k])@ == data@.subrange(
                    k * track_size,
                    (k + 1) * track_size,
                ),
        decreases 35 - t,
    {
        assert(t * track_size + track_size <= 35 * track_size) by (nonlinear_arith)
            requires
                t < 35,
        ;
        assert((t + 1) * track_size == t * track_size + track_size) by (nonlinear_arith);
        let start = t * track_size;
        tracks.push(slice_to_vec(slice_subrange(data, start, start + track_size)));
        t += 1;
    }
    Some(tracks)
}

/// Cut a .nib image into its 35 tracks of 6656 bytes.
pub fn load_nib(data: &[u8]) -> (r: Option<Vec<Vec<u8>>>)
    ensures
        r is None <==> data.len() < NIB_SIZE,
        r is Some ==> r->0@.len() == NUM_TRACKS && forall|t: int|
            0 <= t < 35 ==> (#[trigger] r->0@[t])@ == data@.subrange(t * 6656, (t + 1) * 6656),
{
    load_nib_sized(data, NIB_TRACK_SIZE)
}

// ── Reading sectors back out of a nibble stream ───────────────────────────

/// Where the address field of physical sector `p` starts in a track built
/// by `nibblize_track`.
pub open spec fn addr_pos(p: int) -> int {
    48 + 396 * p
}

/// Logical sector `log` is carried by one of the first `n` physical
/// sectors.
pub open spec fn covered(skew: Seq<u8>, n: int, log: int) -> bool {
    exists|p: int| 0 <= p < n && skew[p] as int == log
}

/// The 16-sector track images that nibblize to `nibs`.
pub open spec fn nibblizes_to(data: Seq<u8>, track: u8, skew: Seq<u8>, nibs: Seq<u8>) -> bool {
    4096 <= data.len() && nibs == nibblize_track_spec(data, track, skew)
}

/// Byte `k` of the nibbles of physical sector `p`.
proof fn lemma_sector_nibbles_at(data: Seq<u8>, track: u8, skew: Seq<u8>, p: int)
    requires
        0 <= p < 16,
        valid_skew(skew),
        4096 <= data.len(),
    ensures
        ({
            let sn = sector_nibbles(data, track, skew, p);
            let g = code62_spec(sector_of(data, skew[p] as int));
            &&& sn.len() == 396
            &&& sn[0] == 0xD5 && sn[1] == 0xAA && sn[2] == 0x96
            &&& sn[3] == code44a_of(VOLUME) && sn[4] == code44b_of(VOLUME)
            &&& sn[5] == code44a_of(track) && sn[6] == code44b_of(track)
            &&& sn[7] == code44a_of(p as u8) && sn[8] == code44b_of(p as u8)
            &&& forall|k: int| 3 <= k < 20 ==> sn[k] != 0xD5
            &&& sn[20] == 0xD5 && sn[21] == 0xAA && sn[22] == 0xAD
            &&& forall|k: int| 0 <= k < 343 ==> sn[23 + k] == g[k]
            &&& forall|k: int| 366 <= k < 396 ==> sn[k] != 0xD5
        }),
{
    let chk = VOLUME ^ track ^ (p as u8);
    lemma_decode44_code44(VOLUME);
    lemma_decode44_code44(track);
    lemma_decode44_code44(p as u8);
    lemma_decode44_code44(chk);
}

/// The nibbles of the first `n` sectors: `396 * n` bytes, sector `m` at
/// `396 * m`.
proof fn lemma_track_sectors_at(data: Seq<u8>, track: u8, skew: Seq<u8>, n: int, m: int, k: int)
    requires
        0 <= m < n <= 16,
        0 <= k < 396,
        valid_skew(skew),
        4096 <= data.len(),
    ensures
        track_sectors(data, track, skew, n).len() == 396 * n,
        track_sectors(data, track, skew, n)[396 * m + k] == sector_nibbles(data, track, skew, m)[k],
    decreases n,
{
    lemma_sector_nibbles_at(data, track, skew, n - 1);
    if n == 1 {
        assert(track_sectors(data, track, skew, 0).len() == 0);
    } else {
        if m < n - 1 {
            lemma_track_sectors_at(data, track, skew, n - 1, m, k);
        } else {
            lemma_track_sectors_at(data, track, skew, n - 1, 0, 0);
        }
    }
}

/// The layout of a nibblized track: 6384 bytes, 0xFF sync, sector `p` at
/// `addr_pos(p)`.
proof fn lemma_track_layout(data: Seq<u8>, track: u8, skew: Seq<u8>, p: int, k: int)
    requires
        0 <= p < 16,
        0 <= k < 396,
        valid_skew(skew),
        4096 <= data.len(),
    ensures
        nibblize_track_spec(data, track, skew).len() == 6384,
        nibblize_track_spec(data, track, skew)[addr_pos(p) + k] == sector_nibbles(
            data,
            track,
            skew,
            p,
        )[k],
        forall|q: int| 0 <= q < 48 ==> nibblize_track_spec(data, track, skew)[q] == 0xFF,
{
    lemma_track_sectors_at(data, track, skew, 16, p, k);
}

/// In a nibblized track, no 0xD5 mark stands between the end of a data
/// field (or the track start) and the next address field.
proof fn lemma_gap_has_no_mark(data: Seq<u8>, track: u8, skew: Seq<u8>, f: int, q: int)
    requires
        0 <= f <= 16,
        valid_skew(skew),
        4096 <= data.len(),
        (if f == 0 { 0 } else { addr_pos(f - 1) + 366 }) <= q < addr_pos(f),
    ensures
        nibblize_track_spec(data, track, skew)[q] != 0xD5,
{
    if f == 0 {
        lemma_track_layout(data, track, skew, 0, 0);
    } else {
        lemma_track_layout(data, track, skew, f - 1, q - addr_pos(f - 1));
        lemma_sector_nibbles_at(data, track, skew, f - 1);
    }
}

/// The first `n` logical sectors' worth of `out`, after the sectors
/// carried by the first `f` physical sectors have been read back from a
/// track built from `data`.
pub open spec fn read_back(out0: Seq<u8>, data: Seq<u8>, skew: Seq<u8>, f: int, j: int) -> u8 {
    if j < 4096 && covered(skew, f, j / 256) {
        data[j]
    } else {
        out0[j]
    }
}

/// In a track built from `data`, the address field of physical sector `f`
/// is the first mark at or after the end of the previous data field: its
/// bytes decode to this track and sector `f`, its data mark is the first
/// one after it, 20 bytes on, and the data field holds the 6-and-2 code of
/// logical sector `skew[f]`.
proof fn lemma_address_field(data: Seq<u8>, track: u8, skew: Seq<u8>, f: int, q: int)
    requires
        0 <= f < 16,
        valid_skew(skew),
        4096 <= data.len(),
        (if f == 0 { 0 } else { addr_pos(f - 1) + 366 }) <= q <= addr_pos(f),
        nibblize_track_spec(data, track, skew)[q] == 0xD5,
    ensures
        ({
            let nibs = nibblize_track_spec(data, track, skew);
            let a = addr_pos(f);
            &&& q == a
            &&& nibs[a + 1] == 0xAA && nibs[a + 2] == 0x96
            &&& decode44_of(nibs[a + 5], nibs[a + 6]) == track
            &&& decode44_of(nibs[a + 7], nibs[a + 8]) == f as u8
            &&& forall|k: int| a + 11 <= k < a + 20 ==> nibs[k] != 0xD5
            &&& nibs[a + 20] == 0xD5 && nibs[a + 21] == 0xAA && nibs[a + 22] == 0xAD
            &&& forall|t: int|
                0 <= t < 343 ==> nibs[a + 23 + t] == code62_spec(sector_of(data, skew[f] as int))[t]
        }),
{
    let nibs = nibblize_track_spec(data, track, skew);
    let a = addr_pos(f);
    if q < a {
        lemma_gap_has_no_mark(data, track, skew, f, q);
    }
    lemma_sector_nibbles_at(data, track, skew, f);
    lemma_decode44_code44(track);
    lemma_decode44_code44(f as u8);
    assert forall|k: int| 0 <= k < 396 implies nibs[a + k] == sector_nibbles(data, track, skew, f)[k] by {
        lemma_track_layout(data, track, skew, f, k);
    }
    let sn = sector_nibbles(data, track, skew, f);
    lemma_track_layout(data, track, skew, f, 0);
    assert(nibs[a + 1] == sn[1] && nibs[a + 2] == sn[2]);
    assert(nibs[a + 5] == sn[5] && nibs[a + 6] == sn[6]);
    assert(nibs[a + 7] == sn[7] && nibs[a + 8] == sn[8]);
    assert(nibs[a + 20] == sn[20] && nibs[a + 21] == sn[21] && nibs[a + 22] == sn[22]);
    assert forall|k: int| a + 11 <= k < a + 20 implies nibs[k] != 0xD5 by {
        assert(nibs[a + (k - a)] == sn[k - a]);
    }
    assert forall|t: int| 0 <= t < 343 implies nibs[a + 23 + t] == code62_spec(
        sector_of(data, skew[f] as int),
    )[t] by {
        assert(nibs[a + (23 + t)] == sector_nibbles(data, track, skew, f)[23 + t]);
    }
}

/// Bytes `i..i + 3` are the mark `D5 AA <third>`.
pub open spec fn mark_at(buf: Seq<u8>, i: int, third: u8) -> bool {
    buf[i] == 0xD5 && buf[i + 1] == 0xAA && buf[i + 2] == third
}

/// The position just past the first data mark `D5 AA AD` that starts in
/// `buf[q..end]`, or `None`.
pub open spec fn first_data_mark(buf: Seq<u8>, q: int, end: int) -> Option<int>
    decreases end - q,
{
    if q >= end {
        None
    } else if mark_at(buf, q, 0xAD) {
        Some(q + 3)
    } else {
        first_data_mark(buf, q + 1, end)
    }
}

/// `out` with `sector` written at `off`, when all 256 bytes fit.
pub open spec fn put_sector(out: Seq<u8>, off: int, sector: Seq<u8>) -> Seq<u8> {
    if off + 256 <= out.len() {
        Seq::new(out.len(), |t: int| if off <= t < off + 256 { sector[t - off] } else { out[t] })
    } else {
        out
    }
}

/// The scan of the ring `buf` (a track of `n` nibbles written out twice)
/// for the sectors of track `track`, from position `i` with `found`
/// sectors decoded so far, over image `out`: while fewer than 16 sectors
/// are found and the scan is still in the first copy, an address field
/// `D5 AA 96` whose track is `track` and sector below 16 is followed, within
/// 100 bytes, by a data field `D5 AA AD`; its 343 bytes, when they decode,
/// are the sector, which goes to logical sector `skew[sector]` of `out`.
/// Anything else is skipped byte by byte.
#[verifier::opaque]
pub open spec fn scan_track(
    buf: Seq<u8>,
    n: int,
    track: u8,
    skew: Seq<u8>,
    i: int,
    found: int,
    out: Seq<u8>,
) -> Seq<u8>
    decreases buf.len() + 16 - i - found,
{
    if !(0 <= i < n && n <= buf.len() && i + 2 < buf.len() && 0 <= found < 16) {
        out
    } else if mark_at(buf, i, 0x96) {
        let j = i + 3;
        if buf.len() - j < 8 {
            out
        } else {
            let trk = decode44_of(buf[j + 2], buf[j + 3]);
            let sec = decode44_of(buf[j + 4], buf[j + 5]);
            let j2 = j + 8;
            if trk != track || sec >= 16 {
                scan_track(buf, n, track, skew, j2, found, out)
            } else {
                let search_end = if buf.len() >= 344 {
                    if j2 + 100 < buf.len() - 344 { j2 + 100 } else { buf.len() - 344 }
                } else {
                    0
                };
                match first_data_mark(buf, j2, search_end) {
                    None => scan_track(buf, n, track, skew, if j2 < search_end { search_end } else { j2 }, found, out),
                    Some(k) => if buf.len() - k < 343 || k < j2 {
                        out
                    } else {
                        match decode62_spec(buf.subrange(k, k + 343)) {
                            Some(sector) => scan_track(
                                buf,
                                n,
                                track,
                                skew,
                                k + 343,
                                found + 1,
                                put_sector(out, skew[sec as int] * 256, sector),
                            ),
                            None => scan_track(buf, n, track, skew, k + 343, found, out),
                        }
                    },
                }
            }
        }
    } else {
        scan_track(buf, n, track, skew, i + 1, found, out)
    }
}

/// What `denibblize_track` makes of image `out` from the nibbles `nibs`
/// of track `track`: the scan of the ring from its start.
pub open spec fn track_scanned(nibs: Seq<u8>, track: u8, skew: Seq<u8>, out: Seq<u8>) -> Seq<u8> {
    if nibs.len() < 10 {
        out
    } else {
        scan_track(nibs + nibs, nibs.len() as int, track, skew, 0, 0, out)
    }
}

/// `find_data_mark`'s answer is the first data mark of the range.
proof fn lemma_first_data_mark(buf: Seq<u8>, q: int, end: int, r: Option<int>)
    requires
        match r {
            Some(k) => q <= k - 3 < end && mark_at(buf, k - 3, 0xAD) && forall|p: int|
                q <= p < k - 3 ==> !mark_at(buf, p, 0xAD),
            None => forall|p: int| q <= p < end ==> !mark_at(buf, p, 0xAD),
        },
    ensures
        first_data_mark(buf, q, end) == r,
    decreases end - q,
{
    if q < end {
        match r {
            Some(k) => {
                if k - 3 > q {
                    lemma_first_data_mark(buf, q + 1, end, r);
                }
            },
            None => {
                lemma_first_data_mark(buf, q + 1, end, r);
            },
        }
    }
}

/// Search `buf[i..search_end]` for a data mark `D5 AA AD`: the position
/// just past the first one, or `None`.
fn find_data_mark(buf: &[u8], i: usize, search_end: usize) -> (r: Option<usize>)
    requires
        search_end <= i || search_end + 2 < buf.len(),
    ensures
        match r {
            Some(k) => 3 <= k && i <= k - 3 < search_end && mark_at(buf@, k - 3, 0xAD) && forall|
                q: int,
            |
                i <= q < k - 3 ==> !mark_at(buf@, q, 0xAD),
            None => forall|q: int| i <= q < search_end ==> !mark_at(buf@, q, 0xAD),
        },
{
    let mut j = i;
    while j < search_end
        invariant
            i <= j,
            search_end <= i || search_end + 2 < buf.len(),
            forall|q: int| i <= q < j ==> !mark_at(buf@, q, 0xAD),
        decreases search_end - j,
    {
        if buf[j] == 0xD5 && buf[j + 1] == 0xAA && buf[j + 2] == 0xAD {
            return Some(j + 3);
        }
        j += 1;
    }
    None
}

/// The 343 bytes at `i`.
fn copy_gcr(buf: &[u8], i: usize) -> (g: [u8; 343])
    requires
        i + 343 <= buf.len(),
    ensures
        forall|t: int| 0 <= t < 343 ==> g@[t] == buf@[i + t],
{
    let mut gcr = [0u8; 343];
    let mut k: usize = 0;
    while k < 343
        invariant
            k <= 343,
            i + 343 <= buf.len(),
            gcr@.len() == 343,
            forall|t: int| 0 <= t < k ==> gcr@[t] == buf@[i + t],
        decreases 343 - k,
    {
        gcr.set(k, buf[i + k]);
        k += 1;
    }
    gcr
}

/// Overwrite `out[off..off + 256]` with a sector.
fn store_sector(out: &mut [u8], off: usize, sector: &[u8; 256])
    requires
        off + 256 <= old(out)@.len(),
    ensures
        final(out)@.len() == old(out)@.len(),
        forall|t: int|
            0 <= t < old(out)@.len() ==> final(out)@[t] == (if off <= t < off + 256 {
                sector@[t - off]
            } else {
                old(out)@[t]
            }),
{
    let ghost before = out@;
    let mut k: usize = 0;
    while k < 256
        invariant
            k <= 256,
            off + 256 <= out.len(),
            out@.len() == before.len(),
            before == old(out)@,
            sector@.len() == 256,
            forall|t: int|
                0 <= t < out@.len() ==> out@[t] == (if off <= t < off + k {
                    sector@[t - off]
                } else {
                    before[t]
                }),
        decreases 256 - k,
    {
        out[off + k] = sector[k];
        k += 1;
    }
}

/// Storing the sector carried by physical sector `f` extends what has been
/// read back by one physical sector.
proof fn lemma_read_back_step(
    out0: Seq<u8>,
    data: Seq<u8>,
    skew: Seq<u8>,
    f: int,
    before: Seq<u8>,
    after: Seq<u8>,
)
    requires
        0 <= f < 16,
        valid_skew(skew),
        4096 <= data.len(),
        4096 <= out0.len(),
        before.len() == out0.len(),
        after.len() == out0.len(),
        forall|j: int| 0 <= j < 4096 ==> before[j] == read_back(out0, data, skew, f, j),
        forall|t: int|
            0 <= t < after.len() ==> after[t] == (if skew[f] * 256 <= t < skew[f] * 256 + 256 {
                sector_of(data, skew[f] as int)[t - skew[f] * 256]
            } else {
                before[t]
            }),
    ensures
        forall|j: int| 0 <= j < 4096 ==> after[j] == read_back(out0, data, skew, f + 1, j),
{
    assert forall|j: int| 0 <= j < 4096 implies after[j] == read_back(out0, data, skew, f + 1, j) by {
        let log = skew[f] as int;
        if log * 256 <= j < log * 256 + 256 {
            assert(j / 256 == log);
            assert(covered(skew, f + 1, j / 256));
        } else {
            assert(j / 256 != log);
            if covered(skew, f + 1, j / 256) {
                let p = choose|p: int| 0 <= p < f + 1 && skew[p] as int == j / 256;
                assert(p != f);
                assert(covered(skew, f, j / 256));
            }
            if covered(skew, f, j / 256) {
                let p = choose|p: int| 0 <= p < f && skew[p] as int == j / 256;
                assert(covered(skew, f + 1, j / 256));
            }
        }
    }
}

#[verifier::rlimit(100)]
#[verifier::spinoff_prover]
/// Decode a track's nibble stream and write its 16 sectors into `out`
/// (logical sector `skew[p]` for physical sector `p`). The stream is read
/// as a ring: an address field `D5 AA 96` for this track, then a data field
/// `D5 AA AD` within 100 bytes, whose 343 bytes must decode.
pub fn denibblize_track(nibs: &[u8], track_num: u8, skew: &[u8; 16], out: &mut [u8])
    requires
        valid_skew(skew@),
    ensures
        final(out)@.len() == old(out)@.len(),
        forall|j: int| 4096 <= j < old(out)@.len() ==> final(out)@[j] == old(out)@[j],
        final(out)@ == track_scanned(nibs@, track_num, skew@, old(out)@),
        forall|data: Seq<u8>|
            #![trigger nibblize_track_spec(data, track_num, skew@)]
            nibblizes_to(data, track_num, skew@, nibs@) && 4096 <= old(out)@.len() ==> forall|
                j: int,
            |
                0 <= j < 4096 ==> final(out)@[j] == read_back(old(out)@, data, skew@, 16, j),
{
    let ghost out0 = out@;
    let ghost rt = exists|data: Seq<u8>| nibblizes_to(data, track_num, skew@, nibs@);
    let ghost data = choose|data: Seq<u8>| nibblizes_to(data, track_num, skew@, nibs@);
    let inv = disk_byte_inv();
    let n = nibs.len();
    if n < 10 {
        proof {
            if rt {
                lemma_track_layout(data, track_num, skew@, 0, 0);
            }
        }
        return;
    }
    let mut buf = slice_to_vec(nibs);
    push_bytes(&mut buf, nibs);
    let buf_len = buf.len();
    let mut i: usize = 0;
    let mut sectors_found: u32 = 0;
    let ghost target = scan_track(buf@, n as int, track_num, skew@, 0, 0, out@);
    let ghost mut done = false;
    proof {
        if rt {
            lemma_track_layout(data, track_num, skew@, 0, 0);
        }
    }
    while i < n && sectors_found < 16
        invariant_except_break
            !done,
        invariant
            10 <= n == nibs@.len(),
            buf@ == nibs@ + nibs@,
            buf_len == 2 * n,
            valid_skew(skew@),
            forall|b: u8| inv@[b as int] == super::gcr::disk_value_of(b),
            out@.len() == out0.len(),
            forall|j: int| 4096 <= j < out0.len() ==> out@[j] == out0[j],
            sectors_found <= 16,
            i <= buf_len,
            target == track_scanned(nibs@, track_num, skew@, out0),
            done ==> target == out@,
            !done ==> target == scan_track(buf@, n as int, track_num, skew@, i as int, sectors_found as int, out@),
            rt ==> nibblizes_to(data, track_num, skew@, nibs@),
            rt ==> n == 6384,
            rt ==> (if sectors_found == 0 {
                0
            } else {
                addr_pos(sectors_found - 1) + 366
            }) <= i <= addr_pos(sectors_found as int),
            rt && 4096 <= out0.len() ==> forall|j: int|
                0 <= j < 4096 ==> out@[j] == read_back(out0, data, skew@, sectors_found as int, j),
        ensures
            rt ==> sectors_found == 16,
            done ==> target == out@,
            !done ==> !(i < n && sectors_found < 16) && target == scan_track(
                buf@,
                n as int,
                track_num,
                skew@,
                i as int,
                sectors_found as int,
                out@,
            ),
        decreases 2 * n + 16 - i - sectors_found,
    {
        let ghost f = sectors_found as int;
        let ghost i0 = i as int;
        let ghost out_pre = out@;
        if buf[i] == 0xD5 && buf[i + 1] == 0xAA && buf[i + 2] == 0x96 {
            proof {
                if rt {
                    lemma_address_field(data, track_num, skew@, f, i as int);
                }
            }
            let ghost a = i as int;
            i += 3;
            if buf_len - i < 8 {
                assert(target == out@) by {
                    reveal(scan_track);
                }
                proof {
                    done = true;
                }
                break;
            }
            let _vol = decode44(buf[i], buf[i + 1]);
            i += 2;
            let trk = decode44(buf[i], buf[i + 1]);
            i += 2;
            let sec = decode44(buf[i], buf[i + 1]);
            i += 2;
            let _chk = decode44(buf[i], buf[i + 1]);
            i += 2;
            if trk != track_num || sec >= 16 {
                assert(scan_track(buf@, n as int, track_num, skew@, i0, f, out_pre) == scan_track(
                    buf@,
                    n as int,
                    track_num,
                    skew@,
                    i as int,
                    f,
                    out_pre,
                )) by {
                    reveal(scan_track);
                }
                continue;
            }
            let search_end = if buf_len >= 344 {
                if i + 100 < buf_len - 344 {
                    i + 100
                } else {
                    buf_len - 344
                }
            } else {
                0
            };
            let ghost j2 = i as int;
            let found_mark = find_data_mark(buf.as_slice(), i, search_end);
            proof {
                lemma_first_data_mark(buf@, j2, search_end as int, match found_mark {
                    Some(k) => Some(k as int),
                    None => None,
                });
            }
            match found_mark {
                None => {
                    proof {
                        if rt {
                            assert(mark_at(buf@, a + 20, 0xAD));
                        }
                    }
                    if i < search_end {
                        i = search_end;
                    }
                    assert(scan_track(buf@, n as int, track_num, skew@, i0, f, out_pre) == scan_track(
                        buf@,
                        n as int,
                        track_num,
                        skew@,
                        i as int,
                        f,
                        out_pre,
                    )) by {
                        reveal(scan_track);
                    }
                    continue;
                },
                Some(k) => {
                    proof {
                        if rt {
                            assert(k - 3 == a + 20) by {
                                if k - 3 < a + 20 {
                                    assert(buf@[k - 3] == nibs@[k - 3]);
                                }
                                if k - 3 > a + 20 {
                                    assert(mark_at(buf@, a + 20, 0xAD));
                                }
                            }
                        }
                    }
                    i = k;
                },
            }
            if buf_len - i < 343 {
                assert(target == out@) by {
                    reveal(scan_track);
                }
                proof {
                    done = true;
                }
                break;
            }
            let ghost k0 = i as int;
            let gcr = copy_gcr(buf.as_slice(), i);
            assert(gcr@ =~= buf@.subrange(k0, k0 + 343));
            i += 343;
            let decoded = decode62(&gcr, &inv);
            proof {
                if rt {
                    let g = code62_spec(sector_of(data, skew@[f] as int));
                    assert forall|t: int| 0 <= t < 343 implies gcr@[t] == g[t] by {
                        assert(buf@[a + 23 + t] == nibs@[a + 23 + t]);
                    }
                    assert(gcr@ == g);
                    lemma_decode62_code62(sector_of(data, skew@[f] as int));
                }
            }
            if let Some(sector) = decoded {
                let log_sec = skew[sec as usize] as usize;
                let off = log_sec * SECTOR_SIZE;
                let ghost before = out@;
                if off + SECTOR_SIZE <= out.len() {
                    store_sector(out, off, &sector);
                }
                proof {
                    if rt && 4096 <= out0.len() {
                        lemma_read_back_step(out0, data, skew@, f, before, out@);
                    }
                    assert(out@ =~= put_sector(out_pre, skew@[sec as int] * 256, sector@));
                    assert(scan_track(buf@, n as int, track_num, skew@, i0, f, out_pre) == scan_track(
                        buf@,
                        n as int,
                        track_num,
                        skew@,
                        k0 + 343,
                        f + 1,
                        put_sector(out_pre, skew@[sec as int] * 256, sector@),
                    )) by {
                        reveal(scan_track);
                    }
                }
                sectors_found += 1;
            } else {
                assert(scan_track(buf@, n as int, track_num, skew@, i0, f, out_pre) == scan_track(
                    buf@,
                    n as int,
                    track_num,
                    skew@,
                    k0 + 343,
                    f,
                    out_pre,
                )) by {
                    reveal(scan_track);
                }
            }
        } else {
            proof {
                if rt && i as int == addr_pos(f) {
                    lemma_sector_nibbles_at(data, track_num, skew@, f);
                    lemma_track_layout(data, track_num, skew@, f, 0);
                    lemma_track_layout(data, track_num, skew@, f, 1);
                    lemma_track_layout(data, track_num, skew@, f, 2);
                }
            }
            i += 1;
            assert(scan_track(buf@, n as int, track_num, skew@, i0, f, out_pre) == scan_track(
                buf@,
                n as int,
                track_num,
                skew@,
                i as int,
                f,
                out_pre,
            )) by {
                reveal(scan_track);
            }
        }
    }
    proof {
        if !done {
            reveal(scan_track);
        }
        assert(out@ == track_scanned(nibs@, track_num, skew@, out0));
        if rt && 4096 <= out0.len() {
            assert forall|other: Seq<u8>|
                #![trigger nibblize_track_spec(other, track_num, skew@)]
                nibblizes_to(other, track_num, skew@, nibs@) implies forall|j: int|
                0 <= j < 4096 ==> out@[j] == read_back(out0, other, skew@, 16, j) by {
                assert forall|j: int| 0 <= j < 4096 implies out@[j] == read_back(
                    out0,
                    other,
                    skew@,
                    16,
                    j,
                ) by {
                    if covered(skew@, 16, j / 256) {
                        let p = choose|p: int| 0 <= p < 16 && skew@[p] as int == j / 256;
                        lemma_same_sector(data, other, track_num, skew@, p);
                        assert(sector_of(data, j / 256)[j % 256] == data[j]);
                        assert(sector_of(other, j / 256)[j % 256] == other[j]);
                    }
                }
            }
        }
    }
}

/// Two track images that nibblize alike agree on every logical sector the
/// skew carries.
proof fn lemma_same_sector(d1: Seq<u8>, d2: Seq<u8>, track: u8, skew: Seq<u8>, p: int)
    requires
        0 <= p < 16,
        valid_skew(skew),
        4096 <= d1.len(),
        4096 <= d2.len(),
        nibblize_track_spec(d1, track, skew) == nibblize_track_spec(d2, track, skew),
    ensures
        sector_of(d1, skew[p] as int) == sector_of(d2, skew[p] as int),
{
    let log = skew[p] as int;
    lemma_sector_nibbles_at(d1, track, skew, p);
    lemma_sector_nibbles_at(d2, track, skew, p);
    assert forall|t: int| 0 <= t < 343 implies code62_spec(sector_of(d1, log))[t] == code62_spec(
        sector_of(d2, log),
    )[t] by {
        lemma_track_layout(d1, track, skew, p, 23 + t);
        lemma_track_layout(d2, track, skew, p, 23 + t);
    }
    assert(code62_spec(sector_of(d1, log)) == code62_spec(sector_of(d2, log)));
    lemma_decode62_code62(sector_of(d1, log));
    lemma_decode62_code62(sector_of(d2, log));
}

} // verus!
