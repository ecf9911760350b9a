//! WOZ disk images: packed bit-stream tracks with weak (flux) areas, the
//! CRC32 that guards the file, and the parser for WOZ v1 and v2.

use vstd::prelude::*;
use vstd::slice::{slice_subrange, slice_to_vec};

verus! {

// ── Random bits for weak areas ──────────────────────────────────────────────

/// One step of the 32-bit xorshift generator (shifts 13, 17, 5).
pub open spec fn xorshift32(x: u32) -> u32 {
    let a = x ^ (x << 13u32);
    let b = a ^ (a >> 17u32);
    b ^ (b << 5u32)
}

/// A 32-bit xorshift generator: the random bits read from weak areas.
#[derive(Clone)]
pub struct SimpleRng {
    pub state: u32,
}

/// xorshift never reaches the all-zero state from another state.
pub proof fn lemma_xorshift_nonzero(x: u32)
    ensures
        x != 0 ==> xorshift32(x) != 0,
{
    assert(x != 0 ==> xorshift32(x) != 0) by (bit_vector);
}

impl SimpleRng {
    /// A generator seeded with `seed` (a zero seed, which xorshift would
    /// never leave, is replaced by 0xDEADBEEF).
    pub fn new(seed: u32) -> (r: Self)
        ensures
            r.state == (if seed == 0 { 0xDEAD_BEEFu32 } else { seed }),
            r.state != 0,
    {
        Self {
            state: if seed == 0 {
                0xDEAD_BEEF
            } else {
                seed
            },
        }
    }

    /// The next 32-bit value; it becomes the new state.
    pub fn next(&mut self) -> (r: u32)
        ensures
            r == xorshift32(old(self).state),
            final(self).state == r,
            old(self).state != 0 ==> r != 0,
    {
        proof {
            lemma_xorshift_nonzero(self.state);
        }
        let mut x = self.state;
        x ^= x << 13u32;
        x ^= x >> 17u32;
        x ^= x << 5u32;
        self.state = x;
        x
    }

    /// The low bit of the next value.
    pub fn next_bit(&mut self) -> (r: u8)
        ensures
            r == (xorshift32(old(self).state) & 1) as u8,
            final(self).state == xorshift32(old(self).state),
            r < 2,
    {
        let v = self.next();
        assert(v & 1 < 2) by (bit_vector);
        (v & 1) as u8
    }
}

// ── CRC32 (IEEE, reflected) ───────────────────────────────────────────────

/// One bit step of the reflected CRC32 with polynomial 0xEDB88320.
pub open spec fn crc_bit(c: u32) -> u32 {
    if c & 1 != 0 {
        (c >> 1u32) ^ 0xEDB8_8320
    } else {
        c >> 1u32
    }
}

/// `k` bit steps.
pub open spec fn crc_bits(c: u32, k: nat) -> u32
    decreases k,
{
    if k == 0 {
        c
    } else {
        crc_bit(crc_bits(c, (k - 1) as nat))
    }
}

/// The CRC register after the bytes of `s`, starting from `c`.
pub open spec fn crc_update(c: u32, s: Seq<u8>) -> u32
    decreases s.len(),
{
    if s.len() == 0 {
        c
    } else {
        crc_bits(crc_update(c, s.drop_last()) ^ (s.last() as u32), 8)
    }
}

/// The CRC32 (IEEE / zip) of a byte sequence.
pub open spec fn crc32_spec(s: Seq<u8>) -> u32 {
    !crc_update(0xFFFF_FFFF, s)
}

/// Compute the CRC32 of a byte slice (standard IEEE polynomial).
pub fn crc32(data: &[u8]) -> (r: u32)
    ensures
        r == crc32_spec(data@),
{
    let mut crc: u32 = 0xFFFF_FFFF;
    let mut i: usize = 0;
    while i < data.len()
        invariant
            i <= data.len(),
            crc == crc_update(0xFFFF_FFFF, data@.subrange(0, i as int)),
        decreases data.len() - i,
    {
        let b = data[i];
        crc ^= b as u32;
        let ghost start = crc;
        let mut k: u32 = 0;
        while k < 8
            invariant
                k <= 8,
                crc == crc_bits(start, k as nat),
            decreases 8 - k,
        {
            if crc & 1 != 0 {
                crc = (crc >> 1u32) ^ 0xEDB8_8320;
            } else {
                crc >>= 1u32;
            }
            k += 1;
        }
        proof {
            let s = data@.subrange(0, i + 1);
            assert(s.drop_last() == data@.subrange(0, i as int));
            assert(s.last() == b);
        }
        i += 1;
    }
    assert(data@.subrange(0, data.len() as int) == data@);
    !crc
}

// ── Bit-stream tracks ──────────────────────────────────────────────────────

/// Bit `pos` of a packed bit stream (most significant bit of each byte
/// first).
pub open spec fn bit_of(bytes: Seq<u8>, pos: int) -> u8 {
    (bytes[pos / 8] >> ((7 - pos % 8) as u8)) & 1
}

/// A byte with bit `k` (0 = least significant) set or cleared.
pub open spec fn with_bit(b: u8, k: u8, on: bool) -> u8 {
    if on {
        b | (1u8 << k)
    } else {
        b & !(1u8 << k)
    }
}

/// A track's bit stream as plain values: bits, weak mask, bit count and
/// whether it has weak areas.
pub type TrackView = (Seq<u8>, Seq<u8>, u32, bool);

/// The plain values of a track.
pub open spec fn view_of(t: WozTrack) -> TrackView {
    (t.bits@, t.weak_mask@, t.bit_count, t.has_weak_bits)
}

/// A track after bit `pos` is written (see `WozTrack::write_bit`).
pub open spec fn tv_write(v: TrackView, pos: int, val: u8) -> TrackView {
    let (bits, mask, bc, hw) = v;
    if pos < 0 || pos >= bc || pos / 8 >= bits.len() {
        v
    } else {
        let k = (7 - pos % 8) as u8;
        let bits2 = bits.update(pos / 8, with_bit(bits[pos / 8], k, val != 0));
        let mask2 = if hw && pos / 8 < mask.len() {
            mask.update(pos / 8, with_bit(mask[pos / 8], k, false))
        } else {
            mask
        };
        (bits2, mask2, bc, hw)
    }
}

/// What reading bit `pos` of a track gives, and the generator state after
/// (see `WozTrack::read_bit`).
pub open spec fn tv_read(v: TrackView, pos: int, rng: u32) -> (u8, u32) {
    let (bits, mask, bc, hw) = v;
    if 0 <= pos < bc && hw && pos / 8 < mask.len() && bit_of(mask, pos) == 1 {
        ((xorshift32(rng) & 1) as u8, xorshift32(rng))
    } else if 0 <= pos < bc && pos / 8 < bits.len() {
        (bit_of(bits, pos), rng)
    } else {
        (0, rng)
    }
}

/// A single track stored as a packed bitstream (MSB-first within each byte).
#[derive(Clone)]
pub struct WozTrack {
    /// Packed bit stream (MSB-first within each byte).
    pub bits: Vec<u8>,
    /// Number of valid bits in the stream.
    pub bit_count: u32,
    /// Whether this track contains weak/flux bit areas.
    pub has_weak_bits: bool,
    /// 1 = this bit position is a weak bit (randomized on read).
    pub weak_mask: Vec<u8>,
}

impl WozTrack {
    /// Bit `pos` is stored: below the bit count and within the stored bytes.
    pub open spec fn stored(&self, pos: int) -> bool {
        0 <= pos < self.bit_count && pos / 8 < self.bits@.len()
    }

    /// Bit `pos` lies in a weak area.
    pub open spec fn is_weak(&self, pos: int) -> bool {
        self.has_weak_bits && pos / 8 < self.weak_mask@.len() && bit_of(self.weak_mask@, pos) == 1
    }

    /// Read bit `pos`: 0 past the bit count, a random bit in a weak area,
    /// else the stored bit. A bit past the stored bytes (a track whose bit
    /// count exceeds its data) reads as 0.
    pub fn read_bit(&self, pos: u32, rng: &mut SimpleRng) -> (r: u8)
        ensures
            r < 2,
            pos < self.bit_count && self.is_weak(pos as int) ==> r == (xorshift32(old(rng).state)
                & 1) as u8 && final(rng).state == xorshift32(old(rng).state),
            !(pos < self.bit_count && self.is_weak(pos as int)) ==> final(rng).state == old(
                rng,
            ).state && r == (if self.stored(pos as int) {
                bit_of(self.bits@, pos as int)
            } else {
                0
            }),
            (r, final(rng).state) == tv_read(view_of(*self), pos as int, old(rng).state),
    {
        if pos >= self.bit_count {
            return 0;
        }
        let byte_idx = (pos / 8) as usize;
        let bit_idx = 7 - (pos % 8);
        assert(bit_idx == (7 - pos % 8) as u8);
        if self.has_weak_bits && byte_idx < self.weak_mask.len() && (self.weak_mask[byte_idx]
            >> bit_idx) & 1 != 0 {
            let w = self.weak_mask[byte_idx];
            assert((w >> bit_idx) & 1 < 2) by (bit_vector);
            return rng.next_bit();
        }
        if byte_idx >= self.bits.len() {
            return 0;
        }
        let b = self.bits[byte_idx];
        assert((b >> bit_idx) & 1 < 2) by (bit_vector);
        (b >> bit_idx) & 1
    }

    /// Write bit `pos` (set when `val != 0`) and clear its weak flag; bits
    /// past the bit count or the stored bytes are left alone.
    pub fn write_bit(&mut self, pos: u32, val: u8)
        ensures
            final(self).bit_count == old(self).bit_count,
            final(self).has_weak_bits == old(self).has_weak_bits,
            final(self).bits@.len() == old(self).bits@.len(),
            final(self).weak_mask@.len() == old(self).weak_mask@.len(),
            !old(self).stored(pos as int) ==> final(self).bits@ == old(self).bits@,
            old(self).stored(pos as int) ==> final(self).bits@ == old(self).bits@.update(
                (pos / 8) as int,
                with_bit(old(self).bits@[(pos / 8) as int], (7 - pos % 8) as u8, val != 0),
            ),
            old(self).stored(pos as int) && old(self).has_weak_bits && pos / 8 < old(
                self,
            ).weak_mask@.len() ==> final(self).weak_mask@ == old(self).weak_mask@.update(
                (pos / 8) as int,
                with_bit(old(self).weak_mask@[(pos / 8) as int], (7 - pos % 8) as u8, false),
            ),
            !(old(self).stored(pos as int) && old(self).has_weak_bits && pos / 8 < old(
                self,
            ).weak_mask@.len()) ==> final(self).weak_mask@ == old(self).weak_mask@,
            view_of(*final(self)) == tv_write(view_of(*old(self)), pos as int, val),
    {
        if pos >= self.bit_count {
            return;
        }
        let byte_idx = (pos / 8) as usize;
        let bit_idx = 7 - (pos % 8);
        if byte_idx >= self.bits.len() {
            return;
        }
        let k = bit_idx as u8;
        let b = self.bits[byte_idx];
        if val != 0 {
            self.bits.set(byte_idx, b | (1u8 << k));
        } else {
            self.bits.set(byte_idx, b & !(1u8 << k));
        }
        if self.has_weak_bits && byte_idx < self.weak_mask.len() {
            let w = self.weak_mask[byte_idx];
            self.weak_mask.set(byte_idx, w & !(1u8 << k));
        }
    }
}

/// Reading a stored bit right after writing it gives back the value
/// written, without drawing a random bit: writing clears the weak flag.
pub proof fn lemma_tv_write_then_read(v: TrackView, pos: int, val: u8, rng: u32)
    requires
        0 <= pos < v.2,
        pos / 8 < v.0.len(),
    ensures
        tv_read(tv_write(v, pos, val), pos, rng) == ((if val != 0 { 1u8 } else { 0u8 }), rng),
{
    let k = (7 - pos % 8) as u8;
    lemma_bit_write_read(v.0[pos / 8], k, val != 0, k);
    if v.3 && pos / 8 < v.1.len() {
        lemma_bit_write_read(v.1[pos / 8], k, false, k);
    }
}

/// Reading a bit gives back what was last written there: the written bit is
/// stored and no longer weak, and every other bit keeps its value.
pub proof fn lemma_bit_write_read(b: u8, k: u8, on: bool, j: u8)
    requires
        k < 8,
        j < 8,
    ensures
        (with_bit(b, k, on) >> k) & 1 == (if on { 1u8 } else { 0u8 }),
        j != k ==> (with_bit(b, k, on) >> j) & 1 == (b >> j) & 1,
{
    assert(k < 8 ==> (with_bit(b, k, on) >> k) & 1 == (if on { 1u8 } else { 0u8 })) by (bit_vector);
    assert(k < 8 && j < 8 && j != k ==> (with_bit(b, k, on) >> j) & 1 == (b >> j) & 1)
        by (bit_vector);
}

// ── Weak-bit areas ─────────────────────────────────────────────────────────

/// Bytes `s`, `s + 1` and `s + 2` exist and are all zero.
pub open spec fn zero3(b: Seq<u8>, s: int) -> bool {
    0 <= s && s + 3 <= b.len() && b[s] == 0 && b[s + 1] == 0 && b[s + 2] == 0
}

/// Byte `j` is weak: it starts below the bit count and lies in a run of at
/// least three zero bytes.
pub open spec fn weak_byte(b: Seq<u8>, bit_count: u32, j: int) -> bool {
    j * 8 < bit_count && (zero3(b, j - 2) || zero3(b, j - 1) || zero3(b, j))
}

/// The weak mask of a bit stream: 0xFF for each weak byte, 0 elsewhere.
pub open spec fn weak_mask_spec(b: Seq<u8>, bit_count: u32) -> Seq<u8> {
    Seq::new(b.len(), |j: int| if weak_byte(b, bit_count, j) { 0xFFu8 } else { 0u8 })
}

/// The bit stream has at least one weak byte.
pub open spec fn has_weak_spec(b: Seq<u8>, bit_count: u32) -> bool {
    exists|j: int| 0 <= j < b.len() && weak_byte(b, bit_count, j)
}

/// A zero run `[s, e)` bounded by non-zero bytes (or the ends) decides its
/// bytes: they are weak exactly when the run is at least three long.
proof fn lemma_run_weak(b: Seq<u8>, bit_count: u32, s: int, e: int, j: int)
    requires
        0 <= s <= j < e <= b.len(),
        forall|k: int| s <= k < e ==> b[k] == 0,
        s == 0 || b[s - 1] != 0,
        e == b.len() || b[e] != 0,
    ensures
        weak_byte(b, bit_count, j) == (j * 8 < bit_count && e - s >= 3),
{
    if e - s >= 3 {
        if j + 3 <= e {
            assert(zero3(b, j));
        } else if j + 2 <= e && j - 1 >= s {
            assert(zero3(b, j - 1));
        } else {
            assert(zero3(b, j - 2));
        }
    }
}

/// A non-zero byte is never weak.
proof fn lemma_nonzero_not_weak(b: Seq<u8>, bit_count: u32, j: int)
    requires
        0 <= j < b.len(),
        b[j] != 0,
    ensures
        !weak_byte(b, bit_count, j),
{
}

/// Find the weak areas of a bit stream: runs of three or more zero bytes
/// (24 or more zero bits) that start within the bit count. Returns whether
/// there are any, and a mask with 0xFF on each weak byte.
pub fn detect_weak_bits(bits: &[u8], bit_count: u32) -> (r: (bool, Vec<u8>))
    requires
        bits.len() * 8 <= u32::MAX,
    ensures
        r.1@ == weak_mask_spec(bits@, bit_count),
        r.0 == has_weak_spec(bits@, bit_count),
{
    let ghost b = bits@;
    let byte_len = bits.len();
    let mut weak_mask = vec![0u8; byte_len];
    let mut has_any = false;
    let mut run_start: Option<usize> = None;
    let mut i: usize = 0;
    while i < byte_len
        invariant
            i <= byte_len == b.len(),
            b == bits@,
            byte_len * 8 <= u32::MAX,
            weak_mask@.len() == byte_len,
            match run_start {
                Some(s) => {
                    &&& s <= i
                    &&& (s == 0 || b[s - 1] != 0)
                    &&& forall|k: int| s <= k < i ==> b[k] == 0
                    &&& forall|k: int| s <= k < byte_len ==> weak_mask@[k] == 0
                    &&& forall|k: int|
                        0 <= k < s ==> weak_mask@[k] == weak_mask_spec(b, bit_count)[k]
                    &&& has_any == exists|k: int| 0 <= k < s && weak_byte(b, bit_count, k)
                },
                None => {
                    &&& (i == 0 || b[i - 1] != 0)
                    &&& forall|k: int| i <= k < byte_len ==> weak_mask@[k] == 0
                    &&& forall|k: int|
                        0 <= k < i ==> weak_mask@[k] == weak_mask_spec(b, bit_count)[k]
                    &&& has_any == exists|k: int| 0 <= k < i && weak_byte(b, bit_count, k)
                },
            },
        decreases byte_len - i,
    {
        let byte = bits[i];
        if byte == 0x00 {
            if run_start.is_none() {
                run_start = Some(i);
            }
        } else {
            if let Some(start) = run_start {
                let run_len = i - start;
                if run_len >= 3 {
                    mark_weak(&mut weak_mask, &mut has_any, Ghost(b), bit_count, start, i);
                } else {
                    proof {
                        assert forall|k: int| start <= k < i implies !weak_byte(b, bit_count, k) by {
                            lemma_run_weak(b, bit_count, start as int, i as int, k);
                        }
                        assert(has_any == exists|k: int| 0 <= k < i && weak_byte(b, bit_count, k));
                    }
                }
            }
            proof {
                lemma_nonzero_not_weak(b, bit_count, i as int);
                assert(has_any == exists|k: int| 0 <= k < i + 1 && weak_byte(b, bit_count, k)) by {
                    if exists|k: int| 0 <= k < i + 1 && weak_byte(b, bit_count, k) {
                        let k = choose|k: int| 0 <= k < i + 1 && weak_byte(b, bit_count, k);
                        assert(0 <= k < i);
                    }
                }
            }
            run_start = None;
        }
        i += 1;
    }
    if let Some(start) = run_start {
        let run_len = byte_len - start;
        if run_len >= 3 {
            mark_weak(&mut weak_mask, &mut has_any, Ghost(b), bit_count, start, byte_len);
        } else {
            proof {
                assert forall|k: int| start <= k < byte_len implies !weak_byte(b, bit_count, k) by {
                    lemma_run_weak(b, bit_count, start as int, byte_len as int, k);
                }
                assert(has_any == exists|k: int| 0 <= k < byte_len && weak_byte(b, bit_count, k));
            }
        }
    }
    assert(weak_mask@ == weak_mask_spec(b, bit_count));
    (has_any, weak_mask)
}

/// Mark the bytes of the zero run `[start, end)` (three or more long,
/// bounded by non-zero bytes or the ends) that start within the bit count.
fn mark_weak(
    weak_mask: &mut Vec<u8>,
    has_any: &mut bool,
    b: Ghost<Seq<u8>>,
    bit_count: u32,
    start: usize,
    end: usize,
)
    requires
        start + 3 <= end <= b@.len() == old(weak_mask)@.len(),
        b@.len() * 8 <= u32::MAX,
        forall|k: int| start <= k < end ==> b@[k] == 0,
        start == 0 || b@[start - 1] != 0,
        end == b@.len() || b@[end as int] != 0,
        forall|k: int| start <= k < b@.len() ==> old(weak_mask)@[k] == 0,
        *old(has_any) == exists|k: int| 0 <= k < start && weak_byte(b@, bit_count, k),
    ensures
        final(weak_mask)@.len() == old(weak_mask)@.len(),
        forall|k: int|
            0 <= k < final(weak_mask)@.len() ==> final(weak_mask)@[k] == (if start <= k < end {
                weak_mask_spec(b@, bit_count)[k]
            } else {
                old(weak_mask)@[k]
            }),
        *final(has_any) == exists|k: int| 0 <= k < end && weak_byte(b@, bit_count, k),
{
    let ghost b = b@;
    let mut j = start;
    while j < end
        invariant
            start <= j <= end,
            start + 3 <= end <= b.len() == weak_mask@.len(),
            b.len() * 8 <= u32::MAX,
            forall|k: int| start <= k < end ==> b[k] == 0,
            start == 0 || b[start - 1] != 0,
            end == b.len() || b[end as int] != 0,
            old(weak_mask)@.len() == b.len(),
            forall|k: int| start <= k < b.len() ==> old(weak_mask)@[k] == 0,
            forall|k: int|
                0 <= k < weak_mask@.len() ==> weak_mask@[k] == (if start <= k < j {
                    weak_mask_spec(b, bit_count)[k]
                } else {
                    old(weak_mask)@[k]
                }),
            *has_any == exists|k: int| 0 <= k < j && weak_byte(b, bit_count, k),
        decreases end - j,
    {
        proof {
            lemma_run_weak(b, bit_count, start as int, end as int, j as int);
        }
        if (j as u32) * 8 < bit_count {
            weak_mask.set(j, 0xFF);
            *has_any = true;
        } else {
            proof {
                assert forall|k: int| j <= k < end implies !weak_byte(b, bit_count, k) by {
                    lemma_run_weak(b, bit_count, start as int, end as int, k);
                }
            }
        }
        proof {
            assert(*has_any == exists|k: int| 0 <= k < j + 1 && weak_byte(b, bit_count, k)) by {
                if exists|k: int| 0 <= k < j + 1 && weak_byte(b, bit_count, k) {
                    let k = choose|k: int| 0 <= k < j + 1 && weak_byte(b, bit_count, k);
                    if k == j {
                    } else {
                        assert(0 <= k < j);
                    }
                }
            }
        }
        j += 1;
    }
}

// ── WOZ images ─────────────────────────────────────────────────────────────

/// A complete parsed WOZ disk image.
#[derive(Clone)]
pub struct WozImage {
    /// WOZ format version (1 or 2).
    pub version: u8,
    /// Tracks indexed by TRKS index (some may be missing).
    pub tracks: Vec<Option<WozTrack>>,
    /// Quarter-track map: quarter-track 0-159 to a TRKS index, 0xFF for none.
    pub tmap: [u8; 160],
    /// Whether the disk is write-protected.
    pub write_protected: bool,
    /// Disk type: 1 = 5.25", 2 = 3.5".
    pub disk_type: u8,
    /// Whether tracks are synchronized.
    pub synchronized: bool,
}

impl WozImage {
    /// The TRKS index of quarter-track `qt`, when it names a track that is
    /// present.
    pub open spec fn track_index(&self, qt: int) -> Option<int> {
        if 0 <= qt < 160 && self.tmap@[qt] != 0xFF && (self.tmap@[qt] as int) < self.tracks@.len()
            && self.tracks@[self.tmap@[qt] as int] is Some {
            Some(self.tmap@[qt] as int)
        } else {
            None
        }
    }

    /// The TRKS index of quarter-track `qt` (0-159), if it maps to a track
    /// that is present.
    pub fn track_index_for_quarter(&self, qt: usize) -> (r: Option<usize>)
        ensures
            r matches Some(i) ==> self.track_index(qt as int) == Some(i as int),
            r is None ==> self.track_index(qt as int) is None,
    {
        if qt >= 160 {
            return None;
        }
        let idx = self.tmap[qt];
        if idx == 0xFF {
            return None;
        }
        let i = idx as usize;
        if i < self.tracks.len() && self.tracks[i].is_some() {
            Some(i)
        } else {
            None
        }
    }

    /// The track for quarter-track `qt` (0-159), if any.
    pub fn track_for_quarter(&self, qt: usize) -> (r: Option<&WozTrack>)
        ensures
            r is Some <==> self.track_index(qt as int) is Some,
            r matches Some(t) ==> Some(*t) == self.tracks@[self.track_index(qt as int)->0],
    {
        match self.track_index_for_quarter(qt) {
            Some(i) => self.tracks[i].as_ref(),
            None => None,
        }
    }
}

/// The little-endian 16-bit value at `i`.
pub open spec fn le16_at(d: Seq<u8>, i: int) -> int {
    d[i] + 256 * d[i + 1]
}

/// The little-endian 32-bit value at `i`.
pub open spec fn le32_at(d: Seq<u8>, i: int) -> int {
    d[i] + 256 * d[i + 1] + 65536 * d[i + 2] + 16777216 * d[i + 3]
}

/// The 8-byte WOZ header of version `v` (`'1'` or `'2'`).
pub open spec fn woz_magic(d: Seq<u8>, v: u8) -> bool {
    &&& d.len() >= 8
    &&& d[0] == 0x57 && d[1] == 0x4F && d[2] == 0x5A && d[3] == v
    &&& d[4] == 0xFF && d[5] == 0x0A && d[6] == 0x0D && d[7] == 0x0A
}

/// The chunk at `pos` has the four-byte id `a b c e`.
pub open spec fn chunk_id(d: Seq<u8>, pos: int, a: u8, b: u8, c: u8, e: u8) -> bool {
    d[pos] == a && d[pos + 1] == b && d[pos + 2] == c && d[pos + 3] == e
}

/// Walk the chunks from `pos` on, as far as they fit in the file, and give
/// where the data of the last INFO chunk (60 bytes or more), the last TMAP
/// chunk (160 bytes or more) and the last TRKS chunk (with its size) start.
pub open spec fn woz_chunks(d: Seq<u8>, pos: int) -> (Option<int>, Option<int>, Option<(int, int)>)
    decreases d.len() - pos,
{
    if pos < 0 || pos + 8 > d.len() {
        (None, None, None)
    } else {
        let size = le32_at(d, pos + 4);
        let start = pos + 8;
        if start + size > d.len() {
            (None, None, None)
        } else {
            let rest = woz_chunks(d, start + size);
            (
                if rest.0 is Some {
                    rest.0
                } else if chunk_id(d, pos, 0x49, 0x4E, 0x46, 0x4F) && size >= 60 {
                    Some(start)
                } else {
                    None
                },
                if rest.1 is Some {
                    rest.1
                } else if chunk_id(d, pos, 0x54, 0x4D, 0x41, 0x50) && size >= 160 {
                    Some(start)
                } else {
                    None
                },
                if rest.2 is Some {
                    rest.2
                } else if chunk_id(d, pos, 0x54, 0x52, 0x4B, 0x53) {
                    Some((start, size))
                } else {
                    None
                },
            )
        }
    }
}

/// The largest TRKS index among the first `n` quarter-track entries (0 if
/// none is mapped).
pub open spec fn tmap_max(t: Seq<u8>, n: int) -> int
    decreases n,
{
    if n <= 0 {
        0
    } else {
        let m = tmap_max(t, n - 1);
        if t[n - 1] != 0xFF && t[n - 1] > m {
            t[n - 1] as int
        } else {
            m
        }
    }
}

/// Track `idx` of a WOZ1 TRKS chunk: fixed 6656-byte entries holding up to
/// 6646 data bytes, the bytes used and the bit count.
pub open spec fn woz1_track(trks: Seq<u8>, idx: int) -> Option<(Seq<u8>, u32)> {
    let off = idx * 6656;
    if off + 6656 > trks.len() {
        None
    } else {
        let used = le16_at(trks, off + 6646);
        let n = if used < 6646 {
            used
        } else {
            6646
        };
        Some((trks.subrange(off, off + n), le16_at(trks, off + 6648) as u32))
    }
}

/// Track `idx` of a WOZ2 image: an 8-byte descriptor (starting block,
/// block count, bit count) pointing at 512-byte blocks of the file.
pub open spec fn woz2_track(d: Seq<u8>, trks: Seq<u8>, idx: int) -> Option<(Seq<u8>, u32)> {
    let off = idx * 8;
    if off + 8 > trks.len() {
        None
    } else {
        let first = le16_at(trks, off) * 512;
        let n = le16_at(trks, off + 2) * 512;
        if first == 0 && n == 0 {
            None
        } else if first + n > d.len() {
            None
        } else {
            Some((d.subrange(first, first + n), le32_at(trks, off + 4) as u32))
        }
    }
}

/// A track holds the given bits and bit count, with the weak areas found
/// in them.
pub open spec fn track_holds(t: WozTrack, bits: Seq<u8>, bit_count: u32) -> bool {
    &&& t.bits@ == bits
    &&& t.bit_count == bit_count
    &&& t.has_weak_bits == has_weak_spec(bits, bit_count)
    &&& t.weak_mask@ == weak_mask_spec(bits, bit_count)
}

/// Whether a file is a WOZ image this parser accepts: a WOZ1 or WOZ2
/// header, a CRC32 of the rest that is 0 (unchecked) or matches, and a
/// TMAP chunk.
pub open spec fn woz_accepted(d: Seq<u8>) -> bool {
    &&& d.len() >= 12
    &&& woz_magic(d, 0x31) || woz_magic(d, 0x32)
    &&& (le32_at(d, 8) == 0 || crc32_spec(d.subrange(12, d.len() as int)) as int == le32_at(d, 8))
    &&& woz_chunks(d, 12).1 is Some
}

/// What `parse_woz` builds from an accepted file.
pub open spec fn woz_parsed(d: Seq<u8>, w: WozImage) -> bool {
    let chunks = woz_chunks(d, 12);
    let tmap_at = chunks.1->0;
    let tmap = d.subrange(tmap_at, tmap_at + 160);
    let trks: Seq<u8> = match chunks.2 {
        Some(t) => d.subrange(t.0, t.0 + t.1),
        None => Seq::empty(),
    };
    let v1 = woz_magic(d, 0x31);
    &&& w.version == (if v1 { 1u8 } else { 2u8 })
    &&& w.tmap@ == tmap
    &&& w.disk_type == (match chunks.0 {
        Some(i) => d[i + 1],
        None => 1u8,
    })
    &&& w.write_protected == (match chunks.0 {
        Some(i) => d[i + 2] != 0,
        None => false,
    })
    &&& w.synchronized == (match chunks.0 {
        Some(i) => d[i + 3] != 0,
        None => false,
    })
    &&& w.tracks@.len() == tmap_max(tmap, 160) + 1
    &&& forall|idx: int|
        0 <= idx < w.tracks@.len() ==> {
            let expect = if v1 {
                woz1_track(trks, idx)
            } else {
                woz2_track(d, trks, idx)
            };
            match (#[trigger] w.tracks@[idx]) {
                Some(t) => expect matches Some(e) && track_holds(t, e.0, e.1),
                None => expect is None,
            }
        }
}

/// The later of two findings, when there is one.
pub open spec fn prefer<T>(later: Option<T>, earlier: Option<T>) -> Option<T> {
    if later is Some {
        later
    } else {
        earlier
    }
}

/// A position as an integer.
pub open spec fn opt_int(o: Option<usize>) -> Option<int> {
    match o {
        Some(i) => Some(i as int),
        None => None,
    }
}

/// A position and size as integers.
pub open spec fn opt_pair(o: Option<(usize, usize)>) -> Option<(int, int)> {
    match o {
        Some(t) => Some((t.0 as int, t.1 as int)),
        None => None,
    }
}

/// The little-endian 16-bit value at `i`.
fn read_le16(d: &[u8], i: usize) -> (r: u16)
    requires
        i + 2 <= d.len(),
    ensures
        r as int == le16_at(d@, i as int),
{
    d[i] as u16 + 256 * (d[i + 1] as u16)
}

/// The little-endian 32-bit value at `i`.
fn read_le32(d: &[u8], i: usize) -> (r: u32)
    requires
        i + 4 <= d.len(),
    ensures
        r as int == le32_at(d@, i as int),
{
    d[i] as u32 + 256 * (d[i + 1] as u32) + 65536 * (d[i + 2] as u32) + 16777216 * (d[i + 3] as u32)
}

/// The file starts with the WOZ header of version `v`.
pub fn has_woz_magic(d: &[u8], v: u8) -> (r: bool)
    requires
        8 <= d.len(),
    ensures
        r == woz_magic(d@, v),
{
    d[0] == 0x57 && d[1] == 0x4F && d[2] == 0x5A && d[3] == v && d[4] == 0xFF && d[5] == 0x0A
        && d[6] == 0x0D && d[7] == 0x0A
}

/// Walk the chunks from offset 12 and give where the last INFO, TMAP and
/// TRKS chunks' data start.
fn scan_woz_chunks(data: &[u8]) -> (r: (Option<usize>, Option<usize>, Option<(usize, usize)>))
    requires
        12 <= data.len(),
    ensures
        ({
            let c = woz_chunks(data@, 12);
            &&& r.0 matches Some(i) ==> c.0 == Some(i as int) && i + 60 <= data.len()
            &&& r.0 is None ==> c.0 is None
            &&& r.1 matches Some(i) ==> c.1 == Some(i as int) && i + 160 <= data.len()
            &&& r.1 is None ==> c.1 is None
            &&& r.2 matches Some(t) ==> c.2 == Some((t.0 as int, t.1 as int)) && t.0 + t.1
                <= data.len()
            &&& r.2 is None ==> c.2 is None
        }),
{
    let ghost d = data@;
    let mut pos: usize = 12;
    let mut info_at: Option<usize> = None;
    let mut tmap_at: Option<usize> = None;
    let mut trks_at: Option<(usize, usize)> = None;
    while pos <= data.len() - 8
        invariant
            12 <= data.len(),
            d == data@,
            ({
                let c = woz_chunks(d, 12);
                let here = woz_chunks(d, pos as int);
                &&& c.0 == prefer(here.0, opt_int(info_at))
                &&& c.1 == prefer(here.1, opt_int(tmap_at))
                &&& c.2 == prefer(here.2, opt_pair(trks_at))
            }),
            info_at matches Some(i) ==> i + 60 <= data.len(),
            tmap_at matches Some(i) ==> i + 160 <= data.len(),
            trks_at matches Some(t) ==> t.0 + t.1 <= data.len(),
        ensures
            ({
                let c = woz_chunks(d, 12);
                &&& c.0 == opt_int(info_at)
                &&& c.1 == opt_int(tmap_at)
                &&& c.2 == opt_pair(trks_at)
            }),
        decreases data.len() - pos,
    {
        let size = read_le32(data, pos + 4) as usize;
        let start = pos + 8;
        if size > data.len() - start {
            assert(woz_chunks(d, pos as int) == (None::<int>, None::<int>, None::<(int, int)>));
            break;
        }
        let ghost rest = woz_chunks(d, start + size);
        assert(woz_chunks(d, pos as int) == (
            prefer(rest.0, if chunk_id(d, pos as int, 0x49, 0x4E, 0x46, 0x4F) && size >= 60 { Some(start as int) } else { None }),
            prefer(rest.1, if chunk_id(d, pos as int, 0x54, 0x4D, 0x41, 0x50) && size >= 160 { Some(start as int) } else { None }),
            prefer(rest.2, if chunk_id(d, pos as int, 0x54, 0x52, 0x4B, 0x53) { Some((start as int, size as int)) } else { None }),
        ));
        if data[pos] == 0x49 && data[pos + 1] == 0x4E && data[pos + 2] == 0x46 && data[pos + 3]
            == 0x4F && size >= 60 {
            info_at = Some(start);
        } else if data[pos] == 0x54 && data[pos + 1] == 0x4D && data[pos + 2] == 0x41
            && data[pos + 3] == 0x50 && size >= 160 {
            tmap_at = Some(start);
        } else if data[pos] == 0x54 && data[pos + 1] == 0x52 && data[pos + 2] == 0x4B
            && data[pos + 3] == 0x53 {
            trks_at = Some((start, size));
        }
        pos = start + size;
    }
    (info_at, tmap_at, trks_at)
}

/// The largest TRKS index the quarter-track map names (0 if none).
fn max_track_index(tmap: &[u8; 160]) -> (r: u8)
    ensures
        r as int == tmap_max(tmap@, 160),
{
    let mut m: u8 = 0;
    let mut k: usize = 0;
    while k < 160
        invariant
            k <= 160,
            tmap@.len() == 160,
            m as int == tmap_max(tmap@, k as int),
        decreases 160 - k,
    {
        let v = tmap[k];
        if v != 0xFF && v > m {
            m = v;
        }
        k += 1;
    }
    m
}

/// A track from its bits and bit count, with its weak areas found.
fn make_track(bits: Vec<u8>, bit_count: u32) -> (t: WozTrack)
    requires
        bits@.len() * 8 <= u32::MAX,
    ensures
        track_holds(t, bits@, bit_count),
{
    let (has_weak, weak_mask) = detect_weak_bits(bits.as_slice(), bit_count);
    WozTrack { bits, bit_count, has_weak_bits: has_weak, weak_mask }
}

/// Parse a WOZ v1 or v2 disk image for bit-level emulation.
///
/// Checks the header and (unless it is stored as 0) the CRC32 of the rest
/// of the file, then walks the chunks: INFO (disk type, write protection,
/// synchronization), TMAP (quarter-track map, required) and TRKS. WOZ1
/// tracks are fixed 6656-byte entries; WOZ2 tracks are addressed in 512-byte
/// blocks. Long runs of zero bytes are marked as weak areas.
pub fn parse_woz(data: &[u8]) -> (r: Option<WozImage>)
    ensures
        r is Some <==> woz_accepted(data@),
        r matches Some(w) ==> woz_parsed(data@, w),
{
    if data.len() < 12 {
        return None;
    }
    let is_woz1 = has_woz_magic(data, 0x31);
    let is_woz2 = has_woz_magic(data, 0x32);
    if !is_woz1 && !is_woz2 {
        return None;
    }
    let version: u8 = if is_woz1 {
        1
    } else {
        2
    };
    let stored_crc = read_le32(data, 8);
    if stored_crc != 0 {
        let computed = crc32(slice_subrange(data, 12, data.len()));
        if computed != stored_crc {
            return None;
        }
    }
    let (info_at, tmap_at, trks_at) = scan_woz_chunks(data);
    let tm = match tmap_at {
        Some(i) => i,
        None => {
            return None;
        },
    };
    let mut tmap = [0xFFu8; 160];
    let mut k: usize = 0;
    while k < 160
        invariant
            k <= 160,
            tm + 160 <= data.len(),
            tmap@.len() == 160,
            forall|t: int| 0 <= t < k ==> tmap@[t] == data@[tm + t],
        decreases 160 - k,
    {
        tmap.set(k, data[tm + k]);
        k += 1;
    }
    assert(tmap@ == data@.subrange(tm as int, tm + 160));
    let trks_data: &[u8] = match trks_at {
        Some((start, size)) => slice_subrange(data, start, start + size),
        None => &[],
    };
    let (disk_type, write_protected, synchronized) = match info_at {
        Some(i) => (data[i + 1], data[i + 2] != 0, data[i + 3] != 0),
        None => (1u8, false, false),
    };
    let max_trks_idx = max_track_index(&tmap) as usize;
    let ghost d = data@;
    let ghost trks = trks_data@;
    let mut tracks: Vec<Option<WozTrack>> = Vec::new();
    let mut idx: usize = 0;
    while idx <= max_trks_idx
        invariant
            idx <= max_trks_idx + 1,
            max_trks_idx < 256,
            d == data@,
            trks == trks_data@,
            tracks@.len() == idx,
            forall|j: int|
                0 <= j < idx ==> {
                    let expect = if is_woz1 {
                        woz1_track(trks, j)
                    } else {
                        woz2_track(d, trks, j)
                    };
                    match (#[trigger] tracks@[j]) {
                        Some(t) => expect matches Some(e) && track_holds(t, e.0, e.1),
                        None => expect is None,
                    }
                },
        decreases max_trks_idx + 1 - idx,
    {
        if is_woz1 {
            let entry_off = idx * 6656;
            if entry_off + 6656 > trks_data.len() {
                tracks.push(None);
            } else {
                let bytes_used = read_le16(trks_data, entry_off + 6646) as usize;
                let bit_count = read_le16(trks_data, entry_off + 6648) as u32;
                let byte_count = if bytes_used < 6646 {
                    bytes_used
                } else {
                    6646
                };
                let bits = slice_to_vec(slice_subrange(trks_data, entry_off, entry_off + byte_count));
                tracks.push(Some(make_track(bits, bit_count)));
            }
        } else {
            let desc_off = idx * 8;
            if desc_off + 8 > trks_data.len() {
                tracks.push(None);
            } else {
                let starting_block = read_le16(trks_data, desc_off) as usize;
                let block_count = read_le16(trks_data, desc_off + 2) as usize;
                let bit_count = read_le32(trks_data, desc_off + 4);
                if starting_block == 0 && block_count == 0 {
                    tracks.push(None);
                } else {
                    let file_data_off = starting_block * 512;
                    let byte_count = block_count * 512;
                    if file_data_off + byte_count > data.len() {
                        tracks.push(None);
                    } else {
                        let bits = slice_to_vec(
                            slice_subrange(data, file_data_off, file_data_off + byte_count),
                        );
                        tracks.push(Some(make_track(bits, bit_count)));
                    }
                }
            }
        }
        idx += 1;
    }
    Some(WozImage { version, tracks, tmap, write_protected, disk_type, synchronized })
}

} // verus!
