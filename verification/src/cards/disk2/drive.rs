//! One Disk II drive: head position, the loaded image (nibble tracks or a
//! WOZ bit stream) and reading / writing it one nibble at a time.

use vstd::prelude::*;
use vstd::slice::{slice_subrange, slice_to_vec};
use super::nib::{
    denibblize_track, track_scanned, dos33_skew, dos33_skew_spec, fill, nibblizes_to, prodos_skew,
    prodos_skew_spec, read_back, valid_skew, DSK_SIZE, NIB_SIZE, NIB_TRACK_SIZE, NUM_TRACKS,
};
use super::woz::{
    tv_read, tv_write, view_of, xorshift32, SimpleRng, TrackView, WozImage, WozTrack,
};

verus! {

/// CPU cycles per disk bit at 250 kbit/s with a 1.023 MHz clock.
pub const CYCLES_PER_BIT: u64 = 4;

/// The format of the image in a drive (for write-back).
#[derive(Clone, Copy, PartialEq, Eq, Debug, Structural)]
pub enum DiskFormat {
    Dos33,
    ProDos,
    Nib,
    Woz,
    Dos32,
}

/// The plain values of every track of an image.
pub open spec fn tracks_view(w: WozImage) -> Seq<Option<TrackView>> {
    w.tracks@.map_values(
        |o: Option<WozTrack>|
            match o {
                Some(t) => Some(view_of(t)),
                None => None,
            },
    )
}

/// The state of the bit-level read/write head over the track `idx`
/// (if any): one bit read. Gives the bit, the new bit position and the new
/// generator state.
pub open spec fn bit_step(tv: Seq<Option<TrackView>>, idx: Option<int>, bp: u32, rng: u32) -> (
    u8,
    u32,
    u32,
) {
    match idx {
        Some(i) => {
            let v = tv[i]->0;
            if v.2 == 0 {
                (0, bp, rng)
            } else {
                let pos = bp % v.2;
                let (b, r) = tv_read(v, pos as int, rng);
                (b, ((pos + 1) % (v.2 as int)) as u32, r)
            }
        },
        None => ((xorshift32(rng) & 1) as u8, bp, xorshift32(rng)),
    }
}

/// Shifting up to `n` bits into the shift register: stops at the first
/// byte with its top bit set. Gives the bit position, generator state and
/// shift register after, and the byte if one was completed.
pub open spec fn scan_bits(
    tv: Seq<Option<TrackView>>,
    idx: Option<int>,
    bp: u32,
    rng: u32,
    sr: u8,
    n: nat,
) -> (u32, u32, u8, Option<u8>)
    decreases n,
{
    if n == 0 {
        (bp, rng, sr, None)
    } else {
        let (b, bp1, rng1) = bit_step(tv, idx, bp, rng);
        let sr1 = (sr << 1u8) | b;
        if sr1 & 0x80 != 0 {
            (bp1, rng1, 0, Some(sr1))
        } else {
            scan_bits(tv, idx, bp1, rng1, sr1, (n - 1) as nat)
        }
    }
}

/// One bit written at the head over track `idx` (if any): the tracks, bit
/// position and dirty flag after.
pub open spec fn write_step(
    tv: Seq<Option<TrackView>>,
    idx: Option<int>,
    bp: u32,
    dirty: bool,
    val: u8,
) -> (Seq<Option<TrackView>>, u32, bool) {
    match idx {
        Some(i) => {
            let v = tv[i]->0;
            if v.2 == 0 {
                (tv, bp, dirty)
            } else {
                let pos = bp % v.2;
                (tv.update(i, Some(tv_write(v, pos as int, val))), ((pos + 1) % (v.2 as int)) as u32, true)
            }
        },
        None => (tv, bp, dirty),
    }
}

/// The top `k` bits of `byte` written one after another, most significant
/// first.
pub open spec fn write_bits(
    tv: Seq<Option<TrackView>>,
    idx: Option<int>,
    bp: u32,
    dirty: bool,
    byte: u8,
    k: nat,
) -> (Seq<Option<TrackView>>, u32, bool)
    decreases k,
{
    if k == 0 {
        (tv, bp, dirty)
    } else {
        let (tv1, bp1, d1) = write_step(tv, idx, bp, dirty, (byte >> ((k - 1) as u8)) & 1);
        write_bits(tv1, idx, bp1, d1, byte, (k - 1) as nat)
    }
}

/// Per-drive state.
pub struct Drive {
    /// Pre-nibblized track data (35 entries) for the non-WOZ formats.
    pub tracks: Vec<Vec<u8>>,
    /// Head position in quarter-tracks.
    pub phase: i32,
    /// Track index for the nibble formats (= phase / 2, at most 34).
    pub current_track_idx: usize,
    /// Byte offset within the current track buffer (nibble mode).
    pub byte_pos: usize,
    /// Whether a disk image is loaded.
    pub loaded: bool,
    /// The raw image data (for write-back).
    pub raw: Vec<u8>,
    /// Whether anything was written since the last flush.
    pub dirty: bool,
    /// The image format.
    pub format: DiskFormat,
    /// Where the image file lives (for write-back).
    pub path: Option<String>,
    /// Whether this drive is write-protected.
    pub write_protected: bool,
    /// The parsed WOZ image (None for the nibble formats).
    pub woz: Option<WozImage>,
    /// Current bit position within the current WOZ track.
    pub bit_pos: u32,
    /// Shift register assembling bits into a nibble.
    pub shift_reg: u8,
    /// Consecutive zero bits seen (MC3470 emulation).
    pub zero_count: u32,
    /// CPU cycle of the last bit read or written.
    pub last_cycle: u64,
    /// Random bits for weak areas.
    pub rng: SimpleRng,
}

impl Drive {
    /// The drive's state is consistent: the head is on the disk, and a
    /// loaded nibble image has 35 tracks of one length with the byte
    /// position inside them.
    pub open spec fn wf(&self) -> bool {
        &&& 0 <= self.phase <= 79
        &&& self.current_track_idx < 35
        &&& self.tracks@.len() <= 35
        &&& self.dirty && self.woz is None ==> self.loaded
        &&& (self.woz is Some) == (self.format == DiskFormat::Woz)
        &&& (self.loaded && self.woz is None) ==> {
            &&& self.tracks@.len() == 35
            &&& forall|t: int| 0 <= t < 35 ==> (#[trigger] self.tracks@[t])@.len() == self.tracks@[0]@.len()
            &&& self.tracks@[0]@.len() > 0 ==> self.byte_pos < self.tracks@[0]@.len()
        }
    }

    /// The quarter-track under the head (0-159).
    pub open spec fn quarter(&self) -> int {
        if self.phase < 0 {
            0
        } else if self.phase > 159 {
            159
        } else {
            self.phase as int
        }
    }

    /// The TRKS index under the head, if a track is there.
    pub open spec fn woz_index(&self) -> Option<int> {
        self.woz->0.track_index(self.quarter())
    }

    /// An empty drive.
    pub fn new() -> (d: Self)
        ensures
            d.wf(),
            !d.loaded,
            !d.dirty,
            d.woz is None,
            d.phase == 0,
            d.byte_pos == 0,
            d.current_track_idx == 0,
            d.bit_pos == 0,
            d.shift_reg == 0,
            d.last_cycle == 0,
            d.path is None,
            !d.write_protected,
            d.format == DiskFormat::Dos33,
            d.rng.state == 0xCAFE_BABE,
    {
        Drive {
            tracks: Vec::new(),
            phase: 0,
            current_track_idx: 0,
            byte_pos: 0,
            loaded: false,
            raw: Vec::new(),
            dirty: false,
            format: DiskFormat::Dos33,
            path: None,
            write_protected: false,
            woz: None,
            bit_pos: 0,
            shift_reg: 0,
            zero_count: 0,
            last_cycle: 0,
            rng: SimpleRng::new(0xCAFE_BABE),
        }
    }

    /// Whether this drive is in WOZ bit-level mode.
    pub fn is_woz(&self) -> (r: bool)
        ensures
            r == self.woz is Some,
    {
        self.woz.is_some()
    }

    /// Recompute `current_track_idx` from `phase` (half the phase, at most
    /// track 34).
    pub fn update_track_idx(&mut self)
        requires
            0 <= old(self).phase,
        ensures
            final(self).current_track_idx == (if old(self).phase / 2 > 34 {
                34
            } else {
                old(self).phase / 2
            }),
            *final(self) == (Drive { current_track_idx: final(self).current_track_idx, ..*old(self) }),
    {
        let t = self.phase / 2;
        self.current_track_idx = if t > 34 {
            34
        } else {
            t as usize
        };
    }

    /// The quarter-track under the head.
    pub fn quarter_track(&self) -> (r: usize)
        ensures
            r as int == self.quarter(),
    {
        if self.phase < 0 {
            0
        } else if self.phase > 159 {
            159
        } else {
            self.phase as usize
        }
    }

    /// Nibble mode: the byte under the head, moving on by one (0xFF with no
    /// disk or an empty track).
    pub fn read_nibble_legacy(&mut self) -> (r: u8)
        requires
            old(self).wf(),
            old(self).woz is None,
        ensures
            final(self).wf(),
            ({
                let s = old(self);
                let buf = s.tracks@[s.current_track_idx as int]@;
                if !s.loaded || buf.len() == 0 {
                    r == 0xFF && *final(self) == *s
                } else {
                    &&& r == buf[s.byte_pos as int]
                    &&& final(self).byte_pos == (s.byte_pos + 1) % (buf.len() as int)
                    &&& *final(self) == (Drive { byte_pos: final(self).byte_pos, ..*s })
                }
            }),
    {
        if !self.loaded {
            return 0xFF;
        }
        let len = self.tracks[self.current_track_idx].len();
        if len == 0 {
            return 0xFF;
        }
        let n = self.tracks[self.current_track_idx][self.byte_pos];
        self.byte_pos = (self.byte_pos + 1) % len;
        n
    }

    /// Nibble mode: write a byte under the head and move on (nothing on a
    /// write-protected or empty drive).
    pub fn write_nibble_legacy(&mut self, byte: u8)
        requires
            old(self).wf(),
            old(self).woz is None,
        ensures
            final(self).wf(),
            ({
                let s = old(self);
                let t = s.current_track_idx as int;
                if s.write_protected || !s.loaded || t >= s.tracks@.len() || s.tracks@[t]@.len() == 0 {
                    *final(self) == *s
                } else {
                    let buf = s.tracks@[t]@;
                    &&& final(self).tracks@.len() == s.tracks@.len()
                    &&& final(self).tracks@[t]@ == buf.update(s.byte_pos as int, byte)
                    &&& forall|u: int| 0 <= u < s.tracks@.len() && u != t ==> final(self).tracks@[u] == s.tracks@[u]
                    &&& final(self).byte_pos == (s.byte_pos + 1) % (buf.len() as int)
                    &&& final(self).dirty
                    &&& final(self).loaded == s.loaded && final(self).woz == s.woz
                    &&& final(self).phase == s.phase && final(self).current_track_idx == s.current_track_idx
                    &&& final(self).write_protected == s.write_protected && final(self).format == s.format
                }
            }),
    {
        if self.write_protected || !self.loaded {
            return;
        }
        let t = self.current_track_idx;
        if t >= self.tracks.len() {
            return;
        }
        let len = self.tracks[t].len();
        if len == 0 {
            return;
        }
        if self.byte_pos < len {
            let pos = self.byte_pos;
            self.tracks[t].set(pos, byte);
        }
        self.byte_pos = (self.byte_pos + 1) % len;
        self.dirty = true;
    }

    /// The bits that have passed under the head since `last_cycle` (4 CPU
    /// cycles per bit); `last_cycle` moves up to `cycles`.
    pub fn advance_bits(&mut self, cycles: u64) -> (r: u32)
        ensures
            r == elapsed_bits(old(self).last_cycle, cycles),
            final(self).last_cycle == (if cycles <= old(self).last_cycle {
                old(self).last_cycle
            } else {
                cycles
            }),
            *final(self) == (Drive { last_cycle: final(self).last_cycle, ..*old(self) }),
    {
        if cycles <= self.last_cycle {
            return 0;
        }
        let elapsed = cycles - self.last_cycle;
        let bits = (elapsed / CYCLES_PER_BIT) as u32;
        self.last_cycle = cycles;
        bits
    }

    /// Read one bit of the WOZ track under the head and move on (a random
    /// bit where no track is mapped).
    pub fn woz_read_bit(&mut self) -> (r: u8)
        requires
            old(self).woz is Some,
        ensures
            (r, final(self).bit_pos, final(self).rng.state) == bit_step(
                tracks_view(old(self).woz->0),
                old(self).woz_index(),
                old(self).bit_pos,
                old(self).rng.state,
            ),
            *final(self) == (Drive {
                bit_pos: final(self).bit_pos,
                rng: final(self).rng,
                ..*old(self)
            }),
    {
        let qt = self.quarter_track();
        let idx = self.woz.as_ref().unwrap().track_index_for_quarter(qt);
        match idx {
            Some(i) => {
                let bit_count = self.woz.as_ref().unwrap().tracks[i].as_ref().unwrap().bit_count;
                if bit_count == 0 {
                    return 0;
                }
                let pos = self.bit_pos % bit_count;
                let bit = self.woz.as_ref().unwrap().tracks[i].as_ref().unwrap().read_bit(
                    pos,
                    &mut self.rng,
                );
                self.bit_pos = (pos + 1) % bit_count;
                bit
            },
            None => self.rng.next_bit(),
        }
    }

    /// Read bits until the shift register holds a byte with its top bit set
    /// (at most 128 of the bits elapsed since the last access); `None` if no
    /// byte was completed, so the data latch keeps its value.
    pub fn woz_read_nibble(&mut self, cycles: u64) -> (r: Option<u8>)
        requires
            old(self).woz is Some,
        ensures
            woz_read_post(*old(self), *final(self), cycles, r),
    {
        let bits_elapsed = self.advance_bits(cycles);
        let n = if bits_elapsed < 128 {
            bits_elapsed
        } else {
            128
        };
        let ghost start = *self;
        let ghost tv = tracks_view(self.woz->0);
        let ghost idx = self.woz_index();
        let mut k: u32 = 0;
        while k < n
            invariant
                k <= n,
                start == (Drive { last_cycle: start.last_cycle, ..*old(self) }),
                start.last_cycle == (if cycles <= old(self).last_cycle {
                    old(self).last_cycle
                } else {
                    cycles
                }),
                n == (if elapsed_bits(old(self).last_cycle, cycles) < 128 {
                    elapsed_bits(old(self).last_cycle, cycles)
                } else {
                    128
                }),
                tv == tracks_view(old(self).woz->0),
                idx == old(self).woz_index(),
                self.woz is Some,
                tracks_view(self.woz->0) == tv,
                self.woz_index() == idx,
                *self == (Drive {
                    bit_pos: self.bit_pos,
                    rng: self.rng,
                    shift_reg: self.shift_reg,
                    ..start
                }),
                scan_bits(tv, idx, self.bit_pos, self.rng.state, self.shift_reg, (n - k) as nat)
                    == scan_bits(tv, idx, start.bit_pos, start.rng.state, start.shift_reg, n as nat),
            decreases n - k,
        {
            let ghost before = *self;
            let bit = self.woz_read_bit();
            self.shift_reg = (self.shift_reg << 1u8) | bit;
            if self.shift_reg & 0x80 != 0 {
                let result = self.shift_reg;
                self.shift_reg = 0;
                assert(scan_bits(tv, idx, before.bit_pos, before.rng.state, before.shift_reg, (n - k) as nat)
                    == (self.bit_pos, self.rng.state, 0u8, Some(result)));
                assert(scan_bits(tv, idx, start.bit_pos, start.rng.state, start.shift_reg, n as nat)
                    == (self.bit_pos, self.rng.state, 0u8, Some(result)));
                return Some(result);
            }
            k += 1;
        }
        None
    }

    /// Write one bit to the WOZ track under the head and move on (nothing
    /// where no track is mapped).
    pub fn woz_write_bit(&mut self, val: u8)
        requires
            old(self).woz is Some,
        ensures
            final(self).woz is Some,
            (tracks_view(final(self).woz->0), final(self).bit_pos, final(self).dirty) == write_step(
                tracks_view(old(self).woz->0),
                old(self).woz_index(),
                old(self).bit_pos,
                old(self).dirty,
                val,
            ),
            same_woz_frame(old(self).woz->0, final(self).woz->0),
            *final(self) == (Drive {
                woz: final(self).woz,
                bit_pos: final(self).bit_pos,
                dirty: final(self).dirty,
                ..*old(self)
            }),
    {
        let qt = self.quarter_track();
        let mut w = self.woz.take().unwrap();
        let ghost w0 = w;
        match w.track_index_for_quarter(qt) {
            Some(i) => {
                let mut t = w.tracks[i].take().unwrap();
                let bit_count = t.bit_count;
                if bit_count != 0 {
                    let pos = self.bit_pos % bit_count;
                    t.write_bit(pos, val);
                    self.bit_pos = (pos + 1) % bit_count;
                    self.dirty = true;
                }
                w.tracks.set(i, Some(t));
                proof {
                    assert(tracks_view(w) == tracks_view(w0).update(
                        i as int,
                        Some(view_of(w.tracks@[i as int]->0)),
                    ));
                }
            },
            None => {},
        }
        self.woz = Some(w);
    }

    /// Write a nibble to the WOZ track under the head, most significant bit
    /// first, after skipping the bits that passed since the last access
    /// (nothing on a write-protected disk).
    pub fn woz_write_nibble(&mut self, byte: u8, cycles: u64)
        requires
            old(self).woz is Some,
        ensures
            woz_write_post(*old(self), *final(self), byte, cycles),
    {
        if self.write_protected {
            return;
        }
        let bits_elapsed = self.advance_bits(cycles);
        let qt = self.quarter_track();
        match self.woz.as_ref().unwrap().track_for_quarter(qt) {
            Some(track) => {
                let bit_count = track.bit_count;
                if bit_count > 0 {
                    self.bit_pos = ((self.bit_pos as u64 + bits_elapsed as u64) % bit_count as u64) as u32;
                }
            },
            None => {},
        }
        let ghost start = *self;
        let ghost idx = self.woz_index();
        let mut i: u8 = 8;
        while i > 0
            invariant
                i <= 8,
                self.woz is Some,
                self.woz_index() == idx,
                same_woz_frame(start.woz->0, self.woz->0),
                *self == (Drive {
                    woz: self.woz,
                    bit_pos: self.bit_pos,
                    dirty: self.dirty,
                    ..start
                }),
                write_bits(tracks_view(self.woz->0), idx, self.bit_pos, self.dirty, byte, i as nat)
                    == write_bits(tracks_view(start.woz->0), idx, start.bit_pos, start.dirty, byte, 8),
            decreases i,
        {
            let bit = (byte >> (i - 1)) & 1;
            self.woz_write_bit(bit);
            i -= 1;
        }
    }
}

/// The bits elapsed between two cycle counts (0 if time did not move on).
pub open spec fn elapsed_bits(last: u64, cycles: u64) -> u32 {
    if cycles <= last {
        0
    } else {
        ((cycles - last) / 4) as u32
    }
}

/// Everything of an image but its tracks' contents is unchanged, and no
/// track appears or disappears.
pub open spec fn same_woz_frame(a: WozImage, b: WozImage) -> bool {
    &&& a.version == b.version
    &&& a.tmap == b.tmap
    &&& a.write_protected == b.write_protected
    &&& a.disk_type == b.disk_type
    &&& a.synchronized == b.synchronized
    &&& a.tracks@.len() == b.tracks@.len()
    &&& forall|i: int| 0 <= i < a.tracks@.len() ==> (a.tracks@[i] is Some <==> b.tracks@[i] is Some)
}

/// What `woz_read_nibble(cycles)` does to a drive `s`, giving `t` and `r`.
pub open spec fn woz_read_post(s: Drive, t: Drive, cycles: u64, r: Option<u8>) -> bool {
    let e = elapsed_bits(s.last_cycle, cycles);
    let n: nat = if e < 128 { e as nat } else { 128 };
    let res = scan_bits(tracks_view(s.woz->0), s.woz_index(), s.bit_pos, s.rng.state, s.shift_reg, n);
    &&& r == res.3
    &&& t.bit_pos == res.0
    &&& t.rng.state == res.1
    &&& t.shift_reg == res.2
    &&& t == (Drive {
        bit_pos: t.bit_pos,
        rng: t.rng,
        shift_reg: t.shift_reg,
        last_cycle: (if cycles <= s.last_cycle { s.last_cycle } else { cycles }),
        ..s
    })
}

/// What `woz_write_nibble(byte, cycles)` does to a drive `s`, giving `t`.
pub open spec fn woz_write_post(s: Drive, t: Drive, byte: u8, cycles: u64) -> bool {
    if s.write_protected {
        t == s
    } else {
        let e = elapsed_bits(s.last_cycle, cycles);
        let idx = s.woz_index();
        let bp: u32 = match idx {
            Some(i) => {
                let bc = s.woz->0.tracks@[i]->0.bit_count;
                if bc > 0 {
                    ((s.bit_pos + e) % (bc as int)) as u32
                } else {
                    s.bit_pos
                }
            },
            None => s.bit_pos,
        };
        let res = write_bits(tracks_view(s.woz->0), idx, bp, s.dirty, byte, 8);
        &&& t.woz is Some
        &&& same_woz_frame(s.woz->0, t.woz->0)
        &&& tracks_view(t.woz->0) == res.0
        &&& t.bit_pos == res.1
        &&& t.dirty == res.2
        &&& t == (Drive {
            woz: t.woz,
            bit_pos: t.bit_pos,
            dirty: t.dirty,
            last_cycle: (if cycles <= s.last_cycle { s.last_cycle } else { cycles }),
            ..s
        })
    }
}

impl Drive {
    /// Read the next nibble: `Some` byte in nibble mode; in WOZ mode `Some`
    /// only when the shift register completed a byte.
    pub fn read_nibble(&mut self, cycles: u64) -> (r: Option<u8>)
        requires
            old(self).wf(),
        ensures
            final(self).wf(),
            drive_read(*old(self), *final(self), cycles, r),
    {
        if self.is_woz() {
            self.woz_read_nibble(cycles)
        } else {
            Some(self.read_nibble_legacy())
        }
    }

    /// Write a nibble under the head.
    pub fn write_nibble(&mut self, byte: u8, cycles: u64)
        requires
            old(self).wf(),
        ensures
            final(self).wf(),
            drive_write(*old(self), *final(self), byte, cycles),
    {
        if self.is_woz() {
            self.woz_write_nibble(byte, cycles);
        } else {
            self.write_nibble_legacy(byte);
        }
    }

    /// Write-back: when the disk was written since the last flush and has a
    /// file, the bytes to store there. A nibble image is reassembled from its
    /// tracks; a sector image has each track's sectors decoded back into the
    /// raw image (kept in `raw`). WOZ and 13-sector images are not written
    /// back. The dirty flag is cleared in every case.
    pub fn flush(&mut self) -> (r: Option<ImageWrite>)
        requires
            old(self).wf(),
        ensures
            final(self).wf(),
            flush_post(*old(self), *final(self), r),
    {
        if !self.dirty {
            return None;
        }
        self.dirty = false;
        let path = match &self.path {
            Some(p) => p.clone(),
            None => {
                return None;
            },
        };
        match self.format {
            DiskFormat::Nib => {
                let data = assemble_nib(&self.tracks);
                Some(ImageWrite { path, data })
            },
            DiskFormat::Dos33 | DiskFormat::ProDos => {
                let skew = if self.format == DiskFormat::Dos33 {
                    dos33_skew()
                } else {
                    prodos_skew()
                };
                let mut raw: Vec<u8> = Vec::new();
                std::mem::swap(&mut raw, &mut self.raw);
                write_back_sectors(&mut raw, &self.tracks, &skew);
                let data = raw.clone();
                self.raw = raw;
                Some(ImageWrite { path, data })
            },
            DiskFormat::Woz => None,
            DiskFormat::Dos32 => None,
        }
    }
}

/// A file write that the caller is to perform: the image bytes and where.
pub struct ImageWrite {
    pub path: String,
    pub data: Vec<u8>,
}

/// What reading the next nibble does to drive `s`, giving `t` and `r`.
pub open spec fn drive_read(s: Drive, t: Drive, cycles: u64, r: Option<u8>) -> bool {
    if s.woz is Some {
        woz_read_post(s, t, cycles, r)
    } else {
        r is Some && legacy_read_post(s, t, r->0)
    }
}

/// What writing a nibble does to drive `s`, giving `t`.
pub open spec fn drive_write(s: Drive, t: Drive, byte: u8, cycles: u64) -> bool {
    if s.woz is Some {
        woz_write_post(s, t, byte, cycles)
    } else {
        legacy_write_post(s, t, byte)
    }
}

/// What a nibble-mode read does to drive `s`, giving `t` and byte `r`.
pub open spec fn legacy_read_post(s: Drive, t: Drive, r: u8) -> bool {
    let buf = s.tracks@[s.current_track_idx as int]@;
    if !s.loaded || buf.len() == 0 {
        r == 0xFF && t == s
    } else {
        &&& r == buf[s.byte_pos as int]
        &&& t.byte_pos == (s.byte_pos + 1) % (buf.len() as int)
        &&& t == (Drive { byte_pos: t.byte_pos, ..s })
    }
}

/// What a nibble-mode write of `byte` does to drive `s`, giving `t`.
pub open spec fn legacy_write_post(s: Drive, t: Drive, byte: u8) -> bool {
    let ti = s.current_track_idx as int;
    if s.write_protected || !s.loaded || ti >= s.tracks@.len() || s.tracks@[ti]@.len() == 0 {
        t == s
    } else {
        let buf = s.tracks@[ti]@;
        &&& t.tracks@.len() == s.tracks@.len()
        &&& t.tracks@[ti]@ == buf.update(s.byte_pos as int, byte)
        &&& forall|u: int| 0 <= u < s.tracks@.len() && u != ti ==> t.tracks@[u] == s.tracks@[u]
        &&& t.byte_pos == (s.byte_pos + 1) % (buf.len() as int)
        &&& t.dirty
        &&& t.loaded == s.loaded && t.woz == s.woz
        &&& t.phase == s.phase && t.current_track_idx == s.current_track_idx
        &&& t.write_protected == s.write_protected && t.format == s.format
    }
}

/// A nibble image reassembled from its tracks: 6656 bytes per track, 0xFF
/// where a track is short or missing.
pub open spec fn nib_image(tracks: Seq<Vec<u8>>) -> Seq<u8> {
    Seq::new(
        NIB_SIZE as nat,
        |j: int|
            {
                let t = j / 6656;
                let k = j % 6656;
                if t < tracks.len() && k < tracks[t]@.len() {
                    tracks[t]@[k]
                } else {
                    0xFFu8
                }
            },
    )
}

/// A raw image padded with zeros to at least `n` bytes.
pub open spec fn pad(raw: Seq<u8>, n: int) -> Seq<u8> {
    if raw.len() >= n {
        raw
    } else {
        raw + fill((n - raw.len()) as nat, 0)
    }
}

/// The sector skew of a sector-image format.
pub open spec fn format_skew(f: DiskFormat) -> Seq<u8> {
    if f == DiskFormat::Dos33 {
        dos33_skew_spec()
    } else {
        prodos_skew_spec()
    }
}

/// Sectors written back from nibble tracks into a (padded) raw image: the
/// length and the bytes past the 35 tracks are kept, and every track that
/// is the nibble stream of some track image gets that image's sectors.
pub open spec fn sectors_written_back(
    before: Seq<u8>,
    after: Seq<u8>,
    tracks: Seq<Vec<u8>>,
    skew: Seq<u8>,
) -> bool {
    &&& after.len() == before.len()
    &&& forall|j: int| DSK_SIZE <= j < before.len() ==> after[j] == before[j]
    &&& forall|t: int|
        0 <= t < 35 ==> #[trigger] track_of(after, t) == track_scanned(
            tracks[t]@,
            t as u8,
            skew,
            track_of(before, t),
        )
    &&& forall|t: int, d: Seq<u8>|
        #![trigger nibblizes_to(d, t as u8, skew, tracks[t]@)]
        0 <= t < 35 && nibblizes_to(d, t as u8, skew, tracks[t]@) ==> forall|j: int|
            0 <= j < 4096 ==> #[trigger] track_byte(after, t, j) == read_back(
                track_of(before, t),
                d,
                skew,
                16,
                j,
            )
}

/// The 4096 bytes of track `t` of a sector image.
pub open spec fn track_of(s: Seq<u8>, t: int) -> Seq<u8> {
    s.subrange(t * 4096, t * 4096 + 4096)
}

/// Byte `j` of track `t` of a sector image.
pub open spec fn track_byte(s: Seq<u8>, t: int, j: int) -> u8 {
    s[t * 4096 + j]
}

/// What `flush` does to drive `s`, giving `t` and the write `r`.
pub open spec fn flush_post(s: Drive, t: Drive, r: Option<ImageWrite>) -> bool {
    if !s.dirty {
        r is None && t == s
    } else if s.path is None {
        r is None && t == (Drive { dirty: false, ..s })
    } else {
        match s.format {
            DiskFormat::Nib => r matches Some(w) && w.path@ == s.path->0@ && w.data@ == nib_image(
                s.tracks@,
            ) && t == (Drive { dirty: false, ..s }),
            DiskFormat::Dos33 | DiskFormat::ProDos => r matches Some(w) && w.path@ == s.path->0@
                && w.data@ == t.raw@ && t == (Drive { dirty: false, raw: t.raw, ..s })
                && sectors_written_back(
                pad(s.raw@, DSK_SIZE as int),
                t.raw@,
                s.tracks@,
                format_skew(s.format),
            ),
            _ => r is None && t == (Drive { dirty: false, ..s }),
        }
    }
}

/// Reassemble a flat nibble image from its tracks.
fn assemble_nib(tracks: &Vec<Vec<u8>>) -> (data: Vec<u8>)
    requires
        tracks@.len() <= 35,
    ensures
        data@ == nib_image(tracks@),
{
    let mut data = vec![0xFFu8; NIB_SIZE];
    let mut t: usize = 0;
    while t < tracks.len()
        invariant
            t <= tracks@.len() <= 35,
            data@.len() == NIB_SIZE,
            forall|j: int|
                0 <= j < NIB_SIZE ==> data@[j] == (if j / 6656 < t {
                    nib_image(tracks@)[j]
                } else {
                    0xFFu8
                }),
        decreases tracks@.len() - t,
    {
        let start = t * NIB_TRACK_SIZE;
        let track_len = tracks[t].len();
        let copy_len = if track_len < NIB_TRACK_SIZE {
            track_len
        } else {
            NIB_TRACK_SIZE
        };
        let mut k: usize = 0;
        while k < copy_len
            invariant
                t < tracks@.len() <= 35,
                start == t * 6656,
                copy_len <= 6656,
                copy_len == (if tracks@[t as int]@.len() < 6656 { tracks@[t as int]@.len() } else { 6656 }),
                k <= copy_len,
                data@.len() == NIB_SIZE,
                forall|j: int|
                    0 <= j < NIB_SIZE ==> data@[j] == (if j / 6656 < t || (j / 6656 == t && j % 6656 < k) {
                        nib_image(tracks@)[j]
                    } else {
                        0xFFu8
                    }),
            decreases copy_len - k,
        {
            let b = tracks[t][k];
            data.set(start + k, b);
            proof {
                assert((start + k) / 6656 == t && (start + k) % 6656 == k);
            }
            k += 1;
        }
        t += 1;
    }
    data
}

/// Pad `raw` to a whole sector image and decode each of the 35 tracks'
/// sectors back into it.
fn write_back_sectors(raw: &mut Vec<u8>, tracks: &Vec<Vec<u8>>, skew: &[u8; 16])
    requires
        tracks@.len() == 35,
        valid_skew(skew@),
    ensures
        sectors_written_back(pad(old(raw)@, DSK_SIZE as int), final(raw)@, tracks@, skew@),
{
    let ghost r0 = raw@;
    while raw.len() < DSK_SIZE
        invariant
            raw@ == r0 + fill((raw@.len() - r0.len()) as nat, 0),
            raw@.len() >= r0.len(),
            raw@.len() <= (if r0.len() >= DSK_SIZE { r0.len() as int } else { DSK_SIZE as int }),
        decreases DSK_SIZE - raw.len(),
    {
        raw.push(0);
        assert(fill((raw@.len() - r0.len()) as nat, 0) == fill((raw@.len() - 1 - r0.len()) as nat, 0).push(0));
    }
    let ghost padded = raw@;
    assert(padded == pad(r0, DSK_SIZE as int)) by {
        if r0.len() >= DSK_SIZE {
            assert(r0 + fill(0, 0) =~= r0);
        }
    }
    let mut t: usize = 0;
    while t < NUM_TRACKS
        invariant
            t <= 35,
            tracks@.len() == 35,
            valid_skew(skew@),
            raw@.len() == padded.len(),
            DSK_SIZE <= padded.len(),
            forall|j: int| t * 4096 <= j < padded.len() ==> raw@[j] == padded[j],
            forall|u: int|
                0 <= u < t ==> #[trigger] track_of(raw@, u) == track_scanned(
                    tracks@[u]@,
                    u as u8,
                    skew@,
                    track_of(padded, u),
                ),
            forall|u: int, d: Seq<u8>|
                #![trigger nibblizes_to(d, u as u8, skew@, tracks@[u]@)]
                0 <= u < t && nibblizes_to(d, u as u8, skew@, tracks@[u]@) ==> forall|j: int|
                    0 <= j < 4096 ==> #[trigger] track_byte(raw@, u, j) == read_back(
                        track_of(padded, u),
                        d,
                        skew@,
                        16,
                        j,
                    ),
        decreases 35 - t,
    {
        let base = t * 4096;
        let mut buf = slice_to_vec(slice_subrange(raw.as_slice(), base, base + 4096));
        let ghost b0 = buf@;
        assert(b0 == padded.subrange(base as int, base + 4096));
        denibblize_track(tracks[t].as_slice(), t as u8, skew, buf.as_mut_slice());
        let ghost before = raw@;
        let mut k: usize = 0;
        while k < 4096
            invariant
                k <= 4096,
                base == t * 4096,
                t < 35,
                buf@.len() == 4096,
                raw@.len() == before.len(),
                before.len() == padded.len(),
                DSK_SIZE <= padded.len(),
                forall|j: int|
                    0 <= j < before.len() ==> raw@[j] == (if base <= j < base + k {
                        buf@[j - base]
                    } else {
                        before[j]
                    }),
            decreases 4096 - k,
        {
            raw.set(base + k, buf[k]);
            k += 1;
        }
        proof {
            assert forall|u: int| 0 <= u < t + 1 implies #[trigger] track_of(raw@, u) == track_scanned(
                tracks@[u]@,
                u as u8,
                skew@,
                track_of(padded, u),
            ) by {
                if u == t {
                    assert(track_of(raw@, u) =~= buf@);
                } else {
                    assert(track_of(raw@, u) =~= track_of(before, u));
                }
            }
            assert forall|u: int, d: Seq<u8>|
                #![trigger nibblizes_to(d, u as u8, skew@, tracks@[u]@)]
                0 <= u < t + 1 && nibblizes_to(d, u as u8, skew@, tracks@[u]@) implies forall|j: int|
                0 <= j < 4096 ==> #[trigger] track_byte(raw@, u, j) == read_back(
                    track_of(padded, u),
                    d,
                    skew@,
                    16,
                    j,
                ) by {
                if u == t {
                    assert forall|j: int| 0 <= j < 4096 implies #[trigger] track_byte(raw@, u, j)
                        == read_back(track_of(padded, u), d, skew@, 16, j) by {
                        assert(raw@[base + j] == buf@[j]);
                    }
                } else {
                    assert forall|j: int| 0 <= j < 4096 implies #[trigger] track_byte(raw@, u, j)
                        == read_back(track_of(padded, u), d, skew@, 16, j) by {
                        assert(track_byte(raw@, u, j) == track_byte(before, u, j));
                    }
                }
            }
        }
        t += 1;
    }
}

} // verus!
