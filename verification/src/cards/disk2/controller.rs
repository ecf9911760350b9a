//! The Disk II controller card: two drives, the stepper motor phases, the
//! motor and drive select switches, and the data latch.

use vstd::prelude::*;
use vstd::string::StringSliceAdditionalSpecFns;
use super::drive::{drive_read, drive_write, flush_post, DiskFormat, Drive, ImageWrite};
use super::nib::{
    dos33_skew, dos33_skew_spec, lemma_track_lengths, load_nib, load_nib_sized, nibblize_image,
    nibblize_image_13, nibblize_track_13_spec, nibblize_track_spec, prodos_skew, prodos_skew_spec,
    D13_SIZE, DSK_SIZE, NB2_SIZE, NB2_TRACK_SIZE, NIB_SIZE,
};
use super::woz::{has_woz_magic, parse_woz, woz_accepted, woz_magic, woz_parsed};
use crate::card::CardType;

verus! {

/// The 256-byte 16-sector boot ROM of the card ($Cn00).
pub open spec fn disk2_firmware() -> Seq<u8> {
    seq![
        0xA2, 0x20, 0xA0, 0x00, 0xA2, 0x03, 0x86, 0x3C,
        0x8A, 0x0A, 0x24, 0x3C, 0xF0, 0x10, 0x05, 0x3C,
        0x49, 0xFF, 0x29, 0x7E, 0xB0, 0x08, 0x4A, 0xD0,
        0xFB, 0x98, 0x9D, 0x56, 0x03, 0xC8, 0xE8, 0x10,
        0xE5, 0x20, 0x58, 0xFF, 0xBA, 0xBD, 0x00, 0x01,
        0x0A, 0x0A, 0x0A, 0x0A, 0x85, 0x2B, 0xAA, 0xBD,
        0x8E, 0xC0, 0xBD, 0x8C, 0xC0, 0xBD, 0x8A, 0xC0,
        0xBD, 0x89, 0xC0, 0xA0, 0x50, 0xBD, 0x80, 0xC0,
        0x98, 0x29, 0x03, 0x0A, 0x05, 0x2B, 0xAA, 0xBD,
        0x81, 0xC0, 0xA9, 0x56, 0x20, 0xA8, 0xFC, 0x88,
        0x10, 0xEB, 0x85, 0x26, 0x85, 0x3D, 0x85, 0x41,
        0xA9, 0x08, 0x85, 0x27, 0x18, 0x08, 0xBD, 0x8C,
        0xC0, 0x10, 0xFB, 0x49, 0xD5, 0xD0, 0xF7, 0xBD,
        0x8C, 0xC0, 0x10, 0xFB, 0xC9, 0xAA, 0xD0, 0xF3,
        0xEA, 0xBD, 0x8C, 0xC0, 0x10, 0xFB, 0xC9, 0x96,
        0xF0, 0x09, 0x28, 0x90, 0xDF, 0x49, 0xAD, 0xF0,
        0x25, 0xD0, 0xD9, 0xA0, 0x03, 0x85, 0x40, 0xBD,
        0x8C, 0xC0, 0x10, 0xFB, 0x2A, 0x85, 0x3C, 0xBD,
        0x8C, 0xC0, 0x10, 0xFB, 0x25, 0x3C, 0x88, 0xD0,
        0xEC, 0x28, 0xC5, 0x3D, 0xD0, 0xBE, 0xA5, 0x40,
        0xC5, 0x41, 0xD0, 0xB8, 0xB0, 0xB7, 0xA0, 0x56,
        0x84, 0x3C, 0xBC, 0x8C, 0xC0, 0x10, 0xFB, 0x59,
        0xD6, 0x02, 0xA4, 0x3C, 0x88, 0x99, 0x00, 0x03,
        0xD0, 0xEE, 0x84, 0x3C, 0xBC, 0x8C, 0xC0, 0x10,
        0xFB, 0x59, 0xD6, 0x02, 0xA4, 0x3C, 0x91, 0x26,
        0xC8, 0xD0, 0xEF, 0xBC, 0x8C, 0xC0, 0x10, 0xFB,
        0x59, 0xD6, 0x02, 0xD0, 0x87, 0xA0, 0x00, 0xA2,
        0x56, 0xCA, 0x30, 0xFB, 0xB1, 0x26, 0x5E, 0x00,
        0x03, 0x2A, 0x5E, 0x00, 0x03, 0x2A, 0x91, 0x26,
        0xC8, 0xD0, 0xEE, 0xE6, 0x27, 0xE6, 0x3D, 0xA5,
        0x3D, 0xCD, 0x00, 0x08, 0xA6, 0x2B, 0x90, 0xDB,
        0x4C, 0x01, 0x08, 0x00, 0x00, 0x00, 0x00, 0x00
    ]
}

/// The 16-sector boot ROM.
pub fn firmware() -> (r: [u8; 256])
    ensures
        r@ == disk2_firmware(),
{
    let fw: [u8; 256] = [
        0xA2, 0x20, 0xA0, 0x00, 0xA2, 0x03, 0x86, 0x3C,
        0x8A, 0x0A, 0x24, 0x3C, 0xF0, 0x10, 0x05, 0x3C,
        0x49, 0xFF, 0x29, 0x7E, 0xB0, 0x08, 0x4A, 0xD0,
        0xFB, 0x98, 0x9D, 0x56, 0x03, 0xC8, 0xE8, 0x10,
        0xE5, 0x20, 0x58, 0xFF, 0xBA, 0xBD, 0x00, 0x01,
        0x0A, 0x0A, 0x0A, 0x0A, 0x85, 0x2B, 0xAA, 0xBD,
        0x8E, 0xC0, 0xBD, 0x8C, 0xC0, 0xBD, 0x8A, 0xC0,
        0xBD, 0x89, 0xC0, 0xA0, 0x50, 0xBD, 0x80, 0xC0,
        0x98, 0x29, 0x03, 0x0A, 0x05, 0x2B, 0xAA, 0xBD,
        0x81, 0xC0, 0xA9, 0x56, 0x20, 0xA8, 0xFC, 0x88,
        0x10, 0xEB, 0x85, 0x26, 0x85, 0x3D, 0x85, 0x41,
        0xA9, 0x08, 0x85, 0x27, 0x18, 0x08, 0xBD, 0x8C,
        0xC0, 0x10, 0xFB, 0x49, 0xD5, 0xD0, 0xF7, 0xBD,
        0x8C, 0xC0, 0x10, 0xFB, 0xC9, 0xAA, 0xD0, 0xF3,
        0xEA, 0xBD, 0x8C, 0xC0, 0x10, 0xFB, 0xC9, 0x96,
        0xF0, 0x09, 0x28, 0x90, 0xDF, 0x49, 0xAD, 0xF0,
        0x25, 0xD0, 0xD9, 0xA0, 0x03, 0x85, 0x40, 0xBD,
        0x8C, 0xC0, 0x10, 0xFB, 0x2A, 0x85, 0x3C, 0xBD,
        0x8C, 0xC0, 0x10, 0xFB, 0x25, 0x3C, 0x88, 0xD0,
        0xEC, 0x28, 0xC5, 0x3D, 0xD0, 0xBE, 0xA5, 0x40,
        0xC5, 0x41, 0xD0, 0xB8, 0xB0, 0xB7, 0xA0, 0x56,
        0x84, 0x3C, 0xBC, 0x8C, 0xC0, 0x10, 0xFB, 0x59,
        0xD6, 0x02, 0xA4, 0x3C, 0x88, 0x99, 0x00, 0x03,
        0xD0, 0xEE, 0x84, 0x3C, 0xBC, 0x8C, 0xC0, 0x10,
        0xFB, 0x59, 0xD6, 0x02, 0xA4, 0x3C, 0x91, 0x26,
        0xC8, 0xD0, 0xEF, 0xBC, 0x8C, 0xC0, 0x10, 0xFB,
        0x59, 0xD6, 0x02, 0xD0, 0x87, 0xA0, 0x00, 0xA2,
        0x56, 0xCA, 0x30, 0xFB, 0xB1, 0x26, 0x5E, 0x00,
        0x03, 0x2A, 0x5E, 0x00, 0x03, 0x2A, 0x91, 0x26,
        0xC8, 0xD0, 0xEE, 0xE6, 0x27, 0xE6, 0x3D, 0xA5,
        0x3D, 0xCD, 0x00, 0x08, 0xA6, 0x2B, 0x90, 0xDB,
        0x4C, 0x01, 0x08, 0x00, 0x00, 0x00, 0x00, 0x00
    ];
    assert(fw@ == disk2_firmware());
    fw
}

/// The file starts with a WOZ1 or WOZ2 header.
pub open spec fn has_woz_header(d: Seq<u8>) -> bool {
    d.len() >= 8 && (woz_magic(d, 0x31) || woz_magic(d, 0x32))
}

/// How a non-WOZ image is loaded, from its extension and size: 0 ProDOS
/// order, 1 .nib, 2 .nb2, 3 13-sector, 4 DOS 3.3 order.
pub open spec fn load_plan(d: Seq<u8>, ext: Seq<u8>) -> int {
    if ext == seq![0x70u8, 0x6F] {
        0
    } else if ext == seq![0x6Eu8, 0x69, 0x62] {
        1
    } else if ext == seq![0x6Eu8, 0x62, 0x32] {
        2
    } else if ext == seq![0x64u8, 0x31, 0x33] {
        3
    } else if d.len() == D13_SIZE {
        3
    } else if d.len() == NB2_SIZE {
        2
    } else {
        4
    }
}

/// The disk format a load plan gives.
pub open spec fn plan_format(plan: int) -> DiskFormat {
    if plan == 0 {
        DiskFormat::ProDos
    } else if plan == 1 || plan == 2 {
        DiskFormat::Nib
    } else if plan == 3 {
        DiskFormat::Dos32
    } else {
        DiskFormat::Dos33
    }
}

/// The smallest image a load plan accepts.
pub open spec fn plan_min_size(plan: int) -> int {
    if plan == 1 {
        NIB_SIZE as int
    } else if plan == 2 {
        NB2_SIZE as int
    } else if plan == 3 {
        D13_SIZE as int
    } else {
        DSK_SIZE as int
    }
}

/// Track `t` of an image loaded by a plan.
pub open spec fn plan_track(d: Seq<u8>, plan: int, t: int) -> Seq<u8> {
    if plan == 0 {
        nibblize_track_spec(d.subrange(t * 4096, d.len() as int), t as u8, prodos_skew_spec())
    } else if plan == 1 {
        d.subrange(t * 6656, (t + 1) * 6656)
    } else if plan == 2 {
        d.subrange(t * 6384, (t + 1) * 6384)
    } else if plan == 3 {
        nibblize_track_13_spec(d.subrange(t * 3328, t * 3328 + 3328), t as u8)
    } else {
        nibblize_track_spec(d.subrange(t * 4096, d.len() as int), t as u8, dos33_skew_spec())
    }
}

/// The extension names a WOZ image.
pub open spec fn ext_is_woz(ext: Seq<u8>) -> bool {
    ext == seq![0x77u8, 0x6F, 0x7A]
}

/// The extension's bytes equal `lit`.
fn ext_is(ext: &str, lit: &[u8]) -> (r: bool)
    ensures
        r == (ext.spec_bytes() == lit@),
{
    let b = ext.as_bytes();
    if b.len() != lit.len() {
        return false;
    }
    let mut i: usize = 0;
    while i < b.len()
        invariant
            i <= b.len() == lit.len(),
            b@ == ext.spec_bytes(),
            forall|k: int| 0 <= k < i ==> b@[k] == lit@[k],
        decreases b.len() - i,
    {
        if b[i] != lit[i] {
            assert(b@[i as int] != lit@[i as int]);
            return false;
        }
        i += 1;
    }
    assert(b@ == lit@);
    true
}

/// The Disk II interface card.
pub struct Disk2Card {
    pub slot: usize,
    pub drives: Vec<Drive>,
    pub active_drive: usize,
    pub motor_on: bool,
    pub write_mode: bool,
    pub latch: u8,
    /// Stepper magnet states, bits 0-3 = phases 0-3.
    pub phases: u8,
    /// Image files to be written back (by the caller) after a flush.
    pub pending_writes: Vec<ImageWrite>,
}

/// The magnet states after a phase switch access `reg` (0-7): bit
/// `reg >> 1` set when `reg` is odd, cleared when even.
pub open spec fn switched_phases(phases: u8, reg: u8) -> u8 {
    let bit = 1u8 << ((reg >> 1u8) & 3);
    if reg & 1 != 0 {
        phases | bit
    } else {
        phases & !bit
    }
}

/// Where the head goes from phase `cur` with the magnets `phases`: one
/// step towards each energized neighbour (two cancel), kept within 0-79.
pub open spec fn stepped_phase(phases: u8, cur: i32) -> i32 {
    let fwd: int = if phases & (1u8 << (((cur + 1) % 4) as u8)) != 0 {
        1
    } else {
        0
    };
    let bwd: int = if phases & (1u8 << (((cur + 3) % 4) as u8)) != 0 {
        -1
    } else {
        0
    };
    let p = cur + fwd + bwd;
    (if p < 0 {
        0
    } else if p > 79 {
        79
    } else {
        p
    }) as i32
}

/// Energizing only the magnet one phase ahead of the head pulls it one
/// phase forward, and only the magnet one phase behind pulls it one phase
/// back; a head at either end stays within 0-79; with both or neither
/// energized it stays where it is.
pub proof fn lemma_step_toward_magnet(phases: u8, cur: i32)
    requires
        0 <= cur <= 79,
    ensures
        phases & (1u8 << (((cur + 1) % 4) as u8)) != 0 && phases & (1u8 << (((cur + 3) % 4) as u8)) == 0
            && cur < 79 ==> stepped_phase(phases, cur) == cur + 1,
        phases & (1u8 << (((cur + 3) % 4) as u8)) != 0 && phases & (1u8 << (((cur + 1) % 4) as u8)) == 0
            && cur > 0 ==> stepped_phase(phases, cur) == cur - 1,
        (phases & (1u8 << (((cur + 1) % 4) as u8)) != 0) == (phases & (1u8 << (((cur + 3) % 4) as u8)) != 0)
            ==> stepped_phase(phases, cur) == cur,
        0 <= stepped_phase(phases, cur) <= 79,
{
}

/// A drive after its head moved to phase `p`.
pub open spec fn moved_to(d: Drive, p: i32) -> Drive {
    Drive { phase: p, current_track_idx: (if p / 2 > 34 { 34 } else { p / 2 }) as usize, ..d }
}

impl Disk2Card {
    /// The card's state is consistent: two drives, a selected one, each
    /// consistent.
    pub open spec fn wf(&self) -> bool {
        &&& self.drives@.len() == 2
        &&& self.active_drive < 2
        &&& forall|i: int| 0 <= i < 2 ==> (#[trigger] self.drives@[i]).wf()
    }

    /// The selected drive.
    pub open spec fn active(&self) -> Drive {
        self.drives@[self.active_drive as int]
    }

    /// A card in `slot` with two empty drives, motor off, read mode, latch
    /// 0xFF.
    pub fn new(slot: usize) -> (r: Self)
        ensures
            r.wf(),
            r.slot == slot,
            r.active_drive == 0,
            !r.motor_on,
            !r.write_mode,
            r.latch == 0xFF,
            r.phases == 0,
            r.pending_writes@.len() == 0,
            !r.drives@[0].loaded && !r.drives@[1].loaded,
    {
        let mut drives: Vec<Drive> = Vec::new();
        drives.push(Drive::new());
        drives.push(Drive::new());
        Self {
            slot,
            drives,
            active_drive: 0,
            motor_on: false,
            write_mode: false,
            latch: 0xFF,
            phases: 0,
            pending_writes: Vec::new(),
        }
    }

    /// Whether the disk motor is spinning.
    pub fn motor_on(&self) -> (r: bool)
        ensures
            r == self.motor_on,
    {
        self.motor_on
    }

    /// The card type: Disk II.
    pub fn card_type(&self) -> (r: CardType)
        ensures
            r == CardType::Disk2,
    {
        CardType::Disk2
    }

    /// The slot number.
    pub fn slot(&self) -> (r: usize)
        ensures
            r == self.slot,
    {
        self.slot
    }

    /// The card after a read of its ROM page at `offset`, and the byte `r` read.
    pub open spec fn io_read_post(self, offset: u8, cycles: u64, next: Self, r: u8) -> bool {
        &&& r == disk2_firmware()[offset as int]
        &&& next == self
    }

    /// A read of the card's ROM page: the boot ROM byte.
    pub fn io_read(&mut self, offset: u8, cycles: u64) -> (r: u8)
        ensures
            old(self).io_read_post(offset, cycles, *final(self), r),
    {
        let fw = firmware();
        fw[offset as usize]
    }

    /// The card after a write of `value` to its ROM page at `offset`.
    pub open spec fn io_write_post(self, offset: u8, value: u8, cycles: u64, next: Self) -> bool {
        &&& next == self
    }

    /// Writes to the ROM page are ignored.
    pub fn io_write(&mut self, offset: u8, value: u8, cycles: u64)
        ensures
            old(self).io_write_post(offset, value, cycles, *final(self)),
    {
    }

    /// The card's $Cn00 ROM page.
    pub fn cx_rom(&self) -> (r: Option<[u8; 256]>)
        ensures
            r matches Some(fw) && fw@ == disk2_firmware(),
    {
        Some(firmware())
    }

    /// Whether a disk motor is spinning.
    pub fn disk_motor_on(&self) -> (r: bool)
        ensures
            r == self.motor_on,
    {
        self.motor_on
    }

    /// The card after its periodic update at cycle `cycles`.
    pub open spec fn update_post(self, cycles: u64, next: Self) -> bool {
        &&& next == self
    }

    /// Periodic update: nothing to do.
    pub fn update(&mut self, cycles: u64)
        ensures
            old(self).update_post(cycles, *final(self)),
    {
    }

    /// Hand over the image writes collected by flushes.
    pub fn take_pending_writes(&mut self) -> (r: Vec<ImageWrite>)
        ensures
            r@ == old(self).pending_writes@,
            final(self).pending_writes@.len() == 0,
            *final(self) == (Disk2Card { pending_writes: final(self).pending_writes, ..*old(self) }),
    {
        let mut out: Vec<ImageWrite> = Vec::new();
        std::mem::swap(&mut out, &mut self.pending_writes);
        out
    }
}

/// The writes a flush hands over, as a sequence.
pub open spec fn write_seq(w: Option<ImageWrite>) -> Seq<ImageWrite> {
    match w {
        Some(x) => seq![x],
        None => Seq::empty(),
    }
}

/// `t` is `s` with drive `i` replaced by `nd`.
pub open spec fn with_drive(s: Disk2Card, t: Disk2Card, i: int, nd: Drive) -> bool {
    &&& t.drives@ == s.drives@.update(i, nd)
    &&& t == (Disk2Card { drives: t.drives, ..s })
}

/// What loading `d` (with extension `ext`) into `drive` does to card `s`,
/// giving `t` and the result `r`.
pub open spec fn load_post(s: Disk2Card, t: Disk2Card, drive: usize, d: Seq<u8>, ext: Seq<u8>, r: bool) -> bool {
    if drive >= 2 {
        !r && t == s
    } else {
        let od = s.drives@[drive as int];
        let nd = t.drives@[drive as int];
        if ext_is_woz(ext) || has_woz_header(d) {
            &&& r == woz_accepted(d)
            &&& !r ==> t == s
            &&& r ==> {
                &&& with_drive(s, t, drive as int, nd)
                &&& nd.woz matches Some(w) && woz_parsed(d, w)
                    && nd.write_protected == w.write_protected
                &&& nd.tracks@.len() == 0
                &&& nd.raw@ == d
                &&& nd == (Drive {
                    woz: nd.woz,
                    tracks: nd.tracks,
                    raw: nd.raw,
                    write_protected: nd.write_protected,
                    loaded: true,
                    byte_pos: 0,
                    bit_pos: 0,
                    shift_reg: 0,
                    zero_count: 0,
                    phase: 0,
                    current_track_idx: 0,
                    dirty: false,
                    format: DiskFormat::Woz,
                    ..od
                })
            }
        } else {
            let plan = load_plan(d, ext);
            &&& r == (d.len() >= plan_min_size(plan))
            &&& !r ==> t == s
            &&& r ==> {
                &&& with_drive(s, t, drive as int, nd)
                &&& nd.tracks@.len() == 35
                &&& forall|k: int| 0 <= k < 35 ==> (#[trigger] nd.tracks@[k])@ == plan_track(d, plan, k)
                &&& nd.raw@ == d
                &&& nd == (Drive {
                    woz: None,
                    tracks: nd.tracks,
                    raw: nd.raw,
                    loaded: true,
                    byte_pos: 0,
                    phase: 0,
                    current_track_idx: 0,
                    dirty: false,
                    format: plan_format(plan),
                    write_protected: false,
                    ..od
                })
            }
        }
    }
}

/// What ejecting `drive` does to card `s`, giving `t`: the drive is
/// flushed (its write, if any, queued), then emptied.
pub open spec fn eject_post(s: Disk2Card, t: Disk2Card, drive: usize) -> bool {
    if drive >= 2 {
        t == s
    } else {
        let od = s.drives@[drive as int];
        let nd = t.drives@[drive as int];
        exists|mid: Drive, w: Option<ImageWrite>|
            #![trigger flush_post(od, mid, w)]
            flush_post(od, mid, w) && t.pending_writes@ == s.pending_writes@ + write_seq(w) && nd
                == (Drive { loaded: false, tracks: nd.tracks, raw: nd.raw, path: None, ..mid })
                && nd.tracks@.len() == 0 && nd.raw@.len() == 0 && t.drives@ == s.drives@.update(
                drive as int,
                nd,
            ) && t == (Disk2Card { drives: t.drives, pending_writes: t.pending_writes, ..s })
    }
}

/// What a stepper phase access `reg` does to card `s`, giving `t`.
pub open spec fn step_post(s: Disk2Card, t: Disk2Card, reg: u8) -> bool {
    let phases = switched_phases(s.phases, reg);
    let od = s.active();
    &&& t.drives@ == s.drives@.update(
        s.active_drive as int,
        moved_to(od, stepped_phase(phases, od.phase)),
    )
    &&& t == (Disk2Card { drives: t.drives, phases, ..s })
}

/// What switching the motor off does to card `s`, giving `t`: a spinning
/// drive is flushed first.
pub open spec fn motor_off_post(s: Disk2Card, t: Disk2Card) -> bool {
    if s.motor_on {
        exists|mid: Drive, w: Option<ImageWrite>|
            #![trigger flush_post(s.active(), mid, w)]
            flush_post(s.active(), mid, w) && t.pending_writes@ == s.pending_writes@ + write_seq(w)
                && t.drives@ == s.drives@.update(s.active_drive as int, mid) && t == (Disk2Card {
                drives: t.drives,
                pending_writes: t.pending_writes,
                motor_on: false,
                ..s
            })
    } else {
        t == (Disk2Card { motor_on: false, ..s })
    }
}

/// What the data strobe (register 0x0C) does to card `s` when read, giving
/// `t`: with the motor on, write mode writes the latch to the disk and read
/// mode loads the next nibble (if one is ready) into the latch.
pub open spec fn strobe_read_post(s: Disk2Card, t: Disk2Card, cycles: u64) -> bool {
    if s.write_mode && s.motor_on {
        exists|nd: Drive|
            #![trigger drive_write(s.active(), nd, s.latch, cycles)]
            drive_write(s.active(), nd, s.latch, cycles) && with_drive(s, t, s.active_drive as int, nd)
    } else if !s.write_mode && s.motor_on {
        exists|nd: Drive, res: Option<u8>|
            #![trigger drive_read(s.active(), nd, cycles, res)]
            drive_read(s.active(), nd, cycles, res) && t.drives@ == s.drives@.update(
                s.active_drive as int,
                nd,
            ) && t == (Disk2Card {
                drives: t.drives,
                latch: (match res {
                    Some(n) => n,
                    None => s.latch,
                }),
                ..s
            })
    } else {
        t == s
    }
}

impl Disk2Card {
    /// The card after an image `data` with extension `ext` is loaded into
    /// drive `drive`; `r` when it was taken.
    pub open spec fn load_drive_post(self, drive: usize, data: Seq<u8>, ext: Seq<u8>, next: Self, r: bool) -> bool {
        &&& next.wf()
        &&& load_post(self, next, drive, data, ext, r)
    }

    /// Load a disk image into `drive` (0 or 1). WOZ images (by extension
    /// "woz" or by their header) are loaded for bit-level emulation; other
    /// images are nibblized by extension ("po": ProDOS order, "nib", "nb2",
    /// "d13") or, failing that, by size (13-sector, .nb2, else DOS 3.3
    /// order). Returns whether the image was accepted.
    pub fn load_drive(&mut self, drive: usize, data: &[u8], ext: &str) -> (r: bool)
        requires
            old(self).wf(),
        ensures
            old(self).load_drive_post(drive, data@, ext.spec_bytes(), *final(self), r),
    {
        if drive >= 2 {
            return false;
        }
        let is_woz_magic = data.len() >= 8 && (has_woz_magic(data, 0x31) || has_woz_magic(data, 0x32));
        if ext_is(ext, &[0x77, 0x6F, 0x7A]) || is_woz_magic {
            match parse_woz(data) {
                Some(woz) => {
                    let wp = woz.write_protected;
                    let raw = vstd::slice::slice_to_vec(data);
                    let ghost od = self.drives@[drive as int];
                    let d = &mut self.drives[drive];
                    d.woz = Some(woz);
                    d.tracks = Vec::new();
                    d.loaded = true;
                    d.byte_pos = 0;
                    d.bit_pos = 0;
                    d.shift_reg = 0;
                    d.zero_count = 0;
                    d.phase = 0;
                    d.current_track_idx = 0;
                    d.dirty = false;
                    d.format = DiskFormat::Woz;
                    d.raw = raw;
                    d.write_protected = wp;
                    return true;
                },
                None => {
                    return false;
                },
            }
        }
        let ghost plan = load_plan(data@, ext.spec_bytes());
        let (format, tracks) = if ext_is(ext, &[0x70, 0x6F]) {
            (DiskFormat::ProDos, nibblize_image(data, &prodos_skew()))
        } else if ext_is(ext, &[0x6E, 0x69, 0x62]) {
            (DiskFormat::Nib, load_nib(data))
        } else if ext_is(ext, &[0x6E, 0x62, 0x32]) {
            (DiskFormat::Nib, load_nib_sized(data, NB2_TRACK_SIZE))
        } else if ext_is(ext, &[0x64, 0x31, 0x33]) {
            (DiskFormat::Dos32, nibblize_image_13(data))
        } else if data.len() == D13_SIZE {
            (DiskFormat::Dos32, nibblize_image_13(data))
        } else if data.len() == NB2_SIZE {
            (DiskFormat::Nib, load_nib_sized(data, NB2_TRACK_SIZE))
        } else {
            (DiskFormat::Dos33, nibblize_image(data, &dos33_skew()))
        };
        match tracks {
            Some(t) => {
                proof {
                    assert forall|k: int| 0 <= k < 35 implies (#[trigger] t@[k])@ == plan_track(data@, plan, k)
                        && t@[k]@.len() == t@[0]@.len() by {
                        if plan == 0 {
                            lemma_track_lengths(data@.subrange(k * 4096, data@.len() as int), k as u8, prodos_skew_spec(), data@);
                            lemma_track_lengths(data@.subrange(0, data@.len() as int), 0, prodos_skew_spec(), data@);
                        } else if plan == 4 {
                            lemma_track_lengths(data@.subrange(k * 4096, data@.len() as int), k as u8, dos33_skew_spec(), data@);
                            lemma_track_lengths(data@.subrange(0, data@.len() as int), 0, dos33_skew_spec(), data@);
                        } else if plan == 3 {
                            lemma_track_lengths(data@.subrange(0, 4096), k as u8, dos33_skew_spec(), data@.subrange(k * 3328, k * 3328 + 3328));
                            lemma_track_lengths(data@.subrange(0, 4096), 0, dos33_skew_spec(), data@.subrange(0, 3328));
                        }
                    }
                }
                let raw = vstd::slice::slice_to_vec(data);
                let d = &mut self.drives[drive];
                d.woz = None;
                d.tracks = t;
                d.loaded = true;
                d.byte_pos = 0;
                d.phase = 0;
                d.current_track_idx = 0;
                d.dirty = false;
                d.format = format;
                d.raw = raw;
                d.write_protected = false;
                true
            },
            None => false,
        }
    }

    /// The card after drive `drive` is given the write-back path `path`.
    pub open spec fn set_drive_path_post(self, drive: usize, path: String, next: Self) -> bool {
        &&& next.wf()
        &&& drive >= 2 ==> next == self
        &&& drive < 2 ==> with_drive(
            self,
            next,
            drive as int,
            Drive { path: Some(path), ..self.drives@[drive as int] },
        )
    }

    /// Set the image file path of `drive` (0 or 1) for write-back.
    pub fn set_drive_path(&mut self, drive: usize, path: String)
        requires
            old(self).wf(),
        ensures
            old(self).set_drive_path_post(drive, path, *final(self)),
    {
        if drive < 2 {
            self.drives[drive].path = Some(path);
        }
    }

    /// The card after the disk of drive `drive` is ejected.
    pub open spec fn eject_drive_post(self, drive: usize, next: Self) -> bool {
        &&& next.wf()
        &&& eject_post(self, next, drive)
    }

    /// Eject the disk in `drive` (0 or 1): flush it, then empty the drive.
    pub fn eject_drive(&mut self, drive: usize)
        requires
            old(self).wf(),
        ensures
            old(self).eject_drive_post(drive, *final(self)),
    {
        if drive < 2 {
            let ghost od = self.drives@[drive as int];
            let w = self.drives[drive].flush();
            let ghost mid = self.drives@[drive as int];
            let ghost wg = w;
            match w {
                Some(x) => self.pending_writes.push(x),
                None => {},
            }
            assert(self.pending_writes@ == old(self).pending_writes@ + write_seq(wg));
            self.drives[drive].loaded = false;
            self.drives[drive].tracks.clear();
            self.drives[drive].raw.clear();
            self.drives[drive].path = None;
            let ghost nd = self.drives@[drive as int];
            assert(flush_post(od, mid, wg));
            assert(nd == (Drive { loaded: false, tracks: nd.tracks, raw: nd.raw, path: None, ..mid }));
            assert(self.drives@ =~= old(self).drives@.update(drive as int, nd));
            assert(*self == (Disk2Card { drives: self.drives, pending_writes: self.pending_writes, ..*old(self) }));
        }
    }

    /// Update the stepper magnets from a phase switch access and move the
    /// head of the selected drive.
    fn step_phase(&mut self, reg: u8)
        requires
            old(self).wf(),
        ensures
            final(self).wf(),
            step_post(*old(self), *final(self), reg),
    {
        let phase = (reg >> 1u8) & 3;
        assert(phase < 4) by (bit_vector)
            requires
                phase == (reg >> 1u8) & 3,
        ;
        let phase_bit = 1u8 << phase;
        if reg & 1 != 0 {
            self.phases = self.phases | phase_bit;
        } else {
            self.phases = self.phases & !phase_bit;
        }
        let a = self.active_drive;
        let cur = self.drives[a].phase;
        let fwd: i32 = if self.phases & (1u8 << (((cur + 1) % 4) as u8)) != 0 {
            1
        } else {
            0
        };
        let bwd: i32 = if self.phases & (1u8 << (((cur + 3) % 4) as u8)) != 0 {
            -1
        } else {
            0
        };
        let p = cur + fwd + bwd;
        let np = if p < 0 {
            0
        } else if p > 79 {
            79
        } else {
            p
        };
        assert(self.phases == switched_phases(old(self).phases, reg));
        assert(np == stepped_phase(self.phases, cur));
        let ghost od = self.drives@[a as int];
        self.drives[a].phase = np;
        self.drives[a].update_track_idx();
        assert(self.drives@[a as int] == moved_to(od, np));
        assert(self.drives@ =~= old(self).drives@.update(a as int, moved_to(od, np)));
    }

    /// Switch the motor off, flushing a spinning drive.
    fn motor_off(&mut self)
        requires
            old(self).wf(),
        ensures
            final(self).wf(),
            motor_off_post(*old(self), *final(self)),
    {
        if self.motor_on {
            let a = self.active_drive;
            let ghost od = self.drives@[a as int];
            let w = self.drives[a].flush();
            let ghost mid = self.drives@[a as int];
            let ghost wg = w;
            match w {
                Some(x) => self.pending_writes.push(x),
                None => {},
            }
            assert(self.pending_writes@ == old(self).pending_writes@ + write_seq(wg));
            assert(flush_post(od, mid, wg));
        }
        self.motor_on = false;
    }

    /// The data strobe, read: write the latch in write mode, load the next
    /// nibble in read mode (motor on); returns the latch.
    fn strobe_read(&mut self, cycles: u64) -> (r: u8)
        requires
            old(self).wf(),
        ensures
            final(self).wf(),
            strobe_read_post(*old(self), *final(self), cycles),
            r == final(self).latch,
    {
        let a = self.active_drive;
        if self.write_mode && self.motor_on {
            let latch = self.latch;
            self.drives[a].write_nibble(latch, cycles);
            let ghost nd = self.drives@[a as int];
            assert(drive_write(old(self).active(), nd, old(self).latch, cycles));
        } else if !self.write_mode && self.motor_on {
            let res = self.drives[a].read_nibble(cycles);
            let ghost nd = self.drives@[a as int];
            let ghost resg = res;
            match res {
                Some(nibble) => {
                    self.latch = nibble;
                },
                None => {},
            }
            assert(drive_read(old(self).active(), nd, cycles, resg));
        }
        self.latch
    }

    /// The card after a read of its register `reg`, and the byte `r` read.
    pub open spec fn slot_io_read_post(self, reg: u8, cycles: u64, next: Self, r: u8) -> bool {
        &&& next.wf()
        &&& ({
            let s = self;
            let t = next;
            if reg <= 0x07 {
                step_post(s, t, reg) && r == s.latch
            } else if reg == 0x08 {
                motor_off_post(s, t) && r == s.latch
            } else if reg == 0x09 {
                t == (Disk2Card { motor_on: true, ..s }) && r == s.latch
            } else if reg == 0x0A {
                t == (Disk2Card { active_drive: 0, ..s }) && r == s.latch
            } else if reg == 0x0B {
                t == (Disk2Card { active_drive: 1, ..s }) && r == s.latch
            } else if reg == 0x0C {
                strobe_read_post(s, t, cycles) && r == t.latch
            } else if reg == 0x0D {
                t == s && r == (if s.active().write_protected { 0x80u8 } else { 0x00u8 })
            } else if reg == 0x0E {
                t == (Disk2Card { write_mode: false, ..s }) && r == s.latch
            } else if reg == 0x0F {
                t == (Disk2Card { write_mode: true, ..s }) && r == s.latch
            } else {
                t == s && r == s.latch
            }
        })
    }

    /// A read of the card's I/O registers ($C0x0-$C0xF): stepper phases
    /// (0-7), motor off/on (8, 9), drive 1/2 (A, B), data strobe (C),
    /// write-protect sense (D), read/write mode (E, F). Most return the data
    /// latch; register D returns 0x80 for a write-protected disk.
    pub fn slot_io_read(&mut self, reg: u8, cycles: u64) -> (r: u8)
        requires
            old(self).wf(),
        ensures
            old(self).slot_io_read_post(reg, cycles, *final(self), r),
    {
        if reg <= 0x07 {
            self.step_phase(reg);
            self.latch
        } else if reg == 0x08 {
            self.motor_off();
            self.latch
        } else if reg == 0x09 {
            self.motor_on = true;
            self.latch
        } else if reg == 0x0A {
            self.active_drive = 0;
            self.latch
        } else if reg == 0x0B {
            self.active_drive = 1;
            self.latch
        } else if reg == 0x0C {
            self.strobe_read(cycles)
        } else if reg == 0x0D {
            if self.drives[self.active_drive].write_protected {
                0x80
            } else {
                0x00
            }
        } else if reg == 0x0E {
            self.write_mode = false;
            self.latch
        } else if reg == 0x0F {
            self.write_mode = true;
            self.latch
        } else {
            self.latch
        }
    }

    /// The card after a write of `value` to its register `reg`.
    pub open spec fn slot_io_write_post(self, reg: u8, value: u8, cycles: u64, next: Self) -> bool {
        &&& next.wf()
        &&& ({
            let s = self;
            let t = next;
            if reg <= 0x07 {
                step_post(s, t, reg)
            } else if reg == 0x08 {
                motor_off_post(s, t)
            } else if reg == 0x09 {
                t == (Disk2Card { motor_on: true, ..s })
            } else if reg == 0x0A {
                t == (Disk2Card { active_drive: 0, ..s })
            } else if reg == 0x0B {
                t == (Disk2Card { active_drive: 1, ..s })
            } else if reg == 0x0C {
                if s.write_mode && s.motor_on {
                    exists|nd: Drive|
                        #![trigger drive_write(s.active(), nd, value, cycles)]
                        drive_write(s.active(), nd, value, cycles) && t.drives@ == s.drives@.update(
                            s.active_drive as int,
                            nd,
                        ) && t == (Disk2Card { drives: t.drives, latch: value, ..s })
                } else {
                    t == s
                }
            } else if reg == 0x0D {
                t == (Disk2Card { latch: value, ..s })
            } else if reg == 0x0E {
                t == (Disk2Card { write_mode: false, ..s })
            } else if reg == 0x0F {
                t == (Disk2Card { write_mode: true, ..s })
            } else {
                t == s
            }
        })
    }

    /// A write to the card's I/O registers: as a read for the switches; the
    /// data strobe (C) in write mode with the motor on loads the latch and
    /// writes it; register D loads the latch.
    pub fn slot_io_write(&mut self, reg: u8, value: u8, cycles: u64)
        requires
            old(self).wf(),
        ensures
            old(self).slot_io_write_post(reg, value, cycles, *final(self)),
    {
        if reg <= 0x07 {
            self.step_phase(reg);
        } else if reg == 0x08 {
            self.motor_off();
        } else if reg == 0x09 {
            self.motor_on = true;
        } else if reg == 0x0A {
            self.active_drive = 0;
        } else if reg == 0x0B {
            self.active_drive = 1;
        } else if reg == 0x0C {
            if self.write_mode && self.motor_on {
                self.latch = value;
                let a = self.active_drive;
                self.drives[a].write_nibble(value, cycles);
                let ghost nd = self.drives@[a as int];
                assert(drive_write(old(self).active(), nd, value, cycles));
            }
        } else if reg == 0x0D {
            self.latch = value;
        } else if reg == 0x0E {
            self.write_mode = false;
        } else if reg == 0x0F {
            self.write_mode = true;
        }
    }

    /// The card after a reset (`power_cycle` for a power cycle).
    pub open spec fn reset_post(self, power_cycle: bool, next: Self) -> bool {
        &&& next.wf()
        &&& next == (Disk2Card {
            motor_on: false,
            write_mode: false,
            latch: 0xFF,
            phases: 0,
            active_drive: 0,
            drives: next.drives,
            ..self
        })
        &&& next.drives@ == seq![
            Drive { byte_pos: 0, ..self.drives@[0] },
            Drive { byte_pos: 0, ..self.drives@[1] },
        ]
    }

    /// Reset: motor off, read mode, latch 0xFF, magnets off, drive 1
    /// selected, both drives back to the start of their track buffers.
    pub fn reset(&mut self, power_cycle: bool)
        requires
            old(self).wf(),
        ensures
            old(self).reset_post(power_cycle, *final(self)),
    {
        self.motor_on = false;
        self.write_mode = false;
        self.latch = 0xFF;
        self.phases = 0;
        self.active_drive = 0;
        self.drives[0].byte_pos = 0;
        self.drives[1].byte_pos = 0;
        assert(self.drives@ =~= seq![
            Drive { byte_pos: 0, ..old(self).drives@[0] },
            Drive { byte_pos: 0, ..old(self).drives@[1] },
        ]);
    }
}

/// An access a program makes to a Disk II card.
#[derive(Debug, Clone, Copy, PartialEq, Eq, Structural)]
pub enum Disk2Call {
    /// `slot_io_read(reg, cycles)`.
    Read { reg: u8, cycles: u64 },
    /// `slot_io_write(reg, value, cycles)`.
    Write { reg: u8, value: u8, cycles: u64 },
    /// `reset(power_cycle)`.
    Reset { power_cycle: bool },
}

/// Card `s` becomes `t` by the access `call`.
pub open spec fn disk2_call(s: Disk2Card, call: Disk2Call, t: Disk2Card) -> bool {
    match call {
        Disk2Call::Read { reg, cycles } => exists|r: u8| #[trigger] s.slot_io_read_post(reg, cycles, t, r),
        Disk2Call::Write { reg, value, cycles } => s.slot_io_write_post(reg, value, cycles, t),
        Disk2Call::Reset { power_cycle } => s.reset_post(power_cycle, t),
    }
}

/// How `call` switches the motor: on for register 9, off for register 8
/// or a reset, not at all otherwise.
pub open spec fn motor_switch(call: Disk2Call) -> Option<bool> {
    match call {
        Disk2Call::Read { reg, .. } | Disk2Call::Write { reg, .. } => if reg == 9 {
            Some(true)
        } else if reg == 8 {
            Some(false)
        } else {
            None
        },
        Disk2Call::Reset { .. } => Some(false),
    }
}

/// Whether the last of `calls` that switches the motor switched it on
/// (false when none did).
pub open spec fn motor_switched_on(calls: Seq<Disk2Call>) -> bool
    decreases calls.len(),
{
    if calls.len() == 0 {
        false
    } else {
        match motor_switch(calls.last()) {
            Some(on) => on,
            None => motor_switched_on(calls.drop_last()),
        }
    }
}

/// One access switches the motor as `motor_switch` says and otherwise
/// leaves it as it was.
pub proof fn lemma_motor_step(s: Disk2Card, call: Disk2Call, t: Disk2Card)
    requires
        disk2_call(s, call, t),
    ensures
        t.motor_on == match motor_switch(call) {
            Some(on) => on,
            None => s.motor_on,
        },
{
    match call {
        Disk2Call::Read { reg, cycles } => {
            let r = choose|r: u8| #[trigger] s.slot_io_read_post(reg, cycles, t, r);
            assert(s.slot_io_read_post(reg, cycles, t, r));
        },
        _ => {},
    }
}

/// The motor of a card that starts with it off (as `Disk2Card::new` makes
/// it), after any run of `slot_io_read`, `slot_io_write` and `reset` calls
/// (`cards[k + 1]` is `cards[k]` after `calls[k]`), spins exactly when the
/// last call that switched it was an access to register 9 ($C0n9); it is
/// off when no call switched it. `motor_on()` and `disk_motor_on()` both
/// return this flag.
pub proof fn lemma_motor_law(cards: Seq<Disk2Card>, calls: Seq<Disk2Call>)
    requires
        cards.len() == calls.len() + 1,
        !cards[0].motor_on,
        forall|k: int| 0 <= k < calls.len() ==> disk2_call(cards[k], #[trigger] calls[k], cards[k + 1]),
    ensures
        cards.last().motor_on == motor_switched_on(calls),
    decreases calls.len(),
{
    if calls.len() > 0 {
        let n = calls.len() - 1;
        assert forall|k: int| 0 <= k < calls.drop_last().len() implies disk2_call(
            cards.drop_last()[k],
            #[trigger] calls.drop_last()[k],
            cards.drop_last()[k + 1],
        ) by {
            assert(calls.drop_last()[k] == calls[k]);
            assert(disk2_call(cards[k], calls[k], cards[k + 1]));
        }
        lemma_motor_law(cards.drop_last(), calls.drop_last());
        assert(disk2_call(cards[n], calls[n], cards[n + 1]));
        lemma_motor_step(cards[n], calls[n], cards[n + 1]);
    }
}

} // verus!
