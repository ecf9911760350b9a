//! Rules shared by the sound cards: how a slot register reaches one of a
//! card's two VIAs, which AY-3-8910 bus cycle a VIA's port B selects, and
//! the registers and timing of the SSI-263 speech chip.

use vstd::prelude::*;
use super::ay::{reg_value, reg_written, AyGen};
use super::via6522::{via_read_spec, via_tick_spec, via_write_spec, Via6522};

verus! {

/// The AY-3-8910 bus cycle selected by BDIR/BC1 (port B bits 1:0).
#[derive(Debug, Clone, Copy, PartialEq, Eq, Structural)]
pub enum AyBusOp {
    /// %00: nothing.
    Inactive,
    /// %01: the selected register is read into port A.
    Read,
    /// %10: port A is written to the selected register.
    Write,
    /// %11: port A selects the register.
    Latch,
}

/// The bus cycle that port B value `orb` selects.
pub open spec fn ay_bus_op_spec(orb: u8) -> AyBusOp {
    let bc = orb % 4;
    if bc == 3 {
        AyBusOp::Latch
    } else if bc == 2 {
        AyBusOp::Write
    } else if bc == 1 {
        AyBusOp::Read
    } else {
        AyBusOp::Inactive
    }
}

/// The bus cycle that port B value `orb` selects.
pub fn ay_bus_op(orb: u8) -> (op: AyBusOp)
    ensures
        op == ay_bus_op_spec(orb),
{
    let bc = orb % 4;
    if bc == 3 {
        AyBusOp::Latch
    } else if bc == 2 {
        AyBusOp::Write
    } else if bc == 1 {
        AyBusOp::Read
    } else {
        AyBusOp::Inactive
    }
}

/// VIA `v1` and chip `a1` are VIA `v0` and chip `a0` after the AY bus
/// cycle that port B of `v0` selects, with port A as the data bus: a latch
/// selects register `ora`, a write stores `ora` in the selected register,
/// a read puts the selected register's value into port A.
pub open spec fn ay_strobed(v0: Via6522, a0: AyGen, v1: Via6522, a1: AyGen) -> bool {
    match ay_bus_op_spec(v0.orb) {
        AyBusOp::Latch => v1 == v0 && a1 == (AyGen { selected_reg: v0.ora & 0x0F, ..a0 }),
        AyBusOp::Write => v1 == v0 && reg_written(a0, v0.ora, a1),
        AyBusOp::Read => a1 == a0 && v1 == (Via6522 { ora: reg_value(a0), ..v0 }),
        AyBusOp::Inactive => v1 == v0 && a1 == a0,
    }
}

/// Run the AY bus cycle that port B of `via` selects against `ay`, with
/// port A as the data bus.
pub fn strobe_ay(via: &mut Via6522, ay: &mut AyGen)
    requires
        old(ay).wf(),
    ensures
        final(ay).wf(),
        ay_strobed(*old(via), *old(ay), *final(via), *final(ay)),
{
    let data = via.ora;
    match ay_bus_op(via.orb) {
        AyBusOp::Latch => ay.select_reg(data),
        AyBusOp::Write => ay.write_reg(data),
        AyBusOp::Read => {
            via.ora = ay.read_reg();
        },
        AyBusOp::Inactive => {},
    }
}

/// Whether a read of VIA register `via_reg` runs the AY bus cycle first: a
/// read of port A (register 1) while port B's bit 0 (BC1) is set.
pub fn read_strobes_ay(via_reg: u8, orb: u8) -> (r: bool)
    ensures
        r == (via_reg == 1 && orb & 1 != 0),
{
    via_reg == 1 && orb & 1 != 0
}

/// Whether a write of VIA register `via_reg` runs the AY bus cycle: a write
/// of port B (register 0).
pub fn write_strobes_ay(via_reg: u8) -> (r: bool)
    ensures
        r == (via_reg == 0),
{
    via_reg == 0
}

/// The AY bus cycle of a MegaAudio VIA: the cycle of `strobe_ay` on `ay`;
/// with `mirror` (the first VIA) a latch or a write also reaches the third
/// chip `third`, with the same data.
pub fn strobe_ay_mirrored(via: &mut Via6522, ay: &mut AyGen, third: &mut AyGen, mirror: bool)
    requires
        old(ay).wf(),
        old(third).wf(),
    ensures
        final(ay).wf(),
        final(third).wf(),
        ay_strobed(*old(via), *old(ay), *final(via), *final(ay)),
        if mirror && (ay_bus_op_spec(old(via).orb) == AyBusOp::Latch || ay_bus_op_spec(old(via).orb)
            == AyBusOp::Write) {
            ay_strobed(*old(via), *old(third), *old(via), *final(third))
        } else {
            *final(third) == *old(third)
        },
{
    let v0 = *via;
    strobe_ay(via, ay);
    if mirror {
        match ay_bus_op(v0.orb) {
            AyBusOp::Latch => third.select_reg(v0.ora),
            AyBusOp::Write => third.write_reg(v0.ora),
            _ => {},
        }
    }
}

/// A read of register `via_reg` of a VIA that drives AY chip `ay`, at CPU
/// cycle `cycles`: the timers catch up, a read of port A (register 1)
/// while port B's bit 0 (BC1) is set first runs the AY bus cycle, and then
/// the register is read.
pub fn via_ay_read(via: &mut Via6522, ay: &mut AyGen, via_reg: u8, cycles: u64) -> (r: u8)
    requires
        old(ay).wf(),
    ensures
        final(ay).wf(),
        ({
            let v1 = via_tick_spec(*old(via), cycles);
            if via_reg == 1 && v1.orb & 1 != 0 {
                ay_strobed(v1, *old(ay), *final(via), *final(ay))
            } else {
                *final(via) == v1 && *final(ay) == *old(ay)
            }
        }),
        r == via_read_spec(*final(via), via_reg),
{
    via.tick(cycles);
    if read_strobes_ay(via_reg, via.orb) {
        strobe_ay(via, ay);
    }
    via.read(via_reg)
}

/// A write of `val` to register `via_reg` of a VIA that drives AY chip
/// `ay`, at CPU cycle `cycles`: the timers catch up, the register takes
/// the value, and a write of port B (register 0) runs the AY bus cycle.
pub fn via_ay_write(via: &mut Via6522, ay: &mut AyGen, via_reg: u8, val: u8, cycles: u64)
    requires
        old(ay).wf(),
    ensures
        final(ay).wf(),
        ({
            let v1 = via_write_spec(via_tick_spec(*old(via), cycles), via_reg, val);
            if via_reg == 0 {
                ay_strobed(v1, *old(ay), *final(via), *final(ay))
            } else {
                *final(via) == v1 && *final(ay) == *old(ay)
            }
        }),
{
    via.tick(cycles);
    via.write(via_reg, val);
    if write_strobes_ay(via_reg) {
        strobe_ay(via, ay);
    }
}

/// Whether a write of VIA register `via_reg` reaches the speech chip on
/// that VIA: a write of port A (register 1) while the CB2 control bits of
/// the VIA's PCR (bits 7-5) are not all clear.
pub fn speech_write(via_reg: u8, pcr: u8) -> (r: bool)
    ensures
        r == (via_reg == 1 && pcr & 0xE0 != 0),
{
    via_reg == 1 && pcr & 0xE0 != 0
}

/// The VIA (0 for slot registers 0-7, 1 above) and its register (0-7)
/// that slot register `reg` reaches.
pub fn via_register(reg: u8) -> (r: (usize, u8))
    ensures
        r.0 == (if reg < 8 { 0usize } else { 1 }),
        r.1 == reg % 8,
{
    (if reg < 8 { 0 } else { 1 }, reg % 8)
}

/// The AY chips that a bus cycle of VIA `via_idx` reaches on a Phasor:
/// in native mode chip `2 * via_idx` when port B bit 3 is set and chip
/// `2 * via_idx + 1` when bit 4 is; in Mockingboard mode chip `via_idx`.
pub fn phasor_targets(orb: u8, via_idx: usize, phasor_mode: bool) -> (r: (Option<usize>, Option<usize>))
    requires
        via_idx < 2,
    ensures
        phasor_mode ==> r.0 == (if (orb / 8) % 2 == 1 { Some((2 * via_idx) as usize) } else { None::<usize> }),
        phasor_mode ==> r.1 == (if (orb / 16) % 2 == 1 { Some((2 * via_idx + 1) as usize) } else { None::<usize> }),
        !phasor_mode ==> r.0 == Some(via_idx) && r.1 == None::<usize>,
{
    if phasor_mode {
        let base = via_idx * 2;
        let first = if (orb / 8) % 2 == 1 { Some(base) } else { None };
        let second = if (orb / 16) % 2 == 1 { Some(base + 1) } else { None };
        (first, second)
    } else {
        (Some(via_idx), None)
    }
}

/// Base length, in samples, of each of the 64 SSI-263 phonemes.
pub open spec fn phoneme_base(p: int) -> u32 {
    seq![
        2000u32, 1800, 1800, 1800, 2000, 2000, 2000, 2000, 2000, 2000, 2000, 2000, 2000, 2000, 2000,
        2000, 2200, 2200, 2200, 2200, 2200, 2200, 2200, 2200, 1500, 1500, 1500, 1200, 1500, 1200,
        1200, 1000, 1500, 1500, 1500, 1500, 1200, 1200, 1000, 1000, 1500, 1500, 1500, 1500, 1500,
        1500, 1500, 1500, 800, 800, 800, 800, 800, 800, 800, 800, 1000, 1000, 1000, 800, 800, 800,
        800, 800,
    ][p]
}

/// Length of phoneme `p` with duration/phoneme register `reg0`: the base
/// length times 4 - (bits 7:6), so the longest at 0 and the base at 3.
pub open spec fn phoneme_length(p: u8, reg0: u8) -> u32 {
    (phoneme_base(p as int) * (4 - reg0 / 64)) as u32
}

/// The length of phoneme `p` (below 64) with duration register `reg0`.
pub fn phoneme_duration(p: u8, reg0: u8) -> (n: u32)
    requires
        p < 64,
    ensures
        n == phoneme_length(p, reg0),
{
    let table: [u32; 64] = [
        2000, 1800, 1800, 1800, 2000, 2000, 2000, 2000, 2000, 2000, 2000, 2000, 2000, 2000, 2000,
        2000, 2200, 2200, 2200, 2200, 2200, 2200, 2200, 2200, 1500, 1500, 1500, 1200, 1500, 1200,
        1200, 1000, 1500, 1500, 1500, 1500, 1200, 1200, 1000, 1000, 1500, 1500, 1500, 1500, 1500,
        1500, 1500, 1500, 800, 800, 800, 800, 800, 800, 800, 800, 1000, 1000, 1000, 800, 800, 800,
        800, 800,
    ];
    assert(table@ =~= seq![
        2000u32, 1800, 1800, 1800, 2000, 2000, 2000, 2000, 2000, 2000, 2000, 2000, 2000, 2000, 2000,
        2000, 2200, 2200, 2200, 2200, 2200, 2200, 2200, 2200, 1500, 1500, 1500, 1200, 1500, 1200,
        1200, 1000, 1500, 1500, 1500, 1500, 1200, 1200, 1000, 1000, 1500, 1500, 1500, 1500, 1500,
        1500, 1500, 1500, 800, 800, 800, 800, 800, 800, 800, 800, 1000, 1000, 1000, 800, 800, 800,
        800, 800,
    ]);
    let base = table[p as usize];
    assert(base <= 2200);
    let factor: u32 = 4 - (reg0 / 64) as u32;
    assert(base * factor <= 2200 * 4) by (nonlinear_arith)
        requires
            base <= 2200,
            factor <= 4,
    ;
    base * factor
}

/// The registers and timing of the SSI-263 speech chip: the five
/// registers, the countdown to READY, the power state (CTL clear), the
/// phoneme being spoken and the samples of it still to play.
#[derive(Debug, Clone, Copy)]
pub struct SpeechChip {
    pub regs: [u8; 5],
    pub ready_countdown: u64,
    pub powered: bool,
    pub phoneme: u8,
    pub samples_remaining: u32,
}

impl SpeechChip {
    /// A powered, idle chip with cleared registers.
    pub fn new() -> (c: Self)
        ensures
            speech_fresh(c),
            c.regs@ == seq![0u8, 0, 0, 0, 0],
            c.ready_countdown == 0,
            c.powered,
            c.phoneme == 0,
            c.samples_remaining == 0,
    {
        let c = SpeechChip { regs: [0u8; 5], ready_countdown: 0, powered: true, phoneme: 0, samples_remaining: 0 };
        assert(c.regs@ =~= seq![0u8, 0, 0, 0, 0]);
        c
    }

    /// Start phoneme `p` with duration register `reg0`.
    fn start(&mut self, p: u8, reg0: u8)
        requires
            p < 64,
        ensures
            final(self).samples_remaining == phoneme_length(p, reg0),
            final(self).ready_countdown == phoneme_length(p, reg0),
            final(self).regs == old(self).regs,
            final(self).powered == old(self).powered,
            final(self).phoneme == old(self).phoneme,
    {
        let n = phoneme_duration(p, reg0);
        self.samples_remaining = n;
        self.ready_countdown = n as u64;
    }

    /// A write through the data port: bits 4:3 of `val` pick the register.
    /// Returns whether a phoneme (re)started.
    pub fn write(&mut self, val: u8) -> (started: bool)
        ensures
            speech_written(*old(self), *final(self), (val / 8) % 4, val, started),
    {
        self.write_reg((val / 8) % 4, val)
    }

    /// A write of register `reg` (its low three bits select: 0 phoneme
    /// and duration, 1 inflection, 2 rate, 3 control and amplitude, 4
    /// filter frequency). Returns whether a phoneme (re)started.
    pub fn write_reg(&mut self, reg: u8, val: u8) -> (started: bool)
        ensures
            speech_written(*old(self), *final(self), reg, val, started),
    {
        let sel = reg % 8;
        if sel == 0 {
            self.regs[0] = val;
            self.phoneme = val % 64;
            self.start(val % 64, val);
            true
        } else if sel == 1 {
            self.regs[1] = val;
            false
        } else if sel == 2 {
            self.regs[2] = val;
            false
        } else if sel == 3 {
            let was_set = self.regs[3] >= 0x80;
            let now_set = val >= 0x80;
            self.regs[3] = val;
            self.powered = !now_set;
            if was_set && !now_set {
                let p = self.phoneme % 64;
                let r0 = self.regs[0];
                self.start(p, r0);
                true
            } else {
                false
            }
        } else {
            if reg < 5 {
                self.regs[4] = val;
            }
            false
        }
    }

    /// Advance time by `delta` cycles: true when READY fires now.
    pub fn tick(&mut self, delta: u64) -> (fired: bool)
        ensures
            fired == speech_fires(*old(self), delta),
            *final(self) == speech_ticked(*old(self), delta),
            fired == (old(self).ready_countdown != 0 && old(self).powered && delta >= old(self).ready_countdown),
            final(self).ready_countdown == (if old(self).ready_countdown == 0 || !old(self).powered {
                old(self).ready_countdown
            } else if delta >= old(self).ready_countdown {
                0
            } else {
                (old(self).ready_countdown - delta) as u64
            }),
            final(self).regs == old(self).regs,
            final(self).powered == old(self).powered,
            final(self).phoneme == old(self).phoneme,
            final(self).samples_remaining == old(self).samples_remaining,
    {
        if self.ready_countdown == 0 || !self.powered {
            return false;
        }
        if delta >= self.ready_countdown {
            self.ready_countdown = 0;
            true
        } else {
            self.ready_countdown = self.ready_countdown - delta;
            false
        }
    }

    /// Not speaking: ready for the next phoneme.
    pub fn is_ready(&self) -> (r: bool)
        ensures
            r == (self.ready_countdown == 0),
    {
        self.ready_countdown == 0
    }
}

/// A chip in its power-on state: registers clear, powered, idle.
pub open spec fn speech_fresh(c: SpeechChip) -> bool {
    &&& c.regs@ == seq![0u8, 0, 0, 0, 0]
    &&& c.ready_countdown == 0
    &&& c.powered
    &&& c.phoneme == 0
    &&& c.samples_remaining == 0
}

/// Whether READY fires when `delta` cycles pass on chip `c`: it is
/// powered and counting, and the count runs out.
pub open spec fn speech_fires(c: SpeechChip, delta: u64) -> bool {
    c.ready_countdown != 0 && c.powered && delta >= c.ready_countdown
}

/// Chip `c` after `delta` cycles: a powered chip's READY count goes down
/// to zero at the least; nothing else changes.
pub open spec fn speech_ticked(c: SpeechChip, delta: u64) -> SpeechChip {
    SpeechChip {
        ready_countdown: if c.ready_countdown == 0 || !c.powered {
            c.ready_countdown
        } else if delta >= c.ready_countdown {
            0
        } else {
            (c.ready_countdown - delta) as u64
        },
        ..c
    }
}

/// The registers after a write of `val` to register `reg`: the low three
/// bits of `reg` select registers 0-3; register 4 only as `reg` 4 itself.
pub open spec fn written_regs(r: Seq<u8>, reg: u8, val: u8) -> Seq<u8> {
    let sel = reg % 8;
    if sel <= 3 {
        r.update(sel as int, val)
    } else if reg == 4 {
        r.update(4, val)
    } else {
        r
    }
}

/// Whether a write of `val` to register `reg` (re)starts a phoneme:
/// register 0 always does, and clearing CTL (bit 7 of register 3) does
/// when it was set.
pub open spec fn write_starts(c: SpeechChip, reg: u8, val: u8) -> bool {
    reg % 8 == 0 || (reg % 8 == 3 && c.regs@[3] >= 0x80 && val < 0x80)
}

/// The chip after a write of `val` to register `reg`: the registers as
/// `written_regs`; register 0 sets the phoneme; register 3 powers the chip
/// down when CTL is set and up when clear; a (re)started phoneme plays for
/// its full length, with READY at its end.
pub open spec fn speech_written(o: SpeechChip, n: SpeechChip, reg: u8, val: u8, started: bool) -> bool {
    &&& n.regs@ == written_regs(o.regs@, reg, val)
    &&& n.phoneme == (if reg % 8 == 0 { val % 64 } else { o.phoneme })
    &&& n.powered == (if reg % 8 == 3 { val < 0x80 } else { o.powered })
    &&& started == write_starts(o, reg, val)
    &&& if started {
        &&& n.samples_remaining == phoneme_length(n.phoneme % 64, n.regs@[0])
        &&& n.ready_countdown == phoneme_length(n.phoneme % 64, n.regs@[0])
    } else {
        &&& n.samples_remaining == o.samples_remaining
        &&& n.ready_countdown == o.ready_countdown
    }
}

} // verus!
