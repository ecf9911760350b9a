//! The SoftCard itself: activation through its slot registers, execution in
//! quanta of T-states, and its save record.

use vstd::prelude::*;
use crate::card::CardType;
use crate::error::{unexpected_eof, Error};
use super::regs::{Regs, power_on_regs, pair, hi_byte, lo_byte, make_pair, lemma_pair_bytes};
use super::access::{mem_ok, Ports};
use super::decode::{execute_one, z80_step};

verus! {

/// The Z80 runs at about 2 MHz, twice the Apple II clock.
pub const Z80_CLOCK_RATIO: u64 = 2;
/// Size of the Z80 address space.
pub const Z80_MEM_SIZE: usize = 0x10000;
/// Length of the register record in a save record.
pub const REGS_RECORD_LEN: usize = 30;
/// Length of a whole save record: version, active flag, registers, memory.
pub const SAVE_RECORD_LEN: usize = 0x10020;

/// The T-states of `ticks`, summed.
pub open spec fn tick_sum(ticks: Seq<u32>) -> nat
    decreases ticks.len(),
{
    if ticks.len() == 0 {
        0
    } else {
        tick_sum(ticks.drop_last()) + ticks.last() as nat
    }
}

/// A Z80 state: registers, memory and I/O ports.
pub type Z80State = (Regs, Seq<u8>, Ports);

/// `states` are the states a run of steps goes through, the `k`-th step
/// taking `ticks[k]` T-states.
pub open spec fn z80_trace(states: Seq<Z80State>, ticks: Seq<u32>) -> bool {
    &&& states.len() == ticks.len() + 1
    &&& forall|k: int|
        0 <= k < ticks.len() ==> z80_step(
            states[k].0,
            states[k].1,
            states[k].2,
            states[k + 1].0,
            states[k + 1].1,
            states[k + 1].2,
            #[trigger] ticks[k],
        )
}

/// The run a quantum of `budget` T-states makes: a step is taken while fewer
/// than `budget` T-states have passed and the Z80 has not handed the bus
/// back, and the run stops as soon as either holds.
pub open spec fn z80_run(states: Seq<Z80State>, ticks: Seq<u32>, budget: u64) -> bool {
    &&& z80_trace(states, ticks)
    &&& forall|k: int|
        0 <= k < ticks.len() ==> tick_sum(#[trigger] ticks.take(k)) < budget && !states[k].2.yield_to_6502
    &&& tick_sum(ticks) >= budget || states.last().2.yield_to_6502
}

/// A sum of T-states as the `u64` count of them, which stops at `u64::MAX`.
pub open spec fn saturated(n: nat) -> u64 {
    if n > u64::MAX {
        u64::MAX
    } else {
        n as u64
    }
}

/// The T-states a periodic update of `cycles` 6502 cycles gives the Z80:
/// twice as many, saturating.
pub open spec fn update_budget(cycles: u64) -> u64 {
    if cycles > u64::MAX / 2 {
        u64::MAX
    } else {
        (cycles * 2) as u64
    }
}

/// 1 for `true`, 0 for `false`, as a byte.
pub open spec fn flag_byte(v: bool) -> u8 {
    if v { 1 } else { 0 }
}

/// The register record: the eight main registers, the eight alternates,
/// IX, IY, SP and PC high byte first, I, R, the two interrupt flip-flops,
/// the interrupt mode and the halt flag.
pub open spec fn regs_bytes(r: Regs) -> Seq<u8> {
    seq![
        r.a, r.f, r.b, r.c, r.d, r.e, r.h, r.l,
        r.a2, r.f2, r.b2, r.c2, r.d2, r.e2, r.h2, r.l2,
        hi_byte(r.ix), lo_byte(r.ix), hi_byte(r.iy), lo_byte(r.iy),
        hi_byte(r.sp), lo_byte(r.sp), hi_byte(r.pc), lo_byte(r.pc),
        r.i, r.r, flag_byte(r.iff1), flag_byte(r.iff2), r.im, flag_byte(r.halted),
    ]
}

/// The register file read from a 30-byte register record `s`; a nonzero
/// byte reads as `true`.
pub open spec fn regs_from(s: Seq<u8>) -> Regs {
    Regs {
        a: s[0],
        f: s[1],
        b: s[2],
        c: s[3],
        d: s[4],
        e: s[5],
        h: s[6],
        l: s[7],
        a2: s[8],
        f2: s[9],
        b2: s[10],
        c2: s[11],
        d2: s[12],
        e2: s[13],
        h2: s[14],
        l2: s[15],
        ix: pair(s[16], s[17]),
        iy: pair(s[18], s[19]),
        sp: pair(s[20], s[21]),
        pc: pair(s[22], s[23]),
        i: s[24],
        r: s[25],
        iff1: s[26] != 0,
        iff2: s[27] != 0,
        im: s[28],
        halted: s[29] != 0,
    }
}

/// Append the register record of `r`.
pub fn write_regs(r: &Regs, out: &mut Vec<u8>)
    ensures
        final(out)@ == old(out)@ + regs_bytes(*r),
{
    let ghost o = out@;
    out.push(r.a);
    out.push(r.f);
    out.push(r.b);
    out.push(r.c);
    out.push(r.d);
    out.push(r.e);
    out.push(r.h);
    out.push(r.l);
    out.push(r.a2);
    out.push(r.f2);
    out.push(r.b2);
    out.push(r.c2);
    out.push(r.d2);
    out.push(r.e2);
    out.push(r.h2);
    out.push(r.l2);
    out.push((r.ix / 256) as u8);
    out.push((r.ix % 256) as u8);
    out.push((r.iy / 256) as u8);
    out.push((r.iy % 256) as u8);
    out.push((r.sp / 256) as u8);
    out.push((r.sp % 256) as u8);
    out.push((r.pc / 256) as u8);
    out.push((r.pc % 256) as u8);
    out.push(r.i);
    out.push(r.r);
    out.push(if r.iff1 { 1 } else { 0 });
    out.push(if r.iff2 { 1 } else { 0 });
    out.push(r.im);
    out.push(if r.halted { 1 } else { 0 });
    assert(out@ =~= o + regs_bytes(*r));
}

/// Read a register record from `src` at `at`: an I/O error, and no change,
/// if fewer than 30 bytes are left there.
pub fn read_regs(r: &mut Regs, src: &[u8], at: usize) -> (res: Result<(), Error>)
    ensures
        res is Ok <==> at + 30 <= src@.len(),
        res is Ok ==> *final(r) == regs_from(src@.subrange(at as int, at + 30)),
        res is Err ==> *final(r) == *old(r),
{
    if at > src.len() || src.len() - at < 30 {
        return Err(unexpected_eof());
    }
    r.a = src[at];
    r.f = src[at + 1];
    r.b = src[at + 2];
    r.c = src[at + 3];
    r.d = src[at + 4];
    r.e = src[at + 5];
    r.h = src[at + 6];
    r.l = src[at + 7];
    r.a2 = src[at + 8];
    r.f2 = src[at + 9];
    r.b2 = src[at + 10];
    r.c2 = src[at + 11];
    r.d2 = src[at + 12];
    r.e2 = src[at + 13];
    r.h2 = src[at + 14];
    r.l2 = src[at + 15];
    r.ix = make_pair(src[at + 16], src[at + 17]);
    r.iy = make_pair(src[at + 18], src[at + 19]);
    r.sp = make_pair(src[at + 20], src[at + 21]);
    r.pc = make_pair(src[at + 22], src[at + 23]);
    r.i = src[at + 24];
    r.r = src[at + 25];
    r.iff1 = src[at + 26] != 0;
    r.iff2 = src[at + 27] != 0;
    r.im = src[at + 28];
    r.halted = src[at + 29] != 0;
    Ok(())
}

/// A register file written as a record reads back unchanged.
pub proof fn lemma_regs_record(r: Regs)
    ensures
        regs_bytes(r).len() == 30,
        regs_from(regs_bytes(r)) == r,
{
    lemma_pair_bytes(r.ix);
    lemma_pair_bytes(r.iy);
    lemma_pair_bytes(r.sp);
    lemma_pair_bytes(r.pc);
}

/// The Microsoft Z80 SoftCard: a Z80 with its own 64 KiB of memory. While
/// it is active the host runs it with `execute_z80`; it hands the bus back
/// when it executes `OUT (0), A`.
pub struct Z80Card {
    pub slot: usize,
    /// True while the Z80 owns the bus and the 6502 waits.
    pub z80_active: bool,
    pub regs: Regs,
    /// The Z80's 64 KiB of memory.
    pub mem: Vec<u8>,
}

/// 64 KiB of zeros.
pub open spec fn zero_mem() -> Seq<u8> {
    Seq::new(0x10000, |i: int| 0u8)
}

impl Z80Card {
    /// The memory holds exactly 64 KiB.
    pub open spec fn wf(&self) -> bool {
        mem_ok(self.mem@)
    }

    /// A card in `slot`: inactive, registers at power-on, memory cleared.
    pub fn new(slot: usize) -> (c: Self)
        ensures
            c.wf(),
            c.slot == slot,
            !c.z80_active,
            c.regs == power_on_regs(),
            c.mem@ == zero_mem(),
    {
        let mut mem: Vec<u8> = Vec::new();
        let mut i: usize = 0;
        while i < Z80_MEM_SIZE
            invariant
                i <= Z80_MEM_SIZE,
                mem@ == Seq::new(i as nat, |j: int| 0u8),
            decreases Z80_MEM_SIZE - i,
        {
            mem.push(0);
            i = i + 1;
            assert(mem@ =~= Seq::new(i as nat, |j: int| 0u8));
        }
        Z80Card { slot, z80_active: false, regs: Regs::new(), mem }
    }

    pub fn z80_active(&self) -> (r: bool)
        ensures
            r == self.z80_active,
    {
        self.z80_active
    }

    /// Copy the first bytes of `src` (at most 64 KiB) to the Z80 memory
    /// from address 0.
    pub fn load_from_apple_ram(&mut self, src: &[u8])
        requires
            old(self).wf(),
        ensures
            final(self).wf(),
            final(self).mem@ == ({
                let n = if src@.len() < 0x10000 { src@.len() as int } else { 0x10000 };
                src@.subrange(0, n) + old(self).mem@.subrange(n, 0x10000)
            }),
            final(self).slot == old(self).slot,
            final(self).z80_active == old(self).z80_active,
            final(self).regs == old(self).regs,
    {
        let n: usize = if src.len() < Z80_MEM_SIZE { src.len() } else { Z80_MEM_SIZE };
        let ghost m0 = self.mem@;
        let mut i: usize = 0;
        while i < n
            invariant
                n <= src@.len(),
                n <= 0x10000,
                i <= n,
                self.mem@.len() == 0x10000,
                forall|j: int| 0 <= j < i ==> self.mem@[j] == src@[j],
                forall|j: int| i <= j < 0x10000 ==> self.mem@[j] == m0[j],
                m0.len() == 0x10000,
                self.slot == old(self).slot,
                self.z80_active == old(self).z80_active,
                self.regs == old(self).regs,
            decreases n - i,
        {
            self.mem.set(i, src[i]);
            i = i + 1;
        }
        assert(self.mem@ =~= src@.subrange(0, n as int) + m0.subrange(n as int, 0x10000));
    }

    /// Copy the start of the Z80 memory into `dst` (as much as fits, at
    /// most 64 KiB).
    pub fn store_to_apple_ram(&self, dst: &mut [u8])
        requires
            self.wf(),
        ensures
            final(dst)@ == ({
                let n = if old(dst)@.len() < 0x10000 { old(dst)@.len() as int } else { 0x10000 };
                self.mem@.subrange(0, n) + old(dst)@.subrange(n, old(dst)@.len() as int)
            }),
    {
        let n: usize = if dst.len() < Z80_MEM_SIZE { dst.len() } else { Z80_MEM_SIZE };
        let ghost d0 = dst@;
        let mut i: usize = 0;
        while i < n
            invariant
                n <= d0.len(),
                n <= 0x10000,
                i <= n,
                self.mem@.len() == 0x10000,
                dst@.len() == d0.len(),
                forall|j: int| 0 <= j < i ==> dst@[j] == self.mem@[j],
                forall|j: int| i <= j < d0.len() ==> dst@[j] == d0[j],
            decreases n - i,
        {
            dst[i] = self.mem[i];
            i = i + 1;
        }
        assert(dst@ =~= self.mem@.subrange(0, n as int) + d0.subrange(n as int, d0.len() as int));
    }

    /// Run the Z80 for about `z80_cycles` T-states: whole instructions
    /// until at least that many have passed or it hands the bus back.
    /// Returns the T-states taken; an inactive card runs nothing.
    pub fn execute_z80(&mut self, z80_cycles: u64) -> (consumed: u64)
        requires
            old(self).wf(),
        ensures
            final(self).wf(),
            final(self).slot == old(self).slot,
            !old(self).z80_active ==> consumed == 0 && final(self).regs == old(self).regs
                && final(self).mem@ == old(self).mem@ && !final(self).z80_active,
            old(self).z80_active ==> exists|states: Seq<Z80State>, ticks: Seq<u32>|
                #[trigger] z80_run(states, ticks, z80_cycles)
                && states[0] == (old(self).regs, old(self).mem@, Ports { yield_to_6502: false })
                && states.last() == (final(self).regs, final(self).mem@, Ports {
                    yield_to_6502: !final(self).z80_active,
                }) && consumed == saturated(tick_sum(ticks)),
            consumed < z80_cycles + 23,
    {
        if !self.z80_active {
            return 0;
        }
        let mut consumed: u64 = 0;
        let mut ports = Ports::new();
        let ghost mut states: Seq<Z80State> = seq![(self.regs, self.mem@, ports)];
        let ghost mut ticks: Seq<u32> = Seq::empty();
        proof {
            assert(ticks.take(0) =~= ticks);
        }
        while consumed < z80_cycles && self.z80_active
            invariant
                self.wf(),
                self.slot == old(self).slot,
                consumed < z80_cycles + 23,
                z80_trace(states, ticks),
                states[0] == (old(self).regs, old(self).mem@, Ports { yield_to_6502: false }),
                states.last() == (self.regs, self.mem@, ports),
                self.z80_active == !ports.yield_to_6502,
                consumed == saturated(tick_sum(ticks)),
                forall|k: int|
                    0 <= k < ticks.len() ==> tick_sum(#[trigger] ticks.take(k)) < z80_cycles
                        && !states[k].2.yield_to_6502,
            decreases z80_cycles + 23 - consumed,
        {
            let ghost before = ticks;
            let t = execute_one(&mut self.regs, &mut self.mem, &mut ports);
            let ticks_now = t as u64;
            consumed = if ticks_now > u64::MAX - consumed { u64::MAX } else { consumed + ticks_now };
            proof {
                let n = before.len() as int;
                assert(before.take(n) =~= before);
                states = states.push((self.regs, self.mem@, ports));
                ticks = before.push(t);
                assert(ticks.drop_last() =~= before);
                assert forall|k: int| 0 <= k <= n implies #[trigger] ticks.take(k) =~= before.take(k) by {}
                assert forall|k: int| 0 <= k < ticks.len() implies z80_step(
                    states[k].0,
                    states[k].1,
                    states[k].2,
                    states[k + 1].0,
                    states[k + 1].1,
                    states[k + 1].2,
                    #[trigger] ticks[k],
                ) by {
                    if k < n {
                        assert(ticks[k] == before[k]);
                    }
                }
                assert forall|k: int|
                    0 <= k < ticks.len() implies tick_sum(#[trigger] ticks.take(k)) < z80_cycles
                    && !states[k].2.yield_to_6502 by {
                    assert(ticks.take(k) =~= before.take(k));
                }
            }
            if ports.yield_to_6502 {
                self.z80_active = false;
            }
        }
        proof {
            assert(z80_run(states, ticks, z80_cycles));
        }
        consumed
    }

    /// The Z80 memory.
    pub fn z80_mem(&self) -> (m: &[u8])
        ensures
            m@ == self.mem@,
    {
        self.mem.as_slice()
    }

    /// The Z80 memory, to change in place.
    pub fn z80_mem_mut(&mut self) -> (m: &mut [u8])
        ensures
            m@ == old(self).mem@,
            final(self).mem@ == final(m)@,
            final(self).slot == old(self).slot,
            final(self).z80_active == old(self).z80_active,
            final(self).regs == old(self).regs,
    {
        self.mem.as_mut_slice()
    }

    /// The Z80 program counter.
    pub fn pc(&self) -> (r: u16)
        ensures
            r == self.regs.pc,
    {
        self.regs.pc
    }

    /// Set the Z80 program counter.
    pub fn set_pc(&mut self, pc: u16)
        ensures
            final(self).regs == (Regs { pc: pc, ..old(self).regs }),
            final(self).mem@ == old(self).mem@,
            final(self).slot == old(self).slot,
            final(self).z80_active == old(self).z80_active,
    {
        self.regs.pc = pc;
    }

    pub fn card_type(&self) -> (t: CardType)
        ensures
            t == CardType::Z80,
    {
        CardType::Z80
    }

    pub fn slot(&self) -> (s: usize)
        ensures
            s == self.slot,
    {
        self.slot
    }

    /// The card after a read of its register `reg`, and the byte `r` read.
    pub open spec fn slot_io_read_post(self, reg: u8, cycles: u64, next: Self, v: u8) -> bool {
        &&& v == 0xFF
        &&& next.z80_active == (self.z80_active || reg == 4)
        &&& next.regs == self.regs
        &&& next.mem@ == self.mem@
        &&& next.slot == self.slot
    }

    /// Reading $C0n4 activates the Z80; every register reads 0xFF.
    pub fn slot_io_read(&mut self, reg: u8, cycles: u64) -> (v: u8)
        ensures
            old(self).slot_io_read_post(reg, cycles, *final(self), v),
    {
        if reg == 0x04 {
            self.z80_active = true;
        }
        0xFF
    }

    /// The card after a write of `value` to its register `reg`.
    pub open spec fn slot_io_write_post(self, reg: u8, val: u8, cycles: u64, next: Self) -> bool {
        &&& next.z80_active == (self.z80_active && reg != 0)
        &&& next.regs == self.regs
        &&& next.mem@ == self.mem@
        &&& next.slot == self.slot
    }

    /// Writing $C0n0 deactivates the Z80.
    pub fn slot_io_write(&mut self, reg: u8, val: u8, cycles: u64)
        ensures
            old(self).slot_io_write_post(reg, val, cycles, *final(self)),
    {
        if reg == 0x00 {
            self.z80_active = false;
        }
    }

    /// The card after a reset (`power_cycle` for a power cycle).
    pub open spec fn reset_post(self, power_cycle: bool, next: Self) -> bool {
        &&& next.wf()
        &&& !next.z80_active
        &&& next.regs == power_on_regs()
        &&& next.mem@ == (if power_cycle { zero_mem() } else { self.mem@ })
        &&& next.slot == self.slot
    }

    /// Reset: inactive, registers at power-on; a power cycle also clears
    /// the memory.
    pub fn reset(&mut self, power_cycle: bool)
        requires
            old(self).wf(),
        ensures
            old(self).reset_post(power_cycle, *final(self)),
    {
        self.z80_active = false;
        self.regs = Regs::new();
        if power_cycle {
            let mut i: usize = 0;
            while i < Z80_MEM_SIZE
                invariant
                    i <= Z80_MEM_SIZE,
                    self.mem@.len() == 0x10000,
                    forall|j: int| 0 <= j < i ==> self.mem@[j] == 0,
                    self.slot == old(self).slot,
                    !self.z80_active,
                    self.regs == power_on_regs(),
                decreases Z80_MEM_SIZE - i,
            {
                self.mem.set(i, 0);
                i = i + 1;
            }
            assert(self.mem@ =~= zero_mem());
        }
    }

    /// The card after its periodic update at cycle `cycles`.
    pub open spec fn update_post(self, cycles: u64, next: Self) -> bool {
        &&& next.wf()
        &&& next.slot == self.slot
        &&& !self.z80_active ==> next.regs == self.regs
            && next.mem@ == self.mem@ && !next.z80_active
        &&& next.z80_active ==> self.z80_active
        &&& self.z80_active ==> exists|states: Seq<Z80State>, ticks: Seq<u32>|
            #[trigger] z80_run(states, ticks, update_budget(cycles))
            && states[0] == (self.regs, self.mem@, Ports { yield_to_6502: false })
            && states.last() == (next.regs, next.mem@, Ports { yield_to_6502: !next.z80_active })
    }

    /// Periodic update with `cycles` 6502 cycles: an active Z80 runs for
    /// twice as many T-states (saturating).
    pub fn update(&mut self, cycles: u64)
        requires
            old(self).wf(),
        ensures
            old(self).update_post(cycles, *final(self)),
    {
        if !self.z80_active {
            return;
        }
        let z80_cycles: u64 = if cycles > u64::MAX / Z80_CLOCK_RATIO {
            u64::MAX
        } else {
            cycles * Z80_CLOCK_RATIO
        };
        assert(z80_cycles == update_budget(cycles));
        self.execute_z80(z80_cycles);
    }

    /// Append the save record: version 1, the active flag, the register
    /// record and the 64 KiB of memory.
    pub fn save_state(&self, out: &mut Vec<u8>)
        requires
            self.wf(),
        ensures
            final(out)@ == old(out)@ + seq![1u8, flag_byte(self.z80_active)] + regs_bytes(self.regs)
                + self.mem@,
    {
        let ghost o = out@;
        out.push(1);
        out.push(if self.z80_active { 1 } else { 0 });
        write_regs(&self.regs, out);
        let ghost o2 = out@;
        let mut i: usize = 0;
        while i < Z80_MEM_SIZE
            invariant
                i <= Z80_MEM_SIZE,
                self.mem@.len() == 0x10000,
                out@ == o2 + self.mem@.subrange(0, i as int),
            decreases Z80_MEM_SIZE - i,
        {
            out.push(self.mem[i]);
            i = i + 1;
            assert(out@ =~= o2 + self.mem@.subrange(0, i as int));
        }
        assert(self.mem@.subrange(0, 0x10000) =~= self.mem@);
        assert(out@ =~= o + seq![1u8, flag_byte(self.z80_active)] + regs_bytes(self.regs) + self.mem@);
    }

    /// Read a save record. The version byte is not checked. The record is
    /// read in order, and what was read before the bytes ran out stays
    /// loaded: the active flag (from 2 bytes on), then the registers (from
    /// 32 bytes on), then the memory (a whole record). An I/O error unless
    /// the record is whole.
    pub fn load_state(&mut self, src: &[u8], version: u32) -> (r: Result<(), Error>)
        requires
            old(self).wf(),
        ensures
            final(self).wf(),
            final(self).slot == old(self).slot,
            r is Ok <==> src@.len() >= 0x10020,
            final(self).z80_active == (if src@.len() >= 2 { src@[1] != 0 } else { old(self).z80_active }),
            final(self).regs == (if src@.len() >= 32 { regs_from(src@.subrange(2, 32)) } else { old(self).regs }),
            final(self).mem@ == (if src@.len() >= 0x10020 { src@.subrange(32, 0x10020) } else { old(self).mem@ }),
    {
        if src.len() < 2 {
            return Err(unexpected_eof());
        }
        self.z80_active = src[1] != 0;
        let rr = read_regs(&mut self.regs, src, 2);
        if rr.is_err() {
            return Err(unexpected_eof());
        }
        if src.len() < SAVE_RECORD_LEN {
            return Err(unexpected_eof());
        }
        let mut i: usize = 0;
        while i < Z80_MEM_SIZE
            invariant
                i <= Z80_MEM_SIZE,
                src@.len() >= 0x10020,
                self.mem@.len() == 0x10000,
                forall|j: int| 0 <= j < i ==> self.mem@[j] == src@[32 + j],
                self.slot == old(self).slot,
                self.z80_active == (src@[1] != 0),
                self.regs == regs_from(src@.subrange(2, 32)),
            decreases Z80_MEM_SIZE - i,
        {
            self.mem.set(i, src[32 + i]);
            i = i + 1;
        }
        assert(self.mem@ =~= src@.subrange(32, 0x10020));
        Ok(())
    }
}

/// A card's save record loads back into a card with the same slot as the
/// same card: activity, registers and memory.
pub proof fn lemma_save_load(c: Z80Card, out: Seq<u8>)
    requires
        c.wf(),
        out == seq![1u8, flag_byte(c.z80_active)] + regs_bytes(c.regs) + c.mem@,
    ensures
        out.len() == 0x10020,
        (out[1] != 0) == c.z80_active,
        regs_from(out.subrange(2, 32)) == c.regs,
        out.subrange(32, 0x10020) == c.mem@,
{
    lemma_regs_record(c.regs);
    assert(out.subrange(2, 32) =~= regs_bytes(c.regs));
    assert(out.subrange(32, 0x10020) =~= c.mem@);
}

} // verus!
