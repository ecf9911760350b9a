//! Emulator-wide items: the run mode, power-on memory patterns and the
//! whole-machine snapshot.

use vstd::prelude::*;
use crate::bus::machine::{power_on_bits, Bus, PADDLE_CYCLES_MAX, RAM_SIZE};
use crate::bus::{BusSnapshot, MemMode};
use crate::cpu::addressing::can_read;
use crate::cpu::dispatch;
use crate::cpu::dispatch::step_post;
use crate::cpu::flags::I;
use crate::card::cards_updated;
use crate::cpu::{Cpu, CpuSnapshot};
use crate::model::{Apple2Model, CpuType};

verus! {

/// Run mode.
#[derive(Debug, Clone, Copy, PartialEq, Eq, Structural)]
pub enum AppMode {
    /// Startup / logo screen.
    Logo,
    /// Normal execution.
    Running,
    /// Single-step / debugger active.
    Stepping,
    /// Benchmark mode.
    Benchmark,
}

impl Default for AppMode {
    fn default() -> (r: Self)
        ensures
            r == AppMode::Logo,
    {
        AppMode::Logo
    }
}

/// The address-derived byte of the pseudo-random patterns: the high byte
/// of `i * 0x0101` (16-bit).
pub open spec fn mip_byte(i: int) -> u8 {
    (((i * 257) % 65536) / 256) as u8
}

/// Byte `i` of RAM after filling it with power-on pattern `pattern`: all
/// zero (0), all 0xFF (1), pages alternating 00/FF (2) or FF/00 (3), half
/// pages alternating 00/FF (4) or FF/00 (5), the address-derived byte (6)
/// or its complement (7); any other pattern zeroes RAM.
pub open spec fn pattern_byte(pattern: u8, i: int) -> u8 {
    if pattern == 1 {
        0xFF
    } else if pattern == 2 {
        if (i / 256) % 2 == 0 { 0x00 } else { 0xFF }
    } else if pattern == 3 {
        if (i / 256) % 2 == 0 { 0xFF } else { 0x00 }
    } else if pattern == 4 {
        if (i / 128) % 2 == 0 { 0x00 } else { 0xFF }
    } else if pattern == 5 {
        if (i / 128) % 2 == 0 { 0xFF } else { 0x00 }
    } else if pattern == 6 {
        mip_byte(i)
    } else if pattern == 7 {
        !mip_byte(i)
    } else {
        0x00
    }
}

/// Fill 64K of RAM with power-on pattern `pattern` (0 zeroes, 1 all ones,
/// the others the stripe and noise patterns of real machines).
pub fn init_memory_pattern(ram: &mut Vec<u8>, pattern: u8)
    requires
        old(ram)@.len() == 65536,
    ensures
        final(ram)@.len() == 65536,
        forall|i: int| 0 <= i < 65536 ==> final(ram)@[i] == pattern_byte(pattern, i),
{
    let mut i: usize = 0;
    while i < 65536
        invariant
            i <= 65536,
            ram@.len() == 65536,
            forall|k: int| 0 <= k < i ==> ram@[k] == pattern_byte(pattern, k),
        decreases 65536 - i,
    {
        let v: u8 = if pattern == 1 {
            0xFF
        } else if pattern == 2 {
            if (i / 256) % 2 == 0 { 0x00 } else { 0xFF }
        } else if pattern == 3 {
            if (i / 256) % 2 == 0 { 0xFF } else { 0x00 }
        } else if pattern == 4 {
            if (i / 128) % 2 == 0 { 0x00 } else { 0xFF }
        } else if pattern == 5 {
            if (i / 128) % 2 == 0 { 0xFF } else { 0x00 }
        } else if pattern == 6 {
            (((i * 257) % 65536) / 256) as u8
        } else if pattern == 7 {
            !((((i * 257) % 65536) / 256) as u8)
        } else {
            0x00
        };
        ram.set(i, v);
        i += 1;
    }
}

/// Full emulator snapshot for save states.
#[derive(Debug, Clone)]
pub struct EmulatorSnapshot {
    pub version: u32,
    pub model: Apple2Model,
    pub cpu: CpuSnapshot,
    pub memory: BusSnapshot,
}


/// CPU cycles between two periodic card updates (one NTSC frame).
pub const UPDATE_INTERVAL: u64 = 17030;

/// Most CPU cycles one `execute` call may reach.
pub const EXECUTE_CYCLES_MAX: u64 = 0xFFFF_FFFF_FFFE_0000;

/// `e1` is `e0` with the periodic card update made when cycle `due` has
/// come, `due1` the cycle the next one is due.
pub open spec fn frame_update(e0: Emulator, due: u64, e1: Emulator, due1: u64) -> bool {
    if e0.cpu.cycles >= due {
        &&& cards_updated(e0.bus.cards, e1.bus.cards, e0.cpu.cycles)
        &&& e1 == (Emulator { bus: Bus { cards: e1.bus.cards, ..e0.bus }, ..e0 })
        &&& due1 == due + UPDATE_INTERVAL
    } else {
        e1 == e0 && due1 == due
    }
}

/// The CPU `c` about to run an instruction with the IRQ line at `line`: a
/// line that the I flag does not mask sets pending bit 0 (and ends a
/// deferral), otherwise the bit and the deferral are cleared.
pub open spec fn irq_prepared(c: Cpu, line: bool) -> Cpu {
    if line && c.flags.bits & I != I {
        Cpu { irq_defer: false, irq_pending: c.irq_pending | 1, ..c }
    } else {
        Cpu { irq_pending: c.irq_pending & !1u32, irq_defer: false, ..c }
    }
}

/// The CPU `c` after an instruction during which the IRQ line rose from
/// `before` to `after`: an unmasked IRQ that rose on the last cycle waits
/// one more instruction.
pub open spec fn irq_deferred(c: Cpu, before: bool, after: bool) -> Cpu {
    if !before && after && c.flags.bits & I != I {
        Cpu { irq_pending: c.irq_pending & !1u32, irq_defer: true, ..c }
    } else {
        c
    }
}

/// One pass of the run loop from `e0`, with the card update due at `due0`,
/// to `e1` and `due1`: a waiting 65C02 that nothing wakes idles one cycle;
/// otherwise it wakes, the IRQ line is sampled, one `step` runs, a late IRQ
/// is deferred; then the cards are updated if their frame has come.
#[verifier::opaque]
pub open spec fn run_pass(e0: Emulator, due0: u64, e1: Emulator, due1: u64) -> bool {
    let c = e0.cpu;
    if c.waiting && !(e0.bus.irq_line || c.irq_pending & 2 != 0) {
        frame_update(Emulator { cpu: Cpu { cycles: (c.cycles + 1) as u64, ..c }, ..e0 }, due0, e1, due1)
    } else {
        let ci = irq_prepared(Cpu { waiting: false, ..c }, e0.bus.irq_line);
        exists|cs: Cpu, bs: Bus, r: u8|
            #[trigger] step_post(ci, e0.bus, cs, bs, r) && frame_update(
                Emulator { cpu: irq_deferred(cs, e0.bus.irq_line, bs.irq_line), bus: bs, ..e0 },
                due0,
                e1,
                due1,
            )
    }
}

/// The states a run towards cycle `target` goes through: each pass starts
/// below `target`, and the last state has reached it.
pub open spec fn run_trace(states: Seq<(Emulator, u64)>, target: u64) -> bool {
    &&& states.len() >= 1
    &&& forall|k: int|
        #![trigger states[k]]
        0 <= k < states.len() - 1 ==> states[k].0.cpu.cycles < target && run_pass(
            states[k].0,
            states[k].1,
            states[k + 1].0,
            states[k + 1].1,
        )
    &&& states.last().0.cpu.cycles >= target
}

/// The complete emulator state.
pub struct Emulator {
    pub cpu: Cpu,
    pub bus: Bus,
    pub model: Apple2Model,
    pub mode: AppMode,
}

/// The switches a reset leaves: all clear, so that ROM is read at
/// $D000-$FFFF for the reset vector; the //c keeps its internal $Cn ROM.
pub open spec fn reset_bits(model: Apple2Model) -> u32 {
    if model == Apple2Model::AppleIIc || model == Apple2Model::AppleIIcPlus {
        MemMode::MF_INTCXROM
    } else {
        0
    }
}

impl Emulator {
    /// The emulator invariant: the bus is well formed.
    pub open spec fn wf(&self) -> bool {
        self.bus.wf()
    }

    /// A machine of `model` with `rom`, its CPU (65C02 when `cpu_type` says
    /// so, else NMOS 6502) reset from the reset vector.
    pub fn new(rom: Vec<u8>, model: Apple2Model, cpu_type: CpuType) -> (r: Self)
        ensures
            r.wf(),
            r.model == model,
            r.mode == AppMode::Logo,
            r.bus.rom == rom,
            r.bus.mode.bits == power_on_bits(model),
            r.cpu.is_65c02 == (cpu_type == CpuType::Cpu65C02),
            r.cpu.cycles == 0,
            r.cpu.pc == crate::cpu::addressing::word(r.bus.peek(0xFFFC), r.bus.peek(0xFFFD)),
    {
        let is_65c02 = match cpu_type {
            CpuType::Cpu65C02 => true,
            _ => false,
        };
        let mut cpu = Cpu::new(is_65c02);
        let mut bus = Bus::new(rom, model);
        cpu.reset(&mut bus);
        Emulator { cpu, bus, model, mode: AppMode::Logo }
    }

    /// Run for at least `cycles` CPU cycles (the last instruction may run
    /// over), handling WAI, IRQ delivery with the one-opcode deferral of an
    /// IRQ that appears on an opcode's last cycle, and the per-frame card
    /// updates. A jammed CPU only lets the cycles pass. Returns the cycles
    /// run.
    #[verifier::rlimit(100)]
    #[verifier::spinoff_prover]
    pub fn execute(&mut self, cycles: u64) -> (r: u64)
        requires
            old(self).wf(),
            old(self).cpu.cycles + cycles <= EXECUTE_CYCLES_MAX,
        ensures
            final(self).wf(),
            final(self).cpu.cycles == old(self).cpu.cycles + r,
            r >= cycles,
            old(self).cpu.jammed ==> r == cycles && *final(self) == (Emulator {
                cpu: Cpu { cycles: (old(self).cpu.cycles + cycles) as u64, ..old(self).cpu },
                ..*old(self)
            }),
            r <= cycles + 10,
            final(self).cpu.is_65c02 == old(self).cpu.is_65c02,
            final(self).model == old(self).model,
            !old(self).cpu.jammed ==> exists|states: Seq<(Emulator, u64)>|
                #[trigger] run_trace(states, (old(self).cpu.cycles + cycles) as u64) && states[0] == (
                    *old(self),
                    (old(self).cpu.cycles + UPDATE_INTERVAL) as u64,
                ) && states.last().0 == *final(self),
    {
        if self.cpu.jammed {
            self.cpu.cycles = self.cpu.cycles + cycles;
            return cycles;
        }
        let start = self.cpu.cycles;
        let target = start + cycles;
        let mut next_update = start + UPDATE_INTERVAL;
        let ghost mut states: Seq<(Emulator, u64)> = seq![(*self, next_update)];
        while self.cpu.cycles < target
            invariant
                self.wf(),
                start == old(self).cpu.cycles,
                target == start + cycles,
                target <= EXECUTE_CYCLES_MAX,
                EXECUTE_CYCLES_MAX + 0x10000 <= PADDLE_CYCLES_MAX,
                start <= self.cpu.cycles <= target + 10,
                next_update <= self.cpu.cycles + UPDATE_INTERVAL,
                self.cpu.is_65c02 == old(self).cpu.is_65c02,
                self.model == old(self).model,
                states.len() >= 1,
                states[0] == (*old(self), (start + UPDATE_INTERVAL) as u64),
                states.last() == (*self, next_update),
                forall|k: int|
                    #![trigger states[k]]
                    0 <= k < states.len() - 1 ==> states[k].0.cpu.cycles < target && run_pass(
                        states[k].0,
                        states[k].1,
                        states[k + 1].0,
                        states[k + 1].1,
                    ),
            decreases target + 10 - self.cpu.cycles,
        {
            let ghost e0 = *self;
            let ghost d0 = next_update;
            if self.cpu.waiting {
                if self.bus.irq_line || (self.cpu.irq_pending & 0x02) != 0 {
                    self.cpu.waiting = false;
                } else {
                    self.cpu.cycles = self.cpu.cycles + 1;
                    let ghost e_idle = *self;
                    if self.cpu.cycles >= next_update {
                        self.bus.cards.update_all(self.cpu.cycles);
                        next_update = next_update + UPDATE_INTERVAL;
                    }
                    proof {
                        assert(run_pass(e0, d0, *self, next_update)) by {
                            reveal(run_pass);
                            assert(e_idle == (Emulator {
                                cpu: Cpu { cycles: (e0.cpu.cycles + 1) as u64, ..e0.cpu },
                                ..e0
                            }));
                            assert(frame_update(e_idle, d0, *self, next_update));
                        }
                        Self::lemma_trace_extend(states, *self, next_update, target);
                        states = states.push((*self, next_update));
                    }
                    continue;
                }
            }
            let ghost c_woken = self.cpu;
            let irq_before = self.bus.irq_line;
            if self.bus.irq_line && !self.cpu.flags.contains(crate::cpu::flags::I) {
                if self.cpu.irq_defer {
                    self.cpu.irq_defer = false;
                }
                self.cpu.irq_pending = self.cpu.irq_pending | 0x01;
            } else {
                self.cpu.irq_pending = self.cpu.irq_pending & !0x01u32;
                self.cpu.irq_defer = false;
            }
            let ghost ci = self.cpu;
            let ghost b0 = self.bus;
            let taken = dispatch::step(&mut self.cpu, &mut self.bus);
            let ghost cs = self.cpu;
            let ghost bs = self.bus;
            if !irq_before && self.bus.irq_line && !self.cpu.flags.contains(crate::cpu::flags::I) {
                self.cpu.irq_pending = self.cpu.irq_pending & !0x01u32;
                self.cpu.irq_defer = true;
            }
            let ghost e_stepped = *self;
            if self.cpu.cycles >= next_update {
                self.bus.cards.update_all(self.cpu.cycles);
                next_update = next_update + UPDATE_INTERVAL;
            }
            proof {
                assert(run_pass(e0, d0, *self, next_update)) by {
                    reveal(run_pass);
                    assert(c_woken == Cpu { waiting: false, ..e0.cpu });
                    assert(ci == irq_prepared(c_woken, e0.bus.irq_line));
                    assert(b0 == e0.bus);
                    assert(e_stepped == (Emulator {
                        cpu: irq_deferred(cs, e0.bus.irq_line, bs.irq_line),
                        bus: bs,
                        ..e0
                    }));
                    assert(step_post(ci, e0.bus, cs, bs, taken));
                    assert(frame_update(e_stepped, d0, *self, next_update));
                }
                Self::lemma_trace_extend(states, *self, next_update, target);
                states = states.push((*self, next_update));
            }
        }
        proof {
            assert(run_trace(states, target));
        }
        self.cpu.cycles - start
    }

    /// A trace whose last state passes to `(e, d)` still satisfies the
    /// trace's per-pass condition with `(e, d)` appended.
    proof fn lemma_trace_extend(states: Seq<(Emulator, u64)>, e: Emulator, d: u64, target: u64)
        requires
            states.len() >= 1,
            states.last().0.cpu.cycles < target,
            run_pass(states.last().0, states.last().1, e, d),
            forall|k: int|
                #![trigger states[k]]
                0 <= k < states.len() - 1 ==> states[k].0.cpu.cycles < target && run_pass(
                    states[k].0,
                    states[k].1,
                    states[k + 1].0,
                    states[k + 1].1,
                ),
        ensures
            ({
                let s2 = states.push((e, d));
                forall|k: int|
                    #![trigger s2[k]]
                    0 <= k < s2.len() - 1 ==> s2[k].0.cpu.cycles < target && run_pass(
                        s2[k].0,
                        s2[k].1,
                        s2[k + 1].0,
                        s2[k + 1].1,
                    )
            }),
    {
        let s2 = states.push((e, d));
        assert forall|k: int| #![trigger s2[k]] 0 <= k < s2.len() - 1 implies s2[k].0.cpu.cycles < target
            && run_pass(s2[k].0, s2[k].1, s2[k + 1].0, s2[k + 1].1) by {
            if k < states.len() - 1 {
                assert(s2[k] == states[k]);
                assert(s2[k + 1] == states[k + 1]);
            } else {
                assert(s2[k] == states.last());
            }
        }
    }

    /// Execute one instruction; returns its cycles.
    pub fn step(&mut self) -> (r: u8)
        requires
            old(self).wf(),
            old(self).cpu.cycles <= PADDLE_CYCLES_MAX,
        ensures
            final(self).wf(),
            final(self).cpu.cycles == old(self).cpu.cycles + r,
    {
        dispatch::step(&mut self.cpu, &mut self.bus)
    }

    /// Reset; a power cycle first fills main and aux RAM with power-on
    /// pattern `mem_init_pattern`.
    pub fn reset_with_pattern(&mut self, power_cycle: bool, mem_init_pattern: u8)
        requires
            old(self).wf(),
        ensures
            final(self).wf(),
            final(self).mode == AppMode::Running,
            final(self).bus.mode.bits == reset_bits(old(self).bus.model),
            power_cycle ==> forall|i: int| 0 <= i < 65536 ==> final(self).bus.main_ram@[i] == pattern_byte(
                mem_init_pattern,
                i,
            ) && final(self).bus.aux_ram@[i] == pattern_byte(mem_init_pattern, i),
            !power_cycle ==> final(self).bus.main_ram == old(self).bus.main_ram && final(self).bus.aux_ram
                == old(self).bus.aux_ram,
    {
        if power_cycle {
            init_memory_pattern(&mut self.bus.main_ram, mem_init_pattern);
            init_memory_pattern(&mut self.bus.aux_ram, mem_init_pattern);
        }
        self.finish_reset(power_cycle);
    }

    /// Reset; a power cycle first clears main and aux RAM.
    pub fn reset(&mut self, power_cycle: bool)
        requires
            old(self).wf(),
        ensures
            final(self).wf(),
            final(self).mode == AppMode::Running,
            final(self).bus.mode.bits == reset_bits(old(self).bus.model),
            power_cycle ==> forall|i: int| 0 <= i < 65536 ==> final(self).bus.main_ram@[i] == 0
                && final(self).bus.aux_ram@[i] == 0,
            !power_cycle ==> final(self).bus.main_ram == old(self).bus.main_ram && final(self).bus.aux_ram
                == old(self).bus.aux_ram,
    {
        if power_cycle {
            init_memory_pattern(&mut self.bus.main_ram, 0);
            init_memory_pattern(&mut self.bus.aux_ram, 0);
            assert forall|i: int| 0 <= i < 65536 implies #[trigger] self.bus.main_ram@[i] == 0 && self.bus.aux_ram@[i]
                == 0 by {
                assert(pattern_byte(0, i) == 0);
            }
        }
        self.finish_reset(power_cycle);
    }

    /// The common tail of a reset: switches cleared so ROM holds the reset
    /// vector, cards reset, speaker log emptied, CPU reset, running.
    fn finish_reset(&mut self, power_cycle: bool)
        requires
            old(self).bus.wf_mem(),
        ensures
            final(self).wf(),
            final(self).mode == AppMode::Running,
            final(self).bus.mode.bits == reset_bits(old(self).bus.model),
            final(self).bus.main_ram == old(self).bus.main_ram,
            final(self).bus.aux_ram == old(self).bus.aux_ram,
    {
        let bits: u32 = if self.bus.model.is_iic() { MemMode::MF_INTCXROM } else { 0 };
        self.bus.mode = MemMode { bits };
        self.bus.rebuild_page_tables();
        self.bus.cards.reset_all(power_cycle);
        self.bus.speaker_toggles.clear();
        self.cpu.reset(&mut self.bus);
        self.mode = AppMode::Running;
    }

    /// A snapshot of the model, the CPU registers and memory.
    pub fn take_snapshot(&self) -> (r: EmulatorSnapshot)
        requires
            self.wf(),
        ensures
            r.version == 1,
            r.model == self.model,
            r.cpu == crate::cpu::cpu6502::snapshot_of(self.cpu),
            r.memory.main_ram@ == self.bus.main_ram@,
            r.memory.aux_ram@ == self.bus.aux_ram@,
            r.memory.mode == self.bus.mode.bits,
            r.memory.speaker_state == self.bus.speaker_state,
    {
        EmulatorSnapshot {
            version: 1,
            model: self.model,
            cpu: self.cpu.snapshot(),
            memory: self.bus.take_snapshot(),
        }
    }

    /// Restore the model, the CPU registers and memory from a snapshot.
    pub fn restore_snapshot(&mut self, snap: &EmulatorSnapshot)
        requires
            old(self).wf(),
            snap.memory.main_ram@.len() == RAM_SIZE,
            snap.memory.aux_ram@.len() == RAM_SIZE,
        ensures
            final(self).wf(),
            final(self).model == snap.model,
            crate::cpu::cpu6502::snapshot_of(final(self).cpu) == snap.cpu,
            final(self).bus.main_ram@ == snap.memory.main_ram@,
            final(self).bus.aux_ram@ == snap.memory.aux_ram@,
            final(self).bus.mode.bits == snap.memory.mode & crate::bus::MEM_MODE_ALL,
            final(self).bus.speaker_state == snap.memory.speaker_state,
    {
        self.model = snap.model;
        self.cpu.restore_snapshot(&snap.cpu);
        self.bus.restore_snapshot(&snap.memory);
    }
}

} // verus!
