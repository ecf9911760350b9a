//! The integer state of the AY-3-8910 sound generator: its registers, the
//! three tone generators, the noise shift register and the envelope, the
//! per-sample step that advances them, and the level and gate of each
//! channel. Turning the levels into audio is the host's work.

use vstd::prelude::*;

verus! {

/// The AY-3-8910's registers and generator state.
#[derive(Debug, Clone, Copy)]
pub struct AyGen {
    /// The sixteen registers.
    pub regs: [u8; 16],
    /// The register the next read or write goes to.
    pub selected_reg: u8,
    /// Tone period counters.
    pub tone_counters: [u16; 3],
    /// Tone square-wave outputs.
    pub tone_states: [bool; 3],
    /// The 17-bit noise shift register.
    pub noise_lfsr: u32,
    /// Noise period counter.
    pub noise_counter: u16,
    /// Envelope period counter.
    pub env_counter: u32,
    /// Envelope step (0-15).
    pub env_step: u8,
    /// Envelope shape: hold at the end of the first cycle.
    pub env_hold: bool,
    /// Envelope shape: alternate direction each cycle.
    pub env_alternate: bool,
    /// Envelope shape: count up.
    pub env_attack: bool,
    /// The envelope has stopped.
    pub env_holding: bool,
}

/// The tone period of channel `ch`: the 12-bit value of registers `2 ch`
/// (fine) and `2 ch + 1` (coarse, low nibble), 0 counting as 1.
pub open spec fn tone_period_of(regs: Seq<u8>, ch: int) -> u16 {
    let p = (regs[2 * ch + 1] & 0x0F) * 256 + regs[2 * ch];
    if p == 0 {
        1
    } else {
        p as u16
    }
}

/// The noise period: the low five bits of register 6, 0 counting as 1.
pub open spec fn noise_period_of(regs: Seq<u8>) -> u16 {
    let p = regs[6] & 0x1F;
    if p == 0 {
        1
    } else {
        p as u16
    }
}

/// The envelope period: registers 12 (coarse) and 11 (fine), 0 counting
/// as 1.
pub open spec fn env_period_of(regs: Seq<u8>) -> u32 {
    let p = regs[12] * 256 + regs[11];
    if p == 0 {
        1
    } else {
        p as u32
    }
}

/// A tone counter and output after one sample with period `period`.
pub open spec fn tone_ticked(counter: u16, state: bool, period: u16) -> (u16, bool) {
    let c = counter.wrapping_add(1);
    if c >= period {
        (0, !state)
    } else {
        (c, state)
    }
}

/// The noise shift register after one shift: bit 0 xor bit 3 enters at
/// bit 16.
pub open spec fn lfsr_shifted(lfsr: u32) -> u32 {
    (lfsr >> 1u32) | (((lfsr ^ (lfsr >> 3u32)) & 1) << 16u32)
}

/// Generator `a` is in its power-on state: registers zero, register 0
/// selected, tones low, the noise register at 1, the envelope at rest.
pub open spec fn ay_fresh(a: AyGen) -> bool {
    &&& forall|i: int| 0 <= i < 16 ==> a.regs@[i] == 0
    &&& a.selected_reg == 0
    &&& a.tone_counters@ == seq![0u16, 0u16, 0u16]
    &&& a.tone_states@ == seq![false, false, false]
    &&& a.noise_lfsr == 1 && a.noise_counter == 0
    &&& a.env_counter == 0 && a.env_step == 0
    &&& !a.env_hold && !a.env_alternate && !a.env_attack && !a.env_holding
}

/// The value a read of generator `s` gives: its selected register, 0xFF
/// past the last register.
pub open spec fn reg_value(s: AyGen) -> u8 {
    if s.selected_reg < 16 {
        s.regs@[s.selected_reg as int]
    } else {
        0xFF
    }
}

/// Generator `t` is `s` after `val` is written to its selected register:
/// the coarse tone registers (1, 3, 5) keep their low nibble, a write to
/// register 6 or 7 keeps the low five bits of register 6, a write to
/// register 13 restarts the envelope with the shape of `val`'s bits 0
/// (hold), 1 (alternate) and 2 (attack), and a write past the last
/// register changes nothing.
pub open spec fn reg_written(s: AyGen, val: u8, t: AyGen) -> bool {
    let r = s.selected_reg as int;
    let regs1 = s.regs@.update(r, val);
    let regs2 = if r == 6 || r == 7 { regs1.update(6, regs1[6] & 0x1F) } else { regs1 };
    let regs3 = if r == 1 || r == 3 || r == 5 { regs2.update(r, regs2[r] & 0x0F) } else { regs2 };
    if r >= 16 {
        t == s
    } else if r == 13 {
        &&& t.regs@ == regs3
        &&& t == (AyGen {
            regs: t.regs,
            env_counter: 0,
            env_step: 0,
            env_hold: val & 0x01 != 0,
            env_alternate: val & 0x02 != 0,
            env_attack: val & 0x04 != 0,
            env_holding: false,
            ..s
        })
    } else {
        &&& t.regs@ == regs3
        &&& t == (AyGen { regs: t.regs, ..s })
    }
}

/// A read after a write gives back the value written, cut to the
/// register's width: the low nibble for the coarse tone registers (1, 3,
/// 5), the low five bits for the noise period (6), all eight bits for the
/// others.
pub proof fn lemma_write_then_read(s: AyGen, val: u8, t: AyGen)
    requires
        s.selected_reg < 16,
        reg_written(s, val, t),
    ensures
        reg_value(t) == (if s.selected_reg == 1 || s.selected_reg == 3 || s.selected_reg == 5 {
            val & 0x0F
        } else if s.selected_reg == 6 {
            val & 0x1F
        } else {
            val
        }),
{
    assert(t.selected_reg == s.selected_reg);
}

impl AyGen {
    /// The generator's invariant: the envelope step is at most 15 and its
    /// counter below 65536.
    pub open spec fn wf(&self) -> bool {
        self.env_step <= 15 && self.env_counter < 65536
    }

    /// The generator after one sample, but for its tones (`ticked_tones`):
    /// each tone counter counts and at its period restarts and flips its
    /// output; the noise counter likewise
    /// shifts the noise register; the envelope counter at its period moves
    /// the envelope one step, which past 15 holds at 15 (hold), turns
    /// round (alternate) or starts again.
    pub open spec fn ticked(self) -> AyGen {
        let nc = self.noise_counter.wrapping_add(1);
        let noise_due = nc >= noise_period_of(self.regs@);
        let ec = self.env_counter + 1;
        let env_due = ec >= env_period_of(self.regs@);
        let step = self.env_step + 1;
        let moved = env_due && !self.env_holding;
        AyGen {
            noise_counter: if noise_due { 0 } else { nc },
            noise_lfsr: if noise_due { lfsr_shifted(self.noise_lfsr) } else { self.noise_lfsr },
            env_counter: if env_due { 0 } else { ec as u32 },
            env_step: if !moved {
                self.env_step
            } else if step < 16 {
                step as u8
            } else if self.env_hold {
                15
            } else {
                0
            },
            env_holding: if moved && step >= 16 && self.env_hold { true } else { self.env_holding },
            env_attack: if moved && step >= 16 && !self.env_hold && self.env_alternate {
                !self.env_attack
            } else {
                self.env_attack
            },
            ..self
        }
    }

    /// The tone counters and outputs after one sample.
    pub open spec fn ticked_tones(self) -> Seq<(u16, bool)> {
        Seq::new(
            3,
            |k: int| tone_ticked(self.tone_counters@[k], self.tone_states@[k], tone_period_of(self.regs@, k)),
        )
    }

    /// The envelope's volume (0-15): the step counted up when attacking,
    /// down otherwise; a held envelope stays at its end.
    pub open spec fn env_volume(self) -> u8 {
        let step: u8 = if self.env_holding && self.env_hold {
            if self.env_alternate != self.env_attack { 15 } else { 0 }
        } else {
            self.env_step
        };
        if self.env_attack { step } else { (15 - step) as u8 }
    }

    /// The level (0-30) of channel `ch`: twice its volume register, or the
    /// envelope's volume when bit 4 of that register is set.
    pub open spec fn level_of(self, ch: int) -> u8 {
        let v = self.regs@[8 + ch] & 0x1F;
        if v & 0x10 != 0 {
            self.env_volume()
        } else {
            ((v & 0x0F) * 2) as u8
        }
    }

    /// Whether channel `ch` sounds now: its tone (mixer bit `ch` clear) is
    /// high, or its noise (mixer bit `ch + 3` clear) is, the noise output
    /// being bit 0 of the shift register.
    pub open spec fn gate_of(self, ch: int) -> bool {
        let mixer = self.regs@[7];
        let tone_on = mixer & (1u8 << (ch as u8)) == 0;
        let noise_on = mixer & (8u8 << (ch as u8)) == 0;
        (tone_on && self.tone_states@[ch]) || (noise_on && self.noise_lfsr & 1 != 0)
    }

    /// A generator after power-on: all registers 0, the noise register 1,
    /// everything else at rest.
    pub fn new() -> (r: Self)
        ensures
            r.wf(),
            forall|i: int| 0 <= i < 16 ==> r.regs@[i] == 0,
            r.selected_reg == 0,
            r.tone_counters@ == seq![0u16, 0u16, 0u16],
            r.tone_states@ == seq![false, false, false],
            r.noise_lfsr == 1 && r.noise_counter == 0,
            r.env_counter == 0 && r.env_step == 0,
            !r.env_hold && !r.env_alternate && !r.env_attack && !r.env_holding,
            ay_fresh(r),
    {
        let r = AyGen {
            regs: [0u8; 16],
            selected_reg: 0,
            tone_counters: [0u16; 3],
            tone_states: [false; 3],
            noise_lfsr: 1,
            noise_counter: 0,
            env_counter: 0,
            env_step: 0,
            env_hold: false,
            env_alternate: false,
            env_attack: false,
            env_holding: false,
        };
        assert(r.tone_counters@ =~= seq![0u16, 0u16, 0u16]);
        assert(r.tone_states@ =~= seq![false, false, false]);
        r
    }

    /// Latch the register address (its low four bits).
    pub fn select_reg(&mut self, addr: u8)
        ensures
            *final(self) == (AyGen { selected_reg: addr & 0x0F, ..*old(self) }),
    {
        self.selected_reg = addr & 0x0F;
    }

    /// The selected register's value (0xFF past the last register).
    pub fn read_reg(&self) -> (r: u8)
        ensures
            r == reg_value(*self),
    {
        if self.selected_reg < 16 {
            self.regs[self.selected_reg as usize]
        } else {
            0xFF
        }
    }

    /// Write `val` to the selected register. The coarse tone registers keep
    /// their low nibble; any write to register 6 or 7 keeps the low five
    /// bits of register 6; a write to register 13 restarts the envelope
    /// with the shape of its bits 0 (hold), 1 (alternate) and 2 (attack).
    pub fn write_reg(&mut self, val: u8)
        requires
            old(self).wf(),
        ensures
            final(self).wf(),
            reg_written(*old(self), val, *final(self)),
    {
        let r = self.selected_reg as usize;
        if r >= 16 {
            return;
        }
        self.regs[r] = val;
        if r == 13 {
            self.env_counter = 0;
            self.env_step = 0;
            self.env_hold = val & 0x01 != 0;
            self.env_alternate = val & 0x02 != 0;
            self.env_attack = val & 0x04 != 0;
            self.env_holding = false;
        }
        if r == 6 || r == 7 {
            self.regs[6] = self.regs[6] & 0x1F;
        }
        if r == 1 || r == 3 || r == 5 {
            self.regs[r] = self.regs[r] & 0x0F;
        }
    }

    /// The tone period of channel `ch`.
    pub fn tone_period(&self, ch: usize) -> (r: u16)
        requires
            ch < 3,
        ensures
            r == tone_period_of(self.regs@, ch as int),
    {
        let lo = self.regs[ch * 2] as u16;
        let hi = (self.regs[ch * 2 + 1] & 0x0F) as u16;
        proof {
            crate::bits::lemma_byte(self.regs@[ch * 2 + 1], 0, 0, 0);
        }
        let p = hi * 256 + lo;
        if p == 0 {
            1
        } else {
            p
        }
    }

    /// The noise period.
    pub fn noise_period(&self) -> (r: u16)
        ensures
            r == noise_period_of(self.regs@),
    {
        let p = (self.regs[6] & 0x1F) as u16;
        if p == 0 {
            1
        } else {
            p
        }
    }

    /// The envelope period.
    pub fn env_period(&self) -> (r: u32)
        ensures
            r == env_period_of(self.regs@),
    {
        let p = self.regs[12] as u32 * 256 + self.regs[11] as u32;
        if p == 0 {
            1
        } else {
            p
        }
    }

    /// Advance the generator by one sample.
    pub fn tick(&mut self)
        requires
            old(self).wf(),
        ensures
            final(self).wf(),
            forall|k: int|
                0 <= k < 3 ==> (final(self).tone_counters@[k], final(self).tone_states@[k])
                    == old(self).ticked_tones()[k],
            *final(self) == (AyGen {
                tone_counters: final(self).tone_counters,
                tone_states: final(self).tone_states,
                ..old(self).ticked()
            }),
    {
        let mut ch: usize = 0;
        let ghost s = *self;
        while ch < 3
            invariant
                ch <= 3,
                self.regs == s.regs,
                *self == (AyGen { tone_counters: self.tone_counters, tone_states: self.tone_states, ..s }),
                forall|k: int|
                    0 <= k < ch ==> (self.tone_counters@[k], self.tone_states@[k]) == tone_ticked(
                        s.tone_counters@[k],
                        s.tone_states@[k],
                        tone_period_of(s.regs@, k),
                    ),
                forall|k: int|
                    ch <= k < 3 ==> self.tone_counters@[k] == s.tone_counters@[k] && self.tone_states@[k]
                        == s.tone_states@[k],
            decreases 3 - ch,
        {
            let period = self.tone_period(ch);
            let c = self.tone_counters[ch].wrapping_add(1);
            if c >= period {
                self.tone_counters[ch] = 0;
                self.tone_states[ch] = !self.tone_states[ch];
            } else {
                self.tone_counters[ch] = c;
            }
            ch += 1;
        }
        let np = self.noise_period();
        let nc = self.noise_counter.wrapping_add(1);
        if nc >= np {
            self.noise_counter = 0;
            let feedback = (self.noise_lfsr ^ (self.noise_lfsr >> 3u32)) & 1;
            self.noise_lfsr = (self.noise_lfsr >> 1u32) | (feedback << 16u32);
        } else {
            self.noise_counter = nc;
        }
        let ep = self.env_period();
        let ec = self.env_counter + 1;
        if ec >= ep {
            self.env_counter = 0;
            if !self.env_holding {
                let step = self.env_step + 1;
                if step < 16 {
                    self.env_step = step;
                } else if self.env_hold {
                    self.env_holding = true;
                    self.env_step = 15;
                } else if self.env_alternate {
                    self.env_attack = !self.env_attack;
                    self.env_step = 0;
                } else {
                    self.env_step = 0;
                }
            }
        } else {
            self.env_counter = ec;
        }
    }

    /// The envelope's volume (0-15).
    pub fn env_volume_now(&self) -> (r: u8)
        requires
            self.wf(),
        ensures
            r == self.env_volume(),
    {
        let step: u8 = if self.env_holding && self.env_hold {
            if self.env_alternate != self.env_attack { 15 } else { 0 }
        } else {
            self.env_step
        };
        if self.env_attack { step } else { 15 - step }
    }

    /// The level (0-30) of channel `ch`.
    pub fn level(&self, ch: usize) -> (r: u8)
        requires
            self.wf(),
            ch < 3,
        ensures
            r == self.level_of(ch as int),
            r <= 30,
    {
        let v = self.regs[8 + ch] & 0x1F;
        proof {
            crate::bits::lemma_byte(v, 0, 0, 0);
        }
        if v & 0x10 != 0 {
            self.env_volume_now()
        } else {
            (v & 0x0F) * 2
        }
    }

    /// Whether channel `ch` sounds now.
    pub fn gate(&self, ch: usize) -> (r: bool)
        requires
            ch < 3,
        ensures
            r == self.gate_of(ch as int),
    {
        let mixer = self.regs[7];
        let c = ch as u8;
        let tone_on = mixer & (1u8 << c) == 0;
        let noise_on = mixer & (8u8 << c) == 0;
        (tone_on && self.tone_states[ch]) || (noise_on && self.noise_lfsr & 1 != 0)
    }
}

} // verus!
