//! MOS 6522 Versatile Interface Adapter (VIA): the registers needed to
//! drive AY-3-8910 sound chips, and its two interval timers with their
//! interrupt flags. Shared by the Mockingboard family of cards.

use vstd::prelude::*;
use crate::error::{unexpected_eof, Error};

verus! {

/// Minimal 6522 VIA model: registers needed for AY control and timer IRQs.
#[derive(Clone, Copy, Debug, PartialEq, Eq, Structural)]
pub struct Via6522 {
    /// Output register A (data bus to the AY).
    pub ora: u8,
    /// Output register B (BDIR/BC1 control lines).
    pub orb: u8,
    /// Data direction register A.
    pub ddra: u8,
    /// Data direction register B.
    pub ddrb: u8,
    /// T1 counter low.
    pub t1cl: u8,
    /// T1 counter high.
    pub t1ch: u8,
    /// T1 latch low.
    pub t1ll: u8,
    /// T1 latch high.
    pub t1lh: u8,
    /// T2 counter low.
    pub t2cl: u8,
    /// T2 counter high.
    pub t2ch: u8,
    /// Shift register.
    pub sr: u8,
    /// Auxiliary control register.
    pub acr: u8,
    /// Peripheral control register.
    pub pcr: u8,
    /// Interrupt flag register.
    pub ifr: u8,
    /// Interrupt enable register.
    pub ier: u8,
    /// CPU cycle count when the timers were last brought up to date.
    pub last_cycles: u64,
    /// T1 is running (armed by a write to T1CH).
    pub t1_running: bool,
    /// T2 is running (armed by a write to T2CH).
    pub t2_running: bool,
}

/// A VIA with every register zero and both timers stopped.
pub open spec fn via_zero() -> Via6522 {
    Via6522 {
        ora: 0,
        orb: 0,
        ddra: 0,
        ddrb: 0,
        t1cl: 0,
        t1ch: 0,
        t1ll: 0,
        t1lh: 0,
        t2cl: 0,
        t2ch: 0,
        sr: 0,
        acr: 0,
        pcr: 0,
        ifr: 0,
        ier: 0,
        last_cycles: 0,
        t1_running: false,
        t2_running: false,
    }
}

/// The low byte of a counter value.
pub open spec fn lo(x: u32) -> u8 {
    (x & 0xFF) as u8
}

/// The high byte of a 16-bit counter value.
pub open spec fn hi(x: u32) -> u8 {
    ((x >> 8u32) & 0xFF) as u8
}

/// The 16-bit value of a high and a low byte.
pub open spec fn word(h: u8, l: u8) -> u32 {
    ((h as u32) << 8u32) | (l as u32)
}

/// Splitting a 16-bit value into bytes and joining them gives it back; a
/// word is below 65536.
pub proof fn lemma_word_bytes(x: u32, h: u8, l: u8)
    ensures
        x < 65536 ==> word(hi(x), lo(x)) == x,
        word(h, l) < 65536,
        word(h, l) == h * 256 + l,
{
    assert(x < 65536 ==> word(hi(x), lo(x)) == x) by (bit_vector);
    assert(word(h, l) < 65536) by (bit_vector);
    assert(word(h, l) == h * 256 + l) by (bit_vector);
}

/// What reading register `reg` (low four bits) returns. Register D (IFR)
/// reads with bit 7 set when an enabled interrupt is flagged; register F
/// reads 0xFF.
pub open spec fn via_read_spec(v: Via6522, reg: u8) -> u8 {
    let r = reg & 0x0F;
    if r == 0x0 {
        v.orb
    } else if r == 0x1 {
        v.ora
    } else if r == 0x2 {
        v.ddrb
    } else if r == 0x3 {
        v.ddra
    } else if r == 0x4 {
        v.t1cl
    } else if r == 0x5 {
        v.t1ch
    } else if r == 0x6 {
        v.t1ll
    } else if r == 0x7 {
        v.t1lh
    } else if r == 0x8 {
        v.t2cl
    } else if r == 0x9 {
        v.t2ch
    } else if r == 0xA {
        v.sr
    } else if r == 0xB {
        v.acr
    } else if r == 0xC {
        v.pcr
    } else if r == 0xD {
        v.ifr | (if v.ifr & v.ier & 0x7F != 0 { 0x80u8 } else { 0x00u8 })
    } else if r == 0xE {
        v.ier
    } else {
        0xFF
    }
}

/// The VIA after writing `val` to register `reg` (low four bits). T1CL
/// also loads the latch; T1CH loads counter and latch, starts T1 and clears
/// its flag; T2CH starts T2 and clears its flag; writing IFR clears the
/// flags whose bits are set; register F is ignored.
pub open spec fn via_write_spec(v: Via6522, reg: u8, val: u8) -> Via6522 {
    let r = reg & 0x0F;
    if r == 0x0 {
        Via6522 { orb: val, ..v }
    } else if r == 0x1 {
        Via6522 { ora: val, ..v }
    } else if r == 0x2 {
        Via6522 { ddrb: val, ..v }
    } else if r == 0x3 {
        Via6522 { ddra: val, ..v }
    } else if r == 0x4 {
        Via6522 { t1cl: val, t1ll: val, ..v }
    } else if r == 0x5 {
        Via6522 { t1ch: val, t1lh: val, t1_running: true, ifr: v.ifr & !0x40u8, ..v }
    } else if r == 0x6 {
        Via6522 { t1ll: val, ..v }
    } else if r == 0x7 {
        Via6522 { t1lh: val, ..v }
    } else if r == 0x8 {
        Via6522 { t2cl: val, ..v }
    } else if r == 0x9 {
        Via6522 { t2ch: val, t2_running: true, ifr: v.ifr & !0x20u8, ..v }
    } else if r == 0xA {
        Via6522 { sr: val, ..v }
    } else if r == 0xB {
        Via6522 { acr: val, ..v }
    } else if r == 0xC {
        Via6522 { pcr: val, ..v }
    } else if r == 0xD {
        Via6522 { ifr: v.ifr & !(val & 0x7F), ..v }
    } else if r == 0xE {
        Via6522 { ier: val, ..v }
    } else {
        v
    }
}

/// Timer 1 after `delta` cycles: (counter low, counter high, flags,
/// running). Expiry takes `counter + 2` cycles and sets flag bit 6; in
/// continuous mode (ACR bit 6) the counter restarts from the latch,
/// otherwise it stops at 0xFFFF.
pub open spec fn t1_after(v: Via6522, delta: u32) -> (u8, u8, u8, bool) {
    let t1 = word(v.t1ch, v.t1cl);
    if delta >= t1 + 2 {
        if v.acr & 0x40 != 0 {
            let latch = word(v.t1lh, v.t1ll);
            let remaining = (delta - (t1 + 2)) as u32;
            let period = (latch + 2) as u32;
            let new_count = (period - remaining % period) as u32;
            (lo(new_count), hi(new_count), v.ifr | 0x40, true)
        } else {
            (0xFF, 0xFF, v.ifr | 0x40, false)
        }
    } else {
        let n = wsub(t1, delta);
        (lo(n), hi(n), v.ifr, true)
    }
}

/// Timer 2 after `delta` cycles: (counter low, counter high, flags,
/// running). Expiry sets flag bit 5 and stops it at 0xFFFF.
pub open spec fn t2_after(v: Via6522, delta: u32) -> (u8, u8, u8, bool) {
    let t2 = word(v.t2ch, v.t2cl);
    if delta >= t2 + 2 {
        (0xFF, 0xFF, v.ifr | 0x20, false)
    } else {
        let n = wsub(t2, delta);
        (lo(n), hi(n), v.ifr, true)
    }
}

/// The VIA brought up to CPU cycle `now` (unchanged if time has not moved
/// on): the running timers count down the elapsed cycles.
pub open spec fn via_tick_spec(v: Via6522, now: u64) -> Via6522 {
    if now <= v.last_cycles {
        v
    } else {
        let delta = (now - v.last_cycles) as u32;
        let a = Via6522 { last_cycles: now, ..v };
        let b = if a.t1_running {
            let (l, h, f, run) = t1_after(a, delta);
            Via6522 { t1cl: l, t1ch: h, ifr: f, t1_running: run, ..a }
        } else {
            a
        };
        if b.t2_running {
            let (l, h, f, run) = t2_after(b, delta);
            Via6522 { t2cl: l, t2ch: h, ifr: f, t2_running: run, ..b }
        } else {
            b
        }
    }
}

/// An interrupt is pending: a flag that is also enabled.
pub open spec fn via_irq(v: Via6522) -> bool {
    v.ifr & v.ier & 0x7F != 0
}

/// The 25-byte save record of a VIA: the 15 registers in order ORA, ORB,
/// DDRA, DDRB, T1CL, T1CH, T1LL, T1LH, T2CL, T2CH, SR, ACR, PCR, IFR, IER,
/// the two running flags (0/1), and the cycle count, little-endian.
pub open spec fn via_record(v: Via6522) -> Seq<u8> {
    seq![
        v.ora, v.orb, v.ddra, v.ddrb, v.t1cl, v.t1ch, v.t1ll, v.t1lh, v.t2cl, v.t2ch, v.sr, v.acr,
        v.pcr, v.ifr, v.ier,
        (if v.t1_running { 1u8 } else { 0u8 }),
        (if v.t2_running { 1u8 } else { 0u8 }),
    ] + le64_bytes(v.last_cycles)
}

/// The eight little-endian bytes of a 64-bit value.
pub open spec fn le64_bytes(x: u64) -> Seq<u8> {
    seq![
        (x & 0xFF) as u8,
        ((x >> 8u64) & 0xFF) as u8,
        ((x >> 16u64) & 0xFF) as u8,
        ((x >> 24u64) & 0xFF) as u8,
        ((x >> 32u64) & 0xFF) as u8,
        ((x >> 40u64) & 0xFF) as u8,
        ((x >> 48u64) & 0xFF) as u8,
        ((x >> 56u64) & 0xFF) as u8,
    ]
}

/// `a - b` wrapped to 32 bits.
pub open spec fn wsub(a: u32, b: u32) -> u32 {
    if a >= b {
        (a - b) as u32
    } else {
        (a - b + 0x1_0000_0000) as u32
    }
}

/// The 64-bit value of eight little-endian bytes.
pub open spec fn le64_value(b: Seq<u8>) -> u64 {
    (b[0] as u64) | ((b[1] as u64) << 8u64) | ((b[2] as u64) << 16u64) | ((b[3] as u64) << 24u64)
        | ((b[4] as u64) << 32u64) | ((b[5] as u64) << 40u64) | ((b[6] as u64) << 48u64) | ((
    b[7] as u64) << 56u64)
}

/// Reading back the eight bytes of a 64-bit value gives the value.
pub proof fn lemma_le64_roundtrip(x: u64)
    ensures
        le64_value(le64_bytes(x)) == x,
{
    assert(((x & 0xFF) as u8 as u64) | ((((x >> 8u64) & 0xFF) as u8 as u64) << 8u64) | ((((x
        >> 16u64) & 0xFF) as u8 as u64) << 16u64) | ((((x >> 24u64) & 0xFF) as u8 as u64) << 24u64)
        | ((((x >> 32u64) & 0xFF) as u8 as u64) << 32u64) | ((((x >> 40u64) & 0xFF) as u8 as u64)
        << 40u64) | ((((x >> 48u64) & 0xFF) as u8 as u64) << 48u64) | ((((x >> 56u64) & 0xFF) as u8
        as u64) << 56u64) == x) by (bit_vector);
}

impl Via6522 {
    /// A VIA with every register zero and both timers stopped.
    pub fn new() -> (r: Self)
        ensures
            r == via_zero(),
    {
        Self {
            ora: 0,
            orb: 0,
            ddra: 0,
            ddrb: 0,
            t1cl: 0,
            t1ch: 0,
            t1ll: 0,
            t1lh: 0,
            t2cl: 0,
            t2ch: 0,
            sr: 0,
            acr: 0,
            pcr: 0,
            ifr: 0,
            ier: 0,
            last_cycles: 0,
            t1_running: false,
            t2_running: false,
        }
    }

    /// Back to the power-on state.
    pub fn reset(&mut self)
        ensures
            *final(self) == via_zero(),
    {
        *self = Self::new();
    }

    /// Bring the timers up to CPU cycle `current_cycles`.
    pub fn tick(&mut self, current_cycles: u64)
        ensures
            *final(self) == via_tick_spec(*old(self), current_cycles),
    {
        if current_cycles <= self.last_cycles {
            return;
        }
        let delta = (current_cycles - self.last_cycles) as u32;
        self.last_cycles = current_cycles;
        if self.t1_running {
            let t1 = ((self.t1ch as u32) << 8u32) | (self.t1cl as u32);
            proof {
                lemma_word_bytes(0, self.t1ch, self.t1cl);
            }
            if delta >= t1 + 2 {
                self.ifr = self.ifr | 0x40;
                let continuous = self.acr & 0x40 != 0;
                if continuous {
                    let latch = ((self.t1lh as u32) << 8u32) | (self.t1ll as u32);
                    proof {
                        lemma_word_bytes(0, self.t1lh, self.t1ll);
                    }
                    let remaining = delta - (t1 + 2);
                    let period = latch + 2;
                    let new_count = if period > 0 {
                        period - (remaining % period)
                    } else {
                        0
                    };
                    self.t1cl = (new_count & 0xFF) as u8;
                    self.t1ch = ((new_count >> 8u32) & 0xFF) as u8;
                } else {
                    self.t1cl = 0xFF;
                    self.t1ch = 0xFF;
                    self.t1_running = false;
                }
            } else {
                let new_t1 = t1.wrapping_sub(delta);
                self.t1cl = (new_t1 & 0xFF) as u8;
                self.t1ch = ((new_t1 >> 8u32) & 0xFF) as u8;
            }
        }
        if self.t2_running {
            let t2 = ((self.t2ch as u32) << 8u32) | (self.t2cl as u32);
            proof {
                lemma_word_bytes(0, self.t2ch, self.t2cl);
            }
            if delta >= t2 + 2 {
                self.ifr = self.ifr | 0x20;
                self.t2_running = false;
                self.t2cl = 0xFF;
                self.t2ch = 0xFF;
            } else {
                let new_t2 = t2.wrapping_sub(delta);
                self.t2cl = (new_t2 & 0xFF) as u8;
                self.t2ch = ((new_t2 >> 8u32) & 0xFF) as u8;
            }
        }
    }

    /// Read register `reg` (low four bits).
    pub fn read(&self, reg: u8) -> (r: u8)
        ensures
            r == via_read_spec(*self, reg),
    {
        let r = reg & 0x0F;
        if r == 0x0 {
            self.orb
        } else if r == 0x1 {
            self.ora
        } else if r == 0x2 {
            self.ddrb
        } else if r == 0x3 {
            self.ddra
        } else if r == 0x4 {
            self.t1cl
        } else if r == 0x5 {
            self.t1ch
        } else if r == 0x6 {
            self.t1ll
        } else if r == 0x7 {
            self.t1lh
        } else if r == 0x8 {
            self.t2cl
        } else if r == 0x9 {
            self.t2ch
        } else if r == 0xA {
            self.sr
        } else if r == 0xB {
            self.acr
        } else if r == 0xC {
            self.pcr
        } else if r == 0xD {
            self.ifr | if self.ifr & self.ier & 0x7F != 0 {
                0x80
            } else {
                0x00
            }
        } else if r == 0xE {
            self.ier
        } else {
            0xFF
        }
    }

    /// Write `val` to register `reg` (low four bits).
    pub fn write(&mut self, reg: u8, val: u8)
        ensures
            *final(self) == via_write_spec(*old(self), reg, val),
    {
        let r = reg & 0x0F;
        if r == 0x0 {
            self.orb = val;
        } else if r == 0x1 {
            self.ora = val;
        } else if r == 0x2 {
            self.ddrb = val;
        } else if r == 0x3 {
            self.ddra = val;
        } else if r == 0x4 {
            self.t1cl = val;
            self.t1ll = val;
        } else if r == 0x5 {
            self.t1ch = val;
            self.t1lh = val;
            self.t1_running = true;
            self.ifr = self.ifr & !0x40u8;
        } else if r == 0x6 {
            self.t1ll = val;
        } else if r == 0x7 {
            self.t1lh = val;
        } else if r == 0x8 {
            self.t2cl = val;
        } else if r == 0x9 {
            self.t2ch = val;
            self.t2_running = true;
            self.ifr = self.ifr & !0x20u8;
        } else if r == 0xA {
            self.sr = val;
        } else if r == 0xB {
            self.acr = val;
        } else if r == 0xC {
            self.pcr = val;
        } else if r == 0xD {
            self.ifr = self.ifr & !(val & 0x7F);
        } else if r == 0xE {
            self.ier = val;
        }
    }

    /// Whether an enabled interrupt is flagged.
    pub fn irq_active(&self) -> (r: bool)
        ensures
            r == via_irq(*self),
    {
        self.ifr & self.ier & 0x7F != 0
    }

    /// Append the 25-byte save record.
    pub fn save_state(&self, out: &mut Vec<u8>)
        ensures
            final(out)@ == old(out)@ + via_record(*self),
    {
        let regs: [u8; 17] = [
            self.ora,
            self.orb,
            self.ddra,
            self.ddrb,
            self.t1cl,
            self.t1ch,
            self.t1ll,
            self.t1lh,
            self.t2cl,
            self.t2ch,
            self.sr,
            self.acr,
            self.pcr,
            self.ifr,
            self.ier,
            if self.t1_running { 1 } else { 0 },
            if self.t2_running { 1 } else { 0 },
        ];
        let ghost start = out@;
        let mut i: usize = 0;
        while i < 17
            invariant
                i <= 17,
                out@ == start + regs@.subrange(0, i as int),
            decreases 17 - i,
        {
            out.push(regs[i]);
            i += 1;
            assert(regs@.subrange(0, i as int) == regs@.subrange(0, i - 1).push(regs@[i - 1]));
        }
        let x = self.last_cycles;
        out.push((x & 0xFF) as u8);
        out.push(((x >> 8u64) & 0xFF) as u8);
        out.push(((x >> 16u64) & 0xFF) as u8);
        out.push(((x >> 24u64) & 0xFF) as u8);
        out.push(((x >> 32u64) & 0xFF) as u8);
        out.push(((x >> 40u64) & 0xFF) as u8);
        out.push(((x >> 48u64) & 0xFF) as u8);
        out.push(((x >> 56u64) & 0xFF) as u8);
        assert(regs@.subrange(0, 17) == regs@);
        assert(out@ == start + regs@ + le64_bytes(x));
        assert(regs@ + le64_bytes(x) == via_record(*self));
    }

    /// Read the save record from the start of `src`. The 15 registers, the
    /// two running flags and the cycle count are read in three steps; if
    /// `src` ends before a step completes, the steps before it have been
    /// applied and an I/O error is returned.
    pub fn load_state(&mut self, src: &[u8]) -> (r: Result<(), Error>)
        ensures
            via_loaded(*old(self), src@, *final(self)),
            r is Ok <==> src.len() >= 25,
    {
        if src.len() < 15 {
            return Err(unexpected_eof());
        }
        self.ora = src[0];
        self.orb = src[1];
        self.ddra = src[2];
        self.ddrb = src[3];
        self.t1cl = src[4];
        self.t1ch = src[5];
        self.t1ll = src[6];
        self.t1lh = src[7];
        self.t2cl = src[8];
        self.t2ch = src[9];
        self.sr = src[10];
        self.acr = src[11];
        self.pcr = src[12];
        self.ifr = src[13];
        self.ier = src[14];
        if src.len() < 17 {
            return Err(unexpected_eof());
        }
        self.t1_running = src[15] != 0;
        self.t2_running = src[16] != 0;
        if src.len() < 25 {
            return Err(unexpected_eof());
        }
        self.last_cycles = (src[17] as u64) | ((src[18] as u64) << 8u64) | ((src[19] as u64)
            << 16u64) | ((src[20] as u64) << 24u64) | ((src[21] as u64) << 32u64) | ((src[22] as u64)
            << 40u64) | ((src[23] as u64) << 48u64) | ((src[24] as u64) << 56u64);
        Ok(())
    }
}

/// The VIA after loading a save record from `b` over `v`.
pub open spec fn via_loaded(v: Via6522, b: Seq<u8>, t: Via6522) -> bool {
    let regs = Via6522 {
        ora: b[0],
        orb: b[1],
        ddra: b[2],
        ddrb: b[3],
        t1cl: b[4],
        t1ch: b[5],
        t1ll: b[6],
        t1lh: b[7],
        t2cl: b[8],
        t2ch: b[9],
        sr: b[10],
        acr: b[11],
        pcr: b[12],
        ifr: b[13],
        ier: b[14],
        ..v
    };
    let flags = Via6522 { t1_running: b[15] != 0, t2_running: b[16] != 0, ..regs };
    if b.len() < 15 {
        t == v
    } else if b.len() < 17 {
        t == regs
    } else if b.len() < 25 {
        t == flags
    } else {
        t == Via6522 { last_cycles: le64_value(b.subrange(17, 25)), ..flags }
    }
}

impl Default for Via6522 {
    fn default() -> (r: Self)
        ensures
            r == via_zero(),
    {
        Self::new()
    }
}

/// Reading a register gives back what was last written to it (all but the
/// interrupt flag register and the unused register F).
pub proof fn lemma_via_write_then_read(v: Via6522, reg: u8, val: u8)
    requires
        reg & 0x0F != 0x0D,
        reg & 0x0F != 0x0F,
    ensures
        via_read_spec(via_write_spec(v, reg, val), reg) == val,
{
    assert(reg & 0x0F < 16) by (bit_vector);
}

/// Loading a VIA's save record restores it exactly, over any VIA.
pub proof fn lemma_via_save_load(v: Via6522, w: Via6522, t: Via6522)
    requires
        via_loaded(w, via_record(v), t),
    ensures
        t == v,
{
    lemma_le64_roundtrip(v.last_cycles);
    assert(via_record(v).subrange(17, 25) == le64_bytes(v.last_cycles));
}

/// The interrupt line is active exactly when IFR reads with bit 7 set
/// (for a flag register whose own bit 7 is clear, as writes and timers
/// leave it).
pub proof fn lemma_via_irq_bit7(v: Via6522)
    requires
        v.ifr & 0x80 == 0,
    ensures
        via_irq(v) == (via_read_spec(v, 0x0D) & 0x80 != 0),
{
    let f = v.ifr;
    let e = v.ier;
    assert(0x0Du8 & 0x0F == 0x0D) by (bit_vector);
    assert(f & 0x80 == 0 ==> ((f & e & 0x7F != 0) == ((f | (if f & e & 0x7F != 0 { 0x80u8 } else { 0x00u8 })) & 0x80
        != 0))) by (bit_vector);
}

/// While no timer runs out, T1 counts down the elapsed cycles: its 16-bit
/// counter drops by exactly the cycles that passed.
pub proof fn lemma_t1_counts_down(v: Via6522, now: u64)
    requires
        v.t1_running,
        now > v.last_cycles,
        ((now - v.last_cycles) as u32) < word(v.t1ch, v.t1cl) + 2,
        ((now - v.last_cycles) as u32) <= word(v.t1ch, v.t1cl),
    ensures
        word(via_tick_spec(v, now).t1ch, via_tick_spec(v, now).t1cl) == word(v.t1ch, v.t1cl) - (
        (now - v.last_cycles) as u32),
        via_tick_spec(v, now).t1_running,
{
    let n = (word(v.t1ch, v.t1cl) - ((now - v.last_cycles) as u32)) as u32;
    lemma_word_bytes(n, v.t1ch, v.t1cl);
}

} // verus!
