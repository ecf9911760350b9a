//! The Mockingboard family of sound cards: two 6522 VIAs whose port B
//! drives the bus cycles of AY-3-8910 sound generators, with port A as the
//! data bus. The Mockingboard has one AY per VIA and an SSI-263 speech chip
//! on each VIA's port A; the Phasor has two AYs per VIA in its native mode;
//! the MegaAudio has a third AY that follows the first VIA; the SD Music
//! has SD-card registers in its ROM page. The host turns the generators'
//! state into audio.

use vstd::prelude::*;
use crate::card::CardType;
use super::ay::{ay_fresh, lemma_write_then_read, reg_value, reg_written, AyGen};
use super::sound::{
    ay_bus_op, ay_bus_op_spec, ay_strobed, phasor_targets, read_strobes_ay, speech_fires, speech_fresh, speech_ticked,
    speech_write, speech_written, strobe_ay, write_strobes_ay, AyBusOp, SpeechChip,
};
use super::via6522::{via_irq, via_read_spec, via_tick_spec, via_write_spec, via_zero, Via6522};

verus! {

/// Which card of the family.
#[derive(Debug, Clone, Copy, PartialEq, Eq, Structural)]
pub enum SoundModel {
    Mockingboard,
    Phasor,
    MegaAudio,
    SdMusic,
}

/// A sound card of the Mockingboard family.
pub struct SoundCard {
    pub slot: usize,
    pub model: SoundModel,
    /// The two VIAs: slot registers 0-7 reach the first, 8-15 the second.
    pub via: [Via6522; 2],
    /// The AY chips: one per VIA (0, 1), the Phasor's second per VIA in
    /// native mode (chips 2 and 3 of VIAs 0 and 1 as 0/1 and 2/3), the
    /// MegaAudio's third (2).
    pub ay: [AyGen; 4],
    /// The Mockingboard's speech chips, one on each VIA.
    pub speech: [SpeechChip; 2],
    /// A phoneme (re)started on each speech chip since the host last took
    /// the flag.
    pub speech_started: [bool; 2],
    /// The Phasor is in its native mode (four AYs).
    pub phasor_mode: bool,
    /// The card's $Cn00 ROM page.
    pub firmware: [u8; 256],
    /// The SD Music's SD control register ($CnF0).
    pub sd_ctrl: u8,
    /// The SD Music's SD data register ($CnF1).
    pub sd_data: u8,
}

/// The VIA that slot register `reg` reaches.
pub open spec fn via_of(reg: u8) -> int {
    if reg < 8 {
        0
    } else {
        1
    }
}

/// The card type of `model`.
pub open spec fn sound_kind(model: SoundModel) -> CardType {
    match model {
        SoundModel::Mockingboard => CardType::Mockingboard,
        SoundModel::Phasor => CardType::Phasor,
        SoundModel::MegaAudio => CardType::MegaAudio,
        SoundModel::SdMusic => CardType::SdMusic,
    }
}

/// The AY chips, in order, that a bus cycle of VIA `i` with port B `orb`
/// reaches: its own chip; on a Phasor in native mode chip `2 i` when bit 3
/// of port B is set and chip `2 i + 1` when bit 4 is; on a MegaAudio the
/// third chip too for a latch or write of the first VIA.
pub open spec fn strobe_targets(model: SoundModel, phasor_mode: bool, i: int, orb: u8) -> Seq<int> {
    match model {
        SoundModel::Phasor => if phasor_mode {
            (if (orb / 8) % 2 == 1 { seq![2 * i] } else { Seq::empty() }) + (if (orb / 16) % 2 == 1 {
                seq![2 * i + 1]
            } else {
                Seq::empty()
            })
        } else {
            seq![i]
        },
        SoundModel::MegaAudio => if i == 0 && (ay_bus_op_spec(orb) == AyBusOp::Latch || ay_bus_op_spec(orb)
            == AyBusOp::Write) {
            seq![0int, 2]
        } else {
            seq![i]
        },
        _ => seq![i],
    }
}

/// VIA `v1` and chips `a1` are VIA `v0` and chips `a0` after the bus cycle
/// that port B of `v0` selects reaches chips `t` in turn: a latch selects
/// register `ora` of each, a write stores `ora` in each, a read puts the
/// selected register of the last into port A; the other chips keep their
/// state.
pub open spec fn chips_strobed(v0: Via6522, a0: Seq<AyGen>, t: Seq<int>, v1: Via6522, a1: Seq<AyGen>) -> bool {
    let op = ay_bus_op_spec(v0.orb);
    &&& a1.len() == a0.len()
    &&& forall|c: int| 0 <= c < a0.len() && !t.contains(c) ==> #[trigger] a1[c] == a0[c]
    &&& forall|c: int|
        #![trigger t.contains(c)]
        t.contains(c) ==> match op {
            AyBusOp::Latch => a1[c] == (AyGen { selected_reg: v0.ora & 0x0F, ..a0[c] }),
            AyBusOp::Write => reg_written(a0[c], v0.ora, a1[c]),
            _ => a1[c] == a0[c],
        }
    &&& v1 == (if op == AyBusOp::Read && t.len() > 0 {
        Via6522 { ora: reg_value(a0[t.last()]), ..v0 }
    } else {
        v0
    })
}

impl SoundCard {
    /// Every AY chip keeps its invariant.
    pub open spec fn wf(&self) -> bool {
        forall|c: int| 0 <= c < 4 ==> #[trigger] self.ay@[c].wf()
    }

    /// The card type.
    pub open spec fn kind(&self) -> CardType {
        sound_kind(self.model)
    }

    /// The card's state after power-on or reset, the slot, model and ROM
    /// page aside: VIAs zero, AY chips and speech chips in their power-on
    /// state, no phoneme flagged, the Phasor in native mode, SD registers
    /// zero.
    pub open spec fn at_rest(&self) -> bool {
        &&& self.via@[0] == via_zero() && self.via@[1] == via_zero()
        &&& forall|c: int| 0 <= c < 4 ==> ay_fresh(#[trigger] self.ay@[c])
        &&& forall|j: int| 0 <= j < 2 ==> speech_fresh(#[trigger] self.speech@[j])
        &&& !self.speech_started@[0] && !self.speech_started@[1]
        &&& self.phasor_mode
        &&& self.sd_ctrl == 0 && self.sd_data == 0
    }

    /// A card of `model` for `slot`, at rest, its ROM page all 0xFF.
    pub fn new(slot: usize, model: SoundModel) -> (r: Self)
        ensures
            r.wf(),
            r.slot == slot,
            r.model == model,
            r.at_rest(),
            forall|i: int| 0 <= i < 256 ==> r.firmware@[i] == 0xFF,
    {
        let r = SoundCard {
            slot,
            model,
            via: [Via6522::new(), Via6522::new()],
            ay: [AyGen::new(), AyGen::new(), AyGen::new(), AyGen::new()],
            speech: [SpeechChip::new(), SpeechChip::new()],
            speech_started: [false, false],
            phasor_mode: true,
            firmware: [0xFF; 256],
            sd_ctrl: 0,
            sd_data: 0,
        };
        assert forall|c: int| 0 <= c < 4 implies #[trigger] r.ay@[c].wf() && ay_fresh(r.ay@[c]) by {}
        r
    }

    /// Install the card's ROM page.
    pub fn set_firmware(&mut self, rom: [u8; 256])
        ensures
            *final(self) == (SoundCard { firmware: rom, ..*old(self) }),
    {
        self.firmware = rom;
    }

    /// The card type.
    pub fn card_type(&self) -> (r: CardType)
        ensures
            r == self.kind(),
    {
        match self.model {
            SoundModel::Mockingboard => CardType::Mockingboard,
            SoundModel::Phasor => CardType::Phasor,
            SoundModel::MegaAudio => CardType::MegaAudio,
            SoundModel::SdMusic => CardType::SdMusic,
        }
    }

    /// The slot number.
    pub fn slot(&self) -> (r: usize)
        ensures
            r == self.slot,
    {
        self.slot
    }

    /// What a read of the card's page at `offset` gives: the ROM page,
    /// except the SD Music's SD registers ($CnF0-$CnFF) and the whole page
    /// of the Phasor, which read 0xFF.
    pub open spec fn page_byte(self, offset: u8) -> u8 {
        match self.model {
            SoundModel::Phasor => 0xFF,
            SoundModel::SdMusic => if offset >= 0xF0 {
                0xFF
            } else {
                self.firmware@[offset as int]
            },
            _ => self.firmware@[offset as int],
        }
    }

    /// A read of the card's page changes nothing and gives `page_byte`.
    pub open spec fn io_read_post(self, offset: u8, cycles: u64, next: Self, r: u8) -> bool {
        next == self && r == self.page_byte(offset)
    }

    /// A read of the card's page.
    pub fn io_read(&mut self, offset: u8, cycles: u64) -> (r: u8)
        ensures
            old(self).io_read_post(offset, cycles, *final(self), r),
    {
        match self.model {
            SoundModel::Phasor => 0xFF,
            SoundModel::SdMusic => if offset >= 0xF0 {
                0xFF
            } else {
                self.firmware[offset as usize]
            },
            _ => self.firmware[offset as usize],
        }
    }

    /// A write to the card's page: the SD Music takes $CnF0 as its SD
    /// control register and $CnF1 as its SD data register; nothing else
    /// changes.
    pub open spec fn io_write_post(self, offset: u8, value: u8, cycles: u64, next: Self) -> bool {
        if self.model == SoundModel::SdMusic && offset == 0xF0 {
            next == SoundCard { sd_ctrl: value, ..self }
        } else if self.model == SoundModel::SdMusic && offset == 0xF1 {
            next == SoundCard { sd_data: value, ..self }
        } else {
            next == self
        }
    }

    /// A write to the card's page.
    pub fn io_write(&mut self, offset: u8, value: u8, cycles: u64)
        ensures
            old(self).io_write_post(offset, value, cycles, *final(self)),
    {
        if self.model == SoundModel::SdMusic {
            if offset == 0xF0 {
                self.sd_ctrl = value;
            } else if offset == 0xF1 {
                self.sd_data = value;
            }
        }
    }

    /// Run the AY bus cycle of VIA `i` on chip `c`.
    fn strobe_chip(&mut self, i: usize, c: usize)
        requires
            old(self).wf(),
            i < 2,
            c < 4,
        ensures
            final(self).wf(),
            ay_strobed(old(self).via@[i as int], old(self).ay@[c as int], final(self).via@[i as int], final(self).ay@[c as int]),
            final(self).ay@ == old(self).ay@.update(c as int, final(self).ay@[c as int]),
            final(self).via@ == old(self).via@.update(i as int, final(self).via@[i as int]),
            *final(self) == (SoundCard { via: final(self).via, ay: final(self).ay, ..*old(self) }),
    {
        let mut v = self.via[i];
        let mut a = self.ay[c];
        assert(a.wf());
        strobe_ay(&mut v, &mut a);
        self.via[i] = v;
        self.ay[c] = a;
        assert(self.ay@ =~= old(self).ay@.update(c as int, a));
        assert(self.via@ =~= old(self).via@.update(i as int, v));
    }

    /// Run the AY bus cycle of VIA `i` on the chips it reaches.
    fn strobe(&mut self, i: usize)
        requires
            old(self).wf(),
            i < 2,
        ensures
            final(self).wf(),
            chips_strobed(
                old(self).via@[i as int],
                old(self).ay@,
                strobe_targets(old(self).model, old(self).phasor_mode, i as int, old(self).via@[i as int].orb),
                final(self).via@[i as int],
                final(self).ay@,
            ),
            final(self).via@ == old(self).via@.update(i as int, final(self).via@[i as int]),
            *final(self) == (SoundCard { via: final(self).via, ay: final(self).ay, ..*old(self) }),
    {
        let ghost v0 = self.via@[i as int];
        let ghost a0 = self.ay@;
        let ghost t = strobe_targets(self.model, self.phasor_mode, i as int, v0.orb);
        let orb = self.via[i].orb;
        let (first, second) = match self.model {
            SoundModel::Phasor => phasor_targets(orb, i, self.phasor_mode),
            SoundModel::MegaAudio => {
                let op = ay_bus_op(orb);
                if i == 0 && (op == AyBusOp::Latch || op == AyBusOp::Write) {
                    (Some(0usize), Some(2usize))
                } else {
                    (Some(i), None)
                }
            },
            _ => (Some(i), None),
        };
        assert(t =~= (match first {
            Some(c) => seq![c as int],
            None => Seq::<int>::empty(),
        }) + (match second {
            Some(d) => seq![d as int],
            None => Seq::<int>::empty(),
        }));
        if let Some(c) = first {
            self.strobe_chip(i, c);
        }
        let ghost mid_v = self.via@[i as int];
        let ghost mid_a = self.ay@;
        if let Some(d) = second {
            self.strobe_chip(i, d);
        }
        proof {
            let op = ay_bus_op_spec(v0.orb);
            assert(first is Some && second is Some ==> first->0 != second->0);
            assert forall|c: int| 0 <= c < a0.len() && !t.contains(c) implies #[trigger] self.ay@[c] == a0[c] by {
                if first is Some {
                    assert(t.contains(first->0 as int)) by {
                        assert(t[0] == first->0 as int);
                    }
                }
                if second is Some {
                    assert(t.contains(second->0 as int)) by {
                        assert(t[t.len() - 1] == second->0 as int);
                    }
                }
            }
            assert forall|c: int|
                #![trigger t.contains(c)]
                t.contains(c) implies match op {
                    AyBusOp::Latch => self.ay@[c] == (AyGen { selected_reg: v0.ora & 0x0F, ..a0[c] }),
                    AyBusOp::Write => reg_written(a0[c], v0.ora, self.ay@[c]),
                    _ => self.ay@[c] == a0[c],
                } by {
                let k = choose|k: int| 0 <= k < t.len() && t[k] == c;
                assert(t[k] == c);
            }
        }
    }

    /// The card after a read of slot register `reg` at `cycles`, and the
    /// byte `r` read: the VIA it reaches catches up its timers; a read of
    /// port A while port B's bit 0 is set first runs the AY bus cycle; the
    /// register is read.
    pub open spec fn slot_io_read_post(self, reg: u8, cycles: u64, next: Self, r: u8) -> bool {
        let i = via_of(reg);
        let vr = reg % 8;
        let v1 = via_tick_spec(self.via@[i], cycles);
        &&& if vr == 1 && v1.orb & 1 != 0 {
            chips_strobed(v1, self.ay@, strobe_targets(self.model, self.phasor_mode, i, v1.orb), next.via@[i], next.ay@)
        } else {
            next.via@[i] == v1 && next.ay == self.ay
        }
        &&& next.via@[1 - i] == self.via@[1 - i]
        &&& next == (SoundCard { via: next.via, ay: next.ay, ..self })
        &&& r == via_read_spec(next.via@[i], vr)
    }

    /// A read of a slot register.
    pub fn slot_io_read(&mut self, reg: u8, cycles: u64) -> (r: u8)
        requires
            old(self).wf(),
        ensures
            final(self).wf(),
            old(self).slot_io_read_post(reg, cycles, *final(self), r),
    {
        let i: usize = if reg < 8 {
            0
        } else {
            1
        };
        let vr = reg % 8;
        let mut v = self.via[i];
        v.tick(cycles);
        self.via[i] = v;
        let ghost ticked = *self;
        if read_strobes_ay(vr, self.via[i].orb) {
            self.strobe(i);
        }
        proof {
            assert(self.via@[1 - i as int] == old(self).via@[1 - i as int]);
        }
        self.via[i].read(vr)
    }

    /// The card after a write of `val` to slot register `reg` at `cycles`:
    /// on a Phasor a write of register 9 first sets the mode by bit 0; the
    /// VIA it reaches catches up its timers and takes the value; a write of
    /// port B runs the AY bus cycle; on a Mockingboard a write of port A
    /// while the VIA's CB2 control is not clear also goes to that VIA's
    /// speech chip, and a phoneme it starts is flagged for the host.
    pub open spec fn slot_io_write_post(self, reg: u8, val: u8, cycles: u64, next: Self) -> bool {
        let i = via_of(reg);
        let vr = reg % 8;
        let mode = if self.model == SoundModel::Phasor && reg == 9 {
            val & 0x01 != 0
        } else {
            self.phasor_mode
        };
        let v1 = via_write_spec(via_tick_spec(self.via@[i], cycles), vr, val);
        let to_speech = self.model == SoundModel::Mockingboard && vr == 1 && next.via@[i].pcr & 0xE0 != 0;
        &&& if vr == 0 {
            chips_strobed(v1, self.ay@, strobe_targets(self.model, mode, i, v1.orb), next.via@[i], next.ay@)
        } else {
            next.via@[i] == v1 && next.ay == self.ay
        }
        &&& next.via@[1 - i] == self.via@[1 - i]
        &&& if to_speech {
            exists|started: bool|
                #[trigger] speech_written(self.speech@[i], next.speech@[i], (val / 8) % 4, val, started)
                    && next.speech_started@[i] == (self.speech_started@[i] || started)
        } else {
            next.speech@[i] == self.speech@[i] && next.speech_started@[i] == self.speech_started@[i]
        }
        &&& next.speech@[1 - i] == self.speech@[1 - i]
        &&& next.speech_started@[1 - i] == self.speech_started@[1 - i]
        &&& next == (SoundCard {
            via: next.via,
            ay: next.ay,
            speech: next.speech,
            speech_started: next.speech_started,
            phasor_mode: mode,
            ..self
        })
    }

    /// A write to a slot register.
    pub fn slot_io_write(&mut self, reg: u8, val: u8, cycles: u64)
        requires
            old(self).wf(),
        ensures
            final(self).wf(),
            old(self).slot_io_write_post(reg, val, cycles, *final(self)),
    {
        if self.model == SoundModel::Phasor && reg == 9 {
            self.phasor_mode = val & 0x01 != 0;
        }
        let i: usize = if reg < 8 {
            0
        } else {
            1
        };
        let vr = reg % 8;
        let mut v = self.via[i];
        v.tick(cycles);
        v.write(vr, val);
        self.via[i] = v;
        if write_strobes_ay(vr) {
            self.strobe(i);
        }
        let ghost before_speech = *self;
        if self.model == SoundModel::Mockingboard && speech_write(vr, self.via[i].pcr) {
            let mut sp = self.speech[i];
            let started = sp.write(val);
            self.speech[i] = sp;
            if started {
                self.speech_started[i] = true;
            }
            proof {
                assert(speech_written(old(self).speech@[i as int], self.speech@[i as int], (val / 8) % 4, val, started));
            }
        }
        proof {
            assert(self.via@[1 - i as int] == old(self).via@[1 - i as int]);
            assert(self.speech@[1 - i as int] == old(self).speech@[1 - i as int]);
            assert(self.speech_started@[1 - i as int] == old(self).speech_started@[1 - i as int]);
        }
    }

    /// The card after a reset: at rest, with its slot, model and ROM page.
    pub open spec fn reset_post(self, power_cycle: bool, next: Self) -> bool {
        &&& next.at_rest()
        &&& next.slot == self.slot && next.model == self.model && next.firmware == self.firmware
    }

    /// A reset (a power cycle when `power_cycle`).
    pub fn reset(&mut self, power_cycle: bool)
        ensures
            final(self).wf(),
            old(self).reset_post(power_cycle, *final(self)),
    {
        self.via = [Via6522::new(), Via6522::new()];
        self.ay = [AyGen::new(), AyGen::new(), AyGen::new(), AyGen::new()];
        self.speech = [SpeechChip::new(), SpeechChip::new()];
        self.speech_started = [false, false];
        self.phasor_mode = true;
        self.sd_ctrl = 0;
        self.sd_data = 0;
        assert forall|c: int| 0 <= c < 4 implies #[trigger] self.ay@[c].wf() && ay_fresh(self.ay@[c]) by {}
    }

    /// VIA `v` after speech chip `c` on its port A has had `cycles` cycles:
    /// a READY that fires sets CA1 (bit 1) in the VIA's IFR.
    pub open spec fn via_after_speech(v: Via6522, c: SpeechChip, cycles: u64) -> Via6522 {
        if speech_fires(c, cycles) {
            Via6522 { ifr: v.ifr | 0x02, ..v }
        } else {
            v
        }
    }

    /// The card after its periodic update at `cycles`: on a Mockingboard
    /// each speech chip counts `cycles` down its READY count, and a READY
    /// that fires sets CA1 in its VIA; the other cards do nothing.
    pub open spec fn update_post(self, cycles: u64, next: Self) -> bool {
        if self.model == SoundModel::Mockingboard {
            &&& next.speech@[0] == speech_ticked(self.speech@[0], cycles)
            &&& next.speech@[1] == speech_ticked(self.speech@[1], cycles)
            &&& next.via@[0] == Self::via_after_speech(self.via@[0], self.speech@[0], cycles)
            &&& next.via@[1] == Self::via_after_speech(self.via@[1], self.speech@[1], cycles)
            &&& next == (SoundCard { via: next.via, speech: next.speech, ..self })
        } else {
            next == self
        }
    }

    /// Speech chip `i` counts `cycles` down; its READY sets CA1 of VIA `i`.
    fn update_speech(&mut self, i: usize, cycles: u64)
        requires
            i < 2,
        ensures
            final(self).speech@ == old(self).speech@.update(i as int, speech_ticked(old(self).speech@[i as int], cycles)),
            final(self).via@ == old(self).via@.update(
                i as int,
                Self::via_after_speech(old(self).via@[i as int], old(self).speech@[i as int], cycles),
            ),
            *final(self) == (SoundCard { via: final(self).via, speech: final(self).speech, ..*old(self) }),
    {
        let mut sp = self.speech[i];
        let fired = sp.tick(cycles);
        self.speech[i] = sp;
        if fired {
            let mut v = self.via[i];
            v.ifr = v.ifr | 0x02;
            self.via[i] = v;
        }
        assert(self.speech@ =~= old(self).speech@.update(i as int, speech_ticked(old(self).speech@[i as int], cycles)));
        assert(self.via@ =~= old(self).via@.update(
            i as int,
            Self::via_after_speech(old(self).via@[i as int], old(self).speech@[i as int], cycles),
        ));
    }

    /// The periodic update.
    pub fn update(&mut self, cycles: u64)
        requires
            old(self).wf(),
        ensures
            final(self).wf(),
            old(self).update_post(cycles, *final(self)),
    {
        if self.model == SoundModel::Mockingboard {
            self.update_speech(0, cycles);
            self.update_speech(1, cycles);
        }
    }

    /// Whether the card asserts IRQ: either VIA has an enabled interrupt
    /// flagged.
    pub open spec fn irq(&self) -> bool {
        via_irq(self.via@[0]) || via_irq(self.via@[1])
    }

    /// Whether the card asserts IRQ.
    pub fn irq_active(&self) -> (r: bool)
        ensures
            r == self.irq(),
    {
        self.via[0].irq_active() || self.via[1].irq_active()
    }

    /// Take the flag of speech chip `i` (below 2): whether a phoneme
    /// (re)started on it since the flag was last taken.
    pub fn take_speech_started(&mut self, i: usize) -> (r: bool)
        requires
            i < 2,
        ensures
            r == old(self).speech_started@[i as int],
            final(self).speech_started@ == old(self).speech_started@.update(i as int, false),
            *final(self) == (SoundCard { speech_started: final(self).speech_started, ..*old(self) }),
    {
        let r = self.speech_started[i];
        self.speech_started[i] = false;
        assert(self.speech_started@ =~= old(self).speech_started@.update(i as int, false));
        r
    }
}

/// On a Mockingboard or SD Music, with register `sel` (below 16) selected
/// on the chip of a VIA and `val` in that VIA's port A: a write of port B
/// with the write cycle (%10), then a write of port B with the read cycle
/// (%01), then a read of port A give `val` back, cut to the register's
/// width (the low nibble for registers 1, 3 and 5, five bits for register
/// 6).
pub proof fn lemma_ay_write_then_read_back(
    c0: SoundCard,
    c1: SoundCard,
    c2: SoundCard,
    c3: SoundCard,
    base: u8,
    t1: u64,
    t2: u64,
    t3: u64,
    r: u8,
)
    requires
        c0.model == SoundModel::Mockingboard || c0.model == SoundModel::SdMusic,
        base == 0 || base == 8,
        c0.ay@[via_of(base)].selected_reg < 16,
        c0.slot_io_write_post(base, 0x02, t1, c1),
        c1.slot_io_write_post(base, 0x01, t2, c2),
        c2.slot_io_read_post((base + 1) as u8, t3, c3, r),
    ensures
        ({
            let sel = c0.ay@[via_of(base)].selected_reg;
            let val = c0.via@[via_of(base)].ora;
            r == (if sel == 1 || sel == 3 || sel == 5 {
                val & 0x0F
            } else if sel == 6 {
                val & 0x1F
            } else {
                val
            })
        }),
{
    let i = via_of(base);
    crate::bits::lemma_byte(0, 0, 0, 0);
    crate::bits::lemma_byte(1, 0, 0, 0);
    assert(via_of((base + 1) as u8) == i);
    let t = seq![i];
    assert(t.contains(i)) by {
        assert(t[0] == i);
    }
    assert(strobe_targets(c0.model, c0.phasor_mode, i, 2) == t);
    assert(strobe_targets(c1.model, c1.phasor_mode, i, 1) == t);
    assert(ay_bus_op_spec(2) == AyBusOp::Write);
    assert(ay_bus_op_spec(1) == AyBusOp::Read);
    let v1 = via_write_spec(via_tick_spec(c0.via@[i], t1), 0, 0x02);
    assert(v1.orb == 2 && v1.ora == c0.via@[i].ora);
    assert(c1.via@[i] == v1);
    assert(reg_written(c0.ay@[i], v1.ora, c1.ay@[i]));
    let v2 = via_write_spec(via_tick_spec(c1.via@[i], t2), 0, 0x01);
    assert(v2.orb == 1);
    assert(c2.via@[i] == (Via6522 { ora: reg_value(c1.ay@[i]), ..v2 }));
    assert(c2.ay@[i] == c1.ay@[i]);
    let v3 = via_tick_spec(c2.via@[i], t3);
    assert(v3.orb == 1 && v3.orb & 1 != 0);
    assert(strobe_targets(c2.model, c2.phasor_mode, i, v3.orb) == t);
    assert(c3.via@[i] == (Via6522 { ora: reg_value(c2.ay@[i]), ..v3 }));
    lemma_write_then_read(c0.ay@[i], v1.ora, c1.ay@[i]);
}

} // verus!
