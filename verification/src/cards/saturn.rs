//! Saturn 128K language card: eight 16K banks, one of which the bus holds
//! in the language-card area at a time. Switching banks hands the bus the
//! new bank and takes the displaced one back.

use vstd::prelude::*;
use crate::card::CardType;
use crate::error::{unexpected_eof, Error};
use super::languagecard::{copy_bank, zero_bank, LC_SIZE};

verus! {

/// Number of 16K banks.
pub const MAX_BANKS: usize = 8;

/// The Saturn 128K card.
pub struct Saturn128KCard {
    pub slot: usize,
    /// The bank in the language-card area.
    pub active_bank: u8,
    /// The bank that was there before the last switch.
    pub prev_bank: u8,
    /// The eight banks (the active one is stale while the bus holds it).
    pub banks: Vec<Vec<u8>>,
    /// A bank waiting to be swapped in by the bus.
    pub pending_swap: Option<Vec<u8>>,
}

/// The bank a switch access `reg` selects (bits 3:1).
pub open spec fn selected_bank(reg: u8) -> u8 {
    (reg >> 1u8) & 0x07
}

impl Saturn128KCard {
    /// Eight 16K banks, bank numbers below 8.
    pub open spec fn wf(&self) -> bool {
        &&& self.banks@.len() == 8
        &&& forall|b: int| 0 <= b < 8 ==> (#[trigger] self.banks@[b])@.len() == 16384
        &&& self.active_bank < 8
        &&& self.prev_bank < 8
    }

    /// A card in `slot` with eight zeroed banks, bank 0 active.
    pub fn new(slot: usize) -> (r: Self)
        ensures
            r.wf(),
            r.slot == slot,
            r.active_bank == 0 && r.prev_bank == 0,
            r.pending_swap is None,
            forall|b: int| 0 <= b < 8 ==> (#[trigger] r.banks@[b])@ == Seq::new(16384, |i: int| 0u8),
    {
        let mut banks: Vec<Vec<u8>> = Vec::new();
        let mut k: usize = 0;
        while k < MAX_BANKS
            invariant
                k <= 8,
                banks@.len() == k,
                forall|b: int| 0 <= b < k ==> (#[trigger] banks@[b])@ == Seq::new(16384, |i: int| 0u8),
            decreases 8 - k,
        {
            banks.push(zero_bank());
            k += 1;
        }
        Self { slot, active_bank: 0, prev_bank: 0, banks, pending_swap: None }
    }

    /// Switch to bank `new_bank` (at most 7): if it is not already active,
    /// remember the previous bank and queue a copy of the new one for the
    /// bus.
    pub fn switch_to_bank(&mut self, new_bank: u8)
        requires
            old(self).wf(),
        ensures
            final(self).wf(),
            final(self).banks == old(self).banks,
            ({
                let nb = if new_bank > 7 { 7u8 } else { new_bank };
                if old(self).active_bank == nb {
                    final(self).active_bank == old(self).active_bank && final(self).prev_bank
                        == old(self).prev_bank && final(self).pending_swap == old(self).pending_swap
                } else {
                    &&& final(self).prev_bank == old(self).active_bank
                    &&& final(self).active_bank == nb
                    &&& final(self).pending_swap matches Some(p) && p@ == old(self).banks@[nb as int]@
                }
            }),
    {
        let new_bank = if new_bank < (MAX_BANKS - 1) as u8 {
            new_bank
        } else {
            (MAX_BANKS - 1) as u8
        };
        if self.active_bank == new_bank {
            return;
        }
        self.prev_bank = self.active_bank;
        self.active_bank = new_bank;
        let copy = vstd::slice::slice_to_vec(self.banks[new_bank as usize].as_slice());
        self.pending_swap = Some(copy);
    }

    /// The card type.
    pub fn card_type(&self) -> (r: CardType)
        ensures
            r == CardType::Saturn128K,
    {
        CardType::Saturn128K
    }

    /// The slot number.
    pub fn slot(&self) -> (r: usize)
        ensures
            r == self.slot,
    {
        self.slot
    }

    /// The card after a write of `value` to its register `reg`.
    pub open spec fn slot_io_write_post(self, reg: u8, value: u8, cycles: u64, next: Self) -> bool {
        &&& next.wf()
        &&& next.banks == self.banks
        &&& reg & 0x04 == 0 ==> next.active_bank == self.active_bank
            && next.pending_swap == self.pending_swap
        &&& reg & 0x04 != 0 && self.active_bank != selected_bank(reg) ==> next.active_bank
            == selected_bank(reg) && next.prev_bank == self.active_bank
            && (next.pending_swap matches Some(p) && p@ == self.banks@[selected_bank(reg) as int]@)
    }

    /// A write to the switches: with bit 2 set, switch to the bank in bits
    /// 3:1.
    pub fn slot_io_write(&mut self, reg: u8, value: u8, cycles: u64)
        requires
            old(self).wf(),
        ensures
            old(self).slot_io_write_post(reg, value, cycles, *final(self)),
    {
        if reg & 0x04 != 0 {
            let bank = (reg >> 1u8) & 0x07;
            assert(bank <= 7) by (bit_vector)
                requires
                    bank == (reg >> 1u8) & 0x07,
            ;
            self.switch_to_bank(bank);
        }
    }

    /// The card after its pending bank swap `r` is taken.
    pub open spec fn take_lc_bank_swap_post(self, next: Self, r: Option<Vec<u8>>) -> bool {
        &&& r == self.pending_swap
        &&& next.pending_swap is None
        &&& next.banks == self.banks
        &&& next.active_bank == self.active_bank && next.prev_bank == self.prev_bank
        &&& next.slot == self.slot
    }

    /// Hand the bus the bank waiting to be swapped in, if any.
    pub fn take_lc_bank_swap(&mut self) -> (r: Option<Vec<u8>>)
        ensures
            old(self).take_lc_bank_swap_post(*final(self), r),
    {
        self.pending_swap.take()
    }

    /// The card after it is handed back the displaced bank `data`.
    pub open spec fn store_lc_bank_post(self, data: Seq<u8>, next: Self) -> bool {
        &&& next.wf()
        &&& next.banks@.len() == 8
        &&& next.banks@[self.prev_bank as int]@ == data
        &&& forall|b: int| 0 <= b < 8 && b != self.prev_bank ==> #[trigger] next.banks@[b] == self.banks@[b]
        &&& next.active_bank == self.active_bank && next.prev_bank == self.prev_bank
        &&& next.slot == self.slot && next.pending_swap == self.pending_swap
    }

    /// The bus hands back the displaced bank: it becomes the previous
    /// bank's contents.
    pub fn store_lc_bank(&mut self, data: &[u8])
        requires
            old(self).wf(),
            data@.len() == 16384,
        ensures
            old(self).store_lc_bank_post(data@, *final(self)),
    {
        let p = self.prev_bank as usize;
        copy_bank(&mut self.banks[p], data);
    }

    /// The card after a reset (`power_cycle` for a power cycle).
    pub open spec fn reset_post(self, power_cycle: bool, next: Self) -> bool {
        &&& next.wf()
        &&& next.active_bank == 0 && next.prev_bank == 0
        &&& next.pending_swap is None
        &&& forall|b: int| 0 <= b < 8 ==> (#[trigger] next.banks@[b])@ == Seq::new(16384, |i: int| 0u8)
        &&& next.slot == self.slot
    }

    /// Reset: bank 0 active, nothing pending, all banks zeroed.
    pub fn reset(&mut self, power_cycle: bool)
        requires
            old(self).wf(),
        ensures
            old(self).reset_post(power_cycle, *final(self)),
    {
        self.active_bank = 0;
        self.prev_bank = 0;
        self.pending_swap = None;
        let mut k: usize = 0;
        while k < MAX_BANKS
            invariant
                k <= 8,
                self.banks@.len() == 8,
                self.slot == old(self).slot,
                self.active_bank == 0 && self.prev_bank == 0,
                self.pending_swap is None,
                forall|b: int| 0 <= b < 8 ==> (#[trigger] self.banks@[b])@.len() == 16384,
                forall|b: int| 0 <= b < k ==> (#[trigger] self.banks@[b])@ == Seq::new(16384, |i: int| 0u8),
            decreases 8 - k,
        {
            self.banks.set(k, zero_bank());
            k += 1;
        }
    }

    /// Append the save record: version 1, active and previous bank, then
    /// the eight banks.
    pub fn save_state(&self, out: &mut Vec<u8>)
        requires
            self.wf(),
        ensures
            final(out)@ == old(out)@ + seq![1u8, self.active_bank, self.prev_bank] + banks_bytes(self.banks@, 8),
    {
        out.push(1);
        out.push(self.active_bank);
        out.push(self.prev_bank);
        let ghost start = out@;
        let mut k: usize = 0;
        while k < MAX_BANKS
            invariant
                k <= 8,
                self.wf(),
                out@ == start + banks_bytes(self.banks@, k as int),
            decreases 8 - k,
        {
            let ghost before = out@;
            let bank = &self.banks[k];
            let mut i: usize = 0;
            while i < LC_SIZE
                invariant
                    i <= 16384,
                    bank@.len() == 16384,
                    out@ == before + bank@.subrange(0, i as int),
                decreases 16384 - i,
            {
                out.push(bank[i]);
                i += 1;
                assert(bank@.subrange(0, i as int) == bank@.subrange(0, i - 1).push(bank@[i - 1]));
            }
            assert(bank@.subrange(0, 16384) == bank@);
            k += 1;
        }
    }

    /// Read the save record (version byte unchecked). The bank numbers (each
    /// at most 7) are read first, then the banks one by one; the pending
    /// swap is dropped when all are read. If `src` ends early, what was read
    /// before has been applied and an I/O error is returned.
    pub fn load_state(&mut self, src: &[u8], version: u32) -> (r: Result<(), Error>)
        requires
            old(self).wf(),
        ensures
            final(self).wf(),
            r is Ok <==> src@.len() >= 3 + 8 * 16384,
            src@.len() < 3 ==> final(self).active_bank == old(self).active_bank
                && final(self).prev_bank == old(self).prev_bank && final(self).banks == old(self).banks,
            src@.len() >= 3 ==> final(self).active_bank == (if src@[1] > 7 { 7 } else { src@[1] })
                && final(self).prev_bank == (if src@[2] > 7 { 7 } else { src@[2] }),
            forall|b: int| 0 <= b < 8 && 3 + (b + 1) * 16384 <= src@.len() ==> (#[trigger] final(self).banks@[b])@
                == src@.subrange(3 + b * 16384, 3 + (b + 1) * 16384),
            forall|b: int| 0 <= b < 8 && 3 + (b + 1) * 16384 > src@.len() ==> (#[trigger] final(self).banks@[b])
                == old(self).banks@[b],
            r is Ok ==> final(self).pending_swap is None,
            r is Err ==> final(self).pending_swap == old(self).pending_swap,
    {
        if src.len() < 3 {
            return Err(unexpected_eof());
        }
        self.active_bank = if src[1] < 7 { src[1] } else { 7 };
        self.prev_bank = if src[2] < 7 { src[2] } else { 7 };
        let mut k: usize = 0;
        while k < MAX_BANKS
            invariant
                k <= 8,
                src@.len() >= 3,
                self.banks@.len() == 8,
                forall|b: int| 0 <= b < 8 ==> (#[trigger] self.banks@[b])@.len() == 16384,
                self.active_bank == (if src@[1] > 7 { 7 } else { src@[1] }),
                self.prev_bank == (if src@[2] > 7 { 7 } else { src@[2] }),
                self.pending_swap == old(self).pending_swap,
                forall|b: int| 0 <= b < k ==> (#[trigger] self.banks@[b])@ == src@.subrange(3 + b * 16384, 3 + (b + 1) * 16384),
                forall|b: int| k <= b < 8 ==> (#[trigger] self.banks@[b]) == old(self).banks@[b],
                3 + k * 16384 <= src@.len(),
            decreases 8 - k,
        {
            let start = 3 + k * LC_SIZE;
            if src.len() - start < LC_SIZE {
                assert forall|b: int| 0 <= b < 8 && 3 + (b + 1) * 16384 > src@.len() implies #[trigger] self.banks@[b]
                    == old(self).banks@[b] by {
                    if b < k {
                        assert(3 + (b + 1) * 16384 <= start) by (nonlinear_arith)
                            requires
                                b < k,
                                start == 3 + k * 16384,
                        ;
                    }
                }
                return Err(unexpected_eof());
            }
            copy_bank(&mut self.banks[k], vstd::slice::slice_subrange(src, start, start + LC_SIZE));
            k += 1;
        }
        assert forall|b: int| 0 <= b < 8 && 3 + (b + 1) * 16384 > src@.len() implies #[trigger] self.banks@[b]
            == old(self).banks@[b] by {
            assert(3 + (b + 1) * 16384 <= 3 + 8 * 16384) by (nonlinear_arith)
                requires
                    b < 8,
            ;
        }
        self.pending_swap = None;
        Ok(())
    }
}

/// The bytes of the first `n` banks, one after another.
pub open spec fn banks_bytes(banks: Seq<Vec<u8>>, n: int) -> Seq<u8>
    decreases n,
{
    if n <= 0 {
        Seq::empty()
    } else {
        banks_bytes(banks, n - 1) + banks[n - 1]@
    }
}

} // verus!
