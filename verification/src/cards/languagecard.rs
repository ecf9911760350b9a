//! Language card in a slot: one 16K bank that the bus swaps with the
//! language-card area of memory.

use vstd::prelude::*;
use crate::card::CardType;
use crate::error::{unexpected_eof, Error};

verus! {

/// Size of a language-card bank ($C000-$FFFF).
pub const LC_SIZE: usize = 16384;

/// A zeroed 16K bank.
pub fn zero_bank() -> (b: Vec<u8>)
    ensures
        b@ == Seq::new(16384, |i: int| 0u8),
{
    let b = vec![0u8; LC_SIZE];
    assert(b@ =~= Seq::new(16384, |i: int| 0u8));
    b
}

/// Copy `src` (16K) into `dst` (16K).
pub fn copy_bank(dst: &mut Vec<u8>, src: &[u8])
    requires
        old(dst)@.len() == 16384,
        src@.len() == 16384,
    ensures
        final(dst)@ == src@,
{
    let mut i: usize = 0;
    while i < LC_SIZE
        invariant
            i <= 16384,
            dst@.len() == 16384,
            src@.len() == 16384,
            forall|k: int| 0 <= k < i ==> dst@[k] == src@[k],
        decreases 16384 - i,
    {
        dst.set(i, src[i]);
        i += 1;
    }
    assert(dst@ =~= src@);
}

/// The language card.
pub struct LanguageCardCard {
    pub slot: usize,
    /// The card's 16K bank.
    pub bank: Vec<u8>,
    /// A bank waiting to be swapped in by the bus.
    pub pending_swap: Option<Vec<u8>>,
    pub initialised: bool,
}

impl LanguageCardCard {
    /// The bank is 16K.
    pub open spec fn wf(&self) -> bool {
        self.bank@.len() == 16384
    }

    /// A card in `slot` with a zeroed bank.
    pub fn new(slot: usize) -> (r: Self)
        ensures
            r.wf(),
            r.slot == slot,
            r.bank@ == Seq::new(16384, |i: int| 0u8),
            r.pending_swap is None,
            !r.initialised,
    {
        Self { slot, bank: zero_bank(), pending_swap: None, initialised: false }
    }

    /// The card type.
    pub fn card_type(&self) -> (r: CardType)
        ensures
            r == CardType::LanguageCard,
    {
        CardType::LanguageCard
    }

    /// The slot number.
    pub fn slot(&self) -> (r: usize)
        ensures
            r == self.slot,
    {
        self.slot
    }

    /// The card after its pending bank swap `r` is taken.
    pub open spec fn take_lc_bank_swap_post(self, next: Self, r: Option<Vec<u8>>) -> bool {
        &&& r == self.pending_swap
        &&& next.pending_swap is None
        &&& next.bank == self.bank
        &&& next == (LanguageCardCard { pending_swap: None, ..self })
    }

    /// Hand the bus the bank waiting to be swapped in, if any.
    pub fn take_lc_bank_swap(&mut self) -> (r: Option<Vec<u8>>)
        ensures
            old(self).take_lc_bank_swap_post(*final(self), r),
    {
        self.pending_swap.take()
    }

    /// The card after it is handed back the displaced bank `data`.
    pub open spec fn store_lc_bank_post(self, data: Seq<u8>, next: Self) -> bool {
        &&& next.wf()
        &&& next.bank@ == data
        &&& next.pending_swap == self.pending_swap
        &&& next.slot == self.slot && next.initialised == self.initialised
    }

    /// The bus hands back the displaced bank: keep a copy.
    pub fn store_lc_bank(&mut self, data: &[u8])
        requires
            old(self).wf(),
            data@.len() == 16384,
        ensures
            old(self).store_lc_bank_post(data@, *final(self)),
    {
        copy_bank(&mut self.bank, data);
    }

    /// The card after a reset (`power_cycle` for a power cycle).
    pub open spec fn reset_post(self, power_cycle: bool, next: Self) -> bool {
        &&& next.wf()
        &&& next.bank@ == Seq::new(16384, |i: int| 0u8)
        &&& next.pending_swap is None
        &&& !next.initialised
        &&& next.slot == self.slot
    }

    /// Reset: the bank is zeroed, nothing pending.
    pub fn reset(&mut self, power_cycle: bool)
        requires
            old(self).wf(),
        ensures
            old(self).reset_post(power_cycle, *final(self)),
    {
        self.bank = zero_bank();
        self.pending_swap = None;
        self.initialised = false;
    }

    /// Append the save record: version 1, then the bank.
    pub fn save_state(&self, out: &mut Vec<u8>)
        ensures
            final(out)@ == old(out)@ + seq![1u8] + self.bank@,
    {
        out.push(1);
        let ghost start = out@;
        let mut i: usize = 0;
        while i < self.bank.len()
            invariant
                i <= self.bank@.len(),
                out@ == start + self.bank@.subrange(0, i as int),
            decreases self.bank@.len() - i,
        {
            out.push(self.bank[i]);
            i += 1;
            assert(self.bank@.subrange(0, i as int) == self.bank@.subrange(0, i - 1).push(self.bank@[i - 1]));
        }
        assert(self.bank@.subrange(0, self.bank@.len() as int) == self.bank@);
    }

    /// Read the save record (version byte unchecked): the bank is restored
    /// and nothing is left pending; an I/O error, and no change, if fewer
    /// than 16385 bytes are given. (When only the bank is short, the
    /// pending swap is kept.)
    pub fn load_state(&mut self, src: &[u8], version: u32) -> (r: Result<(), Error>)
        requires
            old(self).wf(),
        ensures
            final(self).wf(),
            r is Ok <==> src@.len() >= 16385,
            r is Err ==> final(self).bank@ == old(self).bank@ && final(self).pending_swap == old(self).pending_swap,
            r is Ok ==> final(self).bank@ == src@.subrange(1, 16385) && final(self).pending_swap is None,
    {
        if src.len() < 1 + LC_SIZE {
            return Err(unexpected_eof());
        }
        copy_bank(&mut self.bank, vstd::slice::slice_subrange(src, 1, 1 + LC_SIZE));
        self.pending_swap = None;
        Ok(())
    }
}

} // verus!
