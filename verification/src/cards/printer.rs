//! Parallel printer card: bytes strobed out by the Apple II are collected
//! and handed to the host in batches (on form feed, or every 4096 bytes).

use vstd::prelude::*;
use crate::card::CardType;

verus! {

/// Form feed: ends a page and sends the batch.
pub const FORM_FEED: u8 = 0x0C;
/// A batch is sent when it reaches this size.
pub const BATCH_SIZE: usize = 4096;

/// The printer card.
pub struct PrinterCard {
    pub slot: usize,
    /// The data latch.
    pub data: u8,
    /// Bytes printed since the last batch was sent.
    pub buffer: Vec<u8>,
    /// Batches ready for the host to append to the printer file.
    pub output: Vec<u8>,
}

impl PrinterCard {
    /// The open batch stays below the batch size.
    pub open spec fn wf(&self) -> bool {
        self.buffer@.len() < 4096
    }

    /// A card in `slot` with nothing printed.
    pub fn new(slot: usize) -> (r: Self)
        ensures
            r.wf(),
            r.slot == slot,
            r.data == 0,
            r.buffer@.len() == 0,
            r.output@.len() == 0,
    {
        Self { slot, data: 0, buffer: Vec::new(), output: Vec::new() }
    }

    /// Send the open batch (if any) to the host.
    fn flush(&mut self)
        ensures
            final(self).output@ == old(self).output@ + old(self).buffer@,
            final(self).buffer@.len() == 0,
            final(self).data == old(self).data && final(self).slot == old(self).slot,
    {
        if self.buffer.len() == 0 {
            assert(old(self).output@ + old(self).buffer@ =~= old(self).output@);
            return;
        }
        let mut i: usize = 0;
        let ghost out0 = self.output@;
        while i < self.buffer.len()
            invariant
                i <= self.buffer@.len(),
                self.buffer@ == old(self).buffer@,
                self.output@ == out0 + self.buffer@.subrange(0, i as int),
                self.data == old(self).data && self.slot == old(self).slot,
            decreases self.buffer@.len() - i,
        {
            let b = self.buffer[i];
            self.output.push(b);
            i += 1;
            assert(self.buffer@.subrange(0, i as int) == self.buffer@.subrange(0, i - 1).push(b));
        }
        assert(self.buffer@.subrange(0, self.buffer@.len() as int) == self.buffer@);
        self.buffer.clear();
    }

    /// Print the latched byte: a form feed sends the batch; any other byte
    /// joins it, and a full batch is sent.
    fn strobe(&mut self)
        requires
            old(self).wf(),
        ensures
            final(self).wf(),
            printed(*old(self), *final(self)),
    {
        if self.data == FORM_FEED {
            self.flush();
        } else {
            let d = self.data;
            self.buffer.push(d);
            if self.buffer.len() >= BATCH_SIZE {
                self.flush();
            }
        }
    }

    /// The card type.
    pub fn card_type(&self) -> (r: CardType)
        ensures
            r == CardType::GenericPrinter,
    {
        CardType::GenericPrinter
    }

    /// The slot number.
    pub fn slot(&self) -> (r: usize)
        ensures
            r == self.slot,
    {
        self.slot
    }

    /// The card after a read of its register `reg`, and the byte `r` read.
    pub open spec fn slot_io_read_post(self, reg: u8, cycles: u64, next: Self, r: u8) -> bool {
        &&& r == (if reg == 0 { self.data } else if reg == 1 { 0x00u8 } else { 0xFFu8 })
        &&& next == self
    }

    /// Register 0 reads the latch, 1 the status (always ready: 0), others
    /// 0xFF.
    pub fn slot_io_read(&mut self, reg: u8, cycles: u64) -> (r: u8)
        ensures
            old(self).slot_io_read_post(reg, cycles, *final(self), r),
    {
        if reg == 0 {
            self.data
        } else if reg == 1 {
            0x00
        } else {
            0xFF
        }
    }

    /// The card after a write of `value` to its register `reg`.
    pub open spec fn slot_io_write_post(self, reg: u8, val: u8, cycles: u64, next: Self) -> bool {
        &&& next.wf()
        &&& reg == 0 ==> next.data == val && next.buffer == self.buffer
            && next.output == self.output
        &&& reg == 1 ==> printed(self, next)
        &&& reg > 1 ==> next.data == self.data && next.buffer == self.buffer
            && next.output == self.output
    }

    /// Register 0 loads the latch; register 1 strobes it to the printer.
    pub fn slot_io_write(&mut self, reg: u8, val: u8, cycles: u64)
        requires
            old(self).wf(),
        ensures
            old(self).slot_io_write_post(reg, val, cycles, *final(self)),
    {
        if reg == 0 {
            self.data = val;
        } else if reg == 1 {
            self.strobe();
        }
    }

    /// Hand the host the batches sent so far.
    pub fn take_output(&mut self) -> (r: Vec<u8>)
        ensures
            r@ == old(self).output@,
            final(self).output@.len() == 0,
            final(self).buffer == old(self).buffer && final(self).data == old(self).data,
    {
        let mut out: Vec<u8> = Vec::new();
        std::mem::swap(&mut out, &mut self.output);
        out
    }

    /// The card after a reset (`power_cycle` for a power cycle).
    pub open spec fn reset_post(self, power_cycle: bool, next: Self) -> bool {
        &&& next.wf()
        &&& next.buffer@.len() == 0
        &&& next.output == self.output && next.data == self.data
        &&& next.slot == self.slot
    }

    /// Reset: the open batch is dropped.
    pub fn reset(&mut self, power_cycle: bool)
        ensures
            old(self).reset_post(power_cycle, *final(self)),
    {
        self.buffer.clear();
    }
}

/// What printing the latched byte does: a form feed sends the batch; any
/// other byte joins it, and a batch of 4096 bytes is sent.
pub open spec fn printed(s: PrinterCard, t: PrinterCard) -> bool {
    &&& t.data == s.data && t.slot == s.slot
    &&& if s.data == FORM_FEED {
        t.output@ == s.output@ + s.buffer@ && t.buffer@.len() == 0
    } else {
        let b = s.buffer@.push(s.data);
        if b.len() >= 4096 {
            t.output@ == s.output@ + b && t.buffer@.len() == 0
        } else {
            t.output@ == s.output@ && t.buffer@ == b
        }
    }
}

} // verus!
