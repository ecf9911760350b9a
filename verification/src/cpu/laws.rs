//! Laws of the stack: what a push leaves for a pull, how RTS returns past
//! the JSR that called, and how RTI resumes after an interrupt.

use vstd::prelude::*;
use crate::bus::machine::Bus;
use crate::bus::laws::lemma_store_then_read;
use super::addressing::{interrupt_status, lemma_low_pages_plain, pc_add, word};
use super::dispatch::stack_addr;

verus! {

/// A store leaves the bus well formed.
pub proof fn lemma_stored_wf(o: Bus, n: Bus, addr: u16, val: u8)
    requires
        o.wf(),
        n.stored(o, addr, val),
    ensures
        n.wf(),
{
    assert(n.rw3_extra@.len() == o.rw3_extra@.len());
    assert forall|b: int| 0 <= b < n.rw3_extra@.len() implies (#[trigger] n.rw3_extra@[b])@.len() == 65536 by {
        assert(o.rw3_extra@[b]@.len() == 65536);
    }
}

/// A byte pushed at `sp` is the byte the next pull (from `sp`) reads.
pub proof fn lemma_push_then_pull(o: Bus, n: Bus, sp: u8, v: u8)
    requires
        o.wf(),
        n.stored(o, stack_addr(sp as int), v),
    ensures
        n.wf(),
        n.peek(stack_addr(sp as int)) == v,
{
    lemma_stored_wf(o, n, stack_addr(sp as int), v);
    lemma_low_pages_plain(o, stack_addr(sp as int));
    assert(o.pages_r@[1] == crate::bus::machine::page_src(o.mode.bits, 1));
    assert(o.pages_w@[1] == crate::bus::machine::page_dst(o.mode.bits, 1));
    lemma_store_then_read(o, n, stack_addr(sp as int), v);
}

/// A second push at another stack slot keeps the first one.
proof fn lemma_push_keeps(o: Bus, n: Bus, a: u8, b: u8, v: u8)
    requires
        o.wf(),
        a != b,
        n.stored(o, stack_addr(b as int), v),
    ensures
        n.peek(stack_addr(a as int)) == o.peek(stack_addr(a as int)),
{
    assert(o.pages_r@[1] == crate::bus::machine::page_src(o.mode.bits, 1));
    assert(o.pages_w@[1] == crate::bus::machine::page_dst(o.mode.bits, 1));
}

/// JSR pushes its return address (high byte at `sp`, low byte below);
/// RTS, run with SP two below, pulls it and continues one past it: right
/// after the JSR instruction.
pub proof fn lemma_jsr_then_rts(b0: Bus, b1: Bus, b2: Bus, sp: u8, ret: u16)
    requires
        b0.wf(),
        b1.stored(b0, stack_addr(sp as int), (ret / 256) as u8),
        b2.stored(b1, stack_addr(sp + 255), (ret % 256) as u8),
    ensures
        ({
            let sp2 = (sp + 254) % 256;
            pc_add(word(b2.peek(stack_addr(sp2 + 1)), b2.peek(stack_addr(sp2 + 2))), 1) == pc_add(ret, 1)
        }),
{
    let lo_slot = ((sp + 255) % 256) as u8;
    assert(stack_addr(sp + 255) == stack_addr(lo_slot as int));
    lemma_push_then_pull(b0, b1, sp, (ret / 256) as u8);
    lemma_push_then_pull(b1, b2, lo_slot, (ret % 256) as u8);
    lemma_push_keeps(b1, b2, sp, lo_slot, (ret % 256) as u8);
    let sp2 = (sp + 254) % 256;
    assert(stack_addr(sp2 + 1) == stack_addr(lo_slot as int));
    assert(stack_addr(sp2 + 2) == stack_addr(sp as int));
}

/// An interrupt pushes PC (high byte at `sp`, then low) and the status
/// with B clear and U set; RTI, run with SP three below, restores that
/// status (U set) and resumes at the interrupted PC.
pub proof fn lemma_interrupt_then_rti(b0: Bus, b1: Bus, b2: Bus, b3: Bus, sp: u8, pc: u16, p: u8)
    requires
        b0.wf(),
        b1.stored(b0, (0x100 + sp) as u16, (pc / 256) as u8),
        b2.stored(b1, (0x100 + (sp + 255) % 256) as u16, (pc % 256) as u8),
        b3.stored(b2, (0x100 + (sp + 254) % 256) as u16, interrupt_status(p)),
    ensures
        ({
            let sp3 = (sp + 253) % 256;
            &&& b3.peek(stack_addr(sp3 + 1)) | crate::cpu::flags::U == interrupt_status(p) | crate::cpu::flags::U
            &&& word(b3.peek(stack_addr(sp3 + 2)), b3.peek(stack_addr(sp3 + 3))) == pc
        }),
{
    let s1 = ((sp + 255) % 256) as u8;
    let s2 = ((sp + 254) % 256) as u8;
    assert(stack_addr(sp as int) == (0x100 + sp) as u16);
    assert(stack_addr(s1 as int) == (0x100 + (sp + 255) % 256) as u16);
    assert(stack_addr(s2 as int) == (0x100 + (sp + 254) % 256) as u16);
    lemma_push_then_pull(b0, b1, sp, (pc / 256) as u8);
    lemma_push_then_pull(b1, b2, s1, (pc % 256) as u8);
    lemma_push_keeps(b1, b2, sp, s1, (pc % 256) as u8);
    lemma_push_then_pull(b2, b3, s2, interrupt_status(p));
    lemma_push_keeps(b2, b3, sp, s2, interrupt_status(p));
    lemma_push_keeps(b2, b3, s1, s2, interrupt_status(p));
    let sp3 = (sp + 253) % 256;
    assert(stack_addr(sp3 + 1) == stack_addr(s2 as int));
    assert(stack_addr(sp3 + 2) == stack_addr(s1 as int));
    assert(stack_addr(sp3 + 3) == stack_addr(sp as int));
}

} // verus!
