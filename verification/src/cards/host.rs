//! Cards whose work the host program does, such as the SAM speech DAC,
//! whose register writes are audio samples and whose reads always give
//! 0xFF: the bus reaches them like any other card, each access is recorded
//! for the host to carry out, and reads give what the host last put in the
//! card's read-back registers.

use vstd::prelude::*;
use crate::card::CardType;

verus! {

/// Which of a card's two address ranges an access went to.
#[derive(Debug, Clone, Copy, PartialEq, Eq, Structural)]
pub enum HostArea {
    /// The sixteen slot registers ($C0n0-$C0nF).
    Registers,
    /// The card's page ($Cn00-$CnFF).
    Page,
}

/// Something the bus did to a host-driven card, for the host to carry out.
#[derive(Debug, Clone, Copy, PartialEq, Eq, Structural)]
pub enum HostEvent {
    /// A read of `offset` in `area` at CPU cycle `cycles`.
    Read { area: HostArea, offset: u8, cycles: u64 },
    /// A write of `value` to `offset` in `area` at CPU cycle `cycles`.
    Write { area: HostArea, offset: u8, value: u8, cycles: u64 },
    /// A reset (a power cycle when `power_cycle`).
    Reset { power_cycle: bool },
    /// The periodic update at CPU cycle `cycles`.
    Update { cycles: u64 },
}

/// A card in a slot whose behaviour the host program supplies.
pub struct HostCard {
    pub slot: usize,
    /// The card's type, as the host names it.
    pub kind: CardType,
    /// What each slot register reads back, as the host last set it.
    pub regs: [u8; 16],
    /// What the card's page reads back, as the host last set it.
    pub page: [u8; 256],
    /// The accesses the host has not yet taken, oldest first.
    pub events: Vec<HostEvent>,
    /// The card asserts IRQ, as the host last set it.
    pub irq: bool,
}

impl HostCard {
    /// A host-driven card of type `kind` in `slot`: everything reads 0xFF
    /// and nothing has happened yet.
    pub fn new(slot: usize, kind: CardType) -> (r: Self)
        ensures
            r.slot == slot,
            r.kind == kind,
            forall|i: int| 0 <= i < 16 ==> r.regs@[i] == 0xFF,
            forall|i: int| 0 <= i < 256 ==> r.page@[i] == 0xFF,
            r.events@.len() == 0,
            !r.irq,
    {
        HostCard { slot, kind, regs: [0xFF; 16], page: [0xFF; 256], events: Vec::new(), irq: false }
    }

    /// The card type.
    pub fn card_type(&self) -> (r: CardType)
        ensures
            r == self.kind,
    {
        self.kind
    }

    /// The slot number.
    pub fn slot(&self) -> (r: usize)
        ensures
            r == self.slot,
    {
        self.slot
    }

    /// The card after a read of its page at `offset`, and the byte `r`
    /// read: what the host put there; the read is recorded.
    pub open spec fn io_read_post(self, offset: u8, cycles: u64, next: Self, r: u8) -> bool {
        &&& r == self.page@[offset as int]
        &&& next.events@ == self.events@.push(HostEvent::Read { area: HostArea::Page, offset, cycles })
        &&& next == (HostCard { events: next.events, ..self })
    }

    /// A read of the card's page.
    pub fn io_read(&mut self, offset: u8, cycles: u64) -> (r: u8)
        ensures
            old(self).io_read_post(offset, cycles, *final(self), r),
    {
        self.events.push(HostEvent::Read { area: HostArea::Page, offset, cycles });
        self.page[offset as usize]
    }

    /// The card after a write of `value` to its page at `offset`: the
    /// write is recorded.
    pub open spec fn io_write_post(self, offset: u8, value: u8, cycles: u64, next: Self) -> bool {
        &&& next.events@ == self.events@.push(HostEvent::Write { area: HostArea::Page, offset, value, cycles })
        &&& next == (HostCard { events: next.events, ..self })
    }

    /// A write to the card's page.
    pub fn io_write(&mut self, offset: u8, value: u8, cycles: u64)
        ensures
            old(self).io_write_post(offset, value, cycles, *final(self)),
    {
        self.events.push(HostEvent::Write { area: HostArea::Page, offset, value, cycles });
    }

    /// The card after a read of its register `reg` (its low four bits),
    /// and the byte `r` read: what the host put there; the read is
    /// recorded.
    pub open spec fn slot_io_read_post(self, reg: u8, cycles: u64, next: Self, r: u8) -> bool {
        &&& r == self.regs@[(reg % 16) as int]
        &&& next.events@ == self.events@.push(
            HostEvent::Read { area: HostArea::Registers, offset: reg % 16, cycles },
        )
        &&& next == (HostCard { events: next.events, ..self })
    }

    /// A read of a slot register.
    pub fn slot_io_read(&mut self, reg: u8, cycles: u64) -> (r: u8)
        ensures
            old(self).slot_io_read_post(reg, cycles, *final(self), r),
    {
        let r = reg % 16;
        self.events.push(HostEvent::Read { area: HostArea::Registers, offset: r, cycles });
        self.regs[r as usize]
    }

    /// The card after a write of `value` to its register `reg` (its low
    /// four bits): the write is recorded.
    pub open spec fn slot_io_write_post(self, reg: u8, value: u8, cycles: u64, next: Self) -> bool {
        &&& next.events@ == self.events@.push(
            HostEvent::Write { area: HostArea::Registers, offset: reg % 16, value, cycles },
        )
        &&& next == (HostCard { events: next.events, ..self })
    }

    /// A write to a slot register.
    pub fn slot_io_write(&mut self, reg: u8, value: u8, cycles: u64)
        ensures
            old(self).slot_io_write_post(reg, value, cycles, *final(self)),
    {
        self.events.push(HostEvent::Write { area: HostArea::Registers, offset: reg % 16, value, cycles });
    }

    /// The card after a reset: the reset is recorded.
    pub open spec fn reset_post(self, power_cycle: bool, next: Self) -> bool {
        &&& next.events@ == self.events@.push(HostEvent::Reset { power_cycle })
        &&& next == (HostCard { events: next.events, ..self })
    }

    /// A reset.
    pub fn reset(&mut self, power_cycle: bool)
        ensures
            old(self).reset_post(power_cycle, *final(self)),
    {
        self.events.push(HostEvent::Reset { power_cycle });
    }

    /// The card after its periodic update: the update is recorded.
    pub open spec fn update_post(self, cycles: u64, next: Self) -> bool {
        &&& next.events@ == self.events@.push(HostEvent::Update { cycles })
        &&& next == (HostCard { events: next.events, ..self })
    }

    /// The periodic update.
    pub fn update(&mut self, cycles: u64)
        ensures
            old(self).update_post(cycles, *final(self)),
    {
        self.events.push(HostEvent::Update { cycles });
    }

    /// Hand the host the events it has not yet taken, oldest first.
    pub fn take_events(&mut self) -> (r: Vec<HostEvent>)
        ensures
            r@ == old(self).events@,
            final(self).events@.len() == 0,
            *final(self) == (HostCard { events: final(self).events, ..*old(self) }),
    {
        let mut taken: Vec<HostEvent> = Vec::new();
        std::mem::swap(&mut taken, &mut self.events);
        taken
    }

    /// The host sets what slot register `reg` (its low four bits) reads.
    pub fn set_reg(&mut self, reg: u8, value: u8)
        ensures
            final(self).regs@ == old(self).regs@.update((reg % 16) as int, value),
            *final(self) == (HostCard { regs: final(self).regs, ..*old(self) }),
    {
        self.regs[(reg % 16) as usize] = value;
    }

    /// The host sets whether the card asserts IRQ.
    pub fn set_irq(&mut self, irq: bool)
        ensures
            *final(self) == (HostCard { irq, ..*old(self) }),
    {
        self.irq = irq;
    }

    /// Whether the card asserts IRQ.
    pub fn irq_active(&self) -> (r: bool)
        ensures
            r == self.irq,
    {
        self.irq
    }

    /// The host sets what offset `offset` of the card's page reads.
    pub fn set_page(&mut self, offset: u8, value: u8)
        ensures
            final(self).page@ == old(self).page@.update(offset as int, value),
            *final(self) == (HostCard { page: final(self).page, ..*old(self) }),
    {
        self.page[offset as usize] = value;
    }
}

} // verus!
