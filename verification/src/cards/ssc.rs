//! Super Serial Card: a 6551 ACIA with a receive queue fed by the host and
//! a transmit buffer drained by the host, and the card's identification ROM.

use vstd::prelude::*;
use std::collections::VecDeque;
use crate::card::CardType;
use crate::error::{unexpected_eof, Error};

verus! {

/// Status bit 7: interrupt occurred.
pub const STATUS_IRQ: u8 = 0x80;
/// Status bit 6: data set ready.
pub const STATUS_DSR: u8 = 0x40;
/// Status bit 5: data carrier detect.
pub const STATUS_DCD: u8 = 0x20;
/// Status bit 4: transmit data register empty.
pub const STATUS_TDRE: u8 = 0x10;
/// Status bit 3: receive data register full.
pub const STATUS_RDRF: u8 = 0x08;
/// Status bit 2: overrun.
pub const STATUS_OVERRUN: u8 = 0x04;

/// The card's $Cn00 ROM page: the ProDOS / Pascal identification bytes at
/// 1, 3, 5, 7 and the Pascal entry markers at FB-FF, zero elsewhere.
pub open spec fn ssc_rom_spec() -> Seq<u8> {
    Seq::new(
        256,
        |i: int|
            if i == 0x01 {
                0x38u8
            } else if i == 0x03 {
                0x18
            } else if i == 0x05 {
                0x01
            } else if i == 0x07 {
                0x31
            } else if i == 0xFB {
                0xD6
            } else if i == 0xFC {
                0xDC
            } else if i == 0xFD {
                0x09
            } else {
                0x00
            },
    )
}

/// Build the identification ROM page.
pub fn make_ssc_rom() -> (rom: Box<[u8; 256]>)
    ensures
        rom@ == ssc_rom_spec(),
{
    let mut rom = [0u8; 256];
    rom.set(0x01, 0x38);
    rom.set(0x03, 0x18);
    rom.set(0x05, 0x01);
    rom.set(0x07, 0x31);
    rom.set(0xFB, 0xD6);
    rom.set(0xFC, 0xDC);
    rom.set(0xFD, 0x09);
    rom.set(0xFE, 0x00);
    rom.set(0xFF, 0x00);
    assert(rom@ =~= ssc_rom_spec());
    Box::new(rom)
}

/// The Super Serial Card.
pub struct SscCard {
    pub slot: usize,
    /// Last received byte (register 0 read).
    pub rx_data: u8,
    /// Last transmitted byte (register 0 write).
    pub tx_data: u8,
    /// Status register.
    pub status: u8,
    /// Command register.
    pub command: u8,
    /// Control register.
    pub control: u8,
    /// Received bytes waiting to be read by the Apple II.
    pub rx_buf: VecDeque<u8>,
    /// Bytes written by the Apple II, waiting for the host.
    pub tx_buffer: VecDeque<u8>,
    /// The $Cnxx ROM page.
    pub rom: Box<[u8; 256]>,
    /// Interrupt latch.
    pub irq: bool,
}

/// Receive interrupts are enabled: DTR set (command bit 0) and bit 1 clear.
pub open spec fn rx_irq_enabled(command: u8) -> bool {
    command & 0x02 == 0 && command & 0x01 != 0
}

impl SscCard {
    /// A card in `slot`: transmitter empty, DTR off, receive interrupts
    /// disabled, queues empty.
    pub fn new(slot: usize) -> (r: Self)
        ensures
            r.slot == slot,
            r.rx_data == 0 && r.tx_data == 0,
            r.status == STATUS_TDRE,
            r.command == 0x02,
            r.control == 0x00,
            r.rx_buf@.len() == 0,
            r.tx_buffer@.len() == 0,
            r.rom@ == ssc_rom_spec(),
            !r.irq,
    {
        Self {
            slot,
            rx_data: 0,
            tx_data: 0,
            status: STATUS_TDRE,
            command: 0x02,
            control: 0x00,
            rx_buf: VecDeque::new(),
            tx_buffer: VecDeque::new(),
            rom: make_ssc_rom(),
            irq: false,
        }
    }

    /// A byte arrives from the host: it is queued and the oldest waiting
    /// byte moves into the data register (RDRF set). Overrun is flagged if
    /// the data register was still full; an interrupt is raised when
    /// receive interrupts are enabled.
    pub fn push_rx_byte(&mut self, byte: u8)
        ensures
            ({
                let s = *old(self);
                let q = s.rx_buf@.push(byte);
                let st1 = if s.status & STATUS_RDRF != 0 { s.status | STATUS_OVERRUN } else { s.status };
                let st2 = st1 | STATUS_RDRF;
                &&& final(self).rx_buf@ == q.drop_first()
                &&& final(self).rx_data == q[0]
                &&& final(self).status == (if rx_irq_enabled(s.command) { st2 | STATUS_IRQ } else { st2 })
                &&& final(self).irq == (rx_irq_enabled(s.command) || s.irq)
                &&& final(self).tx_buffer@ == s.tx_buffer@
                &&& final(self).command == s.command && final(self).control == s.control
                &&& final(self).tx_data == s.tx_data && final(self).slot == s.slot
                &&& final(self).rom == s.rom
            }),
    {
        if self.status & STATUS_RDRF != 0 {
            self.status = self.status | STATUS_OVERRUN;
        }
        self.rx_buf.push_back(byte);
        match self.rx_buf.pop_front() {
            Some(b) => {
                self.rx_data = b;
                self.status = self.status | STATUS_RDRF;
            },
            None => {},
        }
        if self.command & 0x02 == 0 && self.command & 0x01 != 0 {
            self.status = self.status | STATUS_IRQ;
            self.irq = true;
        }
    }

    /// Hand the host every byte the Apple II has written since the last
    /// call, in order.
    pub fn take_tx_bytes(&mut self) -> (r: Vec<u8>)
        ensures
            r@ == old(self).tx_buffer@,
            final(self).tx_buffer@.len() == 0,
            final(self).rx_buf@ == old(self).rx_buf@,
            final(self).status == old(self).status && final(self).irq == old(self).irq,
            final(self).command == old(self).command,
    {
        let ghost q0 = self.tx_buffer@;
        let mut out: Vec<u8> = Vec::new();
        while self.tx_buffer.len() > 0
            invariant
                out@ + self.tx_buffer@ == q0,
                self.rx_buf@ == old(self).rx_buf@,
                self.status == old(self).status && self.irq == old(self).irq,
                self.command == old(self).command,
            decreases self.tx_buffer@.len(),
        {
            let ghost before = self.tx_buffer@;
            match self.tx_buffer.pop_front() {
                Some(b) => {
                    out.push(b);
                    assert(out@ + self.tx_buffer@ == q0) by {
                        assert(before == seq![b] + self.tx_buffer@);
                    }
                },
                None => {},
            }
        }
        assert(self.tx_buffer@ =~= Seq::<u8>::empty());
        out
    }

    /// The card type: Super Serial Card.
    pub fn card_type(&self) -> (r: CardType)
        ensures
            r == CardType::Ssc,
    {
        CardType::Ssc
    }

    /// The slot number.
    pub fn slot(&self) -> (r: usize)
        ensures
            r == self.slot,
    {
        self.slot
    }

    /// The card after a read of its ROM page at `offset`, and the byte `r` read.
    pub open spec fn io_read_post(self, offset: u8, cycles: u64, next: Self, r: u8) -> bool {
        &&& r == self.rom@[offset as int]
        &&& next == self
    }

    /// A read of the ROM page.
    pub fn io_read(&mut self, offset: u8, cycles: u64) -> (r: u8)
        ensures
            old(self).io_read_post(offset, cycles, *final(self), r),
    {
        self.rom[offset as usize]
    }

    /// The card after a write of `value` to its ROM page at `offset`.
    pub open spec fn io_write_post(self, offset: u8, value: u8, cycles: u64, next: Self) -> bool {
        &&& next == self
    }

    /// The ROM page is not writable.
    pub fn io_write(&mut self, offset: u8, value: u8, cycles: u64)
        ensures
            old(self).io_write_post(offset, value, cycles, *final(self)),
    {
    }

    /// The card's $Cn00 ROM page.
    pub fn cx_rom(&self) -> (r: Option<&[u8; 256]>)
        ensures
            r matches Some(rom) && rom@ == self.rom@,
    {
        Some(&*self.rom)
    }

    /// The card after a read of its register `reg`, and the byte `r` read.
    pub open spec fn slot_io_read_post(self, reg: u8, cycles: u64, next: Self, r: u8) -> bool {
        &&& ({
            let s = self;
            let t = next;
            let rg = reg & 0x0F;
            if rg == 0x08 {
                let st0 = s.status & !(STATUS_RDRF | STATUS_OVERRUN) & !STATUS_IRQ;
                &&& t.command == s.command && t.control == s.control && t.tx_buffer@ == s.tx_buffer@
                &&& t.tx_data == s.tx_data && t.rom == s.rom && t.slot == s.slot
                &&& if s.rx_buf@.len() == 0 {
                    &&& t.rx_buf@ == s.rx_buf@ && t.rx_data == s.rx_data
                    &&& t.status == st0 && !t.irq && r == s.rx_data
                } else {
                    let st1 = st0 | STATUS_RDRF;
                    &&& t.rx_buf@ == s.rx_buf@.drop_first() && t.rx_data == s.rx_buf@[0]
                    &&& t.status == (if rx_irq_enabled(s.command) { st1 | STATUS_IRQ } else { st1 })
                    &&& t.irq == rx_irq_enabled(s.command)
                    &&& r == s.rx_buf@[0]
                }
            } else if rg == 0x09 {
                &&& r == s.status | STATUS_TDRE
                &&& t.status == s.status & !STATUS_IRQ && !t.irq
                &&& t.rx_buf@ == s.rx_buf@ && t.tx_buffer@ == s.tx_buffer@ && t.rx_data == s.rx_data
                &&& t.command == s.command && t.control == s.control && t.tx_data == s.tx_data
            } else {
                &&& r == (if rg == 0x0A { s.command } else if rg == 0x0B { s.control } else { 0xFF })
                &&& t.status == s.status && t.irq == s.irq && t.rx_buf@ == s.rx_buf@
                &&& t.tx_buffer@ == s.tx_buffer@ && t.rx_data == s.rx_data
                &&& t.command == s.command && t.control == s.control
            }
        })
        &&& next.slot == self.slot && next.rom == self.rom
    }

    /// A read of the ACIA registers ($C0x8-$C0xB): data (clears RDRF,
    /// overrun and the interrupt, then moves the next queued byte in),
    /// status (always with TDRE; clears the interrupt), command, control;
    /// other registers read 0xFF.
    pub fn slot_io_read(&mut self, reg: u8, cycles: u64) -> (r: u8)
        ensures
            old(self).slot_io_read_post(reg, cycles, *final(self), r),
    {
        let rg = reg & 0x0F;
        if rg == 0x08 {
            self.status = self.status & !(STATUS_RDRF | STATUS_OVERRUN);
            self.irq = false;
            self.status = self.status & !STATUS_IRQ;
            match self.rx_buf.pop_front() {
                Some(b) => {
                    self.rx_data = b;
                    self.status = self.status | STATUS_RDRF;
                    if self.command & 0x02 == 0 && self.command & 0x01 != 0 {
                        self.status = self.status | STATUS_IRQ;
                        self.irq = true;
                    }
                },
                None => {},
            }
            self.rx_data
        } else if rg == 0x09 {
            let s = self.status | STATUS_TDRE;
            self.status = self.status & !STATUS_IRQ;
            self.irq = false;
            s
        } else if rg == 0x0A {
            self.command
        } else if rg == 0x0B {
            self.control
        } else {
            0xFF
        }
    }

    /// The card after a write of `value` to its register `reg`.
    pub open spec fn slot_io_write_post(self, reg: u8, val: u8, cycles: u64, next: Self) -> bool {
        &&& ({
            let s = self;
            let t = next;
            let rg = reg & 0x0F;
            if rg == 0x08 {
                let st = s.status | STATUS_TDRE;
                let tx_irq = s.command & 0x06 == 0x02;
                &&& t.tx_data == val && t.tx_buffer@ == s.tx_buffer@.push(val)
                &&& t.status == (if tx_irq { st | STATUS_IRQ } else { st })
                &&& t.irq == (tx_irq || s.irq)
                &&& t.rx_buf@ == s.rx_buf@ && t.rx_data == s.rx_data
                &&& t.command == s.command && t.control == s.control
            } else if rg == 0x09 {
                &&& t.status == STATUS_TDRE && !t.irq
                &&& t.rx_buf@ == s.rx_buf@ && t.tx_buffer@ == s.tx_buffer@
                &&& t.command == s.command && t.control == s.control
            } else if rg == 0x0A {
                &&& t.command == val && t.control == s.control
                &&& t.tx_buffer@ == s.tx_buffer@ && t.irq == s.irq
                &&& if val & 0x01 == 0 {
                    t.rx_buf@.len() == 0 && t.status == s.status & !(STATUS_RDRF | STATUS_OVERRUN)
                } else {
                    t.rx_buf@ == s.rx_buf@ && t.status == s.status
                }
            } else if rg == 0x0B {
                &&& t.control == val && t.command == s.command && t.status == s.status
                &&& t.irq == s.irq && t.rx_buf@ == s.rx_buf@ && t.tx_buffer@ == s.tx_buffer@
            } else {
                &&& t.status == s.status && t.irq == s.irq && t.rx_buf@ == s.rx_buf@
                &&& t.tx_buffer@ == s.tx_buffer@ && t.command == s.command && t.control == s.control
            }
        })
        &&& next.slot == self.slot && next.rom == self.rom
    }

    /// A write to the ACIA registers: data (queued for the host; TDRE set;
    /// interrupt when transmit interrupts are enabled), programmed reset,
    /// command (dropping DTR empties the receive queue and clears RDRF and
    /// overrun), control.
    pub fn slot_io_write(&mut self, reg: u8, val: u8, cycles: u64)
        ensures
            old(self).slot_io_write_post(reg, val, cycles, *final(self)),
    {
        let rg = reg & 0x0F;
        if rg == 0x08 {
            self.tx_data = val;
            self.tx_buffer.push_back(val);
            self.status = self.status | STATUS_TDRE;
            if self.command & 0x06 == 0x02 {
                self.status = self.status | STATUS_IRQ;
                self.irq = true;
            }
        } else if rg == 0x09 {
            self.status = STATUS_TDRE;
            self.irq = false;
        } else if rg == 0x0A {
            self.command = val;
            if val & 0x01 == 0 {
                self.rx_buf.clear();
                self.status = self.status & !(STATUS_RDRF | STATUS_OVERRUN);
            }
        } else if rg == 0x0B {
            self.control = val;
        }
    }

    /// The interrupt line: the latch, driven only while DTR is set.
    pub fn irq_active(&self) -> (r: bool)
        ensures
            r == (self.irq && self.command & 0x01 != 0),
    {
        self.irq && (self.command & 0x01 != 0)
    }

    /// The card after a reset (`power_cycle` for a power cycle).
    pub open spec fn reset_post(self, power_cycle: bool, next: Self) -> bool {
        &&& next.rx_data == 0 && next.tx_data == 0
        &&& next.status == STATUS_TDRE
        &&& next.command == 0x02 && next.control == 0x00
        &&& next.rx_buf@.len() == 0 && next.tx_buffer@.len() == 0
        &&& !next.irq
        &&& next.slot == self.slot && next.rom == self.rom
    }

    /// Reset: registers to their power-on values, both queues emptied.
    pub fn reset(&mut self, power_cycle: bool)
        ensures
            old(self).reset_post(power_cycle, *final(self)),
    {
        self.rx_data = 0;
        self.tx_data = 0;
        self.status = STATUS_TDRE;
        self.command = 0x02;
        self.control = 0x00;
        self.rx_buf.clear();
        self.tx_buffer.clear();
        self.irq = false;
    }

    /// The card after its periodic update at cycle `cycles`.
    pub open spec fn update_post(self, cycles: u64, next: Self) -> bool {
        &&& next == self
    }

    /// Periodic update: nothing to do.
    pub fn update(&mut self, cycles: u64)
        ensures
            old(self).update_post(cycles, *final(self)),
    {
    }

    /// Append the 7-byte save record: version 1, received and transmitted
    /// data, status, command, control, interrupt latch (0/1).
    pub fn save_state(&self, out: &mut Vec<u8>)
        ensures
            final(out)@ == old(out)@ + ssc_record(self.rx_data, self.tx_data, self.status, self.command, self.control, self.irq),
    {
        out.push(1);
        out.push(self.rx_data);
        out.push(self.tx_data);
        out.push(self.status);
        out.push(self.command);
        out.push(self.control);
        out.push(if self.irq { 1 } else { 0 });
    }

    /// Read the save record from the start of `src` (its version byte is
    /// not checked); an I/O error, and no change, if it is shorter than 7
    /// bytes.
    pub fn load_state(&mut self, src: &[u8], version: u32) -> (r: Result<(), Error>)
        ensures
            r is Ok <==> src@.len() >= 7,
            r is Err ==> final(self).rx_data == old(self).rx_data && final(self).tx_data == old(self).tx_data
                && final(self).status == old(self).status && final(self).command == old(self).command
                && final(self).control == old(self).control && final(self).irq == old(self).irq,
            r is Ok ==> final(self).rx_data == src@[1] && final(self).tx_data == src@[2]
                && final(self).status == src@[3] && final(self).command == src@[4]
                && final(self).control == src@[5] && final(self).irq == (src@[6] != 0),
            final(self).rx_buf@ == old(self).rx_buf@ && final(self).tx_buffer@ == old(self).tx_buffer@,
            final(self).slot == old(self).slot,
    {
        if src.len() < 7 {
            return Err(unexpected_eof());
        }
        self.rx_data = src[1];
        self.tx_data = src[2];
        self.status = src[3];
        self.command = src[4];
        self.control = src[5];
        self.irq = src[6] != 0;
        Ok(())
    }
}

/// The save record of the card's registers.
pub open spec fn ssc_record(rx: u8, tx: u8, status: u8, command: u8, control: u8, irq: bool) -> Seq<u8> {
    seq![1u8, rx, tx, status, command, control, (if irq { 1u8 } else { 0u8 })]
}

/// Loading a save record restores the registers it was made from.
pub proof fn lemma_ssc_save_load(rx: u8, tx: u8, status: u8, command: u8, control: u8, irq: bool)
    ensures
        ({
            let b = ssc_record(rx, tx, status, command, control, irq);
            &&& b.len() == 7
            &&& b[1] == rx && b[2] == tx && b[3] == status && b[4] == command && b[5] == control
            &&& (b[6] != 0) == irq
        }),
{
}

} // verus!
