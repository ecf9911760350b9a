//! Laws of the memory bus: what a read gives back of a write, how the
//! language card enables writing, and what the status registers, the
//! keyboard strobe, the speaker and the paddle timers report after the
//! switches that drive them.

use vstd::prelude::*;
use crate::bus::machine::{sw_on, Bus, PADDLE_CYCLES_MAX};
use crate::bus::soft_switches::{lc_access, read_switch, write_switch};
use crate::bus::{paddle_values, MemMode, PageDst, PageSrc};

verus! {

/// A byte stored to `addr` through a page whose read and write routes
/// name the same RAM reads back as stored.
pub proof fn lemma_store_then_read(o: Bus, n: Bus, addr: u16, val: u8)
    requires
        o.wf(),
        n.stored(o, addr, val),
        (o.pages_r@[(addr / 256) as int] matches PageSrc::Main(b) && o.pages_w@[(addr / 256) as int]
            == PageDst::Main(b)) || (o.pages_r@[(addr / 256) as int] matches PageSrc::Aux(b)
            && o.pages_w@[(addr / 256) as int] == PageDst::Aux(b)),
    ensures
        n.peek(addr) == val,
{
}

/// A store routed to one bank leaves what a read routed to the other bank
/// gives: main and aux memory are independent.
pub proof fn lemma_banks_independent(o: Bus, n: Bus, addr: u16, val: u8, other: u16)
    requires
        o.wf(),
        n.stored(o, addr, val),
        (o.pages_w@[(addr / 256) as int] is Aux && o.pages_r@[(other / 256) as int] is Main) || (
        o.pages_w@[(addr / 256) as int] is Main && o.pages_r@[(other / 256) as int] is Aux),
    ensures
        n.peek(other) == o.peek(other),
{
}

/// Two reads in a row of an odd language-card switch enable writing to its
/// RAM; an even switch protects the RAM; a write never arms the second
/// step. Bit 3 of the switch selects the bank and bits 0 and 1 agreeing
/// select RAM for reading.
pub proof fn lemma_lc_write_enable(o: Bus, reg: u8, write: bool)
    requires
        0x80 <= reg <= 0x8F,
    ensures
        reg & 1 != 0 ==> sw_on(
            lc_access(lc_access(o, reg, false), reg, false).mode.bits,
            MemMode::MF_WRITERAM,
        ),
        reg & 1 == 0 ==> !sw_on(lc_access(o, reg, write).mode.bits, MemMode::MF_WRITERAM),
        !lc_access(o, reg, true).lc_prewrite,
        sw_on(lc_access(o, reg, write).mode.bits, MemMode::MF_BANK2) == (reg & 0x08 == 0),
        sw_on(lc_access(o, reg, write).mode.bits, MemMode::MF_HIGHRAM) == ((reg >> 1u8) & 1 == reg & 1),
{
    let bits = o.mode.bits;
    let b1 = if reg & 0x08 == 0 { bits | MemMode::MF_BANK2 } else { bits & !MemMode::MF_BANK2 };
    let b2 = if (reg >> 1u8) & 1 == reg & 1 { b1 | MemMode::MF_HIGHRAM } else { b1 & !MemMode::MF_HIGHRAM };
    crate::bits::lemma_mode_facts(bits, MemMode::MF_BANK2, 0);
    crate::bits::lemma_mode_facts(b1, MemMode::MF_HIGHRAM, 0);
    crate::bits::lemma_mode_facts(b1, MemMode::MF_BANK2, MemMode::MF_HIGHRAM);
    crate::bits::lemma_mode_facts(b2, MemMode::MF_WRITERAM, 0);
    crate::bits::lemma_mode_facts(b2, MemMode::MF_BANK2, MemMode::MF_WRITERAM);
    crate::bits::lemma_mode_facts(b2, MemMode::MF_HIGHRAM, MemMode::MF_WRITERAM);
    let n1 = lc_access(o, reg, false);
    let c1 = if reg & 0x08 == 0 { n1.mode.bits | MemMode::MF_BANK2 } else { n1.mode.bits & !MemMode::MF_BANK2 };
    let c2 = if (reg >> 1u8) & 1 == reg & 1 { c1 | MemMode::MF_HIGHRAM } else { c1 & !MemMode::MF_HIGHRAM };
    crate::bits::lemma_mode_facts(c2, MemMode::MF_WRITERAM, 0);
}

/// Setting a memory or video switch through its register makes its status
/// register read $80, and clearing it (the register below) makes it read 0:
/// 80STORE ($C001/$C018), RAMRD ($C003/$C013), RAMWRT ($C005/$C014),
/// ALTZP ($C009/$C016), 80COL ($C00D/$C01F), ALTCHAR ($C00F/$C01E),
/// MIXED ($C053/$C01B), PAGE2 ($C055/$C01C) and HIRES ($C057/$C01D).
pub proof fn lemma_switch_status(o: Bus, set_reg: u8, status_reg: u8, c1: u64, c2: u64)
    requires
        (set_reg == 0x01 && status_reg == 0x18) || (set_reg == 0x03 && status_reg == 0x13) || (set_reg
            == 0x05 && status_reg == 0x14) || (set_reg == 0x09 && status_reg == 0x16) || (set_reg == 0x0D
            && status_reg == 0x1F) || (set_reg == 0x0F && status_reg == 0x1E) || (set_reg == 0x53
            && status_reg == 0x1B) || (set_reg == 0x55 && status_reg == 0x1C) || (set_reg == 0x57
            && status_reg == 0x1D),
    ensures
        read_switch(write_switch(o, set_reg, c1), status_reg, c2).1 == 0x80,
        read_switch(write_switch(o, (set_reg - 1) as u8, c1), status_reg, c2).1 == 0,
{
    let bits = o.mode.bits;
    crate::bits::lemma_mode_facts(bits, MemMode::MF_80STORE, 0);
    crate::bits::lemma_mode_facts(bits, MemMode::MF_AUXREAD, 0);
    crate::bits::lemma_mode_facts(bits, MemMode::MF_AUXWRITE, 0);
    crate::bits::lemma_mode_facts(bits, MemMode::MF_ALTZP, 0);
    crate::bits::lemma_mode_facts(bits, MemMode::MF_VID80, 0);
    crate::bits::lemma_mode_facts(bits, MemMode::MF_ALTCHAR, 0);
    crate::bits::lemma_mode_facts(bits, MemMode::MF_MIXED, 0);
    crate::bits::lemma_mode_facts(bits, MemMode::MF_PAGE2, 0);
    crate::bits::lemma_mode_facts(bits, MemMode::MF_HIRES, 0);
}

/// A key press is seen at $C000 with the strobe (bit 7) set; a read of
/// $C010 returns it and clears the strobe, after which $C000 gives the
/// key's code alone.
pub proof fn lemma_keyboard_strobe(o: Bus, key: u8, c: u64)
    ensures
        ({
            let k = Bus { keyboard_data: key | 0x80, ..o };
            &&& read_switch(k, 0x00, c).1 == key | 0x80
            &&& read_switch(k, 0x10, c).1 == key | 0x80
            &&& read_switch(read_switch(k, 0x10, c).0, 0x00, c).1 == key & 0x7F
            &&& read_switch(read_switch(k, 0x10, c).0, 0x00, c).1 & 0x80 == 0
        }),
{
    crate::bits::lemma_byte(key, 0, 0, 0);
}

/// Two accesses of the speaker switch ($C030) put the cone back.
pub proof fn lemma_speaker_twice(o: Bus, c1: u64, c2: u64)
    ensures
        read_switch(read_switch(o, 0x30, c1).0, 0x30, c2).0.speaker_state == o.speaker_state,
        write_switch(write_switch(o, 0x30, c1), 0x30, c2).speaker_state == o.speaker_state,
        read_switch(o, 0x30, c1).0.speaker_state != o.speaker_state,
{
}

/// After the paddle strobe ($C070) at `c`, paddle 0 ($C064) and paddle 1
/// ($C065) read $80 until `value * 11 + 3` cycles have passed, and 0 after.
pub proof fn lemma_paddle_timer(o: Bus, c: u64, t: u64)
    requires
        c <= PADDLE_CYCLES_MAX,
    ensures
        read_switch(write_switch(o, 0x70, c), 0x64, t).1 == (if t < c + paddle_values(o.gamepad).0 * 11
            + 3 { 0x80u8 } else { 0u8 }),
        read_switch(write_switch(o, 0x70, c), 0x65, t).1 == (if t < c + paddle_values(o.gamepad).1 * 11
            + 3 { 0x80u8 } else { 0u8 }),
{
}

} // verus!
