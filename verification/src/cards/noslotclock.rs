//! No-Slot Clock (DS1215): unlocked by a 64-bit pattern written one bit per
//! ROM access, after which 64 reads shift out the date and time in BCD.

use vstd::prelude::*;
use std::time::SystemTime;
use crate::card::CardType;
use crate::error::{unexpected_eof, Error};

verus! {

/// The pattern that unlocks the clock.
pub const MAGIC: u64 = 0x5CA3_3AC5_5CA3_3AC5;

#[verifier::external_type_specification]
#[verifier::external_body]
pub struct ExSystemTime(SystemTime);

/// `std::time::SystemTime::now`: the current wall-clock time. It depends
/// on the host clock, so nothing is stated of it.
#[verifier::external_body]
fn system_time_now() -> SystemTime {
    SystemTime::now()
}

/// `SystemTime::duration_since(UNIX_EPOCH)` of `t`: the time elapsed since
/// 1970, or `None` where `t` lies before it (the call's error). The value
/// depends on the host clock, so nothing is stated of it.
#[verifier::external_body]
fn duration_since_epoch(t: SystemTime) -> Option<std::time::Duration> {
    match t.duration_since(std::time::UNIX_EPOCH) {
        Ok(d) => Some(d),
        Err(_) => None,
    }
}

/// `Duration::as_secs` of `d`: its whole seconds, the fraction dropped. A
/// `Duration` is opaque here, so nothing is stated of the result.
#[verifier::external_body]
fn whole_secs(d: &std::time::Duration) -> u64 {
    d.as_secs()
}

/// Packed BCD of `n` (below 100): tens in the high nibble.
pub open spec fn bcd_spec(n: u64) -> u64 {
    ((n / 10) << 4u64) | (n % 10)
}

/// Packed BCD of `n`.
pub fn bcd(n: u64) -> (r: u64)
    ensures
        r == bcd_spec(n),
{
    ((n / 10) << 4u64) | (n % 10)
}

/// The clock register for `secs` seconds since 1970: centiseconds (0),
/// seconds, minutes, hours, day of week (1 = Sunday), date, month and year,
/// one BCD byte each from the low byte up. Dates use 365-day years and
/// 30-day months.
pub open spec fn clock_bits_spec(secs: u64) -> u64 {
    let s = secs % 60;
    let m = (secs / 60) % 60;
    let h = (secs / 3600) % 24;
    let days = secs / 86400;
    let dow = ((days + 3) % 7) + 1;
    let year = ((1970 + days / 365) % 100) as u64;
    let day_of_year = days % 365;
    let month = (if day_of_year / 30 > 11 { 11 } else { day_of_year / 30 }) + 1;
    let date = (day_of_year % 30) + 1;
    bcd_spec(0) | (bcd_spec(s) << 8u64) | (bcd_spec(m) << 16u64) | (bcd_spec(h) << 24u64) | (
    bcd_spec(dow as u64) << 32u64) | (bcd_spec(date as u64) << 40u64) | (bcd_spec(month as u64) << 48u64) | (
    bcd_spec(year) << 56u64)
}

/// The clock register for `secs` seconds since 1970.
pub fn clock_bits(secs: u64) -> (r: u64)
    ensures
        r == clock_bits_spec(secs),
{
    let s = secs % 60;
    let m = (secs / 60) % 60;
    let h = (secs / 3600) % 24;
    let days = secs / 86400;
    let dow = ((days + 3) % 7) + 1;
    let year = (1970 + days / 365) % 100;
    let day_of_year = days % 365;
    let month = (if day_of_year / 30 > 11 { 11 } else { day_of_year / 30 }) + 1;
    let date = (day_of_year % 30) + 1;
    bcd(0) | (bcd(s) << 8u64) | (bcd(m) << 16u64) | (bcd(h) << 24u64) | (bcd(dow) << 32u64) | (bcd(date)
        << 40u64) | (bcd(month) << 48u64) | (bcd(year) << 56u64)
}

/// The No-Slot Clock.
pub struct NoSlotClockCard {
    pub slot: usize,
    /// Pattern bits received so far.
    pub comparison_reg: u64,
    /// How many pattern bits were received (0-63).
    pub comparison_count: u8,
    /// The time, loaded when the pattern matched.
    pub clock_reg: u64,
    /// How many time bits were read (0-63).
    pub clock_count: u8,
    /// The pattern matched: reads shift the time out.
    pub clock_enabled: bool,
}

impl NoSlotClockCard {
    /// Both bit counters are below 64.
    pub open spec fn wf(&self) -> bool {
        self.comparison_count < 64 && self.clock_count < 64
    }

    /// A clock in `slot`, locked.
    pub fn new(slot: usize) -> (r: Self)
        ensures
            r.wf(),
            r.slot == slot,
            r.comparison_reg == 0 && r.comparison_count == 0,
            r.clock_reg == 0 && r.clock_count == 0,
            !r.clock_enabled,
    {
        Self { slot, comparison_reg: 0, comparison_count: 0, clock_reg: 0, clock_count: 0, clock_enabled: false }
    }

    /// Load the clock register from the host clock (0 seconds if it reads
    /// before 1970) and start reading from its first bit.
    fn load_clock_reg(&mut self)
        ensures
            exists|secs: u64| final(self).clock_reg == clock_bits_spec(secs),
            final(self).clock_count == 0,
            final(self).comparison_reg == old(self).comparison_reg,
            final(self).comparison_count == old(self).comparison_count,
            final(self).clock_enabled == old(self).clock_enabled,
            final(self).slot == old(self).slot,
    {
        let secs = match duration_since_epoch(system_time_now()) {
            Some(d) => whole_secs(&d),
            None => 0,
        };
        self.clock_reg = clock_bits(secs);
        self.clock_count = 0;
    }

    /// The card type.
    pub fn card_type(&self) -> (r: CardType)
        ensures
            r == CardType::GenericClock,
    {
        CardType::GenericClock
    }

    /// The slot number.
    pub fn slot(&self) -> (r: usize)
        ensures
            r == self.slot,
    {
        self.slot
    }

    /// The card after a read of its ROM page at `offset`, and the byte `r` read.
    pub open spec fn io_read_post(self, offset: u8, cycles: u64, next: Self, r: u8) -> bool {
        &&& next.wf()
        &&& next.slot == self.slot
        &&& ({
            let s = self;
            let t = next;
            if s.clock_enabled && offset & 0x04 != 0 {
                &&& r == ((s.clock_reg >> s.clock_count) & 1) as u8
                &&& t.clock_reg == s.clock_reg
                &&& if s.clock_count + 1 >= 64 {
                    !t.clock_enabled && t.clock_count == 0 && t.comparison_reg == 0 && t.comparison_count == 0
                } else {
                    t.clock_enabled && t.clock_count == s.clock_count + 1
                        && t.comparison_reg == s.comparison_reg && t.comparison_count == s.comparison_count
                }
            } else if offset & 0x04 == 0 {
                let reg = s.comparison_reg | (((offset & 0x01) as u64) << s.comparison_count);
                &&& r == 0xFF
                &&& if s.comparison_count + 1 >= 64 {
                    &&& t.comparison_reg == 0 && t.comparison_count == 0
                    &&& reg == MAGIC ==> t.clock_enabled && t.clock_count == 0 && exists|secs: u64|
                        t.clock_reg == clock_bits_spec(secs)
                    &&& reg != MAGIC ==> t.clock_enabled == s.clock_enabled && t.clock_reg == s.clock_reg
                        && t.clock_count == s.clock_count
                } else {
                    t.comparison_reg == reg && t.comparison_count == s.comparison_count + 1
                        && t.clock_enabled == s.clock_enabled && t.clock_reg == s.clock_reg
                        && t.clock_count == s.clock_count
                }
            } else {
                r == 0xFF && t == s
            }
        })
    }

    /// A ROM access. While the clock is unlocked, an access with address
    /// bit 2 set reads the next time bit (locking again after 64). An
    /// access with bit 2 clear shifts address bit 0 into the pattern; after
    /// 64 bits the clock unlocks (with the current time) if the pattern is
    /// `MAGIC`, and the pattern starts over. Other accesses read 0xFF.
    pub fn io_read(&mut self, offset: u8, cycles: u64) -> (r: u8)
        requires
            old(self).wf(),
        ensures
            old(self).io_read_post(offset, cycles, *final(self), r),
    {
        if self.clock_enabled && offset & 0x04 != 0 {
            let bit = ((self.clock_reg >> self.clock_count) & 1) as u8;
            self.clock_count += 1;
            if self.clock_count >= 64 {
                self.clock_enabled = false;
                self.clock_count = 0;
                self.comparison_reg = 0;
                self.comparison_count = 0;
            }
            bit
        } else if offset & 0x04 == 0 {
            let bit = (offset & 0x01) as u64;
            self.comparison_reg = self.comparison_reg | (bit << self.comparison_count);
            self.comparison_count += 1;
            if self.comparison_count >= 64 {
                if self.comparison_reg == MAGIC {
                    self.load_clock_reg();
                    self.clock_enabled = true;
                }
                self.comparison_reg = 0;
                self.comparison_count = 0;
            }
            0xFF
        } else {
            0xFF
        }
    }

    /// The card after a reset (`power_cycle` for a power cycle).
    pub open spec fn reset_post(self, power_cycle: bool, next: Self) -> bool {
        &&& next.wf()
        &&& next.comparison_reg == 0 && next.comparison_count == 0
        &&& next.clock_reg == 0 && next.clock_count == 0
        &&& !next.clock_enabled
        &&& next.slot == self.slot
    }

    /// Reset: locked, all registers cleared.
    pub fn reset(&mut self, power_cycle: bool)
        ensures
            old(self).reset_post(power_cycle, *final(self)),
    {
        self.comparison_reg = 0;
        self.comparison_count = 0;
        self.clock_reg = 0;
        self.clock_count = 0;
        self.clock_enabled = false;
    }

    /// Append the save record: the version byte 1.
    pub fn save_state(&self, out: &mut Vec<u8>)
        ensures
            final(out)@ == old(out)@.push(1),
    {
        out.push(1);
    }

    /// Read the save record: an I/O error if it is empty.
    pub fn load_state(&mut self, src: &[u8], version: u32) -> (r: Result<(), Error>)
        ensures
            r is Ok <==> src@.len() >= 1,
            *final(self) == *old(self),
    {
        if src.len() < 1 {
            return Err(unexpected_eof());
        }
        Ok(())
    }
}

/// The time bytes of the clock register are packed BCD: every field of
/// `clock_bits_spec` is below 100, so each byte holds two decimal digits.
pub proof fn lemma_bcd_digits(n: u64)
    requires
        n < 100,
    ensures
        bcd_spec(n) < 0xA0,
        bcd_spec(n) & 0x0F < 10,
        (bcd_spec(n) >> 4u64) * 10 + (bcd_spec(n) & 0x0F) == n,
{
    assert(n < 100 ==> ((n / 10) << 4u64) | (n % 10) < 0xA0) by (bit_vector);
    assert(n < 100 ==> (((n / 10) << 4u64) | (n % 10)) & 0x0F < 10) by (bit_vector);
    assert(n < 100 ==> ((((n / 10) << 4u64) | (n % 10)) >> 4u64) * 10 + ((((n / 10) << 4u64) | (n
        % 10)) & 0x0F) == n) by (bit_vector);
}

} // verus!
