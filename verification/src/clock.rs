//! Wall-clock service and time-of-day arithmetic.
//!
//! The device clock is a register holding microseconds since the Unix epoch.
//! The service owns that value as plain state: the host reads the hardware
//! register into it and background sync writes corrected time back. The
//! header widgets show the time of day, derived here by plain arithmetic.

use vstd::prelude::*;
use vstd::arithmetic::div_mod::{lemma_mod_division_less_than_divisor, lemma_multiply_divide_lt};

verus! {

pub const MICROS_PER_SECOND: u64 = 1_000_000;

pub const SECONDS_PER_DAY: u64 = 86_400;

pub const SECONDS_PER_HOUR: u64 = 3_600;

pub const SECONDS_PER_MINUTE: u64 = 60;

/// Owns the current wall-clock reading, in microseconds since the epoch.
/// One value constructed at startup stands for the hardware register; every
/// task reads and writes the clock only through it.
pub struct ClockService {
    now_us: u64,
}

impl ClockService {
    pub closed spec fn spec_now_us(&self) -> u64 {
        self.now_us
    }

    pub fn init(now_us: u64) -> (r: Self)
        ensures
            r.spec_now_us() == now_us,
    {
        ClockService { now_us }
    }

    pub fn get_current_time(&self) -> (t: u64)
        ensures
            t == self.spec_now_us(),
    {
        self.now_us
    }

    pub fn set_current_time(&mut self, timestamp_us: u64)
        ensures
            final(self).spec_now_us() == timestamp_us,
    {
        self.now_us = timestamp_us;
    }
}

/// Whole seconds since the epoch of a microsecond timestamp.
pub open spec fn spec_seconds(us: u64) -> u64 {
    (us / MICROS_PER_SECOND) as u64
}

/// Seconds elapsed since the last midnight.
pub open spec fn spec_second_of_day(us: u64) -> u64 {
    (spec_seconds(us) % SECONDS_PER_DAY) as u64
}

pub open spec fn spec_hours(us: u64) -> u64 {
    (spec_second_of_day(us) / SECONDS_PER_HOUR) as u64
}

pub open spec fn spec_minutes(us: u64) -> u64 {
    ((spec_second_of_day(us) % SECONDS_PER_HOUR) / SECONDS_PER_MINUTE) as u64
}

pub open spec fn spec_sec(us: u64) -> u64 {
    (spec_second_of_day(us) % SECONDS_PER_MINUTE) as u64
}

/// The time-of-day fields lie in their clock ranges.
pub proof fn lemma_time_of_day_bounds(us: u64)
    ensures
        spec_hours(us) < 24,
        spec_minutes(us) < 60,
        spec_sec(us) < 60,
{
    let secs = spec_seconds(us) as int;
    lemma_mod_division_less_than_divisor(secs, SECONDS_PER_DAY as int);
    let sod = spec_second_of_day(us) as int;
    lemma_multiply_divide_lt(sod, 24, SECONDS_PER_HOUR as int);
    lemma_mod_division_less_than_divisor(sod, SECONDS_PER_HOUR as int);
    lemma_multiply_divide_lt(sod % (SECONDS_PER_HOUR as int), 60, SECONDS_PER_MINUTE as int);
    lemma_mod_division_less_than_divisor(sod, SECONDS_PER_MINUTE as int);
}

/// Split a microsecond timestamp into whole seconds and the microseconds
/// below one second, the two fields an NTP exchange reports the local clock
/// in.
pub fn split_micros(us: u64) -> (r: (u64, u32))
    ensures
        r.0 == spec_seconds(us),
        r.1 == us % MICROS_PER_SECOND,
        r.1 < MICROS_PER_SECOND,
{
    proof {
        lemma_mod_division_less_than_divisor(us as int, MICROS_PER_SECOND as int);
    }
    (us / MICROS_PER_SECOND, (us % MICROS_PER_SECOND) as u32)
}

/// The ASCII digits of a two-digit field, leading zero kept.
pub open spec fn spec_two_digits(x: u64) -> Seq<u8> {
    seq![(48 + x / 10) as u8, (48 + x % 10) as u8]
}

/// The header clock line `HH:MM:SS` as ASCII bytes.
pub open spec fn spec_clock_text(us: u64) -> Seq<u8> {
    spec_two_digits(spec_hours(us)) + seq![58u8] + spec_two_digits(spec_minutes(us)) + seq![58u8]
        + spec_two_digits(spec_sec(us))
}

fn push_two_digits(out: &mut Vec<u8>, x: u64)
    requires
        x < 100,
    ensures
        final(out)@ == old(out)@ + spec_two_digits(x),
{
    out.push((48 + x / 10) as u8);
    out.push((48 + x % 10) as u8);
    proof {
        assert(out@ =~= old(out)@ + spec_two_digits(x));
    }
}

/// Format the time of day of a timestamp as `HH:MM:SS`.
pub fn clock_text(us: u64) -> (r: Vec<u8>)
    ensures
        r@ == spec_clock_text(us),
        r@.len() == 8,
{
    proof {
        lemma_time_of_day_bounds(us);
        lemma_mod_division_less_than_divisor(spec_seconds(us) as int, SECONDS_PER_DAY as int);
    }
    let sod: u64 = (us / MICROS_PER_SECOND) % SECONDS_PER_DAY;
    let mut out: Vec<u8> = Vec::new();
    push_two_digits(&mut out, sod / SECONDS_PER_HOUR);
    out.push(58);
    push_two_digits(&mut out, (sod % SECONDS_PER_HOUR) / SECONDS_PER_MINUTE);
    out.push(58);
    push_two_digits(&mut out, sod % SECONDS_PER_MINUTE);
    proof {
        assert(out@ =~= spec_clock_text(us));
    }
    out
}

} // verus!
