//! Conversion of an NTP server reply into the clock register unit.
//!
//! The network exchange itself is host work; it hands over the reply's
//! second count and its 32-bit binary second fraction as plain values. The
//! conversion to microseconds, and the split of the local clock into the
//! fields the protocol reports, are plain arithmetic and live here.

use vstd::prelude::*;
use vstd::arithmetic::power2::{lemma2_to64, pow2};
use vstd::bits::lemma_u64_shr_is_div;
use crate::clock::MICROS_PER_SECOND;

verus! {

/// One second split into 2^32 equal parts, the unit of an NTP fraction.
pub const NTP_FRACTION_UNIT: u64 = 0x1_0000_0000;

/// The microseconds a whole-seconds count and a binary fraction stand for:
/// the fraction names `frac / 2^32` seconds, rounded down to a microsecond.
pub open spec fn spec_ntp_micros(sec: u32, frac: u32) -> int {
    sec * MICROS_PER_SECOND + (frac * MICROS_PER_SECOND) / (NTP_FRACTION_UNIT as int)
}

/// Turn an NTP reply's transmit time into microseconds since the epoch,
/// ready for [`crate::clock::ClockService::set_current_time`].
pub fn ntp_to_micros(sec: u32, sec_fraction: u32) -> (r: u64)
    ensures
        r == spec_ntp_micros(sec, sec_fraction),
{
    let whole: u64 = sec as u64 * MICROS_PER_SECOND;
    let scaled: u64 = sec_fraction as u64 * MICROS_PER_SECOND;
    let frac_us: u64 = scaled >> 32;
    proof {
        lemma_u64_shr_is_div(scaled, 32);
        lemma2_to64();
        assert(pow2(32) == NTP_FRACTION_UNIT);
        assert(frac_us < MICROS_PER_SECOND) by (nonlinear_arith)
            requires
                frac_us == scaled as nat / pow2(32),
                pow2(32) == NTP_FRACTION_UNIT as nat,
                scaled <= 0xFFFF_FFFFu64 * MICROS_PER_SECOND,
        ;
    }
    whole + frac_us
}

} // verus!
