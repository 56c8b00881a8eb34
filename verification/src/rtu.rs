//! Timing discipline: the minimum safe inter-frame delay for Modbus RTU.
//!
//! Common RS-485 adapters need turnaround time between transmit and receive
//! directions, so a floor is kept between logical requests. The floor is
//! advisory pacing, not a strict protocol guarantee.

use vstd::prelude::*;
use crate::protocol::BaudRate;

verus! {

/// The minimum inter-frame delay in microseconds for a baud rate.
///
/// A character on the wire is taken as 11 bit-times (8 data bits, start,
/// stop, and a margin bit) and the inter-frame floor as 3.5 character
/// times, rounded down to whole milliseconds: `38500 / rate` milliseconds,
/// since 11 x 3.5 x 1000 = 38500. When that is below an absolute minimum
/// of 1750 microseconds (high baud rates, where 3.5 character times is
/// unrealistically short for real adapters), the absolute minimum is used.
/// These constants are deliberate empirical choices; they are kept as
/// literals rather than re-derived from another timing model.
pub open spec fn spec_minimum_rtu_delay_us(baud_rate: BaudRate) -> u64 {
    let millis = 38500 as int / baud_rate.spec_rate() as int;
    if millis * 1000 < 1750 {
        1750u64
    } else {
        (millis * 1000) as u64
    }
}

/// A requested delay clamped up to the floor of `spec_minimum_rtu_delay_us`.
pub open spec fn spec_check_rtu_delay(delay_us: u64, baud_rate: BaudRate) -> u64 {
    if delay_us < spec_minimum_rtu_delay_us(baud_rate) {
        spec_minimum_rtu_delay_us(baud_rate)
    } else {
        delay_us
    }
}

/// Computes the minimum inter-frame delay in microseconds for a baud rate.
pub fn minimum_rtu_delay(baud_rate: &BaudRate) -> (r: u64)
    ensures
        r == spec_minimum_rtu_delay_us(*baud_rate),
{
    let rate = baud_rate.rate();
    assert(rate >= 1200);
    let millis: u64 = 38500 / (rate as u64);
    let us: u64 = millis * 1000;
    if us < 1750 {
        1750
    } else {
        us
    }
}

/// Clamps a caller-supplied inter-frame delay (in microseconds) to the
/// computed floor: a delay below the floor is replaced by the floor, any
/// other delay passes through unchanged. Callers that want to warn about a
/// clamped delay compare the result against their request.
pub fn check_rtu_delay(delay_us: u64, baud_rate: &BaudRate) -> (r: u64)
    ensures
        r == spec_check_rtu_delay(delay_us, *baud_rate),
        r >= spec_minimum_rtu_delay_us(*baud_rate),
        r >= delay_us,
{
    let min_rtu_delay = minimum_rtu_delay(baud_rate);
    if delay_us < min_rtu_delay {
        min_rtu_delay
    } else {
        delay_us
    }
}

/// The documented reference values of the floor, one per supported rate.
pub proof fn lemma_minimum_rtu_delay_table()
    ensures
        spec_minimum_rtu_delay_us(BaudRate::B1200) == 32000,
        spec_minimum_rtu_delay_us(BaudRate::B2400) == 16000,
        spec_minimum_rtu_delay_us(BaudRate::B4800) == 8000,
        spec_minimum_rtu_delay_us(BaudRate::B9600) == 4000,
        spec_minimum_rtu_delay_us(BaudRate::B19200) == 2000,
{
    assert(38500int / 1200int == 32);
    assert(38500int / 2400int == 16);
    assert(38500int / 4800int == 8);
    assert(38500int / 9600int == 4);
    assert(38500int / 19200int == 2);
}

} // verus!
