//! Conversion of elapsed counter ticks to wall-clock time.
//!
//! The clock frequency is frozen once at startup and treated as constant for
//! the whole session. To keep sub-second precision without truncating whole
//! seconds, the conversion reports nanoseconds: `cycles / freq` seconds is
//! `cycles * 1_000_000_000 / freq` nanoseconds, rounded toward zero.

use vstd::arithmetic::div_mod::lemma_div_is_ordered;
use vstd::arithmetic::mul::lemma_mul_inequality;
use vstd::prelude::*;

verus! {

/// Nanoseconds in one second.
pub const NANOS_PER_SECOND: u64 = 1_000_000_000;

/// Wall-clock duration, in nanoseconds, of `cycles` ticks of a counter that
/// runs at `freq_hz` ticks per second, rounded toward zero.
pub open spec fn spec_to_nanos(cycles: u32, freq_hz: u32) -> int
    recommends
        freq_hz > 0,
{
    (cycles * NANOS_PER_SECOND) / (freq_hz as int)
}

/// Converts elapsed counter ticks to a wall-clock duration in nanoseconds.
pub fn to_nanos(cycles: u32, freq_hz: u32) -> (nanos: u64)
    requires
        freq_hz > 0,
    ensures
        nanos == spec_to_nanos(cycles, freq_hz),
{
    (cycles as u64) * NANOS_PER_SECOND / (freq_hz as u64)
}

/// For a fixed frequency, the reported duration never decreases as the
/// elapsed cycle count grows, and zero cycles convert to zero time.
pub proof fn lemma_to_nanos_monotonic(cycles1: u32, cycles2: u32, freq_hz: u32)
    requires
        freq_hz > 0,
        cycles1 <= cycles2,
    ensures
        spec_to_nanos(cycles1, freq_hz) <= spec_to_nanos(cycles2, freq_hz),
        spec_to_nanos(0, freq_hz) == 0,
{
    lemma_mul_inequality(cycles1 as int, cycles2 as int, NANOS_PER_SECOND as int);
    lemma_div_is_ordered(
        cycles1 * NANOS_PER_SECOND,
        cycles2 * NANOS_PER_SECOND,
        freq_hz as int,
    );
}

} // verus!
