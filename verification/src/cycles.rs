//! Wraparound-safe arithmetic on raw samples of the free-running hardware
//! cycle counter.
//!
//! The counter is a fixed-width register that increments every clock cycle
//! and wraps to zero after reaching [`MAX_COUNT`]. Wraparound is expected
//! behavior, not an error: the elapsed duration between two samples is
//! recovered arithmetically, under the documented assumption that at most
//! one wraparound happened between them.

use vstd::prelude::*;

verus! {

/// Largest raw value of the free-running counter; the counter wraps to zero
/// after reaching it.
pub const MAX_COUNT: u32 = 4_294_967_295;

/// True elapsed ticks between the samples `before` and `after`, assuming at
/// most one wraparound of the counter in between. When the raw subtraction
/// would underflow (`after < before`), exactly one wraparound is corrected
/// for.
pub open spec fn spec_elapsed(before: u32, after: u32) -> int {
    if after >= before {
        after - before
    } else {
        after + (MAX_COUNT + 1 - before)
    }
}

/// Wraparound-corrected elapsed ticks between two raw counter samples.
pub fn elapsed(before: u32, after: u32) -> (ticks: u32)
    ensures
        ticks == spec_elapsed(before, after),
        after >= before ==> ticks == after - before,
        after < before ==> ticks == after + (MAX_COUNT + 1 - before),
{
    if after >= before {
        after - before
    } else {
        after + (MAX_COUNT - before) + 1
    }
}

/// Without a wraparound (`after >= before`), the elapsed duration is the
/// plain difference of the samples.
pub proof fn lemma_elapsed_no_wraparound(before: u32, after: u32)
    requires
        after >= before,
    ensures
        spec_elapsed(before, after) == after - before,
{
}

/// With exactly one wraparound (`after < before`), the elapsed duration is
/// `after` plus the ticks that remained before the counter wrapped, and it
/// always fits in one counter period.
pub proof fn lemma_elapsed_one_wraparound(before: u32, after: u32)
    requires
        after < before,
    ensures
        spec_elapsed(before, after) == after + (MAX_COUNT + 1 - before),
        0 <= spec_elapsed(before, after) < MAX_COUNT + 1,
{
}

/// Both branches of the correction compute one and the same thing: the
/// difference of the samples, reduced modulo one counter period. This is
/// why the correction is exact whenever the counter wrapped at most once.
pub proof fn lemma_elapsed_is_modular_difference(before: u32, after: u32)
    ensures
        spec_elapsed(before, after) == (after - before) % (MAX_COUNT + 1),
{
    if after >= before {
        assert((after - before) % (MAX_COUNT + 1) == after - before) by {
            vstd::arithmetic::div_mod::lemma_small_mod(
                (after - before) as nat,
                (MAX_COUNT + 1) as nat,
            );
        }
    } else {
        assert((after - before) % (MAX_COUNT + 1) == after + (MAX_COUNT + 1 - before)) by {
            vstd::arithmetic::div_mod::lemma_mod_add_multiples_vanish(
                after - before,
                MAX_COUNT + 1,
            );
            vstd::arithmetic::div_mod::lemma_small_mod(
                (after + (MAX_COUNT + 1 - before)) as nat,
                (MAX_COUNT + 1) as nat,
            );
        }
    }
}

} // verus!
