//! Input sweep of the benchmark loop.
//!
//! Each iteration advances the kernel input by a fixed step through a
//! bounded range, wrapping back to the start once the running value exceeds
//! the upper bound — a repeating sawtooth, not a random or externally driven
//! sequence. Values are scaled fixed-point integers (the unit is one
//! hundredth), so the boundary policy is exact: the wrap happens exactly
//! when the running value exceeds the bound, never when it merely equals it.

use vstd::prelude::*;

verus! {

/// State of the sawtooth input sweep, in scaled fixed-point units.
pub struct InputSweep {
    /// The value most recently handed to the kernel.
    pub value: u32,
    /// Fixed increment applied on every iteration.
    pub step: u32,
    /// Threshold whose strict excess triggers the wrap back to the start.
    pub upper_bound: u32,
}

impl InputSweep {
    /// The sweep is consistent: the step advances the value, and the value
    /// never stands above one step past the bound, so the next advance
    /// cannot overflow.
    pub open spec fn wf(self) -> bool {
        &&& self.step > 0
        &&& self.value <= self.upper_bound + self.step
        &&& self.upper_bound + self.step <= u32::MAX
    }

    /// The value the next iteration will use: the running value reset to
    /// zero if it strictly exceeds the bound, then advanced by one step.
    pub open spec fn spec_next_value(self) -> int {
        if self.value > self.upper_bound {
            self.step as int
        } else {
            self.value + self.step
        }
    }

    /// A sweep that starts at `start` and repeats through
    /// `(0, upper_bound + step]` in increments of `step`.
    pub fn new(start: u32, step: u32, upper_bound: u32) -> (sweep: InputSweep)
        requires
            step > 0,
            start <= upper_bound + step,
            upper_bound + step <= u32::MAX,
        ensures
            sweep.wf(),
            sweep.value == start,
            sweep.step == step,
            sweep.upper_bound == upper_bound,
    {
        InputSweep { value: start, step, upper_bound }
    }

    /// Advances the sweep by one iteration and returns the new value. The
    /// wrap back to the start fires exactly when the running value strictly
    /// exceeds the bound: a value equal to the bound is still advanced past
    /// it once.
    pub fn advance(&mut self) -> (next: u32)
        requires
            old(self).wf(),
        ensures
            final(self).wf(),
            next == final(self).value,
            final(self).value == old(self).spec_next_value(),
            old(self).value > old(self).upper_bound ==> final(self).value == old(self).step,
            old(self).value <= old(self).upper_bound ==> final(self).value == old(self).value
                + old(self).step,
            final(self).step == old(self).step,
            final(self).upper_bound == old(self).upper_bound,
    {
        if self.value > self.upper_bound {
            self.value = 0;
        }
        self.value = self.value + self.step;
        self.value
    }
}

} // verus!
