use std::cell::Cell;

use cycle_bench::measure::measure_cycles;
use cycle_bench::measure::measure_time;

#[test]
fn region_measures_between_the_two_samples() {
    // A software stand-in for the free-running counter: every read advances
    // it by 150 ticks.
    let counter = Cell::new(1_000u32);
    let sampler = || {
        let now = counter.get().wrapping_add(150);
        counter.set(now);
        now
    };
    let armed = Cell::new(false);
    let m = measure_cycles(|| armed.set(true), sampler, || 6 * 7);
    assert!(armed.get());
    assert_eq!(m.before, 1_150);
    assert_eq!(m.after, 1_300);
    assert_eq!(m.cycles, 150);
    // The kernel's output came back through the opaque sink unchanged.
    assert_eq!(m.output, 42);
}

#[test]
fn region_corrects_a_wraparound_between_samples() {
    // The counter wraps between the two samples: 95 ticks to the wrap, one
    // onto zero, 54 past it.
    let samples = Cell::new(0usize);
    let sampler = || {
        let sample: u32 = if samples.get() == 0 { 4_294_967_200 } else { 54 };
        samples.set(samples.get() + 1);
        sample
    };
    let m = measure_cycles(|| (), sampler, || ());
    assert_eq!(m.before, 4_294_967_200);
    assert_eq!(m.after, 54);
    assert_eq!(m.cycles, 150);
}

#[test]
fn timed_region_reports_cycles_and_nanoseconds() {
    let counter = Cell::new(0u32);
    let sampler = || {
        let now = counter.get() + 200_000_000;
        counter.set(now);
        now
    };
    let (m, report) = measure_time(|| (), sampler, || "done", 400_000_000);
    assert_eq!(m.output, "done");
    assert_eq!(report.cycles, 200_000_000);
    // Half a second at 400 MHz.
    assert_eq!(report.nanos, 500_000_000);
}
