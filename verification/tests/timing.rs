use cycle_bench::convert::to_nanos;
use cycle_bench::cycles::elapsed;
use cycle_bench::cycles::MAX_COUNT;
use cycle_bench::measure::measurement_result;

#[test]
fn elapsed_without_wraparound_is_plain_difference() {
    assert_eq!(elapsed(0, 0), 0);
    assert_eq!(elapsed(7, 7), 0);
    assert_eq!(elapsed(100, 500_000_100), 500_000_000);
    assert_eq!(elapsed(0, MAX_COUNT), MAX_COUNT);
}

#[test]
fn elapsed_with_one_wraparound_is_corrected() {
    // 95 ticks to the wrap, one tick to reach zero, 100 ticks past it.
    assert_eq!(elapsed(4_294_967_200, 100), 196);
    // The counter wrapped exactly onto zero: one tick elapsed.
    assert_eq!(elapsed(MAX_COUNT, 0), 1);
    // The corrected value always fits in one counter period.
    assert!(elapsed(1, 0) <= MAX_COUNT);
    assert_eq!(elapsed(1, 0), MAX_COUNT);
}

#[test]
fn to_nanos_of_zero_cycles_is_zero() {
    assert_eq!(to_nanos(0, 1), 0);
    assert_eq!(to_nanos(0, 400_000_000), 0);
}

#[test]
fn to_nanos_is_monotonic_in_cycles() {
    let freq = 400_000_000;
    let mut previous = to_nanos(0, freq);
    for cycles in [1, 2, 399, 400, 401, 1_000_000, u32::MAX] {
        let nanos = to_nanos(cycles, freq);
        assert!(nanos >= previous);
        previous = nanos;
    }
}

#[test]
fn to_nanos_exact_values() {
    // One cycle at 3 Hz: a third of a second, rounded toward zero.
    assert_eq!(to_nanos(1, 3), 333_333_333);
    // One cycle at 1 GHz is one nanosecond.
    assert_eq!(to_nanos(1, 1_000_000_000), 1);
    assert_eq!(to_nanos(480, 480_000_000), 1_000);
}

#[test]
fn scenario_full_second_and_a_quarter() {
    let cycles = elapsed(100, 500_000_100);
    assert_eq!(cycles, 500_000_000);
    let nanos = to_nanos(cycles, 400_000_000);
    assert_eq!(nanos, 1_250_000_000);
    let seconds = nanos as f64 / 1_000_000_000.0;
    assert_eq!(seconds, 1.25);
}

#[test]
fn measurement_result_corrects_and_converts() {
    let r = measurement_result(100, 500_000_100, 400_000_000);
    assert_eq!(r.cycles, 500_000_000);
    assert_eq!(r.nanos, 1_250_000_000);

    let wrapped = measurement_result(4_294_967_200, 100, 1_000_000_000);
    assert_eq!(wrapped.cycles, 196);
    assert_eq!(wrapped.nanos, 196);
}
