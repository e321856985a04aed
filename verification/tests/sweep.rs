use cycle_bench::driver::InputSweep;

#[test]
fn sawtooth_advances_by_one_step() {
    // Units are hundredths: 0.50, step 0.05, bound 2.00.
    let mut sweep = InputSweep::new(50, 5, 200);
    assert_eq!(sweep.advance(), 55);
    assert_eq!(sweep.advance(), 60);
    assert_eq!(sweep.advance(), 65);
}

#[test]
fn sawtooth_wraps_on_excess_not_on_equality() {
    let mut sweep = InputSweep::new(195, 5, 200);
    // 1.95 -> 2.00: the bound itself is reached, no wrap yet.
    assert_eq!(sweep.advance(), 200);
    // 2.00 equals the bound, so it is still advanced once past it.
    assert_eq!(sweep.advance(), 205);
    // 2.05 exceeds the bound: reset to zero, then stepped.
    assert_eq!(sweep.advance(), 5);
    assert_eq!(sweep.advance(), 10);
}

#[test]
fn sawtooth_sequence_repeats() {
    let mut sweep = InputSweep::new(50, 5, 200);
    let mut values = Vec::new();
    for _iteration in 0..100 {
        values.push(sweep.advance());
    }
    // 0.55, 0.60, ..., up to the wrap, then again from 0.05.
    assert_eq!(values[0], 55);
    assert_eq!(values[29], 200);
    assert_eq!(values[30], 205);
    assert_eq!(values[31], 5);
    assert_eq!(values[71], 205);
    assert_eq!(values[72], 5);
    // Every value lies in (0.00, 2.05] and consecutive values differ by one
    // step or wrap back to it.
    for pair in values.windows(2) {
        assert!(pair[1] == pair[0] + 5 || (pair[0] > 200 && pair[1] == 5));
    }
}
