//! Core of a bare-metal benchmarking harness: wraparound-safe cycle-counter
//! arithmetic, conversion from elapsed cycles to wall-clock time, a
//! fixed-capacity arena ledger that must be initialized exactly once, a
//! fence-guarded measurement region, and the input sweep of the benchmark
//! loop.

pub mod arena;
pub mod convert;
pub mod cycles;
pub mod driver;
pub mod measure;
