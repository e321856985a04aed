//! Fence-guarded measurement region.
//!
//! The region arms the counting hardware, emits an acquire fence so the
//! kernel cannot be hoisted before the first sample, samples the counter,
//! runs the kernel and routes its result through an optimizer-opaque sink so
//! the call cannot be elided, samples again, emits a release fence so
//! nothing sinks past the second sample, and returns the wraparound-
//! corrected elapsed cycles. Arming and sampling are supplied by the caller
//! as closures over the board's counter hardware; the region owns the
//! ordering and the arithmetic.

use crate::convert::spec_to_nanos;
use crate::convert::to_nanos;
use crate::cycles::elapsed;
use crate::cycles::spec_elapsed;
use vstd::prelude::*;

verus! {

/// One observation of the kernel under the fence-guarded protocol: the raw
/// counter samples taken immediately around the call, the corrected elapsed
/// cycles, and the kernel's (observed, otherwise unused) output.
pub struct Measurement<R> {
    /// Output of the kernel, routed through the opaque sink.
    pub output: R,
    /// Raw counter sample taken right before the kernel ran.
    pub before: u32,
    /// Raw counter sample taken right after the kernel returned.
    pub after: u32,
    /// Wraparound-corrected elapsed ticks between the two samples.
    pub cycles: u32,
}

/// One benchmark iteration's report: elapsed cycles and their wall-clock
/// duration; ephemeral, consumed immediately by the reporting channel.
pub struct MeasurementResult {
    /// Wraparound-corrected elapsed ticks of the measured region.
    pub cycles: u32,
    /// The same duration converted to nanoseconds.
    pub nanos: u64,
}

/// Relies on `core::sync::atomic::compiler_fence` with `Acquire` ordering:
/// it only constrains instruction reordering and changes no value.
#[verifier::external_body]
fn fence_acquire() {
    core::sync::atomic::compiler_fence(core::sync::atomic::Ordering::Acquire)
}

/// Relies on `core::sync::atomic::compiler_fence` with `Release` ordering:
/// it only constrains instruction reordering and changes no value.
#[verifier::external_body]
fn fence_release() {
    core::sync::atomic::compiler_fence(core::sync::atomic::Ordering::Release)
}

/// Relies on `core::hint::black_box`: an identity function that the
/// optimizer must treat as using its argument, defeating dead-code
/// elimination of the computation that produced it.
#[verifier::external_body]
fn opaque_sink<T>(value: T) -> (observed: T)
    ensures
        observed == value,
{
    core::hint::black_box(value)
}

/// Runs `kernel` inside the fence-guarded region and returns the two raw
/// counter samples, the corrected elapsed cycles and the kernel's output.
/// `arm` enables the counting hardware (idempotent re-arming is the
/// caller's concern); `sampler` reads the free-running counter. The elapsed
/// value is correct as long as the counter wrapped at most once while the
/// kernel ran.
pub fn measure_cycles<R, Arm: FnOnce(), Sampler: Fn() -> u32, Kernel: FnOnce() -> R>(
    arm: Arm,
    sampler: Sampler,
    kernel: Kernel,
) -> (m: Measurement<R>)
    requires
        call_requires(arm, ()),
        call_requires(sampler, ()),
        call_requires(kernel, ()),
    ensures
        m.cycles == spec_elapsed(m.before, m.after),
        call_ensures(sampler, (), m.before),
        call_ensures(sampler, (), m.after),
        call_ensures(kernel, (), m.output),
{
    arm();
    fence_acquire();
    let before = sampler();
    let raw_output = kernel();
    let output = opaque_sink(raw_output);
    let after = sampler();
    fence_release();
    let cycles = elapsed(before, after);
    Measurement { output, before, after, cycles }
}

/// Runs `kernel` inside the fence-guarded region and reports both elapsed
/// cycles and the wall-clock duration at the session's frozen clock
/// frequency.
pub fn measure_time<R, Arm: FnOnce(), Sampler: Fn() -> u32, Kernel: FnOnce() -> R>(
    arm: Arm,
    sampler: Sampler,
    kernel: Kernel,
    freq_hz: u32,
) -> (timed: (Measurement<R>, MeasurementResult))
    requires
        freq_hz > 0,
        call_requires(arm, ()),
        call_requires(sampler, ()),
        call_requires(kernel, ()),
    ensures
        timed.0.cycles == spec_elapsed(timed.0.before, timed.0.after),
        call_ensures(sampler, (), timed.0.before),
        call_ensures(sampler, (), timed.0.after),
        call_ensures(kernel, (), timed.0.output),
        timed.1.cycles == timed.0.cycles,
        timed.1.nanos == spec_to_nanos(timed.0.cycles, freq_hz),
{
    let m = measure_cycles(arm, sampler, kernel);
    let nanos = to_nanos(m.cycles, freq_hz);
    let cycles = m.cycles;
    (m, MeasurementResult { cycles, nanos })
}

/// The debug control block peripheral, `cortex_m::peripheral::DCB`,
/// declared so it can be handed through signatures; opaque to the proofs.
#[verifier::external_type_specification]
#[verifier::external_body]
pub struct ExDcb(cortex_m::peripheral::DCB);

/// The data watchpoint and trace peripheral, `cortex_m::peripheral::DWT`,
/// which owns the free-running cycle counter; opaque to the proofs.
#[verifier::external_type_specification]
#[verifier::external_body]
pub struct ExDwt(cortex_m::peripheral::DWT);

/// Relies on `cortex_m::peripheral::DCB::enable_trace`: sets the TRCENA bit
/// of the debug control block so the trace units, the cycle counter among
/// them, are powered; it changes no value of this library.
#[verifier::external_body]
fn enable_trace(dcb: &mut cortex_m::peripheral::DCB) {
    dcb.enable_trace()
}

/// Relies on `cortex_m::peripheral::DWT::enable_cycle_counter`: sets the
/// CYCCNTENA bit so CYCCNT counts clock cycles; re-enabling an enabled
/// counter is harmless; it changes no value of this library.
#[verifier::external_body]
fn enable_cycle_counter(dwt: &mut cortex_m::peripheral::DWT) {
    dwt.enable_cycle_counter()
}

/// Relies on `cortex_m::peripheral::DWT::cycle_count`: an atomic,
/// side-effect-free read of the free-running CYCCNT register. The value
/// depends on when the read happens, so nothing is promised of it.
#[verifier::external_body]
fn sample_cycle_count() -> u32 {
    cortex_m::peripheral::DWT::cycle_count()
}

/// Runs `kernel` inside the fence-guarded region, armed on and sampled from
/// the board's own counting hardware: the trace unit and the cycle counter
/// are enabled (idempotently), and both samples read CYCCNT.
pub fn measure_cycles_on_hardware<R, Kernel: FnOnce() -> R>(
    dcb: &mut cortex_m::peripheral::DCB,
    dwt: &mut cortex_m::peripheral::DWT,
    kernel: Kernel,
) -> (m: Measurement<R>)
    requires
        call_requires(kernel, ()),
    ensures
        m.cycles == spec_elapsed(m.before, m.after),
        call_ensures(kernel, (), m.output),
{
    enable_trace(dcb);
    enable_cycle_counter(dwt);
    measure_cycles(|| {}, || sample_cycle_count(), kernel)
}

/// Runs `kernel` on the board's counting hardware and reports both elapsed
/// cycles and the wall-clock duration at the session's frozen clock
/// frequency.
pub fn measure_time_on_hardware<R, Kernel: FnOnce() -> R>(
    dcb: &mut cortex_m::peripheral::DCB,
    dwt: &mut cortex_m::peripheral::DWT,
    kernel: Kernel,
    freq_hz: u32,
) -> (timed: (Measurement<R>, MeasurementResult))
    requires
        freq_hz > 0,
        call_requires(kernel, ()),
    ensures
        timed.0.cycles == spec_elapsed(timed.0.before, timed.0.after),
        call_ensures(kernel, (), timed.0.output),
        timed.1.cycles == timed.0.cycles,
        timed.1.nanos == spec_to_nanos(timed.0.cycles, freq_hz),
{
    let m = measure_cycles_on_hardware(dcb, dwt, kernel);
    let nanos = to_nanos(m.cycles, freq_hz);
    let cycles = m.cycles;
    (m, MeasurementResult { cycles, nanos })
}

/// Folds two raw samples and the frozen frequency into one report:
/// wraparound-corrected cycles and their duration in nanoseconds. This is
/// the whole computation of one iteration's report, so a caller that takes
/// its own samples gets the same correction and conversion as the region.
pub fn measurement_result(before: u32, after: u32, freq_hz: u32) -> (r: MeasurementResult)
    requires
        freq_hz > 0,
    ensures
        r.cycles == spec_elapsed(before, after),
        r.nanos == spec_to_nanos(r.cycles, freq_hz),
{
    let cycles = elapsed(before, after);
    let nanos = to_nanos(cycles, freq_hz);
    MeasurementResult { cycles, nanos }
}

} // verus!
