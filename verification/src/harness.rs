use vstd::prelude::*;

use crate::aggregate::sum_qualifying;
use crate::strategy::Strategy;

verus! {

/// An invalid benchmark configuration, rejected before any statistic is
/// derived so that no meaningless number is ever produced.
#[derive(Clone, Copy, PartialEq, Eq, Structural, Debug)]
pub enum ConfigError {
    /// `iterations == 0`: the per-iteration average would be undefined.
    ZeroIterations,
    /// `element_count == 0`: the per-element statistics would be undefined.
    ZeroElements,
}

/// What one benchmark run yields: the correctness checksum and the elapsed
/// wall-clock time over all timed iterations.
#[derive(Clone, Copy, PartialEq, Eq, Structural, Debug)]
pub struct RunOutcome {
    pub checksum: u128,
    pub total_nanos: u128,
}

/// The statistics derived from a run, in exact integer arithmetic.
#[derive(Clone, Copy, PartialEq, Eq, Structural, Debug)]
pub struct Stats {
    /// Elapsed nanoseconds per timed iteration.
    pub average_nanos: u128,
    /// Thousandths of a nanosecond spent per element.
    pub nanos_per_element_milli: u128,
    /// Elements processed per second of elapsed time.
    pub elements_per_second: u128,
}

#[verifier::external_type_specification]
#[verifier::external_body]
pub struct ExInstant(std::time::Instant);

/// Relies on std::time::Instant::now: a reading of the monotonic clock.
/// Nothing is assumed of its value.
#[verifier::external_body]
fn clock_now() -> std::time::Instant {
    std::time::Instant::now()
}

/// Relies on std::time::Instant::elapsed: the time since `start` was taken.
/// Nothing is assumed of its value.
#[verifier::external_body]
fn clock_elapsed(start: &std::time::Instant) -> core::time::Duration {
    start.elapsed()
}

/// Relies on core::time::Duration::as_nanos: the duration as a whole number
/// of nanoseconds.  A duration holds at most `u64::MAX` whole seconds plus
/// under a billion subsecond nanoseconds, which bounds the result; nothing
/// else is assumed of its value.
#[verifier::external_body]
fn duration_as_nanos(duration: &core::time::Duration) -> (r: u128)
    ensures
        r <= u64::MAX as u128 * 1000000000 + 999999999,
{
    duration.as_nanos()
}

/// Wall-clock time across exactly `iterations` back-to-back invocations of
/// the aggregation, in nanoseconds.  Zero iterations is invalid input — the
/// average it feeds would be undefined — and is left out by precondition.
/// The aggregation implementations are never inlined, so the invocations
/// keep an observable effect and the loop cannot be optimized away; the
/// dataset is immutable, so repeated invocation is idempotent.  The measured
/// duration is a clock reading: only the representation bound of a duration
/// can be promised of it.
pub fn measure_execution_time<S: Strategy>(
    strategy: &S,
    minimum_balance: u64,
    iterations: usize,
) -> (total_nanos: u128)
    requires
        strategy.wf(),
        iterations > 0,
    ensures
        total_nanos <= u64::MAX as u128 * 1000000000 + 999999999,
{
    let start = clock_now();
    let mut i: usize = 0;
    while i < iterations
        invariant
            strategy.wf(),
        decreases iterations - i,
    {
        let _ = strategy.sum_active_balances(minimum_balance);
        i = i + 1;
    }
    let elapsed = clock_elapsed(&start);
    duration_as_nanos(&elapsed)
}

/// One benchmark run: `warmup_iterations` untimed invocations, the last of
/// which is retained as the correctness checksum, then `iterations` timed
/// invocations.  `iterations == 0` is the one rejected input; every other
/// configuration succeeds.  With no warmup the checksum is 0, as nothing
/// was retained.
pub fn run<S: Strategy>(
    strategy: &S,
    minimum_balance: u64,
    warmup_iterations: usize,
    iterations: usize,
) -> (r: Result<RunOutcome, ConfigError>)
    requires
        strategy.wf(),
    ensures
        iterations == 0 <==> r is Err,
        r is Err ==> r == Err::<RunOutcome, ConfigError>(ConfigError::ZeroIterations),
        r matches Ok(outcome) ==> (outcome.checksum == (if warmup_iterations > 0 {
            sum_qualifying(strategy.users(), minimum_balance)
        } else {
            0int
        }) && outcome.total_nanos <= u64::MAX as u128 * 1000000000 + 999999999),
{
    if iterations == 0 {
        return Err(ConfigError::ZeroIterations);
    }
    let mut checksum: u128 = 0;
    let mut w: usize = 0;
    while w < warmup_iterations
        invariant
            strategy.wf(),
            w <= warmup_iterations,
            checksum == (if w > 0 {
                sum_qualifying(strategy.users(), minimum_balance)
            } else {
                0int
            }),
        decreases warmup_iterations - w,
    {
        checksum = strategy.sum_active_balances(minimum_balance);
        w = w + 1;
    }
    let total_nanos = measure_execution_time(strategy, minimum_balance, iterations);
    Ok(RunOutcome { checksum, total_nanos })
}

/// Derive the summary statistics of a run.  Exact integer forms of
/// `AverageTime = TotalTime / Iterations`,
/// `NanosecondsPerElement = AverageTime / ElementCount` (in thousandths) and
/// `ElementsPerSecond = ElementCount * Iterations * 1e9 / TotalTime`.
/// A configuration whose statistics would be undefined is rejected:
/// `iterations == 0` first, then `element_count == 0`.  A total time of
/// zero nanoseconds (below the clock's resolution) yields an
/// elements-per-second of 0 rather than a division by zero.
pub fn derive_stats(total_nanos: u128, iterations: usize, element_count: usize) -> (r: Result<
    Stats,
    ConfigError,
>)
    requires
        total_nanos * 1000 <= u128::MAX,
        element_count * iterations * 1000000000 <= u128::MAX,
    ensures
        iterations == 0 ==> r == Err::<Stats, ConfigError>(ConfigError::ZeroIterations),
        iterations > 0 && element_count == 0 ==> r == Err::<Stats, ConfigError>(
            ConfigError::ZeroElements,
        ),
        iterations > 0 && element_count > 0 ==> (r matches Ok(stats) && stats.average_nanos
            == total_nanos / (iterations as u128) && stats.nanos_per_element_milli == total_nanos
            * 1000 / ((iterations as u128) * (element_count as u128))
            && stats.elements_per_second == (if total_nanos > 0 {
            (element_count as u128) * (iterations as u128) * 1000000000 / (total_nanos as int)
        } else {
            0int
        })),
{
    if iterations == 0 {
        return Err(ConfigError::ZeroIterations);
    }
    if element_count == 0 {
        return Err(ConfigError::ZeroElements);
    }
    let iters = iterations as u128;
    let count = element_count as u128;
    proof {
        assert(1 <= iters * count <= u128::MAX) by (nonlinear_arith)
            requires
                1 <= iters <= u64::MAX,
                1 <= count <= u64::MAX,
        ;
        assert(count * iters * 1000000000 == (element_count as u128) * (iterations as u128)
            * 1000000000) by (nonlinear_arith)
            requires
                count == element_count as u128,
                iters == iterations as u128,
        ;
    }
    let average_nanos = total_nanos / iters;
    let nanos_per_element_milli = total_nanos * 1000 / (iters * count);
    let elements_per_second = if total_nanos > 0 {
        count * iters * 1000000000 / total_nanos
    } else {
        0
    };
    Ok(Stats { average_nanos, nanos_per_element_milli, elements_per_second })
}

} // verus!
