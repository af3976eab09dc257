use std::time::Duration;
use std::time::Instant;
use vstd::prelude::*;

verus! {

/// The monotonic clock reading of `std::time::Instant`, carried through opaquely.
#[verifier::external_type_specification]
#[verifier::external_body]
pub struct ExInstant(Instant);

/// Why a metric could not be taken: the allocator statistics could not be
/// refreshed, or the allocated byte count could not be read.
#[derive(Debug, Clone, PartialEq, Eq)]
pub enum MetricsError {
    Epoch(String),
    Allocated(String),
}

/// What one measured phase cost: its wall-clock time and the memory it kept
/// allocated, in KiB.
#[derive(Debug, Clone, Copy)]
pub struct Metrics {
    pub exec_time: Duration,
    pub memory_usage: u64,
}

/// The measurements of one benchmark: the run of the program (where the
/// framework has one), the proof, the verification, and the number of steps
/// the run took (where known).
#[derive(Debug, Clone, Copy)]
pub struct Benchmark {
    pub runner: Option<Metrics>,
    pub prover: Metrics,
    pub verifier: Metrics,
    pub n_steps: Option<usize>,
}

/// Memory growth between two readings of the allocated byte count, in whole
/// KiB; a shrink counts as no growth.
pub open spec fn memory_growth_kb(mem_before: int, mem_after: int) -> int {
    if mem_after >= mem_before {
        (mem_after - mem_before) / 1024
    } else {
        0
    }
}

/// Reads the monotonic clock with `std::time::Instant::now`. Nothing is
/// claimed of the instant: it depends on the time.
#[verifier::external_body]
pub(crate) fn now() -> Instant {
    Instant::now()
}

/// Measures the time since `start` with `std::time::Instant::elapsed`.
/// Nothing is claimed of the duration: it depends on the time.
#[verifier::external_body]
pub(crate) fn elapsed_since(start: &Instant) -> Duration {
    start.elapsed()
}

/// Calls `jemalloc_ctl::epoch::advance`, which refreshes the allocator's
/// statistics, and renders a failure with `to_string`. Nothing is claimed of
/// the outcome: it depends on the allocator.
#[verifier::external_body]
fn update_epoch() -> Result<(), String> {
    jemalloc_ctl::epoch::advance().map(|_| ()).map_err(|e| e.to_string())
}

/// Reads `jemalloc_ctl::stats::allocated`, the number of bytes the program has
/// allocated, and renders a failure with `to_string`. Nothing is claimed of
/// the outcome: it depends on the allocator and the running program.
#[verifier::external_body]
fn get_allocated() -> Result<usize, String> {
    jemalloc_ctl::stats::allocated::read().map_err(|e| e.to_string())
}

/// Memory growth in KiB between two readings of the allocated byte count:
/// the byte difference, saturating at zero, divided by 1024 and rounded down.
pub fn memory_usage_kb(mem_before: usize, mem_after: usize) -> (kb: u64)
    ensures
        kb == memory_growth_kb(mem_before as int, mem_after as int),
{
    let bytes = mem_after.saturating_sub(mem_before);
    (bytes / 1024) as u64
}

/// The metrics of a phase that took `exec_time` and saw the allocated byte
/// count go from `mem_before` to `mem_after`.
pub fn metrics_from(exec_time: Duration, mem_before: usize, mem_after: usize) -> (m: Metrics)
    ensures
        m.exec_time == exec_time,
        m.memory_usage == memory_growth_kb(mem_before as int, mem_after as int),
{
    Metrics { exec_time, memory_usage: memory_usage_kb(mem_before, mem_after) }
}

/// What opening a measurement at `start_time` gives, for each outcome of the
/// reading of the allocated byte count: the instant and the byte count, or
/// the reading's failure as `Allocated`.
pub fn opened_measurement(start_time: Instant, reading: Result<usize, String>) -> (r: Result<
    (Instant, usize),
    MetricsError,
>)
    ensures
        match reading {
            Ok(mem_before) => r == Ok::<(Instant, usize), MetricsError>((start_time, mem_before)),
            Err(e) => r == Err::<(Instant, usize), MetricsError>(MetricsError::Allocated(e)),
        },
{
    match reading {
        Ok(mem_before) => Ok((start_time, mem_before)),
        Err(e) => Err(MetricsError::Allocated(e)),
    }
}

/// What closing a measurement gives, for each outcome of the reading of the
/// allocated byte count: the metrics of a phase that took `exec_time` and
/// grew from `mem_before` to the reading, or the reading's failure as
/// `Allocated`.
pub fn closed_measurement(
    exec_time: Duration,
    mem_before: usize,
    reading: Result<usize, String>,
) -> (r: Result<Metrics, MetricsError>)
    ensures
        match reading {
            Ok(mem_after) => r matches Ok(m) && m.exec_time == exec_time && m.memory_usage
                == memory_growth_kb(mem_before as int, mem_after as int),
            Err(e) => r == Err::<Metrics, MetricsError>(MetricsError::Allocated(e)),
        },
{
    match reading {
        Ok(mem_after) => Ok(metrics_from(exec_time, mem_before, mem_after)),
        Err(e) => Err(MetricsError::Allocated(e)),
    }
}

/// Opens a measurement: reads the clock, refreshes the allocator statistics
/// and reads the allocated byte count. A failure of the refresh is reported
/// as `Epoch`, one of the read as `Allocated`.
pub fn start_metrics() -> (r: Result<(Instant, usize), MetricsError>) {
    let start_time = now();
    match update_epoch() {
        Ok(()) => {},
        Err(e) => {
            return Err(MetricsError::Epoch(e));
        },
    }
    opened_measurement(start_time, get_allocated())
}

/// Closes a measurement opened by `start_metrics`: the time since
/// `start_time`, and the memory growth since the reading `mem_before`.
pub fn finalize_metrics(start_time: Instant, mem_before: usize) -> (r: Result<Metrics, MetricsError>)
    ensures
        r matches Ok(m) ==> exists|mem_after: usize|
            #[trigger] memory_growth_kb(mem_before as int, mem_after as int) == m.memory_usage,
{
    let exec_time = elapsed_since(&start_time);
    match update_epoch() {
        Ok(()) => {},
        Err(e) => {
            return Err(MetricsError::Epoch(e));
        },
    }
    closed_measurement(exec_time, mem_before, get_allocated())
}

} // verus!
