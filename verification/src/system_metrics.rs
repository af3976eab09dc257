//! Measurements by the system's free memory rather than the allocator's
//! statistics.
use crate::metrics::{elapsed_since, now, Metrics};
use std::time::Duration;
use std::time::Instant;
use vstd::prelude::*;

verus! {

/// Reads the system's free memory, in KiB, with `sys_info::mem_info` and
/// keeps its `free` field; `None` where the call fails. Nothing is claimed of
/// the reading: it depends on the machine.
#[verifier::external_body]
fn free_memory() -> Option<u64> {
    sys_info::mem_info().ok().map(|info| info.free)
}

/// How much the free memory shrank between two readings; 0 where either
/// reading is missing.
pub open spec fn free_memory_drop(before: Option<u64>, after: Option<u64>) -> int {
    match (before, after) {
        (Some(b), Some(a)) => b - a,
        _ => 0,
    }
}

/// How much the free memory shrank between two readings, as
/// `free_memory_drop` says. Free memory that grew is outside what this
/// function accepts.
pub fn free_memory_delta(before: Option<u64>, after: Option<u64>) -> (d: u64)
    requires
        free_memory_drop(before, after) >= 0,
    ensures
        d == free_memory_drop(before, after),
{
    match (before, after) {
        (Some(b), Some(a)) => b - a,
        _ => 0,
    }
}

/// Opens a measurement: reads the clock and the free memory.
pub fn start_metrics() -> (Instant, Option<u64>) {
    let start_time = now();
    let mem_before = free_memory();
    (start_time, mem_before)
}

/// Free memory that was larger at the end of a measurement than at its start,
/// in KiB.
#[derive(Debug, Clone, Copy, PartialEq, Eq)]
pub struct FreeMemoryGrew {
    pub before: u64,
    pub after: u64,
}

/// What closing a measurement gives, for each pair of free-memory readings:
/// `FreeMemoryGrew` where both are present and the free memory grew; else the
/// metrics of a phase that took `exec_time`, with the drop of the free memory
/// (0 where a reading is missing).
pub fn closed_free_memory(exec_time: Duration, before: Option<u64>, after: Option<u64>) -> (r:
    Result<Metrics, FreeMemoryGrew>)
    ensures
        match (before, after) {
            (Some(b), Some(a)) if b < a => r == Err::<Metrics, FreeMemoryGrew>(
                FreeMemoryGrew { before: b, after: a },
            ),
            _ => r matches Ok(m) && m.exec_time == exec_time && m.memory_usage == free_memory_drop(
                before,
                after,
            ),
        },
{
    match (before, after) {
        (Some(b), Some(a)) => {
            if b < a {
                return Err(FreeMemoryGrew { before: b, after: a });
            }
        },
        _ => {},
    }
    Ok(Metrics { exec_time, memory_usage: free_memory_delta(before, after) })
}

/// Closes a measurement opened by `start_metrics`: the time since
/// `start_time`, and how much the free memory shrank since `mem_before`;
/// `FreeMemoryGrew` where it grew instead.
pub fn finalize_metrics(start_time: Instant, mem_before: Option<u64>) -> (r: Result<
    Metrics,
    FreeMemoryGrew,
>)
    ensures
        match r {
            Ok(m) => exists|after: Option<u64>|
                free_memory_drop(mem_before, after) >= 0 && #[trigger] free_memory_drop(
                    mem_before,
                    after,
                ) == m.memory_usage,
            Err(e) => mem_before == Some(e.before) && e.before < e.after,
        },
{
    let exec_time = elapsed_since(&start_time);
    let mem_after = free_memory();
    closed_free_memory(exec_time, mem_before, mem_after)
}

} // verus!
