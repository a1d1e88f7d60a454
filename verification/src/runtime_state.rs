//! Process-wide runtime bookkeeping: the active-task counter and the task
//! metrics the runtime reports at exit. The embedding program holds one
//! `RuntimeState` behind its process-wide lock and routes every update
//! through these functions; an introspection snapshot timestamps a reading
//! of it.

use vstd::prelude::*;

use crate::tasks::TaskMetricsSnapshot;

verus! {

/// The runtime's shared counters and its registered task metrics reading.
#[derive(Debug)]
pub struct RuntimeState {
    pub active_tasks: u64,
    pub task_metrics: Option<TaskMetricsSnapshot>,
}

impl RuntimeState {
    pub fn new() -> (r: Self)
        ensures
            r.active_tasks == 0,
            r.task_metrics is None,
    {
        Self { active_tasks: 0, task_metrics: None }
    }
}

/// One more task is live.
pub fn increment_active_tasks(state: &mut RuntimeState)
    ensures
        final(state).active_tasks == if old(state).active_tasks < u64::MAX {
            old(state).active_tasks + 1
        } else {
            u64::MAX as int
        },
        final(state).task_metrics == old(state).task_metrics,
{
    if state.active_tasks < u64::MAX {
        state.active_tasks = state.active_tasks + 1;
    }
}

/// One task fewer is live; the counter never drops below zero.
pub fn decrement_active_tasks(state: &mut RuntimeState)
    ensures
        final(state).active_tasks == if old(state).active_tasks > 0 {
            old(state).active_tasks - 1
        } else {
            0int
        },
        final(state).task_metrics == old(state).task_metrics,
{
    if state.active_tasks > 0 {
        state.active_tasks = state.active_tasks - 1;
    }
}

/// Registers the scheduler's metrics reading for the exit report.
pub fn register_task_metrics(state: &mut RuntimeState, metrics: TaskMetricsSnapshot)
    ensures
        final(state).task_metrics == Some(metrics),
        final(state).active_tasks == old(state).active_tasks,
{
    state.task_metrics = Some(metrics);
}

/// The registered metrics reading, if any.
pub fn task_metrics_clone(state: &RuntimeState) -> (r: Option<TaskMetricsSnapshot>)
    ensures
        r == state.task_metrics,
{
    state.task_metrics
}

/// Relies on std::time::SystemTime::now: the milliseconds since the epoch.
/// Of a clock reading nothing more can be promised; a clock before the epoch
/// reads as zero.
#[verifier::external_body]
fn now_unix_ms() -> u64 {
    match std::time::SystemTime::now().duration_since(std::time::UNIX_EPOCH) {
        Ok(d) => {
            let ms = d.as_millis();
            if ms > u64::MAX as u128 { u64::MAX } else { ms as u64 }
        },
        Err(_) => 0,
    }
}

/// A runtime introspection reading: the counters at one timestamp.
#[derive(Debug, Clone, Copy, PartialEq, Eq, Structural)]
pub struct IntrospectionSnapshot {
    pub active_tasks: u64,
    pub timestamp_ms: u64,
}

impl IntrospectionSnapshot {
    /// Reads the counters now. The timestamp comes from the wall clock and
    /// nothing is promised of it.
    pub fn capture(state: &RuntimeState) -> (r: Self)
        ensures
            r.active_tasks == state.active_tasks,
    {
        Self { active_tasks: state.active_tasks, timestamp_ms: now_unix_ms() }
    }
}

} // verus!
