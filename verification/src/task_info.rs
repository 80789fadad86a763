//! What the scheduler knows about a task: its name, how often it runs, and
//! when it last ran and will next run.

use vstd::prelude::*;
use crate::time::{clock_now, Interval, Timestamp, DURATION_LIMIT};

verus! {

/// The schedule of one task. The name identifies the task and, like the
/// interval, stays as it was given; the two instants move with every
/// execution.
#[derive(Debug)]
pub struct TaskInfo {
    pub name: String,
    pub interval: Interval,
    pub last_execution_at: Timestamp,
    pub next_execution_at: Timestamp,
}

impl TaskInfo {
    /// A schedule that starts now: the task counts as last run, and as due,
    /// at the instant the system clock shows.
    pub fn new(name: String, interval: Interval) -> (info: Self)
        ensures
            info.name == name,
            info.interval == interval,
            info.next_execution_at == info.last_execution_at,
            -DURATION_LIMIT <= info.next_execution_at@ <= DURATION_LIMIT,
    {
        let now = clock_now();
        Self::starting_at(name, interval, now)
    }

    /// A schedule that starts at `now`: the task counts as last run, and as
    /// due, at that instant.
    pub fn starting_at(name: String, interval: Interval, now: Timestamp) -> (info: Self)
        ensures
            info.name == name,
            info.interval == interval,
            info.last_execution_at == now,
            info.next_execution_at == now,
    {
        Self { name, interval, last_execution_at: now, next_execution_at: now }
    }
}

} // verus!
