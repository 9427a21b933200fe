//! The run state shared between the controller and the worker.

use vstd::prelude::*;

verus! {

/// The record both execution contexts read and write during one run. The
/// host keeps it behind a mutual-exclusion guard; each library function that
/// takes it performs one short read-modify-write critical section.
#[derive(Clone, Copy, PartialEq, Eq, Structural, Debug)]
pub struct SchedulerState {
    /// Whether a worker is currently executing its loop. Set by the
    /// controller at start; cleared only by the worker, on whichever path
    /// terminates it.
    pub running: bool,
    /// Actions performed so far in this run. Reset by the controller at
    /// start; incremented only by the worker, once per successful action.
    pub action_count: u32,
}

/// The state between runs: nothing running, nothing counted.
pub open spec fn idle_scheduler_state() -> SchedulerState {
    SchedulerState { running: false, action_count: 0 }
}

impl SchedulerState {
    /// A fresh shared record, not yet attached to any run.
    pub fn new() -> (s: SchedulerState)
        ensures
            s == idle_scheduler_state(),
    {
        SchedulerState { running: false, action_count: 0 }
    }
}

} // verus!
