//! The background worker's wait/click/sleep state machine.
//!
//! The worker itself runs on a host thread; the host performs each blocking
//! or physical operation (`WorkerAction`) and reports what happened
//! (`WorkerEvent`). Every decision between those operations — when to poll,
//! when to click, when to stop — is made here and verified.

use vstd::prelude::*;
use crate::config::{CLICKS_MAX, CLICKS_MIN, INTERVAL_MAX, INTERVAL_MIN, TRIPLE_TOTAL_MAX};
use crate::state::SchedulerState;
use crate::target::MouseTarget;

verus! {

/// Everything a run fixes at start time.
#[derive(Clone, Copy, PartialEq, Eq, Debug)]
pub struct WorkerParams {
    /// Seconds between two bursts.
    pub interval_seconds: u64,
    /// Actions per burst.
    pub clicks_per_burst: u8,
    /// Seconds to wait before the first burst.
    pub delay_seconds: u64,
    /// Bound on the run in seconds; `None` means unbounded.
    pub duration_seconds: Option<u64>,
    /// The button each action presses.
    pub target: MouseTarget,
}

impl WorkerParams {
    /// The image of a well-formed configuration.
    pub open spec fn wf(self) -> bool {
        &&& INTERVAL_MIN as u64 <= self.interval_seconds <= INTERVAL_MAX as u64
        &&& CLICKS_MIN <= self.clicks_per_burst <= CLICKS_MAX
        &&& self.delay_seconds <= TRIPLE_TOTAL_MAX
        &&& (self.duration_seconds matches Some(d) ==> 1 <= d <= TRIPLE_TOTAL_MAX)
    }

    /// The duration bound, or zero when the run is unbounded.
    pub open spec fn duration_or_zero(self) -> int {
        match self.duration_seconds {
            Some(d) => d as int,
            None => 0,
        }
    }
}

/// Where the worker stands between two host operations.
#[derive(Clone, Copy, PartialEq, Eq, Structural, Debug)]
pub enum WorkerPhase {
    /// Blocking out the initial delay; not interruptible.
    DelayWait,
    /// About to check the stop conditions.
    Polling,
    /// Mid-burst, with this many actions still to perform.
    Clicking { remaining: u8 },
    /// Blocking out the interval; the host may be woken early.
    Sleeping,
    /// The run is over; the host thread exits.
    Terminated,
}

/// What the host must do next on the worker's behalf.
#[derive(Clone, Copy, PartialEq, Eq, Structural, Debug)]
pub enum WorkerAction {
    /// Block for this many seconds, without watching for a wake call.
    Wait { seconds: u64 },
    /// Check the cancellation signal and read the clock.
    Poll,
    /// Perform one physical action against the target.
    Click { target: MouseTarget },
    /// Block for this many seconds, returning early if woken.
    Sleep { seconds: u64 },
    /// Terminate the host thread.
    Exit,
}

/// What the host reports back after performing an action.
#[derive(Clone, Copy, PartialEq, Eq, Structural, Debug)]
pub enum WorkerEvent {
    /// The delay wait completed; `now` is the current clock in seconds.
    DelayFinished { now: u64 },
    /// The stop conditions were sampled: whether a cancellation signal has
    /// arrived, and the current clock in seconds.
    Polled { cancelled: bool, now: u64 },
    /// One physical action was attempted.
    ActionPerformed { succeeded: bool },
    /// The interval wait returned, by timeout or by an early wake.
    WakeFinished,
}

/// Why a run ended.
#[derive(Clone, Copy, PartialEq, Eq, Structural, Debug)]
pub enum RunOutcome {
    /// A cancellation signal was observed at a poll point.
    Cancelled,
    /// The configured duration had elapsed at a poll point.
    DurationElapsed,
    /// An action failed; the run is abandoned and the failure is left for
    /// the controller to report.
    ActionFailed,
}

/// One run's worker: the fixed parameters plus the machine's position.
#[derive(Clone, Copy, PartialEq, Eq, Debug)]
pub struct Worker {
    pub params: WorkerParams,
    pub phase: WorkerPhase,
    /// Clock value at which a bounded run expires; fixed when the delay
    /// wait completes.
    pub end_time: Option<u64>,
    /// Full bursts performed so far.
    pub bursts_completed: u64,
    /// Set exactly once, when the machine terminates.
    pub outcome: Option<RunOutcome>,
}

impl Worker {
    pub open spec fn wf(self) -> bool {
        &&& self.params.wf()
        &&& (self.phase is DelayWait ==> self.end_time is None)
        &&& (!(self.phase is DelayWait) ==> (self.end_time is Some <==> self.params.duration_seconds is Some))
        &&& (self.phase matches WorkerPhase::Clicking { remaining } ==> 1 <= remaining
            <= self.params.clicks_per_burst)
        &&& (self.outcome is Some <==> self.phase is Terminated)
    }
}

/// A worker as spawned: waiting out the delay, nothing performed yet.
pub open spec fn initial_worker(params: WorkerParams) -> Worker {
    Worker {
        params,
        phase: WorkerPhase::DelayWait,
        end_time: None,
        bursts_completed: 0,
        outcome: None,
    }
}

/// The worker with its run recorded as over.
pub open spec fn terminated_worker(w: Worker, outcome: RunOutcome) -> Worker {
    Worker { phase: WorkerPhase::Terminated, outcome: Some(outcome), ..w }
}

/// The shared state once no clicking can occur any more.
pub open spec fn halted(s: SchedulerState) -> SchedulerState {
    SchedulerState { running: false, ..s }
}

/// Which host operation each phase calls for.
pub open spec fn spec_next_action(w: Worker) -> WorkerAction {
    match w.phase {
        WorkerPhase::DelayWait => WorkerAction::Wait { seconds: w.params.delay_seconds },
        WorkerPhase::Polling => WorkerAction::Poll,
        WorkerPhase::Clicking { remaining } => WorkerAction::Click { target: w.params.target },
        WorkerPhase::Sleeping => WorkerAction::Sleep { seconds: w.params.interval_seconds },
        WorkerPhase::Terminated => WorkerAction::Exit,
    }
}

/// When a step may be taken: the event answers the pending action, the run
/// is still marked running, and the bookkeeping has room to count.
pub open spec fn step_permitted(w: Worker, s: SchedulerState, e: WorkerEvent) -> bool {
    &&& w.wf()
    &&& s.running
    &&& match w.phase {
        WorkerPhase::DelayWait => (e matches WorkerEvent::DelayFinished { now } && now
            + w.params.duration_or_zero() <= u64::MAX),
        WorkerPhase::Polling => e is Polled,
        WorkerPhase::Clicking { remaining } => (e matches WorkerEvent::ActionPerformed { succeeded }
            && (succeeded ==> s.action_count < u32::MAX && (remaining == 1
            ==> w.bursts_completed < u64::MAX))),
        WorkerPhase::Sleeping => e is WakeFinished,
        WorkerPhase::Terminated => false,
    }
}

/// The whole machine: what one step does to the worker and to the shared
/// state. Mirrors one suspension-to-suspension stretch of the run loop.
pub open spec fn spec_step(w: Worker, s: SchedulerState, e: WorkerEvent) -> (Worker, SchedulerState) {
    match w.phase {
        WorkerPhase::DelayWait => match e {
            WorkerEvent::DelayFinished { now } => (
                Worker {
                    phase: WorkerPhase::Polling,
                    end_time: match w.params.duration_seconds {
                        Some(d) => Some((now + d) as u64),
                        None => None,
                    },
                    ..w
                },
                s,
            ),
            _ => (w, s),
        },
        WorkerPhase::Polling => match e {
            WorkerEvent::Polled { cancelled, now } => {
                if cancelled {
                    (terminated_worker(w, RunOutcome::Cancelled), halted(s))
                } else if w.end_time matches Some(end) && now >= end {
                    (terminated_worker(w, RunOutcome::DurationElapsed), halted(s))
                } else {
                    (
                        Worker {
                            phase: WorkerPhase::Clicking { remaining: w.params.clicks_per_burst },
                            ..w
                        },
                        s,
                    )
                }
            },
            _ => (w, s),
        },
        WorkerPhase::Clicking { remaining } => match e {
            WorkerEvent::ActionPerformed { succeeded } => {
                if !succeeded {
                    (terminated_worker(w, RunOutcome::ActionFailed), halted(s))
                } else {
                    let counted = SchedulerState { action_count: (s.action_count + 1) as u32, ..s };
                    if remaining > 1 {
                        (
                            Worker {
                                phase: WorkerPhase::Clicking { remaining: (remaining - 1) as u8 },
                                ..w
                            },
                            counted,
                        )
                    } else {
                        (
                            Worker {
                                phase: WorkerPhase::Sleeping,
                                bursts_completed: (w.bursts_completed + 1) as u64,
                                ..w
                            },
                            counted,
                        )
                    }
                }
            },
            _ => (w, s),
        },
        WorkerPhase::Sleeping => match e {
            WorkerEvent::WakeFinished => (Worker { phase: WorkerPhase::Polling, ..w }, s),
            _ => (w, s),
        },
        WorkerPhase::Terminated => (w, s),
    }
}

impl Worker {
    /// Spawn-time state for one run.
    pub fn new(params: WorkerParams) -> (w: Worker)
        requires
            params.wf(),
        ensures
            w == initial_worker(params),
            w.wf(),
    {
        Worker {
            params,
            phase: WorkerPhase::DelayWait,
            end_time: None,
            bursts_completed: 0,
            outcome: None,
        }
    }

    /// The host operation the machine is waiting on.
    pub fn next_action(&self) -> (a: WorkerAction)
        ensures
            a == spec_next_action(*self),
    {
        match self.phase {
            WorkerPhase::DelayWait => WorkerAction::Wait { seconds: self.params.delay_seconds },
            WorkerPhase::Polling => WorkerAction::Poll,
            WorkerPhase::Clicking { remaining: _ } => WorkerAction::Click {
                target: self.params.target,
            },
            WorkerPhase::Sleeping => WorkerAction::Sleep { seconds: self.params.interval_seconds },
            WorkerPhase::Terminated => WorkerAction::Exit,
        }
    }

    /// Advance the machine by one reported event.
    ///
    /// The run is only ever marked not running by this function, and only on
    /// the step that terminates the machine — so `running` is false only
    /// when no further action can occur. The action counter never goes
    /// backwards.
    pub fn step(&mut self, shared: &mut SchedulerState, event: WorkerEvent)
        requires
            step_permitted(*old(self), *old(shared), event),
        ensures
            (*final(self), *final(shared)) == spec_step(*old(self), *old(shared), event),
            final(self).wf(),
            final(shared).running == !(final(self).phase is Terminated),
            old(shared).action_count <= final(shared).action_count,
            final(self).params == old(self).params,
    {
        match self.phase {
            WorkerPhase::DelayWait => match event {
                WorkerEvent::DelayFinished { now } => {
                    self.end_time = match self.params.duration_seconds {
                        Some(d) => Some(now + d),
                        None => None,
                    };
                    self.phase = WorkerPhase::Polling;
                },
                _ => unreached(),
            },
            WorkerPhase::Polling => match event {
                WorkerEvent::Polled { cancelled, now } => {
                    if cancelled {
                        self.phase = WorkerPhase::Terminated;
                        self.outcome = Some(RunOutcome::Cancelled);
                        shared.running = false;
                    } else {
                        let expired = match self.end_time {
                            Some(end) => now >= end,
                            None => false,
                        };
                        if expired {
                            self.phase = WorkerPhase::Terminated;
                            self.outcome = Some(RunOutcome::DurationElapsed);
                            shared.running = false;
                        } else {
                            self.phase = WorkerPhase::Clicking {
                                remaining: self.params.clicks_per_burst,
                            };
                        }
                    }
                },
                _ => unreached(),
            },
            WorkerPhase::Clicking { remaining } => match event {
                WorkerEvent::ActionPerformed { succeeded } => {
                    if !succeeded {
                        self.phase = WorkerPhase::Terminated;
                        self.outcome = Some(RunOutcome::ActionFailed);
                        shared.running = false;
                    } else {
                        shared.action_count = shared.action_count + 1;
                        if remaining > 1 {
                            self.phase = WorkerPhase::Clicking { remaining: remaining - 1 };
                        } else {
                            self.bursts_completed = self.bursts_completed + 1;
                            self.phase = WorkerPhase::Sleeping;
                        }
                    }
                },
                _ => unreached(),
            },
            WorkerPhase::Sleeping => match event {
                WorkerEvent::WakeFinished => {
                    self.phase = WorkerPhase::Polling;
                },
                _ => unreached(),
            },
            WorkerPhase::Terminated => unreached(),
        }
    }
}

} // verus!
