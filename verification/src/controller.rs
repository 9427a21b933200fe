//! The controller: it owns the run lifecycle, computes a run's timing
//! parameters from the configuration, and keeps the tick-driven
//! elapsed-time counters.

use vstd::prelude::*;
use crate::config::{default_config, Config};
use crate::state::SchedulerState;
use crate::worker::WorkerParams;

verus! {

/// The control context's state. The host owns the actual cancellation
/// sender and worker thread handle; the two `holds_` flags mirror whether
/// it is still holding them for the current run.
#[derive(Clone, Copy, PartialEq, Eq, Structural, Debug)]
pub struct Controller {
    /// The user-editable parameters, read when a run starts.
    pub config: Config,
    /// Heartbeat ticks seen since the run started.
    pub tick_count: u64,
    /// Ticks attributed to the delay phase.
    pub delay_elapsed: u64,
    /// Ticks attributed to the run phase.
    pub run_elapsed: u64,
    /// The host still holds this run's cancellation sender.
    pub holds_stop_sender: bool,
    /// The host still holds this run's worker handle.
    pub holds_worker_handle: bool,
}

/// What `start` directs the host to do.
#[derive(Clone, Copy, PartialEq, Eq, Debug)]
pub enum StartDirective {
    /// A run is already active: do nothing at all.
    AlreadyRunning,
    /// Spawn a worker with these parameters; if `join_previous`, first join
    /// the terminated worker of the previous run, whose handle the host
    /// still holds — a handle is always joined, never dropped live.
    Spawn { params: WorkerParams, join_previous: bool },
}

/// What `stop` directs the host to do: send the cancellation signal if the
/// sender is still held, then wake and join the worker if its handle is
/// still held. Both are surrendered either way.
#[derive(Clone, Copy, PartialEq, Eq, Structural, Debug)]
pub struct StopDirective {
    pub send_cancel: bool,
    pub join_worker: bool,
}

/// A read-only view of the values the host may display.
#[derive(Clone, Copy, PartialEq, Eq, Structural, Debug)]
pub struct Snapshot {
    pub running: bool,
    pub action_count: u32,
    pub delay_elapsed: u64,
    pub run_elapsed: u64,
}

/// The run parameters a configuration snapshot determines: the delay and
/// duration triples summed to seconds, the rest carried over.
pub open spec fn spec_worker_params(c: Config) -> WorkerParams {
    WorkerParams {
        interval_seconds: c.interval_seconds as u64,
        clicks_per_burst: c.clicks_per_burst,
        delay_seconds: c.spec_delay_total() as u64,
        duration_seconds: c.spec_duration_total(),
        target: c.target,
    }
}

/// A well-formed configuration determines well-formed run parameters.
pub proof fn lemma_worker_params_wf(c: Config)
    requires
        c.wf(),
    ensures
        spec_worker_params(c).wf(),
{
}

/// What starting does: nothing when a run is already active; otherwise all
/// counters are reset, the shared state is marked running, the host is
/// handed fresh sender and handle duties, and a worker is spawned from the
/// current configuration.
pub open spec fn spec_start(c: Controller, s: SchedulerState) -> (Controller, SchedulerState, StartDirective) {
    if s.running {
        (c, s, StartDirective::AlreadyRunning)
    } else {
        (
            Controller {
                tick_count: 0,
                delay_elapsed: 0,
                run_elapsed: 0,
                holds_stop_sender: true,
                holds_worker_handle: true,
                ..c
            },
            SchedulerState { running: true, action_count: 0 },
            StartDirective::Spawn {
                params: spec_worker_params(c.config),
                join_previous: c.holds_worker_handle,
            },
        )
    }
}

/// What stopping does: surrender the sender and the handle, directing the
/// host to use each one it was still holding. The running flag is not
/// touched — only the worker clears it, so it is false only once no
/// clicking can still occur.
pub open spec fn spec_stop(c: Controller) -> (Controller, StopDirective) {
    (
        Controller { holds_stop_sender: false, holds_worker_handle: false, ..c },
        StopDirective {
            send_cancel: c.holds_stop_sender,
            join_worker: c.holds_worker_handle,
        },
    )
}

/// What a heartbeat tick does: nothing while no run is active; otherwise it
/// counts the tick towards the delay phase until the configured delay has
/// passed, and towards the run phase from then on.
pub open spec fn spec_tick(c: Controller, s: SchedulerState) -> Controller {
    if !s.running {
        c
    } else {
        let ticks = (c.tick_count + 1) as u64;
        if ticks > c.config.spec_delay_total() {
            Controller { tick_count: ticks, run_elapsed: (c.run_elapsed + 1) as u64, ..c }
        } else {
            Controller { tick_count: ticks, delay_elapsed: (c.delay_elapsed + 1) as u64, ..c }
        }
    }
}

/// A controller before any run: defaults, zero counters, nothing held.
pub open spec fn initial_controller() -> Controller {
    Controller {
        config: default_config(),
        tick_count: 0,
        delay_elapsed: 0,
        run_elapsed: 0,
        holds_stop_sender: false,
        holds_worker_handle: false,
    }
}

impl Controller {
    /// Valid configuration, and every tick accounted to exactly one phase.
    pub open spec fn wf(self) -> bool {
        &&& self.config.wf()
        &&& self.delay_elapsed + self.run_elapsed == self.tick_count
    }

    /// A controller over a given configuration, before any run.
    pub fn new(config: Config) -> (c: Controller)
        requires
            config.wf(),
        ensures
            c == (Controller {
                config,
                tick_count: 0,
                delay_elapsed: 0,
                run_elapsed: 0,
                holds_stop_sender: false,
                holds_worker_handle: false,
            }),
            c.wf(),
    {
        Controller {
            config,
            tick_count: 0,
            delay_elapsed: 0,
            run_elapsed: 0,
            holds_stop_sender: false,
            holds_worker_handle: false,
        }
    }

    /// Begin a run, unless one is already active.
    pub fn start(&mut self, shared: &mut SchedulerState) -> (d: StartDirective)
        requires
            old(self).wf(),
        ensures
            (*final(self), *final(shared), d) == spec_start(*old(self), *old(shared)),
            final(self).wf(),
            d matches StartDirective::Spawn { params, join_previous } ==> params.wf(),
    {
        if shared.running {
            StartDirective::AlreadyRunning
        } else {
            shared.running = true;
            shared.action_count = 0;
            self.tick_count = 0;
            self.delay_elapsed = 0;
            self.run_elapsed = 0;
            let join_previous = self.holds_worker_handle;
            self.holds_stop_sender = true;
            self.holds_worker_handle = true;
            let params = WorkerParams {
                interval_seconds: self.config.interval_seconds as u64,
                clicks_per_burst: self.config.clicks_per_burst,
                delay_seconds: self.config.delay_total_seconds(),
                duration_seconds: self.config.duration_total_seconds(),
                target: self.config.target,
            };
            StartDirective::Spawn { params, join_previous }
        }
    }

    /// End the controller's part in a run. Safe whether or not one is
    /// active; the worker is the one to clear the running flag.
    pub fn stop(&mut self) -> (d: StopDirective)
        requires
            old(self).wf(),
        ensures
            (*final(self), d) == spec_stop(*old(self)),
            final(self).wf(),
    {
        let d = StopDirective {
            send_cancel: self.holds_stop_sender,
            join_worker: self.holds_worker_handle,
        };
        self.holds_stop_sender = false;
        self.holds_worker_handle = false;
        d
    }

    /// Account one heartbeat tick to the proper phase counter.
    pub fn tick(&mut self, shared: &SchedulerState)
        requires
            old(self).wf(),
            old(self).tick_count < u64::MAX,
        ensures
            *final(self) == spec_tick(*old(self), *shared),
            final(self).wf(),
    {
        if shared.running {
            self.tick_count = self.tick_count + 1;
            let delay_total = self.config.delay_total_seconds();
            if self.tick_count > delay_total {
                self.run_elapsed = self.run_elapsed + 1;
            } else {
                self.delay_elapsed = self.delay_elapsed + 1;
            }
        }
    }

    /// The values the host may display, read in one place.
    pub fn snapshot(&self, shared: &SchedulerState) -> (s: Snapshot)
        ensures
            s == (Snapshot {
                running: shared.running,
                action_count: shared.action_count,
                delay_elapsed: self.delay_elapsed,
                run_elapsed: self.run_elapsed,
            }),
    {
        Snapshot {
            running: shared.running,
            action_count: shared.action_count,
            delay_elapsed: self.delay_elapsed,
            run_elapsed: self.run_elapsed,
        }
    }
}

impl Default for Controller {
    /// A controller over the default configuration, before any run.
    fn default() -> (c: Controller)
        ensures
            c == initial_controller(),
            c.wf(),
    {
        Controller::new(Config::default())
    }
}

/// While a run is active, each tick advances `tick_count` and exactly one
/// of the two phase counters: `delay_elapsed` while `tick_count` has not
/// passed the configured delay, `run_elapsed` from then on — never both.
pub proof fn lemma_tick_advances_exactly_one_phase_counter(c: Controller, s: SchedulerState)
    requires
        c.wf(),
        c.tick_count < u64::MAX,
        s.running,
    ensures
        ({
            let after = spec_tick(c, s);
            &&& after.tick_count == c.tick_count + 1
            &&& (after.tick_count <= c.config.spec_delay_total() ==> after.delay_elapsed == c.delay_elapsed
                + 1 && after.run_elapsed == c.run_elapsed)
            &&& (after.tick_count > c.config.spec_delay_total() ==> after.run_elapsed == c.run_elapsed
                + 1 && after.delay_elapsed == c.delay_elapsed)
            &&& after.delay_elapsed + after.run_elapsed == after.tick_count
        }),
{
}

/// Stopping twice in succession is safe and idempotent: the second stop
/// changes nothing and directs the host to send no signal and join nothing.
pub proof fn lemma_stop_idempotent(c: Controller)
    ensures
        ({
            let (c1, d1) = spec_stop(c);
            let (c2, d2) = spec_stop(c1);
            &&& c2 == c1
            &&& !d2.send_cancel
            &&& !d2.join_worker
        }),
{
}

/// Starting while a run is already active spawns no second worker and
/// leaves both the controller's counters and the shared state untouched.
pub proof fn lemma_start_while_running_is_noop(c: Controller, s: SchedulerState)
    requires
        s.running,
    ensures
        spec_start(c, s) == (c, s, StartDirective::AlreadyRunning),
{
}

} // verus!
