//! One dispatch point for every message the host delivers.

use vstd::prelude::*;
use crate::config::{
    cap_u64, clamp_u8, default_config, Config, CLICKS_MAX, CLICKS_MIN, HOURS_MAX, INTERVAL_MAX,
    INTERVAL_MIN, MINUTES_MAX, SECONDS_MAX,
};
use crate::controller::{spec_start, spec_stop, spec_tick, Controller, StartDirective};
use crate::message::Message;
use crate::state::SchedulerState;
use crate::worker::WorkerParams;

verus! {

/// What the host must carry out after a message is handled.
#[derive(Clone, Copy, PartialEq, Eq, Debug)]
pub enum Command {
    /// Nothing; the engine absorbed the message.
    Idle,
    /// Spawn a worker thread for these parameters; if `join_previous`,
    /// first join the terminated worker still held from the previous run.
    Spawn { params: WorkerParams, join_previous: bool },
    /// Wind a run down: send the cancellation signal if `send_cancel`, then
    /// wake and join the worker if `join_worker`.
    Halt { send_cancel: bool, join_worker: bool },
    /// Write the current configuration to the host's settings store.
    Persist,
}

/// What handling each message does to the engine and asks of the host.
pub open spec fn spec_update(c: Controller, s: SchedulerState, m: Message) -> (Controller, SchedulerState, Command) {
    match m {
        Message::Start => {
            let (c2, s2, d) = spec_start(c, s);
            (
                c2,
                s2,
                match d {
                    StartDirective::AlreadyRunning => Command::Idle,
                    StartDirective::Spawn { params, join_previous } => Command::Spawn {
                        params,
                        join_previous,
                    },
                },
            )
        },
        Message::Stop => {
            let (c2, d) = spec_stop(c);
            (c2, s, Command::Halt { send_cancel: d.send_cancel, join_worker: d.join_worker })
        },
        Message::Tick => (spec_tick(c, s), s, Command::Idle),
        Message::IntervalSliderChanged(v) => (
            Controller {
                config: Config {
                    interval_seconds: clamp_u8(v, INTERVAL_MIN, INTERVAL_MAX),
                    ..c.config
                },
                ..c
            },
            s,
            Command::Idle,
        ),
        Message::ClickCountSliderChanged(v) => (
            Controller {
                config: Config { clicks_per_burst: clamp_u8(v, CLICKS_MIN, CLICKS_MAX), ..c.config },
                ..c
            },
            s,
            Command::Idle,
        ),
        Message::DelayHoursChanged(v) => (
            Controller { config: Config { delay_hours: cap_u64(v, HOURS_MAX), ..c.config }, ..c },
            s,
            Command::Idle,
        ),
        Message::DelayMinutesChanged(v) => (
            Controller {
                config: Config { delay_minutes: cap_u64(v, MINUTES_MAX), ..c.config },
                ..c
            },
            s,
            Command::Idle,
        ),
        Message::DelaySecondsChanged(v) => (
            Controller {
                config: Config { delay_seconds: cap_u64(v, SECONDS_MAX), ..c.config },
                ..c
            },
            s,
            Command::Idle,
        ),
        Message::DurationHoursChanged(v) => (
            Controller { config: Config { duration_hours: cap_u64(v, HOURS_MAX), ..c.config }, ..c },
            s,
            Command::Idle,
        ),
        Message::DurationMinutesChanged(v) => (
            Controller {
                config: Config { duration_minutes: cap_u64(v, MINUTES_MAX), ..c.config },
                ..c
            },
            s,
            Command::Idle,
        ),
        Message::DurationSecondsChanged(v) => (
            Controller {
                config: Config { duration_seconds: cap_u64(v, SECONDS_MAX), ..c.config },
                ..c
            },
            s,
            Command::Idle,
        ),
        Message::SelectMouseButton(t) => (
            Controller { config: Config { target: t, ..c.config }, ..c },
            s,
            Command::Idle,
        ),
        Message::ResetToDefaults => if s.running {
            (Controller { config: default_config(), ..c }, s, Command::Idle)
        } else {
            (
                Controller {
                    config: default_config(),
                    tick_count: 0,
                    delay_elapsed: 0,
                    run_elapsed: 0,
                    ..c
                },
                SchedulerState { running: false, action_count: 0 },
                Command::Idle,
            )
        },
        Message::SaveSettings => (c, s, Command::Persist),
    }
}

/// Handle one message. Configuration edits touch no counter.
///
/// `ResetToDefaults` restores the default configuration; between runs it
/// also clears the tick, phase and action counters, leaving the same
/// snapshot a fresh default state shows. It deliberately does not discard
/// a still-held cancellation sender or worker handle: a handle is always
/// joined before it is dropped, so those stay with the host until the
/// next start or stop uses them. While a run is active, only the
/// configuration is restored; the live run's counters are left alone.
pub fn update_handler(controller: &mut Controller, shared: &mut SchedulerState, message: Message) -> (cmd: Command)
    requires
        old(controller).wf(),
        message is Tick ==> old(controller).tick_count < u64::MAX,
    ensures
        (*final(controller), *final(shared), cmd) == spec_update(
            *old(controller),
            *old(shared),
            message,
        ),
        final(controller).wf(),
        cmd matches Command::Spawn { params, join_previous } ==> params.wf(),
{
    match message {
        Message::Start => match controller.start(shared) {
            StartDirective::AlreadyRunning => Command::Idle,
            StartDirective::Spawn { params, join_previous } => Command::Spawn {
                params,
                join_previous,
            },
        },
        Message::Stop => {
            let d = controller.stop();
            Command::Halt { send_cancel: d.send_cancel, join_worker: d.join_worker }
        },
        Message::Tick => {
            controller.tick(shared);
            Command::Idle
        },
        Message::IntervalSliderChanged(v) => {
            controller.config.set_interval_seconds(v);
            Command::Idle
        },
        Message::ClickCountSliderChanged(v) => {
            controller.config.set_clicks_per_burst(v);
            Command::Idle
        },
        Message::DelayHoursChanged(v) => {
            controller.config.set_delay_hours(v);
            Command::Idle
        },
        Message::DelayMinutesChanged(v) => {
            controller.config.set_delay_minutes(v);
            Command::Idle
        },
        Message::DelaySecondsChanged(v) => {
            controller.config.set_delay_seconds(v);
            Command::Idle
        },
        Message::DurationHoursChanged(v) => {
            controller.config.set_duration_hours(v);
            Command::Idle
        },
        Message::DurationMinutesChanged(v) => {
            controller.config.set_duration_minutes(v);
            Command::Idle
        },
        Message::DurationSecondsChanged(v) => {
            controller.config.set_duration_seconds(v);
            Command::Idle
        },
        Message::SelectMouseButton(t) => {
            controller.config.set_target(t);
            Command::Idle
        },
        Message::ResetToDefaults => {
            controller.config = Config::default();
            if !shared.running {
                controller.tick_count = 0;
                controller.delay_elapsed = 0;
                controller.run_elapsed = 0;
                shared.action_count = 0;
            }
            Command::Idle
        },
        Message::SaveSettings => Command::Persist,
    }
}

} // verus!
