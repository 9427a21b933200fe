use clickr::config::Config;
use clickr::controller::{Controller, StartDirective};
use clickr::message::Message;
use clickr::state::SchedulerState;
use clickr::target::MouseTarget;
use clickr::update::{update_handler, Command};

#[test]
fn default_config_is_idle_and_unbounded() {
    let c = Config::default();
    assert_eq!(c.interval_seconds, 1);
    assert_eq!(c.clicks_per_burst, 1);
    assert_eq!(c.delay_total_seconds(), 0);
    assert_eq!(c.duration_total_seconds(), None);
    assert_eq!(c.target, MouseTarget::Primary);
}

#[test]
fn setters_clamp_into_bounds() {
    let mut c = Config::default();
    c.set_interval_seconds(0);
    assert_eq!(c.interval_seconds, 1);
    c.set_interval_seconds(200);
    assert_eq!(c.interval_seconds, 100);
    c.set_clicks_per_burst(0);
    assert_eq!(c.clicks_per_burst, 1);
    c.set_clicks_per_burst(255);
    assert_eq!(c.clicks_per_burst, 100);
    c.set_delay_hours(99);
    assert_eq!(c.delay_hours, 23);
    c.set_delay_minutes(75);
    assert_eq!(c.delay_minutes, 59);
    c.set_delay_seconds(60);
    assert_eq!(c.delay_seconds, 59);
    c.set_duration_hours(24);
    assert_eq!(c.duration_hours, 23);
    c.set_duration_minutes(61);
    assert_eq!(c.duration_minutes, 59);
    c.set_duration_seconds(1000);
    assert_eq!(c.duration_seconds, 59);
}

#[test]
fn triple_totals() {
    let mut c = Config::default();
    c.set_delay_hours(2);
    c.set_delay_minutes(3);
    c.set_delay_seconds(4);
    assert_eq!(c.delay_total_seconds(), 2 * 3600 + 3 * 60 + 4);
    assert_eq!(c.duration_total_seconds(), None);
    c.set_duration_seconds(1);
    assert_eq!(c.duration_total_seconds(), Some(1));
    c.set_duration_seconds(0);
    c.set_duration_hours(23);
    c.set_duration_minutes(59);
    assert_eq!(c.duration_total_seconds(), Some(23 * 3600 + 59 * 60));
}

#[test]
fn start_computes_worker_params() {
    let mut config = Config::default();
    config.set_interval_seconds(5);
    config.set_clicks_per_burst(3);
    config.set_delay_seconds(2);
    config.set_duration_hours(1);
    config.set_target(MouseTarget::Secondary);
    let mut controller = Controller::new(config);
    let mut shared = SchedulerState::new();
    match controller.start(&mut shared) {
        StartDirective::Spawn { params, join_previous } => {
            assert!(!join_previous);
            assert_eq!(params.interval_seconds, 5);
            assert_eq!(params.clicks_per_burst, 3);
            assert_eq!(params.delay_seconds, 2);
            assert_eq!(params.duration_seconds, Some(3600));
            assert_eq!(params.target, MouseTarget::Secondary);
        },
        StartDirective::AlreadyRunning => panic!("fresh controller refused to start"),
    }
    assert!(shared.running);
    assert_eq!(shared.action_count, 0);
}

#[test]
fn start_while_running_is_noop() {
    let mut controller = Controller::default();
    let mut shared = SchedulerState::new();
    assert!(matches!(controller.start(&mut shared), StartDirective::Spawn { .. }));
    controller.tick(&shared);
    controller.tick(&shared);
    shared.action_count = 7;
    let before_controller = controller;
    let before_shared = shared;
    assert!(matches!(controller.start(&mut shared), StartDirective::AlreadyRunning));
    assert_eq!(controller, before_controller);
    assert_eq!(shared, before_shared);
    assert_eq!(controller.tick_count, 2);
    assert_eq!(shared.action_count, 7);
}

#[test]
fn stop_twice_is_idempotent() {
    let mut controller = Controller::default();
    let mut shared = SchedulerState::new();
    assert!(matches!(controller.start(&mut shared), StartDirective::Spawn { .. }));
    let first = controller.stop();
    assert!(first.send_cancel);
    assert!(first.join_worker);
    let before = controller;
    let second = controller.stop();
    assert!(!second.send_cancel);
    assert!(!second.join_worker);
    assert_eq!(controller, before);
}

#[test]
fn stop_without_run_is_noop() {
    let mut controller = Controller::default();
    let d = controller.stop();
    assert!(!d.send_cancel);
    assert!(!d.join_worker);
}

#[test]
fn ticks_split_between_delay_and_run_phase() {
    let mut config = Config::default();
    config.set_delay_seconds(2);
    let mut controller = Controller::new(config);
    let mut shared = SchedulerState::new();
    assert!(matches!(controller.start(&mut shared), StartDirective::Spawn { .. }));
    controller.tick(&shared);
    assert_eq!((controller.delay_elapsed, controller.run_elapsed), (1, 0));
    controller.tick(&shared);
    assert_eq!((controller.delay_elapsed, controller.run_elapsed), (2, 0));
    controller.tick(&shared);
    assert_eq!((controller.delay_elapsed, controller.run_elapsed), (2, 1));
    controller.tick(&shared);
    assert_eq!((controller.delay_elapsed, controller.run_elapsed), (2, 2));
    assert_eq!(controller.tick_count, 4);
}

#[test]
fn ticks_ignored_while_not_running() {
    let mut controller = Controller::default();
    let shared = SchedulerState::new();
    controller.tick(&shared);
    controller.tick(&shared);
    assert_eq!(controller.tick_count, 0);
    assert_eq!(controller.delay_elapsed, 0);
    assert_eq!(controller.run_elapsed, 0);
}

#[test]
fn update_handler_dispatches_edits() {
    let mut controller = Controller::default();
    let mut shared = SchedulerState::new();
    assert_eq!(
        update_handler(&mut controller, &mut shared, Message::IntervalSliderChanged(9)),
        Command::Idle
    );
    assert_eq!(controller.config.interval_seconds, 9);
    assert_eq!(
        update_handler(&mut controller, &mut shared, Message::DelayHoursChanged(99)),
        Command::Idle
    );
    assert_eq!(controller.config.delay_hours, 23);
    assert_eq!(
        update_handler(&mut controller, &mut shared, Message::SelectMouseButton(MouseTarget::Middle)),
        Command::Idle
    );
    assert_eq!(controller.config.target, MouseTarget::Middle);
    assert_eq!(
        update_handler(&mut controller, &mut shared, Message::SaveSettings),
        Command::Persist
    );
    assert_eq!(
        update_handler(&mut controller, &mut shared, Message::ResetToDefaults),
        Command::Idle
    );
    assert_eq!(controller.config, Config::default());
}

#[test]
fn reset_between_runs_clears_counters() {
    let mut controller = Controller::default();
    let mut shared = SchedulerState::new();
    assert!(matches!(controller.start(&mut shared), StartDirective::Spawn { .. }));
    controller.tick(&shared);
    controller.tick(&shared);
    shared.action_count = 6;
    // The worker terminates the run on its own; the stale counters remain
    // until a reset restores the default snapshot.
    shared.running = false;
    assert_eq!(
        update_handler(&mut controller, &mut shared, Message::ResetToDefaults),
        Command::Idle
    );
    assert_eq!(controller.config, Config::default());
    assert_eq!(controller.tick_count, 0);
    assert_eq!(controller.delay_elapsed, 0);
    assert_eq!(controller.run_elapsed, 0);
    assert_eq!(shared.action_count, 0);
    assert!(!shared.running);
    // The handle of that finished worker is still held, to be joined by
    // the next start or stop rather than dropped by the reset.
    assert!(controller.holds_worker_handle);
}

#[test]
fn reset_during_run_restores_configuration_only() {
    let mut config = Config::default();
    config.set_clicks_per_burst(4);
    let mut controller = Controller::new(config);
    let mut shared = SchedulerState::new();
    assert!(matches!(controller.start(&mut shared), StartDirective::Spawn { .. }));
    controller.tick(&shared);
    shared.action_count = 4;
    assert_eq!(
        update_handler(&mut controller, &mut shared, Message::ResetToDefaults),
        Command::Idle
    );
    assert_eq!(controller.config, Config::default());
    assert_eq!(controller.tick_count, 1);
    assert_eq!(shared.action_count, 4);
    assert!(shared.running);
}

#[test]
fn update_handler_runs_lifecycle() {
    let mut controller = Controller::default();
    let mut shared = SchedulerState::new();
    match update_handler(&mut controller, &mut shared, Message::Start) {
        Command::Spawn { join_previous, .. } => assert!(!join_previous),
        other => panic!("expected a spawn, got {:?}", other),
    }
    assert_eq!(
        update_handler(&mut controller, &mut shared, Message::Start),
        Command::Idle
    );
    assert_eq!(
        update_handler(&mut controller, &mut shared, Message::Stop),
        Command::Halt { send_cancel: true, join_worker: true }
    );
    assert_eq!(
        update_handler(&mut controller, &mut shared, Message::Stop),
        Command::Halt { send_cancel: false, join_worker: false }
    );
}

#[test]
fn snapshot_reads_both_sides() {
    let mut controller = Controller::default();
    let mut shared = SchedulerState::new();
    assert!(matches!(controller.start(&mut shared), StartDirective::Spawn { .. }));
    controller.tick(&shared);
    shared.action_count = 4;
    let snap = controller.snapshot(&shared);
    assert!(snap.running);
    assert_eq!(snap.action_count, 4);
    assert_eq!(snap.delay_elapsed, 0);
    assert_eq!(snap.run_elapsed, 1);
}
