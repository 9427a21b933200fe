use clickr::config::Config;
use clickr::controller::{Controller, StartDirective};
use clickr::state::SchedulerState;
use clickr::target::MouseTarget;
use clickr::worker::{RunOutcome, Worker, WorkerAction, WorkerEvent, WorkerParams, WorkerPhase};

fn params(interval: u64, clicks: u8, delay: u64, duration: Option<u64>) -> WorkerParams {
    WorkerParams {
        interval_seconds: interval,
        clicks_per_burst: clicks,
        delay_seconds: delay,
        duration_seconds: duration,
        target: MouseTarget::Primary,
    }
}

/// Drive one undisturbed loop iteration: a passing poll at `now`, a full
/// successful burst, and the interval slept out.
fn run_iteration(w: &mut Worker, shared: &mut SchedulerState, now: u64, clicks: u8) {
    w.step(shared, WorkerEvent::Polled { cancelled: false, now });
    for _ in 0..clicks {
        w.step(shared, WorkerEvent::ActionPerformed { succeeded: true });
    }
    w.step(shared, WorkerEvent::WakeFinished);
}

#[test]
fn unbounded_run_counts_exactly() {
    // delay 0, interval 1, 3 clicks per burst, unbounded duration: five
    // ticks and five undisturbed interval periods leave 15 actions, all
    // elapsed time in the run phase, and the run still going.
    let mut config = Config::default();
    config.set_clicks_per_burst(3);
    let mut controller = Controller::new(config);
    let mut shared = SchedulerState::new();
    let spawned = match controller.start(&mut shared) {
        StartDirective::Spawn { params, .. } => params,
        StartDirective::AlreadyRunning => panic!("fresh controller refused to start"),
    };
    let mut worker = Worker::new(spawned);
    worker.step(&mut shared, WorkerEvent::DelayFinished { now: 0 });
    for i in 0..5 {
        run_iteration(&mut worker, &mut shared, i, 3);
        controller.tick(&shared);
    }
    assert_eq!(shared.action_count, 15);
    assert_eq!(controller.run_elapsed, 5);
    assert_eq!(controller.delay_elapsed, 0);
    assert!(shared.running);
    assert_eq!(worker.bursts_completed, 5);
}

#[test]
fn delay_phase_defers_clicking() {
    // delay 2, interval 1, 1 click per burst: the first two ticks count
    // towards the delay phase, later ticks towards the run phase, and no
    // action lands before the worker's own delay wait has elapsed.
    let mut config = Config::default();
    config.set_delay_seconds(2);
    let mut controller = Controller::new(config);
    let mut shared = SchedulerState::new();
    let spawned = match controller.start(&mut shared) {
        StartDirective::Spawn { params, .. } => params,
        StartDirective::AlreadyRunning => panic!("fresh controller refused to start"),
    };
    let mut worker = Worker::new(spawned);
    assert_eq!(worker.next_action(), WorkerAction::Wait { seconds: 2 });

    // Ticks 1 and 2 arrive while the worker still waits: no clicks yet.
    controller.tick(&shared);
    controller.tick(&shared);
    assert_eq!(controller.delay_elapsed, 2);
    assert_eq!(controller.run_elapsed, 0);
    assert_eq!(shared.action_count, 0);

    // The delay elapses; from tick 3 on the run phase counts, and actions
    // begin to land.
    worker.step(&mut shared, WorkerEvent::DelayFinished { now: 2 });
    run_iteration(&mut worker, &mut shared, 2, 1);
    controller.tick(&shared);
    assert_eq!(controller.delay_elapsed, 2);
    assert_eq!(controller.run_elapsed, 1);
    assert_eq!(shared.action_count, 1);
}

#[test]
fn bounded_run_terminates_on_its_own() {
    // delay 0, interval 1, 1 click per burst, duration 3: the worker
    // terminates at the poll that reads second 3, with no stop call, and
    // clears the running flag itself.
    let mut shared = SchedulerState { running: true, action_count: 0 };
    let mut worker = Worker::new(params(1, 1, 0, Some(3)));
    worker.step(&mut shared, WorkerEvent::DelayFinished { now: 0 });
    for i in 0..3 {
        run_iteration(&mut worker, &mut shared, i, 1);
        assert!(shared.running);
    }
    worker.step(&mut shared, WorkerEvent::Polled { cancelled: false, now: 3 });
    assert_eq!(worker.phase, WorkerPhase::Terminated);
    assert_eq!(worker.outcome, Some(RunOutcome::DurationElapsed));
    assert!(!shared.running);
    assert_eq!(shared.action_count, 3);
    assert_eq!(worker.bursts_completed, 3);
    assert_eq!(worker.next_action(), WorkerAction::Exit);
}

#[test]
fn stop_during_delay_cancels_at_first_poll() {
    // A stop issued during the delay wait is not observed until the wait
    // completes; the first poll after it then terminates the run before
    // any click. The controller side of the same stop surrenders sender
    // and handle at once.
    let mut config = Config::default();
    config.set_delay_hours(1);
    let mut controller = Controller::new(config);
    let mut shared = SchedulerState::new();
    let spawned = match controller.start(&mut shared) {
        StartDirective::Spawn { params, .. } => params,
        StartDirective::AlreadyRunning => panic!("fresh controller refused to start"),
    };
    let mut worker = Worker::new(spawned);
    assert_eq!(worker.next_action(), WorkerAction::Wait { seconds: 3600 });

    let halt = controller.stop();
    assert!(halt.send_cancel);
    assert!(halt.join_worker);
    assert_eq!(shared.action_count, 0);

    // The worker waits the delay out, then observes the pending signal.
    worker.step(&mut shared, WorkerEvent::DelayFinished { now: 3600 });
    worker.step(&mut shared, WorkerEvent::Polled { cancelled: true, now: 3600 });
    assert_eq!(worker.phase, WorkerPhase::Terminated);
    assert_eq!(worker.outcome, Some(RunOutcome::Cancelled));
    assert!(!shared.running);
    assert_eq!(shared.action_count, 0);
}

#[test]
fn cancellation_waits_out_the_burst() {
    // A signal that arrives mid-burst is only seen at the next poll: the
    // burst in progress completes first.
    let mut shared = SchedulerState { running: true, action_count: 0 };
    let mut worker = Worker::new(params(1, 3, 0, None));
    worker.step(&mut shared, WorkerEvent::DelayFinished { now: 0 });
    worker.step(&mut shared, WorkerEvent::Polled { cancelled: false, now: 0 });
    for _ in 0..3 {
        assert!(matches!(worker.next_action(), WorkerAction::Click { .. }));
        worker.step(&mut shared, WorkerEvent::ActionPerformed { succeeded: true });
    }
    assert_eq!(shared.action_count, 3);
    worker.step(&mut shared, WorkerEvent::WakeFinished);
    worker.step(&mut shared, WorkerEvent::Polled { cancelled: true, now: 1 });
    assert_eq!(worker.outcome, Some(RunOutcome::Cancelled));
    assert!(!shared.running);
    assert_eq!(shared.action_count, 3);
}

#[test]
fn failed_action_ends_the_run() {
    // An action failure is fatal to the run, not to the process: the
    // machine terminates, clears running, and records the failure.
    let mut shared = SchedulerState { running: true, action_count: 0 };
    let mut worker = Worker::new(params(1, 2, 0, None));
    worker.step(&mut shared, WorkerEvent::DelayFinished { now: 0 });
    worker.step(&mut shared, WorkerEvent::Polled { cancelled: false, now: 0 });
    worker.step(&mut shared, WorkerEvent::ActionPerformed { succeeded: true });
    worker.step(&mut shared, WorkerEvent::ActionPerformed { succeeded: false });
    assert_eq!(worker.phase, WorkerPhase::Terminated);
    assert_eq!(worker.outcome, Some(RunOutcome::ActionFailed));
    assert!(!shared.running);
    assert_eq!(shared.action_count, 1);
}

#[test]
fn actions_follow_the_loop_order() {
    let mut shared = SchedulerState { running: true, action_count: 0 };
    let mut worker = Worker::new(params(7, 1, 5, None));
    assert_eq!(worker.next_action(), WorkerAction::Wait { seconds: 5 });
    worker.step(&mut shared, WorkerEvent::DelayFinished { now: 5 });
    assert_eq!(worker.next_action(), WorkerAction::Poll);
    worker.step(&mut shared, WorkerEvent::Polled { cancelled: false, now: 5 });
    assert_eq!(worker.next_action(), WorkerAction::Click { target: MouseTarget::Primary });
    worker.step(&mut shared, WorkerEvent::ActionPerformed { succeeded: true });
    assert_eq!(worker.next_action(), WorkerAction::Sleep { seconds: 7 });
    worker.step(&mut shared, WorkerEvent::WakeFinished);
    assert_eq!(worker.next_action(), WorkerAction::Poll);
}

#[test]
fn bounded_run_burst_bound_holds() {
    // duration 5, interval 2: polls at 0, 2, 4 fire bursts, the poll at 6
    // stops the run; 3 completed bursts, within floor(5 / 2) + 1.
    let mut shared = SchedulerState { running: true, action_count: 0 };
    let mut worker = Worker::new(params(2, 1, 0, Some(5)));
    worker.step(&mut shared, WorkerEvent::DelayFinished { now: 0 });
    let mut now: u64 = 0;
    while shared.running {
        worker.step(&mut shared, WorkerEvent::Polled { cancelled: false, now });
        if !shared.running {
            break;
        }
        worker.step(&mut shared, WorkerEvent::ActionPerformed { succeeded: true });
        worker.step(&mut shared, WorkerEvent::WakeFinished);
        now += 2;
    }
    assert_eq!(worker.outcome, Some(RunOutcome::DurationElapsed));
    assert_eq!(worker.bursts_completed, 3);
    assert!(worker.bursts_completed <= 5 / 2 + 1);
}
