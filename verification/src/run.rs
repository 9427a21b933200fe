//! Whole runs of the worker machine.
//!
//! A run is the fold of `spec_step` over the script of events the host
//! reports. The laws here cover the shapes of script the design promises
//! things about: a run cancelled at its first poll, an undisturbed
//! unbounded run, and a run that exhausts a bounded duration.

use vstd::prelude::*;
use vstd::arithmetic::div_mod::{lemma_div_by_multiple, lemma_div_is_ordered};
use crate::config::TRIPLE_TOTAL_MAX;
use crate::controller::{spec_start, spec_stop, Controller, StartDirective};
use crate::state::SchedulerState;
use crate::worker::{
    halted, initial_worker, spec_step, step_permitted, terminated_worker, RunOutcome, Worker,
    WorkerEvent, WorkerPhase, WorkerParams,
};

verus! {

/// The machine and the shared state after a script of reported events.
pub open spec fn run_steps(w: Worker, s: SchedulerState, events: Seq<WorkerEvent>) -> (Worker, SchedulerState)
    decreases events.len(),
{
    if events.len() == 0 {
        (w, s)
    } else {
        let stepped = spec_step(w, s, events[0]);
        run_steps(stepped.0, stepped.1, events.drop_first())
    }
}

/// Every event of the script arrives when the machine may take it.
pub open spec fn events_permitted(w: Worker, s: SchedulerState, events: Seq<WorkerEvent>) -> bool
    decreases events.len(),
{
    events.len() == 0 || {
        &&& step_permitted(w, s, events[0])
        &&& {
            let stepped = spec_step(w, s, events[0]);
            events_permitted(stepped.0, stepped.1, events.drop_first())
        }
    }
}

/// Running a concatenated script is running the two halves in order.
proof fn lemma_run_steps_append(w: Worker, s: SchedulerState, e1: Seq<WorkerEvent>, e2: Seq<WorkerEvent>)
    ensures
        ({
            let mid = run_steps(w, s, e1);
            run_steps(w, s, e1 + e2) == run_steps(mid.0, mid.1, e2)
        }),
    decreases e1.len(),
{
    if e1.len() == 0 {
        assert(e1 + e2 =~= e2);
    } else {
        let stepped = spec_step(w, s, e1[0]);
        assert((e1 + e2)[0] == e1[0]);
        assert((e1 + e2).drop_first() =~= e1.drop_first() + e2);
        lemma_run_steps_append(stepped.0, stepped.1, e1.drop_first(), e2);
    }
}

/// A concatenated script is permitted when its first half is and its
/// second half is from where the first half leaves the machine.
proof fn lemma_events_permitted_append(w: Worker, s: SchedulerState, e1: Seq<WorkerEvent>, e2: Seq<WorkerEvent>)
    requires
        events_permitted(w, s, e1),
        ({
            let mid = run_steps(w, s, e1);
            events_permitted(mid.0, mid.1, e2)
        }),
    ensures
        events_permitted(w, s, e1 + e2),
    decreases e1.len(),
{
    if e1.len() == 0 {
        assert(e1 + e2 =~= e2);
    } else {
        let stepped = spec_step(w, s, e1[0]);
        assert((e1 + e2)[0] == e1[0]);
        assert((e1 + e2).drop_first() =~= e1.drop_first() + e2);
        lemma_events_permitted_append(stepped.0, stepped.1, e1.drop_first(), e2);
    }
}

/// A one-event script is one step.
proof fn lemma_run_steps_one(w: Worker, s: SchedulerState, e: WorkerEvent)
    ensures
        run_steps(w, s, seq![e]) == spec_step(w, s, e),
        events_permitted(w, s, seq![e]) == step_permitted(w, s, e),
{
    let events = seq![e];
    let stepped = spec_step(w, s, e);
    assert(events.drop_first() =~= Seq::<WorkerEvent>::empty());
    assert(run_steps(stepped.0, stepped.1, events.drop_first()) == stepped);
    assert(events_permitted(stepped.0, stepped.1, events.drop_first()));
}

/// The report of one full burst in which every action succeeded.
pub open spec fn burst_events(clicks: int) -> Seq<WorkerEvent> {
    Seq::new(clicks as nat, |i: int| WorkerEvent::ActionPerformed { succeeded: true })
}

/// One undisturbed loop iteration: a poll that sees no stop condition, a
/// full successful burst, and the interval slept out.
pub open spec fn iteration_events(clicks: int, poll_time: u64) -> Seq<WorkerEvent> {
    seq![WorkerEvent::Polled { cancelled: false, now: poll_time }] + burst_events(clicks)
        + seq![WorkerEvent::WakeFinished]
}

/// `k` undisturbed iterations whose polls read clocks one interval apart,
/// starting at zero.
pub open spec fn steady_events(clicks: int, interval: u64, k: int) -> Seq<WorkerEvent>
    decreases k,
{
    if k <= 0 {
        Seq::empty()
    } else {
        steady_events(clicks, interval, k - 1) + iteration_events(
            clicks,
            ((k - 1) * interval) as u64,
        )
    }
}

/// A poll at this clock reading sees no expired deadline.
pub open spec fn poll_passes(end_time: Option<u64>, now: u64) -> bool {
    !(end_time matches Some(end) && now >= end)
}

/// A full successful burst performs `remaining` actions, counts them all,
/// and completes the burst.
proof fn lemma_burst(w: Worker, s: SchedulerState, remaining: u8)
    requires
        w.wf(),
        s.running,
        w.phase == (WorkerPhase::Clicking { remaining }),
        s.action_count + remaining <= u32::MAX,
        w.bursts_completed < u64::MAX,
    ensures
        events_permitted(w, s, burst_events(remaining as int)),
        ({
            let r = run_steps(w, s, burst_events(remaining as int));
            &&& r.0 == (Worker {
                phase: WorkerPhase::Sleeping,
                bursts_completed: (w.bursts_completed + 1) as u64,
                ..w
            })
            &&& r.1 == (SchedulerState {
                action_count: (s.action_count + remaining) as u32,
                ..s
            })
        }),
    decreases remaining,
{
    let events = burst_events(remaining as int);
    assert(events.len() == remaining);
    let stepped = spec_step(w, s, events[0]);
    if remaining == 1 {
        assert(events.drop_first() =~= burst_events(0));
        assert(run_steps(stepped.0, stepped.1, events.drop_first()) == stepped);
        assert(events_permitted(stepped.0, stepped.1, events.drop_first()));
    } else {
        let w2 = (Worker { phase: WorkerPhase::Clicking { remaining: (remaining - 1) as u8 }, ..w });
        let s2 = (SchedulerState { action_count: (s.action_count + 1) as u32, ..s });
        assert(stepped == (w2, s2));
        assert(events.drop_first() =~= burst_events(remaining - 1));
        lemma_burst(w2, s2, (remaining - 1) as u8);
        assert(events_permitted(stepped.0, stepped.1, events.drop_first()));
        assert(run_steps(stepped.0, stepped.1, events.drop_first()) == run_steps(
            w2,
            s2,
            burst_events(remaining - 1),
        ));
    }
}

/// One undisturbed iteration from a poll point performs one full burst and
/// returns to the next poll point.
proof fn lemma_iteration(w: Worker, s: SchedulerState, poll_time: u64)
    requires
        w.wf(),
        s.running,
        w.phase is Polling,
        poll_passes(w.end_time, poll_time),
        s.action_count + w.params.clicks_per_burst <= u32::MAX,
        w.bursts_completed < u64::MAX,
    ensures
        events_permitted(w, s, iteration_events(w.params.clicks_per_burst as int, poll_time)),
        ({
            let r = run_steps(w, s, iteration_events(w.params.clicks_per_burst as int, poll_time));
            &&& r.0 == (Worker { bursts_completed: (w.bursts_completed + 1) as u64, ..w })
            &&& r.1 == (SchedulerState {
                action_count: (s.action_count + w.params.clicks_per_burst) as u32,
                ..s
            })
        }),
{
    let clicks = w.params.clicks_per_burst;
    let poll = seq![WorkerEvent::Polled { cancelled: false, now: poll_time }];
    let wake = seq![WorkerEvent::WakeFinished];
    let events = iteration_events(clicks as int, poll_time);

    let w1 = (Worker { phase: WorkerPhase::Clicking { remaining: clicks }, ..w });
    lemma_run_steps_one(w, s, WorkerEvent::Polled { cancelled: false, now: poll_time });
    assert(run_steps(w, s, poll) == (w1, s));
    assert(events_permitted(w, s, poll));

    lemma_burst(w1, s, clicks);
    let w2 = (Worker {
        phase: WorkerPhase::Sleeping,
        bursts_completed: (w.bursts_completed + 1) as u64,
        ..w
    });
    let s2 = (SchedulerState { action_count: (s.action_count + clicks) as u32, ..s });
    assert(run_steps(w1, s, burst_events(clicks as int)) == (w2, s2));

    let w3 = (Worker { bursts_completed: (w.bursts_completed + 1) as u64, ..w });
    lemma_run_steps_one(w2, s2, WorkerEvent::WakeFinished);
    assert(run_steps(w2, s2, wake) == (w3, s2));
    assert(events_permitted(w2, s2, wake));

    lemma_run_steps_append(w, s, poll, burst_events(clicks as int));
    lemma_run_steps_append(w, s, poll + burst_events(clicks as int), wake);
    assert(events =~= (poll + burst_events(clicks as int)) + wake);
    lemma_events_permitted_append(w1, s, burst_events(clicks as int), wake);
    lemma_events_permitted_append(w, s, poll, burst_events(clicks as int) + wake);
    assert(events =~= poll + (burst_events(clicks as int) + wake));
    lemma_run_steps_append(w1, s, burst_events(clicks as int), wake);
}

/// `k` undisturbed iterations from a poll point perform `k` full bursts
/// and leave the machine at a poll point.
proof fn lemma_steady_run(w: Worker, s: SchedulerState, k: int)
    requires
        w.wf(),
        s.running,
        w.phase is Polling,
        0 <= k,
        s.action_count + k * w.params.clicks_per_burst <= u32::MAX,
        w.bursts_completed + k <= u64::MAX,
        forall|i: int| 0 <= i < k ==> poll_passes(
            w.end_time,
            ((#[trigger] (i * w.params.interval_seconds)) as u64),
        ),
    ensures
        events_permitted(w, s, steady_events(w.params.clicks_per_burst as int, w.params.interval_seconds, k)),
        ({
            let r = run_steps(
                w,
                s,
                steady_events(w.params.clicks_per_burst as int, w.params.interval_seconds, k),
            );
            &&& r.0 == (Worker { bursts_completed: (w.bursts_completed + k) as u64, ..w })
            &&& r.1 == (SchedulerState {
                action_count: (s.action_count + k * w.params.clicks_per_burst) as u32,
                ..s
            })
        }),
    decreases k,
{
    let clicks = w.params.clicks_per_burst;
    let interval = w.params.interval_seconds;
    if k == 0 {
        assert(steady_events(clicks as int, interval, 0) =~= Seq::<WorkerEvent>::empty());
        assert(s.action_count + 0 * clicks == s.action_count) by (nonlinear_arith);
        assert(run_steps(w, s, Seq::<WorkerEvent>::empty()) == (w, s));
    } else {
        assert((k - 1) * clicks + clicks == k * clicks) by (nonlinear_arith);
        assert(0 <= (k - 1) * clicks) by (nonlinear_arith)
            requires
                0 <= k - 1,
                0 <= clicks,
        ;
        lemma_steady_run(w, s, k - 1);
        let prior = steady_events(clicks as int, interval, k - 1);
        let mid = run_steps(w, s, prior);
        let last = iteration_events(clicks as int, (((k - 1) * interval)) as u64);
        lemma_iteration(mid.0, mid.1, ((k - 1) * interval) as u64);
        lemma_run_steps_append(w, s, prior, last);
        lemma_events_permitted_append(w, s, prior, last);
    }
}

/// However far a run has come, the poll that observes a cancellation
/// terminates the machine on the spot: `running` is cleared in the same
/// step, the action count moves no further, and — the machine being
/// terminated — no later event can click again.
pub proof fn lemma_cancelled_poll_terminates(w: Worker, s: SchedulerState, now: u64)
    requires
        w.wf(),
        s.running,
        w.phase is Polling,
    ensures
        ({
            let r = spec_step(w, s, WorkerEvent::Polled { cancelled: true, now });
            &&& r.0 == terminated_worker(w, RunOutcome::Cancelled)
            &&& r.1 == halted(s)
            &&& !r.1.running
            &&& r.1.action_count == s.action_count
        }),
{
}

/// A run stopped immediately after starting. The cancellation is already
/// pending when the delay wait completes, so the worker's first poll
/// observes it: the machine terminates after finitely many steps — the
/// delay report and one poll — with no action performed and `running`
/// false.
pub proof fn lemma_start_then_stop(params: WorkerParams, delay_end: u64, poll_time: u64)
    requires
        params.wf(),
        delay_end + params.duration_or_zero() <= u64::MAX,
    ensures
        ({
            let begin = (SchedulerState { running: true, action_count: 0 });
            let events = seq![
                WorkerEvent::DelayFinished { now: delay_end },
                WorkerEvent::Polled { cancelled: true, now: poll_time },
            ];
            let r = run_steps(initial_worker(params), begin, events);
            &&& events_permitted(initial_worker(params), begin, events)
            &&& r.0.phase is Terminated
            &&& r.0.outcome == Some(RunOutcome::Cancelled)
            &&& r.1 == (SchedulerState { running: false, action_count: 0 })
        }),
{
    let w0 = initial_worker(params);
    let s0 = (SchedulerState { running: true, action_count: 0 });
    let events = seq![
        WorkerEvent::DelayFinished { now: delay_end },
        WorkerEvent::Polled { cancelled: true, now: poll_time },
    ];
    let stepped = spec_step(w0, s0, events[0]);
    assert(events.drop_first() =~= seq![WorkerEvent::Polled { cancelled: true, now: poll_time }]);
    lemma_run_steps_one(stepped.0, stepped.1, WorkerEvent::Polled { cancelled: true, now: poll_time });
}

/// The same, end to end in lifecycle terms: for any valid configuration,
/// a start followed immediately by a stop has the stop direct a signal and
/// a join, and the spawned worker — its cancellation already pending at
/// its first poll — terminate with `running` false and nothing clicked.
pub proof fn lemma_lifecycle_start_then_stop(
    c: Controller,
    s: SchedulerState,
    delay_end: u64,
    poll_time: u64,
)
    requires
        c.wf(),
        !s.running,
        delay_end <= u64::MAX - TRIPLE_TOTAL_MAX,
    ensures
        ({
            let (c1, s1, d) = spec_start(c, s);
            let (c2, halt) = spec_stop(c1);
            &&& halt.send_cancel
            &&& halt.join_worker
            &&& d matches StartDirective::Spawn { params, join_previous } ==> {
                let events = seq![
                    WorkerEvent::DelayFinished { now: delay_end },
                    WorkerEvent::Polled { cancelled: true, now: poll_time },
                ];
                let r = run_steps(initial_worker(params), s1, events);
                &&& events_permitted(initial_worker(params), s1, events)
                &&& r.0.phase is Terminated
                &&& r.1 == (SchedulerState { running: false, action_count: 0 })
            }
        }),
{
    let (c1, s1, d) = spec_start(c, s);
    crate::controller::lemma_worker_params_wf(c.config);
    if let StartDirective::Spawn { params, join_previous } = d {
        lemma_start_then_stop(params, delay_end, poll_time);
    }
}

/// With the duration unbounded and no stop call, `k` undisturbed full
/// interval periods perform exactly `k * clicks_per_burst` actions, and
/// the run is still going.
pub proof fn lemma_unbounded_steady_run(params: WorkerParams, delay_end: u64, k: int)
    requires
        params.wf(),
        params.duration_seconds is None,
        0 <= k,
        k * params.clicks_per_burst <= u32::MAX,
    ensures
        ({
            let begin = (SchedulerState { running: true, action_count: 0 });
            let events = seq![WorkerEvent::DelayFinished { now: delay_end }] + steady_events(
                params.clicks_per_burst as int,
                params.interval_seconds,
                k,
            );
            let r = run_steps(initial_worker(params), begin, events);
            &&& events_permitted(initial_worker(params), begin, events)
            &&& r.1.action_count == k * params.clicks_per_burst
            &&& r.1.running
            &&& r.0.phase is Polling
            &&& r.0.bursts_completed == k
        }),
{
    let w0 = initial_worker(params);
    let s0 = (SchedulerState { running: true, action_count: 0 });
    let delay = seq![WorkerEvent::DelayFinished { now: delay_end }];
    let steady = steady_events(params.clicks_per_burst as int, params.interval_seconds, k);
    lemma_run_steps_one(w0, s0, WorkerEvent::DelayFinished { now: delay_end });
    let stepped = spec_step(w0, s0, WorkerEvent::DelayFinished { now: delay_end });
    assert(stepped.0 == (Worker { phase: WorkerPhase::Polling, end_time: None, ..w0 }));
    assert(k <= k * params.clicks_per_burst) by (nonlinear_arith)
        requires
            0 <= k,
            1 <= params.clicks_per_burst,
    ;
    lemma_steady_run(stepped.0, stepped.1, k);
    lemma_run_steps_append(w0, s0, delay, steady);
    lemma_events_permitted_append(w0, s0, delay, steady);
}

/// With a bounded duration, no start delay, and the polls of successive
/// iterations one interval apart, the machine terminates at the first poll
/// at or past the deadline — after `n` completed bursts, where `n` is the
/// first count whose poll time `n * interval` reaches `duration`, and
/// `n <= duration / interval + 1`.
pub proof fn lemma_bounded_duration_run(params: WorkerParams, dur: u64, n: int)
    requires
        params.wf(),
        params.delay_seconds == 0,
        params.duration_seconds == Some(dur),
        0 <= n,
        n * params.interval_seconds >= dur,
        forall|i: int| 0 <= i < n ==> #[trigger] (i * params.interval_seconds) < dur,
    ensures
        ({
            let begin = (SchedulerState { running: true, action_count: 0 });
            let events = (seq![WorkerEvent::DelayFinished { now: 0 }] + steady_events(
                params.clicks_per_burst as int,
                params.interval_seconds,
                n,
            )) + seq![
                WorkerEvent::Polled {
                    cancelled: false,
                    now: (n * params.interval_seconds) as u64,
                },
            ];
            let r = run_steps(initial_worker(params), begin, events);
            &&& events_permitted(initial_worker(params), begin, events)
            &&& r.0.phase is Terminated
            &&& r.0.outcome == Some(RunOutcome::DurationElapsed)
            &&& !r.1.running
            &&& r.0.bursts_completed == n
            &&& r.1.action_count == n * params.clicks_per_burst
            &&& n <= dur / params.interval_seconds + 1
        }),
{
    let clicks = params.clicks_per_burst;
    let interval = params.interval_seconds;
    let w0 = initial_worker(params);
    let s0 = (SchedulerState { running: true, action_count: 0 });
    let delay = seq![WorkerEvent::DelayFinished { now: 0 }];
    let steady = steady_events(clicks as int, interval, n);
    let last_poll_time = ((n * interval)) as u64;
    let last = seq![WorkerEvent::Polled { cancelled: false, now: last_poll_time }];

    // n is at least 1, and small enough for every cast and count to be exact.
    assert(n >= 1) by {
        if n == 0 {
            assert(n * interval == 0) by (nonlinear_arith)
                requires
                    n == 0,
            ;
        }
    }
    assert((n - 1) * interval < dur);
    assert(n - 1 <= (n - 1) * interval) by (nonlinear_arith)
        requires
            1 <= interval,
            0 <= n - 1,
    ;
    assert(n <= dur);
    assert(n * interval <= dur * interval) by (nonlinear_arith)
        requires
            n <= dur,
            0 <= interval,
    ;
    assert(dur * interval <= TRIPLE_TOTAL_MAX * 100) by (nonlinear_arith)
        requires
            0 <= dur <= TRIPLE_TOTAL_MAX,
            0 <= interval <= 100,
    ;
    assert(last_poll_time == n * interval);
    assert(last_poll_time >= dur);
    assert(n * clicks <= dur * 100) by (nonlinear_arith)
        requires
            n <= dur,
            0 <= clicks <= 100,
            0 <= n,
    ;

    // The delay report brings the machine to its first poll point with the
    // deadline fixed at `dur`.
    lemma_run_steps_one(w0, s0, WorkerEvent::DelayFinished { now: 0 });
    let stepped = spec_step(w0, s0, WorkerEvent::DelayFinished { now: 0 });
    assert(stepped.0 == (Worker { phase: WorkerPhase::Polling, end_time: Some(dur), ..w0 }));

    // Every poll before the n-th reads a clock still short of the deadline.
    assert forall|i: int| 0 <= i < n implies poll_passes(
        stepped.0.end_time,
        ((#[trigger] (i * stepped.0.params.interval_seconds)) as u64),
    ) by {
        assert(0 <= i * interval) by (nonlinear_arith)
            requires
                0 <= i,
                0 <= interval,
        ;
        assert(i * interval < dur);
    }
    lemma_steady_run(stepped.0, stepped.1, n);
    lemma_run_steps_append(w0, s0, delay, steady);
    lemma_events_permitted_append(w0, s0, delay, steady);
    let mid = run_steps(w0, s0, delay + steady);

    // The n-th poll reads `n * interval >= dur` and terminates the run.
    lemma_run_steps_one(mid.0, mid.1, WorkerEvent::Polled { cancelled: false, now: last_poll_time });
    lemma_run_steps_append(w0, s0, delay + steady, last);
    lemma_events_permitted_append(w0, s0, delay + steady, last);

    // At most one burst beyond the quotient fits before the deadline.
    assert(interval * (n - 1) < dur) by (nonlinear_arith)
        requires
            (n - 1) * interval < dur,
    ;
    lemma_div_is_ordered((n - 1) * interval, dur as int, interval as int);
    lemma_div_by_multiple(n - 1, interval as int);
    assert(n - 1 <= dur / interval);
}

} // verus!
