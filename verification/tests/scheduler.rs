use rewinds::emu_core::scheduler::{
    EventContext, EventHandler, HandlerModel, Scheduler, Timeline,
};

#[derive(Clone, Copy, Debug, PartialEq, Eq)]
enum TestEvent {
    Plain(u32),
    /// When handled, schedules a `Plain` at the same timestamp to exercise
    /// same-cycle cascades.
    Cascade(u32),
    /// Carries a generation for the stale-event test.
    Generational { id: u32, generation: u32 },
}

/// A handler that records the payloads it fired, in order.
#[derive(Default)]
struct Recorder {
    fired: Vec<TestEvent>,
    /// The "current" generation of device 0, for the stale-event test.
    device_generation: u32,
}

/// What the recorder stands for plays no part when it runs.
struct Unmodelled;

impl HandlerModel<TestEvent> for Unmodelled {
    fn handled(
        self,
        _event: TestEvent,
        _timeline: Timeline<TestEvent>,
    ) -> Option<(Self, Timeline<TestEvent>)> {
        unreachable!()
    }
}

impl EventHandler<TestEvent> for Recorder {
    type Model = Unmodelled;

    fn model(&self) -> Unmodelled {
        Unmodelled
    }

    fn handle(&mut self, event: TestEvent, ctx: &mut EventContext<'_, TestEvent>) {
        match event {
            TestEvent::Cascade(n) => {
                self.fired.push(event);
                ctx.scheduler
                    .schedule_at(ctx.now, TestEvent::Plain(n + 100));
            }
            TestEvent::Generational { generation, .. } => {
                // Ignore events from a superseded generation.
                if generation == self.device_generation {
                    self.fired.push(event);
                }
            }
            TestEvent::Plain(_) => self.fired.push(event),
        }
    }
}

/// Drive the scheduler the way the machine loop does: repeatedly advance to
/// the next deadline and run due events, until the queue drains.
fn drain(scheduler: &mut Scheduler<TestEvent>, recorder: &mut Recorder) {
    while let Some(deadline) = scheduler.next_deadline() {
        scheduler.set_now(deadline);
        scheduler.run_due_events(recorder);
    }
}

#[test]
fn dispatches_in_chronological_order() {
    let mut s = Scheduler::new();
    let mut r = Recorder::default();
    s.schedule_at(300, TestEvent::Plain(3));
    s.schedule_at(100, TestEvent::Plain(1));
    s.schedule_at(200, TestEvent::Plain(2));
    drain(&mut s, &mut r);
    assert_eq!(
        r.fired,
        vec![
            TestEvent::Plain(1),
            TestEvent::Plain(2),
            TestEvent::Plain(3)
        ]
    );
}

#[test]
fn same_time_keeps_insertion_order() {
    let mut s = Scheduler::new();
    let mut r = Recorder::default();
    s.schedule_at(100, TestEvent::Plain(1));
    s.schedule_at(100, TestEvent::Plain(2));
    s.schedule_at(100, TestEvent::Plain(3));
    drain(&mut s, &mut r);
    assert_eq!(
        r.fired,
        vec![
            TestEvent::Plain(1),
            TestEvent::Plain(2),
            TestEvent::Plain(3)
        ]
    );
}

#[test]
fn same_time_recursive_scheduling_completes_before_leaving_now() {
    let mut s = Scheduler::new();
    let mut r = Recorder::default();
    // Cascade fires at 100 and schedules Plain(105) also at 100.
    s.schedule_at(100, TestEvent::Cascade(5));
    s.schedule_at(200, TestEvent::Plain(9));
    s.set_now(100);
    s.run_due_events(&mut r);
    // Both the cascade and its same-time consequence fired; the 200 event
    // did not, because time has not advanced there yet.
    assert_eq!(
        r.fired,
        vec![TestEvent::Cascade(5), TestEvent::Plain(105)]
    );
    assert_eq!(s.next_deadline(), Some(200));
}

#[test]
fn stale_generation_events_are_ignored_by_the_handler() {
    let mut s = Scheduler::new();
    let mut r = Recorder::default();
    // Device 0 is at generation 0 when this event is scheduled.
    s.schedule_at(
        100,
        TestEvent::Generational {
            id: 0,
            generation: 0,
        },
    );
    // Reconfiguration bumps the device's generation, invalidating the above.
    r.device_generation = 1;
    s.schedule_at(
        200,
        TestEvent::Generational {
            id: 0,
            generation: 1,
        },
    );
    drain(&mut s, &mut r);
    // Only the current-generation event was acted on; the stale one, though
    // it fired, was dropped by the handler.
    assert_eq!(
        r.fired,
        vec![TestEvent::Generational {
            id: 0,
            generation: 1
        }]
    );
}

#[test]
fn next_deadline_reports_earliest_event() {
    let mut s: Scheduler<TestEvent> = Scheduler::new();
    assert_eq!(s.next_deadline(), None);
    s.schedule_at(500, TestEvent::Plain(1));
    s.schedule_at(100, TestEvent::Plain(2));
    assert_eq!(s.next_deadline(), Some(100));
}

#[test]
fn halt_progression_advances_without_cpu_work() {
    // With the "CPU" executing nothing, the scheduler still reaches the
    // event at 100 and fires it.
    let mut s = Scheduler::new();
    let mut r = Recorder::default();
    s.schedule_at(100, TestEvent::Plain(7));
    let reached = s.advance_to_next_event();
    assert_eq!(reached, Some(100));
    assert_eq!(s.now(), 100);
    s.run_due_events(&mut r);
    assert_eq!(r.fired, vec![TestEvent::Plain(7)]);
}

#[test]
fn schedule_after_is_relative_to_now() {
    let mut s: Scheduler<TestEvent> = Scheduler::new();
    s.set_now(1000);
    s.schedule_after(250, TestEvent::Plain(1));
    assert_eq!(s.next_deadline(), Some(1250));
}

#[test]
fn pending_events_are_sorted() {
    let mut s = Scheduler::new();
    s.schedule_at(300, TestEvent::Plain(3));
    s.schedule_at(100, TestEvent::Plain(1));
    s.schedule_at(100, TestEvent::Plain(2));
    let pending = s.pending_events();
    let times: Vec<_> = pending.iter().map(|e| e.at).collect();
    assert_eq!(times, vec![100, 100, 300]);
    // Same-time events keep insertion order in the snapshot too.
    assert_eq!(pending[0].kind, TestEvent::Plain(1));
    assert_eq!(pending[1].kind, TestEvent::Plain(2));
}

/// The trace hook sees every dispatched event, cascades included, in dispatch order and
/// with the time of the dispatch.
#[test]
fn the_trace_hook_sees_every_event() {
    let mut sched = Scheduler::new();
    sched.schedule_at(10, TestEvent::Cascade(1));
    sched.schedule_at(20, TestEvent::Plain(2));
    sched.schedule_at(30, TestEvent::Plain(3));
    sched.set_now(20);
    let mut recorder = Recorder::default();
    let mut seen = Vec::new();
    sched.run_due_events_traced(&mut recorder, |now, event: &TestEvent| seen.push((now, *event)));
    assert_eq!(seen.iter().map(|s| s.1).collect::<Vec<_>>(), recorder.fired);
    assert!(seen.iter().all(|s| s.0 == 20));
    assert_eq!(seen.len(), 3);
    assert_eq!(sched.pending_count(), 1);
}

/// Scheduling adds one event: the deadline only moves earlier and handles keep rising.
#[test]
fn scheduling_adds_one_event() {
    let mut sched = Scheduler::new();
    sched.set_now(5);
    let first = sched.schedule_at(30, TestEvent::Plain(1));
    assert_eq!((sched.next_deadline(), sched.pending_count()), (Some(30), 1));
    let second = sched.schedule_at(40, TestEvent::Plain(2));
    assert_eq!((sched.next_deadline(), sched.pending_count()), (Some(30), 2));
    let third = sched.schedule_at(10, TestEvent::Plain(3));
    assert_eq!((sched.next_deadline(), sched.pending_count()), (Some(10), 3));
    assert!(first.0 < second.0 && second.0 < third.0);
    assert_eq!(sched.now(), 5);
}
