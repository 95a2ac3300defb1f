//! The deterministic event scheduler.
//!
//! The emulator does not run hardware components concurrently; it models the
//! single guest timeline as a queue of predicted, externally observable state
//! transitions. Devices predict their next transition and schedule it as an
//! event; the CPU executes until the next event deadline; the scheduler
//! dispatches every event due at that time; the CPU resumes.
//!
//! This scheduler is deliberately machine-agnostic. It is generic over the
//! event payload `E`, so it knows *when* things happen and in *what order*, but
//! nothing about what an event means. A machine defines its own event enum and
//! runs `Scheduler<ThatEnum>`.
//!
//! # Invariants
//!
//! - **Single canonical time.** [`Scheduler::now`] is the one authoritative
//!   timestamp. Time only moves forward during normal execution.
//! - **Events cannot be skipped.** Time never advances past a scheduled event
//!   without that event being dispatched first (the machine loop uses
//!   [`Scheduler::next_deadline`] as the bound for CPU execution).
//! - **Deterministic same-time ordering.** Events at the same timestamp fire in
//!   insertion order, via a per-event sequence number - never host container
//!   order.
//!
//! Cancellation is intentionally *not* a queue operation. Hardware that
//! reconfigures before a pending event fires uses generation numbers carried
//! inside the event payload: the device bumps its generation, and the stale
//! event is ignored by the handler when it fires. Stale events are allowed to
//! remain in the queue.

use vstd::prelude::*;

use super::time::Timestamp;

verus! {

/// An opaque reference to a scheduled event, returned when one is scheduled.
///
/// It carries the event's unique sequence number. Because cancellation is
/// generation-based rather than queue-removal-based, this is primarily an
/// identity for inspection.
#[derive(Clone, Copy, Debug, PartialEq, Eq, Hash, Structural)]
pub struct EventHandle(pub u64);

/// An event placed on the timeline: when it fires, a tie-break sequence for
/// same-time determinism, and the machine-defined payload.
#[derive(Clone, Copy, Debug)]
pub struct ScheduledEvent<E> {
    pub at: Timestamp,
    pub sequence: u64,
    pub kind: E,
}

impl<E> ScheduledEvent<E> {
    /// Whether this event is dispatched before `other`: it is earlier, or as
    /// early and scheduled first. The payload plays no part.
    pub open spec fn before(self, other: ScheduledEvent<E>) -> bool {
        self.at < other.at || (self.at == other.at && self.sequence < other.sequence)
    }
}

/// What a scheduler stands for: the time, the next sequence number, and the
/// pending events in the order in which they will be dispatched.
#[verifier::ext_equal]
#[verifier::reject_recursive_types(E)]
pub struct Timeline<E> {
    pub now: Timestamp,
    pub next_sequence: u64,
    pub events: Seq<ScheduledEvent<E>>,
}

impl<E> Timeline<E> {
    /// The events are in dispatch order, and none has a sequence number yet to be
    /// given out.
    pub open spec fn valid(self) -> bool {
        &&& forall|i: int, j: int|
            0 <= i < j < self.events.len() ==> (#[trigger] self.events[i]).before(
                #[trigger] self.events[j],
            )
        &&& forall|i: int|
            0 <= i < self.events.len() ==> (#[trigger] self.events[i]).sequence
                < self.next_sequence
    }

    /// Where among `events` one due at `at` belongs: after every event due no
    /// later.
    pub open spec fn place(events: Seq<ScheduledEvent<E>>, at: Timestamp) -> int
        decreases events.len(),
    {
        if events.len() == 0 || events.last().at <= at {
            events.len() as int
        } else {
            Self::place(events.drop_last(), at)
        }
    }

    /// The timeline with one more event.
    pub open spec fn scheduled(self, at: Timestamp, kind: E) -> Timeline<E> {
        Timeline {
            next_sequence: (self.next_sequence + 1) as u64,
            events: self.events.insert(
                Self::place(self.events, at),
                ScheduledEvent { at, sequence: self.next_sequence, kind },
            ),
            ..self
        }
    }

    /// Whether an event can be scheduled at `at`: not in the past, and with a
    /// sequence number left to give out.
    pub open spec fn can_schedule(self, at: int) -> bool {
        self.now <= at <= u64::MAX && self.next_sequence < u64::MAX
    }

    /// Whether the first event is due.
    pub open spec fn due(self) -> bool {
        self.events.len() > 0 && self.events[0].at <= self.now
    }

    /// The timeline without its first event.
    pub open spec fn popped(self) -> Timeline<E> {
        Timeline { events: self.events.remove(0), ..self }
    }

    /// The time of the earliest event.
    pub open spec fn deadline(self) -> Option<Timestamp> {
        if self.events.len() > 0 {
            Some(self.events[0].at)
        } else {
            None
        }
    }
}

/// `place` is within bounds and splits the events at `at`.
proof fn lemma_place<E>(events: Seq<ScheduledEvent<E>>, at: Timestamp)
    requires
        forall|i: int, j: int|
            0 <= i < j < events.len() ==> (#[trigger] events[i]).before(#[trigger] events[j]),
    ensures
        0 <= Timeline::place(events, at) <= events.len(),
        forall|i: int|
            0 <= i < Timeline::place(events, at) ==> (#[trigger] events[i]).at <= at,
        forall|i: int|
            Timeline::place(events, at) <= i < events.len() ==> (#[trigger] events[i]).at > at,
    decreases events.len(),
{
    if events.len() > 0 && events.last().at > at {
        let shorter = events.drop_last();
        lemma_place(shorter, at);
        let p = Timeline::place(shorter, at);
        assert forall|i: int| 0 <= i < p implies (#[trigger] events[i]).at <= at by {
            assert(shorter[i] == events[i]);
        }
        assert forall|i: int| p <= i < events.len() implies (#[trigger] events[i]).at > at by {
            if i < events.len() - 1 {
                assert(shorter[i] == events[i]);
            }
        }
    } else if events.len() > 0 {
        assert forall|i: int| 0 <= i < events.len() implies (#[trigger] events[i]).at <= at by {
            if i < events.len() - 1 {
                assert(events[i].before(events[events.len() - 1]));
            }
        }
    }
}

/// Scheduling keeps the dispatch order: the new event comes after every event due
/// no later and before every event due later.
pub proof fn scheduling_keeps_order<E>(timeline: Timeline<E>, at: Timestamp, kind: E)
    requires
        timeline.valid(),
        timeline.can_schedule(at as int),
    ensures
        timeline.scheduled(at, kind).valid(),
{
    lemma_place(timeline.events, at);
    let p = Timeline::place(timeline.events, at);
    let after = timeline.scheduled(at, kind);
    assert forall|i: int, j: int| 0 <= i < j < after.events.len() implies (
    #[trigger] after.events[i]).before(#[trigger] after.events[j]) by {
        let old_i = if i < p {
            i
        } else {
            i - 1
        };
        let old_j = if j < p {
            j
        } else {
            j - 1
        };
        if i != p {
            assert(after.events[i] == timeline.events[old_i]);
        }
        if j != p {
            assert(after.events[j] == timeline.events[old_j]);
        }
        if i != p && j != p {
            assert(timeline.events[old_i].before(timeline.events[old_j]));
        }
    }
    assert forall|i: int| 0 <= i < after.events.len() implies (#[trigger] after.events[i]).sequence
        < after.next_sequence by {
        if i < p {
            assert(after.events[i] == timeline.events[i]);
        } else if i > p {
            assert(after.events[i] == timeline.events[i - 1]);
        }
    }
}

/// Scheduling adds one event and nothing else: the time stands still, every pending event
/// stays, the deadline moves only to an earlier time, and the new event's number is above
/// that of every event scheduled before, pending or not.
pub proof fn scheduling_adds_one_event<E>(timeline: Timeline<E>, at: Timestamp, kind: E)
    requires
        timeline.valid(),
        timeline.can_schedule(at as int),
    ensures
        ({
            let after = timeline.scheduled(at, kind);
            let added = ScheduledEvent { at, sequence: timeline.next_sequence, kind };
            &&& after.now == timeline.now
            &&& after.events.len() == timeline.events.len() + 1
            &&& after.events.to_multiset() == timeline.events.to_multiset().insert(added)
            &&& after.deadline() == Some(
                match timeline.deadline() {
                    Some(deadline) => if deadline <= at {
                        deadline
                    } else {
                        at
                    },
                    None => at,
                },
            )
            &&& forall|i: int|
                0 <= i < timeline.events.len() ==> (#[trigger] timeline.events[i]).sequence
                    < added.sequence
            &&& added.sequence < after.next_sequence
        }),
{
    broadcast use vstd::seq_lib::group_to_multiset_ensures;

    lemma_place(timeline.events, at);
    let p = Timeline::place(timeline.events, at);
    if timeline.events.len() > 0 && p > 0 {
        assert(timeline.events[0].at <= at);
    }
}

/// Events scheduled one after the other for the same time are dispatched in that
/// order.
pub proof fn same_time_keeps_insertion_order<E>(
    timeline: Timeline<E>,
    at: Timestamp,
    first: E,
    second: E,
)
    requires
        timeline.valid(),
        timeline.next_sequence + 1 < u64::MAX,
        timeline.now <= at,
    ensures
        ({
            let once = timeline.scheduled(at, first);
            let twice = once.scheduled(at, second);
            let p = Timeline::place(timeline.events, at);
            &&& Timeline::place(once.events, at) == p + 1
            &&& twice.events[p] == (ScheduledEvent {
                at,
                sequence: timeline.next_sequence,
                kind: first,
            })
            &&& twice.events[p + 1] == (ScheduledEvent {
                at,
                sequence: (timeline.next_sequence + 1) as u64,
                kind: second,
            })
        }),
{
    let once = timeline.scheduled(at, first);
    let p = Timeline::place(timeline.events, at);
    lemma_place(timeline.events, at);
    scheduling_keeps_order(timeline, at, first);
    lemma_place(once.events, at);
    let q = Timeline::place(once.events, at);
    assert(once.events[p].at == at);
    if p + 1 < once.events.len() {
        assert(once.events[p + 1] == timeline.events[p]);
    }
    if q <= p {
        assert(once.events[p].at > at);
    }
    if q > p + 1 {
        assert(once.events[p + 1].at <= at);
    }
}

/// What a handler stands for: what each event makes of it.
pub trait HandlerModel<E>: Sized {
    /// What handling an event makes of the handler and the timeline; `None` where
    /// the event cannot be handled.
    spec fn handled(self, event: E, timeline: Timeline<E>) -> Option<(Self, Timeline<E>)>;
}

/// A machine's dispatch target for due events.
///
/// The scheduler pops each due event and hands it to the handler along with a
/// [`EventContext`], through which the handler may schedule follow-up events -
/// including ones at the current timestamp, to model same-cycle cascades.
pub trait EventHandler<E> {
    /// What the handler stands for.
    type Model: HandlerModel<E>;

    /// The current state of the handler.
    spec fn model(&self) -> Self::Model;

    /// Handle one event.
    fn handle(&mut self, event: E, ctx: &mut EventContext<'_, E>)
        requires
            old(ctx).scheduler@.valid(),
            old(ctx).now == old(ctx).scheduler@.now,
            old(self).model().handled(event, old(ctx).scheduler@) is Some,
        ensures
            final(ctx).scheduler@.valid(),
            old(self).model().handled(event, old(ctx).scheduler@) == Some(
                (final(self).model(), final(ctx).scheduler@),
            ),
            *final(final(ctx).scheduler) == *final(old(ctx).scheduler),
    ;
}

/// The scheduler-level context passed to an [`EventHandler`]. Device-level
/// context (interrupt controller, bus, ...) is the handler's own state.
pub struct EventContext<'a, E> {
    pub now: Timestamp,
    pub scheduler: &'a mut Scheduler<E>,
}

/// The deterministic event queue and its position on the guest timeline.
#[derive(Clone, Debug)]
pub struct Scheduler<E> {
    now: Timestamp,
    next_sequence: u64,
    /// Pending events in dispatch order.
    events: Vec<ScheduledEvent<E>>,
}

impl<E> View for Scheduler<E> {
    type V = Timeline<E>;

    closed spec fn view(&self) -> Timeline<E> {
        Timeline { now: self.now, next_sequence: self.next_sequence, events: self.events@ }
    }
}

impl<E> Default for Scheduler<E> {
    fn default() -> (scheduler: Self)
        ensures
            scheduler@ == (Timeline { now: 0, next_sequence: 0, events: Seq::<ScheduledEvent<E>>::empty() }),
            scheduler@.valid(),
    {
        Self::new()
    }
}

/// Handler and timeline after dispatching due events, at most `fuel` of them;
/// `None` where more are due or one cannot be handled.
pub open spec fn drained<E, H: HandlerModel<E>>(
    handler: H,
    timeline: Timeline<E>,
    fuel: nat,
) -> Option<(H, Timeline<E>)>
    decreases fuel,
{
    if !timeline.due() {
        Some((handler, timeline))
    } else if fuel == 0 {
        None
    } else {
        match handler.handled(timeline.events[0].kind, timeline.popped()) {
            Some((next_handler, next_timeline)) => drained(
                next_handler,
                next_timeline,
                (fuel - 1) as nat,
            ),
            None => None,
        }
    }
}

/// The events dispatched on the way there, in order, each with the time it was
/// dispatched at.
pub open spec fn dispatched<E, H: HandlerModel<E>>(
    handler: H,
    timeline: Timeline<E>,
    fuel: nat,
) -> Seq<(Timestamp, E)>
    decreases fuel,
{
    if !timeline.due() || fuel == 0 {
        Seq::empty()
    } else {
        let first = seq![(timeline.now, timeline.events[0].kind)];
        match handler.handled(timeline.events[0].kind, timeline.popped()) {
            Some((next_handler, next_timeline)) => first + dispatched(
                next_handler,
                next_timeline,
                (fuel - 1) as nat,
            ),
            None => first,
        }
    }
}

/// Whether a hook was called with each of some dispatched events.
pub open spec fn announced<E, F: FnMut(Timestamp, &E)>(
    hook: F,
    events: Seq<(Timestamp, E)>,
) -> bool {
    forall|k: int|
        0 <= k < events.len() ==> hook.ensures(((#[trigger] events[k]).0, &events[k].1), ())
}

/// Whether dispatching due events comes to an end.
pub open spec fn settles<E, H: HandlerModel<E>>(handler: H, timeline: Timeline<E>) -> bool {
    exists|fuel: nat| #[trigger] drained(handler, timeline, fuel) is Some
}

/// Handler and timeline once no event is due any more.
pub open spec fn settled<E, H: HandlerModel<E>>(handler: H, timeline: Timeline<E>) -> (
    H,
    Timeline<E>,
) {
    let fuel = choose|fuel: nat| #[trigger] drained(handler, timeline, fuel) is Some;
    drained(handler, timeline, fuel)->0
}

proof fn lemma_drained_is_not_due<E, H: HandlerModel<E>>(
    handler: H,
    timeline: Timeline<E>,
    fuel: nat,
)
    ensures
        drained(handler, timeline, fuel) matches Some(after) ==> !after.1.due(),
    decreases fuel,
{
    if timeline.due() && fuel > 0 {
        if let Some((next_handler, next_timeline)) = handler.handled(
            timeline.events[0].kind,
            timeline.popped(),
        ) {
            lemma_drained_is_not_due(next_handler, next_timeline, (fuel - 1) as nat);
        }
    }
}

/// Events cannot be skipped: once dispatching has settled, no event is left that
/// is due at or before the current time.
pub proof fn no_due_event_is_left<E, H: HandlerModel<E>>(handler: H, timeline: Timeline<E>)
    requires
        settles(handler, timeline),
    ensures
        !settled(handler, timeline).1.due(),
{
    let fuel = choose|fuel: nat| #[trigger] drained(handler, timeline, fuel) is Some;
    lemma_drained_is_not_due(handler, timeline, fuel);
}

impl<E> Scheduler<E> {
    /// Create an empty scheduler positioned at time zero.
    pub fn new() -> (scheduler: Self)
        ensures
            scheduler@ == (Timeline { now: 0, next_sequence: 0, events: Seq::<ScheduledEvent<E>>::empty() }),
            scheduler@.valid(),
    {
        Scheduler { now: 0, next_sequence: 0, events: Vec::new() }
    }

    /// The current guest timestamp.
    pub fn now(&self) -> (now: Timestamp)
        ensures
            now == self@.now,
    {
        self.now
    }

    /// The timestamp of the earliest pending event, or `None` if the queue is
    /// empty. This is the deadline the CPU must not execute past. The event may
    /// turn out to be stale; that is resolved when it is dispatched, not here.
    pub fn next_deadline(&self) -> (deadline: Option<Timestamp>)
        ensures
            deadline == self@.deadline(),
    {
        if self.events.len() > 0 {
            Some(self.events[0].at)
        } else {
            None
        }
    }

    /// Schedule `kind` to fire at absolute time `at`, which is not in the past.
    pub fn schedule_at(&mut self, at: Timestamp, kind: E) -> (handle: EventHandle)
        requires
            old(self)@.valid(),
            old(self)@.can_schedule(at as int),
        ensures
            final(self)@ == old(self)@.scheduled(at, kind),
            final(self)@.valid(),
            handle == EventHandle(old(self)@.next_sequence),
            final(self)@.now == old(self)@.now,
            final(self)@.events.len() == old(self)@.events.len() + 1,
            final(self)@.deadline() == Some(
                match old(self)@.deadline() {
                    Some(deadline) => if deadline <= at {
                        deadline
                    } else {
                        at
                    },
                    None => at,
                },
            ),
    {
        proof {
            scheduling_adds_one_event(self@, at, kind);
            scheduling_keeps_order(self@, at, kind);
        }
        let sequence: u64 = self.next_sequence;
        self.next_sequence = sequence + 1;
        let mut position: usize = self.events.len();
        let ghost all = self.events@;
        assert(all.take(all.len() as int) =~= all);
        while position > 0 && self.events[position - 1].at > at
            invariant
                position <= all.len(),
                self.events@ == all,
                Timeline::place(all, at) == Timeline::place(all.take(position as int), at),
            decreases position,
        {
            proof {
                assert(all.take(position as int).drop_last() =~= all.take(position - 1));
                assert(all.take(position as int).last() == all[position - 1]);
            }
            position = position - 1;
        }
        proof {
            if position > 0 {
                assert(all.take(position as int).last() == all[position - 1]);
            }
        }
        self.events.insert(position, ScheduledEvent { at, sequence, kind });
        EventHandle(sequence)
    }

    /// Schedule `kind` to fire `delta` ticks from now. Time arithmetic is never
    /// silently wrapped.
    pub fn schedule_after(&mut self, delta: Timestamp, kind: E) -> (handle: EventHandle)
        requires
            old(self)@.valid(),
            old(self)@.can_schedule(old(self)@.now + delta),
        ensures
            final(self)@ == old(self)@.scheduled((old(self)@.now + delta) as u64, kind),
            final(self)@.valid(),
            handle == EventHandle(old(self)@.next_sequence),
    {
        let at: Timestamp = self.now + delta;
        self.schedule_at(at, kind)
    }

    /// Advance the current time to `now`.
    ///
    /// Time may not move backward during normal execution (checkpoint restore is
    /// a separate operation that replaces the whole scheduler). This is normally
    /// called with the CPU's timestamp after it runs to a deadline.
    pub fn set_now(&mut self, now: Timestamp)
        requires
            now >= old(self)@.now,
        ensures
            final(self)@ == (Timeline { now, ..old(self)@ }),
            old(self)@.valid() ==> final(self)@.valid(),
    {
        self.now = now;
    }

    /// Jump directly to the next event's time, returning it. Used when the CPU
    /// is halted and executes no instructions, so the timeline can still
    /// progress to the next hardware transition. Returns `None` if the queue is
    /// empty (nothing will ever wake the machine).
    pub fn advance_to_next_event(&mut self) -> (reached: Option<Timestamp>)
        requires
            old(self)@.deadline() matches Some(at) ==> at >= old(self)@.now,
        ensures
            reached == old(self)@.deadline(),
            final(self)@ == (match old(self)@.deadline() {
                Some(at) => Timeline { now: at, ..old(self)@ },
                None => old(self)@,
            }),
            old(self)@.valid() ==> final(self)@.valid(),
    {
        match self.next_deadline() {
            Some(at) => {
                self.set_now(at);
                Some(at)
            },
            None => None,
        }
    }

    /// Take the first event off the queue if it is due.
    fn pop_due(&mut self) -> (event: Option<E>)
        requires
            old(self)@.valid(),
        ensures
            final(self)@.valid(),
            match event {
                Some(kind) => old(self)@.due() && kind == old(self)@.events[0].kind
                    && final(self)@ == old(self)@.popped(),
                None => !old(self)@.due() && final(self)@ == old(self)@,
            },
    {
        if self.events.len() > 0 && self.events[0].at <= self.now {
            let ghost before = self@;
            let event = self.events.remove(0);
            proof {
                let after = before.popped();
                assert forall|i: int, j: int| 0 <= i < j < after.events.len() implies (
                #[trigger] after.events[i]).before(#[trigger] after.events[j]) by {
                    assert(before.events[i + 1].before(before.events[j + 1]));
                }
            }
            Some(event.kind)
        } else {
            None
        }
    }

    /// Dispatch every event due at the current time.
    ///
    /// All events with `at <= now` are handled. Dispatch may itself schedule new
    /// events at the current timestamp, and those are handled too before the
    /// method returns - the loop continues until no event remains at `now`. This
    /// is what makes same-cycle cascades (e.g. one timer overflow driving
    /// another) complete deterministically before the CPU resumes.
    pub fn run_due_events<H: EventHandler<E>>(&mut self, handler: &mut H)
        requires
            old(self)@.valid(),
            settles(old(handler).model(), old(self)@),
        ensures
            final(self)@.valid(),
            (final(handler).model(), final(self)@) == settled(old(handler).model(), old(self)@),
    {
        self.run_due_events_traced(handler, |_now: Timestamp, _event: &E| {});
    }

    /// Like [`Scheduler::run_due_events`], but calls `on_fire(now, &event)` for
    /// each event just before it is dispatched - a hook for tracing. The contract says
    /// that every dispatched event was handed to the hook with its time; that the call
    /// comes just before the dispatch is not part of it.
    pub fn run_due_events_traced<H, F>(&mut self, handler: &mut H, mut on_fire: F) where
        H: EventHandler<E>,
        F: FnMut(Timestamp, &E),

        requires
            old(self)@.valid(),
            settles(old(handler).model(), old(self)@),
            forall|now: Timestamp, event: &E| on_fire.requires((now, event)),
        ensures
            final(self)@.valid(),
            (final(handler).model(), final(self)@) == settled(old(handler).model(), old(self)@),
            exists|fuel: nat|
                #[trigger] drained(old(handler).model(), old(self)@, fuel) is Some && announced(
                    on_fire,
                    dispatched(old(handler).model(), old(self)@, fuel),
                ),
    {
        let ghost hook = on_fire;
        let ghost enough = choose|fuel: nat|
            #[trigger] drained(old(handler).model(), old(self)@, fuel) is Some;
        let ghost goal = settled(old(handler).model(), old(self)@);
        let ghost expected = dispatched(old(handler).model(), old(self)@, enough);
        let ghost mut fuel = enough;
        let ghost mut fired: Seq<(Timestamp, E)> = Seq::empty();
        assert(fired + expected =~= expected);
        loop
            invariant
                self@.valid(),
                drained(handler.model(), self@, fuel) == Some(goal),
                expected == fired + dispatched(handler.model(), self@, fuel),
                announced(hook, fired),
                on_fire == hook,
                forall|now: Timestamp, event: &E| on_fire.requires((now, event)),
            ensures
                self@.valid(),
                (handler.model(), self@) == goal,
                expected == fired,
                announced(hook, fired),
                on_fire == hook,
            decreases fuel,
        {
            let now: Timestamp = self.now;
            let ghost rest = dispatched(handler.model(), self@, fuel);
            match self.pop_due() {
                Some(kind) => {
                    on_fire(now, &kind);
                    proof {
                        let first = (now, kind);
                        assert(rest[0] == first);
                        assert(fired + rest =~= fired.push(first) + rest.skip(1));
                        fired = fired.push(first);
                    }
                    handler.handle(kind, &mut EventContext { now, scheduler: &mut *self });
                    proof {
                        fuel = (fuel - 1) as nat;
                        assert(rest.skip(1) =~= dispatched(handler.model(), self@, fuel));
                    }
                },
                None => {
                    assert(fired + rest =~= fired);
                    break ;
                },
            }
        }
        assert(announced(hook, dispatched(old(handler).model(), old(self)@, enough)));
    }

    /// The number of pending events, stale ones included.
    pub fn pending_count(&self) -> (count: usize)
        ensures
            count == self@.events.len(),
    {
        self.events.len()
    }
}

impl<E: Copy> Scheduler<E> {
    /// A chronologically sorted snapshot of the pending events, for inspection.
    /// Ordering matches dispatch order: by `at`, then insertion sequence.
    pub fn pending_events(&self) -> (events: Vec<ScheduledEvent<E>>)
        ensures
            events@ == self@.events,
    {
        let mut events: Vec<ScheduledEvent<E>> = Vec::new();
        let mut i: usize = 0;
        while i < self.events.len()
            invariant
                i <= self.events.len(),
                events@ == self.events@.take(i as int),
            decreases self.events.len() - i,
        {
            let event = &self.events[i];
            events.push(ScheduledEvent { at: event.at, sequence: event.sequence, kind: event.kind });
            proof {
                assert(self.events@.take(i + 1) =~= self.events@.take(i as int).push(
                    self.events@[i as int],
                ));
            }
            i = i + 1;
        }
        assert(self.events@.take(self.events.len() as int) =~= self.events@);
        events
    }
}

/// The event that is handled first is due no later than any other, and of those that are
/// due with it the first to have been scheduled; handling it starts from a timeline without
/// it, at the same time.
pub proof fn earliest_event_goes_first<E, H: HandlerModel<E>>(
    handler: H,
    timeline: Timeline<E>,
    fuel: nat,
    other: int,
)
    requires
        timeline.valid(),
        timeline.due(),
        0 < other < timeline.events.len(),
    ensures
        timeline.events[0].at <= timeline.events[other].at,
        timeline.events[0].at == timeline.events[other].at ==> timeline.events[0].sequence
            < timeline.events[other].sequence,
        timeline.popped().now == timeline.now,
        timeline.popped().events[other - 1] == timeline.events[other],
        timeline.popped().events.len() == timeline.events.len() - 1,
        fuel > 0 ==> dispatched(handler, timeline, fuel)[0] == (
            timeline.now,
            timeline.events[0].kind,
        ),
{
    assert(timeline.events[0].before(timeline.events[other]));
}

} // verus!
