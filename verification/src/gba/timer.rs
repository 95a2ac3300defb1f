//! The GBA's four timers.
//!
//! A timer counts up from its reload value, once per 1, 64, 256 or 1024 cycles, or
//! once per overflow of the timer before it (cascade). The counter is not advanced
//! cycle by cycle: it is derived from the time that passed since the timer was
//! last settled, and the overflow is predicted and scheduled as an event. A
//! reconfiguration bumps the timer's generation, which leaves the event that was
//! predicted for the old configuration stale.

use vstd::prelude::*;

use super::event::{EventKind, TimerEvent};
use super::interrupt::{InterruptController, IrqSource};
use crate::emu_core::scheduler::Timeline;
use crate::emu_core::{Scheduler, Timestamp};

verus! {

/// The control bits a timer has: prescaler, cascade, interrupt, enable.
pub const CONTROL_BITS: u16 = 0x00C7;

/// One of the four timers.
#[derive(Clone, Copy, Debug, PartialEq, Eq, Structural)]
pub enum TimerId {
    Timer0,
    Timer1,
    Timer2,
    Timer3,
}

impl TimerId {
    /// The timer with the given number.
    #[verifier::allow_in_spec]
    pub fn from_index(index: usize) -> TimerId
        returns
            (if index == 0 {
                TimerId::Timer0
            } else if index == 1 {
                TimerId::Timer1
            } else if index == 2 {
                TimerId::Timer2
            } else {
                TimerId::Timer3
            }),
    {
        match index {
            0 => TimerId::Timer0,
            1 => TimerId::Timer1,
            2 => TimerId::Timer2,
            _ => TimerId::Timer3,
        }
    }

    /// The timer's number.
    #[verifier::allow_in_spec]
    pub fn index(self) -> usize
        returns
            (match self {
                TimerId::Timer0 => 0usize,
                TimerId::Timer1 => 1usize,
                TimerId::Timer2 => 2usize,
                TimerId::Timer3 => 3usize,
            }),
    {
        match self {
            TimerId::Timer0 => 0,
            TimerId::Timer1 => 1,
            TimerId::Timer2 => 2,
            TimerId::Timer3 => 3,
        }
    }

    /// The interrupt source of the timer.
    #[verifier::allow_in_spec]
    pub fn irq_source(self) -> IrqSource
        returns
            (match self {
                TimerId::Timer0 => IrqSource::Timer0,
                TimerId::Timer1 => IrqSource::Timer1,
                TimerId::Timer2 => IrqSource::Timer2,
                TimerId::Timer3 => IrqSource::Timer3,
            }),
    {
        match self {
            TimerId::Timer0 => IrqSource::Timer0,
            TimerId::Timer1 => IrqSource::Timer1,
            TimerId::Timer2 => IrqSource::Timer2,
            TimerId::Timer3 => IrqSource::Timer3,
        }
    }

    /// The timer's bit in a set of timers.
    #[verifier::allow_in_spec]
    pub fn bit(self) -> u8
        returns
            (match self {
                TimerId::Timer0 => 1u8,
                TimerId::Timer1 => 2u8,
                TimerId::Timer2 => 4u8,
                TimerId::Timer3 => 8u8,
            }),
    {
        match self {
            TimerId::Timer0 => 1,
            TimerId::Timer1 => 2,
            TimerId::Timer2 => 4,
            TimerId::Timer3 => 8,
        }
    }
}

/// One timer: its registers, and the counter as it stood when last settled.
#[derive(Clone, Copy, Debug, PartialEq, Eq, Structural)]
pub struct Timer {
    pub reload: u16,
    pub control: u16,
    pub counter: u16,
    /// When `counter` was settled.
    pub since: Timestamp,
    pub generation: u32,
}

impl Timer {
    /// A stopped timer.
    #[verifier::allow_in_spec]
    pub fn stopped() -> Timer
        returns
            (Timer { reload: 0, control: 0, counter: 0, since: 0, generation: 0 }),
    {
        Timer { reload: 0, control: 0, counter: 0, since: 0, generation: 0 }
    }

    /// Whether the timer runs (control bit 7).
    #[verifier::allow_in_spec]
    pub fn enabled(&self) -> bool
        returns
            self.control & 0x80 != 0,
    {
        self.control & 0x80 != 0
    }

    /// Whether the timer is set to count the overflows of the one before it
    /// (control bit 2).
    #[verifier::allow_in_spec]
    pub fn cascade(&self) -> bool
        returns
            self.control & 0x04 != 0,
    {
        self.control & 0x04 != 0
    }

    /// Whether an overflow requests an interrupt (control bit 6).
    #[verifier::allow_in_spec]
    pub fn irq_on_overflow(&self) -> bool
        returns
            self.control & 0x40 != 0,
    {
        self.control & 0x40 != 0
    }

    /// Cycles per count (control bits 0-1).
    #[verifier::allow_in_spec]
    pub fn prescaler(&self) -> u64
        returns
            (if self.control & 3 == 0 {
                1u64
            } else if self.control & 3 == 1 {
                64u64
            } else if self.control & 3 == 2 {
                256u64
            } else {
                1024u64
            }),
    {
        match self.control & 3 {
            0 => 1,
            1 => 64,
            2 => 256,
            _ => 1024,
        }
    }

    /// Whether the timer, at place `id`, counts cycles. Timer 0 has no timer before
    /// it to cascade from.
    #[verifier::allow_in_spec]
    pub fn counts_cycles(&self, id: TimerId) -> bool
        returns
            self.enabled() && !(self.cascade() && id.index() > 0),
    {
        self.enabled() && !(self.cascade() && id.index() > 0)
    }

    /// The live counter at `now`.
    #[verifier::allow_in_spec]
    pub fn count_at(&self, id: TimerId, now: Timestamp) -> u16
        returns
            (if self.counts_cycles(id) && now >= self.since {
                ((self.counter + (now - self.since) / (self.prescaler() as int) % 0x1_0000)
                    % 0x1_0000) as u16
            } else {
                self.counter
            }),
    {
        if self.counts_cycles(id) && now >= self.since {
            let ticks: u64 = (now - self.since) / self.prescaler();
            ((self.counter as u64 + ticks % 0x1_0000) % 0x1_0000) as u16
        } else {
            self.counter
        }
    }

    /// When the counter, settled, wraps.
    pub open spec fn overflow_time(self) -> int {
        self.since + (0x1_0000 - self.counter) * self.prescaler()
    }

    /// The timeline with the timer's overflow predicted; `None` past the end of
    /// the timeline.
    pub open spec fn predicted(self, id: TimerId, timeline: Timeline<EventKind>) -> Option<
        Timeline<EventKind>,
    > {
        if !self.counts_cycles(id) {
            Some(timeline)
        } else if timeline.can_schedule(self.overflow_time()) {
            Some(
                timeline.scheduled(
                    self.overflow_time() as u64,
                    EventKind::Timer(
                        TimerEvent::Overflow { timer: id, generation: self.generation },
                    ),
                ),
            )
        } else {
            None
        }
    }

    /// Predict the timer's overflow, if it counts cycles.
    fn predict(&self, id: TimerId, scheduler: &mut Scheduler<EventKind>)
        requires
            old(scheduler)@.valid(),
            self.predicted(id, old(scheduler)@) is Some,
        ensures
            final(scheduler)@.valid(),
            self.predicted(id, old(scheduler)@) == Some(final(scheduler)@),
    {
        if self.counts_cycles(id) {
            let prescaler: u64 = self.prescaler();
            let left: u64 = 0x1_0000 - self.counter as u64;
            proof {
                assert(0 <= (0x1_0000 - self.counter) * prescaler <= 0x1_0000 * 1024)
                    by (nonlinear_arith)
                    requires
                        0 <= self.counter <= 0xFFFF,
                        prescaler <= 1024,
                ;
                assert(left * prescaler == (0x1_0000 - self.counter) * prescaler);
            }
            scheduler.schedule_at(
                self.since + left * prescaler,
                EventKind::Timer(TimerEvent::Overflow { timer: id, generation: self.generation }),
            );
        }
    }

    /// The timer after a control write at `now`. A start reloads the counter.
    pub open spec fn controlled(self, id: TimerId, value: u16, now: Timestamp) -> Timer {
        let control = value & CONTROL_BITS;
        Timer {
            control,
            counter: if control & 0x80 != 0 && !self.enabled() {
                self.reload
            } else {
                self.count_at(id, now)
            },
            since: now,
            generation: self.generation.wrapping_add(1),
            ..self
        }
    }

    /// The timer reloaded by an overflow at `now`.
    pub open spec fn reloaded(self, now: Timestamp) -> Timer {
        Timer { counter: self.reload, since: now, ..self }
    }
}

/// The four timers.
#[derive(Clone, Copy, Debug)]
pub struct Timers {
    pub timers: [Timer; 4],
}

impl Default for Timers {
    fn default() -> (timers: Self)
        ensures
            timers.timers@ == Timers::all_stopped(),
    {
        let timers = Timers {
            timers: [Timer::stopped(), Timer::stopped(), Timer::stopped(), Timer::stopped()],
        };
        assert(timers.timers@ =~= Timers::all_stopped());
        timers
    }
}

impl Timers {
    /// Four stopped timers.
    pub open spec fn all_stopped() -> Seq<Timer> {
        seq![Timer::stopped(), Timer::stopped(), Timer::stopped(), Timer::stopped()]
    }

    /// Four stopped timers.
    pub fn new() -> (timers: Self)
        ensures
            timers.timers@ == Timers::all_stopped(),
    {
        Self::default()
    }

    /// The interrupt controller after an overflow of a timer.
    pub open spec fn interrupted(timer: Timer, id: TimerId, irq: InterruptController) -> InterruptController {
        if timer.irq_on_overflow() {
            irq.requested(id.irq_source())
        } else {
            irq
        }
    }

    /// The timers from place `i` on after the timer before it overflowed at `now`:
    /// a cascaded timer counts one up, and if that wraps it, it is reloaded and the
    /// next one counts. Also the interrupt controller, and which timers wrapped.
    pub open spec fn cascaded(
        timers: Seq<Timer>,
        i: int,
        irq: InterruptController,
        now: Timestamp,
    ) -> (Seq<Timer>, InterruptController, u8)
        decreases 4 - i,
    {
        if i >= 4 || !timers[i].enabled() || !timers[i].cascade() {
            (timers, irq, 0u8)
        } else if timers[i].counter < 0xFFFF {
            (
                timers.update(
                    i,
                    Timer { counter: (timers[i].counter + 1) as u16, ..timers[i] },
                ),
                irq,
                0u8,
            )
        } else {
            let id = TimerId::from_index(i as usize);
            let (after, after_irq, fired) = Self::cascaded(
                timers.update(i, timers[i].reloaded(now)),
                i + 1,
                Self::interrupted(timers[i], id, irq),
                now,
            );
            (after, after_irq, fired | id.bit())
        }
    }

    /// The timers, interrupt controller and timeline after an overflow event, and
    /// which timers wrapped; `None` past the end of the timeline. A stale event
    /// changes nothing.
    pub open spec fn overflowed(
        timers: Seq<Timer>,
        event: TimerEvent,
        irq: InterruptController,
        timeline: Timeline<EventKind>,
    ) -> Option<(Seq<Timer>, InterruptController, Timeline<EventKind>, u8)> {
        let TimerEvent::Overflow { timer: id, generation } = event;
        let i = id.index() as int;
        if timers[i].generation != generation {
            Some((timers, irq, timeline, 0u8))
        } else {
            let reloaded = timers[i].reloaded(timeline.now);
            match reloaded.predicted(id, timeline) {
                Some(after_timeline) => {
                    let (after, after_irq, fired) = Self::cascaded(
                        timers.update(i, reloaded),
                        i + 1,
                        Self::interrupted(timers[i], id, irq),
                        timeline.now,
                    );
                    Some((after, after_irq, after_timeline, fired | id.bit()))
                },
                None => None,
            }
        }
    }

    /// Read a timer's reload value (the write side of `TMxCNT_L`).
    pub fn read_reload(&self, id: TimerId) -> (value: u16)
        ensures
            value == self.timers@[id.index() as int].reload,
    {
        self.timers[id.index()].reload
    }

    /// Write a timer's reload value. It takes effect when the timer next starts or
    /// wraps.
    pub fn write_reload(&mut self, id: TimerId, value: u16)
        ensures
            final(self).timers@ == old(self).timers@.update(
                id.index() as int,
                Timer { reload: value, ..old(self).timers@[id.index() as int] },
            ),
    {
        let mut timer = self.timers[id.index()];
        timer.reload = value;
        self.timers[id.index()] = timer;
    }

    /// Read the live counter at `now` (the read side of `TMxCNT_L`).
    pub fn read_counter(&self, id: TimerId, now: Timestamp) -> (value: u16)
        ensures
            value == self.timers@[id.index() as int].count_at(id, now),
    {
        self.timers[id.index()].count_at(id, now)
    }

    /// Read `TMxCNT_H`.
    pub fn read_control(&self, id: TimerId) -> (value: u16)
        ensures
            value == self.timers@[id.index() as int].control,
    {
        self.timers[id.index()].control
    }

    /// Write `TMxCNT_H` at `now`: settle the counter, take the new configuration,
    /// invalidate the overflow predicted for the old one, and predict the new one.
    pub fn write_control(
        &mut self,
        id: TimerId,
        value: u16,
        now: Timestamp,
        scheduler: &mut Scheduler<EventKind>,
    )
        requires
            old(scheduler)@.valid(),
            old(self).timers@[id.index() as int].controlled(id, value, now).predicted(
                id,
                old(scheduler)@,
            ) is Some,
        ensures
            final(scheduler)@.valid(),
            ({
                let timer = old(self).timers@[id.index() as int].controlled(id, value, now);
                &&& final(self).timers@ == old(self).timers@.update(id.index() as int, timer)
                &&& timer.predicted(id, old(scheduler)@) == Some(final(scheduler)@)
            }),
    {
        let mut timer = self.timers[id.index()];
        let was_enabled = timer.enabled();
        let settled: u16 = timer.count_at(id, now);
        timer.control = value & CONTROL_BITS;
        timer.counter = if timer.enabled() && !was_enabled {
            timer.reload
        } else {
            settled
        };
        timer.since = now;
        timer.generation = timer.generation.wrapping_add(1);
        self.timers[id.index()] = timer;
        timer.predict(id, scheduler);
    }

    /// Handle a predicted overflow: reload the timer, request its interrupt, predict
    /// the next overflow, and carry into the timers cascaded from it. Returns the
    /// set of timers that wrapped.
    pub fn handle_overflow(
        &mut self,
        event: TimerEvent,
        irq: &mut InterruptController,
        scheduler: &mut Scheduler<EventKind>,
    ) -> (fired: u8)
        requires
            old(scheduler)@.valid(),
            Timers::overflowed(old(self).timers@, event, *old(irq), old(scheduler)@) is Some,
        ensures
            final(scheduler)@.valid(),
            Timers::overflowed(old(self).timers@, event, *old(irq), old(scheduler)@) == Some(
                (final(self).timers@, *final(irq), final(scheduler)@, fired),
            ),
    {
        let TimerEvent::Overflow { timer: id, generation } = event;
        let mut timer = self.timers[id.index()];
        if timer.generation != generation {
            return 0;
        }
        let now: Timestamp = scheduler.now();
        timer.counter = timer.reload;
        timer.since = now;
        self.timers[id.index()] = timer;
        if timer.irq_on_overflow() {
            irq.request(id.irq_source());
        }
        timer.predict(id, scheduler);
        let carried: u8 = self.carry(id.index() + 1, irq, now);
        carried | id.bit()
    }

    /// Carry an overflow at `now` into the timers from place `i` on.
    fn carry(&mut self, i: usize, irq: &mut InterruptController, now: Timestamp) -> (fired: u8)
        requires
            i <= 4,
        ensures
            Timers::cascaded(old(self).timers@, i as int, *old(irq), now) == (
                final(self).timers@,
                *final(irq),
                fired,
            ),
        decreases 4 - i,
    {
        if i >= 4 || !self.timers[i].enabled() || !self.timers[i].cascade() {
            return 0;
        }
        let mut timer = self.timers[i];
        if timer.counter < 0xFFFF {
            timer.counter = timer.counter + 1;
            self.timers[i] = timer;
            return 0;
        }
        let id = TimerId::from_index(i);
        timer.counter = timer.reload;
        timer.since = now;
        self.timers[i] = timer;
        if timer.irq_on_overflow() {
            irq.request(id.irq_source());
        }
        let carried: u8 = self.carry(i + 1, irq, now);
        carried | id.bit()
    }
}

/// A reconfigured timer ignores the overflow that was predicted for its old
/// configuration.
pub proof fn reconfiguring_invalidates_the_pending_overflow(
    timers: Seq<Timer>,
    id: TimerId,
    value: u16,
    now: Timestamp,
    irq: InterruptController,
    timeline: Timeline<EventKind>,
)
    requires
        timers.len() == 4,
    ensures
        ({
            let i = id.index() as int;
            let stale = TimerEvent::Overflow { timer: id, generation: timers[i].generation };
            let after = timers.update(i, timers[i].controlled(id, value, now));
            Timers::overflowed(after, stale, irq, timeline) == Some((after, irq, timeline, 0u8))
        }),
{
}

/// A running timer reads its settled counter plus one count per prescaled cycle,
/// up to its overflow, and its overflow is predicted for the cycle at which the
/// counter has run out.
pub proof fn counter_runs_to_its_overflow(timer: Timer, id: TimerId, now: Timestamp)
    requires
        timer.counts_cycles(id),
        timer.since <= now < timer.overflow_time(),
    ensures
        timer.count_at(id, now) == timer.counter + (now - timer.since) / (timer.prescaler() as int),
        timer.counter <= timer.count_at(id, now) <= 0xFFFF,
{
    let p = timer.prescaler() as int;
    let elapsed = now - timer.since;
    let left = 0x1_0000 - timer.counter;
    assert(0 <= elapsed / p < left) by (nonlinear_arith)
        requires
            0 <= elapsed < left * p,
            p > 0,
    ;
}

/// The counting rates: control bits 0 and 1 choose one count per 1, 64, 256 or 1024
/// cycles; bit 2 makes a timer count the overflows of the one before it instead, but
/// the first timer has none before it; bit 7 lets it count at all.
pub proof fn control_chooses_the_rate(timer: Timer, id: TimerId)
    ensures
        timer.control & 3 == 0 ==> timer.prescaler() == 1,
        timer.control & 3 == 1 ==> timer.prescaler() == 64,
        timer.control & 3 == 2 ==> timer.prescaler() == 256,
        timer.control & 3 == 3 ==> timer.prescaler() == 1024,
        timer.counts_cycles(id) == (timer.control & 0x80 != 0 && (timer.control & 0x04 == 0 || id
            == TimerId::Timer0)),
{
    crate::bits::lemma_low_bits_u16(timer.control);
}

/// A counting timer counts once per prescaled cycle, modulo 2^16: one prescaler's worth
/// of cycles later it reads one more.
pub proof fn counter_ticks(timer: Timer, id: TimerId, now: Timestamp)
    requires
        timer.counts_cycles(id),
        timer.since <= now,
        now + timer.prescaler() <= u64::MAX,
    ensures
        timer.count_at(id, timer.since) == timer.counter,
        timer.count_at(id, (now + timer.prescaler()) as u64) == (timer.count_at(id, now) + 1)
            % 0x1_0000,
{
    let p = timer.prescaler() as int;
    let elapsed = now - timer.since;
    assert((elapsed + p) / p == elapsed / p + 1) by (nonlinear_arith)
        requires
            p > 0,
            elapsed >= 0,
    ;
    assert(0int / p == 0) by (nonlinear_arith)
        requires
            p > 0,
    ;
}

/// A timer that does not count cycles stands still between overflows.
pub proof fn stopped_counter_stands_still(timer: Timer, id: TimerId, now: Timestamp)
    requires
        !timer.counts_cycles(id),
    ensures
        timer.count_at(id, now) == timer.counter,
{
}

/// Switching a timer on starts it from its reload value; rewriting the control of a
/// timer that is on, or switching it off, keeps its count. Only bits 0 to 2, 6 and 7
/// of the control are kept.
pub proof fn enabling_starts_from_the_reload(
    timer: Timer,
    id: TimerId,
    value: u16,
    now: Timestamp,
)
    ensures
        ({
            let after = timer.controlled(id, value, now);
            &&& after.control == value & 0x00C7
            &&& after.reload == timer.reload
            &&& after.since == now
            &&& timer.control & 0x80 == 0 && after.control & 0x80 != 0 ==> after.counter
                == timer.reload
            &&& timer.control & 0x80 != 0 || after.control & 0x80 == 0 ==> after.counter
                == timer.count_at(id, now)
            &&& after.generation != timer.generation
        }),
{
}

/// An overflow takes the counter back to the reload value and, in a timer that counts
/// cycles, predicts the next one for when it has counted from there to 2^16.
pub proof fn overflow_reloads(
    timers: Seq<Timer>,
    id: TimerId,
    irq: InterruptController,
    timeline: Timeline<EventKind>,
)
    requires
        timers.len() == 4,
        ({
            let i = id.index() as int;
            let event = TimerEvent::Overflow { timer: id, generation: timers[i].generation };
            Timers::overflowed(timers, event, irq, timeline) is Some
        }),
    ensures
        ({
            let i = id.index() as int;
            let event = TimerEvent::Overflow { timer: id, generation: timers[i].generation };
            let (after, after_irq, after_timeline, fired) = Timers::overflowed(
                timers,
                event,
                irq,
                timeline,
            )->0;
            &&& after[i].counter == timers[i].reload
            &&& after[i].since == timeline.now
            &&& after[i].overflow_time() == timeline.now + (0x1_0000 - timers[i].reload)
                * timers[i].prescaler()
            &&& forall|k: int| 0 <= k < i ==> after[k] == timers[k]
            &&& timers[i].counts_cycles(id) ==> after_timeline == timeline.scheduled(
                after[i].overflow_time() as u64,
                EventKind::Timer(event),
            )
        }),
{
    let i = id.index() as int;
    let reloaded = timers[i].reloaded(timeline.now);
    lemma_cascade_keeps_earlier(
        timers.update(i, reloaded),
        i + 1,
        Timers::interrupted(timers[i], id, irq),
        timeline.now,
    );
}

proof fn lemma_cascade_keeps_earlier(
    timers: Seq<Timer>,
    i: int,
    irq: InterruptController,
    now: Timestamp,
)
    requires
        timers.len() == 4,
        0 <= i,
    ensures
        Timers::cascaded(timers, i, irq, now).0.len() == 4,
        forall|k: int|
            0 <= k < i && k < 4 ==> #[trigger] Timers::cascaded(timers, i, irq, now).0[k]
                == timers[k],
    decreases 4 - i,
{
    if i < 4 && timers[i].enabled() && timers[i].cascade() && timers[i].counter == 0xFFFF {
        let id = TimerId::from_index(i as usize);
        lemma_cascade_keeps_earlier(
            timers.update(i, timers[i].reloaded(now)),
            i + 1,
            Timers::interrupted(timers[i], id, irq),
            now,
        );
    }
}

/// A cascading timer counts each overflow of the timer before it once; at 2^16 it is
/// reloaded, asks for its interrupt where control bit 6 says so, and passes the
/// overflow on. A timer that does not cascade, or is off, hears of none.
pub proof fn overflows_cascade(timers: Seq<Timer>, i: int, irq: InterruptController, now: Timestamp)
    requires
        timers.len() == 4,
        0 < i < 4,
    ensures
        ({
            let (after, after_irq, fired) = Timers::cascaded(timers, i, irq, now);
            let listening = timers[i].control & 0x80 != 0 && timers[i].control & 0x04 != 0;
            &&& !listening ==> after == timers && after_irq == irq && fired == 0
            &&& listening && timers[i].counter < 0xFFFF ==> after[i].counter == timers[i].counter
                + 1 && after_irq == irq && fired == 0
            &&& listening && timers[i].counter == 0xFFFF ==> {
                let passed = Timers::cascaded(
                    timers.update(
                        i,
                        Timer { counter: timers[i].reload, since: now, ..timers[i] },
                    ),
                    i + 1,
                    if timers[i].control & 0x40 != 0 {
                        InterruptController {
                            iflags: irq.iflags | (if i == 1 {
                                0x0010u16
                            } else if i == 2 {
                                0x0020
                            } else {
                                0x0040
                            }),
                            ..irq
                        }
                    } else {
                        irq
                    },
                    now,
                );
                &&& after == passed.0
                &&& after_irq == passed.1
                &&& after[i].counter == timers[i].reload
                &&& fired == passed.2 | (if i == 1 {
                    2u8
                } else if i == 2 {
                    4
                } else {
                    8
                })
            }
        }),
{
    if timers[i].counter == 0xFFFF {
        let id = TimerId::from_index(i as usize);
        lemma_cascade_keeps_earlier(
            timers.update(i, timers[i].reloaded(now)),
            i + 1,
            Timers::interrupted(timers[i], id, irq),
            now,
        );
    }
}

/// The first overflow asks for the interrupt of its timer, bits 3 to 6 of `IF` in the
/// order of the timers, where control bit 6 says so.
pub proof fn overflow_interrupts(timer: Timer, id: TimerId, irq: InterruptController)
    ensures
        timer.control & 0x40 == 0 ==> Timers::interrupted(timer, id, irq) == irq,
        timer.control & 0x40 != 0 ==> Timers::interrupted(timer, id, irq) == (InterruptController {
            iflags: irq.iflags | (match id {
                TimerId::Timer0 => 0x0008u16,
                TimerId::Timer1 => 0x0010,
                TimerId::Timer2 => 0x0020,
                TimerId::Timer3 => 0x0040,
            }),
            ..irq
        }),
{
}

} // verus!
