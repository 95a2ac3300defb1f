use rewinds::emu_core::{Scheduler, Timestamp};
use rewinds::gba::event::EventKind;
use rewinds::gba::machine::Gba;
use rewinds::gba::timer::TimerId;
use rewinds::gba::IrqSource;

/// Drive the scheduler like the machine loop, up to and including `limit`.
fn run_until(scheduler: &mut Scheduler<EventKind>, gba: &mut Gba, limit: Timestamp) {
    while let Some(deadline) = scheduler.next_deadline() {
        if deadline > limit {
            break;
        }
        scheduler.set_now(deadline);
        scheduler.run_due_events(gba);
    }
}

#[test]
fn timer_overflow_requests_irq_and_reloads() {
    let mut sched = Scheduler::new();
    let mut gba = Gba::new();
    gba.bus.io.irq.set_ie(IrqSource::Timer0.mask());
    gba.bus.io.irq.set_ime(true);

    // Overflow every 10 cycles (reload 0xFFF6), prescaler F/1, IRQ on.
    gba.bus.io.timers.write_reload(TimerId::Timer0, 0xFFF6);
    gba.bus
        .io
        .timers
        .write_control(TimerId::Timer0, (1 << 7) | (1 << 6), 0, &mut sched);
    assert_eq!(sched.next_deadline(), Some(10));

    run_until(&mut sched, &mut gba, 10);
    assert!(gba.bus.io.irq.line_asserted());
    assert_eq!(gba.bus.io.irq.iflags(), IrqSource::Timer0.mask());
    assert_eq!(gba.bus.io.timers.read_counter(TimerId::Timer0, 10), 0xFFF6);
    assert_eq!(sched.next_deadline(), Some(20));
}

#[test]
fn disabling_invalidates_the_pending_overflow() {
    let mut sched = Scheduler::new();
    let mut gba = Gba::new();
    gba.bus.io.irq.set_ie(0xFFFF);
    gba.bus.io.irq.set_ime(true);

    gba.bus.io.timers.write_reload(TimerId::Timer0, 0xFF00); // overflow at 256
    gba.bus
        .io
        .timers
        .write_control(TimerId::Timer0, (1 << 7) | (1 << 6), 0, &mut sched);

    // Stop the timer partway; its generation bumps, so the queued overflow
    // at 256 is now stale.
    sched.set_now(100);
    gba.bus
        .io
        .timers
        .write_control(TimerId::Timer0, 0, 100, &mut sched);

    run_until(&mut sched, &mut gba, 1000);
    assert!(!gba.bus.io.irq.pending());
}

#[test]
fn rescheduling_later_leaves_a_harmless_phantom_deadline() {
    // Cancellation is generation-based: a reconfigured timer's old event
    // stays queued but is ignored. Reschedule a timer to a *later* overflow
    // so its stale event is an earlier phantom deadline — we still stop at
    // it (never run past), but it does nothing.
    let mut sched = Scheduler::new();
    let mut gba = Gba::new();
    gba.bus.io.irq.set_ie(0xFFFF);
    gba.bus.io.irq.set_ime(true);

    // Overflow at 256.
    gba.bus.io.timers.write_reload(TimerId::Timer0, 0xFF00);
    gba.bus
        .io
        .timers
        .write_control(TimerId::Timer0, (1 << 7) | (1 << 6), 0, &mut sched);
    assert_eq!(sched.next_deadline(), Some(256));

    // At t=100, reconfigure so the real overflow is at 612 (512 ticks). The
    // old 256 event is now stale but still in the queue.
    sched.set_now(100);
    gba.bus.io.timers.write_reload(TimerId::Timer0, 0xFE00); // 0x10000 - 0xFE00 = 512
    gba.bus
        .io
        .timers
        .write_control(TimerId::Timer0, 0, 100, &mut sched); // stop -> bump generation
    gba.bus
        .io
        .timers
        .write_control(TimerId::Timer0, (1 << 7) | (1 << 6), 100, &mut sched); // restart
    assert_eq!(sched.next_deadline(), Some(256)); // the stale event is still the earliest

    // Reaching 256 dispatches the stale event, which is ignored.
    run_until(&mut sched, &mut gba, 256);
    assert!(!gba.bus.io.irq.pending());
    // The real overflow fires at 612.
    run_until(&mut sched, &mut gba, 612);
    assert_ne!(gba.bus.io.irq.iflags() & IrqSource::Timer0.mask(), 0);
}

#[test]
fn cascade_overflow_propagates_at_one_instant() {
    let mut sched = Scheduler::new();
    let mut gba = Gba::new();
    gba.bus.io.irq.set_ie(0xFFFF);
    gba.bus.io.irq.set_ime(true);

    gba.bus.io.timers.write_reload(TimerId::Timer0, 0xFFFC); // overflow every 4
    gba.bus
        .io
        .timers
        .write_control(TimerId::Timer0, 1 << 7, 0, &mut sched);
    gba.bus.io.timers.write_reload(TimerId::Timer1, 0xFFFE);
    gba.bus.io.timers.write_control(
        TimerId::Timer1,
        (1 << 7) | (1 << 2) | (1 << 6),
        0,
        &mut sched,
    );

    run_until(&mut sched, &mut gba, 4);
    assert_eq!(gba.bus.io.timers.read_counter(TimerId::Timer1, 4), 0xFFFF);
    assert!(!gba.bus.io.irq.pending());

    run_until(&mut sched, &mut gba, 8);
    assert_eq!(gba.bus.io.timers.read_counter(TimerId::Timer1, 8), 0xFFFE);
    assert_ne!(gba.bus.io.irq.iflags() & IrqSource::Timer1.mask(), 0);
}
