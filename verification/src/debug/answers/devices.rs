//! Answers about the timeline, the interrupts, the keys and the sound.

use vstd::prelude::*;

use crate::debug::readout;
use crate::debug::session::Reply;
use crate::gba::apu::ApuState;
use crate::gba::bus::BusState;
use crate::gba::io::IoState;
use crate::gba::keypad::Key;
use crate::gba::system::System;

verus! {

/// The timeline is told.
#[verifier::opaque]
pub open spec fn tells_events(was: System, is: System, reply: Reply) -> bool {
    &&& is == was
    &&& reply matches Reply::Events { now, count, events }
    &&& now == was.scheduler@.now && count == was.scheduler@.events.len()
    &&& events@ == readout::listed(was.scheduler@.events)
}

/// The interrupt controller is told.
#[verifier::opaque]
pub open spec fn tells_interrupts(was: System, is: System, reply: Reply, core: u64) -> bool {
    let bus = was.gba.bus@;
    &&& is == was
    &&& reply == (Reply::Interrupts {
        core,
        enabled: bus.io.irq.ie as u32,
        flags: bus.io.irq.iflags as u32,
        master_enable: bus.io.irq.ime,
        pending: bus.io.irq.pending(),
        line_asserted: bus.io.irq.line_asserted(),
    })
}

/// A key is pressed or released.
#[verifier::opaque]
pub open spec fn sets_key(was: System, is: System, reply: Reply, key: Key, pressed: bool) -> bool {
    &&& reply is Done
    &&& is == (System { keypad: was.keypad.with_key(key, pressed), ..was })
}

/// The generated levels are told, and taken away.
#[verifier::opaque]
pub open spec fn takes_audio(was: System, is: System, reply: Reply) -> bool {
    let bus = was.gba.bus@;
    &&& is.same_but_bus(was)
    &&& is.gba.bus@ == (BusState {
        io: IoState {
            apu: ApuState { buffer: Seq::empty(), ..bus.io.apu },
            ..bus.io
        },
        ..bus
    })
    &&& reply matches Reply::Audio(levels)
    &&& levels@ == bus.io.apu.buffer
}

/// `scheduler.pendingEvents`
pub fn pending_events(system: &mut System) -> (reply: Reply)
    requires
        old(system).valid(),
    ensures
        final(system).valid(),
        tells_events(*old(system), *final(system), reply),
{
    reveal(tells_events);
    let scheduler = &system.scheduler;
    Reply::Events {
        now: scheduler.now(),
        count: scheduler.pending_count(),
        events: readout::event_list(scheduler),
    }
}

/// `interrupts.state`
pub fn interrupt_state(system: &mut System, core: u64) -> (reply: Reply)
    requires
        old(system).valid(),
    ensures
        final(system).valid(),
        tells_interrupts(*old(system), *final(system), reply, core),
{
    reveal(tells_interrupts);
    let irq = &system.gba.bus.io.irq;
    Reply::Interrupts {
        core,
        enabled: irq.ie() as u32,
        flags: irq.iflags() as u32,
        master_enable: irq.ime(),
        pending: irq.pending(),
        line_asserted: irq.line_asserted(),
    }
}

/// `input.set`
pub fn set_key(system: &mut System, key: Key, pressed: bool) -> (reply: Reply)
    requires
        old(system).valid(),
    ensures
        final(system).valid(),
        sets_key(*old(system), *final(system), reply, key, pressed),
{
    reveal(System::valid);
    reveal(sets_key);
    system.set_key(key, pressed);
    Reply::Done
}

/// `audio.take`
pub fn take_audio(system: &mut System) -> (reply: Reply)
    requires
        old(system).valid(),
    ensures
        final(system).valid(),
        takes_audio(*old(system), *final(system), reply),
{
    reveal(takes_audio);
    Reply::Audio(system.take_audio())
}

} // verus!
