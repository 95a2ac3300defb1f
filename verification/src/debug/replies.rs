//! Laws of the replies: how what one command does shows in what another tells.

use vstd::prelude::*;

use super::answers::cpu::{lists_code, lists_frames, sets_register, tells_registers};
use super::answers::devices::{sets_key, takes_audio, tells_events, tells_interrupts};
use super::answers::memory::{tells_half, tells_word};
use super::answers::watch::{reports_watch, switches_watch};
use super::readout;
use super::request::Command;
use super::session::{Probes, Reply, Summary};
use crate::emu_core::AccessWidth;
use crate::gba::keypad::Key;
use crate::gba::system::System;
use crate::text;

verus! {

/// A register that was set is told as it was set, and the other fifteen as they were.
pub proof fn set_registers_are_told(
    was: System,
    is: System,
    done: Reply,
    index: u32,
    value: u32,
    later: System,
    told: Reply,
    core: u64,
    i: int,
)
    requires
        sets_register(was, is, done, index, value),
        tells_registers(is, later, told, core),
        0 <= i < 16,
        was.cpu@.r.len() == 16,
    ensures
        later == is,
        told matches Reply::Registers { r, .. } && r@[i] == (if i == index {
            value
        } else {
            was.cpu@.r[i]
        }),
{
    reveal(sets_register);
    reveal(tells_registers);
}

/// The program counter and the stack pointer of a call stack are registers 15 and 13, the
/// latter rounded down to a word.
pub proof fn call_stack_starts_at_the_stack_pointer(
    was: System,
    is: System,
    reply: Reply,
    top: u32,
)
    requires
        lists_frames(was, is, reply, top),
    ensures
        reply matches Reply::CallStack { pc, sp, frames } && {
            &&& pc == was.cpu@.r[15]
            &&& sp % 4 == 0 && sp <= was.cpu@.r[13] < sp + 4
            &&& frames@.len() <= 48
            &&& forall|i: int| 0 <= i < frames@.len() ==> sp <= (#[trigger] frames@[i]).sp < top
        },
{
    reveal(lists_frames);
    let low = (was.cpu@.r[13] - was.cpu@.r[13] % 4) as u32;
    super::laws::frames_are_return_addresses(was, low as int, top as int, 48);
}

/// Code is listed in the state that is asked for, or else in that of the processor.
pub proof fn listing_state(
    was: System,
    is: System,
    reply: Reply,
    addr: u32,
    count: u32,
    asked: Option<bool>,
)
    requires
        lists_code(was, is, reply, addr, count, asked),
    ensures
        reply matches Reply::Listing { thumb, lines } && {
            &&& asked is Some ==> thumb == asked->0
            &&& asked is None ==> thumb == was.cpu@.cpsr.thumb()
            &&& lines@.len() == count
            &&& count > 0 ==> lines@[0].addr == addr
        },
{
    reveal(lists_code);
    super::laws::listing_goes_instruction_by_instruction(addr, 0, true);
    super::laws::listing_goes_instruction_by_instruction(addr, 0, false);
}

/// Values are told as the memory holds them, halfwords within sixteen bits, and telling
/// them changes nothing: the same question has the same answer.
pub proof fn values_are_told_twice_alike(
    was: System,
    is: System,
    first: Reply,
    later: System,
    second: Reply,
    addr: u32,
)
    ensures
        tells_word(was, is, first, addr) && tells_word(was, later, second, addr) ==> first
            == second && first == Reply::Value(
            readout::value_at(was, addr, AccessWidth::Word),
        ),
        tells_half(was, is, first, addr) && tells_half(was, later, second, addr) ==> first == second
            && first is Value && first->Value_0 < 0x1_0000 && (readout::value_at(
            was,
            addr,
            AccessWidth::Half,
        ) < 0x1_0000 ==> first->Value_0 == readout::value_at(was, addr, AccessWidth::Half)),
{
    reveal(tells_word);
    reveal(tells_half);
}

/// The pending events are told with the time of each, in the order in which they are due.
pub proof fn events_are_told(was: System, is: System, reply: Reply, i: int)
    requires
        tells_events(was, is, reply),
        0 <= i < was.scheduler@.events.len(),
    ensures
        reply matches Reply::Events { now, count, events } && {
            &&& now == was.scheduler@.now
            &&& count == was.scheduler@.events.len() && events@.len() == count
            &&& events@[i].0 == was.scheduler@.events[i].at
            &&& events@[i].1 == was.scheduler@.events[i].kind
        },
{
    reveal(tells_events);
}

/// The interrupt state is told field by field; the line is asserted only while the master
/// switch is on and an enabled source is flagged.
pub proof fn interrupts_are_told(was: System, is: System, reply: Reply, core: u64)
    requires
        tells_interrupts(was, is, reply, core),
    ensures
        reply matches Reply::Interrupts {
            core: c,
            enabled,
            flags,
            master_enable,
            pending,
            line_asserted,
        } && {
            let irq = was.gba.bus@.io.irq;
            &&& c == core
            &&& enabled == irq.ie && flags == irq.iflags && master_enable == irq.ime
            &&& (pending <==> irq.ie & irq.iflags != 0)
            &&& (line_asserted <==> master_enable && pending)
        },
{
    reveal(tells_interrupts);
    crate::gba::interrupt::line_needs_enable_and_request(was.gba.bus@.io.irq);
}

/// A key that was pressed is held, and one that was released is not; no other key moves.
pub proof fn set_keys_are_held(
    was: System,
    is: System,
    reply: Reply,
    key: Key,
    pressed: bool,
    other: Key,
)
    requires
        sets_key(was, is, reply, key, pressed),
    ensures
        (is.keypad.pressed & key.bit() != 0) == pressed,
        other != key ==> (is.keypad.pressed & other.bit() != 0) == (was.keypad.pressed
            & other.bit() != 0),
        is.gba == was.gba && is.cpu == was.cpu && is.scheduler == was.scheduler,
{
    reveal(sets_key);
    crate::gba::keypad::keyinput_is_active_low(was.keypad, key, pressed, other);
}

/// Sound that was taken is gone: taking it again gives nothing.
pub proof fn taken_audio_is_gone(
    was: System,
    is: System,
    first: Reply,
    later: System,
    second: Reply,
)
    requires
        takes_audio(was, is, first),
        takes_audio(is, later, second),
    ensures
        first matches Reply::Audio(levels) && levels@ == was.gba.bus@.io.apu.buffer,
        second matches Reply::Audio(levels) && levels@.len() == 0,
{
    reveal(takes_audio);
}

/// A watch that was switched on has counted nothing yet, one that was switched off reports
/// that it is off, and the other watch is not touched.
pub proof fn switched_watches_report(
    was: Probes,
    is: Probes,
    done: Reply,
    enable: bool,
    reads: bool,
    reply: Reply,
    top: u64,
)
    requires
        switches_watch(was, is, done, enable, reads),
        reports_watch(is, reply, top, reads),
    ensures
        !enable ==> reply is NotWatching,
        enable ==> (reply matches Reply::Counts(entries) && entries@.len() == 0),
        reads ==> is.write_watch == was.write_watch,
        !reads ==> is.read_watch == was.read_watch,
{
    reveal(switches_watch);
    reveal(reports_watch);
    if enable {
        let counts = Map::<u32, u64>::empty();
        assert forall|entries: Seq<(u32, u64)>, n: nat|
            super::counts::is_top(entries, counts, n) implies entries.len() == 0 by {
            if entries.len() > 0 {
                let first = entries[0];
                assert(counts.dom().contains(first.0));
            }
        }
    }
}

/// Registers past the fifteenth and pixels outside the picture are refused; nothing else
/// is.
pub proof fn refusals(command: Command)
    ensures
        match command {
            Command::SetRegister { index, .. } => {
                &&& (command.refusal() is Some <==> index > 15)
                &&& index > 15 ==> command.refusal()->0 == "no such register: "@ + text::numeral(
                    index as nat,
                    10,
                )
            },
            Command::ExplainPixel { x, y, .. } => command.refusal() is Some <==> x > 239 || y > 159,
            _ => command.refusal() is None,
        },
{
}

/// The summary of a machine: its frame, its program counter and its video mode.
pub proof fn summary_fields(system: System)
    ensures
        ({
            let summary = Summary::of(system);
            let video = system.gba.bus@.io.video;
            &&& summary.frame == video.frame_counter
            &&& summary.pc == system.cpu@.r[15]
            &&& summary.video_mode == video.registers.dispcnt as int % 8
            &&& summary.console is Gba
        }),
{
}

} // verus!
