//! Laws of the debugger: what names, listings and searches tell of the machine.

use vstd::prelude::*;

use super::counts;
use super::readout::{self, StackFrame};
use super::request::{Command, Fields};
use super::run::{RunStep, RunTask};
use super::session::{Probes, Reply};
use crate::emu_core::AccessWidth;
use crate::gba::keypad::Key;
use crate::gba::system::System;

verus! {

/// A region is named after what lies in that part of the address space.
pub proof fn region_names(addr: u32)
    ensures
        addr < 0x0100_0000 ==> readout::region_name(addr) == "bios"@,
        0x0200_0000 <= addr < 0x0300_0000 ==> readout::region_name(addr) == "ewram"@,
        0x0300_0000 <= addr < 0x0400_0000 ==> readout::region_name(addr) == "iwram"@,
        0x0400_0000 <= addr < 0x0500_0000 ==> readout::region_name(addr) == "io"@,
        0x0500_0000 <= addr < 0x0600_0000 ==> readout::region_name(addr) == "palette"@,
        0x0600_0000 <= addr < 0x0700_0000 ==> readout::region_name(addr) == "vram"@,
        0x0700_0000 <= addr < 0x0800_0000 ==> readout::region_name(addr) == "oam"@,
        0x0800_0000 <= addr < 0x0E00_0000 ==> readout::region_name(addr) == "rom"@,
        0x0E00_0000 <= addr < 0x1000_0000 ==> readout::region_name(addr) == "sram"@,
        0x0100_0000 <= addr < 0x0200_0000 || addr >= 0x1000_0000 ==> readout::region_name(addr)
            == "open"@,
{
}

/// A listing starts at its address, and each line follows the one before it by one
/// instruction: two bytes in Thumb state and four in ARM state.
pub proof fn listing_goes_instruction_by_instruction(addr: u32, i: int, thumb: bool)
    requires
        0 <= i < 0x4000_0000,
    ensures
        readout::line_addr(addr, 0, thumb) == addr,
        ({
            let size: int = if thumb {
                2
            } else {
                4
            };
            let here = readout::line_addr(addr, i, thumb);
            let next = readout::line_addr(addr, i + 1, thumb);
            next == (here + size) % 0x1_0000_0000
        }),
{
}

/// The frames of a call stack lie on the stack in ascending order, one word apart or
/// more, and each names an odd ROM address that was found there, without its low bit.
pub proof fn frames_are_return_addresses(system: System, a: int, top: int, room: int)
    requires
        0 <= a,
        top <= 0xFFFF_FFFF,
    ensures
        ({
            let frames = readout::frames_from(system, a, top, room);
            &&& frames.len() <= if room > 0 {
                room
            } else {
                0
            }
            &&& forall|i: int|
                0 <= i < frames.len() ==> {
                    let frame: StackFrame = #[trigger] frames[i];
                    let word = readout::value_at(system, frame.sp, AccessWidth::Word);
                    &&& a <= frame.sp < top
                    &&& (frame.sp - a) % 4 == 0
                    &&& 0x0800_0000 <= word < 0x0A00_0000
                    &&& word % 2 == 1
                    &&& frame.addr + 1 == word
                }
            &&& forall|i: int, j: int|
                0 <= i < j < frames.len() ==> (#[trigger] frames[i]).sp < (#[trigger] frames[j]).sp
        }),
    decreases top + 4 - a,
{
    if a < top && room > 0 {
        frames_are_return_addresses(system, a + 4, top, room - 1);
        frames_are_return_addresses(system, a + 4, top, room);
    }
}

/// No return address is passed over while there is room: a stack word that looks like
/// one is among the frames, unless the list is full.
pub proof fn frames_are_complete(system: System, a: int, top: int, room: int, at: int)
    requires
        0 <= a <= at < top <= 0xFFFF_FFFF,
        (at - a) % 4 == 0,
        ({
            let word = readout::value_at(system, at as u32, AccessWidth::Word);
            0x0800_0000 <= word < 0x0A00_0000 && word % 2 == 1
        }),
        readout::frames_from(system, a, top, room).len() < room,
    ensures
        exists|i: int|
            0 <= i < readout::frames_from(system, a, top, room).len() && (
            #[trigger] readout::frames_from(system, a, top, room)[i]).sp == at,
    decreases at - a,
{
    let frames = readout::frames_from(system, a, top, room);
    if a == at {
        assert(frames[0].sp == at);
    } else {
        let word = readout::value_at(system, a as u32, AccessWidth::Word);
        if readout::is_return_address(word) {
            let rest = readout::frames_from(system, a + 4, top, room - 1);
            assert(frames.len() == rest.len() + 1);
            frames_are_complete(system, a + 4, top, room - 1, at);
            let i = choose|i: int| 0 <= i < rest.len() && (#[trigger] rest[i]).sp == at;
            assert(frames[i + 1] == rest[i]);
        } else {
            frames_are_complete(system, a + 4, top, room, at);
        }
    }
}

/// The samples that sound are counted one by one: silence adds nothing, anything else
/// adds one, and the halves of a recording add up.
pub proof fn sounding_samples_add_up(first: Seq<i16>, second: Seq<i16>, sample: i16)
    ensures
        readout::sounding(Seq::<i16>::empty()) == 0,
        readout::sounding(first.push(sample)) == readout::sounding(first) + if sample == 0 {
            0int
        } else {
            1int
        },
        readout::sounding(first + second) == readout::sounding(first) + readout::sounding(second),
    decreases second.len(),
{
    assert(first.push(sample).drop_last() =~= first);
    if second.len() == 0 {
        assert(first + second =~= first);
    } else {
        assert((first + second).drop_last() =~= first + second.drop_last());
        sounding_samples_add_up(first, second.drop_last(), sample);
    }
}

/// A button has the same name on both consoles, and the DS keypad has it at the same
/// place.
pub proof fn button_names_agree(key: Key, place: int)
    requires
        0 <= place < 10,
        key.bit() == vstd::arithmetic::power2::pow2(place as nat),
    ensures
        super::nds_button_name(place) == key.spec_name(),
{
    vstd::arithmetic::power2::lemma2_to64();
}

/// Whether a field holds a number, or is absent and the number is the one assumed.
pub open spec fn given(field: Option<u64>, number: int, assumed: int) -> bool {
    match field {
        Some(value) => number == value,
        None => number == assumed,
    }
}

/// Each command that runs the machine is spelled by its own method, with its numbers taken
/// from the fields of that name.
pub proof fn run_commands_are_spelled(fields: Fields)
    ensures
        match fields.spelled() {
            Ok(Command::RunFrames { n }) => fields.method@ == "run.frames"@ && given(
                fields.n,
                n as int,
                1,
            ),
            Ok(Command::RunToFrame { frame }) => fields.method@ == "run.toFrame"@ && given(
                fields.frame,
                frame as int,
                0,
            ),
            Ok(Command::RunSteps { n }) => fields.method@ == "run.steps"@ && given(
                fields.n,
                n as int,
                1,
            ),
            Ok(Command::RunUntilPc { pc, max_steps }) => {
                &&& fields.method@ == "run.untilPc"@
                &&& fields.pc is Some && fields.pc->0 <= 0xFFFF_FFFF || fields.pc is None ==> given(
                    fields.pc,
                    pc as int,
                    0,
                )
                &&& given(fields.max_steps, max_steps as int, 20_000_000)
            },
            Ok(Command::RunUntilWrite { addr, max_steps }) => {
                &&& fields.method@ == "run.untilWrite"@
                &&& fields.addr is Some && fields.addr->0 <= 0xFFFF_FFFF || fields.addr is None
                    ==> given(fields.addr, addr as int, 0)
                &&& given(fields.max_steps, max_steps as int, 20_000_000)
            },
            Ok(Command::HottestPc { steps, top }) => {
                &&& fields.method@ == "execution.hottestPc"@
                &&& given(fields.steps, steps as int, 20_000)
                &&& given(fields.top, top as int, 12)
            },
            _ => true,
        },
{
}

/// Each command that looks at the machine is spelled by its own method.
pub proof fn other_commands_are_spelled(fields: Fields)
    ensures
        match fields.spelled() {
            Ok(Command::Registers { core }) => fields.method@ == "cpu.registers"@ && given(
                fields.core,
                core as int,
                0,
            ),
            Ok(Command::SetRegister { .. }) => fields.method@ == "cpu.setReg"@,
            Ok(Command::Read { core, .. }) => fields.method@ == "memory.read"@ && given(
                fields.core,
                core as int,
                0,
            ),
            Ok(Command::ReadU32 { core, .. }) => fields.method@ == "memory.readU32"@ && given(
                fields.core,
                core as int,
                0,
            ),
            Ok(Command::ReadU16 { core, .. }) => fields.method@ == "memory.readU16"@ && given(
                fields.core,
                core as int,
                0,
            ),
            Ok(Command::WriteU32 { .. }) => fields.method@ == "memory.writeU32"@,
            Ok(Command::WriteU8 { .. }) => fields.method@ == "memory.writeU8"@,
            Ok(Command::Watch { enable, reads }) => {
                &&& fields.method@ == "memory.watch"@
                &&& enable <==> fields.enable != Some(false)
                &&& reads <==> fields.kind is Some && fields.kind->0@ == "reads"@
            },
            Ok(Command::WatchReport { top, reads }) => {
                &&& fields.method@ == "memory.watchReport"@
                &&& given(fields.top, top as int, 24)
                &&& reads <==> fields.kind is Some && fields.kind->0@ == "reads"@
            },
            Ok(Command::Disassemble { count, thumb, .. }) => {
                &&& fields.method@ == "execution.disassemble"@
                &&& fields.count is None ==> count == 16
                &&& thumb == fields.thumb
            },
            Ok(Command::CallStack { top }) => {
                &&& fields.method@ == "execution.callStack"@
                &&& fields.top is None ==> top == 0x0300_7F00
            },
            Ok(Command::VideoState { engine }) => fields.method@ == "video.state"@ && given(
                fields.engine,
                engine as int,
                0,
            ),
            Ok(Command::ExplainPixel { .. }) => fields.method@ == "video.explainPixel"@,
            Ok(Command::Scanline { .. }) => fields.method@ == "video.scanline"@,
            Ok(Command::PendingEvents) => fields.method@ == "scheduler.pendingEvents"@,
            Ok(Command::InterruptState { core }) => fields.method@ == "interrupts.state"@ && given(
                fields.core,
                core as int,
                0,
            ),
            Ok(Command::SetKey { key, pressed }) => {
                &&& fields.method@ == "input.set"@
                &&& pressed <==> fields.pressed != Some(false)
                &&& fields.key is Some ==> key.spec_name() == crate::text::uppercase(
                    fields.key->0@,
                )
            },
            Ok(Command::TakeAudio) => fields.method@ == "audio.take"@,
            _ => true,
        },
{
}

/// The numbers of a memory command come from the fields of the same name: the address
/// is never taken for the value.
pub proof fn memory_commands_take_their_fields(fields: Fields, addr: u32, value: u32)
    requires
        fields.addr == Some(addr as u64),
        fields.value == Some(value as u64),
        fields.index == Some(value as u64),
        fields.len == Some(value as u64),
        fields.count == Some(value as u64),
        fields.top == Some(value as u64),
    ensures
        match fields.spelled() {
            Ok(Command::SetRegister { index, value: written }) => index == value && written
                == value,
            Ok(Command::Read { addr: at, len, .. }) => at == addr && len == value,
            Ok(Command::ReadU32 { addr: at, .. }) => at == addr,
            Ok(Command::ReadU16 { addr: at, .. }) => at == addr,
            Ok(Command::WriteU32 { addr: at, value: written }) => at == addr && written == value,
            Ok(Command::WriteU8 { addr: at, value: written }) => at == addr && (value < 0x100
                ==> written == value),
            Ok(Command::Disassemble { addr: at, count, .. }) => at == addr && count == value,
            Ok(Command::CallStack { top }) => top == value,
            _ => true,
        },
{
}

/// A search for an address ends where the program counter stands on it or the limit is
/// reached, says which, and takes one instruction at a time until then.
pub proof fn address_search(
    task: RunTask,
    after: RunTask,
    was: System,
    is: System,
    watched: Probes,
    watching: Probes,
    step: RunStep,
)
    requires
        task.advanced(after, was, is, watched, watching, step),
        task.valid(),
    ensures
        task matches RunTask::UntilPc { pc, max, steps } ==> {
            let here = was.cpu@.r[15];
            &&& (step is Done <==> here == pc || steps == max)
            &&& (step is Instruction <==> here != pc && steps < max)
            &&& step matches RunStep::Done(reply) ==> reply == (Reply::PcSearch {
                hit: steps != max,
                steps,
                pc: here,
            })
            &&& step is Instruction ==> after == (RunTask::UntilPc {
                pc,
                max,
                steps: (steps + 1) as u64,
            })
        },
{
    reveal(RunTask::advanced);
}

/// A search for a write ends at the instruction that wrote, which is the one that the
/// machine stood on before it; that instruction is not counted.
pub proof fn write_search(
    task: RunTask,
    after: RunTask,
    was: System,
    is: System,
    watched: Probes,
    watching: Probes,
    step: RunStep,
)
    requires
        task.advanced(after, was, is, watched, watching, step),
        task.valid(),
        step is Done,
    ensures
        task matches RunTask::UntilWrite { addr, max, steps, before } ==> {
            &&& watching.break_write_addr is None && !watching.write_hit
            &&& step->0 matches Reply::WriteSearch { writer_pc, steps: told, value }
            &&& value == readout::value_at(was, addr, AccessWidth::Word)
            &&& writer_pc is Some ==> writer_pc == before && watched.write_hit && told == steps
            &&& writer_pc is None ==> told == max
        },
{
    reveal(RunTask::advanced);
}

/// Counted runs ask for exactly as many frames or instructions as were asked for.
pub proof fn counted_runs(
    task: RunTask,
    after: RunTask,
    was: System,
    is: System,
    watched: Probes,
    watching: Probes,
    step: RunStep,
)
    requires
        task.advanced(after, was, is, watched, watching, step),
    ensures
        task matches RunTask::Frames { left } ==> (step is Frame <==> left > 0) && (step is Done
            <==> left == 0) && (left > 0 ==> after == (RunTask::Frames {
            left: (left - 1) as u64,
        })),
        task matches RunTask::Steps { left } ==> (step is Instruction <==> left > 0) && (step
            is Done <==> left == 0) && (left > 0 ==> after == (RunTask::Steps {
            left: (left - 1) as u64,
        })),
        task matches RunTask::ToFrame { target, guard } ==> (step is Frame <==>
            was.gba.bus@.io.video.frame_counter < target && guard < 100_000)
                && !(step is Instruction),
        task matches RunTask::HottestPc { left, top, counts, stepped } ==> (step is Instruction
            <==> left > 0) && (stepped && left > 0 ==> after is HottestPc
            && after->HottestPc_counts@ == counts::counted(counts@, was.cpu@.r[15])),
{
    reveal(RunTask::advanced);
}

} // verus!
