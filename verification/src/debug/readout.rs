//! Readouts of a machine: regions, bytes, disassembly, call stacks, sound levels.

use vstd::prelude::*;

use crate::arm::cpu::Cpu;
use crate::arm::disasm::{format_arm, format_thumb};
use crate::arm::{decode_arm, decode_thumb};
use crate::emu_core::scheduler::ScheduledEvent;
use crate::emu_core::{Access, AccessWidth, Scheduler};
use crate::gba::event::EventKind;
use crate::gba::system::System;

verus! {

/// The two systems are in the same state: the same processor, timeline, cartridge and
/// keypad, and the same machine behind the bus.
pub open spec fn unchanged(before: System, after: System) -> bool {
    &&& after.same_but_bus(before)
    &&& after.gba.bus@ == before.gba.bus@
}

/// What the CPU reads at an address.
pub open spec fn value_at(system: System, address: u32, width: AccessWidth) -> u32 {
    system.gba.bus@.read(address, width, Access::cpu_data(), system.scheduler@.now).0
}

/// Read a byte as the CPU would.
pub fn read8(system: &mut System, address: u32) -> (value: u8)
    requires
        old(system).valid(),
    ensures
        final(system).valid(),
        unchanged(*old(system), *final(system)),
        value == (value_at(*old(system), address, AccessWidth::Byte) % 0x100) as u8,
{
    reveal(System::valid);
    proof {
        crate::gba::bus::laws::data_read_changes_nothing(
            system.gba.bus@,
            address,
            AccessWidth::Byte,
            system.scheduler@.now,
        );
    }
    system.gba.bus.read8(address, Access::cpu_data(), &system.scheduler).value
}

/// Read a halfword as the CPU would.
pub fn read16(system: &mut System, address: u32) -> (value: u16)
    requires
        old(system).valid(),
    ensures
        final(system).valid(),
        unchanged(*old(system), *final(system)),
        value == (value_at(*old(system), address, AccessWidth::Half) % 0x1_0000) as u16,
{
    reveal(System::valid);
    proof {
        crate::gba::bus::laws::data_read_changes_nothing(
            system.gba.bus@,
            address,
            AccessWidth::Half,
            system.scheduler@.now,
        );
    }
    system.gba.bus.read16(address, Access::cpu_data(), &system.scheduler).value
}

/// Read a word as the CPU would.
pub fn read32(system: &mut System, address: u32) -> (value: u32)
    requires
        old(system).valid(),
    ensures
        final(system).valid(),
        unchanged(*old(system), *final(system)),
        value == value_at(*old(system), address, AccessWidth::Word),
{
    reveal(System::valid);
    proof {
        crate::gba::bus::laws::data_read_changes_nothing(
            system.gba.bus@,
            address,
            AccessWidth::Word,
            system.scheduler@.now,
        );
    }
    system.gba.bus.read32(address, Access::cpu_data(), &system.scheduler).value
}

/// All sixteen registers.
pub fn register_file(cpu: &Cpu) -> (r: [u32; 16])
    ensures
        forall|i: int| 0 <= i < 16 ==> #[trigger] r@[i] == cpu@.r[i],
{
    let mut r: [u32; 16] = [0u32; 16];
    let mut i: usize = 0;
    while i < 16
        invariant
            i <= 16,
            forall|k: int| 0 <= k < i ==> #[trigger] r@[k] == cpu@.r[k],
        decreases 16 - i,
    {
        r[i] = cpu.register(i);
        i = i + 1;
    }
    r
}

/// The time and kind of each pending event, in dispatch order.
pub open spec fn listed(events: Seq<ScheduledEvent<EventKind>>) -> Seq<(u64, EventKind)> {
    Seq::new(events.len(), |i: int| (events[i].at, events[i].kind))
}

/// The pending events as `(time, kind)` pairs, in dispatch order.
pub fn event_list(scheduler: &Scheduler<EventKind>) -> (events: Vec<(u64, EventKind)>)
    ensures
        events@ == listed(scheduler@.events),
{
    let pending = scheduler.pending_events();
    let mut events: Vec<(u64, EventKind)> = Vec::new();
    let mut i: usize = 0;
    while i < pending.len()
        invariant
            i <= pending@.len(),
            events@ == listed(pending@).take(i as int),
        decreases pending@.len() - i,
    {
        events.push((pending[i].at, pending[i].kind));
        assert(listed(pending@).take(i + 1) =~= listed(pending@).take(i as int).push(
            listed(pending@)[i as int],
        ));
        i = i + 1;
    }
    assert(listed(pending@).take(pending@.len() as int) =~= listed(pending@));
    events
}

/// The memory region name for a GBA address.
pub open spec fn region_name(addr: u32) -> Seq<char> {
    let page = addr / 0x100_0000;
    if page == 0x00 {
        "bios"@
    } else if page == 0x02 {
        "ewram"@
    } else if page == 0x03 {
        "iwram"@
    } else if page == 0x04 {
        "io"@
    } else if page == 0x05 {
        "palette"@
    } else if page == 0x06 {
        "vram"@
    } else if page == 0x07 {
        "oam"@
    } else if 0x08 <= page <= 0x0D {
        "rom"@
    } else if page == 0x0E || page == 0x0F {
        "sram"@
    } else {
        "open"@
    }
}

/// The memory region name for a GBA address, for readouts.
pub fn region(addr: u32) -> (name: &'static str)
    ensures
        name@ == region_name(addr),
{
    match addr / 0x100_0000 {
        0x00 => "bios",
        0x02 => "ewram",
        0x03 => "iwram",
        0x04 => "io",
        0x05 => "palette",
        0x06 => "vram",
        0x07 => "oam",
        0x08..=0x0D => "rom",
        0x0E | 0x0F => "sram",
        _ => "open",
    }
}

/// The bytes from `addr` on, around the end of the address space.
pub open spec fn bytes_at(system: System, addr: u32, len: nat) -> Seq<u8> {
    Seq::new(
        len,
        |i: int|
            (value_at(system, addr.wrapping_add(i as u32), AccessWidth::Byte) % 0x100) as u8,
    )
}

/// Read `len` bytes from `addr` on.
pub fn read_bytes(system: &mut System, addr: u32, len: u32) -> (bytes: Vec<u8>)
    requires
        old(system).valid(),
    ensures
        final(system).valid(),
        unchanged(*old(system), *final(system)),
        bytes@ == bytes_at(*old(system), addr, len as nat),
{
    let ghost was = *system;
    let mut bytes: Vec<u8> = Vec::new();
    let mut i: u32 = 0;
    while i < len
        invariant
            i <= len,
            system.valid(),
            unchanged(was, *system),
            was == *old(system),
            bytes@ == bytes_at(was, addr, i as nat),
        decreases len - i,
    {
        let byte = read8(system, addr.wrapping_add(i));
        bytes.push(byte);
        i = i + 1;
        assert(bytes@ =~= bytes_at(was, addr, i as nat));
    }
    bytes
}

/// A disassembled instruction.
pub struct Line {
    pub addr: u32,
    pub text: String,
}

/// The address of the `i`th instruction from `addr` on.
pub open spec fn line_addr(addr: u32, i: int, thumb: bool) -> u32 {
    addr.wrapping_add(
        (i as u32).wrapping_mul(
            if thumb {
                2
            } else {
                4
            },
        ),
    )
}

/// An ARM instruction word as text.
#[verifier::opaque]
pub open spec fn arm_text(raw: u32) -> Seq<char> {
    decode_arm(raw).assembly()
}

/// A Thumb instruction as text.
#[verifier::opaque]
pub open spec fn thumb_text(raw: u16) -> Seq<char> {
    decode_thumb(raw).assembly()
}

fn arm_line(raw: u32) -> (text: String)
    ensures
        text@ == arm_text(raw),
{
    reveal(arm_text);
    format_arm(&decode_arm(raw))
}

fn thumb_line(raw: u16) -> (text: String)
    ensures
        text@ == thumb_text(raw),
{
    reveal(thumb_text);
    format_thumb(&decode_thumb(raw))
}

/// The instruction at an address, as text.
pub open spec fn line_text(system: System, addr: u32, thumb: bool) -> Seq<char> {
    if thumb {
        thumb_text((value_at(system, addr, AccessWidth::Half) % 0x1_0000) as u16)
    } else {
        arm_text(value_at(system, addr, AccessWidth::Word))
    }
}

/// The lines are the disassembly of `count` instructions from `addr` on.
pub open spec fn is_listing(
    lines: Seq<Line>,
    system: System,
    addr: u32,
    count: nat,
    thumb: bool,
) -> bool {
    &&& lines.len() == count
    &&& forall|i: int|
        0 <= i < count ==> (#[trigger] lines[i]).addr == line_addr(addr, i, thumb)
            && lines[i].text@ == line_text(system, lines[i].addr, thumb)
}

/// Disassemble `count` instructions from `addr` on.
pub fn disassemble(system: &mut System, addr: u32, count: u32, thumb: bool) -> (lines: Vec<Line>)
    requires
        old(system).valid(),
    ensures
        final(system).valid(),
        unchanged(*old(system), *final(system)),
        is_listing(lines@, *old(system), addr, count as nat, thumb),
{
    let ghost was = *system;
    let step: u32 = if thumb {
        2
    } else {
        4
    };
    let mut lines: Vec<Line> = Vec::new();
    let mut i: u32 = 0;
    while i < count
        invariant
            i <= count,
            step == (if thumb {
                2u32
            } else {
                4u32
            }),
            system.valid(),
            unchanged(was, *system),
            was == *old(system),
            is_listing(lines@, was, addr, i as nat, thumb),
        decreases count - i,
    {
        let a = addr.wrapping_add(i.wrapping_mul(step));
        let text = if thumb {
            thumb_line(read16(system, a))
        } else {
            arm_line(read32(system, a))
        };
        lines.push(Line { addr: a, text });
        i = i + 1;
    }
    lines
}

/// A word on the stack that looks like a return address, and where it lies.
#[derive(Clone, Copy, Debug, PartialEq, Eq, Structural)]
pub struct StackFrame {
    pub sp: u32,
    pub addr: u32,
}

/// The most frames a call stack lists.
pub const MAX_FRAMES: usize = 48;

/// Whether a word looks like a return address: an odd (Thumb) address in ROM.
pub open spec fn is_return_address(value: u32) -> bool {
    0x0800_0000 <= value < 0x0A00_0000 && value % 2 == 1
}

/// The frames on the stack from `a` up to `top`, at most `room` of them.
pub open spec fn frames_from(system: System, a: int, top: int, room: int) -> Seq<StackFrame>
    decreases top + 4 - a,
{
    if a >= top || room <= 0 {
        Seq::empty()
    } else {
        let value = value_at(system, a as u32, AccessWidth::Word);
        if is_return_address(value) {
            seq![StackFrame { sp: a as u32, addr: (value - 1) as u32 }] + frames_from(
                system,
                a + 4,
                top,
                room - 1,
            )
        } else {
            frames_from(system, a + 4, top, room)
        }
    }
}

/// Scan the stack from `sp` up to `top` for return addresses.
pub fn call_stack(system: &mut System, sp: u32, top: u32) -> (frames: Vec<StackFrame>)
    requires
        old(system).valid(),
    ensures
        final(system).valid(),
        unchanged(*old(system), *final(system)),
        frames@ == frames_from(*old(system), sp as int, top as int, MAX_FRAMES as int),
{
    let ghost was = *system;
    let ghost whole = frames_from(was, sp as int, top as int, MAX_FRAMES as int);
    let mut frames: Vec<StackFrame> = Vec::new();
    let mut a: u64 = sp as u64;
    assert(frames@ + whole =~= whole);
    while a < top as u64 && frames.len() < MAX_FRAMES
        invariant
            a <= top + 3 || a == sp,
            frames@.len() <= MAX_FRAMES,
            system.valid(),
            unchanged(was, *system),
            was == *old(system),
            frames@ + frames_from(was, a as int, top as int, MAX_FRAMES - frames@.len())
                == whole,
        decreases top + 4 - a,
    {
        let ghost before = frames@;
        let v = read32(system, a as u32);
        if 0x0800_0000 <= v && v < 0x0A00_0000 && v % 2 == 1 {
            let frame = StackFrame { sp: a as u32, addr: v - 1 };
            frames.push(frame);
            let ghost rest = frames_from(was, a + 4, top as int, MAX_FRAMES - frames@.len());
            assert(before + (seq![frame] + rest) =~= frames@ + rest);
        }
        a = a + 4;
    }
    assert(frames@ + Seq::<StackFrame>::empty() =~= frames@);
    frames
}

/// The magnitude of a sample.
pub open spec fn magnitude(sample: i16) -> int {
    if sample < 0 {
        -sample
    } else {
        sample as int
    }
}

/// How many of the samples are not silent.
pub open spec fn sounding(samples: Seq<i16>) -> nat
    decreases samples.len(),
{
    if samples.len() == 0 {
        0
    } else {
        sounding(samples.drop_last()) + (if samples.last() != 0 {
            1nat
        } else {
            0nat
        })
    }
}

/// The peak magnitude of the samples (zero if there are none), and how many are not
/// silent.
pub fn audio_stats(samples: &[i16]) -> (stats: (u16, usize))
    ensures
        forall|i: int| 0 <= i < samples@.len() ==> magnitude(#[trigger] samples@[i]) <= stats.0,
        stats.0 == 0 || exists|i: int|
            0 <= i < samples@.len() && magnitude(#[trigger] samples@[i]) == stats.0,
        stats.1 == sounding(samples@),
{
    let mut peak: u16 = 0;
    let mut nonzero: usize = 0;
    let mut i: usize = 0;
    while i < samples.len()
        invariant
            i <= samples@.len(),
            nonzero <= i,
            forall|k: int| 0 <= k < i ==> magnitude(#[trigger] samples@[k]) <= peak,
            peak == 0 || exists|k: int|
                0 <= k < i && magnitude(#[trigger] samples@[k]) == peak,
            nonzero == sounding(samples@.take(i as int)),
        decreases samples@.len() - i,
    {
        let sample: i16 = samples[i];
        let level: u16 = if sample < 0 {
            (-(sample as i32)) as u16
        } else {
            sample as u16
        };
        assert(level == magnitude(samples@[i as int]));
        if level > peak {
            peak = level;
        }
        assert(samples@.take(i + 1).drop_last() =~= samples@.take(i as int));
        if sample != 0 {
            nonzero = nonzero + 1;
        }
        i = i + 1;
    }
    assert(samples@.take(samples@.len() as int) =~= samples@);
    (peak, nonzero)
}

} // verus!
