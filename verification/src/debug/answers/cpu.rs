//! Answers about the processor.

use vstd::prelude::*;

use crate::arm::cpu::CpuState;
use crate::debug::readout;
use crate::debug::session::Reply;
use crate::gba::system::System;

verus! {

/// The registers are told.
#[verifier::opaque]
pub open spec fn tells_registers(was: System, is: System, reply: Reply, core: u64) -> bool {
    &&& is == was
    &&& reply matches Reply::Registers { core: c, r, cpsr, mode }
    &&& c == core && cpsr == was.cpu@.cpsr.bits() && mode == was.cpu@.cpsr.mode()
    &&& forall|i: int| 0 <= i < 16 ==> #[trigger] r@[i] == was.cpu@.r[i]
}

/// A register is set, and nothing else.
#[verifier::opaque]
pub open spec fn sets_register(was: System, is: System, reply: Reply, index: u32, value: u32) -> bool {
    &&& reply is Done
    &&& index < 16
    &&& is.cpu@ == (CpuState {
        r: was.cpu@.r.update(index as int, value),
        sequential: was.cpu@.sequential && index != 15,
        ..was.cpu@
    })
    &&& is.gba == was.gba && is.scheduler == was.scheduler
    &&& is.cartridge == was.cartridge
    &&& is.keypad == was.keypad
}

/// Code is listed, in the processor's own state unless one is asked for.
#[verifier::opaque]
pub open spec fn lists_code(was: System, is: System, reply: Reply, addr: u32, count: u32, thumb: Option<bool>) -> bool {
    let mode = match thumb {
        Some(thumb) => thumb,
        None => was.cpu@.cpsr.thumb(),
    };
    &&& readout::unchanged(was, is)
    &&& reply matches Reply::Listing { thumb: t, lines }
    &&& t == mode && readout::is_listing(lines@, was, addr, count as nat, mode)
}

/// The call stack is told.
#[verifier::opaque]
pub open spec fn lists_frames(was: System, is: System, reply: Reply, top: u32) -> bool {
    let low = (was.cpu@.r[13] - was.cpu@.r[13] % 4) as u32;
    &&& readout::unchanged(was, is)
    &&& reply matches Reply::CallStack { pc, sp, frames }
    &&& pc == was.cpu@.r[15] && sp == low
    &&& frames@ == readout::frames_from(was, low as int, top as int, readout::MAX_FRAMES as int)
}

/// `cpu.registers`
pub fn registers(system: &mut System, core: u64) -> (reply: Reply)
    requires
        old(system).valid(),
    ensures
        final(system).valid(),
        tells_registers(*old(system), *final(system), reply, core),
{
    reveal(tells_registers);
    Reply::Registers {
        core,
        r: readout::register_file(&system.cpu),
        cpsr: system.cpu.cpsr().bits(),
        mode: system.cpu.mode(),
    }
}

/// `cpu.setReg`
pub fn set_register(system: &mut System, index: u32, value: u32) -> (reply: Reply)
    requires
        old(system).valid(),
        index < 16,
    ensures
        final(system).valid(),
        sets_register(*old(system), *final(system), reply, index, value),
{
    reveal(System::valid);
    reveal(sets_register);
    system.cpu.set_register(index as usize, value);
    Reply::Done
}

/// `execution.disassemble`
pub fn disassemble(system: &mut System, addr: u32, count: u32, thumb: Option<bool>) -> (reply:
    Reply)
    requires
        old(system).valid(),
    ensures
        final(system).valid(),
        lists_code(*old(system), *final(system), reply, addr, count, thumb),
{
    reveal(lists_code);
    let mode = match thumb {
        Some(thumb) => thumb,
        None => system.cpu.cpsr().thumb(),
    };
    let lines = readout::disassemble(system, addr, count, mode);
    Reply::Listing { thumb: mode, lines }
}

/// `execution.callStack`
pub fn call_stack(system: &mut System, top: u32) -> (reply: Reply)
    requires
        old(system).valid(),
    ensures
        final(system).valid(),
        lists_frames(*old(system), *final(system), reply, top),
{
    reveal(lists_frames);
    let r13 = system.cpu.register(13);
    let sp: u32 = r13 - r13 % 4;
    let pc = system.cpu.register(15);
    let frames = readout::call_stack(system, sp, top);
    Reply::CallStack { pc, sp, frames }
}

} // verus!
