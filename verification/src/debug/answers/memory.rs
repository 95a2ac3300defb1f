//! Answers about memory.

use vstd::prelude::*;

use crate::debug::base64;
use crate::debug::readout;
use crate::debug::readout::value_at;
use crate::debug::session::Reply;
use crate::emu_core::{Access, AccessWidth};
use crate::gba::system::System;

verus! {

/// The system with its bus and timeline replaced.
pub open spec fn rewired(was: System, is: System) -> bool {
    &&& is.cpu == was.cpu
    &&& is.cartridge == was.cartridge
    &&& is.keypad == was.keypad
}

/// Bytes are told.
#[verifier::opaque]
pub open spec fn tells_bytes(was: System, is: System, reply: Reply, addr: u32, len: u32) -> bool {
    &&& readout::unchanged(was, is)
    &&& reply matches Reply::Bytes { addr: a, len: l, base64 }
    &&& a == addr && l == len
    &&& base64@ == base64::encoded(readout::bytes_at(was, addr, len as nat))
}

/// A word is told.
#[verifier::opaque]
pub open spec fn tells_word(was: System, is: System, reply: Reply, addr: u32) -> bool {
    &&& readout::unchanged(was, is)
    &&& reply == Reply::Value(value_at(was, addr, AccessWidth::Word))
}

/// A halfword is told.
#[verifier::opaque]
pub open spec fn tells_half(was: System, is: System, reply: Reply, addr: u32) -> bool {
    &&& readout::unchanged(was, is)
    &&& reply == Reply::Value(
        (value_at(was, addr, AccessWidth::Half) % 0x1_0000) as u32,
    )
}

/// The CPU's write is made.
#[verifier::opaque]
pub open spec fn writes(was: System, is: System, reply: Reply, addr: u32, value: u32, width: AccessWidth) -> bool {
    let written = was.gba.bus@.after_write(
        addr,
        value,
        width,
        Access::cpu_data(),
        was.scheduler@,
    );
    &&& reply is Done
    &&& rewired(was, is)
    &&& is.gba.bus@ == written.0 && is.scheduler@ == written.1
}

/// `memory.read`
pub fn read(system: &mut System, addr: u32, len: u32) -> (reply: Reply)
    requires
        old(system).valid(),
    ensures
        final(system).valid(),
        tells_bytes(*old(system), *final(system), reply, addr, len),
{
    reveal(tells_bytes);
    let bytes = readout::read_bytes(system, addr, len);
    Reply::Bytes { addr, len, base64: base64::base64(bytes.as_slice()) }
}

/// `memory.readU32`
pub fn read_word(system: &mut System, addr: u32) -> (reply: Reply)
    requires
        old(system).valid(),
    ensures
        final(system).valid(),
        tells_word(*old(system), *final(system), reply, addr),
{
    reveal(tells_word);
    Reply::Value(readout::read32(system, addr))
}

/// `memory.readU16`
pub fn read_half(system: &mut System, addr: u32) -> (reply: Reply)
    requires
        old(system).valid(),
    ensures
        final(system).valid(),
        tells_half(*old(system), *final(system), reply, addr),
{
    reveal(tells_half);
    Reply::Value(readout::read16(system, addr) as u32)
}

/// `memory.writeU32`
pub fn write_word(system: &mut System, addr: u32, value: u32) -> (reply: Reply)
    requires
        old(system).valid(),
        old(system).gba.bus@.can_write(
            addr,
            value,
            AccessWidth::Word,
            Access::cpu_data(),
            old(system).scheduler@,
        ),
    ensures
        final(system).valid(),
        writes(*old(system), *final(system), reply, addr, value, AccessWidth::Word),
{
    reveal(System::valid);
    reveal(writes);
    system.gba.bus.write32(addr, value, Access::cpu_data(), &mut system.scheduler);
    Reply::Done
}

/// `memory.writeU8`
pub fn write_byte(system: &mut System, addr: u32, value: u8) -> (reply: Reply)
    requires
        old(system).valid(),
        old(system).gba.bus@.can_write(
            addr,
            value as u32,
            AccessWidth::Byte,
            Access::cpu_data(),
            old(system).scheduler@,
        ),
    ensures
        final(system).valid(),
        writes(*old(system), *final(system), reply, addr, value as u32, AccessWidth::Byte),
{
    reveal(System::valid);
    reveal(writes);
    system.gba.bus.write8(addr, value, Access::cpu_data(), &mut system.scheduler);
    Reply::Done
}

} // verus!
