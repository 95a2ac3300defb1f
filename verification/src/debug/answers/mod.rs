//! What each command answers, and what it does to the machine.

pub mod cpu;
pub mod devices;
pub mod memory;
pub mod video;
pub mod watch;

use vstd::prelude::*;

use super::readout;
use super::request::Command;
use super::session::Reply;
use crate::emu_core::{Access, AccessWidth};
use crate::gba::ppu::debug::explain::ExplainError;
use crate::gba::system::System;
use crate::text;

verus! {

impl Command {
    /// The machine can carry the command out: a write settles.
    pub open spec fn can_run(self, system: System) -> bool {
        match self {
            Command::WriteU32 { addr, value } => system.gba.bus@.can_write(
                addr,
                value,
                AccessWidth::Word,
                Access::cpu_data(),
                system.scheduler@,
            ),
            Command::WriteU8 { addr, value } => system.gba.bus@.can_write(
                addr,
                value as u32,
                AccessWidth::Byte,
                Access::cpu_data(),
                system.scheduler@,
            ),
            _ => true,
        }
    }

    /// Whether the command is answered at once, by the machine alone.
    pub open spec fn asks_machine(self) -> bool {
        match self {
            Command::RunFrames { .. } | Command::RunToFrame { .. } | Command::RunSteps { .. } =>
                false,
            Command::RunUntilPc { .. } | Command::RunUntilWrite { .. } => false,
            Command::HottestPc { .. } | Command::Watch { .. } | Command::WatchReport { .. } =>
                false,
            _ => true,
        }
    }

    /// What a command is answered by the machine, and what it does to it.
    #[verifier::opaque]
    pub open spec fn answered(self, was: System, is: System, reply: Reply) -> bool {
        match self {
            Command::Registers { core } => cpu::tells_registers(was, is, reply, core),
            Command::SetRegister { index, value } => cpu::sets_register(
                was,
                is,
                reply,
                index,
                value,
            ),
            Command::Read { addr, len, core } => memory::tells_bytes(was, is, reply, addr, len),
            Command::ReadU32 { addr, core } => memory::tells_word(was, is, reply, addr),
            Command::ReadU16 { addr, core } => memory::tells_half(was, is, reply, addr),
            Command::WriteU32 { addr, value } => memory::writes(
                was,
                is,
                reply,
                addr,
                value,
                AccessWidth::Word,
            ),
            Command::WriteU8 { addr, value } => memory::writes(
                was,
                is,
                reply,
                addr,
                value as u32,
                AccessWidth::Byte,
            ),
            Command::Disassemble { addr, count, thumb } => cpu::lists_code(
                was,
                is,
                reply,
                addr,
                count,
                thumb,
            ),
            Command::CallStack { top } => cpu::lists_frames(was, is, reply, top),
            Command::VideoState { engine } => video::tells_video(was, is, reply, engine),
            Command::ExplainPixel { engine, x, y } => video::explains_pixel(
                was,
                is,
                reply,
                engine,
                x,
                y,
            ),
            Command::Scanline { engine, y } => video::explains_line(was, is, reply, engine, y),
            Command::PendingEvents => devices::tells_events(was, is, reply),
            Command::InterruptState { core } => devices::tells_interrupts(was, is, reply, core),
            Command::SetKey { key, pressed } => devices::sets_key(was, is, reply, key, pressed),
            Command::TakeAudio => devices::takes_audio(was, is, reply),
            _ => false,
        }
    }

    /// Why a command is refused, if it is: a register that does not exist, or a pixel
    /// outside the picture.
    pub open spec fn refusal(self) -> Option<Seq<char>> {
        match self {
            Command::SetRegister { index, value } => if index < 16 {
                None
            } else {
                Some("no such register: "@ + text::numeral(index as nat, 10))
            },
            Command::ExplainPixel { engine, x, y } => if x < 240 && y < 160 {
                None
            } else {
                Some(video::explain_message(ExplainError::PixelOutsideFramebuffer { x, y }))
            },
            _ => None,
        }
    }
}

/// Let the machine answer a command that needs nothing else.
pub fn answer(system: &mut System, command: Command) -> (result: Result<Reply, String>)
    requires
        old(system).valid(),
        command.asks_machine(),
        command.can_run(*old(system)),
    ensures
        final(system).valid(),
        match result {
            Ok(reply) => command.refusal() is None && command.answered(
                *old(system),
                *final(system),
                reply,
            ),
            Err(message) => command.refusal() == Some(message@) && readout::unchanged(
                *old(system),
                *final(system),
            ),
        },
{
    reveal(Command::answered);
    let reply = match command {
        Command::Registers { core } => cpu::registers(system, core),
        Command::SetRegister { index, value } => {
            if index >= 16 {
                let mut message = text::text("no such register: ");
                message.append(text::decimal(index).as_str());
                return Err(message);
            }
            cpu::set_register(system, index, value)
        },
        Command::Read { addr, len, core } => memory::read(system, addr, len),
        Command::ReadU32 { addr, core } => memory::read_word(system, addr),
        Command::ReadU16 { addr, core } => memory::read_half(system, addr),
        Command::WriteU32 { addr, value } => memory::write_word(system, addr, value),
        Command::WriteU8 { addr, value } => memory::write_byte(system, addr, value),
        Command::Disassemble { addr, count, thumb } => cpu::disassemble(
            system,
            addr,
            count,
            thumb,
        ),
        Command::CallStack { top } => cpu::call_stack(system, top),
        Command::VideoState { engine } => video::video_state(system, engine),
        Command::ExplainPixel { engine, x, y } => {
            reveal(video::explains_pixel);
            return video::explain_pixel(system, engine, x, y);
        },
        Command::Scanline { engine, y } => video::scanline(system, engine, y),
        Command::PendingEvents => devices::pending_events(system),
        Command::InterruptState { core } => devices::interrupt_state(system, core),
        Command::SetKey { key, pressed } => devices::set_key(system, key, pressed),
        _ => devices::take_audio(system),
    };
    Ok(reply)
}

} // verus!
