//! The debug server's side of the protocol: what each request does to the machine and
//! what it answers. Carrying lines to and from a client, and running the machine, is the
//! host's part.
//!
//! Most commands are answered at once. A command that runs the machine becomes a
//! [`RunTask`](super::run::RunTask), which the host carries out one frame or instruction
//! at a time.

use vstd::prelude::*;

use super::answers::{answer, watch};
use super::request::Command;
use super::run::{start, RunTask};
use super::session::{kept, Reply, Session};
use crate::emulator::Emulator;

verus! {

/// What becomes of a request.
pub enum Outcome {
    Reply(Reply),
    /// The machine has to run first.
    Run(RunTask),
}

impl Command {
    /// What a command is answered at once, and what it does to the session. Whatever the
    /// machine answers leaves the probes and the presented picture alone.
    pub open spec fn answers(self, was: Session, is: Session, reply: Reply) -> bool {
        match self {
            Command::Watch { enable, reads } => {
                &&& is.emu == was.emu
                &&& watch::switches_watch(was.probes, is.probes, reply, enable, reads)
            },
            Command::WatchReport { top, reads } => {
                &&& is == was
                &&& watch::reports_watch(was.probes, reply, top, reads)
            },
            _ => {
                &&& is.probes == was.probes
                &&& is.emu.gba().rgba == was.emu.gba().rgba
                &&& is.emu.gba().audio_muted == was.emu.gba().audio_muted
                &&& self.answered(was.emu.gba().system, is.emu.gba().system, reply)
            },
        }
    }
}

impl Session {
    /// Carry out a command: answer it, refuse it, or hand back the task that runs the
    /// machine for it.
    pub fn dispatch(&mut self, command: Command) -> (result: Result<Outcome, String>)
        requires
            old(self).emu.valid(),
            command.can_run(old(self).emu.gba().system),
        ensures
            final(self).emu.valid(),
            match result {
                Ok(Outcome::Run(task)) => {
                    &&& task.valid()
                    &&& final(self).emu == old(self).emu
                    &&& command.starts(old(self).probes, final(self).probes, task)
                },
                Ok(Outcome::Reply(reply)) => command.refusal() is None && command.answers(
                    *old(self),
                    *final(self),
                    reply,
                ),
                Err(message) => command.refusal() == Some(message@) && kept(
                    *old(self),
                    *final(self),
                ),
            },
    {
        if let Some(task) = start(&mut self.probes, command) {
            return Ok(Outcome::Run(task));
        }
        match command {
            Command::Watch { enable, reads } => Ok(
                Outcome::Reply(watch::watch(&mut self.probes, enable, reads)),
            ),
            Command::WatchReport { top, reads } => Ok(
                Outcome::Reply(watch::watch_report(&self.probes, top, reads)),
            ),
            _ => match &mut self.emu {
                Emulator::Gba(g) => match answer(&mut g.system, command) {
                    Ok(reply) => Ok(Outcome::Reply(reply)),
                    Err(message) => Err(message),
                },
            },
        }
    }
}

} // verus!
