//! Commands that run the machine. The host runs it; a [`RunTask`] says how far.

use std::collections::HashMap;

use vstd::prelude::*;

use super::counts;
use super::readout::{read32, unchanged, value_at};
use super::request::Command;
use super::session::{state_summary, Probes, Reply, Session, Summary};
use crate::emu_core::AccessWidth;
use crate::emulator::Emulator;
use crate::gba::system::System;

verus! {

/// A command that runs the machine, as far as it has come.
pub enum RunTask {
    /// So many more frames.
    Frames { left: u64 },
    /// Frames until a frame number is reached.
    ToFrame { target: u64, guard: u64 },
    /// So many more instructions.
    Steps { left: u64 },
    /// Instructions until the program counter is `pc`.
    UntilPc { pc: u32, max: u64, steps: u64 },
    /// Instructions until `addr` is written. `before` is the program counter of the
    /// instruction that was just run.
    UntilWrite { addr: u32, max: u64, steps: u64, before: Option<u32> },
    /// So many more instructions, counting where each led.
    HottestPc { left: u64, top: u64, counts: HashMap<u32, u64>, stepped: bool },
}

/// What a task needs next.
pub enum RunStep {
    /// Run the machine for a frame.
    Frame,
    /// Run one instruction.
    Instruction,
    /// Nothing: the task is done.
    Done(Reply),
}

/// The most frames that are run to reach a frame number.
pub const FRAME_GUARD: u64 = 100_000;

impl RunTask {
    /// The task has not run past its limit.
    pub open spec fn valid(self) -> bool {
        match self {
            RunTask::ToFrame { target, guard } => guard <= FRAME_GUARD,
            RunTask::UntilPc { pc, max, steps } => steps <= max,
            RunTask::UntilWrite { addr, max, steps, before } => {
                &&& steps <= max
                &&& before is Some ==> steps < max
            },
            _ => true,
        }
    }

    /// How many more times the machine can be asked for.
    pub open spec fn fuel(self) -> int {
        match self {
            RunTask::Frames { left } => left as int,
            RunTask::ToFrame { target, guard } => FRAME_GUARD - guard,
            RunTask::Steps { left } => left as int,
            RunTask::UntilPc { pc, max, steps } => max - steps,
            RunTask::UntilWrite { addr, max, steps, before } => max - steps - (if before is Some {
                1int
            } else {
                0int
            }),
            RunTask::HottestPc { left, top, counts, stepped } => left as int,
        }
    }

    /// What the task asks for next, given the machine and its probes, and how all of them
    /// go on.
    #[verifier::opaque]
    pub open spec fn advanced(
        self,
        after: RunTask,
        was: System,
        is: System,
        watched: Probes,
        watching: Probes,
        step: RunStep,
    ) -> bool {
        let pc_now = was.cpu@.r[15];
        let frame_now = was.gba.bus@.io.video.frame_counter;
        match self {
            RunTask::Frames { left } => {
                &&& is == was && watching == watched
                &&& if left > 0 {
                    step is Frame && after == (RunTask::Frames { left: (left - 1) as u64 })
                } else {
                    step == RunStep::Done(Reply::Summary(Summary::of(was)))
                }
            },
            RunTask::ToFrame { target, guard } => {
                &&& is == was && watching == watched
                &&& if frame_now < target && guard < FRAME_GUARD {
                    step is Frame && after == (RunTask::ToFrame {
                        target,
                        guard: (guard + 1) as u64,
                    })
                } else {
                    step == RunStep::Done(Reply::Summary(Summary::of(was)))
                }
            },
            RunTask::Steps { left } => {
                &&& is == was && watching == watched
                &&& if left > 0 {
                    step is Instruction && after == (RunTask::Steps { left: (left - 1) as u64 })
                } else {
                    step == RunStep::Done(Reply::Summary(Summary::of(was)))
                }
            },
            RunTask::UntilPc { pc, max, steps } => {
                &&& is == was && watching == watched
                &&& if steps < max && pc_now != pc {
                    step is Instruction && after == (RunTask::UntilPc {
                        pc,
                        max,
                        steps: (steps + 1) as u64,
                    })
                } else {
                    step == RunStep::Done(
                        Reply::PcSearch { hit: steps < max, steps, pc: pc_now },
                    )
                }
            },
            RunTask::UntilWrite { addr, max, steps, before } => {
                let hit = before is Some && watched.write_hit;
                let done = if before is Some && !hit {
                    steps + 1
                } else {
                    steps as int
                };
                if !hit && done < max {
                    &&& is == was && watching == watched
                    &&& step is Instruction
                    &&& after == (RunTask::UntilWrite {
                        addr,
                        max,
                        steps: done as u64,
                        before: Some(pc_now),
                    })
                } else {
                    &&& unchanged(was, is)
                    &&& watching == (Probes {
                        break_write_addr: None,
                        write_hit: false,
                        ..watched
                    })
                    &&& step == RunStep::Done(
                        Reply::WriteSearch {
                            writer_pc: if hit {
                                before
                            } else {
                                None
                            },
                            steps: done as u64,
                            value: value_at(was, addr, AccessWidth::Word),
                        },
                    )
                }
            },
            RunTask::HottestPc { left, top, counts, stepped } => {
                let seen = if stepped {
                    counts::counted(counts@, pc_now)
                } else {
                    counts@
                };
                &&& is == was && watching == watched
                &&& if left > 0 {
                    &&& step is Instruction
                    &&& after matches RunTask::HottestPc {
                        left: left_after,
                        top: top_after,
                        counts: counts_after,
                        stepped: stepped_after,
                    }
                    &&& left_after == left - 1 && top_after == top && counts_after@ == seen
                        && stepped_after
                } else {
                    step matches RunStep::Done(Reply::Counts(entries)) && counts::is_top(
                        entries@,
                        seen,
                        (top as usize) as nat,
                    )
                }
            },
        }
    }

    /// Go on with the task: say what it needs next, or how it ended. The host runs the
    /// machine as asked before it calls again. Each call that is not the last uses up
    /// some of the task's fuel.
    pub fn advance(&mut self, session: &mut Session) -> (step: RunStep)
        requires
            old(self).valid(),
            old(session).emu.valid(),
        ensures
            final(self).valid(),
            final(session).emu.valid(),
            final(session).emu.gba().rgba == old(session).emu.gba().rgba,
            final(session).emu.gba().audio_muted == old(session).emu.gba().audio_muted,
            old(self).advanced(
                *final(self),
                old(session).emu.gba().system,
                final(session).emu.gba().system,
                old(session).probes,
                final(session).probes,
                step,
            ),
            step !is Done ==> 0 <= final(self).fuel() < old(self).fuel(),
    {
        match &mut session.emu {
            Emulator::Gba(g) => self.advance_on(&mut g.system, &mut session.probes),
        }
    }

    fn advance_on(&mut self, system: &mut System, probes: &mut Probes) -> (step: RunStep)
        requires
            old(self).valid(),
            old(system).valid(),
        ensures
            final(self).valid(),
            final(system).valid(),
            old(self).advanced(
                *final(self),
                *old(system),
                *final(system),
                *old(probes),
                *final(probes),
                step,
            ),
            step !is Done ==> 0 <= final(self).fuel() < old(self).fuel(),
    {
        reveal(RunTask::advanced);
        match self {
            RunTask::Frames { left } => {
                if *left > 0 {
                    *left = *left - 1;
                    return RunStep::Frame;
                }
                RunStep::Done(Reply::Summary(state_summary(system)))
            },
            RunTask::ToFrame { target, guard } => {
                if system.gba.bus.io.video.frame() < *target && *guard < FRAME_GUARD {
                    *guard = *guard + 1;
                    return RunStep::Frame;
                }
                RunStep::Done(Reply::Summary(state_summary(system)))
            },
            RunTask::Steps { left } => {
                if *left > 0 {
                    *left = *left - 1;
                    return RunStep::Instruction;
                }
                RunStep::Done(Reply::Summary(state_summary(system)))
            },
            RunTask::UntilPc { pc, max, steps } => {
                let now = system.cpu.register(15);
                if *steps < *max && now != *pc {
                    *steps = *steps + 1;
                    return RunStep::Instruction;
                }
                RunStep::Done(Reply::PcSearch { hit: *steps < *max, steps: *steps, pc: now })
            },
            RunTask::UntilWrite { addr, max, steps, before } => {
                let hit = before.is_some() && probes.write_hit;
                if before.is_some() && !hit {
                    *steps = *steps + 1;
                }
                if !hit && *steps < *max {
                    *before = Some(system.cpu.register(15));
                    return RunStep::Instruction;
                }
                let writer_pc = if hit {
                    *before
                } else {
                    None
                };
                *before = None;
                // Stop waiting for the write, and read what the address holds.
                probes.break_write_addr = None;
                probes.write_hit = false;
                let value = read32(system, *addr);
                RunStep::Done(Reply::WriteSearch { writer_pc, steps: *steps, value })
            },
            RunTask::HottestPc { left, top, counts, stepped } => {
                if *stepped {
                    let now = system.cpu.register(15);
                    counts::count(counts, now);
                }
                if *left > 0 {
                    *left = *left - 1;
                    *stepped = true;
                    return RunStep::Instruction;
                }
                RunStep::Done(Reply::Counts(counts::top_entries(counts, *top as usize)))
            },
        }
    }
}

impl Command {
    /// What a command that runs the machine turns into, and how the probes are set up.
    #[verifier::opaque]
    pub open spec fn starts(self, was: Probes, is: Probes, task: RunTask) -> bool {
        match self {
            Command::RunFrames { n } => is == was && task == (RunTask::Frames { left: n }),
            Command::RunToFrame { frame } => is == was && task == (RunTask::ToFrame {
                target: frame,
                guard: 0,
            }),
            Command::RunSteps { n } => is == was && task == (RunTask::Steps { left: n }),
            Command::RunUntilPc { pc, max_steps } => is == was && task == (RunTask::UntilPc {
                pc,
                max: max_steps,
                steps: 0,
            }),
            Command::RunUntilWrite { addr, max_steps } => {
                &&& is == (Probes {
                    break_write_addr: Some(addr),
                    write_hit: false,
                    ..was
                })
                &&& task == (RunTask::UntilWrite { addr, max: max_steps, steps: 0, before: None })
            },
            Command::HottestPc { steps, top } => {
                &&& is == was
                &&& task matches RunTask::HottestPc { left, top: best, counts, stepped }
                &&& left == steps && best == top && counts@ == Map::<u32, u64>::empty()
                    && !stepped
            },
            _ => false,
        }
    }
}

/// The task that a command starts, if it is one that runs the machine.
pub fn start(probes: &mut Probes, command: Command) -> (task: Option<RunTask>)
    ensures
        match task {
            Some(task) => task.valid() && command.starts(*old(probes), *final(probes), task),
            None => {
                &&& *final(probes) == *old(probes)
                &&& !(command is RunFrames || command is RunToFrame || command is RunSteps)
                &&& !(command is RunUntilPc || command is RunUntilWrite)
                &&& !(command is HottestPc)
            },
        },
{
    reveal(Command::starts);
    match command {
        Command::RunFrames { n } => Some(RunTask::Frames { left: n }),
        Command::RunToFrame { frame } => Some(RunTask::ToFrame { target: frame, guard: 0 }),
        Command::RunSteps { n } => Some(RunTask::Steps { left: n }),
        Command::RunUntilPc { pc, max_steps } => Some(
            RunTask::UntilPc { pc, max: max_steps, steps: 0 },
        ),
        Command::RunUntilWrite { addr, max_steps } => {
            probes.break_write_addr = Some(addr);
            probes.write_hit = false;
            Some(RunTask::UntilWrite { addr, max: max_steps, steps: 0, before: None })
        },
        Command::HottestPc { steps, top } => Some(
            RunTask::HottestPc { left: steps, top, counts: HashMap::new(), stepped: false },
        ),
        _ => None,
    }
}

} // verus!
