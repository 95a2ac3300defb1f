//! Requests: what a client asks for, from a line of JSON to a [`Command`].
//!
//! Requests are `{"id":N,"method":"ns.method","params":{...}}`. A parameter that is
//! missing, or of another type, takes its default.

use vstd::prelude::*;

use super::json;
use crate::gba::keypad::Key;
use crate::text;

verus! {

/// A request as it came in.
pub struct Request {
    /// The whole document, for what is echoed back.
    pub value: serde_json::Value,
    pub fields: Fields,
}

/// The method of a request and every parameter that a method can take.
pub struct Fields {
    pub method: String,
    pub key: Option<String>,
    pub kind: Option<String>,
    pub n: Option<u64>,
    pub frame: Option<u64>,
    pub pc: Option<u64>,
    pub max_steps: Option<u64>,
    pub addr: Option<u64>,
    pub core: Option<u64>,
    pub engine: Option<u64>,
    pub index: Option<u64>,
    pub value: Option<u64>,
    pub len: Option<u64>,
    pub top: Option<u64>,
    pub steps: Option<u64>,
    pub count: Option<u64>,
    pub x: Option<u64>,
    pub y: Option<u64>,
    pub enable: Option<bool>,
    pub thumb: Option<bool>,
    pub pressed: Option<bool>,
}

/// The characters of a string that may be absent.
pub open spec fn chars(text: Option<String>) -> Option<Seq<char>> {
    match text {
        Some(text) => Some(text@),
        None => None,
    }
}

/// The given value, or a default.
pub open spec fn or<T>(given: Option<T>, default: T) -> T {
    match given {
        Some(value) => value,
        None => default,
    }
}

impl Fields {
    /// The fields are those of a document.
    pub open spec fn of(
        self,
        numbers: Map<Seq<char>, u64>,
        texts: Map<Seq<char>, Seq<char>>,
        flags: Map<Seq<char>, bool>,
    ) -> bool {
        &&& self.method@ == or(json::entry(texts, "/method"@), Seq::empty())
        &&& chars(self.key) == json::entry(texts, "/params/key"@)
        &&& chars(self.kind) == json::entry(texts, "/params/kind"@)
        &&& self.n == json::entry(numbers, "/params/n"@)
        &&& self.frame == json::entry(numbers, "/params/frame"@)
        &&& self.pc == json::entry(numbers, "/params/pc"@)
        &&& self.max_steps == json::entry(numbers, "/params/maxSteps"@)
        &&& self.addr == json::entry(numbers, "/params/addr"@)
        &&& self.core == json::entry(numbers, "/params/core"@)
        &&& self.engine == json::entry(numbers, "/params/engine"@)
        &&& self.index == json::entry(numbers, "/params/index"@)
        &&& self.value == json::entry(numbers, "/params/value"@)
        &&& self.len == json::entry(numbers, "/params/len"@)
        &&& self.top == json::entry(numbers, "/params/top"@)
        &&& self.steps == json::entry(numbers, "/params/steps"@)
        &&& self.count == json::entry(numbers, "/params/count"@)
        &&& self.x == json::entry(numbers, "/params/x"@)
        &&& self.y == json::entry(numbers, "/params/y"@)
        &&& self.enable == json::entry(flags, "/params/enable"@)
        &&& self.thumb == json::entry(flags, "/params/thumb"@)
        &&& self.pressed == json::entry(flags, "/params/pressed"@)
    }
}

impl Request {
    /// Parse a request line. A line that is not JSON is refused with the parser's message.
    pub fn parse(line: &str) -> (result: Result<Request, String>)
        ensures
            match (result, json::json_parsed(line@)) {
                (Ok(request), Ok((numbers, texts, flags))) => request.fields.of(
                    numbers,
                    texts,
                    flags,
                ),
                (Err(message), Err(reason)) => message@ == "bad json: "@ + reason,
                _ => false,
            },
    {
        let value = match json::parse(line) {
            Ok(value) => value,
            Err(reason) => {
                let mut message = text::text("bad json: ");
                message.append(reason.as_str());
                return Err(message);
            },
        };
        let method = match json::text_at(&value, "/method") {
            Some(method) => method,
            None => String::new(),
        };
        let fields = Fields {
            method,
            key: json::text_at(&value, "/params/key"),
            kind: json::text_at(&value, "/params/kind"),
            n: json::number_at(&value, "/params/n"),
            frame: json::number_at(&value, "/params/frame"),
            pc: json::number_at(&value, "/params/pc"),
            max_steps: json::number_at(&value, "/params/maxSteps"),
            addr: json::number_at(&value, "/params/addr"),
            core: json::number_at(&value, "/params/core"),
            engine: json::number_at(&value, "/params/engine"),
            index: json::number_at(&value, "/params/index"),
            value: json::number_at(&value, "/params/value"),
            len: json::number_at(&value, "/params/len"),
            top: json::number_at(&value, "/params/top"),
            steps: json::number_at(&value, "/params/steps"),
            count: json::number_at(&value, "/params/count"),
            x: json::number_at(&value, "/params/x"),
            y: json::number_at(&value, "/params/y"),
            enable: json::flag_at(&value, "/params/enable"),
            thumb: json::flag_at(&value, "/params/thumb"),
            pressed: json::flag_at(&value, "/params/pressed"),
        };
        Ok(Request { value, fields })
    }
}

/// What a client can ask for.
#[derive(Clone, Copy, Debug, PartialEq, Eq, Structural)]
pub enum Command {
    /// `run.frames`
    RunFrames { n: u64 },
    /// `run.toFrame`
    RunToFrame { frame: u64 },
    /// `run.steps`
    RunSteps { n: u64 },
    /// `run.untilPc`
    RunUntilPc { pc: u32, max_steps: u64 },
    /// `run.untilWrite`
    RunUntilWrite { addr: u32, max_steps: u64 },
    /// `cpu.registers`
    Registers { core: u64 },
    /// `cpu.setReg`
    SetRegister { index: u32, value: u32 },
    /// `memory.read`
    Read { addr: u32, len: u32, core: u64 },
    /// `memory.readU32`
    ReadU32 { addr: u32, core: u64 },
    /// `memory.readU16`
    ReadU16 { addr: u32, core: u64 },
    /// `memory.writeU32`
    WriteU32 { addr: u32, value: u32 },
    /// `memory.writeU8`
    WriteU8 { addr: u32, value: u8 },
    /// `memory.watch`
    Watch { enable: bool, reads: bool },
    /// `memory.watchReport`
    WatchReport { top: u64, reads: bool },
    /// `execution.hottestPc`
    HottestPc { steps: u64, top: u64 },
    /// `execution.disassemble`
    Disassemble { addr: u32, count: u32, thumb: Option<bool> },
    /// `execution.callStack`
    CallStack { top: u32 },
    /// `video.state`
    VideoState { engine: u64 },
    /// `video.explainPixel`
    ExplainPixel { engine: u64, x: u16, y: u16 },
    /// `video.scanline`
    Scanline { engine: u64, y: u16 },
    /// `scheduler.pendingEvents`
    PendingEvents,
    /// `interrupts.state`
    InterruptState { core: u64 },
    /// `input.set`
    SetKey { key: Key, pressed: bool },
    /// `audio.take`
    TakeAudio,
}

/// The key of a name in any case, if it names one.
pub open spec fn key_named(name: Seq<char>) -> Option<Key> {
    if exists|key: Key| #[trigger] key.spec_name() == text::uppercase(name) {
        Some(choose|key: Key| #[trigger] key.spec_name() == text::uppercase(name))
    } else {
        None
    }
}

/// A number, or zero, cut to a word.
pub open spec fn word(given: Option<u64>) -> u32 {
    or(given, 0) as u32
}

impl Fields {
    /// Whether the watch on reads is meant; the watch on writes is, otherwise.
    pub open spec fn means_reads(self) -> bool {
        chars(self.kind) == Some("reads"@)
    }

    /// The command that the fields spell, or why they spell none.
    pub open spec fn spelled(self) -> Result<Command, Seq<char>> {
        let method = self.method@;
        if method == "run.frames"@ {
            Ok(Command::RunFrames { n: or(self.n, 1) })
        } else if method == "run.toFrame"@ {
            Ok(Command::RunToFrame { frame: or(self.frame, 0) })
        } else if method == "run.steps"@ {
            Ok(Command::RunSteps { n: or(self.n, 1) })
        } else if method == "run.untilPc"@ {
            Ok(
                Command::RunUntilPc {
                    pc: word(self.pc),
                    max_steps: or(self.max_steps, 20_000_000),
                },
            )
        } else if method == "run.untilWrite"@ {
            Ok(
                Command::RunUntilWrite {
                    addr: word(self.addr),
                    max_steps: or(self.max_steps, 20_000_000),
                },
            )
        } else if method == "cpu.registers"@ {
            Ok(Command::Registers { core: or(self.core, 0) })
        } else if method == "cpu.setReg"@ {
            Ok(Command::SetRegister { index: word(self.index), value: word(self.value) })
        } else if method == "memory.read"@ {
            Ok(
                Command::Read {
                    addr: word(self.addr),
                    len: or(self.len, 16) as u32,
                    core: or(self.core, 0),
                },
            )
        } else if method == "memory.readU32"@ {
            Ok(Command::ReadU32 { addr: word(self.addr), core: or(self.core, 0) })
        } else if method == "memory.readU16"@ {
            Ok(Command::ReadU16 { addr: word(self.addr), core: or(self.core, 0) })
        } else if method == "memory.writeU32"@ {
            Ok(Command::WriteU32 { addr: word(self.addr), value: word(self.value) })
        } else if method == "memory.writeU8"@ {
            Ok(Command::WriteU8 { addr: word(self.addr), value: word(self.value) as u8 })
        } else if method == "memory.watch"@ {
            Ok(Command::Watch { enable: or(self.enable, true), reads: self.means_reads() })
        } else if method == "memory.watchReport"@ {
            Ok(Command::WatchReport { top: or(self.top, 24), reads: self.means_reads() })
        } else if method == "execution.hottestPc"@ {
            Ok(Command::HottestPc { steps: or(self.steps, 20_000), top: or(self.top, 12) })
        } else if method == "execution.disassemble"@ {
            Ok(
                Command::Disassemble {
                    addr: word(self.addr),
                    count: or(self.count, 16) as u32,
                    thumb: self.thumb,
                },
            )
        } else if method == "execution.callStack"@ {
            Ok(Command::CallStack { top: or(self.top, 0x0300_7F00) as u32 })
        } else if method == "video.state"@ {
            Ok(Command::VideoState { engine: or(self.engine, 0) })
        } else if method == "video.explainPixel"@ {
            Ok(
                Command::ExplainPixel {
                    engine: or(self.engine, 0),
                    x: word(self.x) as u16,
                    y: word(self.y) as u16,
                },
            )
        } else if method == "video.scanline"@ {
            Ok(Command::Scanline { engine: or(self.engine, 0), y: word(self.y) as u16 })
        } else if method == "scheduler.pendingEvents"@ {
            Ok(Command::PendingEvents)
        } else if method == "interrupts.state"@ {
            Ok(Command::InterruptState { core: or(self.core, 0) })
        } else if method == "input.set"@ {
            let name = or(chars(self.key), Seq::empty());
            match key_named(name) {
                Some(key) => Ok(Command::SetKey { key, pressed: or(self.pressed, true) }),
                None => Err("unknown key: "@ + name),
            }
        } else if method == "audio.take"@ {
            Ok(Command::TakeAudio)
        } else {
            Err("unknown method: "@ + method)
        }
    }

    fn is(&self, method: &str) -> (same: bool)
        ensures
            same == (self.method@ == method@),
    {
        text::same(self.method.as_str(), method)
    }

    fn reads(&self) -> (reads: bool)
        ensures
            reads == self.means_reads(),
    {
        match &self.kind {
            Some(kind) => text::same(kind.as_str(), "reads"),
            None => false,
        }
    }

    /// Set a button by name.
    fn key_command(&self) -> (result: Result<Command, String>)
        ensures
            ({
                let name = or(chars(self.key), Seq::empty());
                match (result, key_named(name)) {
                    (Ok(command), Some(key)) => command == (Command::SetKey {
                        key,
                        pressed: or(self.pressed, true),
                    }),
                    (Err(message), None) => message@ == "unknown key: "@ + name,
                    _ => false,
                }
            }),
    {
        let name = match &self.key {
            Some(name) => text::text(name.as_str()),
            None => String::new(),
        };
        match Key::from_name(name.as_str()) {
            Some(key) => {
                proof {
                    let other = choose|other: Key| #[trigger]
                        other.spec_name() == text::uppercase(name@);
                    crate::gba::keypad::key_names_round_trip(key, other);
                }
                Ok(Command::SetKey { key, pressed: self.pressed.unwrap_or(true) })
            },
            None => {
                let mut message = text::text("unknown key: ");
                message.append(name.as_str());
                Err(message)
            },
        }
    }

    fn run_command(&self) -> (command: Option<Command>)
        ensures
            match command {
                Some(command) => self.spelled() == Ok::<Command, Seq<char>>(command),
                None => {
                    &&& self.method@ != "run.frames"@
                    &&& self.method@ != "run.toFrame"@
                    &&& self.method@ != "run.steps"@
                    &&& self.method@ != "run.untilPc"@
                    &&& self.method@ != "run.untilWrite"@
                },
            },
    {
        if self.is("run.frames") {
            Some(Command::RunFrames { n: self.n.unwrap_or(1) })
        } else if self.is("run.toFrame") {
            Some(Command::RunToFrame { frame: self.frame.unwrap_or(0) })
        } else if self.is("run.steps") {
            Some(Command::RunSteps { n: self.n.unwrap_or(1) })
        } else if self.is("run.untilPc") {
            Some(
                Command::RunUntilPc {
                    pc: self.pc.unwrap_or(0) as u32,
                    max_steps: self.max_steps.unwrap_or(20_000_000),
                },
            )
        } else if self.is("run.untilWrite") {
            Some(
                Command::RunUntilWrite {
                    addr: self.addr.unwrap_or(0) as u32,
                    max_steps: self.max_steps.unwrap_or(20_000_000),
                },
            )
        } else {
            None
        }
    }

    /// The command that the fields spell: an unknown method, or an unknown key, is
    /// refused by name.
    pub fn command(&self) -> (result: Result<Command, String>)
        ensures
            match (result, self.spelled()) {
                (Ok(command), Ok(spelled)) => command == spelled,
                (Err(message), Err(reason)) => message@ == reason,
                _ => false,
            },
    {
        if let Some(command) = self.run_command() {
            return Ok(command);
        }
        let addr = self.addr.unwrap_or(0) as u32;
        let value = self.value.unwrap_or(0) as u32;
        let core = self.core.unwrap_or(0);
        let engine = self.engine.unwrap_or(0);
        if self.is("cpu.registers") {
            Ok(Command::Registers { core })
        } else if self.is("cpu.setReg") {
            Ok(Command::SetRegister { index: self.index.unwrap_or(0) as u32, value })
        } else if self.is("memory.read") {
            Ok(Command::Read { addr, len: self.len.unwrap_or(16) as u32, core })
        } else if self.is("memory.readU32") {
            Ok(Command::ReadU32 { addr, core })
        } else if self.is("memory.readU16") {
            Ok(Command::ReadU16 { addr, core })
        } else if self.is("memory.writeU32") {
            Ok(Command::WriteU32 { addr, value })
        } else if self.is("memory.writeU8") {
            Ok(Command::WriteU8 { addr, value: value as u8 })
        } else if self.is("memory.watch") {
            Ok(Command::Watch { enable: self.enable.unwrap_or(true), reads: self.reads() })
        } else if self.is("memory.watchReport") {
            Ok(Command::WatchReport { top: self.top.unwrap_or(24), reads: self.reads() })
        } else if self.is("execution.hottestPc") {
            Ok(
                Command::HottestPc {
                    steps: self.steps.unwrap_or(20_000),
                    top: self.top.unwrap_or(12),
                },
            )
        } else if self.is("execution.disassemble") {
            Ok(
                Command::Disassemble {
                    addr,
                    count: self.count.unwrap_or(16) as u32,
                    thumb: self.thumb,
                },
            )
        } else if self.is("execution.callStack") {
            Ok(Command::CallStack { top: self.top.unwrap_or(0x0300_7F00) as u32 })
        } else if self.is("video.state") {
            Ok(Command::VideoState { engine })
        } else if self.is("video.explainPixel") {
            Ok(
                Command::ExplainPixel {
                    engine,
                    x: self.x.unwrap_or(0) as u32 as u16,
                    y: self.y.unwrap_or(0) as u32 as u16,
                },
            )
        } else if self.is("video.scanline") {
            Ok(Command::Scanline { engine, y: self.y.unwrap_or(0) as u32 as u16 })
        } else if self.is("scheduler.pendingEvents") {
            Ok(Command::PendingEvents)
        } else if self.is("interrupts.state") {
            Ok(Command::InterruptState { core })
        } else if self.is("input.set") {
            self.key_command()
        } else if self.is("audio.take") {
            Ok(Command::TakeAudio)
        } else {
            let mut message = text::text("unknown method: ");
            message.append(self.method.as_str());
            Err(message)
        }
    }
}

} // verus!
