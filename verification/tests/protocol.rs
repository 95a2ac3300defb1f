//! The debug protocol: from a line of JSON to an answer.

use std::collections::HashMap;

use rewinds::debug::base64::base64;
use rewinds::debug::counts::{count, top_entries};
use rewinds::debug::nds_button_bit;
use rewinds::debug::readout::{audio_stats, region};
use rewinds::debug::request::{Command, Request};
use rewinds::debug::run::{RunStep, RunTask};
use rewinds::debug::server::Outcome;
use rewinds::debug::session::{Reply, Session};
use rewinds::emu_core::Access;
use rewinds::emulator::{Console, Emulator};
use rewinds::gba::system::System;
use rewinds::gba::Key;

fn session() -> Session {
    Session::new(Emulator::from_gba_system(System::new()))
}

fn command(line: &str) -> Result<Command, String> {
    Request::parse(line)?.fields.command()
}

fn answer(session: &mut Session, command: Command) -> Reply {
    match session.dispatch(command) {
        Ok(Outcome::Reply(reply)) => reply,
        Ok(Outcome::Run(_)) => panic!("answered by running"),
        Err(message) => panic!("{message}"),
    }
}

fn task(session: &mut Session, command: Command) -> RunTask {
    match session.dispatch(command) {
        Ok(Outcome::Run(task)) => task,
        _ => panic!("not a run"),
    }
}

#[test]
fn requests_carry_their_parameters() {
    assert_eq!(
        command(r#"{"id":1,"method":"memory.read","params":{"addr":50331648,"len":4,"core":1}}"#),
        Ok(Command::Read { addr: 0x0300_0000, len: 4, core: 1 })
    );
    assert_eq!(
        command(r#"{"method":"memory.writeU8","params":{"addr":33554432,"value":511}}"#),
        Ok(Command::WriteU8 { addr: 0x0200_0000, value: 0xFF })
    );
    assert_eq!(
        command(r#"{"method":"input.set","params":{"key":"right","pressed":false}}"#),
        Ok(Command::SetKey { key: Key::Right, pressed: false })
    );
    assert_eq!(
        command(r#"{"method":"execution.disassemble","params":{"addr":8,"count":2,"thumb":true}}"#),
        Ok(Command::Disassemble { addr: 8, count: 2, thumb: Some(true) })
    );
    assert_eq!(
        command(r#"{"method":"memory.watch","params":{"kind":"reads","enable":false}}"#),
        Ok(Command::Watch { enable: false, reads: true })
    );
}

#[test]
fn missing_parameters_take_their_defaults() {
    assert_eq!(command(r#"{"method":"run.frames"}"#), Ok(Command::RunFrames { n: 1 }));
    assert_eq!(command(r#"{"method":"run.toFrame"}"#), Ok(Command::RunToFrame { frame: 0 }));
    assert_eq!(command(r#"{"method":"run.steps"}"#), Ok(Command::RunSteps { n: 1 }));
    assert_eq!(
        command(r#"{"method":"run.untilPc","params":{"pc":16}}"#),
        Ok(Command::RunUntilPc { pc: 16, max_steps: 20_000_000 })
    );
    assert_eq!(
        command(r#"{"method":"memory.read","params":{}}"#),
        Ok(Command::Read { addr: 0, len: 16, core: 0 })
    );
    assert_eq!(
        command(r#"{"method":"memory.watch"}"#),
        Ok(Command::Watch { enable: true, reads: false })
    );
    assert_eq!(
        command(r#"{"method":"memory.watchReport"}"#),
        Ok(Command::WatchReport { top: 24, reads: false })
    );
    assert_eq!(
        command(r#"{"method":"execution.hottestPc"}"#),
        Ok(Command::HottestPc { steps: 20_000, top: 12 })
    );
    assert_eq!(
        command(r#"{"method":"execution.callStack"}"#),
        Ok(Command::CallStack { top: 0x0300_7F00 })
    );
    // A parameter of another type is as good as missing.
    assert_eq!(
        command(r#"{"method":"run.frames","params":{"n":"three"}}"#),
        Ok(Command::RunFrames { n: 1 })
    );
    assert_eq!(
        command(r#"{"method":"run.frames","params":{"n":-3}}"#),
        Ok(Command::RunFrames { n: 1 })
    );
}

#[test]
fn unknown_requests_are_refused_by_name() {
    assert_eq!(command(r#"{"method":"run.backwards"}"#), Err("unknown method: run.backwards".to_string()));
    assert_eq!(command(r#"{"id":3}"#), Err("unknown method: ".to_string()));
    assert_eq!(
        command(r#"{"method":"input.set","params":{"key":"turbo"}}"#),
        Err("unknown key: turbo".to_string())
    );
    assert!(command("{not json").unwrap_err().starts_with("bad json: "));
}

#[test]
fn the_request_keeps_its_document() {
    let request = match Request::parse(r#"{"id":[7],"method":"audio.take"}"#) {
        Ok(request) => request,
        Err(message) => panic!("{message}"),
    };
    assert_eq!(request.value.get("id").map(|id| id.to_string()), Some("[7]".to_string()));
}

#[test]
fn memory_commands_write_and_read() {
    let mut s = session();
    assert!(matches!(
        answer(&mut s, Command::WriteU32 { addr: 0x0300_0000, value: 0x6F66_6F66 }),
        Reply::Done
    ));
    assert!(matches!(
        answer(&mut s, Command::ReadU32 { addr: 0x0300_0000, core: 0 }),
        Reply::Value(0x6F66_6F66)
    ));
    assert!(matches!(
        answer(&mut s, Command::WriteU8 { addr: 0x0300_0001, value: 0x61 }),
        Reply::Done
    ));
    assert!(matches!(
        answer(&mut s, Command::ReadU16 { addr: 0x0300_0000, core: 0 }),
        Reply::Value(0x6166)
    ));
    match answer(&mut s, Command::Read { addr: 0x0300_0000, len: 4, core: 0 }) {
        Reply::Bytes { addr, len, base64 } => {
            assert_eq!((addr, len), (0x0300_0000, 4));
            assert_eq!(base64, "ZmFmbw==");
        }
        _ => panic!("expected bytes"),
    }
}

#[test]
fn processor_commands_set_and_tell() {
    let mut s = session();
    assert!(matches!(
        answer(&mut s, Command::SetRegister { index: 3, value: 0x1234 }),
        Reply::Done
    ));
    match answer(&mut s, Command::Registers { core: 0 }) {
        Reply::Registers { core, r, .. } => {
            assert_eq!(core, 0);
            assert_eq!(r[3], 0x1234);
        }
        _ => panic!("expected registers"),
    }
    match s.dispatch(Command::SetRegister { index: 16, value: 0 }) {
        Err(message) => assert_eq!(message, "no such register: 16"),
        Ok(_) => panic!("register 16 exists"),
    }
}

#[test]
fn code_is_listed() {
    let mut s = session();
    answer(&mut s, Command::WriteU32 { addr: 0x0300_0000, value: 0xE281_1001 });
    answer(&mut s, Command::WriteU32 { addr: 0x0300_0004, value: 0x4488_1888 });
    let arm = Command::Disassemble { addr: 0x0300_0000, count: 1, thumb: Some(false) };
    match answer(&mut s, arm) {
        Reply::Listing { thumb, lines } => {
            assert!(!thumb);
            assert_eq!(lines.len(), 1);
            assert_eq!(lines[0].text, "add\tr1, r1, #1");
        }
        _ => panic!("expected a listing"),
    }
    let thumb = Command::Disassemble { addr: 0x0300_0004, count: 2, thumb: Some(true) };
    match answer(&mut s, thumb) {
        Reply::Listing { lines, .. } => {
            assert_eq!(lines[0].text, "add\tr0, r1, r2");
            assert_eq!(lines[1].addr, 0x0300_0006);
            assert_eq!(lines[1].text, "add\tr8, r1");
        }
        _ => panic!("expected a listing"),
    }
}

#[test]
fn the_call_stack_lists_return_addresses() {
    let mut s = session();
    answer(&mut s, Command::SetRegister { index: 13, value: 0x0300_0002 });
    answer(&mut s, Command::WriteU32 { addr: 0x0300_0000, value: 0x0800_1235 });
    answer(&mut s, Command::WriteU32 { addr: 0x0300_0004, value: 0x0800_1234 }); // even
    answer(&mut s, Command::WriteU32 { addr: 0x0300_0008, value: 0x0A00_0001 }); // not ROM
    answer(&mut s, Command::WriteU32 { addr: 0x0300_000C, value: 0x09FF_FFFF });
    match answer(&mut s, Command::CallStack { top: 0x0300_0010 }) {
        Reply::CallStack { sp, frames, .. } => {
            assert_eq!(sp, 0x0300_0000);
            let frames: Vec<(u32, u32)> = frames.iter().map(|f| (f.sp, f.addr)).collect();
            assert_eq!(frames, vec![(0x0300_0000, 0x0800_1234), (0x0300_000C, 0x09FF_FFFE)]);
        }
        _ => panic!("expected a call stack"),
    }
}

#[test]
fn video_commands_tell_and_explain() {
    let mut s = session();
    if let Some(system) = s.emu.as_gba_mut() {
        system.gba.bus.write16(0x0400_0000, 0x0403, Access::cpu_data(), &mut system.scheduler);
    }
    answer(&mut s, Command::WriteU32 { addr: 0x0600_0000, value: 0x03E0 });
    match answer(&mut s, Command::VideoState { engine: 0 }) {
        Reply::VideoState { mode, dispcnt, backgrounds, .. } => {
            assert_eq!((mode, dispcnt), (3, 0x0403));
            assert!(backgrounds[2].enabled && !backgrounds[0].enabled);
        }
        _ => panic!("expected the video state"),
    }
    match answer(&mut s, Command::ExplainPixel { engine: 0, x: 0, y: 0 }) {
        Reply::Pixel { explanation, .. } => assert_eq!(explanation.final_color.0, 0x03E0),
        _ => panic!("expected a pixel"),
    }
    match answer(&mut s, Command::Scanline { engine: 0, y: 0 }) {
        Reply::Scanline { explanation, .. } => assert_eq!(explanation.final_line[0].0, 0x03E0),
        _ => panic!("expected a scanline"),
    }
    match s.dispatch(Command::ExplainPixel { engine: 0, x: 240, y: 7 }) {
        Err(message) => assert_eq!(message, "PixelOutsideFramebuffer { x: 240, y: 7 }"),
        Ok(_) => panic!("pixel 240 is visible"),
    }
}

#[test]
fn device_commands_tell_and_take() {
    let mut s = session();
    match answer(&mut s, Command::PendingEvents) {
        Reply::Events { now, count, events } => {
            assert_eq!((now, count, events.len()), (0, 0, 0));
        }
        _ => panic!("expected events"),
    }
    answer(&mut s, Command::WriteU32 { addr: 0x0400_0200, value: 0x0008 });
    match answer(&mut s, Command::InterruptState { core: 0 }) {
        Reply::Interrupts { enabled, flags, master_enable, pending, line_asserted, .. } => {
            assert_eq!((enabled, flags), (8, 0));
            assert!(!master_enable && !pending && !line_asserted);
        }
        _ => panic!("expected interrupts"),
    }
    answer(&mut s, Command::SetKey { key: Key::Start, pressed: true });
    assert!(s.emu.as_gba().unwrap().keypad.is_pressed(Key::Start));
    if let Some(system) = s.emu.as_gba_mut() {
        system.gba.bus.io.apu.generate_sample();
    }
    match answer(&mut s, Command::TakeAudio) {
        Reply::Audio(levels) => assert_eq!(levels, vec![0, 0]),
        _ => panic!("expected audio"),
    }
    match answer(&mut s, Command::TakeAudio) {
        Reply::Audio(levels) => assert!(levels.is_empty()),
        _ => panic!("expected audio"),
    }
}

#[test]
fn watches_count_while_they_are_on() {
    let mut s = session();
    assert!(matches!(
        answer(&mut s, Command::WatchReport { top: 2, reads: false }),
        Reply::NotWatching
    ));
    answer(&mut s, Command::Watch { enable: true, reads: false });
    for addr in [1u32, 2, 2, 3, 3, 3] {
        s.probes.note_write(addr);
        s.probes.note_read(addr);
    }
    match answer(&mut s, Command::WatchReport { top: 2, reads: false }) {
        Reply::Counts(entries) => assert_eq!(entries, vec![(3, 3), (2, 2)]),
        _ => panic!("expected counts"),
    }
    assert!(matches!(
        answer(&mut s, Command::WatchReport { top: 2, reads: true }),
        Reply::NotWatching
    ));
    answer(&mut s, Command::Watch { enable: false, reads: false });
    assert!(matches!(
        answer(&mut s, Command::WatchReport { top: 2, reads: false }),
        Reply::NotWatching
    ));
}

#[test]
fn run_frames_asks_for_each_frame() {
    let mut s = session();
    let mut t = task(&mut s, Command::RunFrames { n: 2 });
    assert!(matches!(t.advance(&mut s), RunStep::Frame));
    assert!(matches!(t.advance(&mut s), RunStep::Frame));
    match t.advance(&mut s) {
        RunStep::Done(Reply::Summary(summary)) => {
            assert_eq!((summary.console, summary.frame), (Console::Gba, 0));
        }
        _ => panic!("expected the end"),
    }
}

#[test]
fn run_to_frame_stops_at_the_frame() {
    let mut s = session();
    let mut t = task(&mut s, Command::RunToFrame { frame: 2 });
    let mut asked = 0;
    while let RunStep::Frame = t.advance(&mut s) {
        asked += 1;
        if let Some(system) = s.emu.as_gba_mut() {
            system.gba.bus.io.video.end_frame();
        }
    }
    assert_eq!(asked, 2);
}

#[test]
fn run_steps_asks_for_each_instruction() {
    let mut s = session();
    let mut t = task(&mut s, Command::RunSteps { n: 1 });
    assert!(matches!(t.advance(&mut s), RunStep::Instruction));
    assert!(matches!(t.advance(&mut s), RunStep::Done(Reply::Summary(_))));
}

#[test]
fn run_until_pc_stops_there_or_at_the_limit() {
    let mut s = session();
    let mut t = task(&mut s, Command::RunUntilPc { pc: 8, max_steps: 10 });
    let mut pc = 0;
    loop {
        match t.advance(&mut s) {
            RunStep::Instruction => {
                pc += 4;
                answer(&mut s, Command::SetRegister { index: 15, value: pc });
            }
            RunStep::Done(Reply::PcSearch { hit, steps, pc }) => {
                assert_eq!((hit, steps, pc), (true, 2, 8));
                break;
            }
            _ => panic!("unexpected step"),
        }
    }
    let mut t = task(&mut s, Command::RunUntilPc { pc: 0x40, max_steps: 1 });
    assert!(matches!(t.advance(&mut s), RunStep::Instruction));
    assert!(matches!(
        t.advance(&mut s),
        RunStep::Done(Reply::PcSearch { hit: false, steps: 1, .. })
    ));
}

#[test]
fn run_until_write_names_the_writer() {
    let mut s = session();
    answer(&mut s, Command::WriteU32 { addr: 0x0300_0000, value: 5 });
    answer(&mut s, Command::SetRegister { index: 15, value: 0x100 });
    let mut t = task(&mut s, Command::RunUntilWrite { addr: 0x0300_0000, max_steps: 10 });
    assert!(matches!(t.advance(&mut s), RunStep::Instruction));
    s.probes.note_write(0x0300_0004);
    answer(&mut s, Command::SetRegister { index: 15, value: 0x104 });
    assert!(matches!(t.advance(&mut s), RunStep::Instruction));
    s.probes.note_write(0x0300_0000);
    assert!(matches!(
        t.advance(&mut s),
        RunStep::Done(Reply::WriteSearch { writer_pc: Some(0x104), steps: 1, value: 5 })
    ));
    assert_eq!(s.probes.break_write_addr, None);
    assert!(!s.probes.write_hit);

    let mut t = task(&mut s, Command::RunUntilWrite { addr: 0x0300_0000, max_steps: 1 });
    assert!(matches!(t.advance(&mut s), RunStep::Instruction));
    assert!(matches!(
        t.advance(&mut s),
        RunStep::Done(Reply::WriteSearch { writer_pc: None, steps: 1, value: 5 })
    ));
}

#[test]
fn hottest_pc_counts_where_steps_lead() {
    let mut s = session();
    let mut t = task(&mut s, Command::HottestPc { steps: 3, top: 1 });
    for pc in [0x10u32, 0x20, 0x10] {
        assert!(matches!(t.advance(&mut s), RunStep::Instruction));
        answer(&mut s, Command::SetRegister { index: 15, value: pc });
    }
    match t.advance(&mut s) {
        RunStep::Done(Reply::Counts(entries)) => assert_eq!(entries, vec![(0x10, 2)]),
        _ => panic!("expected counts"),
    }
}

#[test]
fn base64_pads_short_chunks() {
    assert_eq!(base64(b""), "");
    assert_eq!(base64(b"f"), "Zg==");
    assert_eq!(base64(b"fo"), "Zm8=");
    assert_eq!(base64(b"foo"), "Zm9v");
    assert_eq!(base64(b"foobar"), "Zm9vYmFy");
    assert_eq!(base64(&[0xFB, 0xFF, 0xFE]), "+//+");
}

#[test]
fn the_highest_counts_come_first() {
    let mut counts: HashMap<u32, u64> = HashMap::new();
    for addr in [5u32, 5, 5, 9, 9, 1] {
        count(&mut counts, addr);
    }
    assert_eq!(top_entries(&counts, 2), vec![(5, 3), (9, 2)]);
    assert_eq!(top_entries(&counts, 9).len(), 3);
    assert!(top_entries(&counts, 0).is_empty());
}

#[test]
fn regions_are_named() {
    assert_eq!(region(0x0000_0000), "bios");
    assert_eq!(region(0x0100_0000), "open");
    assert_eq!(region(0x0203_FFFF), "ewram");
    assert_eq!(region(0x0300_7F00), "iwram");
    assert_eq!(region(0x0400_0000), "io");
    assert_eq!(region(0x0500_0000), "palette");
    assert_eq!(region(0x0600_0000), "vram");
    assert_eq!(region(0x0700_0000), "oam");
    assert_eq!(region(0x0D00_0000), "rom");
    assert_eq!(region(0x0F00_0000), "sram");
    assert_eq!(region(0x1000_0000), "open");
}

#[test]
fn sound_levels_are_measured() {
    assert_eq!(audio_stats(&[]), (0, 0));
    assert_eq!(audio_stats(&[0, 5, -7, 0]), (7, 2));
    assert_eq!(audio_stats(&[i16::MIN]), (0x8000, 1));
}

#[test]
fn ds_buttons_are_named_in_any_case() {
    assert_eq!(nds_button_bit("a"), Some(0));
    assert_eq!(nds_button_bit("Start"), Some(3));
    assert_eq!(nds_button_bit("X"), Some(10));
    assert_eq!(nds_button_bit("y"), Some(11));
    assert_eq!(nds_button_bit("z"), None);
}
