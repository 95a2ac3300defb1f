//! The library's laws, each on concrete values.

use rewinds::arm::cpu::{Bus as CpuBus, BusModel, Cpu, Mode, Psr, Timed};
use rewinds::arm::Condition;
use rewinds::bits::{count_ones, rotate_right};
use rewinds::emu_core::{Access, AccessWidth, Scheduler};
use rewinds::gba::bus::Bus;
use rewinds::gba::cartridge::calendar::civil_from_days;
use rewinds::gba::cartridge::rtc::datetime_bcd;
use rewinds::gba::dma::DmaChannel;
use rewinds::gba::event::{ApuEvent, EventKind, PpuEvent};
use rewinds::gba::io::{Io, PowerState};
use rewinds::gba::machine::Gba;
use rewinds::gba::ppu::priority::{resolve, CandidateSet};
use rewinds::gba::ppu::registers::Registers;
use rewinds::gba::ppu::state::{CandidatePixel, Color15, LayerId, PixelFlags};
use rewinds::gba::ppu::timing::TimingState;
use rewinds::gba::ppu::Ppu;
use rewinds::gba::prefetch::Prefetch;
use rewinds::gba::timer::{TimerId, Timers};
use rewinds::gba::{InterruptController, IrqSource};

fn pixel(layer: LayerId, priority: u8, color: u16) -> CandidatePixel {
    CandidatePixel { color: Color15(color), layer, priority, flags: PixelFlags::none() }
}

#[test]
fn the_front_most_candidate_wins() {
    let mut set = CandidateSet::new(CandidatePixel::backdrop(Color15(1)));
    set.push(Some(pixel(LayerId::Bg2, 2, 2)));
    set.push(None);
    set.push(Some(pixel(LayerId::Bg1, 2, 3)));
    assert_eq!(set.len(), 3);
    let resolved = resolve(&set);
    // Same priority: the lower-numbered background is in front.
    assert_eq!(resolved.top.layer, LayerId::Bg1);
    assert_eq!(resolved.second.layer, LayerId::Bg2);
    set.push(Some(pixel(LayerId::Bg3, 0, 4)));
    assert_eq!(resolve(&set).top.layer, LayerId::Bg3);
    assert!(resolve(&set).explain().tie_break.by_priority);
}

#[test]
fn readable_video_registers_round_trip() {
    let mut r = Registers::default();
    for offset in [0x008u32, 0x00A, 0x00C, 0x00E, 0x048, 0x04A, 0x050, 0x052] {
        r.write16(offset, 0x1234 + offset as u16, 0xFFFF);
        assert_eq!(r.read16(offset), 0x1234 + offset as u16);
    }
    // A masked write keeps the other byte.
    r.write16(0x050, 0xFF00, 0x00FF);
    assert_eq!(r.read16(0x050), 0x1200);
}

#[test]
fn affine_references_are_signed_28_bit() {
    let mut r = Registers::default();
    r.write16(0x028, 0x0001, 0xFFFF);
    r.write16(0x02A, 0x0FFF, 0xFFFF);
    assert_eq!(r.bg_ref_x[0], -0x0000_FFFF);
    r.write16(0x02A, 0x0000, 0xFFFF);
    assert_eq!(r.bg_ref_x[0], 1);
}

#[test]
fn affine_references_advance_line_by_line() {
    let mut ppu = Ppu::new();
    ppu.registers.write16(0x028, 100, 0xFFFF); // BG2X
    ppu.registers.write16(0x022, 7, 0xFFFF); // BG2PB
    ppu.reload_affine_references();
    ppu.advance_affine_references();
    ppu.advance_affine_references();
    assert_eq!(ppu.affine.bg2.x, 114);
    assert_eq!(ppu.affine_reference_for_line(0, 2), ppu.affine.bg2);
}

#[test]
fn a_mid_line_write_splits_the_line() {
    let mut ppu = Ppu::new();
    ppu.latch_for_scanline();
    let first = ppu.segments[0].x_start;
    ppu.write_dispcnt(3);
    ppu.split_segment(ppu.line_start_time + 400);
    assert_eq!(ppu.segments.len(), 2);
    assert_eq!(ppu.segments[0].x_start, first);
    assert!(ppu.segments[1].x_start > first);
}

#[test]
fn dispstat_writes_keep_the_timing() {
    let mut timing = TimingState::default();
    let mut irq = InterruptController::new();
    timing.on_hblank(&mut irq);
    timing.write_dispstat(0xFF07);
    assert!(timing.hblank_flag());
    assert_eq!(timing.vcount(), 0);
    assert_eq!(timing.read_dispstat() >> 8, 0xFF);
}

#[test]
fn scanlines_run_through_the_frame() {
    let mut gba = Gba::new();
    let mut sched: Scheduler<EventKind> = Scheduler::new();
    gba.bus.io.video.start(0, &mut sched);
    let mut lines = 0;
    while lines < 228 {
        let deadline = sched.next_deadline().unwrap();
        sched.set_now(deadline);
        let before = gba.bus.io.video.vcount();
        sched.run_due_events(&mut gba);
        if gba.bus.io.video.vcount() != before {
            lines += 1;
            assert_eq!(gba.bus.io.video.vcount(), (lines % 228) as u16);
            assert_eq!(gba.bus.io.video.vblank_flag(), (160..227).contains(&(lines % 228)));
        }
    }
}

#[test]
fn samples_follow_at_the_output_rate() {
    let mut gba = Gba::new();
    let mut sched: Scheduler<EventKind> = Scheduler::new();
    sched.schedule_at(512, EventKind::Apu(ApuEvent::Sample));
    sched.set_now(512);
    sched.run_due_events(&mut gba);
    assert_eq!(gba.bus.io.apu.buffered_samples(), 2);
    assert_eq!(sched.next_deadline(), Some(1024));
}

#[test]
fn hblank_in_the_vertical_blank_moves_nothing() {
    let mut gba = Gba::new();
    let mut sched: Scheduler<EventKind> = Scheduler::new();
    let cpu = Access::cpu_data();
    gba.bus.write16(0x0200_0000, 0xBEEF, cpu, &mut sched);
    gba.bus.write32(0x0400_00B0, 0x0200_0000, cpu, &mut sched);
    gba.bus.write32(0x0400_00B4, 0x0300_0000, cpu, &mut sched);
    gba.bus.write16(0x0400_00B8, 1, cpu, &mut sched);
    gba.bus.write16(0x0400_00BA, (1 << 15) | (2 << 12), cpu, &mut sched); // at HBlank
    gba.bus.io.video.timing.vcount = 160;
    sched.schedule_at(1, EventKind::Ppu(PpuEvent::HBlank));
    sched.set_now(1);
    sched.run_due_events(&mut gba);
    assert_eq!(gba.bus.read16(0x0300_0000, cpu, &sched).value, 0);
    gba.bus.io.video.timing.vcount = 10;
    sched.schedule_at(2, EventKind::Ppu(PpuEvent::HBlank));
    sched.set_now(2);
    sched.run_due_events(&mut gba);
    assert_eq!(gba.bus.read16(0x0300_0000, cpu, &sched).value, 0xBEEF);
}

#[test]
fn a_running_timer_counts_prescaled_cycles() {
    let mut sched: Scheduler<EventKind> = Scheduler::new();
    let mut timers = Timers::new();
    timers.write_reload(TimerId::Timer2, 0xFFF0);
    timers.write_control(TimerId::Timer2, (1 << 7) | 1, 0, &mut sched); // prescaler 64
    assert_eq!(sched.next_deadline(), Some(16 * 64));
    assert_eq!(timers.read_counter(TimerId::Timer2, 63), 0xFFF0);
    assert_eq!(timers.read_counter(TimerId::Timer2, 64), 0xFFF1);
    assert_eq!(timers.read_counter(TimerId::Timer2, 16 * 64 - 1), 0xFFFF);
    assert_eq!(timers.read_reload(TimerId::Timer2), 0xFFF0);
}

#[test]
fn a_single_transfer_disables_its_channel() {
    let mut channel = DmaChannel::new(0);
    channel.source = 0x0200_0000;
    channel.write_control(0x8000);
    assert!(channel.enabled && channel.start_pending);
    channel.finish(0x0200_0010, 0x0300_0010);
    assert!(!channel.enabled);
    assert_eq!(channel.control & 0x8000, 0);
    assert_eq!(channel.source, 0x0200_0000);
}

#[test]
fn only_an_enable_edge_latches_the_pointers() {
    let mut channel = DmaChannel::new(3);
    channel.source = 0x0200_0000;
    channel.write_control(0x8000 | (1 << 12));
    assert_eq!(channel.internal_source, 0x0200_0000);
    channel.source = 0x0300_0000;
    channel.write_control(0x8000 | (1 << 12) | (1 << 14));
    assert_eq!(channel.internal_source, 0x0200_0000);
}

#[test]
fn idle_cycles_fill_the_prefetcher() {
    let mut p = Prefetch::new();
    p.set_enabled(true);
    p.restart(4);
    p.step(8);
    assert_eq!(p.fetch_sequential(), 1);
    assert_eq!(p.fetch_sequential(), 1);
    assert!(p.fetch_sequential() > 1);
}

#[test]
fn inspecting_memory_changes_nothing() {
    let mut bus = Bus::new();
    let sched: Scheduler<EventKind> = Scheduler::new();
    bus.load_rom(vec![1, 2, 3, 4]);
    let before = bus.prefetch;
    let first = bus.read32(0x0800_0000, Access::cpu_data(), &sched).value;
    assert_eq!(bus.read32(0x0800_0000, Access::cpu_data(), &sched).value, first);
    assert_eq!(bus.prefetch, before);
}

#[test]
fn stop_is_deeper_than_halt() {
    let mut io = Io::new();
    io.irq.set_ie(0xFFFF);
    io.control.write_haltcnt(0x00);
    assert_eq!(io.power_state(), PowerState::Halted);
    io.irq.request(IrqSource::VBlank);
    assert!(io.should_wake());
    io.wake();
    assert_eq!(io.power_state(), PowerState::Running);
    io.control.write_haltcnt(0x80);
    assert_eq!(io.power_state(), PowerState::Stopped);
    assert!(!io.should_wake());
    io.irq.request(IrqSource::Keypad);
    assert!(io.should_wake());
}

#[test]
fn io_reads_are_assembled_from_registers() {
    let mut io = Io::new();
    io.irq.set_ie(0x1234);
    io.irq.request(IrqSource::VBlank);
    assert_eq!(io.read(0x200, AccessWidth::Word, 0), 0x0001_1234);
    assert_eq!(io.read(0x201, AccessWidth::Byte, 0), 0x12);
}

#[test]
fn leap_days_are_gregorian() {
    assert_eq!(civil_from_days(59), (1970, 3, 1));
    assert_eq!(civil_from_days(11_016), (2000, 2, 29));
    assert_eq!(civil_from_days(11_017), (2000, 3, 1));
    assert_eq!(civil_from_days(47_540), (2100, 2, 28));
    assert_eq!(civil_from_days(47_541), (2100, 3, 1));
    assert_eq!(civil_from_days(-1), (1969, 12, 31));
}

#[test]
fn the_clock_reads_the_given_second() {
    // 2000-02-29 13:45:59 UTC.
    let seconds = 11_016 * 86_400 + 13 * 3_600 + 45 * 60 + 59;
    let dt = datetime_bcd(0x40, seconds);
    assert_eq!(dt[0], 0x00);
    assert_eq!(dt[1], 0x02);
    assert_eq!(dt[2], 0x29);
    assert_eq!(dt[4] & 0x3F, 0x13);
    assert_eq!(dt[5], 0x45);
    assert_eq!(dt[6], 0x59);
}

#[test]
fn flags_and_modes_read_back() {
    let mut psr = Psr::from_bits(0x6000_001F);
    assert!(psr.z() && psr.c() && !psr.n());
    psr.set_n(true);
    psr.set_mode(Mode::Irq);
    assert!(psr.n() && psr.z());
    assert_eq!(psr.mode(), Some(Mode::Irq));
    assert!(psr.passes(Condition::Eq) && !psr.passes(Condition::Ne));
    assert!(psr.passes(Condition::Lt) && !psr.passes(Condition::Ge));
}

/// A memory that reads as one word everywhere.
struct Constant(u32);

/// What the memory stands for plays no part when it runs.
struct Unmodelled;

impl BusModel for Unmodelled {
    fn valid(self) -> bool {
        unreachable!()
    }
    fn fetched32(self, _address: u32, _sequential: bool) -> (Timed<u32>, Self) {
        unreachable!()
    }
    fn fetched16(self, _address: u32, _sequential: bool) -> (Timed<u16>, Self) {
        unreachable!()
    }
    fn loaded32(self, _address: u32, _sequential: bool) -> (Timed<u32>, Self) {
        unreachable!()
    }
    fn loaded16(self, _address: u32, _sequential: bool) -> (Timed<u16>, Self) {
        unreachable!()
    }
    fn loaded8(self, _address: u32, _sequential: bool) -> (Timed<u8>, Self) {
        unreachable!()
    }
    fn stored32(self, _address: u32, _value: u32, _sequential: bool) -> (u32, Self) {
        unreachable!()
    }
    fn stored16(self, _address: u32, _value: u16, _sequential: bool) -> (u32, Self) {
        unreachable!()
    }
    fn stored8(self, _address: u32, _value: u8, _sequential: bool) -> (u32, Self) {
        unreachable!()
    }
    fn idled(self, _cycles: u32) -> Self {
        unreachable!()
    }
    fn coprocessor_written(
        self,
        _cp: u8,
        _opcode1: u8,
        _crn: u8,
        _crm: u8,
        _opcode2: u8,
        _value: u32,
    ) -> (bool, Self) {
        unreachable!()
    }
    fn coprocessor_got(
        self,
        _cp: u8,
        _opcode1: u8,
        _crn: u8,
        _crm: u8,
        _opcode2: u8,
    ) -> (Option<u32>, Self) {
        unreachable!()
    }
}

impl CpuBus for Constant {
    type Model = Unmodelled;

    fn model(&self) -> Unmodelled {
        Unmodelled
    }

    fn fetch32(&mut self, _address: u32, _sequential: bool) -> Timed<u32> {
        Timed { value: self.0, cycles: 1 }
    }
    fn fetch16(&mut self, _address: u32, _sequential: bool) -> Timed<u16> {
        Timed { value: self.0 as u16, cycles: 1 }
    }
    fn load32(&mut self, _address: u32, _sequential: bool) -> Timed<u32> {
        Timed { value: self.0, cycles: 1 }
    }
    fn load16(&mut self, _address: u32, _sequential: bool) -> Timed<u16> {
        Timed { value: self.0 as u16, cycles: 1 }
    }
    fn load8(&mut self, _address: u32, _sequential: bool) -> Timed<u8> {
        Timed { value: self.0 as u8, cycles: 1 }
    }
    fn store32(&mut self, _address: u32, _value: u32, _sequential: bool) -> u32 {
        1
    }
    fn store16(&mut self, _address: u32, _value: u16, _sequential: bool) -> u32 {
        1
    }
    fn store8(&mut self, _address: u32, _value: u8, _sequential: bool) -> u32 {
        1
    }
    fn internal(&mut self, _cycles: u32) {}
    fn coprocessor_write(
        &mut self,
        _cp: u8,
        _opcode1: u8,
        _crn: u8,
        _crm: u8,
        _opcode2: u8,
        _value: u32,
    ) -> bool {
        false
    }
    fn coprocessor_read(
        &mut self,
        _cp: u8,
        _opcode1: u8,
        _crn: u8,
        _crm: u8,
        _opcode2: u8,
    ) -> Option<u32> {
        None
    }
}

#[test]
fn a_failed_condition_only_advances() {
    let mut cpu = Cpu::new();
    cpu.set_register(1, 7);
    cpu.step(&mut Constant(0x0281_1001)); // addeq r1, r1, #1, with Z clear
    assert_eq!(cpu.register(1), 7);
    assert_eq!(cpu.register(15), 4);
}

#[test]
fn an_interrupt_masks_and_returns() {
    let mut cpu = Cpu::new();
    let mut bus = Constant(0xE25E_F004); // subs pc, lr, #4
    cpu.set_register(15, 0x0800_0100);
    let before = cpu.cpsr();
    cpu.take_irq();
    assert_eq!(cpu.mode(), Some(Mode::Irq));
    assert!(!cpu.irq_enabled());
    assert_eq!(cpu.register(15), 0x18);
    cpu.step(&mut bus);
    assert_eq!(cpu.cpsr(), before);
    assert_eq!(cpu.register(15), 0x0800_0100);
}

#[test]
fn bits_rotate_and_count() {
    assert_eq!(rotate_right(0x0000_00FF, 8), 0xFF00_0000);
    assert_eq!(rotate_right(0x1234_5678, 0), 0x1234_5678);
    assert_eq!(count_ones(0xF00F), 8);
}

#[test]
fn byte_writes_touch_only_their_byte() {
    let mut io = Io::new();
    let mut sched = Scheduler::new();
    for offset in [0x000u32, 0x0BA, 0x0C6, 0x0D2, 0x0DE, 0x200, 0x204] {
        io.write(offset, AccessWidth::Half, 0x1234, &mut sched);
        io.write(offset, AccessWidth::Byte, 0x56, &mut sched);
        assert_eq!(io.read(offset, AccessWidth::Half, 0), 0x1256);
        io.write(offset + 1, AccessWidth::Byte, 0x07, &mut sched);
        assert_eq!(io.read(offset, AccessWidth::Half, 0), 0x0756);
    }
    io.write(0x005, AccessWidth::Byte, 0x9F, &mut sched);
    io.write(0x004, AccessWidth::Byte, 0x38, &mut sched);
    assert_eq!(io.read(0x004, AccessWidth::Half, 0) & 0xFF38, 0x9F38);
    io.write(0x102, AccessWidth::Byte, 0xC3, &mut sched);
    io.write(0x103, AccessWidth::Byte, 0xFF, &mut sched);
    assert_eq!(io.read(0x102, AccessWidth::Half, 0), 0x00C3);
}
