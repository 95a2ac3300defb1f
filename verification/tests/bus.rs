use rewinds::emu_core::{Access, AccessKind, AccessMaster, AccessSequence, Scheduler};
use rewinds::gba::bus::Bus;
use rewinds::gba::event::EventKind;
use rewinds::gba::IrqSource;

fn bus() -> (Bus, Scheduler<EventKind>) {
    (Bus::new(), Scheduler::new())
}

const CPU: Access = Access {
    master: AccessMaster::Cpu,
    kind: AccessKind::Data,
    sequence: AccessSequence::NonSequential,
};

#[test]
fn ram_round_trips_all_widths() {
    let (mut b, mut s) = bus();
    b.write32(0x0300_0000, 0xDEAD_BEEF, CPU, &mut s);
    assert_eq!(b.read32(0x0300_0000, CPU, &mut s).value, 0xDEAD_BEEF);
    assert_eq!(b.read16(0x0300_0000, CPU, &mut s).value, 0xBEEF);
    assert_eq!(b.read16(0x0300_0002, CPU, &mut s).value, 0xDEAD);
    assert_eq!(b.read8(0x0300_0000, CPU, &mut s).value, 0xEF);
    assert_eq!(b.read8(0x0300_0003, CPU, &mut s).value, 0xDE);

    // EWRAM too.
    b.write16(0x0200_0100, 0x1234, CPU, &mut s);
    assert_eq!(b.read16(0x0200_0100, CPU, &mut s).value, 0x1234);
}

#[test]
fn regions_mirror() {
    let (mut b, mut s) = bus();
    b.write32(0x0300_0000, 0xCAFEBABE, CPU, &mut s);
    // IWRAM mirrors every 0x8000.
    assert_eq!(b.read32(0x0300_8000, CPU, &mut s).value, 0xCAFEBABE);
    assert_eq!(b.read32(0x03FF_8000, CPU, &mut s).value, 0xCAFEBABE);

    // VRAM's 0x18000..0x20000 window mirrors 0x10000..0x18000.
    b.write16(0x0601_0000, 0xABCD, CPU, &mut s);
    assert_eq!(b.read16(0x0601_8000, CPU, &mut s).value, 0xABCD);
}

#[test]
fn byte_write_quirks() {
    let (mut b, mut s) = bus();
    // Palette: a byte write duplicates across the halfword.
    b.write8(0x0500_0000, 0xAB, CPU, &mut s);
    assert_eq!(b.read16(0x0500_0000, CPU, &mut s).value, 0xABAB);

    // OAM: byte writes are ignored.
    b.write16(0x0700_0000, 0x1111, CPU, &mut s);
    b.write8(0x0700_0000, 0xFF, CPU, &mut s);
    assert_eq!(b.read16(0x0700_0000, CPU, &mut s).value, 0x1111);
}

#[test]
fn unmapped_and_rom_open_bus() {
    let (mut b, mut s) = bus();
    // Unmapped region reads as open bus (0 for now).
    assert_eq!(b.read32(0x1000_0000, CPU, &mut s).value, 0);
    // ROM with no cartridge returns the address-based pattern.
    assert_eq!(b.read16(0x0800_0000, CPU, &mut s).value, 0x0000);
    assert_eq!(b.read16(0x0800_0004, CPU, &mut s).value, 0x0002);
}

#[test]
fn rom_reads_loaded_cartridge() {
    let (mut b, mut s) = bus();
    b.load_rom(vec![0x11, 0x22, 0x33, 0x44]);
    assert_eq!(b.read32(0x0800_0000, CPU, &mut s).value, 0x4433_2211);
    // ROM is read-only.
    b.write16(0x0800_0000, 0xFFFF, CPU, &mut s);
    assert_eq!(b.read16(0x0800_0000, CPU, &mut s).value, 0x2211);
}

#[test]
fn mmio_interrupt_registers() {
    let (mut b, mut s) = bus();
    // IE / IME.
    b.write16(0x0400_0200, IrqSource::Timer0.mask(), CPU, &mut s);
    b.write16(0x0400_0208, 1, CPU, &mut s);
    assert_eq!(b.io.irq.ie(), IrqSource::Timer0.mask());
    assert!(b.io.irq.ime());
    assert_eq!(b.read16(0x0400_0200, CPU, &mut s).value, IrqSource::Timer0.mask());

    // IF is write-1-to-clear.
    b.io.irq.request(IrqSource::Timer0);
    b.io.irq.request(IrqSource::VBlank);
    b.write16(0x0400_0202, IrqSource::Timer0.mask(), CPU, &mut s);
    assert_eq!(b.io.irq.iflags(), IrqSource::VBlank.mask());
}

#[test]
fn mmio_byte_write_only_touches_its_byte() {
    let (mut b, mut s) = bus();
    // Write IE=0xFFFF, then clear only the high byte with a byte write.
    b.write16(0x0400_0200, 0xFFFF, CPU, &mut s);
    b.write8(0x0400_0201, 0x00, CPU, &mut s);
    assert_eq!(b.io.irq.ie(), 0x00FF);
}

#[test]
fn mmio_vcount_is_read_only() {
    let (mut b, mut s) = bus();
    b.write16(0x0400_0006, 0x00FF, CPU, &mut s); // VCOUNT
    assert_eq!(b.read16(0x0400_0006, CPU, &mut s).value, 0);
}

#[test]
fn mmio_timer_control_write_schedules_and_reports_change() {
    let (mut b, mut s) = bus();
    b.write16(0x0400_0100, 0xFF00, CPU, &mut s); // TM0 reload -> overflow at 256
    let result = b.write16(0x0400_0102, (1 << 7) | (1 << 6), CPU, &mut s); // start + IRQ
    assert!(result.scheduling_changed);
    assert_eq!(s.next_deadline(), Some(256));
    // Reading TM0CNT_L returns the live counter, not the reload.
    s.set_now(100);
    assert_eq!(b.read16(0x0400_0100, CPU, &mut s).value, 0xFF00 + 100);
    // Reading control returns the parsed register.
    assert_eq!(b.read16(0x0400_0102, CPU, &mut s).value, (1 << 7) | (1 << 6));
}

#[test]
fn rom_is_accessible_only_by_cpu_and_dma3() {
    let (mut b, mut s) = bus();
    b.load_rom(vec![0x11, 0x22, 0x33, 0x44]);
    // The CPU and DMA3 read the cartridge.
    assert_eq!(b.read16(0x0800_0000, Access::cpu_data(), &mut s).value, 0x2211);
    assert_eq!(b.read16(0x0800_0000, Access::dma_data(3), &mut s).value, 0x2211);
    // DMA0-2 cannot reach ROM: open bus.
    assert_eq!(b.read16(0x0800_0000, Access::dma_data(0), &mut s).value, 0);
    assert_eq!(b.read16(0x0800_0000, Access::dma_data(1), &mut s).value, 0);
}

#[test]
fn sram_is_accessible_only_by_cpu() {
    let (mut b, mut s) = bus();
    b.write8(0x0E00_0000, 0xAB, Access::cpu_data(), &mut s);
    assert_eq!(b.read8(0x0E00_0000, Access::cpu_data(), &mut s).value, 0xAB);
    // No DMA channel, not even DMA3, may touch SRAM.
    assert_eq!(b.read8(0x0E00_0000, Access::dma_data(3), &mut s).value, 0);
    b.write8(0x0E00_0000, 0xFF, Access::dma_data(3), &mut s);
    assert_eq!(b.read8(0x0E00_0000, Access::cpu_data(), &mut s).value, 0xAB);
}

#[test]
fn immediate_dma_copies_and_auto_disables() {
    let (mut b, mut s) = bus();
    // Source words in EWRAM.
    b.write32(0x0200_0000, 0x1111_1111, CPU, &mut s);
    b.write32(0x0200_0004, 0x2222_2222, CPU, &mut s);
    // DMA0: EWRAM -> IWRAM, 2 words, 32-bit, IRQ, immediate.
    b.write32(0x0400_00B0, 0x0200_0000, CPU, &mut s); // SAD
    b.write32(0x0400_00B4, 0x0300_0000, CPU, &mut s); // DAD
    b.write16(0x0400_00B8, 2, CPU, &mut s); // count
    let result = b.write16(0x0400_00BA, (1 << 15) | (1 << 10) | (1 << 14), CPU, &mut s);

    assert!(result.scheduling_changed); // a transfer ran
    assert_eq!(b.read32(0x0300_0000, CPU, &mut s).value, 0x1111_1111);
    assert_eq!(b.read32(0x0300_0004, CPU, &mut s).value, 0x2222_2222);
    // Completion interrupt requested, and (repeat off) the enable bit cleared.
    assert_ne!(b.io.irq.iflags() & IrqSource::Dma0.mask(), 0);
    assert_eq!(b.read16(0x0400_00BA, CPU, &mut s).value & (1 << 15), 0);
}

#[test]
fn dma_source_fixed_replicates_into_dest() {
    let (mut b, mut s) = bus();
    b.write16(0x0200_0000, 0xBEEF, CPU, &mut s);
    b.write32(0x0400_00B0, 0x0200_0000, CPU, &mut s); // SAD
    b.write32(0x0400_00B4, 0x0300_0000, CPU, &mut s); // DAD
    b.write16(0x0400_00B8, 4, CPU, &mut s); // count 4
    // Enable, 16-bit, source fixed (control bits 7-8 = 2), dest increment.
    b.write16(0x0400_00BA, (1 << 15) | (2 << 7), CPU, &mut s);

    for i in 0..4 {
        assert_eq!(b.read16(0x0300_0000 + i * 2, CPU, &mut s).value, 0xBEEF);
    }
}

#[test]
fn dma_charges_transfer_cycles() {
    let (mut b, mut s) = bus();
    // 2 words IWRAM -> IWRAM: reads 1+1, writes 1+1, plus 2I = 6.
    b.write32(0x0400_00B0, 0x0300_0000, CPU, &mut s); // SAD
    b.write32(0x0400_00B4, 0x0300_0100, CPU, &mut s); // DAD
    b.write16(0x0400_00B8, 2, CPU, &mut s); // count
    b.write16(0x0400_00BA, (1 << 15) | (1 << 10), CPU, &mut s); // enable, 32-bit, immediate
    assert_eq!(b.take_dma_stall_cycles(), 6);
    // Taking it clears the accumulator.
    assert_eq!(b.take_dma_stall_cycles(), 0);
}

#[test]
fn dma_from_rom_uses_waitstates_and_extra_internal_cycles() {
    let (mut b, mut s) = bus();
    b.load_rom(vec![0; 64]);
    // 4 halfwords ROM -> ROM: reads 5+3+3+3 = 14, writes 5+3+3+3 = 14,
    // and both ends gamepak so 4I. Total 32. (DMA3 may source ROM.)
    b.write32(0x0400_00D4, 0x0800_0000, CPU, &mut s); // DMA3 SAD
    b.write32(0x0400_00D8, 0x0800_0100, CPU, &mut s); // DMA3 DAD
    b.write16(0x0400_00DC, 4, CPU, &mut s); // count
    b.write16(0x0400_00DE, 1 << 15, CPU, &mut s); // enable, 16-bit, immediate
    assert_eq!(b.take_dma_stall_cycles(), 14 + 14 + 4);
}

#[test]
fn prefetch_speeds_sequential_opcode_fetches() {
    let (mut b, mut s) = bus();
    b.load_rom(vec![0; 64]);
    b.write16(0x0400_0204, 1 << 14, CPU, &mut s); // WAITCNT: enable prefetch
    let branch = Access::cpu(AccessKind::Instruction, AccessSequence::NonSequential);
    let seq = Access::cpu(AccessKind::Instruction, AccessSequence::Sequential);

    // A branch target pays the full non-sequential access and restarts the
    // prefetcher.
    assert_eq!(b.read16(0x0800_0000, branch, &mut s).cycles, 5);
    // Give the prefetcher idle cycles to fill the buffer.
    b.step_prefetch(20);
    // Sequential fetches now hit the buffer at one cycle each.
    assert_eq!(b.read16(0x0800_0002, seq, &mut s).cycles, 1);
    assert_eq!(b.read16(0x0800_0004, seq, &mut s).cycles, 1);
}

#[test]
fn prefetch_only_helps_instruction_fetches() {
    let (mut b, mut s) = bus();
    b.load_rom(vec![0; 64]);
    b.write16(0x0400_0204, 1 << 14, CPU, &mut s); // prefetch enabled
    b.step_prefetch(50); // fill the buffer
    // A data read from ROM ignores the prefetcher: full sequential wait.
    let data_seq = Access::cpu(AccessKind::Data, AccessSequence::Sequential);
    assert_eq!(b.read16(0x0800_0000, data_seq, &mut s).cycles, 3);
}

#[test]
fn prefetch_disabled_pays_full_sequential_waits() {
    let (mut b, mut s) = bus();
    b.load_rom(vec![0; 64]);
    // Prefetch left disabled: sequential opcode fetch pays S (= 3 default).
    let seq = Access::cpu(AccessKind::Instruction, AccessSequence::Sequential);
    assert_eq!(b.read16(0x0800_0000, seq, &mut s).cycles, 3);
}

#[test]
fn timing_reflects_regions_and_waitstates() {
    let (mut b, mut s) = bus();
    // IWRAM: 1/1/1.
    assert_eq!(b.read32(0x0300_0000, CPU, &mut s).cycles, 1);
    // EWRAM: 3/3/6.
    assert_eq!(b.read8(0x0200_0000, CPU, &mut s).cycles, 3);
    assert_eq!(b.read32(0x0200_0000, CPU, &mut s).cycles, 6);
    // ROM WS0 default: 16-bit nonseq = 5, 32-bit nonseq = 8.
    let nonseq = Access::cpu(AccessKind::Data, AccessSequence::NonSequential);
    let seq = Access::cpu(AccessKind::Data, AccessSequence::Sequential);
    assert_eq!(b.read16(0x0800_0000, nonseq, &mut s).cycles, 5);
    assert_eq!(b.read16(0x0800_0000, seq, &mut s).cycles, 3);
    assert_eq!(b.read32(0x0800_0000, nonseq, &mut s).cycles, 8);
}

#[test]
fn thirty_two_bit_mmio_spans_two_registers() {
    let (mut b, mut s) = bus();
    // A 32-bit write to 0x4000200 sets IE (low) and IF-ack (high, W1C).
    b.io.irq.request(IrqSource::VBlank); // IF bit 0 set
    b.write32(0x0400_0200, IrqSource::Timer0.mask() as u32 | (1 << 16), CPU, &mut s);
    assert_eq!(b.io.irq.ie(), IrqSource::Timer0.mask());
    // The high halfword wrote IF with bit 0 set -> acknowledged VBlank.
    assert_eq!(b.io.irq.iflags() & IrqSource::VBlank.mask(), 0);
}
