use rewinds::gba::ppu::timing::TimingState;
use rewinds::gba::InterruptController;

#[test]
fn dispstat_round_trips_control_bits() {
    let mut timing = TimingState::default();
    // LYC = 100, V-count IRQ and VBlank IRQ enabled.
    timing.write_dispstat((100 << 8) | (1 << 5) | (1 << 3));
    assert_eq!(timing.vcount_target, 100);
    // At line 0: no flags set, so the read is just the control bits back.
    assert_eq!(timing.read_dispstat(), (100 << 8) | (1 << 5) | (1 << 3));
}

#[test]
fn hblank_flag_reads_back_in_dispstat() {
    let mut timing = TimingState::default();
    let mut irq = InterruptController::new();
    timing.on_hblank(&mut irq);
    assert!(timing.hblank_flag());
    assert_ne!(timing.read_dispstat() & (1 << 1), 0);
}
