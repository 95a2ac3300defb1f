use rewinds::gba::{InterruptController, IrqSource};

#[test]
fn source_masks() {
    assert_eq!(IrqSource::VBlank.mask(), 0x0001);
    assert_eq!(IrqSource::Timer0.mask(), 0x0008);
    assert_eq!(IrqSource::Timer3.mask(), 0x0040);
    assert_eq!(IrqSource::GamePak.mask(), 0x2000);
}

#[test]
fn line_requires_enable_and_master() {
    let mut ic = InterruptController::new();
    ic.request(IrqSource::Timer0);
    // Pending in IF, but not enabled in IE.
    assert!(!ic.pending());
    assert!(!ic.line_asserted());

    ic.set_ie(IrqSource::Timer0.mask());
    assert!(ic.pending()); // enabled request is pending
    assert!(!ic.line_asserted()); // but IME is still off

    ic.set_ime(true);
    assert!(ic.line_asserted());
}

#[test]
fn acknowledge_clears_only_written_bits() {
    let mut ic = InterruptController::new();
    ic.set_ie(0xFFFF);
    ic.set_ime(true);
    ic.request(IrqSource::Timer0);
    ic.request(IrqSource::VBlank);
    assert_eq!(ic.iflags(), IrqSource::Timer0.mask() | IrqSource::VBlank.mask());

    ic.acknowledge(IrqSource::Timer0.mask());
    assert_eq!(ic.iflags(), IrqSource::VBlank.mask());
    assert!(ic.line_asserted()); // VBlank still pending
}
