use rewinds::gba::ppu::registers::Registers;

/// Window bound registers are laid out by axis (WIN0H, WIN1H, WIN0V, WIN1V),
/// not interleaved by window. A prior mapping swapped WIN1H with WIN0V, which
/// blanked whole scanlines whenever a game (e.g. FireRed's letterboxed intro)
/// used WIN1's horizontal bound.
#[test]
fn window_bounds_route_by_axis() {
    let mut r = Registers::default();
    r.write16(0x040, 0x1122, 0xFFFF); // WIN0H
    r.write16(0x042, 0x3344, 0xFFFF); // WIN1H
    r.write16(0x044, 0x5566, 0xFFFF); // WIN0V
    r.write16(0x046, 0x7788, 0xFFFF); // WIN1V
    assert_eq!(r.win_h, [0x1122, 0x3344]);
    assert_eq!(r.win_v, [0x5566, 0x7788]);
}
