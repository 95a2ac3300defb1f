use rewinds::gba::keypad::{Key, Keypad, IRQ_AND, IRQ_ENABLE, KEY_MASK};

#[test]
fn keyinput_is_active_low() {
    let mut pad = Keypad::new();
    // Nothing pressed: all button bits read as 1 (released).
    assert_eq!(pad.read_input(), KEY_MASK);
    pad.set_key(Key::A, true);
    // A pressed clears bit 0.
    assert_eq!(pad.read_input(), KEY_MASK & !1);
    assert!(pad.is_pressed(Key::A));
    pad.set_key(Key::A, false);
    assert_eq!(pad.read_input(), KEY_MASK);
}

#[test]
fn name_round_trips() {
    for key in Key::all() {
        assert_eq!(Key::from_name(key.name()), Some(key));
    }
    assert_eq!(Key::from_name("start"), Some(Key::Start));
    assert_eq!(Key::from_name("nope"), None);
}

#[test]
fn irq_condition_or_and_and() {
    let mut pad = Keypad::new();
    // OR of {A, B}, IRQ enabled.
    pad.write_control(IRQ_ENABLE | Key::A.bit() | Key::B.bit());
    assert!(!pad.irq_condition_met());
    pad.set_key(Key::B, true);
    assert!(pad.irq_condition_met()); // any selected pressed

    // AND of {A, B}.
    pad.write_control(IRQ_ENABLE | IRQ_AND | Key::A.bit() | Key::B.bit());
    assert!(!pad.irq_condition_met()); // only B pressed
    pad.set_key(Key::A, true);
    assert!(pad.irq_condition_met()); // both pressed
}

#[test]
fn irq_condition_needs_enable_bit() {
    let mut pad = Keypad::new();
    pad.write_control(Key::A.bit()); // selected but IRQ disabled
    pad.set_key(Key::A, true);
    assert!(!pad.irq_condition_met());
}
