//! The GBA keypad: the ten buttons, their `KEYINPUT` state, and the `KEYCNT`
//! interrupt configuration.
//!
//! `KEYINPUT` is **active-low**: a set bit means the button is *released*. This
//! module stores the intuitive representation (a set bit = pressed) and inverts on
//! read, so callers press and release keys without thinking about the inversion.

use vstd::prelude::*;

use crate::text;

verus! {

/// A GBA button, in the order of the `KEYINPUT`/`KEYCNT` bits.
#[derive(Clone, Copy, Debug, PartialEq, Eq, Structural)]
pub enum Key {
    A,
    B,
    Select,
    Start,
    Right,
    Left,
    Up,
    Down,
    /// Right shoulder.
    R,
    /// Left shoulder.
    L,
}

impl Key {
    /// The button's bit within `KEYINPUT`/`KEYCNT`.
    #[verifier::allow_in_spec]
    pub fn bit(self) -> u16
        returns
            (match self {
                Key::A => 0x0001u16,
                Key::B => 0x0002u16,
                Key::Select => 0x0004u16,
                Key::Start => 0x0008u16,
                Key::Right => 0x0010u16,
                Key::Left => 0x0020u16,
                Key::Up => 0x0040u16,
                Key::Down => 0x0080u16,
                Key::R => 0x0100u16,
                Key::L => 0x0200u16,
            }),
    {
        match self {
            Key::A => 0x0001,
            Key::B => 0x0002,
            Key::Select => 0x0004,
            Key::Start => 0x0008,
            Key::Right => 0x0010,
            Key::Left => 0x0020,
            Key::Up => 0x0040,
            Key::Down => 0x0080,
            Key::R => 0x0100,
            Key::L => 0x0200,
        }
    }

    /// The canonical button name.
    pub open spec fn spec_name(self) -> Seq<char> {
        match self {
            Key::A => "A"@,
            Key::B => "B"@,
            Key::Select => "SELECT"@,
            Key::Start => "START"@,
            Key::Right => "RIGHT"@,
            Key::Left => "LEFT"@,
            Key::Up => "UP"@,
            Key::Down => "DOWN"@,
            Key::R => "R"@,
            Key::L => "L"@,
        }
    }

    /// Parse a case-insensitive button name (e.g. `"A"`, `"RIGHT"`), for the
    /// string-keyed API a debug protocol exposes.
    pub fn from_name(name: &str) -> (key: Option<Key>)
        ensures
            match key {
                Some(key) => text::uppercase(name@) == key.spec_name(),
                None => forall|key: Key| text::uppercase(name@) != #[trigger] key.spec_name(),
            },
    {
        if text::is_uppercased(name, "A") {
            return Some(Key::A);
        }
        if text::is_uppercased(name, "B") {
            return Some(Key::B);
        }
        if text::is_uppercased(name, "SELECT") {
            return Some(Key::Select);
        }
        if text::is_uppercased(name, "START") {
            return Some(Key::Start);
        }
        if text::is_uppercased(name, "RIGHT") {
            return Some(Key::Right);
        }
        if text::is_uppercased(name, "LEFT") {
            return Some(Key::Left);
        }
        if text::is_uppercased(name, "UP") {
            return Some(Key::Up);
        }
        if text::is_uppercased(name, "DOWN") {
            return Some(Key::Down);
        }
        if text::is_uppercased(name, "R") {
            return Some(Key::R);
        }
        if text::is_uppercased(name, "L") {
            return Some(Key::L);
        }
        assert forall|key: Key| text::uppercase(name@) != #[trigger] key.spec_name() by {
            match key {
                Key::A => {},
                Key::B => {},
                Key::Select => {},
                Key::Start => {},
                Key::Right => {},
                Key::Left => {},
                Key::Up => {},
                Key::Down => {},
                Key::R => {},
                Key::L => {},
            }
        }
        None
    }

    /// The canonical button name.
    pub fn name(self) -> (name: &'static str)
        ensures
            name@ == self.spec_name(),
    {
        match self {
            Key::A => "A",
            Key::B => "B",
            Key::Select => "SELECT",
            Key::Start => "START",
            Key::Right => "RIGHT",
            Key::Left => "LEFT",
            Key::Up => "UP",
            Key::Down => "DOWN",
            Key::R => "R",
            Key::L => "L",
        }
    }

    /// All ten buttons, in bit order.
    pub fn all() -> (keys: [Key; 10])
        ensures
            keys@ == seq![Key::A, Key::B, Key::Select, Key::Start, Key::Right, Key::Left, Key::Up,
                Key::Down, Key::R, Key::L],
            forall|key: Key| keys@.contains(key),
    {
        let keys = [Key::A, Key::B, Key::Select, Key::Start, Key::Right, Key::Left, Key::Up,
            Key::Down, Key::R, Key::L];
        proof {
            assert(keys@[0] == Key::A);
            assert(keys@[1] == Key::B);
            assert(keys@[2] == Key::Select);
            assert(keys@[3] == Key::Start);
            assert(keys@[4] == Key::Right);
            assert(keys@[5] == Key::Left);
            assert(keys@[6] == Key::Up);
            assert(keys@[7] == Key::Down);
            assert(keys@[8] == Key::R);
            assert(keys@[9] == Key::L);
            assert(keys@ =~= seq![Key::A, Key::B, Key::Select, Key::Start, Key::Right, Key::Left,
                Key::Up, Key::Down, Key::R, Key::L]);
            assert forall|key: Key| keys@.contains(key) by {
                match key {
                    Key::A => assert(keys@[0] == key),
                    Key::B => assert(keys@[1] == key),
                    Key::Select => assert(keys@[2] == key),
                    Key::Start => assert(keys@[3] == key),
                    Key::Right => assert(keys@[4] == key),
                    Key::Left => assert(keys@[5] == key),
                    Key::Up => assert(keys@[6] == key),
                    Key::Down => assert(keys@[7] == key),
                    Key::R => assert(keys@[8] == key),
                    Key::L => assert(keys@[9] == key),
                }
            }
        }
        keys
    }
}

/// The ten button bits.
pub const KEY_MASK: u16 = 0x03FF;

/// `KEYCNT` bit 14: keypad interrupt enable.
pub const IRQ_ENABLE: u16 = 0x4000;

/// `KEYCNT` bit 15: interrupt condition - set means AND (all selected keys), clear
/// means OR (any selected key).
pub const IRQ_AND: u16 = 0x8000;

/// The keypad state and its interrupt configuration.
#[derive(Clone, Copy, Debug, PartialEq, Eq, Structural)]
pub struct Keypad {
    /// Currently pressed buttons, a set bit meaning pressed (the inverse of what
    /// `KEYINPUT` reports).
    pub pressed: u16,
    pub keycnt: u16,
}

impl Default for Keypad {
    fn default() -> (pad: Self)
        ensures
            pad == (Keypad { pressed: 0, keycnt: 0 }),
    {
        Keypad { pressed: 0, keycnt: 0 }
    }
}

impl Keypad {
    /// A keypad with nothing pressed.
    pub fn new() -> (pad: Self)
        ensures
            pad == (Keypad { pressed: 0, keycnt: 0 }),
    {
        Self::default()
    }

    /// Read `KEYINPUT` (`4000130h`): active-low, a set bit meaning released.
    #[verifier::allow_in_spec]
    pub fn read_input(&self) -> u16
        returns
            !self.pressed & KEY_MASK,
    {
        !self.pressed & KEY_MASK
    }

    /// Read `KEYCNT` (`4000132h`).
    pub fn read_control(&self) -> (value: u16)
        ensures
            value == self.keycnt,
    {
        self.keycnt
    }

    /// Write `KEYCNT`.
    pub fn write_control(&mut self, value: u16)
        ensures
            *final(self) == (Keypad { keycnt: value, ..*old(self) }),
    {
        self.keycnt = value;
    }

    /// The keypad with a button pressed or released.
    pub open spec fn with_key(self, key: Key, pressed: bool) -> Keypad {
        Keypad {
            pressed: if pressed {
                self.pressed | key.bit()
            } else {
                self.pressed & !key.bit()
            },
            ..self
        }
    }

    /// Set a button's pressed state.
    pub fn set_key(&mut self, key: Key, pressed: bool)
        ensures
            *final(self) == old(self).with_key(key, pressed),
    {
        if pressed {
            self.pressed = self.pressed | key.bit();
        } else {
            self.pressed = self.pressed & !key.bit();
        }
    }

    /// Whether a button is currently pressed.
    #[verifier::allow_in_spec]
    pub fn is_pressed(&self, key: Key) -> bool
        returns
            self.pressed & key.bit() != 0,
    {
        self.pressed & key.bit() != 0
    }

    /// Whether the pressed buttons meet the interrupt condition: it is enabled, some
    /// button is selected, and any or, by the top bit, all of the selected ones are held.
    pub open spec fn interrupts(self) -> bool {
        let selected = self.keycnt & KEY_MASK;
        &&& self.keycnt & IRQ_ENABLE != 0
        &&& selected != 0
        &&& if self.keycnt & IRQ_AND != 0 {
            self.pressed & selected == selected
        } else {
            self.pressed & selected != 0
        }
    }

    /// Whether the `KEYCNT` interrupt condition is currently satisfied: enabled,
    /// some key selected, and all (AND) or any (OR) of the selected keys pressed.
    pub fn irq_condition_met(&self) -> (met: bool)
        ensures
            met == self.interrupts(),
    {
        if self.keycnt & IRQ_ENABLE == 0 {
            return false;
        }
        let selected: u16 = self.keycnt & KEY_MASK;
        if selected == 0 {
            return false;
        }
        if self.keycnt & IRQ_AND != 0 {
            self.pressed & selected == selected  // all selected pressed
        } else {
            self.pressed & selected != 0  // any selected pressed
        }
    }
}

proof fn lemma_key_bits(pressed: u16, bit: u16, other: u16)
    by (bit_vector)
    requires
        bit != 0,
        bit & 0x03FF == bit,
        other & 0x03FF == other,
    ensures
        (pressed | bit) & bit != 0,
        (pressed | bit) & bit == bit,
        (pressed & !bit) & bit == 0,
        bit & other == 0 ==> (pressed | bit) & other == pressed & other,
        bit & other == 0 ==> (pressed & !bit) & other == pressed & other,
        (!pressed & 0x03FF) & other == 0 || pressed & other != other,
        pressed & other == 0 ==> (!pressed & 0x03FF) & other == other,
        pressed & other == other ==> (!pressed & 0x03FF) & other == 0,
{
}

proof fn lemma_masks(x: u16, y: u16)
    by (bit_vector)
    requires
        x == 0x0001 || x == 0x0002 || x == 0x0004 || x == 0x0008 || x == 0x0010 || x == 0x0020 || x
            == 0x0040 || x == 0x0080 || x == 0x0100 || x == 0x0200,
        y == 0x0001 || y == 0x0002 || y == 0x0004 || y == 0x0008 || y == 0x0010 || y == 0x0020 || y
            == 0x0040 || y == 0x0080 || y == 0x0100 || y == 0x0200,
    ensures
        x & 0x03FF == x,
        x & !0x03FFu16 == 0,
        x & y == 0 || x == y,
{
}

/// Every button has a bit of its own among the lowest ten.
pub proof fn lemma_single_bits(a: Key, b: Key)
    ensures
        a.bit() != 0,
        a.bit() & 0x03FF == a.bit(),
        a.bit() & !0x03FFu16 == 0,
        a != b ==> a.bit() & b.bit() == 0,
{
    lemma_masks(a.bit(), b.bit());
}

/// A button reads back as it was set, the others as before; and `KEYINPUT` shows
/// a pressed button as a clear bit and a released one as a set bit.
pub proof fn keyinput_is_active_low(pad: Keypad, key: Key, pressed: bool, other: Key)
    ensures
        pad.with_key(key, pressed).is_pressed(key) == pressed,
        (pad.with_key(key, pressed).read_input() & key.bit() == 0) == pressed,
        other != key ==> pad.with_key(key, pressed).is_pressed(other) == pad.is_pressed(other),
{
    lemma_single_bits(key, other);
    lemma_single_bits(other, key);
    lemma_key_bits(pad.pressed, key.bit(), other.bit());
    let after = pad.with_key(key, pressed).pressed;
    lemma_key_bits(after, key.bit(), key.bit());
}

/// Every button's name parses back to it, in whatever case it is written.
pub proof fn key_names_round_trip(a: Key, b: Key)
    ensures
        text::uppercase(a.spec_name()) == a.spec_name(),
        a.spec_name() == b.spec_name() ==> a == b,
{
    reveal_strlit("A");
    reveal_strlit("B");
    reveal_strlit("SELECT");
    reveal_strlit("START");
    reveal_strlit("RIGHT");
    reveal_strlit("LEFT");
    reveal_strlit("UP");
    reveal_strlit("DOWN");
    reveal_strlit("R");
    reveal_strlit("L");
    assert(text::uppercase(a.spec_name()) =~= a.spec_name());
    if a.spec_name() == b.spec_name() && a != b {
        assert(a.spec_name().len() == b.spec_name().len());
        assert(a.spec_name()[0] == b.spec_name()[0]);
    }
}

proof fn lemma_selected(pressed: u16, keycnt: u16)
    by (bit_vector)
    ensures
        ({
            let chosen = keycnt & 0x03FF;
            &&& (chosen != 0) == (keycnt & 0x001 != 0 || keycnt & 0x002 != 0 || keycnt & 0x004 != 0
                || keycnt & 0x008 != 0 || keycnt & 0x010 != 0 || keycnt & 0x020 != 0 || keycnt
                & 0x040 != 0 || keycnt & 0x080 != 0 || keycnt & 0x100 != 0 || keycnt & 0x200 != 0)
            &&& (pressed & chosen == chosen) == ((keycnt & 0x001 == 0 || pressed & 0x001 != 0) && (
            keycnt & 0x002 == 0 || pressed & 0x002 != 0) && (keycnt & 0x004 == 0 || pressed & 0x004
                != 0) && (keycnt & 0x008 == 0 || pressed & 0x008 != 0) && (keycnt & 0x010 == 0
                || pressed & 0x010 != 0) && (keycnt & 0x020 == 0 || pressed & 0x020 != 0) && (
            keycnt & 0x040 == 0 || pressed & 0x040 != 0) && (keycnt & 0x080 == 0 || pressed & 0x080
                != 0) && (keycnt & 0x100 == 0 || pressed & 0x100 != 0) && (keycnt & 0x200 == 0
                || pressed & 0x200 != 0))
            &&& (pressed & chosen != 0) == ((keycnt & 0x001 != 0 && pressed & 0x001 != 0) || (
            keycnt & 0x002 != 0 && pressed & 0x002 != 0) || (keycnt & 0x004 != 0 && pressed & 0x004
                != 0) || (keycnt & 0x008 != 0 && pressed & 0x008 != 0) || (keycnt & 0x010 != 0
                && pressed & 0x010 != 0) || (keycnt & 0x020 != 0 && pressed & 0x020 != 0) || (
            keycnt & 0x040 != 0 && pressed & 0x040 != 0) || (keycnt & 0x080 != 0 && pressed & 0x080
                != 0) || (keycnt & 0x100 != 0 && pressed & 0x100 != 0) || (keycnt & 0x200 != 0
                && pressed & 0x200 != 0))
        }),
{
}

/// Whether `KEYCNT` selects a button.
pub open spec fn selects(pad: Keypad, key: Key) -> bool {
    pad.keycnt & key.bit() != 0
}

/// The keypad interrupt: with bit 14 of `KEYCNT` clear there is none; with bit 15 clear
/// any selected button that is held raises it, and with bit 15 set it takes all of the
/// selected buttons, of which there must be one.
pub proof fn interrupt_condition(pad: Keypad)
    ensures
        pad.keycnt & 0x4000 == 0 ==> !pad.interrupts(),
        pad.keycnt & 0x4000 != 0 && pad.keycnt & 0x8000 == 0 ==> (pad.interrupts() <==> exists|
            key: Key,
        |
            #[trigger] selects(pad, key) && pad.is_pressed(key)),
        pad.keycnt & 0x4000 != 0 && pad.keycnt & 0x8000 != 0 ==> (pad.interrupts() <==> (exists|
            key: Key,
        | #[trigger]
            selects(pad, key)) && forall|key: Key| #[trigger]
            selects(pad, key) ==> pad.is_pressed(key)),
{
    lemma_selected(pad.pressed, pad.keycnt);
    assert(selects(pad, Key::A) == (pad.keycnt & 0x001 != 0));
    assert(selects(pad, Key::B) == (pad.keycnt & 0x002 != 0));
    assert(selects(pad, Key::Select) == (pad.keycnt & 0x004 != 0));
    assert(selects(pad, Key::Start) == (pad.keycnt & 0x008 != 0));
    assert(selects(pad, Key::Right) == (pad.keycnt & 0x010 != 0));
    assert(selects(pad, Key::Left) == (pad.keycnt & 0x020 != 0));
    assert(selects(pad, Key::Up) == (pad.keycnt & 0x040 != 0));
    assert(selects(pad, Key::Down) == (pad.keycnt & 0x080 != 0));
    assert(selects(pad, Key::R) == (pad.keycnt & 0x100 != 0));
    assert(selects(pad, Key::L) == (pad.keycnt & 0x200 != 0));
}

/// The buttons hold the bits of `KEYINPUT` from the lowest up: A, B, Select, Start,
/// Right, Left, Up, Down, R and L.
pub proof fn button_bits()
    ensures
        Key::A.bit() == 0x001 && Key::B.bit() == 0x002,
        Key::Select.bit() == 0x004 && Key::Start.bit() == 0x008,
        Key::Right.bit() == 0x010 && Key::Left.bit() == 0x020,
        Key::Up.bit() == 0x040 && Key::Down.bit() == 0x080,
        Key::R.bit() == 0x100 && Key::L.bit() == 0x200,
        Key::A.spec_name() == "A"@ && Key::B.spec_name() == "B"@,
        Key::Select.spec_name() == "SELECT"@ && Key::Start.spec_name() == "START"@,
        Key::Right.spec_name() == "RIGHT"@ && Key::Left.spec_name() == "LEFT"@,
        Key::Up.spec_name() == "UP"@ && Key::Down.spec_name() == "DOWN"@,
        Key::R.spec_name() == "R"@ && Key::L.spec_name() == "L"@,
{
}

} // verus!
