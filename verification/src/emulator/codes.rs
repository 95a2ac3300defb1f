//! The numbers by which a host names consoles, load failures and buttons. They are part
//! of the binary interface and never change.

use vstd::prelude::*;

use super::{Console, LoadError};

verus! {

// --- Console codes ---

/// GBA.
pub const REWINDS_CONSOLE_GBA: i32 = 0;

/// Nintendo DS.
pub const REWINDS_CONSOLE_NDS: i32 = 1;

// --- Load error codes ---

/// Success.
pub const REWINDS_OK: i32 = 0;

/// No console given and none detectable from the ROM header.
pub const REWINDS_ERR_UNKNOWN_CONSOLE: i32 = 1;

/// The GBA requires a BIOS image and none was supplied.
pub const REWINDS_ERR_MISSING_BIOS: i32 = 2;

/// The console is recognised but not implemented.
pub const REWINDS_ERR_UNSUPPORTED: i32 = 3;

/// A `.nds` image could not be booted.
pub const REWINDS_ERR_BAD_IMAGE: i32 = 4;

/// A null argument where one was required.
pub const REWINDS_ERR_NULL: i32 = -1;

/// Guest code panicked while booting.
pub const REWINDS_ERR_PANIC: i32 = -2;

// --- Button bits ---

pub const REWINDS_BTN_A: u32 = 0x001;

pub const REWINDS_BTN_B: u32 = 0x002;

pub const REWINDS_BTN_SELECT: u32 = 0x004;

pub const REWINDS_BTN_START: u32 = 0x008;

pub const REWINDS_BTN_RIGHT: u32 = 0x010;

pub const REWINDS_BTN_LEFT: u32 = 0x020;

pub const REWINDS_BTN_UP: u32 = 0x040;

pub const REWINDS_BTN_DOWN: u32 = 0x080;

pub const REWINDS_BTN_R: u32 = 0x100;

pub const REWINDS_BTN_L: u32 = 0x200;

pub const REWINDS_BTN_X: u32 = 0x400;

pub const REWINDS_BTN_Y: u32 = 0x800;

/// The console that a host asks for; any other number leaves it to detection.
#[verifier::allow_in_spec]
pub fn console_asked(code: i32) -> Option<Console>
    returns
        (if code == 0 {
            Some(Console::Gba)
        } else if code == 1 {
            Some(Console::Nds)
        } else {
            None::<Console>
        }),
{
    if code == REWINDS_CONSOLE_GBA {
        Some(Console::Gba)
    } else if code == REWINDS_CONSOLE_NDS {
        Some(Console::Nds)
    } else {
        None
    }
}

/// The code of a console, or -1 for none.
#[verifier::allow_in_spec]
pub fn console_code(console: Option<Console>) -> i32
    returns
        (match console {
            Some(Console::Gba) => 0i32,
            Some(Console::Nds) => 1i32,
            None => -1i32,
        }),
{
    match console {
        Some(Console::Gba) => REWINDS_CONSOLE_GBA,
        Some(Console::Nds) => REWINDS_CONSOLE_NDS,
        None => -1,
    }
}

/// The code of a load failure.
#[verifier::allow_in_spec]
pub fn load_error_code(error: &LoadError) -> i32
    returns
        (match *error {
            LoadError::UnknownConsole => 1i32,
            LoadError::MissingBios => 2i32,
            LoadError::Unsupported(_) => 3i32,
            LoadError::BadImage(_) => 4i32,
        }),
{
    match error {
        LoadError::UnknownConsole => REWINDS_ERR_UNKNOWN_CONSOLE,
        LoadError::MissingBios => REWINDS_ERR_MISSING_BIOS,
        LoadError::Unsupported(_) => REWINDS_ERR_UNSUPPORTED,
        LoadError::BadImage(_) => REWINDS_ERR_BAD_IMAGE,
    }
}

/// The host's button bits are the facade's own.
pub proof fn button_bits_agree()
    ensures
        REWINDS_BTN_A == super::button::A,
        REWINDS_BTN_B == super::button::B,
        REWINDS_BTN_SELECT == super::button::SELECT,
        REWINDS_BTN_START == super::button::START,
        REWINDS_BTN_RIGHT == super::button::RIGHT,
        REWINDS_BTN_LEFT == super::button::LEFT,
        REWINDS_BTN_UP == super::button::UP,
        REWINDS_BTN_DOWN == super::button::DOWN,
        REWINDS_BTN_R == super::button::R,
        REWINDS_BTN_L == super::button::L,
        REWINDS_BTN_X == super::button::X,
        REWINDS_BTN_Y == super::button::Y,
{
}

/// Asking for a console by its code gets that console, and no other code asks for one.
pub proof fn console_codes_round_trip(console: Option<Console>, code: i32)
    ensures
        console_asked(console_code(console)) == console,
        console_asked(code) is Some ==> console_code(console_asked(code)) == code,
        console_asked(0) == Some(Console::Gba),
        console_asked(1) == Some(Console::Nds),
{
}

/// A failure's code tells it from success and from every other kind of failure.
pub proof fn load_error_codes_differ(a: LoadError, b: LoadError)
    ensures
        load_error_code(&a) != REWINDS_OK,
        load_error_code(&a) == load_error_code(&b) ==> (a is UnknownConsole == b is UnknownConsole)
            && (a is MissingBios == b is MissingBios) && (a is Unsupported == b is Unsupported)
            && (a is BadImage == b is BadImage),
        a is UnknownConsole ==> load_error_code(&a) == 1,
        a is MissingBios ==> load_error_code(&a) == 2,
        a is Unsupported ==> load_error_code(&a) == 3,
        a is BadImage ==> load_error_code(&a) == 4,
{
}

/// The buttons hold the bits of an input word from the lowest up, the ten of the GBA in
/// the order of its key register and then the two more of the DS.
pub proof fn host_button_bits()
    ensures
        REWINDS_BTN_A == 0x001 && REWINDS_BTN_B == 0x002,
        REWINDS_BTN_SELECT == 0x004 && REWINDS_BTN_START == 0x008,
        REWINDS_BTN_RIGHT == 0x010 && REWINDS_BTN_LEFT == 0x020,
        REWINDS_BTN_UP == 0x040 && REWINDS_BTN_DOWN == 0x080,
        REWINDS_BTN_R == 0x100 && REWINDS_BTN_L == 0x200,
        REWINDS_BTN_X == 0x400 && REWINDS_BTN_Y == 0x800,
{
}

} // verus!
