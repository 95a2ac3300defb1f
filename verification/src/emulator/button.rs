//! Button bits for [`Input::buttons`](super::Input). The low ten match the GBA
//! `KEYINPUT` bit order so the mapping to GBA keys is direct; `X`/`Y` extend it for
//! the DS.

use vstd::prelude::*;

verus! {

pub const A: u32 = 0x001;

pub const B: u32 = 0x002;

pub const SELECT: u32 = 0x004;

pub const START: u32 = 0x008;

pub const RIGHT: u32 = 0x010;

pub const LEFT: u32 = 0x020;

pub const UP: u32 = 0x040;

pub const DOWN: u32 = 0x080;

/// Right shoulder.
pub const R: u32 = 0x100;

/// Left shoulder.
pub const L: u32 = 0x200;

/// DS only.
pub const X: u32 = 0x400;

/// DS only.
pub const Y: u32 = 0x800;

} // verus!
