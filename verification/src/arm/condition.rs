//! ARM condition codes.
//!
//! Every 32-bit ARM instruction carries a 4-bit condition in bits 31..28 that
//! gates whether it executes based on the CPSR flags. The decoder only records
//! which condition was encoded; evaluating it against live flags is the
//! interpreter's job.

use vstd::prelude::*;

verus! {

/// A condition code, one variant per 4-bit encoding.
#[derive(Debug, Clone, Copy, PartialEq, Eq, Hash, Structural)]
pub enum Condition {
    /// `EQ`: equal (Z set).
    Eq,
    /// `NE`: not equal (Z clear).
    Ne,
    /// `CS`/`HS`: carry set / unsigned higher or same (C set).
    Cs,
    /// `CC`/`LO`: carry clear / unsigned lower (C clear).
    Cc,
    /// `MI`: negative (N set).
    Mi,
    /// `PL`: positive or zero (N clear).
    Pl,
    /// `VS`: overflow (V set).
    Vs,
    /// `VC`: no overflow (V clear).
    Vc,
    /// `HI`: unsigned higher (C set and Z clear).
    Hi,
    /// `LS`: unsigned lower or same (C clear or Z set).
    Ls,
    /// `GE`: signed greater or equal (N == V).
    Ge,
    /// `LT`: signed less than (N != V).
    Lt,
    /// `GT`: signed greater than (Z clear and N == V).
    Gt,
    /// `LE`: signed less or equal (Z set or N != V).
    Le,
    /// `AL`: always.
    Al,
    /// `NV`: never. Reserved on ARMv4T; kept so the decoder loses nothing.
    Nv,
}

impl Condition {
    /// The condition named by a 4-bit encoding.
    pub open spec fn of(nibble: u32) -> Condition {
        match nibble {
            0 => Condition::Eq,
            1 => Condition::Ne,
            2 => Condition::Cs,
            3 => Condition::Cc,
            4 => Condition::Mi,
            5 => Condition::Pl,
            6 => Condition::Vs,
            7 => Condition::Vc,
            8 => Condition::Hi,
            9 => Condition::Ls,
            10 => Condition::Ge,
            11 => Condition::Lt,
            12 => Condition::Gt,
            13 => Condition::Le,
            14 => Condition::Al,
            _ => Condition::Nv,
        }
    }

    /// The 4-bit encoding of a condition.
    pub open spec fn encoding(self) -> u32 {
        match self {
            Condition::Eq => 0,
            Condition::Ne => 1,
            Condition::Cs => 2,
            Condition::Cc => 3,
            Condition::Mi => 4,
            Condition::Pl => 5,
            Condition::Vs => 6,
            Condition::Vc => 7,
            Condition::Hi => 8,
            Condition::Ls => 9,
            Condition::Ge => 10,
            Condition::Lt => 11,
            Condition::Gt => 12,
            Condition::Le => 13,
            Condition::Al => 14,
            Condition::Nv => 15,
        }
    }

    /// Decode a condition from the low four bits of `bits`. Callers typically
    /// pass `raw >> 28`; any higher bits are ignored.
    #[inline]
    pub fn decode(bits: u32) -> (condition: Condition)
        ensures
            condition == Condition::of(bits & 0xF),
            condition.encoding() == bits & 0xF,
    {
        let nibble: u32 = bits & 0xF;
        proof {
            crate::bits::lemma_low_bits_u32(bits);
        }
        match nibble {
            0x0 => Condition::Eq,
            0x1 => Condition::Ne,
            0x2 => Condition::Cs,
            0x3 => Condition::Cc,
            0x4 => Condition::Mi,
            0x5 => Condition::Pl,
            0x6 => Condition::Vs,
            0x7 => Condition::Vc,
            0x8 => Condition::Hi,
            0x9 => Condition::Ls,
            0xA => Condition::Ge,
            0xB => Condition::Lt,
            0xC => Condition::Gt,
            0xD => Condition::Le,
            0xE => Condition::Al,
            _ => Condition::Nv,
        }
    }
}

} // verus!
