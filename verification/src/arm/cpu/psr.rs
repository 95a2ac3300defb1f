//! Status registers, operating modes and architecture variants.

use vstd::prelude::*;

use crate::arm::condition::Condition;

verus! {

/// A processor operating mode (the low five bits of the CPSR).
#[derive(Clone, Copy, Debug, PartialEq, Eq, Structural)]
pub enum Mode {
    User,
    Fiq,
    Irq,
    Supervisor,
    Abort,
    Undefined,
    System,
}

impl Mode {
    /// The five-bit encoding of a mode.
    #[verifier::allow_in_spec]
    pub fn bits(self) -> u32
        returns
            (match self {
                Mode::User => 0x10u32,
                Mode::Fiq => 0x11u32,
                Mode::Irq => 0x12u32,
                Mode::Supervisor => 0x13u32,
                Mode::Abort => 0x17u32,
                Mode::Undefined => 0x1Bu32,
                Mode::System => 0x1Fu32,
            }),
    {
        match self {
            Mode::User => 0x10,
            Mode::Fiq => 0x11,
            Mode::Irq => 0x12,
            Mode::Supervisor => 0x13,
            Mode::Abort => 0x17,
            Mode::Undefined => 0x1B,
            Mode::System => 0x1F,
        }
    }

    /// The mode that `bits & 0x1F` encodes, if any.
    pub open spec fn of(bits: u32) -> Option<Mode> {
        match bits & 0x1F {
            0x10 => Some(Mode::User),
            0x11 => Some(Mode::Fiq),
            0x12 => Some(Mode::Irq),
            0x13 => Some(Mode::Supervisor),
            0x17 => Some(Mode::Abort),
            0x1B => Some(Mode::Undefined),
            0x1F => Some(Mode::System),
            _ => None,
        }
    }

    /// Decode the mode field of a status register; `None` for a reserved value.
    pub fn from_bits(bits: u32) -> (mode: Option<Mode>)
        ensures
            mode == Mode::of(bits),
            mode matches Some(m) ==> m.bits() == bits & 0x1F,
            mode is None <==> forall|m: Mode| #[trigger] m.bits() != bits & 0x1F,
    {
        proof {
            if Mode::of(bits) is None {
                assert forall|m: Mode| #[trigger] m.bits() != bits & 0x1F by {
                    match m {
                        Mode::User => {},
                        Mode::Fiq => {},
                        Mode::Irq => {},
                        Mode::Supervisor => {},
                        Mode::Abort => {},
                        Mode::Undefined => {},
                        Mode::System => {},
                    }
                }
            } else {
                let m = Mode::of(bits)->0;
                assert(m.bits() == bits & 0x1F);
            }
        }
        match bits & 0x1F {
            0x10 => Some(Mode::User),
            0x11 => Some(Mode::Fiq),
            0x12 => Some(Mode::Irq),
            0x13 => Some(Mode::Supervisor),
            0x17 => Some(Mode::Abort),
            0x1B => Some(Mode::Undefined),
            0x1F => Some(Mode::System),
            _ => None,
        }
    }
}

/// The ARM architecture variant a CPU core implements.
///
/// ARMv4T is the ARM7TDMI: the GBA's CPU, and the DS's ARM7. ARMv5TE is the
/// ARM946E-S (the DS's ARM9), a strict superset that adds `CLZ`, `BLX`, saturating
/// and DSP multiply instructions, coprocessor access, and richer interworking. One
/// interpreter serves both; this selects the handful of behaviours that differ.
#[derive(Clone, Copy, Debug, PartialEq, Eq, Structural)]
pub enum ArmVersion {
    Armv4T,
    Armv5TE,
}

impl Default for ArmVersion {
    fn default() -> (version: ArmVersion)
        ensures
            version == ArmVersion::Armv4T,
    {
        ArmVersion::Armv4T
    }
}

impl ArmVersion {
    /// Whether this core implements the ARMv5(TE) additions.
    #[verifier::allow_in_spec]
    pub fn is_v5(self) -> bool
        returns
            self == ArmVersion::Armv5TE,
    {
        matches!(self, ArmVersion::Armv5TE)
    }
}

/// A program status register (CPSR or an SPSR).
#[derive(Clone, Copy, Debug, PartialEq, Eq, Structural)]
pub struct Psr(pub u32);

impl Psr {
    pub const N: u32 = 0x8000_0000;
    pub const Z: u32 = 0x4000_0000;
    pub const C: u32 = 0x2000_0000;
    pub const V: u32 = 0x1000_0000;
    /// Sticky saturation flag, set by the ARMv5TE saturating/DSP instructions. It
    /// is not present on ARMv4T (nothing there writes it), but lives in the same
    /// CPSR bit so it rides through SPSR save/restore for free.
    pub const Q: u32 = 0x0800_0000;
    pub const I: u32 = 0x0000_0080;
    pub const F: u32 = 0x0000_0040;
    pub const T: u32 = 0x0000_0020;

    /// A status register holding `bits`.
    #[verifier::allow_in_spec]
    pub fn from_bits(bits: u32) -> Psr
        returns
            Psr(bits),
    {
        Psr(bits)
    }

    /// The raw register contents.
    #[verifier::allow_in_spec]
    pub fn bits(self) -> u32
        returns
            self.0,
    {
        self.0
    }

    /// This register with the bits of `mask` set or cleared.
    pub open spec fn with(self, mask: u32, value: bool) -> Psr {
        if value {
            Psr(self.0 | mask)
        } else {
            Psr(self.0 & !mask)
        }
    }

    fn set_flag(&mut self, mask: u32, value: bool)
        ensures
            *final(self) == old(self).with(mask, value),
    {
        if value {
            self.0 = self.0 | mask;
        } else {
            self.0 = self.0 & !mask;
        }
    }

    /// The negative flag.
    #[verifier::allow_in_spec]
    pub fn n(self) -> bool
        returns
            self.0 & Psr::N != 0,
    {
        self.0 & Psr::N != 0
    }

    /// The zero flag.
    #[verifier::allow_in_spec]
    pub fn z(self) -> bool
        returns
            self.0 & Psr::Z != 0,
    {
        self.0 & Psr::Z != 0
    }

    /// The carry flag.
    #[verifier::allow_in_spec]
    pub fn c(self) -> bool
        returns
            self.0 & Psr::C != 0,
    {
        self.0 & Psr::C != 0
    }

    /// The overflow flag.
    #[verifier::allow_in_spec]
    pub fn v(self) -> bool
        returns
            self.0 & Psr::V != 0,
    {
        self.0 & Psr::V != 0
    }

    /// The sticky-saturation flag.
    #[verifier::allow_in_spec]
    pub fn q(self) -> bool
        returns
            self.0 & Psr::Q != 0,
    {
        self.0 & Psr::Q != 0
    }

    /// The Thumb-state flag.
    #[verifier::allow_in_spec]
    pub fn thumb(self) -> bool
        returns
            self.0 & Psr::T != 0,
    {
        self.0 & Psr::T != 0
    }

    /// The IRQ-disable flag.
    #[verifier::allow_in_spec]
    pub fn irq_disabled(self) -> bool
        returns
            self.0 & Psr::I != 0,
    {
        self.0 & Psr::I != 0
    }

    /// The FIQ-disable flag.
    #[verifier::allow_in_spec]
    pub fn fiq_disabled(self) -> bool
        returns
            self.0 & Psr::F != 0,
    {
        self.0 & Psr::F != 0
    }

    /// Set or clear the negative flag.
    pub fn set_n(&mut self, v: bool)
        ensures
            *final(self) == old(self).with(Psr::N, v),
    {
        self.set_flag(Psr::N, v);
    }

    /// Set or clear the zero flag.
    pub fn set_z(&mut self, v: bool)
        ensures
            *final(self) == old(self).with(Psr::Z, v),
    {
        self.set_flag(Psr::Z, v);
    }

    /// Set or clear the carry flag.
    pub fn set_c(&mut self, v: bool)
        ensures
            *final(self) == old(self).with(Psr::C, v),
    {
        self.set_flag(Psr::C, v);
    }

    /// Set or clear the overflow flag.
    pub fn set_v(&mut self, v: bool)
        ensures
            *final(self) == old(self).with(Psr::V, v),
    {
        self.set_flag(Psr::V, v);
    }

    /// Set or clear the sticky-saturation flag.
    pub fn set_q(&mut self, v: bool)
        ensures
            *final(self) == old(self).with(Psr::Q, v),
    {
        self.set_flag(Psr::Q, v);
    }

    /// Set or clear the Thumb-state flag.
    pub fn set_thumb(&mut self, v: bool)
        ensures
            *final(self) == old(self).with(Psr::T, v),
    {
        self.set_flag(Psr::T, v);
    }

    /// Set or clear the IRQ-disable flag.
    pub fn set_irq_disabled(&mut self, v: bool)
        ensures
            *final(self) == old(self).with(Psr::I, v),
    {
        self.set_flag(Psr::I, v);
    }

    /// Set or clear the FIQ-disable flag.
    pub fn set_fiq_disabled(&mut self, v: bool)
        ensures
            *final(self) == old(self).with(Psr::F, v),
    {
        self.set_flag(Psr::F, v);
    }

    /// The operating mode, if the mode field holds one.
    pub open spec fn spec_mode(self) -> Option<Mode> {
        Mode::of(self.0)
    }

    /// The operating mode, or `None` when the mode field is reserved.
    #[verifier::when_used_as_spec(spec_mode)]
    pub fn mode(self) -> (mode: Option<Mode>)
        ensures
            mode == self.mode(),
    {
        Mode::from_bits(self.0)
    }

    /// This register with its mode field replaced.
    pub open spec fn with_mode(self, mode: Mode) -> Psr {
        Psr((self.0 & !0x1Fu32) | mode.bits())
    }

    /// Replace the mode field.
    pub fn set_mode(&mut self, mode: Mode)
        ensures
            *final(self) == old(self).with_mode(mode),
    {
        self.0 = (self.0 & !0x1Fu32) | mode.bits();
    }

    /// Whether a condition passes given the current flags.
    #[verifier::allow_in_spec]
    pub fn passes(self, condition: Condition) -> bool
        returns
            (match condition {
                Condition::Eq => self.z(),
                Condition::Ne => !self.z(),
                Condition::Cs => self.c(),
                Condition::Cc => !self.c(),
                Condition::Mi => self.n(),
                Condition::Pl => !self.n(),
                Condition::Vs => self.v(),
                Condition::Vc => !self.v(),
                Condition::Hi => self.c() && !self.z(),
                Condition::Ls => !self.c() || self.z(),
                Condition::Ge => self.n() == self.v(),
                Condition::Lt => self.n() != self.v(),
                Condition::Gt => !self.z() && (self.n() == self.v()),
                Condition::Le => self.z() || (self.n() != self.v()),
                Condition::Al => true,
                Condition::Nv => false,
            }),
    {
        match condition {
            Condition::Eq => self.z(),
            Condition::Ne => !self.z(),
            Condition::Cs => self.c(),
            Condition::Cc => !self.c(),
            Condition::Mi => self.n(),
            Condition::Pl => !self.n(),
            Condition::Vs => self.v(),
            Condition::Vc => !self.v(),
            Condition::Hi => self.c() && !self.z(),
            Condition::Ls => !self.c() || self.z(),
            Condition::Ge => self.n() == self.v(),
            Condition::Lt => self.n() != self.v(),
            Condition::Gt => !self.z() && (self.n() == self.v()),
            Condition::Le => self.z() || (self.n() != self.v()),
            Condition::Al => true,
            Condition::Nv => false,
        }
    }
}

proof fn lemma_flag_bits(bits: u32, mask: u32, other: u32, mode: u32)
    by (bit_vector)
    requires
        mode <= 0x1F,
    ensures
        mask != 0 ==> (bits | mask) & mask != 0,
        (bits & !mask) & mask == 0,
        mask & other == 0 ==> (bits | mask) & other == bits & other,
        mask & other == 0 ==> (bits & !mask) & other == bits & other,
        ((bits & !0x1Fu32) | mode) & 0x1F == mode,
        other & 0x1F == 0 ==> ((bits & !0x1Fu32) | mode) & other == bits & other,
        0x8000_0000u32 & 0x1F == 0,
        0x4000_0000u32 & 0x1F == 0,
        0x2000_0000u32 & 0x1F == 0,
        0x1000_0000u32 & 0x1F == 0,
        0x0800_0000u32 & 0x1F == 0,
        0x80u32 & 0x1F == 0,
        0x40u32 & 0x1F == 0,
        0x20u32 & 0x1F == 0,
{
}

/// Setting a flag is read back, and leaves every bit outside the mask alone.
pub proof fn flag_write_reads_back(psr: Psr, mask: u32, value: bool, other: u32)
    requires
        mask != 0,
    ensures
        (psr.with(mask, value).bits() & mask != 0) == value,
        mask & other == 0 ==> psr.with(mask, value).bits() & other == psr.bits() & other,
{
    lemma_flag_bits(psr.bits(), mask, other, 0);
}

/// Setting the mode is read back, and leaves the flags alone.
pub proof fn mode_write_reads_back(psr: Psr, mode: Mode)
    ensures
        psr.with_mode(mode).mode() == Some(mode),
        psr.with_mode(mode).n() == psr.n(),
        psr.with_mode(mode).z() == psr.z(),
        psr.with_mode(mode).c() == psr.c(),
        psr.with_mode(mode).v() == psr.v(),
        psr.with_mode(mode).q() == psr.q(),
        psr.with_mode(mode).thumb() == psr.thumb(),
        psr.with_mode(mode).irq_disabled() == psr.irq_disabled(),
        psr.with_mode(mode).fiq_disabled() == psr.fiq_disabled(),
{
    lemma_flag_bits(psr.0, 0, Psr::N, mode.bits());
    lemma_flag_bits(psr.0, 0, Psr::Z, mode.bits());
    lemma_flag_bits(psr.0, 0, Psr::C, mode.bits());
    lemma_flag_bits(psr.0, 0, Psr::V, mode.bits());
    lemma_flag_bits(psr.0, 0, Psr::Q, mode.bits());
    lemma_flag_bits(psr.0, 0, Psr::T, mode.bits());
    lemma_flag_bits(psr.0, 0, Psr::I, mode.bits());
    lemma_flag_bits(psr.0, 0, Psr::F, mode.bits());
}

/// Conditions come in pairs that differ in the low bit of their encoding, and of
/// each pair exactly one passes, whatever the flags are.
pub proof fn paired_conditions_are_complementary(psr: Psr, a: Condition, b: Condition)
    requires
        a.encoding() % 2 == 0,
        b.encoding() == a.encoding() + 1,
    ensures
        psr.passes(a) != psr.passes(b),
{
}

} // verus!
