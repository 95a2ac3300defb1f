//! CPU register references.
//!
//! A `Register` is just a 4-bit index (r0..r15) as it appears in an instruction
//! field. It is a distinct newtype rather than a bare `u8` so decoded
//! instructions are self-documenting and so the architectural aliases
//! (SP/LR/PC) hang off it. No banking or mode knowledge lives here.

use vstd::prelude::*;

verus! {

#[derive(Debug, Clone, Copy, PartialEq, Eq, PartialOrd, Ord, Hash, Structural)]
pub struct Register(pub u8);

impl Register {
    /// Whether the index names one of r0..r15.
    pub open spec fn valid(self) -> bool {
        self.0 < 16
    }

    /// r13, the stack pointer by convention.
    #[inline]
    #[verifier::allow_in_spec]
    pub fn sp() -> Register
        returns
            Register(13),
    {
        Register(13)
    }

    /// r14, the link register.
    #[inline]
    #[verifier::allow_in_spec]
    pub fn lr() -> Register
        returns
            Register(14),
    {
        Register(14)
    }

    /// r15, the program counter.
    #[inline]
    #[verifier::allow_in_spec]
    pub fn pc() -> Register
        returns
            Register(15),
    {
        Register(15)
    }

    /// Build a register from a raw 4-bit field. Any upper bits are masked off,
    /// since register fields are always exactly four bits wide.
    #[inline]
    #[verifier::allow_in_spec]
    pub fn new(index: u8) -> (register: Register)
        ensures
            register.valid(),
        returns
            Register(index & 0xF),
    {
        proof {
            crate::bits::lemma_low_bits_u8(index);
        }
        Register(index & 0xF)
    }

    /// The register index as a `usize`, convenient for indexing a register file.
    #[inline]
    #[verifier::allow_in_spec]
    pub fn index(self) -> usize
        returns
            self.0 as usize,
    {
        self.0 as usize
    }

    /// Whether this is r15 (the program counter).
    #[inline]
    #[verifier::allow_in_spec]
    pub fn is_pc(self) -> bool
        returns
            self.0 == 15,
    {
        self.0 == 15
    }
}

} // verus!
