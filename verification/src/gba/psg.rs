//! The four Game Boy PSG channels, stubbed for readback: their registers
//! (`0x060..0x082`) and wave RAM (`0x090..0x0A0`) keep what is written to them, and
//! the channels stay silent.

use vstd::prelude::*;

use super::dma;

verus! {

/// The PSG register block, by halfword.
#[derive(Clone, Copy, Debug)]
#[verifier::ext_equal]
pub struct Psg {
    pub regs: [u16; 32],
}

impl Default for Psg {
    fn default() -> (psg: Self)
        ensures
            psg.is_cleared(),
    {
        let psg = Psg { regs: [0; 32] };
        assert(psg.regs@ =~= Seq::new(32, |i: int| 0u16));
        psg
    }
}

impl Psg {
    /// Every register zero.
    pub open spec fn is_cleared(self) -> bool {
        self.regs@ == Seq::new(32, |i: int| 0u16)
    }

    /// Silent channels with cleared registers.
    pub fn new() -> (psg: Self)
        ensures
            psg.is_cleared(),
    {
        Self::default()
    }

    /// The register at `offset` (relative to `0x4000000`), in the block
    /// `0x060..=0x09F`.
    pub open spec fn register(self, offset: u32) -> u16 {
        self.regs[(offset - 0x060) / 2]
    }

    /// The registers after a masked write at `offset`.
    pub open spec fn written(self, offset: u32, value: u16, mask: u16) -> Psg {
        let i = (offset - 0x060) / 2;
        Psg {
            regs: vstd::array::spec_array_update(
                self.regs,
                i,
                dma::merge16(self.regs[i], value, mask),
            ),
        }
    }

    /// Read the register at `offset`.
    pub fn read16(&self, offset: u32) -> (value: u16)
        requires
            0x060 <= offset <= 0x09F,
        ensures
            value == self.register(offset),
    {
        self.regs[((offset - 0x060) / 2) as usize]
    }

    /// Apply a masked write to the register at `offset`.
    pub fn write16(&mut self, offset: u32, value: u16, mask: u16)
        requires
            0x060 <= offset <= 0x09F,
        ensures
            *final(self) == old(self).written(offset, value, mask),
    {
        let i: usize = ((offset - 0x060) / 2) as usize;
        self.regs[i] = dma::merge16(self.regs[i], value, mask);
    }

    /// The channel-on bits of NR52: no channel is on.
    #[verifier::allow_in_spec]
    pub fn status_bits(&self) -> u16
        returns
            0u16,
    {
        0
    }

    /// The stereo output over one sample: silence.
    #[verifier::allow_in_spec]
    pub fn step_sample(&self, _cycles: i32) -> (i32, i32)
        returns
            (0i32, 0i32),
    {
        (0, 0)
    }
}

/// A register reads back as it was written, and writing it leaves the others alone.
pub proof fn registers_read_back(psg: Psg, offset: u32, other: u32, value: u16)
    requires
        0x060 <= offset <= 0x09F,
        0x060 <= other <= 0x09F,
    ensures
        psg.written(offset, value, 0xFFFF).register(offset) == value,
        other / 2 != offset / 2 ==> psg.written(offset, value, 0xFFFF).register(other)
            == psg.register(other),
{
    dma::lemma_merged_halfword(psg.register(offset), value);
}

} // verus!
