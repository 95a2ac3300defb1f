//! The CPU-visible video register block (`0x4000000`-`0x4000054`).
//!
//! This holds the raw register values as the CPU writes them. It is deliberately
//! separate from the [`LatchedState`](super::state::LatchedState) the renderer
//! reads: a mid-frame write lands here immediately, but only affects a scanline
//! that latches after it. `DISPSTAT`/`VCOUNT` are *not* here - those are timing
//! state, owned by [`super::timing::TimingState`].

use vstd::prelude::*;

use crate::bits;
use crate::gba::dma;

verus! {

/// The video registers, addressed by their `0x4000000`-relative offset.
#[derive(Clone, Copy, Debug)]
#[verifier::ext_equal]
pub struct Registers {
    /// `DISPCNT` (0x000): video mode, background/OBJ enables, forced blank.
    pub dispcnt: u16,
    /// `BG0CNT`..`BG3CNT` (0x008, 0x00A, 0x00C, 0x00E).
    pub bgcnt: [u16; 4],
    /// `BGxHOFS` horizontal scroll (0x010, 0x014, 0x018, 0x01C).
    pub bg_hofs: [u16; 4],
    /// `BGxVOFS` vertical scroll (0x012, 0x016, 0x01A, 0x01E).
    pub bg_vofs: [u16; 4],
    /// Affine parameters PA/PB/PC/PD for BG2 (`[0]`) and BG3 (`[1]`).
    pub bg_pa: [i16; 2],
    pub bg_pb: [i16; 2],
    pub bg_pc: [i16; 2],
    pub bg_pd: [i16; 2],
    /// Affine reference points `BGxX`/`BGxY`, 28-bit signed, for BG2/BG3.
    pub bg_ref_x: [i32; 2],
    pub bg_ref_y: [i32; 2],
    /// Window horizontal/vertical bounds `WIN0`/`WIN1` (0x040-0x046).
    pub win_h: [u16; 2],
    pub win_v: [u16; 2],
    /// `WININ`/`WINOUT` (0x048/0x04A).
    pub winin: u16,
    pub winout: u16,
    /// `MOSAIC` (0x04C).
    pub mosaic: u16,
    /// `BLDCNT`/`BLDALPHA`/`BLDY` (0x050/0x052/0x054).
    pub bldcnt: u16,
    pub bldalpha: u16,
    pub bldy: u16,
}

impl Default for Registers {
    fn default() -> (registers: Self)
        ensures
            registers.is_cleared(),
    {
        Registers {
            dispcnt: 0,
            bgcnt: [0, 0, 0, 0],
            bg_hofs: [0, 0, 0, 0],
            bg_vofs: [0, 0, 0, 0],
            bg_pa: [0, 0],
            bg_pb: [0, 0],
            bg_pc: [0, 0],
            bg_pd: [0, 0],
            bg_ref_x: [0, 0],
            bg_ref_y: [0, 0],
            win_h: [0, 0],
            win_v: [0, 0],
            winin: 0,
            winout: 0,
            mosaic: 0,
            bldcnt: 0,
            bldalpha: 0,
            bldy: 0,
        }
    }
}

/// The value of a 28-bit two's complement number (bit 27 is the sign), given in the
/// low bits of a word.
pub open spec fn signed28(raw: u32) -> int {
    let low = raw as int % 0x1000_0000;
    if low >= 0x0800_0000 {
        low - 0x1000_0000
    } else {
        low
    }
}

/// Sign-extend a 28-bit affine reference (bit 27 is the sign) to `i32`.
pub fn sign_extend_28(raw: u32) -> (value: i32)
    ensures
        value == signed28(raw),
{
    let low: u32 = raw % 0x1000_0000;
    if low >= 0x0800_0000 {
        (low as i64 - 0x1000_0000) as i32
    } else {
        low as i32
    }
}

/// The word of an affine reference after a masked write to its low or its high
/// halfword.
pub open spec fn merged_ref(reference: i32, value: u16, mask: u16, high: bool) -> u32 {
    let raw = bits::wrapped32(reference as int);
    if high {
        (dma::merge16((raw / 0x1_0000) as u16, value, mask) * 0x1_0000 + raw % 0x1_0000) as u32
    } else {
        (raw / 0x1_0000 * 0x1_0000 + dma::merge16((raw % 0x1_0000) as u16, value, mask)) as u32
    }
}

/// An affine reference after a masked write to its low or its high halfword,
/// re-extended from bit 27.
pub open spec fn ref_written(reference: i32, value: u16, mask: u16, high: bool) -> i32 {
    signed28(merged_ref(reference, value, mask, high)) as i32
}

impl Registers {
    /// Every register zero.
    pub open spec fn is_cleared(self) -> bool {
        &&& self.dispcnt == 0 && self.winin == 0 && self.winout == 0 && self.mosaic == 0
        &&& self.bldcnt == 0 && self.bldalpha == 0 && self.bldy == 0
        &&& self.bgcnt@ == seq![0u16, 0, 0, 0]
        &&& self.bg_hofs@ == seq![0u16, 0, 0, 0]
        &&& self.bg_vofs@ == seq![0u16, 0, 0, 0]
        &&& self.bg_pa@ == seq![0i16, 0] && self.bg_pb@ == seq![0i16, 0]
        &&& self.bg_pc@ == seq![0i16, 0] && self.bg_pd@ == seq![0i16, 0]
        &&& self.bg_ref_x@ == seq![0i32, 0] && self.bg_ref_y@ == seq![0i32, 0]
        &&& self.win_h@ == seq![0u16, 0] && self.win_v@ == seq![0u16, 0]
    }

    /// The affine-BG index (0 = BG2, 1 = BG3) for a register offset in the two
    /// affine blocks (0x020-0x02F and 0x030-0x03F).
    #[verifier::allow_in_spec]
    pub fn affine_index(offset: u32) -> usize
        returns
            (if offset >= 0x030 {
                1usize
            } else {
                0usize
            }),
    {
        if offset >= 0x030 {
            1
        } else {
            0
        }
    }

    /// Merge a masked write into the reference point `reference`, replacing either
    /// the low halfword or the high halfword, then re-sign-extending from bit 27.
    fn write_ref(reference: i32, value: u16, mask: u16, high: bool) -> (updated: i32)
        ensures
            updated == ref_written(reference, value, mask, high),
    {
        let raw: u32 = bits::to_word(reference);
        let merged: u32 = if high {
            dma::merge16((raw / 0x1_0000) as u16, value, mask) as u32 * 0x1_0000 + raw % 0x1_0000
        } else {
            raw / 0x1_0000 * 0x1_0000 + dma::merge16((raw % 0x1_0000) as u16, value, mask) as u32
        };
        sign_extend_28(merged)
    }

    /// The registers after a masked write to a background control or scroll register.
    pub open spec fn background_written(self, offset: u32, value: u16, mask: u16) -> Registers {
        if offset == 0x008 || offset == 0x00A || offset == 0x00C || offset == 0x00E {
            let i = (offset - 0x008) / 2;
            Registers {
                bgcnt: vstd::array::spec_array_update(
                    self.bgcnt,
                    i,
                    dma::merge16(self.bgcnt[i], value, mask),
                ),
                ..self
            }
        } else if offset == 0x010 || offset == 0x014 || offset == 0x018 || offset == 0x01C {
            let i = (offset - 0x010) / 4;
            Registers {
                bg_hofs: vstd::array::spec_array_update(
                    self.bg_hofs,
                    i,
                    dma::merge16(self.bg_hofs[i], value, mask) & 0x01FF,
                ),
                ..self
            }
        } else if offset == 0x012 || offset == 0x016 || offset == 0x01A || offset == 0x01E {
            let i = (offset - 0x012) / 4;
            Registers {
                bg_vofs: vstd::array::spec_array_update(
                    self.bg_vofs,
                    i,
                    dma::merge16(self.bg_vofs[i], value, mask) & 0x01FF,
                ),
                ..self
            }
        } else {
            self
        }
    }

    /// The registers after a masked write to an affine register.
    pub open spec fn affine_written(self, offset: u32, value: u16, mask: u16) -> Registers {
        let i = Self::affine_index(offset) as int;
        if offset == 0x020 || offset == 0x030 {
            Registers {
                bg_pa: vstd::array::spec_array_update(
                    self.bg_pa,
                    i,
                    dma::merge16(self.bg_pa[i] as u16, value, mask) as i16,
                ),
                ..self
            }
        } else if offset == 0x022 || offset == 0x032 {
            Registers {
                bg_pb: vstd::array::spec_array_update(
                    self.bg_pb,
                    i,
                    dma::merge16(self.bg_pb[i] as u16, value, mask) as i16,
                ),
                ..self
            }
        } else if offset == 0x024 || offset == 0x034 {
            Registers {
                bg_pc: vstd::array::spec_array_update(
                    self.bg_pc,
                    i,
                    dma::merge16(self.bg_pc[i] as u16, value, mask) as i16,
                ),
                ..self
            }
        } else if offset == 0x026 || offset == 0x036 {
            Registers {
                bg_pd: vstd::array::spec_array_update(
                    self.bg_pd,
                    i,
                    dma::merge16(self.bg_pd[i] as u16, value, mask) as i16,
                ),
                ..self
            }
        } else if offset == 0x028 || offset == 0x038 || offset == 0x02A || offset == 0x03A {
            Registers {
                bg_ref_x: vstd::array::spec_array_update(
                    self.bg_ref_x,
                    i,
                    ref_written(self.bg_ref_x[i], value, mask, offset == 0x02A || offset == 0x03A),
                ),
                ..self
            }
        } else if offset == 0x02C || offset == 0x03C || offset == 0x02E || offset == 0x03E {
            Registers {
                bg_ref_y: vstd::array::spec_array_update(
                    self.bg_ref_y,
                    i,
                    ref_written(self.bg_ref_y[i], value, mask, offset == 0x02E || offset == 0x03E),
                ),
                ..self
            }
        } else {
            self
        }
    }

    /// The registers after a masked write to a window or effects register. Window
    /// bounds are grouped by axis, not by window: both horizontal registers precede
    /// both vertical ones (WIN0H, WIN1H, WIN0V, WIN1V).
    pub open spec fn window_written(self, offset: u32, value: u16, mask: u16) -> Registers {
        if offset == 0x040 || offset == 0x042 {
            let i = (offset - 0x040) / 2;
            Registers {
                win_h: vstd::array::spec_array_update(
                    self.win_h,
                    i,
                    dma::merge16(self.win_h[i], value, mask),
                ),
                ..self
            }
        } else if offset == 0x044 || offset == 0x046 {
            let i = (offset - 0x044) / 2;
            Registers {
                win_v: vstd::array::spec_array_update(
                    self.win_v,
                    i,
                    dma::merge16(self.win_v[i], value, mask),
                ),
                ..self
            }
        } else if offset == 0x048 {
            Registers { winin: dma::merge16(self.winin, value, mask), ..self }
        } else if offset == 0x04A {
            Registers { winout: dma::merge16(self.winout, value, mask), ..self }
        } else if offset == 0x04C {
            Registers { mosaic: dma::merge16(self.mosaic, value, mask), ..self }
        } else if offset == 0x050 {
            Registers { bldcnt: dma::merge16(self.bldcnt, value, mask), ..self }
        } else if offset == 0x052 {
            Registers { bldalpha: dma::merge16(self.bldalpha, value, mask), ..self }
        } else if offset == 0x054 {
            Registers { bldy: dma::merge16(self.bldy, value, mask), ..self }
        } else {
            self
        }
    }

    /// The registers after a masked 16-bit write at `offset`.
    pub open spec fn written(self, offset: u32, value: u16, mask: u16) -> Registers {
        if offset < 0x020 {
            self.background_written(offset, value, mask)
        } else if offset < 0x040 {
            self.affine_written(offset, value, mask)
        } else {
            self.window_written(offset, value, mask)
        }
    }

    /// What the register at `offset` reads as.
    pub open spec fn register(self, offset: u32) -> u16 {
        if offset == 0x008 || offset == 0x00A || offset == 0x00C || offset == 0x00E {
            self.bgcnt[(offset - 0x008) / 2]
        } else if offset == 0x048 {
            self.winin
        } else if offset == 0x04A {
            self.winout
        } else if offset == 0x050 {
            self.bldcnt
        } else if offset == 0x052 {
            self.bldalpha
        } else {
            0
        }
    }

    /// Apply a masked 16-bit write to the video register at `offset` (in the
    /// `0x008..=0x054` block; `DISPCNT`/`DISPSTAT`/`VCOUNT` are handled elsewhere).
    pub fn write16(&mut self, offset: u32, value: u16, mask: u16)
        ensures
            *final(self) == old(self).written(offset, value, mask),
    {
        if offset < 0x020 {
            self.write_background(offset, value, mask);
        } else if offset < 0x040 {
            self.write_affine(offset, value, mask);
        } else {
            self.write_window(offset, value, mask);
        }
    }

    fn write_background(&mut self, offset: u32, value: u16, mask: u16)
        ensures
            *final(self) == old(self).background_written(offset, value, mask),
    {
        match offset {
            0x008 | 0x00A | 0x00C | 0x00E => {
                let i: usize = ((offset - 0x008) / 2) as usize;
                self.bgcnt[i] = dma::merge16(self.bgcnt[i], value, mask);
            },
            0x010 | 0x014 | 0x018 | 0x01C => {
                let i: usize = ((offset - 0x010) / 4) as usize;
                self.bg_hofs[i] = dma::merge16(self.bg_hofs[i], value, mask) & 0x01FF;
            },
            0x012 | 0x016 | 0x01A | 0x01E => {
                let i: usize = ((offset - 0x012) / 4) as usize;
                self.bg_vofs[i] = dma::merge16(self.bg_vofs[i], value, mask) & 0x01FF;
            },
            _ => {},
        }
    }

    fn write_affine(&mut self, offset: u32, value: u16, mask: u16)
        ensures
            *final(self) == old(self).affine_written(offset, value, mask),
    {
        let i: usize = Self::affine_index(offset);
        match offset {
            0x020 | 0x030 => {
                self.bg_pa[i] = dma::merge16(self.bg_pa[i] as u16, value, mask) as i16;
            },
            0x022 | 0x032 => {
                self.bg_pb[i] = dma::merge16(self.bg_pb[i] as u16, value, mask) as i16;
            },
            0x024 | 0x034 => {
                self.bg_pc[i] = dma::merge16(self.bg_pc[i] as u16, value, mask) as i16;
            },
            0x026 | 0x036 => {
                self.bg_pd[i] = dma::merge16(self.bg_pd[i] as u16, value, mask) as i16;
            },
            0x028 | 0x038 => {
                self.bg_ref_x[i] = Self::write_ref(self.bg_ref_x[i], value, mask, false);
            },
            0x02A | 0x03A => {
                self.bg_ref_x[i] = Self::write_ref(self.bg_ref_x[i], value, mask, true);
            },
            0x02C | 0x03C => {
                self.bg_ref_y[i] = Self::write_ref(self.bg_ref_y[i], value, mask, false);
            },
            0x02E | 0x03E => {
                self.bg_ref_y[i] = Self::write_ref(self.bg_ref_y[i], value, mask, true);
            },
            _ => {},
        }
    }

    fn write_window(&mut self, offset: u32, value: u16, mask: u16)
        ensures
            *final(self) == old(self).window_written(offset, value, mask),
    {
        match offset {
            0x040 => self.win_h[0] = dma::merge16(self.win_h[0], value, mask),
            0x042 => self.win_h[1] = dma::merge16(self.win_h[1], value, mask),
            0x044 => self.win_v[0] = dma::merge16(self.win_v[0], value, mask),
            0x046 => self.win_v[1] = dma::merge16(self.win_v[1], value, mask),
            0x048 => self.winin = dma::merge16(self.winin, value, mask),
            0x04A => self.winout = dma::merge16(self.winout, value, mask),
            0x04C => self.mosaic = dma::merge16(self.mosaic, value, mask),
            0x050 => self.bldcnt = dma::merge16(self.bldcnt, value, mask),
            0x052 => self.bldalpha = dma::merge16(self.bldalpha, value, mask),
            0x054 => self.bldy = dma::merge16(self.bldy, value, mask),
            _ => {},
        }
    }

    /// Read back the video register at `offset`. Write-only registers (scroll,
    /// affine parameters and reference points, window bounds, `MOSAIC`, `BLDY`)
    /// read as 0.
    pub fn read16(&self, offset: u32) -> (value: u16)
        ensures
            value == self.register(offset),
    {
        match offset {
            0x008 | 0x00A | 0x00C | 0x00E => self.bgcnt[((offset - 0x008) / 2) as usize],
            0x048 => self.winin,
            0x04A => self.winout,
            0x050 => self.bldcnt,
            0x052 => self.bldalpha,
            _ => 0,
        }
    }
}

proof fn lemma_full_mask(current: u16, value: u16)
    by (bit_vector)
    ensures
        (current & !0xFFFFu16) | (value & 0xFFFF) == value,
{
}

/// A full-width write to a readable register reads back.
pub proof fn readable_register_round_trips(registers: Registers, offset: u32, value: u16)
    requires
        offset == 0x008 || offset == 0x00A || offset == 0x00C || offset == 0x00E || offset == 0x048
            || offset == 0x04A || offset == 0x050 || offset == 0x052,
    ensures
        registers.written(offset, value, 0xFFFF).register(offset) == value,
{
    lemma_full_mask(registers.register(offset), value);
}

/// An affine reference written halfword by halfword is the 28-bit signed number
/// written.
pub proof fn reference_writes_compose(reference: i32, low: u16, high: u16)
    ensures
        ref_written(ref_written(reference, low, 0xFFFF, false), high, 0xFFFF, true) == signed28(
            (high * 0x1_0000 + low) as u32,
        ),
        -0x0800_0000 <= signed28((high * 0x1_0000 + low) as u32) < 0x0800_0000,
{
    let first = ref_written(reference, low, 0xFFFF, false);
    let raw = bits::wrapped32(reference as int);
    let raw_first = bits::wrapped32(first as int);
    lemma_full_mask((raw % 0x1_0000) as u16, low);
    lemma_full_mask((raw_first / 0x1_0000) as u16, high);
    assert(raw_first % 0x1_0000 == low);
}

} // verus!
