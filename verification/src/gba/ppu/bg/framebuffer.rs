//! Laws of the bitmap modes: which bytes of VRAM each pixel of the frame shows.

use vstd::arithmetic::div_mod;
use vstd::prelude::*;

use super::bitmap::{explanation_at, opaque_at, sample_offset};
use crate::gba::ppu::debug::provenance::{BitmapSample, SourceProvenance};
use crate::gba::ppu::memory::VideoMemory;
use crate::gba::ppu::state::{LatchedState, LayerId};

verus! {

/// Where a mosaic block begins: `size` positions show what the first of them does.
pub open spec fn first_of_block(position: int, size: int) -> int {
    position - position % size
}

/// The width of BG2's mosaic block, one where mosaic is off.
pub open spec fn block_width(state: LatchedState) -> int {
    if state.regs.bgcnt[2] & 0x40 != 0 {
        state.regs.mosaic as int % 16 + 1
    } else {
        1
    }
}

/// The height of BG2's mosaic block, one where mosaic is off.
pub open spec fn block_height(state: LatchedState) -> int {
    if state.regs.bgcnt[2] & 0x40 != 0 {
        state.regs.mosaic as int / 16 % 16 + 1
    } else {
        1
    }
}

/// Where the page that `DISPCNT` bit 4 selects begins.
pub open spec fn page(state: LatchedState) -> int {
    (state.regs.dispcnt as int / 16 % 2) * 0xA000
}

/// The little-endian halfword at an offset.
pub open spec fn halfword(bytes: Seq<u8>, offset: int) -> int {
    bytes[offset] + bytes[offset + 1] * 256
}

/// Whether BG2 is on the screen: `DISPCNT` bit 10 is set and bit 7, the forced blank,
/// is not.
pub open spec fn bg2_on(state: LatchedState) -> bool {
    state.regs.dispcnt & 0x400 != 0 && state.regs.dispcnt & 0x80 == 0
}

proof fn lemma_layer_bits(dispcnt: u16)
    by (bit_vector)
    ensures
        (dispcnt & (1u16 << 8usize) != 0) == (dispcnt & 0x100 != 0),
        (dispcnt & (1u16 << 9usize) != 0) == (dispcnt & 0x200 != 0),
        (dispcnt & (1u16 << 10usize) != 0) == (dispcnt & 0x400 != 0),
        (dispcnt & (1u16 << 11usize) != 0) == (dispcnt & 0x800 != 0),
{
}

/// The backgrounds are enabled by `DISPCNT` bits 8 to 11, one each.
pub proof fn background_enables(state: LatchedState)
    ensures
        state.bg_enabled(0) == (state.regs.dispcnt & 0x100 != 0),
        state.bg_enabled(1) == (state.regs.dispcnt & 0x200 != 0),
        state.bg_enabled(2) == (state.regs.dispcnt & 0x400 != 0),
        state.bg_enabled(3) == (state.regs.dispcnt & 0x800 != 0),
{
    lemma_layer_bits(state.regs.dispcnt);
}

/// Mode 3: pixel (x, y) of the 240 by 160 frame shows the VRAM halfword at
/// 2 (240 y + x), the first pixel of its mosaic block standing for the block.
pub proof fn mode3_frame(state: LatchedState, mem: VideoMemory, x: int, y: int)
    requires
        mem.valid(),
        state.mode == 3,
        0 <= x < 240,
        0 <= y < 160,
    ensures
        ({
            let sx = first_of_block(x, block_width(state));
            let sy = first_of_block(y, block_height(state));
            let offset = 2 * (240 * sy + sx);
            match opaque_at(state, mem, x, y) {
                Some(pixel) => {
                    &&& bg2_on(state)
                    &&& pixel.color.0 == halfword(mem.vram, offset)
                    &&& pixel.layer == LayerId::Bg2
                    &&& pixel.priority == state.regs.bgcnt[2] as int % 4
                },
                None => !bg2_on(state),
            }
        }),
{
    background_enables(state);
}

/// Mode 4: pixel (x, y) of the 240 by 160 frame names, by the VRAM byte at its page's
/// start plus 240 y + x, a palette entry; entry 0 is transparent.
pub proof fn mode4_frame(state: LatchedState, mem: VideoMemory, x: int, y: int)
    requires
        mem.valid(),
        state.mode == 4,
        0 <= x < 240,
        0 <= y < 160,
    ensures
        ({
            let sx = first_of_block(x, block_width(state));
            let sy = first_of_block(y, block_height(state));
            let index = mem.vram[page(state) + 240 * sy + sx];
            match opaque_at(state, mem, x, y) {
                Some(pixel) => {
                    &&& bg2_on(state)
                    &&& index != 0
                    &&& pixel.color.0 == halfword(mem.palette, 2 * index)
                    &&& pixel.layer == LayerId::Bg2
                    &&& pixel.priority == state.regs.bgcnt[2] as int % 4
                },
                None => !bg2_on(state) || index == 0,
            }
        }),
{
    background_enables(state);
}

/// Mode 5: pixel (x, y) of the 160 by 128 frame shows the VRAM halfword at its page's
/// start plus 2 (160 y + x); there is nothing outside that frame.
pub proof fn mode5_frame(state: LatchedState, mem: VideoMemory, x: int, y: int)
    requires
        mem.valid(),
        state.mode == 5,
        0 <= x < 240,
        0 <= y < 160,
    ensures
        ({
            let sx = first_of_block(x, block_width(state));
            let sy = first_of_block(y, block_height(state));
            let offset = page(state) + 2 * (160 * sy + sx);
            match opaque_at(state, mem, x, y) {
                Some(pixel) => {
                    &&& bg2_on(state)
                    &&& x < 160 && y < 128
                    &&& pixel.color.0 == halfword(mem.vram, offset)
                    &&& pixel.layer == LayerId::Bg2
                    &&& pixel.priority == state.regs.bgcnt[2] as int % 4
                },
                None => !bg2_on(state) || x >= 160 || y >= 128,
            }
        }),
{
    background_enables(state);
}

/// Without mosaic a frame's pixels lie one behind the other, row by row: the first of
/// a row follows on the last of the row above, and neighbours are one pixel apart.
pub proof fn rows_are_contiguous(state: LatchedState, x: int, y: int)
    requires
        state.regs.bgcnt[2] & 0x40 == 0,
        0 <= x,
        0 <= y,
    ensures
        sample_offset(state, 3, 0, y + 1) == sample_offset(state, 3, 239, y) + 2,
        sample_offset(state, 4, 0, y + 1) == sample_offset(state, 4, 239, y) + 1,
        sample_offset(state, 5, 0, y + 1) == sample_offset(state, 5, 159, y) + 2,
        sample_offset(state, 3, x + 1, y) == sample_offset(state, 3, x, y) + 2,
        sample_offset(state, 4, x + 1, y) == sample_offset(state, 4, x, y) + 1,
        sample_offset(state, 5, x + 1, y) == sample_offset(state, 5, x, y) + 2,
        sample_offset(state, 3, 0, 0) == 0,
        sample_offset(state, 4, 0, 0) == page(state),
        sample_offset(state, 5, 0, 0) == page(state),
{
}

/// No mode but the three bitmap modes shows anything.
pub proof fn other_modes_are_empty(state: LatchedState, mem: VideoMemory, x: int, y: int)
    requires
        state.mode < 3 || state.mode > 5,
    ensures
        opaque_at(state, mem, x, y) is None,
{
}

/// The explanation of a bitmap pixel names the place that it was read from: the frame
/// coordinates, the VRAM address of the sample, the sample itself and, in mode 4, the
/// address of the palette entry.
pub proof fn explanation_names_the_sample(state: LatchedState, mem: VideoMemory, x: int, y: int)
    requires
        mem.valid(),
        0 <= x < 240,
        0 <= y < 160,
    ensures
        explanation_at(state, mem, x, y) matches Some(explanation) ==> {
            let sx = first_of_block(x, block_width(state));
            let sy = first_of_block(y, block_height(state));
            &&& explanation.provenance matches SourceProvenance::BitmapBg(from)
            &&& from.video_mode == state.mode
            &&& from.source_x == sx
            &&& from.source_y == sy
            &&& from.priority == state.regs.bgcnt[2] as int % 4
            &&& from.frame == (if state.mode == 3 {
                0
            } else {
                state.regs.dispcnt as int / 16 % 2
            })
            &&& state.mode == 3 ==> from.vram_address == 0x0600_0000 + 2 * (240 * sy + sx)
            &&& state.mode == 4 ==> {
                let offset = page(state) + 240 * sy + sx;
                &&& from.vram_address == 0x0600_0000 + offset
                &&& from.raw == BitmapSample::Indexed(mem.vram[offset])
                &&& from.palette_address matches Some(address)
                &&& address == 0x0500_0000 + 2 * mem.vram[offset]
                &&& from.resolved.0 == halfword(mem.palette, 2 * mem.vram[offset])
            }
            &&& state.mode == 5 ==> from.vram_address == 0x0600_0000 + page(state) + 2 * (160 * sy
                + sx)
            &&& state.mode != 4 ==> {
                &&& from.palette_address is None
                &&& from.raw == BitmapSample::Direct(from.resolved)
                &&& from.resolved.0 == halfword(mem.vram, from.vram_address - 0x0600_0000)
            }
        },
{
    let width = block_width(state);
    let height = block_height(state);
    div_mod::lemma_mod_decreases(x as nat, width as nat);
    div_mod::lemma_mod_decreases(y as nat, height as nat);
    div_mod::lemma_mod_bound(x, width);
    div_mod::lemma_mod_bound(y, height);
}

} // verus!
