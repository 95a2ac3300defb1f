//! Laws of the display's overview: which backgrounds a video mode has, and how they are
//! set up.

use vstd::prelude::*;

use super::bg::framebuffer;
use super::debug::provenance::BackgroundId;
use super::inspect::kind_in_mode;
use super::scanline::background_id;
use super::state::LatchedState;
use super::PpuState;

verus! {

/// Mode 0 has four text backgrounds, mode 1 two and an affine one, mode 2 two affine ones,
/// modes 3 to 5 a bitmap in the place of background 2, and modes 6 and 7 none.
pub proof fn backgrounds_of_each_mode(mode: int, index: int)
    requires
        0 <= mode < 8,
        0 <= index < 4,
    ensures
        kind_in_mode(mode, index) is Text <==> mode == 0 || mode == 1 && index < 2,
        kind_in_mode(mode, index) is Affine <==> mode == 1 && index == 2 || mode == 2 && index >= 2,
        kind_in_mode(mode, index) is Bitmap <==> (mode == 3 || mode == 4 || mode == 5) && index
            == 2,
{
}

/// A background is told by its number and its priority, the low two bits of its control
/// register; it counts as enabled where `DISPCNT` bits 8 to 11 enable it and the mode has
/// it.
pub proof fn background_summary_fields(video: PpuState, index: int)
    requires
        0 <= index < 4,
    ensures
        ({
            let told = video.background(index);
            let mode = video.registers.dispcnt as int % 8;
            let bit = if index == 0 {
                0x100u16
            } else if index == 1 {
                0x200u16
            } else if index == 2 {
                0x400u16
            } else {
                0x800u16
            };
            let on = video.registers.dispcnt & bit != 0;
            &&& told.priority == video.registers.bgcnt[index] as int % 4
            &&& on ==> told.kind == kind_in_mode(mode, index)
            &&& !on ==> told.kind is Disabled
            &&& (told.enabled <==> told.kind !is Disabled)
            &&& (told.id is Bg0 <==> index == 0)
            &&& (told.id is Bg1 <==> index == 1)
            &&& (told.id is Bg2 <==> index == 2)
            &&& (told.id is Bg3 <==> index == 3)
        }),
{
    framebuffer::background_enables(LatchedState::from_registers(&video.registers));
}

/// A background is listed as producing pixels exactly where it is enabled.
pub proof fn producing_backgrounds(video: PpuState, first: int, index: int)
    requires
        0 <= first <= 4,
        first <= index < 4,
    ensures
        video.producing(first).contains(background_id(index as usize)) <==> video.background(
            index,
        ).enabled,
        forall|id: BackgroundId| #[trigger]
            video.producing(first).contains(id) ==> exists|i: int|
                first <= i < 4 && id == #[trigger] background_id(i as usize),
    decreases 4 - first,
{
    let head = seq![background_id(first as usize)];
    let rest = video.producing(first + 1);
    assert forall|id: BackgroundId| #[trigger]
        video.producing(first).contains(id) implies exists|i: int|
        first <= i < 4 && id == #[trigger] background_id(i as usize) by {
        if first + 1 < 4 {
            producing_backgrounds(video, first + 1, 3);
        } else {
            assert(rest.len() == 0);
        }
        if video.background(first).enabled {
            assert(video.producing(first) =~= head + rest);
            let k = choose|k: int|
                0 <= k < video.producing(first).len() && video.producing(first)[k] == id;
            if k == 0 {
                assert(id == background_id(first as usize));
            } else {
                assert(rest[k - 1] == id);
                assert(rest.contains(id));
            }
        }
    }
    if first + 1 < 4 {
        producing_backgrounds(video, first + 1, if index == first {
            3
        } else {
            index
        });
    }
    if video.background(first).enabled {
        assert(video.producing(first) =~= head + rest);
        assert(video.producing(first)[0] == background_id(first as usize));
        if index != first {
            if rest.contains(background_id(index as usize)) {
                let k = choose|k: int| 0 <= k < rest.len() && rest[k] == background_id(
                    index as usize,
                );
                assert(video.producing(first)[k + 1] == background_id(index as usize));
            }
        }
    }
}

} // verus!
