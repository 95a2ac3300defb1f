//! Laws of the instruction fetch: where an instruction comes from, and which set it is
//! read in.

use vstd::prelude::*;

use super::bus::BusModel;
use super::results::flag;
use super::CpuState;
use crate::arm::decode::{decode_arm, decode_thumb};
use crate::bits;

verus! {

/// The processor once the instruction at `pc` was fetched in so many cycles.
pub open spec fn ready(state: CpuState, pc: u32, cycles: u32) -> CpuState {
    CpuState {
        r: state.r.update(15, pc),
        branched: false,
        data_access: false,
        cycles: state.cycles + cycles,
        ..state
    }
}

/// In Thumb state a halfword is fetched at the even address of the program counter and
/// carried out as a Thumb instruction; the next one is two bytes on.
pub proof fn thumb_instructions_are_halfwords<B: BusModel>(state: CpuState, bus: B)
    requires
        flag(state, 0x20),
    ensures
        ({
            let pc = (state.r[15] - state.r[15] % 2) as u32;
            let (read, fetched) = bus.fetched16(pc, state.sequential);
            let (done, after) = ready(state, pc, read.cycles).thumb(
                decode_thumb(read.value),
                fetched,
            );
            state.step(bus) == (done.advance(((pc + 2) % 0x1_0000_0000) as u32), after)
        }),
{
    bits::lemma_low_bits_u32(state.r[15]);
    let pc = (state.r[15] - state.r[15] % 2) as u32;
    assert(pc == state.r[15] & !1);
    let s = CpuState { branched: false, ..state };
    let (read, fetched) = bus.fetched16(pc, state.sequential);
    assert(CpuState { r: s.r.update(15, pc), data_access: false, ..s }.spend(read.cycles as int)
        == ready(state, pc, read.cycles));
}

/// In ARM state a word is fetched at the aligned address of the program counter and
/// carried out as an ARM instruction if its condition holds; the next one is four bytes on.
pub proof fn arm_instructions_are_words<B: BusModel>(state: CpuState, bus: B)
    requires
        !flag(state, 0x20),
    ensures
        ({
            let pc = (state.r[15] - state.r[15] % 4) as u32;
            let (read, fetched) = bus.fetched32(pc, state.sequential);
            let instruction = decode_arm(read.value);
            let begun = ready(state, pc, read.cycles);
            let (done, after) = if state.cpsr.passes(instruction.condition) {
                begun.arm(instruction.operation, fetched)
            } else {
                (begun, fetched)
            };
            state.step(bus) == (done.advance(((pc + 4) % 0x1_0000_0000) as u32), after)
        }),
{
    bits::lemma_low_bits_u32(state.r[15]);
    let pc = (state.r[15] - state.r[15] % 4) as u32;
    assert(pc == state.r[15] & !3);
    let s = CpuState { branched: false, ..state };
    let (read, fetched) = bus.fetched32(pc, state.sequential);
    assert(CpuState { r: s.r.update(15, pc), data_access: false, ..s }.spend(read.cycles as int)
        == ready(state, pc, read.cycles));
}

} // verus!
