//! Laws of the interpreter.

use vstd::prelude::*;

use super::bus::BusModel;
use super::psr::Mode;
use super::{Cpu, CpuState};
use crate::arm::decode::{decode_arm, decode_thumb};
use crate::arm::instruction::arm::BlockTransfer;
use crate::arm::instruction::thumb::ThumbInstruction;
use crate::arm::register::Register;
use crate::bits;

verus! {

/// What a core stands for always has register files of the right size.
pub proof fn core_state_is_valid(cpu: Cpu)
    ensures
        cpu@.valid(),
{
    super::lemma_view_is_valid(cpu);
}

/// Switching to another mode and back restores every register and the CPSR.
pub proof fn mode_switch_round_trip(state: CpuState, mode: Mode)
    requires
        state.valid(),
        state.cpsr.mode() is Some,
    ensures
        ({
            let back = state.change_mode(mode).change_mode(state.cpsr.mode()->0);
            back.r == state.r && back.cpsr == state.cpsr
        }),
{
    let from = state.cpsr.mode()->0;
    let there = state.change_mode(mode);
    if from != mode {
        super::psr::mode_write_reads_back(state.cpsr, mode);
        lemma_control_bits(state.cpsr.bits(), mode.bits());
        let back = there.change_mode(from);
        assert(back.r =~= state.r);
    }
}

/// Returning from an exception - restoring the CPSR from the SPSR that the entry
/// filled - brings back the CPSR and every register of the interrupted mode but
/// the PC.
pub proof fn exception_return_restores(
    state: CpuState,
    vector: u32,
    mode: Mode,
    return_address: u32,
    disable_fiq: bool,
)
    requires
        state.valid(),
        state.cpsr.mode() is Some,
        CpuState::spsr_index(mode) is Some,
        state.cpsr.mode() != Some(mode),
    ensures
        ({
            let back = state.enter_exception(
                vector,
                mode,
                return_address,
                disable_fiq,
            ).restore_cpsr();
            &&& back.cpsr == state.cpsr
            &&& back.r == state.r.update(15, vector)
        }),
{
    let from = state.cpsr.mode()->0;
    let entered = state.enter_exception(vector, mode, return_address, disable_fiq);
    let switched = state.change_mode(mode);
    super::psr::mode_write_reads_back(state.cpsr, mode);
    lemma_control_bits(switched.cpsr.bits(), 0);
    assert(entered.cpsr.mode() == Some(mode));
    assert(entered.current_spsr() == Some(state.cpsr));
    let back = entered.restore_cpsr();
    assert(back.r =~= state.r.update(15, vector));
}

proof fn lemma_control_bits(bits: u32, mode: u32)
    by (bit_vector)
    ensures
        (((bits & !0x1Fu32) | mode) & !0x1Fu32) | (bits & 0x1F) == bits || mode > 0x1F,
        ((bits & !0x20u32) | 0x80u32) & 0x1F == bits & 0x1F,
        (((bits & !0x20u32) | 0x80u32) | 0x40u32) & 0x1F == bits & 0x1F,
        ((bits & !0x20u32) | 0x80u32) & 0x20 == 0,
        ((bits & !0x20u32) | 0x80u32) & 0x80 != 0,
        (((bits & !0x20u32) | 0x80u32) | 0x40u32) & 0x20 == 0,
        (((bits & !0x20u32) | 0x80u32) | 0x40u32) & 0x80 != 0,
{
}

/// An exception is entered in ARM state with IRQs masked, in the mode asked for,
/// with the return address in that mode's LR.
pub proof fn exception_entry_masks_irqs(
    state: CpuState,
    vector: u32,
    mode: Mode,
    return_address: u32,
    disable_fiq: bool,
)
    requires
        state.valid(),
        state.cpsr.mode() is Some,
    ensures
        ({
            let entered = state.enter_exception(vector, mode, return_address, disable_fiq);
            &&& !entered.cpsr.thumb()
            &&& entered.cpsr.irq_disabled()
            &&& entered.cpsr.mode() == Some(mode)
            &&& entered.r[14] == return_address
            &&& entered.r[15] == vector
        }),
{
    let switched = state.change_mode(mode);
    super::psr::mode_write_reads_back(state.cpsr, mode);
    lemma_control_bits(switched.cpsr.bits(), 0);
}

/// An instruction whose condition fails does nothing but take its fetch cycles
/// and move on to the next word.
pub proof fn failed_condition_only_advances<B: BusModel>(state: CpuState, bus: B)
    requires
        state.valid(),
        !state.cpsr.thumb(),
        !state.cpsr.passes(
            decode_arm(
                bus.fetched32(state.r[15] & !3, state.sequential).0.value,
            ).condition,
        ),
    ensures
        ({
            let (fetched, after) = bus.fetched32(state.r[15] & !3, state.sequential);
            state.step(bus) == (
                CpuState {
                    r: state.r.update(15, (state.r[15] & !3).wrapping_add(4)),
                    cycles: state.cycles + fetched.cycles,
                    branched: false,
                    sequential: true,
                    data_access: false,
                    ..state
                },
                after,
            )
        }),
{
    let (fetched, after) = bus.fetched32(state.r[15] & !3, state.sequential);
    let s = CpuState { branched: false, ..state };
    let pc = state.r[15] & !3;
    let fetching = CpuState { r: s.r.update(15, pc), data_access: false, ..s }.spend(
        fetched.cycles as int,
    );
    let stepped = fetching.advance(pc.wrapping_add(4));
    assert(stepped.r =~= state.r.update(15, pc.wrapping_add(4)));
}

/// One half of a Thumb `BL`.
pub open spec fn long_branch_half(second_half: bool, offset: u16) -> ThumbInstruction {
    ThumbInstruction::LongBranchLink { second_half, exchange: false, offset }
}

/// Where a `BL` at `address` goes: its 11-bit halves, the high one signed, form an offset
/// in halfwords from the address of the instruction two on.
pub open spec fn long_branch_target(address: u32, high: u16, low: u16) -> u32 {
    let signed = if high >= 0x400 {
        high - 0x800
    } else {
        high as int
    };
    bits::wrapped32(address + 4 + signed * 0x1000 + low * 2)
}

proof fn lemma_long_branch_half<B: BusModel>(
    state: CpuState,
    bus: B,
    second_half: bool,
    offset: u16,
)
    ensures
        state.thumb(long_branch_half(second_half, offset), bus) == (
            state.thumb_long_branch(second_half, false, offset),
            bus,
        ),
{
    reveal(CpuState::thumb);
}

proof fn lemma_long_branch_target(address: u32, high: u16, low: u16)
    requires
        high < 0x800,
        low < 0x800,
    ensures
        ({
            let signed = if high >= 0x400 {
                high - 0x800
            } else {
                high as int
            };
            address.wrapping_add(4).wrapping_add(bits::wrapped32(signed * 0x1000)).wrapping_add(
                (low * 2) as u32,
            ) == long_branch_target(address, high, low)
        }),
{
}

/// The two halves of a Thumb `BL`, the second executed where it follows the first, branch
/// to the target and leave the address behind the pair, marked as Thumb code, in r14.
/// Nothing else of the registers or the CPSR changes, and memory is not touched.
pub proof fn long_branch_pair<B: BusModel>(state: CpuState, bus: B, high: u16, low: u16)
    requires
        state.valid(),
        state.cpsr.thumb(),
        high < 0x800,
        low < 0x800,
    ensures
        ({
            let at = state.r[15];
            let (first, between) = state.thumb(long_branch_half(false, high), bus);
            let moved = CpuState {
                r: first.r.update(15, at.wrapping_add(2)),
                sequential: false,
                ..first
            };
            let (done, after) = moved.thumb(long_branch_half(true, low), between);
            &&& between == bus && after == bus
            &&& done.r == state.r.update(14, at.wrapping_add(4) | 1).update(
                15,
                long_branch_target(at, high, low),
            )
            &&& done.cpsr == state.cpsr
        }),
{
    let at = state.r[15];
    lemma_long_branch_half(state, bus, false, high);
    let first = state.thumb_long_branch(false, false, high);
    let moved = CpuState { r: first.r.update(15, at.wrapping_add(2)), sequential: false, ..first };
    lemma_long_branch_half(moved, bus, true, low);
    lemma_long_branch_target(at, high, low);
    let done = moved.thumb_long_branch(true, false, low);
    assert(at.wrapping_add(2).wrapping_add(2) == at.wrapping_add(4));
    assert(done.r =~= state.r.update(14, at.wrapping_add(4) | 1).update(
        15,
        long_branch_target(at, high, low),
    ));
}

proof fn lemma_even_address(address: u32, even: u32, next: u32)
    by (bit_vector)
    requires
        even == address & !1u32,
        next == (even + 2) as u32 || next == (even + 2 - 0x1_0000_0000) as u32,
    ensures
        next & !1u32 == next,
{
}

/// Stepping through a `BL` takes its two fetches and their cycles, and otherwise does what
/// the pair of halves does.
pub proof fn long_branch_takes_two_steps<B: BusModel>(
    state: CpuState,
    bus: B,
    high: u16,
    low: u16,
)
    requires
        state.valid(),
        state.cpsr.thumb(),
        high < 0x800,
        low < 0x800,
        ({
            let at = state.r[15] & !1;
            let (fetched, next) = bus.fetched16(at, state.sequential);
            &&& decode_thumb(fetched.value) == long_branch_half(false, high)
            &&& decode_thumb(next.fetched16(at.wrapping_add(2), true).0.value)
                == long_branch_half(true, low)
        }),
    ensures
        ({
            let at = state.r[15] & !1;
            let (fetched, next) = bus.fetched16(at, state.sequential);
            let (followed, last) = next.fetched16(at.wrapping_add(2), true);
            let (first, between) = state.step(bus);
            let (done, after) = first.step(between);
            &&& after == last
            &&& done.cycles == state.cycles + fetched.cycles + followed.cycles
            &&& done.r == state.r.update(14, at.wrapping_add(4) | 1).update(
                15,
                long_branch_target(at, high, low),
            )
            &&& done.cpsr == state.cpsr
        }),
{
    let at = state.r[15] & !1;
    lemma_even_address(state.r[15], at, at.wrapping_add(2));
    let (fetched, next) = bus.fetched16(at, state.sequential);
    let (followed, last) = next.fetched16(at.wrapping_add(2), true);
    let s = CpuState { r: state.r.update(15, at), branched: false, data_access: false, ..state };
    let fetching = s.spend(fetched.cycles as int);
    lemma_long_branch_half(fetching, next, false, high);
    let first = fetching.thumb_long_branch(false, false, high).advance(at.wrapping_add(2));
    assert(CpuState { branched: false, ..state }.step_thumb(bus) == (first, next));
    let again = CpuState {
        r: first.r.update(15, at.wrapping_add(2)),
        branched: false,
        data_access: false,
        ..first
    }.spend(followed.cycles as int);
    lemma_long_branch_half(again, last, true, low);
    lemma_long_branch_target(at, high, low);
    let done = again.thumb_long_branch(true, false, low).advance(at.wrapping_add(4));
    assert(at.wrapping_add(2).wrapping_add(2) == at.wrapping_add(4));
    assert(CpuState { branched: false, ..first }.step_thumb(next) == (done, last));
    assert(done.r =~= state.r.update(14, at.wrapping_add(4) | 1).update(
        15,
        long_branch_target(at, high, low),
    ));
}

/// Two words at least four bytes apart, around the end of the address space too.
pub open spec fn apart(a: u32, b: u32) -> bool {
    4 <= distance(a, b) <= 0xFFFF_FFFC
}

/// How far up from `a` to `b`.
pub open spec fn distance(a: u32, b: u32) -> int {
    if b >= a {
        b - a
    } else {
        b - a + 0x1_0000_0000
    }
}

/// Whether a bus is RAM, `word` being what it holds at an address: a word load answers
/// what is held and changes nothing, and a word store replaces what is held there and
/// nothing apart from it.
pub open spec fn is_ram<B: BusModel>(word: spec_fn(B, u32) -> u32) -> bool {
    &&& forall|bus: B, a: u32, sequential: bool|
        (#[trigger] bus.loaded32(a, sequential)).0.value == word(bus, a)
    &&& forall|bus: B, a: u32, sequential: bool, b: u32|
        #[trigger] word(bus.loaded32(a, sequential).1, b) == word(bus, b)
    &&& forall|bus: B, a: u32, value: u32, sequential: bool|
        word((#[trigger] bus.stored32(a, value, sequential)).1, a) == value
    &&& forall|bus: B, a: u32, value: u32, sequential: bool, b: u32|
        apart(a, b) ==> #[trigger] word(bus.stored32(a, value, sequential).1, b) == word(bus, b)
}

/// `STMDB rn!, {list}`.
pub open spec fn push(rn: Register, list: u16) -> BlockTransfer {
    BlockTransfer {
        load: false,
        pre_indexed: true,
        add: false,
        psr_force_user: false,
        writeback: true,
        rn,
        register_list: list,
    }
}

/// `LDMIA rn!, {list}`.
pub open spec fn pop(rn: Register, list: u16) -> BlockTransfer {
    BlockTransfer {
        load: true,
        pre_indexed: false,
        add: true,
        psr_force_user: false,
        writeback: true,
        rn,
        register_list: list,
    }
}

/// The address of listed register `i` in a block that starts at `start`.
pub open spec fn slot(start: u32, list: u16, i: u16) -> u32 {
    start.wrapping_add((4 * bits::ones_below(list, i as nat)) as u32)
}

proof fn lemma_list_is_counted(list: u16)
    requires
        list != 0,
    ensures
        0 < bits::ones_below(list, 16) <= 16,
{
    bits::lemma_ones_below_bound(list, 16);
    if bits::ones_below(list, 16) == 0 {
        reveal_with_fuel(bits::ones_below, 17);
        assert(list & (1u16 << 0u16) == 0 && list & (1u16 << 1u16) == 0 && list & (1u16 << 2u16)
            == 0 && list & (1u16 << 3u16) == 0 && list & (1u16 << 4u16) == 0 && list & (1u16
            << 5u16) == 0 && list & (1u16 << 6u16) == 0 && list & (1u16 << 7u16) == 0 && list & (
        1u16 << 8u16) == 0 && list & (1u16 << 9u16) == 0 && list & (1u16 << 10u16) == 0 && list & (
        1u16 << 11u16) == 0 && list & (1u16 << 12u16) == 0 && list & (1u16 << 13u16) == 0 && list
            & (1u16 << 14u16) == 0 && list & (1u16 << 15u16) == 0);
        assert(list == 0) by (bit_vector)
            requires
                list & (1u16 << 0u16) == 0 && list & (1u16 << 1u16) == 0 && list & (1u16 << 2u16)
                    == 0 && list & (1u16 << 3u16) == 0 && list & (1u16 << 4u16) == 0 && list & (
                1u16 << 5u16) == 0 && list & (1u16 << 6u16) == 0 && list & (1u16 << 7u16) == 0
                    && list & (1u16 << 8u16) == 0 && list & (1u16 << 9u16) == 0 && list & (1u16
                    << 10u16) == 0 && list & (1u16 << 11u16) == 0 && list & (1u16 << 12u16) == 0
                    && list & (1u16 << 13u16) == 0 && list & (1u16 << 14u16) == 0 && list & (1u16
                    << 15u16) == 0,
        ;
    }
}

proof fn lemma_ones_grow(list: u16, i: nat, j: nat)
    requires
        i <= j <= 16,
    ensures
        bits::ones_below(list, i) <= bits::ones_below(list, j) <= 16,
    decreases j - i,
{
    bits::lemma_ones_below_bound(list, j);
    if i < j {
        lemma_ones_grow(list, i, (j - 1) as nat);
    }
}

proof fn lemma_register_index(i: u16)
    requires
        i < 16,
    ensures
        Register::new(i as u8) == Register(i as u8),
{
    bits::lemma_low_bits_u8(i as u8);
}

proof fn lemma_pushed<B: BusModel>(
    state: CpuState,
    rn: Register,
    list: u16,
    last: u32,
    i: u16,
    start: u32,
    sequential: bool,
    bus: B,
    word: spec_fn(B, u32) -> u32,
)
    requires
        state.valid(),
        rn.valid(),
        i <= 16,
        !CpuState::listed(list, 15),
        !CpuState::listed(list, rn.0 as u16),
        is_ram(word),
    ensures
        ({
            let (after, ram) = state.block_registers(
                push(rn, list),
                last,
                i,
                slot(start, list, i),
                sequential,
                bus,
            );
            &&& after.r == state.r
            &&& forall|j: u16|
                i <= j < 16 && #[trigger] CpuState::listed(list, j) ==> word(
                    ram,
                    slot(start, list, j),
                ) == state.r[j as int]
            &&& forall|o: u32|
                4 * (bits::ones_below(list, 16) - bits::ones_below(list, i as nat)) <= distance(
                    slot(start, list, i),
                    o,
                ) <= 0xFFFF_FFFC ==> #[trigger] word(ram, o) == word(bus, o)
        }),
    decreases 16 - i,
{
    lemma_ones_grow(list, i as nat, 16);
    if i < 16 {
        let op = push(rn, list);
        let address = slot(start, list, i);
        lemma_ones_grow(list, (i + 1) as nat, 16);
        if CpuState::listed(list, i) {
            lemma_register_index(i);
            let value = state.block_store_value(op, last, i);
            assert(value == state.r[i as int]);
            let (stored, held) = state.store32(bus, address, value, sequential);
            let next = (i + 1) as u16;
            assert(slot(start, list, next) == address.wrapping_add(4));
            lemma_pushed(stored, rn, list, last, next, start, true, held, word);
            let (after, ram) = state.block_registers(op, last, i, address, sequential, bus);
            assert((after, ram) == stored.block_registers(
                op,
                last,
                next,
                address.wrapping_add(4),
                true,
                held,
            ));
            assert(word(held, address) == value);
            assert(distance(address.wrapping_add(4), address) == 0xFFFF_FFFC);
            assert(word(ram, address) == word(held, address));
            assert forall|o: u32|
                4 * (bits::ones_below(list, 16) - bits::ones_below(list, i as nat)) <= distance(
                    address,
                    o,
                ) <= 0xFFFF_FFFC implies #[trigger] word(ram, o) == word(bus, o) by {
                assert(apart(address, o));
                assert(distance(address.wrapping_add(4), o) == distance(address, o) - 4);
                assert(word(ram, o) == word(held, o));
            }
        } else {
            lemma_pushed(state, rn, list, last, (i + 1) as u16, start, sequential, bus, word);
        }
    }
}

proof fn lemma_popped<B: BusModel>(
    state: CpuState,
    rn: Register,
    list: u16,
    last: u32,
    i: u16,
    start: u32,
    sequential: bool,
    bus: B,
    word: spec_fn(B, u32) -> u32,
)
    requires
        state.valid(),
        i <= 16,
        !CpuState::listed(list, 15),
        is_ram(word),
    ensures
        ({
            let (after, ram) = state.block_registers(
                pop(rn, list),
                last,
                i,
                slot(start, list, i),
                sequential,
                bus,
            );
            &&& after.r.len() == 16
            &&& forall|j: u16|
                j < 16 ==> #[trigger] after.r[j as int] == (if i <= j && CpuState::listed(list, j) {
                    word(bus, slot(start, list, j))
                } else {
                    state.r[j as int]
                })
        }),
    decreases 16 - i,
{
    lemma_ones_grow(list, i as nat, 16);
    if i < 16 {
        let op = pop(rn, list);
        let address = slot(start, list, i);
        let next = (i + 1) as u16;
        if CpuState::listed(list, i) {
            lemma_register_index(i);
            let (value, s, held) = state.load32(bus, address, sequential);
            let loaded = s.set_reg(Register::new(i as u8), value);
            assert(slot(start, list, next) == address.wrapping_add(4));
            lemma_popped(loaded, rn, list, last, next, start, true, held, word);
        } else {
            lemma_popped(state, rn, list, last, next, start, sequential, bus, word);
        }
    }
}

/// A pop gives back what a push stored: after `STMDB rn!` of some registers to RAM, and
/// whatever was done to the registers but the base, `LDMIA rn!` of the same list brings
/// each of them and the base back, and leaves the others alone. In between, memory holds
/// the registers in ascending order, the lowest at the lowest address.
pub proof fn pop_gives_back_what_was_pushed<B: BusModel>(
    state: CpuState,
    between: CpuState,
    bus: B,
    rn: Register,
    list: u16,
    word: spec_fn(B, u32) -> u32,
)
    requires
        state.valid(),
        between.valid(),
        rn.valid(),
        !rn.is_pc(),
        list != 0,
        !CpuState::listed(list, 15),
        !CpuState::listed(list, rn.0 as u16),
        is_ram(word),
        between.r[rn.0 as int] == state.block_transfer(push(rn, list), bus).0.r[rn.0 as int],
    ensures
        ({
            let ram = state.block_transfer(push(rn, list), bus).1;
            let start = state.r[rn.0 as int].wrapping_sub(
                (4 * bits::ones_below(list, 16)) as u32,
            );
            let popped = between.block_transfer(pop(rn, list), ram).0;
            &&& between.r[rn.0 as int] == start
            &&& forall|i: u16|
                i < 16 && #[trigger] CpuState::listed(list, i) ==> word(ram, slot(start, list, i))
                    == state.r[i as int]
            &&& forall|i: u16|
                i < 16 ==> #[trigger] popped.r[i as int] == (if CpuState::listed(list, i) || i
                    == rn.0 {
                    state.r[i as int]
                } else {
                    between.r[i as int]
                })
        }),
{
    lemma_list_is_counted(list);
    let base = state.r[rn.0 as int];
    let size = (4 * bits::ones_below(list, 16)) as u32;
    let start = base.wrapping_sub(size);
    assert(slot(start, list, 0) == start);
    lemma_pushed(state.touching_data(), rn, list, start, 0, start, false, bus, word);
    let ram = state.block_transfer(push(rn, list), bus).1;
    assert(start.wrapping_add(size) == base);
    lemma_popped(between.touching_data(), rn, list, base, 0, start, false, ram, word);
}

} // verus!
