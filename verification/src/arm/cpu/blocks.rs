//! Laws of the block transfers: what becomes of the base, which bank is meant, and what
//! an empty list does.

use vstd::prelude::*;

use super::accesses::displaced;
use super::bus::BusModel;
use super::psr::Mode;
use super::results::flag;
use super::transfer::lemma_register_of;
use super::CpuState;
use crate::arm::instruction::arm::BlockTransfer;
use crate::arm::register::Register;
use crate::bits;

verus! {

/// Whether register `k` is in the list of a block transfer.
pub open spec fn in_list(op: BlockTransfer, k: u16) -> bool {
    op.register_list & (1u16 << k) != 0
}

/// `STM` stores a register as it is, or as the User mode has it where the transfer is
/// forced there; the program counter twelve bytes ahead; and the base as it will be left
/// behind, where it is written back and is not the lowest of the list.
pub proof fn block_store_values(state: CpuState, op: BlockTransfer, last: u32, k: u16)
    requires
        state.valid(),
        !flag(state, 0x20),
        k < 16,
        op.rn.0 < 15,
    ensures
        ({
            let value = state.block_store_value(op, last, k);
            let moved = op.writeback && in_list(op, k) && op.register_list.trailing_zeros() != k;
            let forced = op.psr_force_user && !in_list(op, 15);
            &&& k == op.rn.0 && moved ==> value == last
            &&& k < 15 && !(k == op.rn.0 && moved) && !forced ==> value == state.r[k as int]
            &&& k < 15 && !(k == op.rn.0 && moved) && forced ==> value == state.reg_user(k as int)
            &&& k == 15 && !forced ==> value == (state.r[15] + 12) % 0x1_0000_0000
        }),
{
    lemma_register_of(k);
}

proof fn lemma_block_keeps<B: BusModel>(
    state: CpuState,
    op: BlockTransfer,
    last: u32,
    i: u16,
    address: u32,
    sequential: bool,
    bus: B,
    k: u16,
)
    requires
        state.r.len() == 16,
        k < 16,
    ensures
        ({
            let after = state.block_registers(op, last, i, address, sequential, bus).0;
            &&& after.r.len() == 16
            &&& !op.load || !in_list(op, k) ==> after.r[k as int] == state.r[k as int]
        }),
    decreases 16 - i,
{
    if i < 16 {
        lemma_register_of(i);
        let next = (i + 1) as u16;
        if !CpuState::listed(op.register_list, i) {
            lemma_block_keeps(state, op, last, next, address, sequential, bus, k);
        } else if op.load {
            let (value, s, after) = state.load32(bus, address, sequential);
            let s = if CpuState::uses_user_bank(op) {
                s.set_reg_user(i as int, value)
            } else {
                s.set_reg(Register::new(i as u8), value)
            };
            lemma_block_keeps(s, op, last, next, address.wrapping_add(4), true, after, k);
        } else {
            let value = state.block_store_value(op, last, i);
            let (s, after) = state.store32(bus, address, value, sequential);
            lemma_block_keeps(s, op, last, next, address.wrapping_add(4), true, after, k);
        }
    }
}

/// With writeback the base moves by four bytes for each listed register, unless it was
/// loaded itself behind another register; without writeback it stays.
pub proof fn block_writeback<B: BusModel>(state: CpuState, op: BlockTransfer, bus: B)
    requires
        state.valid(),
        op.rn.0 < 15,
        bits::ones_below(op.register_list, 16) > 0,
        !(op.load && op.psr_force_user && in_list(op, 15)),
    ensures
        ({
            let after = state.block_transfer(op, bus).0;
            let k = op.rn.0 as u16;
            let size = 4 * bits::ones_below(op.register_list, 16);
            let loaded_later = op.load && in_list(op, k) && op.register_list.trailing_zeros() != k;
            &&& op.writeback && !loaded_later ==> after.r[k as int] == displaced(
                state.r[k as int],
                size as u32,
                op.add,
            )
            &&& !op.writeback && !(op.load && in_list(op, k)) ==> after.r[k as int]
                == state.r[k as int]
        }),
{
    let s = state.touching_data();
    let count = bits::ones_below(op.register_list, 16);
    let (address, last) = CpuState::block_span(op, s.reg(op.rn), (count * 4) as u32);
    lemma_block_keeps(s, op, last, 0, address, false, bus, op.rn.0 as u16);
    super::accesses::block_extent(op, s.reg(op.rn), (count * 4) as u32);
}

/// An empty list moves the program counter alone and the base by sixteen words.
pub proof fn empty_block<B: BusModel>(state: CpuState, op: BlockTransfer, bus: B)
    requires
        state.valid(),
        !flag(state, 0x20),
        op.rn.0 < 15,
        bits::ones_below(op.register_list, 16) == 0,
    ensures
        ({
            let base = state.r[op.rn.0 as int];
            let start = (if op.add {
                base + (if op.pre_indexed {
                    4int
                } else {
                    0
                })
            } else {
                base - 64 + (if op.pre_indexed {
                    0int
                } else {
                    4
                })
            }) % 0x1_0000_0000;
            let (after, after_bus) = state.block_transfer(op, bus);
            &&& after.r[op.rn.0 as int] == (if op.writeback {
                displaced(base, 64, op.add)
            } else {
                base as int
            })
            &&& op.load ==> after.r[15] == bus.loaded32(start as u32, false).0.value
                && after.branched
            &&& !op.load ==> after_bus == bus.stored32(
                start as u32,
                ((state.r[15] + 12) % 0x1_0000_0000) as u32,
                false,
            ).1
        }),
{
    super::accesses::block_extent(op, state.r[op.rn.0 as int], 0x40);
}

proof fn lemma_same_block<B: BusModel>(
    state: CpuState,
    op: BlockTransfer,
    last: u32,
    i: u16,
    address: u32,
    sequential: bool,
    bus: B,
)
    requires
        in_list(op, 15),
    ensures
        state.block_registers(op, last, i, address, sequential, bus) == state.block_registers(
            BlockTransfer { psr_force_user: !op.psr_force_user, ..op },
            last,
            i,
            address,
            sequential,
            bus,
        ),
    decreases 16 - i,
{
    if i < 16 {
        let next = (i + 1) as u16;
        if !CpuState::listed(op.register_list, i) {
            lemma_same_block(state, op, last, next, address, sequential, bus);
        } else if op.load {
            let (value, s, after) = state.load32(bus, address, sequential);
            let s = s.set_reg(Register::new(i as u8), value);
            lemma_same_block(s, op, last, next, address.wrapping_add(4), true, after);
        } else {
            let value = state.block_store_value(op, last, i);
            let (s, after) = state.store32(bus, address, value, sequential);
            lemma_same_block(s, op, last, next, address.wrapping_add(4), true, after);
        }
    }
}

/// `LDM` with `^` and the program counter in its list is the plain `LDM`, after which the
/// status register is restored from that of the mode.
pub proof fn exception_return_by_block<B: BusModel>(state: CpuState, op: BlockTransfer, bus: B)
    requires
        op.load,
        op.psr_force_user,
        in_list(op, 15),
        bits::ones_below(op.register_list, 16) > 0,
    ensures
        ({
            let plain = BlockTransfer { psr_force_user: false, ..op };
            let (after, after_bus) = state.block_transfer(plain, bus);
            state.block_transfer(op, bus) == (after.restore_cpsr(), after_bus)
        }),
{
    let s = state.touching_data();
    let count = bits::ones_below(op.register_list, 16);
    let (address, last) = CpuState::block_span(op, s.reg(op.rn), (count * 4) as u32);
    lemma_same_block(s, op, last, 0, address, false, bus);
}

/// The User bank is what the System mode, which shares it, has in its registers: reading
/// or writing it from any mode is as doing so there.
pub proof fn user_bank_is_seen_by_system_mode(state: CpuState, k: int, value: u32)
    requires
        state.valid(),
        state.cpsr.mode() is Some,
        0 <= k < 15,
    ensures
        state.reg_user(k) == state.change_mode(Mode::System).r[k],
        state.set_reg_user(k, value).change_mode(Mode::System).r[k] == value,
        forall|j: int|
            0 <= j < 16 && j != k ==> state.set_reg_user(k, value).change_mode(Mode::System).r[j]
                == state.change_mode(Mode::System).r[j],
{
}

} // verus!
