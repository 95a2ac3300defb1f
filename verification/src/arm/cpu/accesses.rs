//! Laws of the memory instructions: the address that each uses, what it loads or
//! stores there, and what becomes of its registers.

use vstd::prelude::*;

use super::bus::BusModel;
use super::psr::ArmVersion;
use super::results::flag;
use super::CpuState;
use crate::arm::instruction::arm::{
    BlockTransfer, DoublewordTransfer, HalfwordKind, HalfwordOffset, HalfwordTransfer, Shift,
    ShiftKind, ShiftSource, SingleOffset, SingleTransfer, Swap,
};
use crate::arm::register::Register;
use crate::bits;

verus! {

/// A signed byte as a word.
pub open spec fn from_byte(b: u8) -> int {
    if b < 0x80 {
        b as int
    } else {
        b + 0xFFFF_FF00
    }
}

/// A signed halfword as a word.
pub open spec fn from_halfword(h: u16) -> int {
    if h < 0x8000 {
        h as int
    } else {
        h + 0xFFFF_0000
    }
}

/// A word rotated right by a number of bytes.
pub open spec fn bytes_around(word: u32, count: int) -> int {
    if count == 0 {
        word as int
    } else if count == 1 {
        word as int / 0x100 + (word as int % 0x100) * 0x100_0000
    } else if count == 2 {
        word as int / 0x1_0000 + (word as int % 0x1_0000) * 0x1_0000
    } else {
        word as int / 0x100_0000 + (word as int % 0x100_0000) * 0x100
    }
}

proof fn lemma_rotations(word: u32)
    by (bit_vector)
    ensures
        (word >> 8u32) | (word << 24u32) == word / 0x100 + (word % 0x100) * 0x100_0000,
        (word >> 16u32) | (word << 16u32) == word / 0x1_0000 + (word % 0x1_0000) * 0x1_0000,
        (word >> 24u32) | (word << 8u32) == word / 0x100_0000 + (word % 0x100_0000) * 0x100,
{
}

/// A word load at any address reads the aligned word there and turns it so that the
/// addressed byte comes lowest; a byte load zero-extends.
pub proof fn word_and_byte_loads<B: BusModel>(state: CpuState, bus: B, address: u32)
    ensures
        ({
            let aligned = (address - address % 4) as u32;
            let (value, after, after_bus) = state.load_word_or_byte(bus, address, false);
            let (read, read_bus) = bus.loaded32(aligned, false);
            &&& value == bytes_around(read.value, address as int % 4)
            &&& after == (CpuState { cycles: state.cycles + read.cycles, ..state })
            &&& after_bus == read_bus
        }),
        ({
            let (value, after, after_bus) = state.load_word_or_byte(bus, address, true);
            let (read, read_bus) = bus.loaded8(address, false);
            &&& value == read.value
            &&& after == (CpuState { cycles: state.cycles + read.cycles, ..state })
            &&& after_bus == read_bus
        }),
{
    bits::lemma_low_bits_u32(address);
    let aligned = (address - address % 4) as u32;
    assert(aligned == address & !3);
    let word = bus.loaded32(aligned, false).0.value;
    lemma_rotations(word);
}

/// `LDRH` zero-extends a halfword, `LDRSH` sign-extends one and `LDRSB` a byte; at an
/// odd address `LDRH` reads the aligned halfword turned by a byte and `LDRSH` acts as
/// `LDRSB`.
pub proof fn extending_loads<B: BusModel>(state: CpuState, bus: B, address: u32)
    ensures
        ({
            let aligned = (address - address % 2) as u32;
            let (value, after, after_bus) = state.load_extended(
                bus,
                address,
                HalfwordKind::UnsignedHalfword,
            );
            let (read, read_bus) = bus.loaded16(aligned, false);
            &&& value == (if address % 2 == 0 {
                read.value as int
            } else {
                bytes_around(read.value as u32, 1)
            })
            &&& after_bus == read_bus
            &&& after == (CpuState { cycles: state.cycles + read.cycles, ..state })
        }),
        ({
            let (value, after, after_bus) = state.load_extended(
                bus,
                address,
                HalfwordKind::SignedByte,
            );
            let (read, read_bus) = bus.loaded8(address, false);
            &&& value == from_byte(read.value)
            &&& after_bus == read_bus
            &&& after == (CpuState { cycles: state.cycles + read.cycles, ..state })
        }),
        address % 2 == 0 ==> {
            let (value, after, after_bus) = state.load_extended(
                bus,
                address,
                HalfwordKind::SignedHalfword,
            );
            let (read, read_bus) = bus.loaded16(address, false);
            &&& value == from_halfword(read.value)
            &&& after_bus == read_bus
            &&& after == (CpuState { cycles: state.cycles + read.cycles, ..state })
        },
        address % 2 == 1 ==> state.load_extended(bus, address, HalfwordKind::SignedHalfword)
            == state.load_extended(bus, address, HalfwordKind::SignedByte),
{
    bits::lemma_low_bits_u32(address);
    let aligned = (address - address % 2) as u32;
    assert(aligned == address & !1);
    lemma_rotations(bus.loaded16(aligned, false).0.value as u32);
}

/// The base register moved up or down by an offset, modulo 2^32.
pub open spec fn displaced(base: u32, offset: u32, add: bool) -> int {
    (if add {
        base + offset
    } else {
        base - offset
    }) % 0x1_0000_0000
}

/// Where a transfer goes: at the displaced base, or, post-indexed, at the base itself.
pub open spec fn place(base: u32, moved: int, pre_indexed: bool) -> u32 {
    if pre_indexed {
        moved as u32
    } else {
        base
    }
}

/// `STR` and `STRB` store the word, or the low byte, of `rd` at the indexed address, and
/// leave the moved base in `rn` where they are post-indexed or write back.
pub proof fn store_instructions<B: BusModel>(state: CpuState, op: SingleTransfer, bus: B)
    requires
        state.valid(),
        !flag(state, 0x20),
        op.rn.0 < 15,
        op.rd.0 < 15,
        !op.load,
    ensures
        ({
            let (after, after_bus) = state.single_transfer(op, bus);
            let base = state.r[op.rn.0 as int];
            let moved = displaced(base, state.single_offset(op.offset), op.add);
            let address = place(base, moved, op.pre_indexed);
            let value = state.r[op.rd.0 as int];
            let (cycles, stored) = if op.byte {
                bus.stored8(address, value as u8, false)
            } else {
                bus.stored32(address, value, false)
            };
            &&& after_bus == stored
            &&& after.cycles == state.cycles + cycles
            &&& after.data_access
            &&& after.cpsr == state.cpsr
            &&& after.r == (if !op.pre_indexed || op.writeback {
                state.r.update(op.rn.0 as int, moved as u32)
            } else {
                state.r
            })
        }),
{
}

/// `LDR` and `LDRB` load `rd` from the indexed address, taking one internal cycle more,
/// and move the base as the stores do; a base that is also loaded keeps what was
/// loaded.
pub proof fn load_instructions<B: BusModel>(state: CpuState, op: SingleTransfer, bus: B)
    requires
        state.valid(),
        !flag(state, 0x20),
        op.rn.0 < 15,
        op.rd.0 < 15,
        op.load,
    ensures
        ({
            let (after, after_bus) = state.single_transfer(op, bus);
            let base = state.r[op.rn.0 as int];
            let moved = displaced(base, state.single_offset(op.offset), op.add);
            let address = place(base, moved, op.pre_indexed);
            let (value, loaded, read_bus) = state.load_word_or_byte(bus, address, op.byte);
            let based = if !op.pre_indexed || op.writeback {
                state.r.update(op.rn.0 as int, moved as u32)
            } else {
                state.r
            };
            &&& after_bus == read_bus.idled(1)
            &&& after.cycles == loaded.cycles + 1
            &&& after.data_access
            &&& after.cpsr == state.cpsr
            &&& after.r == based.update(op.rd.0 as int, value)
        }),
{
}

/// The halfword and signed transfers index their address and move their base as the
/// word transfers do; a store stores the low halfword.
pub proof fn halfword_instructions<B: BusModel>(state: CpuState, op: HalfwordTransfer, bus: B)
    requires
        state.valid(),
        !flag(state, 0x20),
        op.rn.0 < 15,
        op.rd.0 < 15,
    ensures
        ({
            let (after, after_bus) = state.halfword_transfer(op, bus);
            let base = state.r[op.rn.0 as int];
            let moved = displaced(base, state.extra_offset(op.offset), op.add);
            let address = place(base, moved, op.pre_indexed);
            let based = if !op.pre_indexed || op.writeback {
                state.r.update(op.rn.0 as int, moved as u32)
            } else {
                state.r
            };
            &&& op.load ==> {
                let (value, loaded, read_bus) = state.load_extended(bus, address, op.kind);
                &&& after_bus == read_bus.idled(1)
                &&& after.cycles == loaded.cycles + 1
                &&& after.r == based.update(op.rd.0 as int, value)
            }
            &&& !op.load ==> {
                let (cycles, stored) = bus.stored16(
                    address,
                    state.r[op.rd.0 as int] as u16,
                    false,
                );
                &&& after_bus == stored
                &&& after.cycles == state.cycles + cycles
                &&& after.r == based
            }
            &&& after.cpsr == state.cpsr
        }),
{
}

/// The offsets of the transfers: an immediate as it is, a register as it is, or, for
/// the word transfers, shifted by an encoded amount.
pub proof fn transfer_offsets(
    state: CpuState,
    immediate: u16,
    small: u8,
    rm: Register,
    kind: ShiftKind,
    amount: u8,
)
    requires
        state.valid(),
        rm.0 < 15,
    ensures
        state.single_offset(SingleOffset::Immediate(immediate)) == immediate,
        state.extra_offset(HalfwordOffset::Immediate(small)) == small,
        state.extra_offset(HalfwordOffset::Register(rm)) == state.r[rm.0 as int],
        state.single_offset(
            SingleOffset::Register {
                rm,
                shift: Shift { kind, source: ShiftSource::Immediate(amount) },
            },
        ) == super::alu::immediate_shift(
            kind,
            state.r[rm.0 as int],
            amount,
            flag(state, 0x2000_0000),
        ).0,
{
}

/// `STRD` stores `rd` and then `rd` + 1 in the next word; `LDRD` loads them from there.
pub proof fn doubleword_instructions<B: BusModel>(
    state: CpuState,
    op: DoublewordTransfer,
    bus: B,
)
    requires
        state.valid(),
        !flag(state, 0x20),
        state.version == ArmVersion::Armv5TE,
        op.rn.0 < 15,
        op.rd.0 < 14,
    ensures
        ({
            let (after, after_bus) = state.doubleword_transfer(op, bus);
            let base = state.r[op.rn.0 as int];
            let moved = displaced(base, state.extra_offset(op.offset), op.add);
            let address = place(base, moved, op.pre_indexed);
            let next = ((address + 4) % 0x1_0000_0000) as u32;
            let based = if !op.pre_indexed || op.writeback {
                state.r.update(op.rn.0 as int, moved as u32)
            } else {
                state.r
            };
            &&& op.store ==> {
                let (first, between) = bus.stored32(address, state.r[op.rd.0 as int], false);
                let (second, stored) = between.stored32(next, state.r[op.rd.0 + 1], true);
                &&& after_bus == stored
                &&& after.r == based
                &&& after.cycles == state.cycles + first + second
            }
            &&& !op.store ==> {
                let (low, between) = bus.loaded32(address, false);
                let (high, read_bus) = between.loaded32(next, true);
                &&& after_bus == read_bus.idled(1)
                &&& after.r == based.update(op.rd.0 as int, low.value).update(
                    op.rd.0 + 1,
                    high.value,
                )
                &&& after.cycles == state.cycles + low.cycles + high.cycles + 1
            }
        }),
{
    bits::lemma_low_bits_u8((op.rd.0 + 1) as u8);
}

/// `SWP` loads `rd` from the address in `rn` and stores `rm` there, the old contents
/// before the new; `SWPB` does so with a byte.
pub proof fn swap_instructions<B: BusModel>(state: CpuState, op: Swap, bus: B)
    requires
        state.valid(),
        !flag(state, 0x20),
        op.rn.0 < 15,
        op.rd.0 < 15,
        op.rm.0 < 15,
    ensures
        ({
            let (after, after_bus) = state.swap(op, bus);
            let address = state.r[op.rn.0 as int];
            let (value, loaded, read_bus) = state.load_word_or_byte(bus, address, op.byte);
            let (cycles, stored) = if op.byte {
                read_bus.stored8(address, state.r[op.rm.0 as int] as u8, false)
            } else {
                read_bus.stored32(
                    (address - address % 4) as u32,
                    state.r[op.rm.0 as int],
                    false,
                )
            };
            &&& after_bus == stored.idled(1)
            &&& after.r == state.r.update(op.rd.0 as int, value)
            &&& after.cycles == loaded.cycles + cycles + 1
        }),
{
    bits::lemma_low_bits_u32(state.r[op.rn.0 as int]);
}

/// The block of a block transfer: `size` bytes that end at the base or begin there,
/// taking in the base's own word unless the transfer moves first; the base is left at
/// the block's far end.
pub proof fn block_extent(op: BlockTransfer, base: u32, size: u32)
    ensures
        ({
            let (address, last) = CpuState::block_span(op, base, size);
            &&& last == displaced(base, size, op.add)
            &&& address == (if op.add {
                base + (if op.pre_indexed {
                    4int
                } else {
                    0
                })
            } else {
                base - size + (if op.pre_indexed {
                    0int
                } else {
                    4
                })
            }) % 0x1_0000_0000
        }),
{
}

/// A block transfer of one register is a word transfer at the block's start: the
/// registers of a list go one by one, the lowest first, each four bytes on.
pub proof fn block_goes_word_by_word<B: BusModel>(
    state: CpuState,
    op: BlockTransfer,
    last: u32,
    i: u16,
    address: u32,
    sequential: bool,
    bus: B,
)
    requires
        state.valid(),
        !flag(state, 0x20),
        i < 15,
        !op.psr_force_user,
        op.rn.0 != i,
    ensures
        op.register_list & (1u16 << i) == 0 ==> state.block_registers(
            op,
            last,
            i,
            address,
            sequential,
            bus,
        ) == state.block_registers(op, last, (i + 1) as u16, address, sequential, bus),
        op.register_list & (1u16 << i) != 0 && op.load ==> {
            let (read, read_bus) = bus.loaded32(address, sequential);
            let loaded = CpuState {
                r: state.r.update(i as int, read.value),
                cycles: state.cycles + read.cycles,
                ..state
            };
            state.block_registers(op, last, i, address, sequential, bus) == loaded.block_registers(
                op,
                last,
                (i + 1) as u16,
                ((address + 4) % 0x1_0000_0000) as u32,
                true,
                read_bus,
            )
        },
        op.register_list & (1u16 << i) != 0 && !op.load ==> {
            let (cycles, stored) = bus.stored32(address, state.r[i as int], sequential);
            let spent = CpuState { cycles: state.cycles + cycles, ..state };
            state.block_registers(op, last, i, address, sequential, bus) == spent.block_registers(
                op,
                last,
                (i + 1) as u16,
                ((address + 4) % 0x1_0000_0000) as u32,
                true,
                stored,
            )
        },
{
    bits::lemma_low_bits_u8(i as u8);
}

} // verus!
