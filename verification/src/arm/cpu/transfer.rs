//! Memory transfers in ARM state, and the bus accesses every transfer is made of.

use vstd::prelude::*;

use super::{alu, Bus, BusModel, Cpu, CpuState, Mode};
use crate::arm::instruction::arm::{
    ArmOperation, BlockTransfer, DoublewordTransfer, HalfwordKind, HalfwordOffset,
    HalfwordTransfer, ShiftSource, SingleOffset, SingleTransfer, Swap,
};
use crate::arm::register::Register;
use crate::bits;

verus! {

impl Cpu {
    pub(super) fn load32<B: Bus>(&mut self, bus: &mut B, address: u32, sequential: bool) -> (value:
        u32)
        requires
            old(self)@.has_room(1),
            old(bus).model().valid(),
        ensures
            (value, final(self)@, final(bus).model()) == old(self)@.load32(
                old(bus).model(),
                address,
                sequential,
            ),
            final(bus).model().valid(),
    {
        let read = bus.load32(address, sequential);
        self.cycles = self.cycles + read.cycles as u64;
        read.value
    }

    pub(super) fn load16<B: Bus>(&mut self, bus: &mut B, address: u32) -> (value: u16)
        requires
            old(self)@.has_room(1),
            old(bus).model().valid(),
        ensures
            (value, final(self)@, final(bus).model()) == old(self)@.load16(old(bus).model(), address),
            final(bus).model().valid(),
    {
        let read = bus.load16(address, false);
        self.cycles = self.cycles + read.cycles as u64;
        read.value
    }

    pub(super) fn load8<B: Bus>(&mut self, bus: &mut B, address: u32) -> (value: u8)
        requires
            old(self)@.has_room(1),
            old(bus).model().valid(),
        ensures
            (value, final(self)@, final(bus).model()) == old(self)@.load8(old(bus).model(), address),
            final(bus).model().valid(),
    {
        let read = bus.load8(address, false);
        self.cycles = self.cycles + read.cycles as u64;
        read.value
    }

    pub(super) fn store32<B: Bus>(
        &mut self,
        bus: &mut B,
        address: u32,
        value: u32,
        sequential: bool,
    )
        requires
            old(self)@.has_room(1),
            old(bus).model().valid(),
        ensures
            (final(self)@, final(bus).model()) == old(self)@.store32(
                old(bus).model(),
                address,
                value,
                sequential,
            ),
            final(bus).model().valid(),
    {
        let cycles: u32 = bus.store32(address, value, sequential);
        self.cycles = self.cycles + cycles as u64;
    }

    pub(super) fn store16<B: Bus>(&mut self, bus: &mut B, address: u32, value: u16)
        requires
            old(self)@.has_room(1),
            old(bus).model().valid(),
        ensures
            (final(self)@, final(bus).model()) == old(self)@.store16(old(bus).model(), address, value),
            final(bus).model().valid(),
    {
        let cycles: u32 = bus.store16(address, value, false);
        self.cycles = self.cycles + cycles as u64;
    }

    pub(super) fn store8<B: Bus>(&mut self, bus: &mut B, address: u32, value: u8)
        requires
            old(self)@.has_room(1),
            old(bus).model().valid(),
        ensures
            (final(self)@, final(bus).model()) == old(self)@.store8(old(bus).model(), address, value),
            final(bus).model().valid(),
    {
        let cycles: u32 = bus.store8(address, value, false);
        self.cycles = self.cycles + cycles as u64;
    }

    /// Load a word, or a zero-extended byte. An unaligned word load rotates the
    /// aligned word into place.
    pub(super) fn load_word_or_byte<B: Bus>(&mut self, bus: &mut B, address: u32, byte: bool) -> (
        value: u32)
        requires
            old(self)@.has_room(1),
            old(bus).model().valid(),
        ensures
            (value, final(self)@, final(bus).model()) == old(self)@.load_word_or_byte(
                old(bus).model(),
                address,
                byte,
            ),
            final(bus).model().valid(),
    {
        if byte {
            self.load8(bus, address) as u32
        } else {
            let word: u32 = self.load32(bus, address & !3u32, false);
            proof {
                bits::lemma_low_bits_u32(address);
            }
            bits::rotate_right(word, (address & 3) * 8)
        }
    }

    /// Store a word or a byte. The unaligned address goes to memory as-is;
    /// word-aligned memory ignores the low bits, but an 8-bit bus uses them to
    /// select which byte a wide store latches.
    pub(super) fn store_word_or_byte<B: Bus>(
        &mut self,
        bus: &mut B,
        address: u32,
        value: u32,
        byte: bool,
    )
        requires
            old(self)@.has_room(1),
            old(bus).model().valid(),
        ensures
            (final(self)@, final(bus).model()) == old(self)@.store_word_or_byte(
                old(bus).model(),
                address,
                value,
                byte,
            ),
            final(bus).model().valid(),
    {
        if byte {
            self.store8(bus, address, value as u8);
        } else {
            self.store32(bus, address, value, false);
        }
    }

    /// Load a halfword or a sign-extended value.
    pub(super) fn load_extended<B: Bus>(
        &mut self,
        bus: &mut B,
        address: u32,
        kind: HalfwordKind,
    ) -> (value: u32)
        requires
            old(self)@.has_room(1),
            old(bus).model().valid(),
        ensures
            (value, final(self)@, final(bus).model()) == old(self)@.load_extended(
                old(bus).model(),
                address,
                kind,
            ),
            final(bus).model().valid(),
    {
        match kind {
            HalfwordKind::UnsignedHalfword => {
                // A misaligned (odd) LDRH reads the aligned halfword and rotates
                // the zero-extended word right by 8.
                let value: u32 = self.load16(bus, address & !1u32) as u32;
                if address & 1 != 0 {
                    bits::rotate_right(value, 8)
                } else {
                    value
                }
            },
            HalfwordKind::SignedByte => {
                let value: u8 = self.load8(bus, address);
                bits::extend8(value)
            },
            HalfwordKind::SignedHalfword => {
                // A misaligned (odd) LDRSH on ARM7TDMI loads a *signed byte*
                // from that address rather than a halfword.
                if address & 1 != 0 {
                    let value: u8 = self.load8(bus, address);
                    bits::extend8(value)
                } else {
                    let value: u16 = self.load16(bus, address);
                    bits::extend16(value)
                }
            },
        }
    }

    /// Apply the base-register writeback for a single/halfword transfer.
    /// Post-indexed always writes back; pre-indexed writes back only with `W`.
    fn apply_writeback(&mut self, pre_indexed: bool, writeback: bool, rn: Register, value: u32)
        requires
            rn.valid(),
        ensures
            final(self)@ == old(self)@.apply_writeback(pre_indexed, writeback, rn, value),
    {
        if !pre_indexed || writeback {
            self.set_reg(rn, value);
        }
    }

    /// Write a loaded register. On ARMv5, a word loaded into r15 interworks: its
    /// bit 0 chooses the instruction set.
    fn set_loaded(&mut self, rd: Register, value: u32, byte: bool)
        requires
            rd.valid(),
        ensures
            final(self)@ == old(self)@.set_loaded(rd, value, byte),
    {
        if rd.is_pc() && !byte && self.version.is_v5() {
            self.cpsr.set_thumb(value & 1 != 0);
            self.set_reg(rd, value & !1u32);
        } else {
            self.set_reg(rd, value);
        }
    }

    /// The offset for a single data transfer: an immediate, or a register with an
    /// immediate barrel shift (this class cannot use a register shift amount).
    fn single_offset(&self, offset: &SingleOffset) -> (value: u32)
        requires
            offset.valid(),
        ensures
            value == self@.single_offset(*offset),
    {
        match offset {
            SingleOffset::Immediate(imm) => *imm as u32,
            SingleOffset::Register { rm, shift } => {
                let value: u32 = self.reg(*rm);
                match shift.source {
                    ShiftSource::Immediate(amount) => {
                        alu::shift_by_immediate(shift.kind, value, amount, self.cpsr.c()).0
                    },
                    ShiftSource::Register(_) => value,
                }
            },
        }
    }

    /// The offset for a halfword or doubleword transfer.
    fn extra_offset(&self, offset: HalfwordOffset) -> (value: u32)
        requires
            offset.valid(),
        ensures
            value == self@.extra_offset(offset),
    {
        match offset {
            HalfwordOffset::Immediate(imm) => imm as u32,
            HalfwordOffset::Register(rm) => self.reg(rm),
        }
    }

    pub(super) fn execute_single_transfer<B: Bus>(&mut self, op: SingleTransfer, bus: &mut B)
        requires
            ArmOperation::SingleTransfer(op).valid(),
            old(self)@.has_room(2),
            old(bus).model().valid(),
        ensures
            final(self)@ == old(self)@.single_transfer(op, old(bus).model()).0,
            final(bus).model() == old(self)@.single_transfer(op, old(bus).model()).1,
            final(bus).model().valid(),
    {
        self.data_access = true;
        let base: u32 = self.reg(op.rn);
        let offset: u32 = self.single_offset(&op.offset);
        let moved: u32 = moved(base, offset, op.add);
        let address: u32 = if op.pre_indexed {
            moved
        } else {
            base
        };

        if op.load {
            let value: u32 = self.load_word_or_byte(bus, address, op.byte);
            self.internal_cycles(bus, 1);  // the load-use internal cycle
            self.apply_writeback(op.pre_indexed, op.writeback, op.rn, moved);
            self.set_loaded(op.rd, value, op.byte);  // rd after writeback, so it wins if rn == rd
        } else {
            // Storing r15 stores the address of this instruction plus 12.
            let mut value: u32 = self.reg(op.rd);
            if op.rd.is_pc() {
                value = value.wrapping_add(4);
            }
            self.store_word_or_byte(bus, address, value, op.byte);
            self.apply_writeback(op.pre_indexed, op.writeback, op.rn, moved);
        }
    }

    pub(super) fn execute_halfword_transfer<B: Bus>(&mut self, op: HalfwordTransfer, bus: &mut B)
        requires
            ArmOperation::HalfwordTransfer(op).valid(),
            old(self)@.has_room(2),
            old(bus).model().valid(),
        ensures
            final(self)@ == old(self)@.halfword_transfer(op, old(bus).model()).0,
            final(bus).model() == old(self)@.halfword_transfer(op, old(bus).model()).1,
            final(bus).model().valid(),
    {
        self.data_access = true;
        let base: u32 = self.reg(op.rn);
        let offset: u32 = self.extra_offset(op.offset);
        let moved: u32 = moved(base, offset, op.add);
        let address: u32 = if op.pre_indexed {
            moved
        } else {
            base
        };

        if op.load {
            let value: u32 = self.load_extended(bus, address, op.kind);
            self.internal_cycles(bus, 1);
            self.apply_writeback(op.pre_indexed, op.writeback, op.rn, moved);
            self.set_reg(op.rd, value);
        } else {
            // Only STRH stores; the signed kinds are load-only.
            let value: u16 = self.reg(op.rd) as u16;
            self.store16(bus, address, value);
            self.apply_writeback(op.pre_indexed, op.writeback, op.rn, moved);
        }
    }

    /// `LDRD`/`STRD` (ARMv5TE): move the register pair `rd`, `rd`+1 as two words.
    /// Undefined on ARMv4T.
    pub(super) fn execute_doubleword_transfer<B: Bus>(
        &mut self,
        op: DoublewordTransfer,
        bus: &mut B,
    )
        requires
            ArmOperation::DoublewordTransfer(op).valid(),
            old(self)@.has_room(3),
            old(bus).model().valid(),
        ensures
            final(self)@ == old(self)@.doubleword_transfer(op, old(bus).model()).0,
            final(bus).model() == old(self)@.doubleword_transfer(op, old(bus).model()).1,
            final(bus).model().valid(),
    {
        if !self.version.is_v5() {
            return self.execute_undefined();
        }
        self.data_access = true;
        let base: u32 = self.reg(op.rn);
        let offset: u32 = self.extra_offset(op.offset);
        let moved: u32 = moved(base, offset, op.add);
        let address: u32 = if op.pre_indexed {
            moved
        } else {
            base
        };
        let second = Register::new(op.rd.0 + 1);

        if op.store {
            let low: u32 = self.reg(op.rd);
            let high: u32 = self.reg(second);
            self.store32(bus, address, low, false);
            self.store32(bus, address.wrapping_add(4), high, true);
            self.apply_writeback(op.pre_indexed, op.writeback, op.rn, moved);
        } else {
            let low: u32 = self.load32(bus, address, false);
            let high: u32 = self.load32(bus, address.wrapping_add(4), true);
            self.internal_cycles(bus, 1);
            self.apply_writeback(op.pre_indexed, op.writeback, op.rn, moved);
            self.set_reg(op.rd, low);
            self.set_reg(second, high);
        }
    }

    /// Read register `index` from the User-mode bank, for `LDM/STM {..}^` without
    /// r15 in the list, which always transfers the User registers.
    fn reg_user(&self, index: usize) -> (value: u32)
        requires
            index < 16,
        ensures
            value == self@.reg_user(index as int),
    {
        let mode = self.cpsr.mode();
        if 8 <= index && index <= 12 && mode == Some(Mode::Fiq) {
            self.banked_common[index - 8]
        } else if index == 13 && !matches!(mode, Some(Mode::User | Mode::System)) {
            self.banked_r13[0]
        } else if index == 14 && !matches!(mode, Some(Mode::User | Mode::System)) {
            self.banked_r14[0]
        } else {
            self.r[index]
        }
    }

    /// Write register `index` in the User-mode bank (see [`Self::reg_user`]).
    fn set_reg_user(&mut self, index: usize, value: u32)
        requires
            index < 16,
        ensures
            final(self)@ == old(self)@.set_reg_user(index as int, value),
    {
        let mode = self.cpsr.mode();
        if 8 <= index && index <= 12 && mode == Some(Mode::Fiq) {
            self.banked_common[index - 8] = value;
        } else if index == 13 && !matches!(mode, Some(Mode::User | Mode::System)) {
            self.banked_r13[0] = value;
        } else if index == 14 && !matches!(mode, Some(Mode::User | Mode::System)) {
            self.banked_r14[0] = value;
        } else {
            self.r[index] = value;
        }
    }

    /// The empty-list edge case: only r15 is transferred, and the base is adjusted
    /// by 0x40 (as though all sixteen registers had moved).
    fn execute_empty_block_transfer<B: Bus>(&mut self, op: BlockTransfer, bus: &mut B)
        requires
            op.rn.valid(),
            old(self)@.has_room(2),
            old(bus).model().valid(),
        ensures
            final(self)@ == old(self)@.empty_block_transfer(op, old(bus).model()).0,
            final(bus).model() == old(self)@.empty_block_transfer(op, old(bus).model()).1,
            final(bus).model().valid(),
    {
        let base: u32 = self.reg(op.rn);
        let (address, last) = block_span(op, base, 0x40);
        if op.load {
            let value: u32 = self.load32(bus, address, false);
            self.internal_cycles(bus, 1);
            self.apply_writeback(true, op.writeback, op.rn, last);
            self.set_reg(Register::pc(), value);
        } else {
            let value: u32 = self.reg(Register::pc()).wrapping_add(4);
            self.store32(bus, address, value, false);
            self.apply_writeback(true, op.writeback, op.rn, last);
        }
    }

    /// The value `STM` stores for register `i`.
    fn block_store_value(&self, op: BlockTransfer, last: u32, i: u16) -> (value: u32)
        requires
            op.rn.valid(),
            i < 16,
        ensures
            value == self@.block_store_value(op, last, i),
    {
        let user_bank = op.psr_force_user && op.register_list & (1u16 << 15u16) == 0;
        let register = Register::new(i as u8);
        proof {
            lemma_register_of(i);
        }

        // When an `STM` writes back a base that is itself in the list, the value
        // stored for the base is the *new* (written-back) one unless the base is
        // the lowest register in the list (stored before the writeback happens).
        let base_index: u16 = op.rn.0 as u16;
        let store_written_back_base = op.writeback && op.register_list & (1u16 << base_index) != 0
            && op.register_list.trailing_zeros() != base_index as u32;
        let value: u32 = if store_written_back_base && i == base_index {
            last
        } else if user_bank {
            self.reg_user(i as usize)
        } else {
            self.reg(register)
        };
        // STM stores r15 as this instruction's address plus 12.
        if i == 15 {
            value.wrapping_add(4)
        } else {
            value
        }
    }

    /// Execute `LDM` or `STM`.
    pub fn execute_block_transfer<B: Bus>(&mut self, op: BlockTransfer, bus: &mut B)
        requires
            op.rn.valid(),
            old(self)@.has_room(18),
            old(bus).model().valid(),
        ensures
            final(self)@ == old(self)@.block_transfer(op, old(bus).model()).0,
            final(bus).model() == old(self)@.block_transfer(op, old(bus).model()).1,
            final(bus).model().valid(),
    {
        self.data_access = true;
        let base: u32 = self.reg(op.rn);
        let count: u32 = bits::count_ones(op.register_list);
        if count == 0 {
            return self.execute_empty_block_transfer(op, bus);
        }

        // Registers always transfer lowest-first at the lowest address; the
        // base and direction set where that block sits.
        let (start, last) = block_span(op, base, count * 4);

        // `{..}^` with r15 absent transfers the User-mode banked registers,
        // regardless of the current mode. (With r15 present, an `LDM` is instead
        // an exception return, handled below.)
        let user_bank = op.psr_force_user && op.register_list & (1u16 << 15u16) == 0;

        let mut address: u32 = start;
        let mut sequential = false;
        let mut i: u16 = 0;
        let ghost goal = self@.block_registers(op, last, 0, start, false, bus.model());
        while i < 16
            invariant
                i <= 16,
                op.rn.valid(),
                self@.has_room(18 - i),
                bus.model().valid(),
                user_bank == CpuState::uses_user_bank(op),
                goal == self@.block_registers(op, last, i, address, sequential, bus.model()),
            decreases 16 - i,
        {
            if op.register_list & (1u16 << i) != 0 {
                if op.load {
                    let value: u32 = self.load32(bus, address, sequential);
                    if user_bank {
                        self.set_reg_user(i as usize, value);
                    } else {
                        self.set_reg(Register::new(i as u8), value);
                    }
                } else {
                    let value: u32 = self.block_store_value(op, last, i);
                    self.store32(bus, address, value, sequential);
                }
                address = address.wrapping_add(4);
                sequential = true;
            }
            i = i + 1;
        }

        if op.load {
            self.internal_cycles(bus, 1);
        }
        if op.writeback {
            // For LDM, a base loaded from memory keeps the loaded value, unless it
            // is the lowest register: loaded first, then overwritten.
            let base_index: u16 = op.rn.0 as u16;
            let base_loaded = op.load && op.register_list & (1u16 << base_index) != 0
                && op.register_list.trailing_zeros() != base_index as u32;
            if !base_loaded {
                self.set_reg(op.rn, last);
            }
        }

        // `LDM {..., pc}^` restores the CPSR from the SPSR (exception return).
        if op.load && op.psr_force_user && op.register_list & (1u16 << 15u16) != 0 {
            self.restore_cpsr();
        }
    }

    pub(super) fn execute_swap<B: Bus>(&mut self, op: Swap, bus: &mut B)
        requires
            ArmOperation::Swap(op).valid(),
            old(self)@.has_room(3),
            old(bus).model().valid(),
        ensures
            final(self)@ == old(self)@.swap(op, old(bus).model()).0,
            final(bus).model() == old(self)@.swap(op, old(bus).model()).1,
            final(bus).model().valid(),
    {
        self.data_access = true;
        let address: u32 = self.reg(op.rn);
        let loaded: u32 = self.load_word_or_byte(bus, address, op.byte);
        let stored: u32 = self.reg(op.rm);
        if op.byte {
            self.store8(bus, address, stored as u8);
        } else {
            self.store32(bus, address & !3u32, stored, false);
        }
        self.internal_cycles(bus, 1);
        self.set_reg(op.rd, loaded);
    }
}

/// A base moved by an offset, up or down.
pub(super) fn moved(base: u32, offset: u32, add: bool) -> (address: u32)
    ensures
        address == CpuState::moved(base, offset, add),
{
    if add {
        base.wrapping_add(offset)
    } else {
        base.wrapping_sub(offset)
    }
}

/// Where a block transfer starts, and the base it leaves behind.
fn block_span(op: BlockTransfer, base: u32, size: u32) -> (span: (u32, u32))
    ensures
        span == CpuState::block_span(op, base, size),
{
    if op.add {
        let start: u32 = if op.pre_indexed {
            base.wrapping_add(4)
        } else {
            base
        };
        (start, base.wrapping_add(size))
    } else {
        let low: u32 = base.wrapping_sub(size);
        let start: u32 = if op.pre_indexed {
            low
        } else {
            low.wrapping_add(4)
        };
        (start, low)
    }
}

/// A register number below 16 is its own field.
pub(super) proof fn lemma_register_of(i: u16)
    requires
        i < 16,
    ensures
        Register::new(i as u8) == Register(i as u8),
{
    let b = i as u8;
    assert(b & 0xF == b) by (bit_vector)
        requires
            b < 16,
    ;
}

} // verus!
