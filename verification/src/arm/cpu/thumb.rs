//! Thumb instruction execution.
//!
//! Thumb is a 16-bit re-encoding of a subset of ARM, so execution reuses the
//! arithmetic unit, the barrel shifter, and the exception machinery. The
//! differences that matter here are the implicit flag-setting, the `PC+4`
//! pipeline offset, and a handful of dedicated forms (PC/SP-relative addressing,
//! push/pop, the two-halfword `BL`).

use vstd::prelude::*;

use super::transfer::moved;
use super::{alu, Bus, BusModel, Cpu, CpuState, Mode};
use crate::arm::instruction::arm::{HalfwordKind, ShiftKind};
use crate::arm::instruction::thumb::{
    AddSubOperand, LoadAddressSource, ThumbAluOp, ThumbHiRegOp, ThumbImmediateOp,
    ThumbInstruction, ThumbShiftOp, ThumbSignExtendOp,
};
use crate::arm::register::Register;
use crate::bits;

verus! {

impl Cpu {
    /// Write a result to `rd` with the flags of an arithmetic operation.
    fn arithmetic_to(&mut self, rd: Register, sum: (u32, bool, bool))
        requires
            rd.valid(),
        ensures
            final(self)@ == old(self)@.arithmetic_to(rd, sum),
    {
        self.set_reg(rd, sum.0);
        self.set_arithmetic_flags(sum.0, sum.1, sum.2);
    }

    /// Set the flags of an arithmetic operation whose result is dropped.
    fn compare(&mut self, sum: (u32, bool, bool))
        ensures
            final(self)@ == old(self)@.compare(sum),
    {
        self.set_arithmetic_flags(sum.0, sum.1, sum.2);
    }

    /// Write a result to `rd` with its N and Z.
    fn logical_to(&mut self, rd: Register, result: u32)
        requires
            rd.valid(),
        ensures
            final(self)@ == old(self)@.logical_to(rd, result),
    {
        self.set_reg(rd, result);
        self.set_nz(result);
    }

    /// Trap as undefined, with the return address after this halfword.
    fn thumb_undefined(&mut self)
        ensures
            final(self)@ == old(self)@.undefined(2),
    {
        let return_address: u32 = self.r[15].wrapping_add(2);
        self.enter_exception(0x04, Mode::Undefined, return_address, false);
    }

    /// Jump relative to the PC.
    fn thumb_jump(&mut self, offset: i32)
        ensures
            final(self)@ == old(self)@.thumb_jump(offset),
    {
        let target: u32 = self.reg(Register::pc()).wrapping_add(bits::to_word(offset));
        self.set_reg(Register::pc(), target);
    }

    /// Execute one decoded Thumb instruction.
    pub fn execute_thumb<B: Bus>(&mut self, instruction: ThumbInstruction, bus: &mut B)
        requires
            instruction.valid(),
            old(self)@.has_room(20),
            old(bus).model().valid(),
        ensures
            final(self)@ == old(self)@.thumb(instruction, old(bus).model()).0,
            final(bus).model() == old(self)@.thumb(instruction, old(bus).model()).1,
            final(bus).model().valid(),
    {
        proof {
            reveal(CpuState::thumb);
        }
        match instruction {
            ThumbInstruction::MoveShifted { op, amount, rs, rd } => {
                let kind = match op {
                    ThumbShiftOp::Lsl => ShiftKind::Lsl,
                    ThumbShiftOp::Lsr => ShiftKind::Lsr,
                    ThumbShiftOp::Asr => ShiftKind::Asr,
                };
                let (result, carry) = alu::shift_by_immediate(
                    kind,
                    self.reg(rs),
                    amount,
                    self.cpsr.c(),
                );
                self.set_reg(rd, result);
                self.set_logical_flags(result, carry);
            },
            ThumbInstruction::AddSubtract { subtract, operand, rs, rd } => {
                let a: u32 = self.reg(rs);
                let b: u32 = match operand {
                    AddSubOperand::Register(r) => self.reg(r),
                    AddSubOperand::Immediate(imm) => imm as u32,
                };
                let sum = if subtract {
                    crate::arm::cpu::alu::sub(a, b)
                } else {
                    alu::adc(a, b, false)
                };
                self.arithmetic_to(rd, sum);
            },
            ThumbInstruction::AluImmediate { op, rd, immediate } => {
                let imm: u32 = immediate as u32;
                let a: u32 = self.reg(rd);
                match op {
                    ThumbImmediateOp::Mov => self.logical_to(rd, imm),
                    ThumbImmediateOp::Cmp => self.compare(crate::arm::cpu::alu::sub(a, imm)),
                    ThumbImmediateOp::Add => self.arithmetic_to(rd, alu::adc(a, imm, false)),
                    ThumbImmediateOp::Sub => self.arithmetic_to(
                        rd,
                        crate::arm::cpu::alu::sub(a, imm),
                    ),
                }
            },
            ThumbInstruction::AluOperation { op, rs, rd } => self.execute_thumb_alu(
                op,
                rs,
                rd,
                bus,
            ),
            ThumbInstruction::HiRegister { op, rs, rd } => self.thumb_hi_register(op, rs, rd),
            ThumbInstruction::PcRelativeLoad { rd, word8 } => {
                self.data_access = true;
                let base: u32 = self.reg(Register::pc()) & !3u32;
                let address: u32 = base.wrapping_add(word8 as u32 * 4);
                let value: u32 = self.load32(bus, address, false);
                self.internal_cycles(bus, 1);
                self.set_reg(rd, value);
            },
            ThumbInstruction::LoadStoreRegister { load, byte, ro, rb, rd } => {
                let address: u32 = self.reg(rb).wrapping_add(self.reg(ro));
                self.thumb_load_store(bus, load, byte, address, rd);
            },
            ThumbInstruction::LoadStoreSignExtended { op, ro, rb, rd } => {
                let address: u32 = self.reg(rb).wrapping_add(self.reg(ro));
                self.thumb_sign_extended(bus, op, address, rd);
            },
            ThumbInstruction::LoadStoreImmediate { load, byte, offset, rb, rd } => {
                let scaled: u32 = if byte {
                    offset as u32
                } else {
                    offset as u32 * 4
                };
                let address: u32 = self.reg(rb).wrapping_add(scaled);
                self.thumb_load_store(bus, load, byte, address, rd);
            },
            ThumbInstruction::LoadStoreHalfword { load, offset, rb, rd } => {
                let address: u32 = self.reg(rb).wrapping_add(offset as u32 * 2);
                let op = if load {
                    ThumbSignExtendOp::LoadHalfword
                } else {
                    ThumbSignExtendOp::StoreHalfword
                };
                self.thumb_sign_extended(bus, op, address, rd);
            },
            ThumbInstruction::SpRelativeLoadStore { load, rd, word8 } => {
                let address: u32 = self.reg(Register::sp()).wrapping_add(word8 as u32 * 4);
                self.thumb_load_store(bus, load, false, address, rd);
            },
            ThumbInstruction::LoadAddress { source, rd, word8 } => {
                let base: u32 = match source {
                    LoadAddressSource::Pc => self.reg(Register::pc()) & !3u32,
                    LoadAddressSource::Sp => self.reg(Register::sp()),
                };
                self.set_reg(rd, base.wrapping_add(word8 as u32 * 4));
            },
            ThumbInstruction::AdjustStackPointer { subtract, word7 } => {
                let sp: u32 = self.reg(Register::sp());
                let delta: u32 = word7 as u32 * 4;
                self.set_reg(Register::sp(), moved(sp, delta, !subtract));
            },
            ThumbInstruction::PushPop { pop, include_pc_lr, register_list } => {
                self.thumb_push_pop(bus, pop, include_pc_lr, register_list);
            },
            ThumbInstruction::BlockTransfer { load, rb, register_list } => {
                self.thumb_block_transfer(bus, load, rb, register_list);
            },
            ThumbInstruction::ConditionalBranch { condition, offset } => {
                if self.cpsr.passes(condition) {
                    self.thumb_jump(offset);
                }
            },
            ThumbInstruction::SoftwareInterrupt { .. } => {
                let return_address: u32 = self.r[15].wrapping_add(2);
                self.enter_exception(0x08, Mode::Supervisor, return_address, false);
            },
            ThumbInstruction::Branch { offset } => self.thumb_jump(offset),
            ThumbInstruction::LongBranchLink { second_half, exchange, offset } => {
                self.thumb_long_branch(second_half, exchange, offset);
            },
            ThumbInstruction::Undefined { raw } => {
                // The decoder's scope is ARMv4T; on an ARMv5 core the halfwords
                // 11101 are the second half of a `BLX`.
                if raw >> 11 == 0b11101 {
                    self.thumb_long_branch(true, true, raw & 0x7FF);
                } else {
                    self.thumb_undefined();
                }
            },
        }
    }

    /// High-register operations and `BX`. `BX` with the high bit of `rd` set is
    /// `BLX`, ARMv5-only.
    fn thumb_hi_register(&mut self, op: ThumbHiRegOp, rs: Register, rd: Register)
        requires
            rs.valid(),
            rd.valid(),
        ensures
            final(self)@ == old(self)@.thumb_hi_register(op, rs, rd),
    {
        match op {
            ThumbHiRegOp::Add => {
                let result: u32 = self.reg(rd).wrapping_add(self.reg(rs));
                self.set_reg(rd, result);
            },
            ThumbHiRegOp::Cmp => {
                let sum = crate::arm::cpu::alu::sub(self.reg(rd), self.reg(rs));
                self.compare(sum);
            },
            ThumbHiRegOp::Mov => {
                let value: u32 = self.reg(rs);
                self.set_reg(rd, value);
            },
            ThumbHiRegOp::Bx => {
                let target: u32 = self.reg(rs);
                if rd.0 >= 8 {
                    if !self.version.is_v5() {
                        return self.thumb_undefined();
                    }
                    let return_address: u32 = self.r[15].wrapping_add(2) | 1;
                    self.set_reg(Register::lr(), return_address);
                }
                self.exchange(target);
            },
        }
    }

    /// One half of the two-halfword `BL`/`BLX`.
    fn thumb_long_branch(&mut self, second_half: bool, exchange: bool, offset: u16)
        ensures
            final(self)@ == old(self)@.thumb_long_branch(second_half, exchange, offset),
    {
        if exchange && !self.version.is_v5() {
            // Thumb `BLX` is ARMv5-only; undefined on the ARM7TDMI.
            self.thumb_undefined();
        } else if !second_half {
            // First half: LR = (PC+4) + sign_extend(offset) << 12.
            let high: i32 = (if offset >= 0x400 {
                offset as i32 - 0x800
            } else {
                offset as i32
            }) * 0x1000;
            let lr: u32 = self.reg(Register::pc()).wrapping_add(bits::to_word(high));
            self.set_reg(Register::lr(), lr);
        } else {
            // Second half: branch to LR + (offset << 1); LR = return | 1.
            // `BLX` switches to ARM and forces word alignment.
            let target: u32 = self.reg(Register::lr()).wrapping_add(offset as u32 * 2);
            let return_address: u32 = self.r[15].wrapping_add(2) | 1;
            self.set_reg(Register::lr(), return_address);
            if exchange {
                self.cpsr.set_thumb(false);
                self.set_reg(Register::pc(), target & !3u32);
            } else {
                self.set_reg(Register::pc(), target);
            }
        }
    }

    fn execute_thumb_alu<B: Bus>(
        &mut self,
        op: ThumbAluOp,
        rs: Register,
        rd: Register,
        bus: &mut B,
    )
        requires
            rs.valid(),
            rd.valid(),
            old(self)@.has_room(1),
            old(bus).model().valid(),
        ensures
            final(self)@ == old(self)@.thumb_alu(op, rs, rd, old(bus).model()).0,
            final(bus).model() == old(self)@.thumb_alu(op, rs, rd, old(bus).model()).1,
            final(bus).model().valid(),
    {
        let a: u32 = self.reg(rd);
        let b: u32 = self.reg(rs);
        let carry_in = self.cpsr.c();
        match op {
            ThumbAluOp::And => self.logical_to(rd, a & b),
            ThumbAluOp::Eor => self.logical_to(rd, a ^ b),
            ThumbAluOp::Orr => self.logical_to(rd, a | b),
            ThumbAluOp::Bic => self.logical_to(rd, a & !b),
            ThumbAluOp::Mvn => self.logical_to(rd, !b),
            ThumbAluOp::Tst => self.set_nz(a & b),
            ThumbAluOp::Mul => {
                let r: u32 = a.wrapping_mul(b);
                self.logical_to(rd, r);
                self.internal_cycles(bus, alu::multiply_cycles(a));
            },
            ThumbAluOp::Lsl => self.thumb_shift(ShiftKind::Lsl, a, b, rd),
            ThumbAluOp::Lsr => self.thumb_shift(ShiftKind::Lsr, a, b, rd),
            ThumbAluOp::Asr => self.thumb_shift(ShiftKind::Asr, a, b, rd),
            ThumbAluOp::Ror => self.thumb_shift(ShiftKind::Ror, a, b, rd),
            ThumbAluOp::Adc => self.arithmetic_to(rd, alu::adc(a, b, carry_in)),
            ThumbAluOp::Sbc => self.arithmetic_to(rd, alu::sbc(a, b, carry_in)),
            ThumbAluOp::Neg => self.arithmetic_to(rd, crate::arm::cpu::alu::sub(0, b)),
            ThumbAluOp::Cmp => self.compare(crate::arm::cpu::alu::sub(a, b)),
            ThumbAluOp::Cmn => self.compare(alu::adc(a, b, false)),
        }
    }

    fn thumb_shift(&mut self, kind: ShiftKind, value: u32, amount: u32, rd: Register)
        requires
            rd.valid(),
        ensures
            final(self)@ == old(self)@.thumb_shift(kind, value, amount, rd),
    {
        let (result, carry) = alu::shift_by_register(kind, value, amount & 0xFF, self.cpsr.c());
        self.set_reg(rd, result);
        self.set_logical_flags(result, carry);
    }

    fn thumb_load_store<B: Bus>(
        &mut self,
        bus: &mut B,
        load: bool,
        byte: bool,
        address: u32,
        rd: Register,
    )
        requires
            rd.valid(),
            old(self)@.has_room(2),
            old(bus).model().valid(),
        ensures
            final(self)@ == old(self)@.thumb_load_store(old(bus).model(), load, byte, address, rd).0,
            final(bus).model() == old(self)@.thumb_load_store(old(bus).model(), load, byte, address, rd).1,
            final(bus).model().valid(),
    {
        self.data_access = true;
        if load {
            let value: u32 = self.load_word_or_byte(bus, address, byte);
            self.internal_cycles(bus, 1);
            self.set_reg(rd, value);
        } else {
            let value: u32 = self.reg(rd);
            self.store_word_or_byte(bus, address, value, byte);
        }
    }

    fn thumb_sign_extended<B: Bus>(
        &mut self,
        bus: &mut B,
        op: ThumbSignExtendOp,
        address: u32,
        rd: Register,
    )
        requires
            rd.valid(),
            old(self)@.has_room(2),
            old(bus).model().valid(),
        ensures
            final(self)@ == old(self)@.thumb_sign_extended(old(bus).model(), op, address, rd).0,
            final(bus).model() == old(self)@.thumb_sign_extended(old(bus).model(), op, address, rd).1,
            final(bus).model().valid(),
    {
        self.data_access = true;
        let kind = match op {
            ThumbSignExtendOp::StoreHalfword => {
                let value: u16 = self.reg(rd) as u16;
                self.store16(bus, address, value);
                return ;
            },
            ThumbSignExtendOp::LoadHalfword => HalfwordKind::UnsignedHalfword,
            ThumbSignExtendOp::LoadSignedByte => HalfwordKind::SignedByte,
            ThumbSignExtendOp::LoadSignedHalfword => HalfwordKind::SignedHalfword,
        };
        let value: u32 = self.load_extended(bus, address, kind);
        self.internal_cycles(bus, 1);
        self.set_reg(rd, value);
    }

    /// Transfer the listed low registers, lowest first; returns where the block
    /// ends and whether anything moved.
    fn thumb_registers<B: Bus>(
        &mut self,
        bus: &mut B,
        load: bool,
        list: u8,
        base_value: Option<(u16, u32)>,
        start: u32,
    ) -> (end: (u32, bool))
        requires
            old(self)@.has_room(12),
            old(bus).model().valid(),
        ensures
            (final(self)@, final(bus).model(), end.0, end.1) == old(self)@.thumb_registers(
                load,
                list,
                base_value,
                0,
                start,
                false,
                old(bus).model(),
            ),
            final(self)@.has_room(4),
            final(bus).model().valid(),
    {
        let mut address: u32 = start;
        let mut sequential = false;
        let mut i: u16 = 0;
        let ghost goal = self@.thumb_registers(load, list, base_value, 0, start, false, bus.model());
        while i < 8
            invariant
                i <= 8,
                self@.has_room(12 - i),
                bus.model().valid(),
                goal == self@.thumb_registers(
                    load,
                    list,
                    base_value,
                    i,
                    address,
                    sequential,
                    bus.model(),
                ),
            decreases 8 - i,
        {
            if list as u16 & (1u16 << i) != 0 {
                if load {
                    let value: u32 = self.load32(bus, address, sequential);
                    self.set_reg(Register::new(i as u8), value);
                } else {
                    let own: u32 = self.reg(Register::new(i as u8));
                    let value: u32 = match base_value {
                        Some((index, base)) => if index == i {
                            base
                        } else {
                            own
                        },
                        None => own,
                    };
                    self.store32(bus, address, value, sequential);
                }
                address = address.wrapping_add(4);
                sequential = true;
            }
            i = i + 1;
        }
        (address, sequential)
    }

    fn thumb_push_pop<B: Bus>(&mut self, bus: &mut B, pop: bool, include_pc_lr: bool, list: u8)
        requires
            old(self)@.has_room(14),
            old(bus).model().valid(),
        ensures
            final(self)@ == (if pop {
                old(self)@.touching_data().thumb_pop(old(bus).model(), include_pc_lr, list)
            } else {
                old(self)@.touching_data().thumb_push(old(bus).model(), include_pc_lr, list)
            }).0,
            final(bus).model() == (if pop {
                old(self)@.touching_data().thumb_pop(old(bus).model(), include_pc_lr, list)
            } else {
                old(self)@.touching_data().thumb_push(old(bus).model(), include_pc_lr, list)
            }).1,
            final(bus).model().valid(),
    {
        self.data_access = true;
        if pop {
            let start: u32 = self.reg(Register::sp());
            let (mut address, sequential) = self.thumb_registers(bus, true, list, None, start);
            if include_pc_lr {
                let value: u32 = self.load32(bus, address, sequential);
                // ARMv4T stays in Thumb state on a popped PC (no interworking).
                self.set_reg(Register::pc(), value & !1u32);
                address = address.wrapping_add(4);
            }
            self.internal_cycles(bus, 1);
            self.set_reg(Register::sp(), address);
        } else {
            let extra: u32 = if include_pc_lr {
                1
            } else {
                0
            };
            let count: u32 = bits::count_ones(list as u16) + extra;
            let base: u32 = self.reg(Register::sp()).wrapping_sub(count * 4);
            let (address, sequential) = self.thumb_registers(bus, false, list, None, base);
            if include_pc_lr {
                let value: u32 = self.reg(Register::lr());
                self.store32(bus, address, value, sequential);
            }
            self.set_reg(Register::sp(), base);
        }
    }

    fn thumb_block_transfer<B: Bus>(&mut self, bus: &mut B, load: bool, rb: Register, list: u8)
        requires
            rb.valid(),
            old(self)@.has_room(14),
            old(bus).model().valid(),
        ensures
            final(self)@ == old(self)@.thumb_block_transfer(old(bus).model(), load, rb, list).0,
            final(bus).model() == old(self)@.thumb_block_transfer(old(bus).model(), load, rb, list).1,
            final(bus).model().valid(),
    {
        self.data_access = true;
        let base: u32 = self.reg(rb);
        if list == 0 {
            // Empty-list edge case: only r15 is transferred, and the base is
            // adjusted by 0x40 (as though all sixteen registers had moved).
            let last: u32 = base.wrapping_add(0x40);
            if load {
                let value: u32 = self.load32(bus, base, false);
                self.internal_cycles(bus, 1);
                self.set_reg(rb, last);
                // ARMv4T stays in Thumb state on a loaded PC (no interworking).
                self.set_reg(Register::pc(), value & !1u32);
            } else {
                // The stored PC is this instruction's address plus 6.
                let value: u32 = self.reg(Register::pc()).wrapping_add(2);
                self.store32(bus, base, value, false);
                self.set_reg(rb, last);
            }
            return ;
        }

        // When an STM writes back a base that is itself in the list, the value
        // stored for the base is the *new* (written-back) one unless the base is
        // the lowest register in the list (stored before the writeback happens).
        let base_index: u16 = rb.0 as u16;
        let wide: u16 = list as u16;
        let last: u32 = base.wrapping_add(bits::count_ones(wide) * 4);
        let stored_base: Option<(u16, u32)> = if wide & (1u16 << base_index) != 0
            && wide.trailing_zeros() != base_index as u32 {
            Some((base_index, last))
        } else {
            None
        };

        self.thumb_registers(bus, load, list, stored_base, base);
        if load {
            self.internal_cycles(bus, 1);
        }
        // Writeback, unless LDM reloaded the base from memory.
        let base_loaded = load && wide & (1u16 << base_index) != 0;
        if !base_loaded {
            self.set_reg(rb, last);
        }
    }
}

} // verus!
