//! Decoding is lossless: the encoder below rebuilds the word from the decoded
//! fields, and the laws say that nothing was lost on the way.

use vstd::prelude::*;

use crate::arm::decode::{decode_arm, decode_thumb};
use crate::arm::instruction::arm::{
    ArmInstruction, ArmOperation, HalfwordOffset, MsrSource, Operand2, Shift, ShiftSource,
    SingleOffset,
};
use crate::arm::instruction::thumb::{AddSubOperand, ThumbInstruction};
use crate::arm::register::Register;
use crate::bits;

verus! {

/// `mask` where `set`, else no bits.
pub open spec fn flag16(set: bool, mask: u16) -> u16 {
    if set {
        mask
    } else {
        0
    }
}

/// `mask` where `set`, else no bits.
pub open spec fn flag32(set: bool, mask: u32) -> u32 {
    if set {
        mask
    } else {
        0
    }
}

/// A register number placed at bit `at` of a halfword.
pub open spec fn reg16(register: Register, at: u16) -> u16 {
    (register.0 as u16) << at
}

/// A register number placed at bit `at` of a word.
pub open spec fn reg32(register: Register, at: u32) -> u32 {
    (register.0 as u32) << at
}

impl ThumbInstruction {
    /// The halfword that encodes an instruction.
    pub open spec fn encode(self) -> u16 {
        match self {
            ThumbInstruction::MoveShifted { op, amount, rs, rd } => op.encoding() << 11 | (
            amount as u16) << 6 | reg16(rs, 3) | reg16(rd, 0),
            ThumbInstruction::AddSubtract { subtract, operand, rs, rd } => 0x1800 | (match operand {
                AddSubOperand::Register(rn) => reg16(rn, 6),
                AddSubOperand::Immediate(imm) => 0x0400 | (imm as u16) << 6,
            }) | flag16(subtract, 0x0200) | reg16(rs, 3) | reg16(rd, 0),
            ThumbInstruction::AluImmediate { op, rd, immediate } => 0x2000 | op.encoding() << 11
                | reg16(rd, 8) | immediate as u16,
            ThumbInstruction::AluOperation { op, rs, rd } => 0x4000 | op.encoding() << 6 | reg16(
                rs,
                3,
            ) | reg16(rd, 0),
            ThumbInstruction::HiRegister { op, rs, rd } => 0x4400 | op.encoding() << 8 | (
            rd.0 as u16 & 8) << 4 | reg16(rs, 3) | rd.0 as u16 & 7,
            ThumbInstruction::PcRelativeLoad { rd, word8 } => 0x4800 | reg16(rd, 8) | word8 as u16,
            ThumbInstruction::LoadStoreRegister { load, byte, ro, rb, rd } => 0x5000 | flag16(
                load,
                0x0800,
            ) | flag16(byte, 0x0400) | reg16(ro, 6) | reg16(rb, 3) | reg16(rd, 0),
            ThumbInstruction::LoadStoreSignExtended { op, ro, rb, rd } => 0x5200 | op.encoding()
                << 10 | reg16(ro, 6) | reg16(rb, 3) | reg16(rd, 0),
            ThumbInstruction::LoadStoreImmediate { load, byte, offset, rb, rd } => 0x6000 | flag16(
                byte,
                0x1000,
            ) | flag16(load, 0x0800) | (offset as u16) << 6 | reg16(rb, 3) | reg16(rd, 0),
            ThumbInstruction::LoadStoreHalfword { load, offset, rb, rd } => 0x8000 | flag16(
                load,
                0x0800,
            ) | (offset as u16) << 6 | reg16(rb, 3) | reg16(rd, 0),
            ThumbInstruction::SpRelativeLoadStore { load, rd, word8 } => 0x9000 | flag16(
                load,
                0x0800,
            ) | reg16(rd, 8) | word8 as u16,
            ThumbInstruction::LoadAddress { source, rd, word8 } => 0xA000 | flag16(
                source is Sp,
                0x0800,
            ) | reg16(rd, 8) | word8 as u16,
            ThumbInstruction::AdjustStackPointer { subtract, word7 } => 0xB000 | flag16(
                subtract,
                0x0080,
            ) | word7 as u16,
            ThumbInstruction::PushPop { pop, include_pc_lr, register_list } => 0xB400 | flag16(
                pop,
                0x0800,
            ) | flag16(include_pc_lr, 0x0100) | register_list as u16,
            ThumbInstruction::BlockTransfer { load, rb, register_list } => 0xC000 | flag16(
                load,
                0x0800,
            ) | reg16(rb, 8) | register_list as u16,
            ThumbInstruction::ConditionalBranch { condition, offset } => 0xD000 | (
            condition.encoding() as u16) << 8 | ((offset as int / 2) % 256) as u16,
            ThumbInstruction::SoftwareInterrupt { comment } => 0xDF00 | comment as u16,
            ThumbInstruction::Branch { offset } => 0xE000 | ((offset as int / 2) % 2048) as u16,
            ThumbInstruction::LongBranchLink { second_half, exchange, offset } => (if exchange {
                0xE800u16
            } else {
                0xF000 | flag16(second_half, 0x0800)
            }) | offset,
            ThumbInstruction::Undefined { raw } => raw,
        }
    }
}

proof fn lemma_thumb_fields(raw: u16)
    by (bit_vector)
    ensures
        raw >> 13 == 0 && (raw >> 11) & 3 != 3 ==> raw == ((raw >> 11) & 3) << 11 | (((raw >> 6) as u8 & 0x1F) as u16) << 6 | ((((raw >> 3) as u8 & 7) & 0xF) as u16) << 3 | (((raw as u8 & 7) & 0xF) as u16) << 0,
        raw >> 13 == 0 && (raw >> 11) & 3 == 3 && raw & 0x0400 == 0 ==> raw == 0x1800 | ((((raw >> 6) as u8 & 7) & 0xF) as u16) << 6 | (if raw & 0x0200 != 0 { 0x0200u16 } else { 0u16 }) | ((((raw >> 3) as u8 & 7) & 0xF) as u16) << 3 | (((raw as u8 & 7) & 0xF) as u16) << 0,
        raw >> 13 == 0 && (raw >> 11) & 3 == 3 && raw & 0x0400 != 0 ==> raw == 0x1800 | (0x0400 | (((raw >> 6) as u8 & 7) as u16) << 6) | (if raw & 0x0200 != 0 { 0x0200u16 } else { 0u16 }) | ((((raw >> 3) as u8 & 7) & 0xF) as u16) << 3 | (((raw as u8 & 7) & 0xF) as u16) << 0,
        raw >> 13 == 1 ==> raw == 0x2000 | ((raw >> 11) & 3) << 11 | ((((raw >> 8) as u8 & 7) & 0xF) as u16) << 8 | (raw as u8) as u16,
        raw >> 13 == 2 && raw & 0x1C00 == 0 ==> raw == 0x4000 | ((raw >> 6) & 0xF) << 6 | ((((raw >> 3) as u8 & 7) & 0xF) as u16) << 3 | (((raw as u8 & 7) & 0xF) as u16) << 0,
        raw >> 13 == 2 && raw & 0x1C00 == 0x0400 ==> raw == 0x4400 | ((raw >> 8) & 3) << 8 | ((((((raw >> 4) as u8 & 8) | (raw as u8 & 7)) & 0xF) as u16) & 8) << 4 | ((((raw >> 3) as u8) & 0xF) as u16) << 3 | (((((raw >> 4) as u8 & 8) | (raw as u8 & 7)) & 0xF) as u16) & 7,
        raw >> 13 == 2 && raw & 0x1800 == 0x0800 ==> raw == 0x4800 | ((((raw >> 8) as u8 & 7) & 0xF) as u16) << 8 | (raw as u8) as u16,
        raw >> 13 == 2 && raw & 0x1200 == 0x1000 ==> raw == 0x5000 | (if raw & 0x0800 != 0 { 0x0800u16 } else { 0u16 }) | (if raw & 0x0400 != 0 { 0x0400u16 } else { 0u16 }) | ((((raw >> 6) as u8 & 7) & 0xF) as u16) << 6 | ((((raw >> 3) as u8 & 7) & 0xF) as u16) << 3 | (((raw as u8 & 7) & 0xF) as u16) << 0,
        raw >> 13 == 2 && raw & 0x1200 == 0x1200 ==> raw == 0x5200 | ((raw >> 10) & 3) << 10 | ((((raw >> 6) as u8 & 7) & 0xF) as u16) << 6 | ((((raw >> 3) as u8 & 7) & 0xF) as u16) << 3 | (((raw as u8 & 7) & 0xF) as u16) << 0,
        raw >> 13 == 3 ==> raw == 0x6000 | (if raw & 0x1000 != 0 { 0x1000u16 } else { 0u16 }) | (if raw & 0x0800 != 0 { 0x0800u16 } else { 0u16 }) | (((raw >> 6) as u8 & 0x1F) as u16) << 6 | ((((raw >> 3) as u8 & 7) & 0xF) as u16) << 3 | (((raw as u8 & 7) & 0xF) as u16) << 0,
        raw >> 13 == 4 && raw & 0x1000 == 0 ==> raw == 0x8000 | (if raw & 0x0800 != 0 { 0x0800u16 } else { 0u16 }) | (((raw >> 6) as u8 & 0x1F) as u16) << 6 | ((((raw >> 3) as u8 & 7) & 0xF) as u16) << 3 | (((raw as u8 & 7) & 0xF) as u16) << 0,
        raw >> 13 == 4 && raw & 0x1000 != 0 ==> raw == 0x9000 | (if raw & 0x0800 != 0 { 0x0800u16 } else { 0u16 }) | ((((raw >> 8) as u8 & 7) & 0xF) as u16) << 8 | (raw as u8) as u16,
        raw >> 13 == 5 && raw & 0x1000 == 0 ==> raw == 0xA000 | (if raw & 0x0800 != 0 { 0x0800u16 } else { 0u16 }) | ((((raw >> 8) as u8 & 7) & 0xF) as u16) << 8 | (raw as u8) as u16,
        raw >> 13 == 5 && raw & 0x1000 != 0 && (raw >> 9) & 7 == 0 && raw & 0x0100 == 0 ==> raw == 0xB000 | (if raw & 0x0080 != 0 { 0x0080u16 } else { 0u16 }) | ((raw as u8) & 0x7F) as u16,
        raw >> 13 == 5 && raw & 0x1000 != 0 && ((raw >> 9) & 7 == 2 || (raw >> 9) & 7 == 6) ==> raw == 0xB400 | (if raw & 0x0800 != 0 { 0x0800u16 } else { 0u16 }) | (if raw & 0x0100 != 0 { 0x0100u16 } else { 0u16 }) | (raw as u8) as u16,
        raw >> 13 == 6 && raw & 0x1000 == 0 ==> raw == 0xC000 | (if raw & 0x0800 != 0 { 0x0800u16 } else { 0u16 }) | ((((raw >> 8) as u8 & 7) & 0xF) as u16) << 8 | (raw as u8) as u16,
        raw >> 13 == 6 && raw & 0x1000 != 0 ==> raw == 0xD000 | ((raw >> 8) & 0xF) << 8 | (raw & 0xFF),
        raw >> 13 == 6 && raw & 0x1000 != 0 && (raw >> 8) & 0xF == 0xF ==> raw == 0xDF00 | (raw as u8) as u16,
        raw >> 13 == 7 && (raw >> 11) & 3 == 0 ==> raw == 0xE000 | (raw & 0x7FF),
        raw >> 13 == 7 && (raw >> 11) & 3 != 0 && (raw >> 11) & 3 != 1 ==> raw == (0xF000 | (if raw & 0x0800 != 0 { 0x0800u16 } else { 0u16 })) | (raw & 0x7FF),
        raw & 0x1000 != 0 && raw & 0x0200 == 0 ==> raw & 0x1200 == 0x1000,
        raw & 0x1000 != 0 && raw & 0x0200 != 0 ==> raw & 0x1200 == 0x1200,
        raw & 0x1000 == 0 && raw & 0x0800 != 0 ==> raw & 0x1800 == 0x0800,
        raw & 0x1000 == 0 && raw & 0x0800 == 0 && raw & 0x0400 != 0 ==> raw & 0x1C00 == 0x0400,
        raw & 0x1000 == 0 && raw & 0x0800 == 0 && raw & 0x0400 == 0 ==> raw & 0x1C00 == 0,
{
}

/// The Thumb decoder loses nothing: every halfword is rebuilt from its decoded
/// form, so no two halfwords decode alike.
pub proof fn thumb_decoding_is_lossless(raw: u16)
    ensures
        decode_thumb(raw).encode() == raw,
{
    lemma_thumb_fields(raw);
    bits::lemma_low_bits_u16(raw);
    bits::lemma_low_bits_u16(raw >> 6);
    bits::lemma_low_bits_u16(raw >> 8);
    bits::lemma_low_bits_u16(raw >> 10);
    bits::lemma_low_bits_u16(raw >> 11);
}

impl Shift {
    /// Bits 11..4 of a word whose operand is shifted so.
    pub open spec fn encode(self) -> u32 {
        self.kind.encoding() << 5 | (match self.source {
            ShiftSource::Immediate(amount) => (amount as u32) << 7,
            ShiftSource::Register(rs) => 0x10 | reg32(rs, 8),
        })
    }
}

impl Operand2 {
    /// Bits 25 and 11..0 of a data-processing word with this operand.
    pub open spec fn encode(self) -> u32 {
        match self {
            Operand2::Immediate { value, rotate } => 0x0200_0000 | (rotate as u32) << 8
                | value as u32,
            Operand2::Register { rm, shift } => shift.encode() | reg32(rm, 0),
        }
    }
}

impl HalfwordOffset {
    /// Bits 22, 11..8 and 3..0 of an extra load/store with this offset.
    pub open spec fn encode(self) -> u32 {
        match self {
            HalfwordOffset::Immediate(imm) => 0x0040_0000 | ((imm as u32 >> 4) & 0xF) << 8 | (
            imm as u32 & 0xF),
            HalfwordOffset::Register(rm) => reg32(rm, 0),
        }
    }
}

impl ArmOperation {
    /// Bits 27..0 of the word that encodes an operation; for the encodings
    /// without a condition, the whole word. Bits that carry no information hold
    /// the value the architecture asks for.
    pub open spec fn encode(self) -> u32 {
        match self {
            ArmOperation::DataProcessing(op) => op.opcode.encoding() << 21 | flag32(
                op.set_flags,
                0x0010_0000,
            ) | reg32(op.rn, 16) | reg32(op.rd, 12) | op.operand2.encode(),
            ArmOperation::Multiply(op) => 0x0000_0090 | flag32(op.accumulate, 0x0020_0000)
                | flag32(op.set_flags, 0x0010_0000) | reg32(op.rd, 16) | reg32(op.rn, 12) | reg32(
                op.rs,
                8,
            ) | reg32(op.rm, 0),
            ArmOperation::MultiplyLong(op) => 0x0080_0090 | flag32(op.signed, 0x0040_0000)
                | flag32(op.accumulate, 0x0020_0000) | flag32(op.set_flags, 0x0010_0000) | reg32(
                op.rd_hi,
                16,
            ) | reg32(op.rd_lo, 12) | reg32(op.rs, 8) | reg32(op.rm, 0),
            ArmOperation::CountLeadingZeros(op) => 0x016F_0F10 | reg32(op.rd, 12) | reg32(op.rm, 0),
            ArmOperation::SaturatingArithmetic(op) => 0x0100_0050 | op.op.encoding() << 21 | reg32(
                op.rn,
                16,
            ) | reg32(op.rd, 12) | reg32(op.rm, 0),
            ArmOperation::HalfwordMultiply(op) => 0x0100_0080 | op.op.encoding() << 21 | reg32(
                op.rd,
                16,
            ) | reg32(op.rn, 12) | reg32(op.rs, 8) | flag32(op.y, 0x40) | flag32(op.x, 0x20)
                | reg32(op.rm, 0),
            ArmOperation::SingleTransfer(op) => 0x0400_0000 | flag32(op.pre_indexed, 0x0100_0000)
                | flag32(op.add, 0x0080_0000) | flag32(op.byte, 0x0040_0000) | flag32(
                op.writeback,
                0x0020_0000,
            ) | flag32(op.load, 0x0010_0000) | reg32(op.rn, 16) | reg32(op.rd, 12) | (
            match op.offset {
                SingleOffset::Immediate(imm) => imm as u32,
                SingleOffset::Register { rm, shift } => 0x0200_0000 | shift.encode() | reg32(rm, 0),
            }),
            ArmOperation::HalfwordTransfer(op) => 0x0000_0090 | flag32(op.pre_indexed, 0x0100_0000)
                | flag32(op.add, 0x0080_0000) | flag32(op.writeback, 0x0020_0000) | flag32(
                op.load,
                0x0010_0000,
            ) | reg32(op.rn, 16) | reg32(op.rd, 12) | op.kind.encoding() << 5 | op.offset.encode(),
            ArmOperation::DoublewordTransfer(op) => 0x0000_00D0 | flag32(op.store, 0x20) | flag32(
                op.pre_indexed,
                0x0100_0000,
            ) | flag32(op.add, 0x0080_0000) | flag32(op.writeback, 0x0020_0000) | reg32(op.rn, 16)
                | reg32(op.rd, 12) | op.offset.encode(),
            ArmOperation::BlockTransfer(op) => 0x0800_0000 | flag32(op.pre_indexed, 0x0100_0000)
                | flag32(op.add, 0x0080_0000) | flag32(op.psr_force_user, 0x0040_0000) | flag32(
                op.writeback,
                0x0020_0000,
            ) | flag32(op.load, 0x0010_0000) | reg32(op.rn, 16) | op.register_list as u32,
            ArmOperation::Swap(op) => 0x0100_0090 | flag32(op.byte, 0x0040_0000) | reg32(op.rn, 16)
                | reg32(op.rd, 12) | reg32(op.rm, 0),
            ArmOperation::Branch(op) => 0x0A00_0000 | flag32(op.link, 0x0100_0000) | ((
            op.offset as int / 4) % 0x100_0000) as u32,
            ArmOperation::BranchExchange(op) => 0x012F_FF10 | flag32(op.link, 0x20) | reg32(
                op.rn,
                0,
            ),
            ArmOperation::BranchLinkExchange(op) => 0xFA00_0000u32 | flag32(
                op.offset as int % 4 >= 2,
                0x0100_0000,
            ) | ((op.offset as int / 4) % 0x100_0000) as u32,
            ArmOperation::Breakpoint(op) => 0x0120_0070 | ((op.comment as u32 >> 4) & 0xFFF) << 8
                | (op.comment as u32 & 0xF),
            ArmOperation::CoprocessorRegisterTransfer(op) => 0x0E00_0010 | (op.opcode1 as u32) << 21
                | flag32(op.load, 0x0010_0000) | (op.crn as u32) << 16 | reg32(op.rd, 12) | (
            op.cp_num as u32) << 8 | (op.opcode2 as u32) << 5 | op.crm as u32,
            ArmOperation::SoftwareInterrupt(op) => 0x0F00_0000 | op.comment,
            ArmOperation::Mrs(op) => 0x010F_0000 | flag32(op.source_spsr, 0x0040_0000) | reg32(
                op.rd,
                12,
            ),
            ArmOperation::Msr(op) => 0x0120_F000 | flag32(op.dest_spsr, 0x0040_0000) | flag32(
                op.write_flags,
                0x0008_0000,
            ) | flag32(op.write_status, 0x0004_0000) | flag32(op.write_extension, 0x0002_0000)
                | flag32(op.write_control, 0x0001_0000) | (match op.source {
                MsrSource::Register(rm) => reg32(rm, 0),
                MsrSource::Immediate { value, rotate } => 0x0200_0000 | (rotate as u32) << 8
                    | value as u32,
            }),
            ArmOperation::Undefined { raw } => raw,
        }
    }
}

impl ArmInstruction {
    /// The word that encodes an instruction.
    pub open spec fn encode(self) -> u32 {
        if self.operation is Undefined || self.operation is BranchLinkExchange {
            self.operation.encode()
        } else {
            self.condition.encoding() << 28 | self.operation.encode()
        }
    }
}

/// Whether the bits of `raw` that its decoded form has no place for hold the
/// value the architecture asks for: the unused fields of `MRS` and `MSR`, bits
/// 11..8 of an extra load/store with a register offset, and bit 7 of a
/// register-specified shift.
pub open spec fn reserved_bits_as_expected(raw: u32) -> bool {
    match decode_arm(raw).operation {
        ArmOperation::Mrs(_) => raw & 0x0FBF_0FFF == 0x010F_0000,
        ArmOperation::Msr(op) => raw & 0xF000 == 0xF000 && (op.source is Register ==> raw & 0xFF0
            == 0),
        ArmOperation::HalfwordTransfer(op) => op.offset is Register ==> raw & 0xF00 == 0,
        ArmOperation::DoublewordTransfer(op) => op.offset is Register ==> raw & 0xF00 == 0,
        ArmOperation::DataProcessing(op) => op.operand2 matches Operand2::Register { rm, shift }
            && shift.source is Register ==> raw & 0x80 == 0,
        _ => true,
    }
}

proof fn lemma_arm_register_fields(raw: u32)
    by (bit_vector)
    ensures
        (raw & 0x0FFF_FFD0) == 0x012F_FF10 ==> raw == ((raw >> 28) & 0xF) << 28 | (0x012F_FF10 | (if raw & 0x0000_0020 != 0 { 0x0000_0020u32 } else { 0u32 }) | (((raw as u8) & 0xF) as u32) << 0),
        (raw & 0x0FF0_00F0) == 0x0120_0070 ==> raw == ((raw >> 28) & 0xF) << 28 | (0x0120_0070 | (((((((raw >> 8) & 0xFFF) << 4) | (raw & 0xF)) as u16) as u32 >> 4) & 0xFFF) << 8 | ((((((raw >> 8) & 0xFFF) << 4) | (raw & 0xF)) as u16) as u32 & 0xF)),
        (raw & 0x0FFF_0FF0) == 0x016F_0F10 ==> raw == ((raw >> 28) & 0xF) << 28 | (0x016F_0F10 | ((((raw >> 12) as u8) & 0xF) as u32) << 12 | (((raw as u8) & 0xF) as u32) << 0),
        (raw & 0x0F90_0FF0) == 0x0100_0050 ==> raw == ((raw >> 28) & 0xF) << 28 | (0x0100_0050 | ((raw >> 21) & 3) << 21 | ((((raw >> 16) as u8) & 0xF) as u32) << 16 | ((((raw >> 12) as u8) & 0xF) as u32) << 12 | (((raw as u8) & 0xF) as u32) << 0),
        (raw & 0x0F90_0090) == 0x0100_0080 ==> raw == ((raw >> 28) & 0xF) << 28 | (0x0100_0080 | ((raw >> 21) & 3) << 21 | ((((raw >> 16) as u8) & 0xF) as u32) << 16 | ((((raw >> 12) as u8) & 0xF) as u32) << 12 | ((((raw >> 8) as u8) & 0xF) as u32) << 8 | (if raw & 0x0000_0040 != 0 { 0x0000_0040u32 } else { 0u32 }) | (if raw & 0x0000_0020 != 0 { 0x0000_0020u32 } else { 0u32 }) | (((raw as u8) & 0xF) as u32) << 0),
        (raw & 0x0FB0_0FF0) == 0x0100_0090 ==> raw == ((raw >> 28) & 0xF) << 28 | (0x0100_0090 | (if raw & 0x0040_0000 != 0 { 0x0040_0000u32 } else { 0u32 }) | ((((raw >> 16) as u8) & 0xF) as u32) << 16 | ((((raw >> 12) as u8) & 0xF) as u32) << 12 | (((raw as u8) & 0xF) as u32) << 0),
        (raw & 0x0FC0_00F0) == 0x0000_0090 ==> raw == ((raw >> 28) & 0xF) << 28 | (0x0000_0090 | (if raw & 0x0020_0000 != 0 { 0x0020_0000u32 } else { 0u32 }) | (if raw & 0x0010_0000 != 0 { 0x0010_0000u32 } else { 0u32 }) | ((((raw >> 16) as u8) & 0xF) as u32) << 16 | ((((raw >> 12) as u8) & 0xF) as u32) << 12 | ((((raw >> 8) as u8) & 0xF) as u32) << 8 | (((raw as u8) & 0xF) as u32) << 0),
        (raw & 0x0F80_00F0) == 0x0080_0090 ==> raw == ((raw >> 28) & 0xF) << 28 | (0x0080_0090 | (if raw & 0x0040_0000 != 0 { 0x0040_0000u32 } else { 0u32 }) | (if raw & 0x0020_0000 != 0 { 0x0020_0000u32 } else { 0u32 }) | (if raw & 0x0010_0000 != 0 { 0x0010_0000u32 } else { 0u32 }) | ((((raw >> 16) as u8) & 0xF) as u32) << 16 | ((((raw >> 12) as u8) & 0xF) as u32) << 12 | ((((raw >> 8) as u8) & 0xF) as u32) << 8 | (((raw as u8) & 0xF) as u32) << 0),
{
}

proof fn lemma_arm_transfer_fields(raw: u32)
    by (bit_vector)
    ensures
        (raw & 0x0E10_00D0) == 0x0000_00D0 && raw & 0x0040_0000 != 0 ==> raw == ((raw >> 28) & 0xF) << 28 | (0x0000_00D0 | (if raw & 0x0000_0020 != 0 { 0x0000_0020u32 } else { 0u32 }) | (if raw & 0x0100_0000 != 0 { 0x0100_0000u32 } else { 0u32 }) | (if raw & 0x0080_0000 != 0 { 0x0080_0000u32 } else { 0u32 }) | (if raw & 0x0020_0000 != 0 { 0x0020_0000u32 } else { 0u32 }) | ((((raw >> 16) as u8) & 0xF) as u32) << 16 | ((((raw >> 12) as u8) & 0xF) as u32) << 12 | (0x0040_0000 | ((((((((raw >> 8) & 0xF) << 4) | (raw & 0xF)) as u8) as u32 >> 4) & 0xF) << 8) | ((((((raw >> 8) & 0xF) << 4) | (raw & 0xF)) as u8) as u32 & 0xF))),
        (raw & 0x0E10_00D0) == 0x0000_00D0 && raw & 0x0040_0000 == 0 && raw & 0xF00 == 0 ==> raw == ((raw >> 28) & 0xF) << 28 | (0x0000_00D0 | (if raw & 0x0000_0020 != 0 { 0x0000_0020u32 } else { 0u32 }) | (if raw & 0x0100_0000 != 0 { 0x0100_0000u32 } else { 0u32 }) | (if raw & 0x0080_0000 != 0 { 0x0080_0000u32 } else { 0u32 }) | (if raw & 0x0020_0000 != 0 { 0x0020_0000u32 } else { 0u32 }) | ((((raw >> 16) as u8) & 0xF) as u32) << 16 | ((((raw >> 12) as u8) & 0xF) as u32) << 12 | (((raw as u8) & 0xF) as u32) << 0),
        (raw & 0x0E00_0090) == 0x0000_0090 && raw & 0x0040_0000 != 0 ==> raw == ((raw >> 28) & 0xF) << 28 | (0x0000_0090 | (if raw & 0x0100_0000 != 0 { 0x0100_0000u32 } else { 0u32 }) | (if raw & 0x0080_0000 != 0 { 0x0080_0000u32 } else { 0u32 }) | (if raw & 0x0020_0000 != 0 { 0x0020_0000u32 } else { 0u32 }) | (if raw & 0x0010_0000 != 0 { 0x0010_0000u32 } else { 0u32 }) | ((((raw >> 16) as u8) & 0xF) as u32) << 16 | ((((raw >> 12) as u8) & 0xF) as u32) << 12 | ((raw >> 5) & 3) << 5 | (0x0040_0000 | ((((((((raw >> 8) & 0xF) << 4) | (raw & 0xF)) as u8) as u32 >> 4) & 0xF) << 8) | ((((((raw >> 8) & 0xF) << 4) | (raw & 0xF)) as u8) as u32 & 0xF))),
        (raw & 0x0E00_0090) == 0x0000_0090 && raw & 0x0040_0000 == 0 && raw & 0xF00 == 0 ==> raw == ((raw >> 28) & 0xF) << 28 | (0x0000_0090 | (if raw & 0x0100_0000 != 0 { 0x0100_0000u32 } else { 0u32 }) | (if raw & 0x0080_0000 != 0 { 0x0080_0000u32 } else { 0u32 }) | (if raw & 0x0020_0000 != 0 { 0x0020_0000u32 } else { 0u32 }) | (if raw & 0x0010_0000 != 0 { 0x0010_0000u32 } else { 0u32 }) | ((((raw >> 16) as u8) & 0xF) as u32) << 16 | ((((raw >> 12) as u8) & 0xF) as u32) << 12 | ((raw >> 5) & 3) << 5 | (((raw as u8) & 0xF) as u32) << 0),
        (raw >> 25) & 7 == 2 ==> raw == ((raw >> 28) & 0xF) << 28 | (0x0400_0000 | (if raw & 0x0100_0000 != 0 { 0x0100_0000u32 } else { 0u32 }) | (if raw & 0x0080_0000 != 0 { 0x0080_0000u32 } else { 0u32 }) | (if raw & 0x0040_0000 != 0 { 0x0040_0000u32 } else { 0u32 }) | (if raw & 0x0020_0000 != 0 { 0x0020_0000u32 } else { 0u32 }) | (if raw & 0x0010_0000 != 0 { 0x0010_0000u32 } else { 0u32 }) | ((((raw >> 16) as u8) & 0xF) as u32) << 16 | ((((raw >> 12) as u8) & 0xF) as u32) << 12 | ((raw & 0xFFF) as u16) as u32),
        (raw >> 25) & 7 == 3 && raw & 0x0000_0010 == 0 ==> raw == ((raw >> 28) & 0xF) << 28 | (0x0400_0000 | (if raw & 0x0100_0000 != 0 { 0x0100_0000u32 } else { 0u32 }) | (if raw & 0x0080_0000 != 0 { 0x0080_0000u32 } else { 0u32 }) | (if raw & 0x0040_0000 != 0 { 0x0040_0000u32 } else { 0u32 }) | (if raw & 0x0020_0000 != 0 { 0x0020_0000u32 } else { 0u32 }) | (if raw & 0x0010_0000 != 0 { 0x0010_0000u32 } else { 0u32 }) | ((((raw >> 16) as u8) & 0xF) as u32) << 16 | ((((raw >> 12) as u8) & 0xF) as u32) << 12 | (0x0200_0000 | (((raw >> 5) & 3) << 5 | ((((raw >> 7) as u8) & 0x1F) as u32) << 7) | (((raw as u8) & 0xF) as u32) << 0)),
        (raw >> 25) & 7 == 4 ==> raw == ((raw >> 28) & 0xF) << 28 | (0x0800_0000 | (if raw & 0x0100_0000 != 0 { 0x0100_0000u32 } else { 0u32 }) | (if raw & 0x0080_0000 != 0 { 0x0080_0000u32 } else { 0u32 }) | (if raw & 0x0040_0000 != 0 { 0x0040_0000u32 } else { 0u32 }) | (if raw & 0x0020_0000 != 0 { 0x0020_0000u32 } else { 0u32 }) | (if raw & 0x0010_0000 != 0 { 0x0010_0000u32 } else { 0u32 }) | ((((raw >> 16) as u8) & 0xF) as u32) << 16 | (raw as u16) as u32),
        raw & 0x0200_0000 != 0 && ((raw >> 25) & 7 == 2 || (raw >> 25) & 7 == 3) ==> (raw >> 25) & 7 == 3,
        raw & 0x0200_0000 == 0 && ((raw >> 25) & 7 == 2 || (raw >> 25) & 7 == 3) ==> (raw >> 25) & 7 == 2,
        raw & 0x60 != 0 ==> (raw >> 5) & 3 != 0,
{
}

proof fn lemma_arm_data_processing_fields(raw: u32)
    by (bit_vector)
    ensures
        (raw >> 25) & 7 == 1 ==> raw == ((raw >> 28) & 0xF) << 28 | (((raw >> 21) & 0xF) << 21 | (if raw & 0x0010_0000 != 0 { 0x0010_0000u32 } else { 0u32 }) | ((((raw >> 16) as u8) & 0xF) as u32) << 16 | ((((raw >> 12) as u8) & 0xF) as u32) << 12 | (0x0200_0000 | ((((raw >> 8) as u8) & 0xF) as u32) << 8 | (raw as u8) as u32)),
        (raw >> 25) & 7 == 0 && raw & 0x10 == 0 ==> raw == ((raw >> 28) & 0xF) << 28 | (((raw >> 21) & 0xF) << 21 | (if raw & 0x0010_0000 != 0 { 0x0010_0000u32 } else { 0u32 }) | ((((raw >> 16) as u8) & 0xF) as u32) << 16 | ((((raw >> 12) as u8) & 0xF) as u32) << 12 | ((((raw >> 5) & 3) << 5 | ((((raw >> 7) as u8) & 0x1F) as u32) << 7) | (((raw as u8) & 0xF) as u32) << 0)),
        (raw >> 25) & 7 == 0 && raw & 0x10 != 0 && raw & 0x80 == 0 ==> raw == ((raw >> 28) & 0xF) << 28 | (((raw >> 21) & 0xF) << 21 | (if raw & 0x0010_0000 != 0 { 0x0010_0000u32 } else { 0u32 }) | ((((raw >> 16) as u8) & 0xF) as u32) << 16 | ((((raw >> 12) as u8) & 0xF) as u32) << 12 | ((((raw >> 5) & 3) << 5 | (0x10 | ((((raw >> 8) as u8) & 0xF) as u32) << 8)) | (((raw as u8) & 0xF) as u32) << 0)),
        raw & 0x0FBF_0FFF == 0x010F_0000 ==> raw == ((raw >> 28) & 0xF) << 28 | (0x010F_0000 | (if raw & 0x0040_0000 != 0 { 0x0040_0000u32 } else { 0u32 }) | ((((raw >> 12) as u8) & 0xF) as u32) << 12),
        (raw >> 25) & 7 == 1 && raw & 0x0190_0000 == 0x0100_0000 && raw & 0x0020_0000 != 0 && raw & 0xF000 == 0xF000 ==> raw == ((raw >> 28) & 0xF) << 28 | (0x0120_F000 | (if raw & 0x0040_0000 != 0 { 0x0040_0000u32 } else { 0u32 }) | (if raw & 0x0008_0000 != 0 { 0x0008_0000u32 } else { 0u32 }) | (if raw & 0x0004_0000 != 0 { 0x0004_0000u32 } else { 0u32 }) | (if raw & 0x0002_0000 != 0 { 0x0002_0000u32 } else { 0u32 }) | (if raw & 0x0001_0000 != 0 { 0x0001_0000u32 } else { 0u32 }) | (0x0200_0000 | ((((raw >> 8) as u8) & 0xF) as u32) << 8 | (raw as u8) as u32)),
        (raw >> 25) & 7 == 0 && raw & 0x0190_0000 == 0x0100_0000 && raw & 0x0020_0000 != 0 && raw & 0xF000 == 0xF000 && raw & 0xFF0 == 0 ==> raw == ((raw >> 28) & 0xF) << 28 | (0x0120_F000 | (if raw & 0x0040_0000 != 0 { 0x0040_0000u32 } else { 0u32 }) | (if raw & 0x0008_0000 != 0 { 0x0008_0000u32 } else { 0u32 }) | (if raw & 0x0004_0000 != 0 { 0x0004_0000u32 } else { 0u32 }) | (if raw & 0x0002_0000 != 0 { 0x0002_0000u32 } else { 0u32 }) | (if raw & 0x0001_0000 != 0 { 0x0001_0000u32 } else { 0u32 }) | (((raw as u8) & 0xF) as u32) << 0),
        (raw >> 21) & 0xF == 8 || (raw >> 21) & 0xF == 9 || (raw >> 21) & 0xF == 10 || (raw >> 21) & 0xF
            == 11 ==> raw & 0x0180_0000 == 0x0100_0000,
        raw & 0x0180_0000 == 0x0100_0000 && raw & 0x0010_0000 == 0 ==> raw & 0x0190_0000 == 0x0100_0000,
        raw & 0x0200_0000 != 0 && ((raw >> 25) & 7 == 0 || (raw >> 25) & 7 == 1) ==> (raw >> 25) & 7 == 1,
        raw & 0x0200_0000 == 0 && ((raw >> 25) & 7 == 0 || (raw >> 25) & 7 == 1) ==> (raw >> 25) & 7 == 0,
{
}

proof fn lemma_arm_control_fields(raw: u32)
    by (bit_vector)
    ensures
        (raw >> 25) & 7 == 5 ==> raw == ((raw >> 28) & 0xF) << 28 | (0x0A00_0000 | (if raw & 0x0100_0000 != 0 { 0x0100_0000u32 } else { 0u32 }) | (raw & 0x00FF_FFFF)),
        (raw & 0x0F00_0000) == 0x0F00_0000 ==> raw == ((raw >> 28) & 0xF) << 28 | (0x0F00_0000 | (raw & 0x00FF_FFFF)),
        (raw >> 25) & 7 == 7 && (raw & 0x0F00_0000) != 0x0F00_0000 && raw & 0x10 != 0 ==> raw == ((raw >> 28) & 0xF) << 28 | (0x0E00_0010 | ((((raw >> 21) & 7) as u8) as u32) << 21 | (if raw & 0x0010_0000 != 0 { 0x0010_0000u32 } else { 0u32 }) | ((((raw >> 16) & 0xF) as u8) as u32) << 16 | ((((raw >> 12) as u8) & 0xF) as u32) << 12 | ((((raw >> 8) & 0xF) as u8) as u32) << 8 | ((((raw >> 5) & 7) as u8) as u32) << 5 | (((raw & 0xF) as u8) as u32)),
        raw >> 28 == 0xF && (raw >> 25) & 7 == 5 ==> raw == 0xFA00_0000u32 | (if raw & 0x0100_0000 != 0 { 0x0100_0000u32 } else { 0u32 }) | (raw & 0x00FF_FFFF),
        (raw >> 24) & 1 == 1 <==> raw & 0x0100_0000 != 0,
        (raw >> 24) & 1 <= 1,
        raw & 0x00FF_FFFF < 0x100_0000,
        raw >> 28 != 0xF ==> (raw >> 28) & 0xF != 0xF,
{
}

/// The ARM decoder loses nothing: a word is rebuilt from its decoded form, so no
/// two words decode alike, unless a bit that the architecture leaves without
/// meaning is not as it should be.
pub proof fn arm_decoding_is_lossless(raw: u32)
    requires
        reserved_bits_as_expected(raw),
    ensures
        decode_arm(raw).encode() == raw,
{
    lemma_arm_register_fields(raw);
    lemma_arm_transfer_fields(raw);
    lemma_arm_data_processing_fields(raw);
    lemma_arm_control_fields(raw);
    bits::lemma_low_bits_u32(raw >> 28);
    bits::lemma_low_bits_u32(raw >> 21);
    bits::lemma_low_bits_u32(raw >> 5);
    bits::lemma_low_bits_u32(raw >> 25);
    if raw >> 28 != 0xF {
        let condition = decode_arm(raw).condition;
        assert(condition.encoding() == (raw >> 28) & 0xF);
    }
}

} // verus!
