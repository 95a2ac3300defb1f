//! Laws of the encodings: the numbers that name each operation, and which words hold
//! which kind of instruction.

use vstd::prelude::*;

use crate::arm::decode::{decode_arm, decode_thumb};
use crate::arm::decode::arm::{
    matches_branch_exchange, matches_breakpoint, matches_clz, matches_doubleword_transfer,
    matches_halfword_multiply, matches_halfword_transfer, matches_multiply,
    matches_multiply_long, matches_saturating, matches_swap,
};
use crate::arm::condition::Condition;
use crate::arm::instruction::arm::{
    DataProcessingOpcode, DspMulOp, HalfwordKind, SaturatingOp, ShiftKind,
};
use crate::arm::instruction::thumb::{
    ThumbAluOp, ThumbHiRegOp, ThumbImmediateOp, ThumbShiftOp, ThumbSignExtendOp,
};

verus! {

/// The operation fields of the ARM instructions, from zero up.
pub proof fn arm_operation_numbers()
    ensures
        DataProcessingOpcode::And.encoding() == 0,
        DataProcessingOpcode::Eor.encoding() == 1,
        DataProcessingOpcode::Sub.encoding() == 2,
        DataProcessingOpcode::Rsb.encoding() == 3,
        DataProcessingOpcode::Add.encoding() == 4,
        DataProcessingOpcode::Adc.encoding() == 5,
        DataProcessingOpcode::Sbc.encoding() == 6,
        DataProcessingOpcode::Rsc.encoding() == 7,
        DataProcessingOpcode::Tst.encoding() == 8,
        DataProcessingOpcode::Teq.encoding() == 9,
        DataProcessingOpcode::Cmp.encoding() == 10,
        DataProcessingOpcode::Cmn.encoding() == 11,
        DataProcessingOpcode::Orr.encoding() == 12,
        DataProcessingOpcode::Mov.encoding() == 13,
        DataProcessingOpcode::Bic.encoding() == 14,
        DataProcessingOpcode::Mvn.encoding() == 15,
        ShiftKind::Lsl.encoding() == 0,
        ShiftKind::Lsr.encoding() == 1,
        ShiftKind::Asr.encoding() == 2,
        ShiftKind::Ror.encoding() == 3,
        SaturatingOp::QAdd.encoding() == 0,
        SaturatingOp::QSub.encoding() == 1,
        SaturatingOp::QDAdd.encoding() == 2,
        SaturatingOp::QDSub.encoding() == 3,
        HalfwordKind::UnsignedHalfword.encoding() == 1,
        HalfwordKind::SignedByte.encoding() == 2,
        HalfwordKind::SignedHalfword.encoding() == 3,
        DspMulOp::SmlaXY.encoding() == 0,
        DspMulOp::SmulWY.encoding() == 1,
        DspMulOp::SmlaWY.encoding() == 1,
        DspMulOp::SmlalXY.encoding() == 2,
        DspMulOp::SmulXY.encoding() == 3,
        DspMulOp::of(1, true) == DspMulOp::SmulWY,
        DspMulOp::of(1, false) == DspMulOp::SmlaWY,
{
}

/// The operation fields of the Thumb instructions, from zero up.
pub proof fn thumb_operation_numbers()
    ensures
        ThumbAluOp::And.encoding() == 0 && ThumbAluOp::of(0) == ThumbAluOp::And,
        ThumbAluOp::Eor.encoding() == 1 && ThumbAluOp::of(1) == ThumbAluOp::Eor,
        ThumbAluOp::Lsl.encoding() == 2 && ThumbAluOp::of(2) == ThumbAluOp::Lsl,
        ThumbAluOp::Lsr.encoding() == 3 && ThumbAluOp::of(3) == ThumbAluOp::Lsr,
        ThumbAluOp::Asr.encoding() == 4 && ThumbAluOp::of(4) == ThumbAluOp::Asr,
        ThumbAluOp::Adc.encoding() == 5 && ThumbAluOp::of(5) == ThumbAluOp::Adc,
        ThumbAluOp::Sbc.encoding() == 6 && ThumbAluOp::of(6) == ThumbAluOp::Sbc,
        ThumbAluOp::Ror.encoding() == 7 && ThumbAluOp::of(7) == ThumbAluOp::Ror,
        ThumbAluOp::Tst.encoding() == 8 && ThumbAluOp::of(8) == ThumbAluOp::Tst,
        ThumbAluOp::Neg.encoding() == 9 && ThumbAluOp::of(9) == ThumbAluOp::Neg,
        ThumbAluOp::Cmp.encoding() == 10 && ThumbAluOp::of(10) == ThumbAluOp::Cmp,
        ThumbAluOp::Cmn.encoding() == 11 && ThumbAluOp::of(11) == ThumbAluOp::Cmn,
        ThumbAluOp::Orr.encoding() == 12 && ThumbAluOp::of(12) == ThumbAluOp::Orr,
        ThumbAluOp::Mul.encoding() == 13 && ThumbAluOp::of(13) == ThumbAluOp::Mul,
        ThumbAluOp::Bic.encoding() == 14 && ThumbAluOp::of(14) == ThumbAluOp::Bic,
        ThumbAluOp::Mvn.encoding() == 15 && ThumbAluOp::of(15) == ThumbAluOp::Mvn,
        ThumbShiftOp::Lsl.encoding() == 0 && ThumbShiftOp::of(0) == ThumbShiftOp::Lsl,
        ThumbShiftOp::Lsr.encoding() == 1 && ThumbShiftOp::of(1) == ThumbShiftOp::Lsr,
        ThumbShiftOp::Asr.encoding() == 2 && ThumbShiftOp::of(2) == ThumbShiftOp::Asr,
        ThumbImmediateOp::Mov.encoding() == 0 && ThumbImmediateOp::of(0) == ThumbImmediateOp::Mov,
        ThumbImmediateOp::Cmp.encoding() == 1 && ThumbImmediateOp::of(1) == ThumbImmediateOp::Cmp,
        ThumbImmediateOp::Add.encoding() == 2 && ThumbImmediateOp::of(2) == ThumbImmediateOp::Add,
        ThumbImmediateOp::Sub.encoding() == 3 && ThumbImmediateOp::of(3) == ThumbImmediateOp::Sub,
        ThumbHiRegOp::Add.encoding() == 0 && ThumbHiRegOp::of(0) == ThumbHiRegOp::Add,
        ThumbHiRegOp::Cmp.encoding() == 1 && ThumbHiRegOp::of(1) == ThumbHiRegOp::Cmp,
        ThumbHiRegOp::Mov.encoding() == 2 && ThumbHiRegOp::of(2) == ThumbHiRegOp::Mov,
        ThumbHiRegOp::Bx.encoding() == 3 && ThumbHiRegOp::of(3) == ThumbHiRegOp::Bx,
        ThumbSignExtendOp::StoreHalfword.encoding() == 0 && ThumbSignExtendOp::of(0)
            == ThumbSignExtendOp::StoreHalfword,
        ThumbSignExtendOp::LoadSignedByte.encoding() == 1 && ThumbSignExtendOp::of(1)
            == ThumbSignExtendOp::LoadSignedByte,
        ThumbSignExtendOp::LoadHalfword.encoding() == 2 && ThumbSignExtendOp::of(2)
            == ThumbSignExtendOp::LoadHalfword,
        ThumbSignExtendOp::LoadSignedHalfword.encoding() == 3 && ThumbSignExtendOp::of(3)
            == ThumbSignExtendOp::LoadSignedHalfword,
{
}

/// The condition of an ARM word is its top four bits, in the order equal, carry, minus,
/// overflow, higher, signed greater or equal, signed greater, always; the odd codes are
/// the opposites.
pub proof fn condition_numbers()
    ensures
        Condition::of(0) == Condition::Eq && Condition::Eq.encoding() == 0,
        Condition::of(1) == Condition::Ne && Condition::Ne.encoding() == 1,
        Condition::of(2) == Condition::Cs && Condition::Cs.encoding() == 2,
        Condition::of(3) == Condition::Cc && Condition::Cc.encoding() == 3,
        Condition::of(4) == Condition::Mi && Condition::Mi.encoding() == 4,
        Condition::of(5) == Condition::Pl && Condition::Pl.encoding() == 5,
        Condition::of(6) == Condition::Vs && Condition::Vs.encoding() == 6,
        Condition::of(7) == Condition::Vc && Condition::Vc.encoding() == 7,
        Condition::of(8) == Condition::Hi && Condition::Hi.encoding() == 8,
        Condition::of(9) == Condition::Ls && Condition::Ls.encoding() == 9,
        Condition::of(10) == Condition::Ge && Condition::Ge.encoding() == 10,
        Condition::of(11) == Condition::Lt && Condition::Lt.encoding() == 11,
        Condition::of(12) == Condition::Gt && Condition::Gt.encoding() == 12,
        Condition::of(13) == Condition::Le && Condition::Le.encoding() == 13,
        Condition::of(14) == Condition::Al && Condition::Al.encoding() == 14,
        Condition::of(15) == Condition::Nv && Condition::Nv.encoding() == 15,
{
}

/// Whether a word has none of the fixed patterns of the instructions that share the
/// data-processing space.
pub open spec fn is_plain(raw: u32) -> bool {
    &&& raw & 0x0FFF_FFD0 != 0x012F_FF10
    &&& raw & 0x0FF0_00F0 != 0x0120_0070
    &&& raw & 0x0FFF_0FF0 != 0x016F_0F10
    &&& raw & 0x0F90_0FF0 != 0x0100_0050
    &&& raw & 0x0F90_0090 != 0x0100_0080
    &&& raw & 0x0FB0_0FF0 != 0x0100_0090
    &&& raw & 0x0FC0_00F0 != 0x0000_0090
    &&& raw & 0x0F80_00F0 != 0x0080_0090
    &&& raw & 0x0E10_00D0 != 0x0000_00D0
    &&& raw & 0x0E00_0090 != 0x0000_0090 || raw & 0x60 == 0
}

/// A conditional word without such a pattern is told by bits 25 to 27: data processing
/// with access to the status registers in the place of comparisons that set no flags, a
/// word or byte transfer unless it asks for a shift by a register, a block transfer, a
/// branch, nothing, and the interrupts and coprocessor transfers.
pub proof fn arm_classes(raw: u32)
    requires
        raw >> 28 != 0xF,
        is_plain(raw),
    ensures
        ({
            let class = (raw >> 25) & 7;
            let number = (raw >> 21) & 0xF;
            let status = raw & 0x0010_0000 == 0 && 8 <= number <= 11;
            let operation = decode_arm(raw).operation;
            &&& class <= 1 && !status ==> operation is DataProcessing
            &&& class <= 1 && status && raw & 0x0020_0000 == 0 ==> operation is Mrs
            &&& class <= 1 && status && raw & 0x0020_0000 != 0 ==> operation is Msr
            &&& class == 2 || class == 3 ==> {
                let by_register = raw & 0x0200_0000 != 0 && raw & 0x10 != 0;
                &&& by_register <==> operation is Undefined
                &&& !by_register <==> operation is SingleTransfer
            }
            &&& class == 4 ==> operation is BlockTransfer
            &&& class == 5 ==> operation is Branch
            &&& class == 6 ==> operation is Undefined
            &&& class == 7 && raw & 0x0F00_0000 == 0x0F00_0000 ==> operation is SoftwareInterrupt
            &&& class == 7 && raw & 0x0F00_0000 != 0x0F00_0000 && raw & 0x10 != 0 ==> operation
                is CoprocessorRegisterTransfer
            &&& class == 7 && raw & 0x0F00_0000 != 0x0F00_0000 && raw & 0x10 == 0 ==> operation
                is Undefined
        }),
{
    crate::bits::lemma_low_bits_u32(raw >> 21);
}

/// A conditional word with a fixed pattern holds the instruction of that pattern; the
/// narrower patterns come first.
pub proof fn patterned_words(raw: u32)
    requires
        raw >> 28 != 0xF,
    ensures
        ({
            let operation = decode_arm(raw).operation;
            let exchange = raw & 0x0FFF_FFD0 == 0x012F_FF10;
            let breakpoint = raw & 0x0FF0_00F0 == 0x0120_0070;
            let zeros = raw & 0x0FFF_0FF0 == 0x016F_0F10;
            let saturating = raw & 0x0F90_0FF0 == 0x0100_0050;
            let halves = raw & 0x0F90_0090 == 0x0100_0080;
            let control = exchange || breakpoint || zeros || saturating || halves;
            let swap = raw & 0x0FB0_0FF0 == 0x0100_0090;
            let multiply = raw & 0x0FC0_00F0 == 0x0000_0090;
            let long = raw & 0x0F80_00F0 == 0x0080_0090;
            let product = swap || multiply || long;
            let double = raw & 0x0E10_00D0 == 0x0000_00D0;
            let half = raw & 0x0E00_0090 == 0x0000_0090 && raw & 0x60 != 0;
            &&& exchange ==> operation is BranchExchange
            &&& breakpoint && !exchange ==> operation is Breakpoint
            &&& zeros && !exchange && !breakpoint ==> operation is CountLeadingZeros
            &&& saturating && !exchange && !breakpoint && !zeros ==> operation
                is SaturatingArithmetic
            &&& halves && !exchange && !breakpoint && !zeros && !saturating ==> operation
                is HalfwordMultiply
            &&& swap && !control ==> operation is Swap
            &&& multiply && !control && !swap ==> operation is Multiply
            &&& long && !control && !swap && !multiply ==> operation is MultiplyLong
            &&& double && !control && !product ==> operation is DoublewordTransfer
            &&& half && !control && !product && !double ==> operation is HalfwordTransfer
        }),
{
}

/// The fixed patterns, each by its mask and value, in the order in which they are tried.
pub proof fn arm_patterns(raw: u32)
    ensures
        matches_branch_exchange(raw) == (raw & 0x0FFF_FFD0 == 0x012F_FF10),
        matches_breakpoint(raw) == (raw & 0x0FF0_00F0 == 0x0120_0070),
        matches_clz(raw) == (raw & 0x0FFF_0FF0 == 0x016F_0F10),
        matches_saturating(raw) == (raw & 0x0F90_0FF0 == 0x0100_0050),
        matches_halfword_multiply(raw) == (raw & 0x0F90_0090 == 0x0100_0080),
        matches_swap(raw) == (raw & 0x0FB0_0FF0 == 0x0100_0090),
        matches_multiply(raw) == (raw & 0x0FC0_00F0 == 0x0000_0090),
        matches_multiply_long(raw) == (raw & 0x0F80_00F0 == 0x0080_0090),
        matches_doubleword_transfer(raw) == (raw & 0x0E10_00D0 == 0x0000_00D0),
        matches_halfword_transfer(raw) == (raw & 0x0E00_0090 == 0x0000_0090 && raw & 0x60 != 0),
        raw >> 28 != 0xF && matches_branch_exchange(raw) ==> decode_arm(raw).operation
            is BranchExchange,
        raw >> 28 == 0xF && (raw >> 25) & 7 == 5 ==> decode_arm(raw).operation
            is BranchLinkExchange,
        raw >> 28 == 0xF && (raw >> 25) & 7 != 5 ==> decode_arm(raw).operation is Undefined
            && decode_arm(raw).condition == Condition::Nv,
        raw >> 28 != 0xF ==> decode_arm(raw).condition == Condition::of((raw >> 28) & 0xF),
{
}

/// The Thumb formats by their leading bits.
pub proof fn thumb_classes(raw: u16)
    ensures
        ({
            let top = raw >> 13;
            let instruction = decode_thumb(raw);
            &&& top == 0 && (raw >> 11) & 3 == 3 <==> instruction is AddSubtract
            &&& top == 0 && (raw >> 11) & 3 != 3 <==> instruction is MoveShifted
            &&& top == 1 <==> instruction is AluImmediate
            &&& top == 2 && raw & 0x1000 != 0 && raw & 0x0200 != 0 <==> instruction
                is LoadStoreSignExtended
            &&& top == 2 && raw & 0x1000 != 0 && raw & 0x0200 == 0 <==> instruction
                is LoadStoreRegister
            &&& top == 2 && raw & 0x1000 == 0 && raw & 0x0800 != 0 <==> instruction
                is PcRelativeLoad
            &&& top == 2 && raw & 0x1000 == 0 && raw & 0x0800 == 0 && raw & 0x0400 != 0
                <==> instruction is HiRegister
            &&& top == 2 && raw & 0x1000 == 0 && raw & 0x0800 == 0 && raw & 0x0400 == 0
                <==> instruction is AluOperation
            &&& top == 3 <==> instruction is LoadStoreImmediate
            &&& top == 4 && raw & 0x1000 != 0 <==> instruction is SpRelativeLoadStore
            &&& top == 4 && raw & 0x1000 == 0 <==> instruction is LoadStoreHalfword
            &&& top == 5 && raw & 0x1000 == 0 <==> instruction is LoadAddress
            &&& top == 5 && raw & 0x1000 != 0 && (raw >> 9) & 7 == 0 && raw & 0x0100 == 0
                <==> instruction is AdjustStackPointer
            &&& top == 5 && raw & 0x1000 != 0 && ((raw >> 9) & 7 == 2 || (raw >> 9) & 7 == 6)
                <==> instruction is PushPop
            &&& top == 6 && raw & 0x1000 == 0 <==> instruction is BlockTransfer
            &&& top == 6 && raw & 0x1000 != 0 && (raw >> 8) & 0xF == 0xF <==> instruction
                is SoftwareInterrupt
            &&& top == 6 && raw & 0x1000 != 0 && (raw >> 8) & 0xF != 0xF && (raw >> 8) & 0xF != 0xE
                <==> instruction is ConditionalBranch
            &&& top == 7 && (raw >> 11) & 3 == 0 <==> instruction is Branch
            &&& top == 7 && (raw >> 11) & 3 >= 2 <==> instruction is LongBranchLink
        }),
{
    crate::bits::lemma_low_bits_u16(raw);
    crate::bits::lemma_low_bits_u16(raw >> 11);
}

} // verus!
