//! Laws of the disassembler: the mnemonic that each decoded instruction is shown
//! under, and the order in which its operands follow.

use vstd::prelude::*;

use crate::arm::condition::Condition;
use crate::arm::instruction::arm::{
    ArmInstruction, ArmOperation, BlockTransfer, Branch, BranchExchange, BranchLinkExchange,
    CountLeadingZeros, DataProcessing, DoublewordTransfer, HalfwordOffset, HalfwordTransfer, Mrs,
        Multiply, MultiplyLong, Operand2,
    SaturatingArithmetic, Shift, ShiftKind, ShiftSource, SingleOffset,
    SingleTransfer, SoftwareInterrupt, Swap,
};
use crate::arm::instruction::thumb::{
    AddSubOperand, LoadAddressSource, ThumbAluOp, ThumbHiRegOp, ThumbImmediateOp,
    ThumbInstruction, ThumbShiftOp, ThumbSignExtendOp,
};
use crate::arm::register::Register;
use crate::text;

verus! {

/// Whether a text begins with a mnemonic and a tab.
pub open spec fn begins(text: Seq<char>, mnemonic: Seq<char>) -> bool {
    &&& mnemonic.len() < text.len()
    &&& forall|i: int| 0 <= i < mnemonic.len() ==> text[i] == mnemonic[i]
    &&& text[mnemonic.len() as int] == '\t'
}

/// Registers are shown as `r0` to `r12`, `sp`, `lr` and `pc`.
pub proof fn register_names()
    ensures
        Register(0).name() == "r0"@,
        Register(1).name() == "r1"@,
        Register(2).name() == "r2"@,
        Register(3).name() == "r3"@,
        Register(4).name() == "r4"@,
        Register(5).name() == "r5"@,
        Register(6).name() == "r6"@,
        Register(7).name() == "r7"@,
        Register(8).name() == "r8"@,
        Register(9).name() == "r9"@,
        Register(10).name() == "r10"@,
        Register(11).name() == "r11"@,
        Register(12).name() == "r12"@,
        Register(13).name() == "sp"@,
        Register(14).name() == "lr"@,
        Register(15).name() == "pc"@,
{
    crate::bits::lemma_low_bits_u8(0);
    crate::bits::lemma_low_bits_u8(1);
    crate::bits::lemma_low_bits_u8(2);
    crate::bits::lemma_low_bits_u8(3);
    crate::bits::lemma_low_bits_u8(4);
    crate::bits::lemma_low_bits_u8(5);
    crate::bits::lemma_low_bits_u8(6);
    crate::bits::lemma_low_bits_u8(7);
    crate::bits::lemma_low_bits_u8(8);
    crate::bits::lemma_low_bits_u8(9);
    crate::bits::lemma_low_bits_u8(10);
    crate::bits::lemma_low_bits_u8(11);
    crate::bits::lemma_low_bits_u8(12);
    crate::bits::lemma_low_bits_u8(13);
    crate::bits::lemma_low_bits_u8(14);
    crate::bits::lemma_low_bits_u8(15);
}

/// The condition suffixes in the order of their encodings, none for `AL`.
pub proof fn condition_suffixes()
    ensures
        Condition::of(0).suffix() == "eq"@,
        Condition::of(1).suffix() == "ne"@,
        Condition::of(2).suffix() == "cs"@,
        Condition::of(3).suffix() == "cc"@,
        Condition::of(4).suffix() == "mi"@,
        Condition::of(5).suffix() == "pl"@,
        Condition::of(6).suffix() == "vs"@,
        Condition::of(7).suffix() == "vc"@,
        Condition::of(8).suffix() == "hi"@,
        Condition::of(9).suffix() == "ls"@,
        Condition::of(10).suffix() == "ge"@,
        Condition::of(11).suffix() == "lt"@,
        Condition::of(12).suffix() == "gt"@,
        Condition::of(13).suffix() == "le"@,
        Condition::of(14).suffix() == ""@,
        Condition::of(15).suffix() == "nv"@,
{
}

/// The text of a Thumb load or store begins with the mnemonic of its direction and
/// width, and a tab: `str` and `ldr` for a word, `strb` and `ldrb` for a byte, `strh` and
/// `ldrh` for a halfword, `ldrsb` and `ldrsh` for a signed byte or halfword.
pub proof fn thumb_transfer_mnemonics(ro: Register, rb: Register, rd: Register, offset: u8)
    ensures
        begins((ThumbInstruction::LoadStoreRegister { load: false, byte: false, ro, rb,
            rd }).assembly(), "str"@),
        begins((ThumbInstruction::LoadStoreImmediate { load: false, byte: false, offset, rb,
            rd }).assembly(), "str"@),
        begins((ThumbInstruction::LoadStoreRegister { load: false, byte: true, ro, rb,
            rd }).assembly(), "strb"@),
        begins((ThumbInstruction::LoadStoreImmediate { load: false, byte: true, offset, rb,
            rd }).assembly(), "strb"@),
        begins((ThumbInstruction::LoadStoreRegister { load: true, byte: false, ro, rb,
            rd }).assembly(), "ldr"@),
        begins((ThumbInstruction::LoadStoreImmediate { load: true, byte: false, offset, rb,
            rd }).assembly(), "ldr"@),
        begins((ThumbInstruction::LoadStoreRegister { load: true, byte: true, ro, rb,
            rd }).assembly(), "ldrb"@),
        begins((ThumbInstruction::LoadStoreImmediate { load: true, byte: true, offset, rb,
            rd }).assembly(), "ldrb"@),
        begins((ThumbInstruction::LoadStoreSignExtended { op: ThumbSignExtendOp::StoreHalfword,
            ro, rb, rd }).assembly(), "strh"@),
        begins((ThumbInstruction::LoadStoreSignExtended { op: ThumbSignExtendOp::LoadHalfword, ro,
            rb, rd }).assembly(), "ldrh"@),
        begins((ThumbInstruction::LoadStoreSignExtended { op: ThumbSignExtendOp::LoadSignedByte,
            ro, rb, rd }).assembly(), "ldrsb"@),
        begins((ThumbInstruction::LoadStoreSignExtended {
            op: ThumbSignExtendOp::LoadSignedHalfword, ro, rb, rd }).assembly(), "ldrsh"@),
        begins((ThumbInstruction::LoadStoreHalfword { load: false, offset, rb, rd }).assembly(),
            "strh"@),
        begins((ThumbInstruction::LoadStoreHalfword { load: true, offset, rb, rd }).assembly(),
            "ldrh"@),
        begins((ThumbInstruction::SpRelativeLoadStore { load: false, rd,
            word8: offset }).assembly(), "str"@),
        begins((ThumbInstruction::SpRelativeLoadStore { load: true, rd,
            word8: offset }).assembly(), "ldr"@),
        begins((ThumbInstruction::PcRelativeLoad { rd, word8: offset }).assembly(), "ldr"@),
{
    reveal_strlit("\t");
    reveal_strlit("ldr\t");
    reveal_strlit("ldr");
}

/// An unsigned operand: in decimal below ten, else in hexadecimal.
pub open spec fn number(value: u32) -> Seq<char> {
    if value < 10 {
        "#"@ + text::numeral(value as nat, 10)
    } else {
        "#0x"@ + text::numeral(value as nat, 16)
    }
}

/// A place in memory: a base and what is added to it, if that is not zero.
pub open spec fn place(base: Register, offset: u32) -> Seq<char> {
    if offset == 0 {
        "["@ + base.name() + "]"@
    } else {
        "["@ + base.name() + ", "@ + number(offset) + "]"@
    }
}

/// A Thumb transfer shows the register that it moves, then the base and what is added
/// to it, in bytes: an immediate counts units of the transfer.
pub proof fn thumb_transfer_operands(ro: Register, rb: Register, rd: Register, offset: u8)
    ensures
        (ThumbInstruction::LoadStoreRegister { load: false, byte: false, ro, rb, rd }).assembly()
            == "str"@ + "\t"@ + rd.name() + ", ["@ + rb.name() + ", "@ + ro.name() + "]"@,
        (ThumbInstruction::LoadStoreImmediate { load: false, byte: false, offset, rb,
            rd }).assembly() == "str"@ + "\t"@ + rd.name() + ", "@ + place(rb,
            (offset * 4) as u32),
        (ThumbInstruction::LoadStoreRegister { load: false, byte: true, ro, rb, rd }).assembly()
            == "strb"@ + "\t"@ + rd.name() + ", ["@ + rb.name() + ", "@ + ro.name() + "]"@,
        (ThumbInstruction::LoadStoreImmediate { load: false, byte: true, offset, rb,
            rd }).assembly() == "strb"@ + "\t"@ + rd.name() + ", "@ + place(rb, offset as u32),
        (ThumbInstruction::LoadStoreRegister { load: true, byte: false, ro, rb, rd }).assembly()
            == "ldr"@ + "\t"@ + rd.name() + ", ["@ + rb.name() + ", "@ + ro.name() + "]"@,
        (ThumbInstruction::LoadStoreImmediate { load: true, byte: false, offset, rb,
            rd }).assembly() == "ldr"@ + "\t"@ + rd.name() + ", "@ + place(rb,
            (offset * 4) as u32),
        (ThumbInstruction::LoadStoreRegister { load: true, byte: true, ro, rb, rd }).assembly()
            == "ldrb"@ + "\t"@ + rd.name() + ", ["@ + rb.name() + ", "@ + ro.name() + "]"@,
        (ThumbInstruction::LoadStoreImmediate { load: true, byte: true, offset, rb,
            rd }).assembly() == "ldrb"@ + "\t"@ + rd.name() + ", "@ + place(rb, offset as u32),
        (ThumbInstruction::LoadStoreSignExtended { op: ThumbSignExtendOp::StoreHalfword, ro, rb,
            rd }).assembly() == "strh"@ + "\t"@ + rd.name() + ", ["@ + rb.name() + ", "@
            + ro.name() + "]"@,
        (ThumbInstruction::LoadStoreSignExtended { op: ThumbSignExtendOp::LoadHalfword, ro, rb,
            rd }).assembly() == "ldrh"@ + "\t"@ + rd.name() + ", ["@ + rb.name() + ", "@
            + ro.name() + "]"@,
        (ThumbInstruction::LoadStoreSignExtended { op: ThumbSignExtendOp::LoadSignedByte, ro, rb,
            rd }).assembly() == "ldrsb"@ + "\t"@ + rd.name() + ", ["@ + rb.name() + ", "@
            + ro.name() + "]"@,
        (ThumbInstruction::LoadStoreSignExtended { op: ThumbSignExtendOp::LoadSignedHalfword, ro,
            rb, rd }).assembly() == "ldrsh"@ + "\t"@ + rd.name() + ", ["@ + rb.name() + ", "@
            + ro.name() + "]"@,
        (ThumbInstruction::LoadStoreHalfword { load: false, offset, rb, rd }).assembly()
            == "strh"@ + "\t"@ + rd.name() + ", "@ + place(rb, (offset * 2) as u32),
        (ThumbInstruction::LoadStoreHalfword { load: true, offset, rb, rd }).assembly()
            == "ldrh"@ + "\t"@ + rd.name() + ", "@ + place(rb, (offset * 2) as u32),
        (ThumbInstruction::SpRelativeLoadStore { load: false, rd, word8: offset }).assembly()
            == "str"@ + "\t"@ + rd.name() + ", [sp, "@ + number((offset * 4) as u32) + "]"@,
        (ThumbInstruction::SpRelativeLoadStore { load: true, rd, word8: offset }).assembly()
            == "ldr"@ + "\t"@ + rd.name() + ", [sp, "@ + number((offset * 4) as u32) + "]"@,
{
}

/// A Thumb arithmetic instruction is shown under the name of its operation, with the
/// destination first; a right shift by an encoded zero is shown as one by 32.
pub proof fn thumb_arithmetic_text(rn: Register, rs: Register, rd: Register, immediate: u8)
    ensures
        (ThumbInstruction::AluOperation { op: ThumbAluOp::And, rs, rd }).assembly()
            == "and"@ + "\t"@ + rd.name() + ", "@ + rs.name(),
        (ThumbInstruction::AluOperation { op: ThumbAluOp::Eor, rs, rd }).assembly()
            == "eor"@ + "\t"@ + rd.name() + ", "@ + rs.name(),
        (ThumbInstruction::AluOperation { op: ThumbAluOp::Lsl, rs, rd }).assembly()
            == "lsl"@ + "\t"@ + rd.name() + ", "@ + rs.name(),
        (ThumbInstruction::AluOperation { op: ThumbAluOp::Lsr, rs, rd }).assembly()
            == "lsr"@ + "\t"@ + rd.name() + ", "@ + rs.name(),
        (ThumbInstruction::AluOperation { op: ThumbAluOp::Asr, rs, rd }).assembly()
            == "asr"@ + "\t"@ + rd.name() + ", "@ + rs.name(),
        (ThumbInstruction::AluOperation { op: ThumbAluOp::Adc, rs, rd }).assembly()
            == "adc"@ + "\t"@ + rd.name() + ", "@ + rs.name(),
        (ThumbInstruction::AluOperation { op: ThumbAluOp::Sbc, rs, rd }).assembly()
            == "sbc"@ + "\t"@ + rd.name() + ", "@ + rs.name(),
        (ThumbInstruction::AluOperation { op: ThumbAluOp::Ror, rs, rd }).assembly()
            == "ror"@ + "\t"@ + rd.name() + ", "@ + rs.name(),
        (ThumbInstruction::AluOperation { op: ThumbAluOp::Tst, rs, rd }).assembly()
            == "tst"@ + "\t"@ + rd.name() + ", "@ + rs.name(),
        (ThumbInstruction::AluOperation { op: ThumbAluOp::Neg, rs, rd }).assembly()
            == "neg"@ + "\t"@ + rd.name() + ", "@ + rs.name(),
        (ThumbInstruction::AluOperation { op: ThumbAluOp::Cmp, rs, rd }).assembly()
            == "cmp"@ + "\t"@ + rd.name() + ", "@ + rs.name(),
        (ThumbInstruction::AluOperation { op: ThumbAluOp::Cmn, rs, rd }).assembly()
            == "cmn"@ + "\t"@ + rd.name() + ", "@ + rs.name(),
        (ThumbInstruction::AluOperation { op: ThumbAluOp::Orr, rs, rd }).assembly()
            == "orr"@ + "\t"@ + rd.name() + ", "@ + rs.name(),
        (ThumbInstruction::AluOperation { op: ThumbAluOp::Mul, rs, rd }).assembly()
            == "mul"@ + "\t"@ + rd.name() + ", "@ + rs.name(),
        (ThumbInstruction::AluOperation { op: ThumbAluOp::Bic, rs, rd }).assembly()
            == "bic"@ + "\t"@ + rd.name() + ", "@ + rs.name(),
        (ThumbInstruction::AluOperation { op: ThumbAluOp::Mvn, rs, rd }).assembly()
            == "mvn"@ + "\t"@ + rd.name() + ", "@ + rs.name(),
        (ThumbInstruction::HiRegister { op: ThumbHiRegOp::Add, rs, rd }).assembly()
            == "add"@ + "\t"@ + rd.name() + ", "@ + rs.name(),
        (ThumbInstruction::HiRegister { op: ThumbHiRegOp::Cmp, rs, rd }).assembly()
            == "cmp"@ + "\t"@ + rd.name() + ", "@ + rs.name(),
        (ThumbInstruction::HiRegister { op: ThumbHiRegOp::Mov, rs, rd }).assembly()
            == "mov"@ + "\t"@ + rd.name() + ", "@ + rs.name(),
        (ThumbInstruction::HiRegister { op: ThumbHiRegOp::Bx, rs, rd }).assembly()
            == "bx\t"@ + rs.name(),
        (ThumbInstruction::AluImmediate { op: ThumbImmediateOp::Mov, rd, immediate }).assembly()
            == "mov"@ + "\t"@ + rd.name() + ", "@ + number(immediate as u32),
        (ThumbInstruction::AluImmediate { op: ThumbImmediateOp::Cmp, rd, immediate }).assembly()
            == "cmp"@ + "\t"@ + rd.name() + ", "@ + number(immediate as u32),
        (ThumbInstruction::AluImmediate { op: ThumbImmediateOp::Add, rd, immediate }).assembly()
            == "add"@ + "\t"@ + rd.name() + ", "@ + number(immediate as u32),
        (ThumbInstruction::AluImmediate { op: ThumbImmediateOp::Sub, rd, immediate }).assembly()
            == "sub"@ + "\t"@ + rd.name() + ", "@ + number(immediate as u32),
        (ThumbInstruction::AddSubtract { subtract: false, operand: AddSubOperand::Register(rn),
            rs, rd }).assembly() == "add"@ + "\t"@ + rd.name() + ", "@ + rs.name() + ", "@
            + rn.name(),
        (ThumbInstruction::AddSubtract { subtract: false,
            operand: AddSubOperand::Immediate(immediate), rs, rd }).assembly()
            == "add"@ + "\t"@ + rd.name() + ", "@ + rs.name() + ", "@ + ("#"@
            + text::numeral(immediate as nat, 10)),
        (ThumbInstruction::AddSubtract { subtract: true, operand: AddSubOperand::Register(rn), rs,
            rd }).assembly() == "sub"@ + "\t"@ + rd.name() + ", "@ + rs.name() + ", "@
            + rn.name(),
        (ThumbInstruction::AddSubtract { subtract: true,
            operand: AddSubOperand::Immediate(immediate), rs, rd }).assembly()
            == "sub"@ + "\t"@ + rd.name() + ", "@ + rs.name() + ", "@ + ("#"@
            + text::numeral(immediate as nat, 10)),
        (ThumbInstruction::MoveShifted { op: ThumbShiftOp::Lsl, amount: immediate, rs,
            rd }).assembly() == "lsl"@ + "\t"@ + rd.name() + ", "@ + rs.name() + ", #"@
            + text::numeral(immediate as nat, 10),
        (ThumbInstruction::MoveShifted { op: ThumbShiftOp::Lsr, amount: immediate, rs,
            rd }).assembly() == "lsr"@ + "\t"@ + rd.name() + ", "@ + rs.name() + ", #"@
            + text::numeral((if immediate == 0 {32nat} else {immediate as nat}), 10),
        (ThumbInstruction::MoveShifted { op: ThumbShiftOp::Asr, amount: immediate, rs,
            rd }).assembly() == "asr"@ + "\t"@ + rd.name() + ", "@ + rs.name() + ", #"@
            + text::numeral((if immediate == 0 {32nat} else {immediate as nat}), 10),
{
}

/// A Thumb branch shows its displacement; the halves of a long branch say which they
/// are; `PUSH` adds `lr` to its list and `POP` adds `pc`.
pub proof fn thumb_control_text(condition: Condition, rd: Register, offset: i32, half: u16,
    comment: u8)
    ensures
        (ThumbInstruction::ConditionalBranch { condition, offset }).assembly()
            == "b"@ + condition.suffix() + "\t#"@ + text::signed_decimal(offset as int),
        (ThumbInstruction::Branch { offset }).assembly()
            == "b\t#"@ + text::signed_decimal(offset as int),
        (ThumbInstruction::LongBranchLink { second_half: false, exchange: false,
            offset: half }).assembly() == "bl\t("@ + "high"@ + ") #0x"@
            + text::padded_hex(half as nat, 3),
        (ThumbInstruction::LongBranchLink { second_half: true, exchange: false,
            offset: half }).assembly() == "bl\t("@ + "low"@ + ") #0x"@
            + text::padded_hex(half as nat, 3),
        (ThumbInstruction::LongBranchLink { second_half: false, exchange: true,
            offset: half }).assembly() == "blx\t("@ + "high"@ + ") #0x"@
            + text::padded_hex(half as nat, 3),
        (ThumbInstruction::LongBranchLink { second_half: true, exchange: true,
            offset: half }).assembly() == "blx\t("@ + "low"@ + ") #0x"@
            + text::padded_hex(half as nat, 3),
        (ThumbInstruction::SoftwareInterrupt { comment }).assembly()
            == "swi\t#0x"@ + text::numeral(comment as nat, 16),
        (ThumbInstruction::Undefined { raw: half }).assembly()
            == ".hword\t0x"@ + text::padded_hex(half as nat, 4),
        (ThumbInstruction::LoadAddress { source: LoadAddressSource::Pc, rd,
            word8: comment }).assembly() == "add\t"@ + rd.name() + ", pc, "@
            + number((comment * 4) as u32),
        (ThumbInstruction::LoadAddress { source: LoadAddressSource::Sp, rd,
            word8: comment }).assembly() == "add\t"@ + rd.name() + ", sp, "@
            + number((comment * 4) as u32),
        (ThumbInstruction::AdjustStackPointer { subtract: false, word7: comment }).assembly()
            == "add\tsp, "@ + number((comment * 4) as u32),
        (ThumbInstruction::AdjustStackPointer { subtract: true, word7: comment }).assembly()
            == "sub\tsp, "@ + number((comment * 4) as u32),
        (ThumbInstruction::PushPop { pop: false, include_pc_lr: false,
            register_list: comment }).assembly()
            == "push\t"@ + super::register_list_text(comment as u16 | 0),
        (ThumbInstruction::PushPop { pop: true, include_pc_lr: false,
            register_list: comment }).assembly()
            == "pop\t"@ + super::register_list_text(comment as u16 | 0),
        (ThumbInstruction::PushPop { pop: false, include_pc_lr: true,
            register_list: comment }).assembly()
            == "push\t"@ + super::register_list_text(comment as u16 | 0x4000),
        (ThumbInstruction::PushPop { pop: true, include_pc_lr: true,
            register_list: comment }).assembly()
            == "pop\t"@ + super::register_list_text(comment as u16 | 0x8000),
        (ThumbInstruction::BlockTransfer { load: false, rb: rd,
            register_list: comment }).assembly()
            == "stmia\t"@ + rd.name() + "!, "@ + super::register_list_text(comment as u16),
        (ThumbInstruction::BlockTransfer { load: true, rb: rd,
            register_list: comment }).assembly()
            == "ldmia\t"@ + rd.name() + "!, "@ + super::register_list_text(comment as u16),
{
}

/// A line of ARM assembly: the mnemonic with the condition and a suffix, a tab, and
/// the operands.
pub open spec fn conditional(name: Seq<char>, condition: Condition, suffix: Seq<char>,
    operands: Seq<
    char,
>) -> Seq<char> {
    name + condition.suffix() + suffix + "\t"@ + operands
}

/// The instruction's text.
pub open spec fn shown(condition: Condition, operation: ArmOperation) -> Seq<char> {
    (ArmInstruction { condition, operation }).assembly()
}

/// The `s` of an instruction that sets the flags.
pub open spec fn flag_letter(set_flags: bool) -> Seq<char> {
    if set_flags {
        "s"@
    } else {
        ""@
    }
}

/// A data-processing instruction is shown under the name of its opcode: the destination
/// and the first operand, as far as the opcode has them, before the second operand.
pub proof fn data_processing_text(op: DataProcessing, condition: Condition)
    ensures
        op.opcode is And ==> shown(condition, ArmOperation::DataProcessing(op))
            == conditional("and"@, condition, flag_letter(op.set_flags), op.rd.name() + ", "@
            + op.rn.name() + ", "@ + op.operand2.assembly()),
        op.opcode is Eor ==> shown(condition, ArmOperation::DataProcessing(op))
            == conditional("eor"@, condition, flag_letter(op.set_flags), op.rd.name() + ", "@
            + op.rn.name() + ", "@ + op.operand2.assembly()),
        op.opcode is Sub ==> shown(condition, ArmOperation::DataProcessing(op))
            == conditional("sub"@, condition, flag_letter(op.set_flags), op.rd.name() + ", "@
            + op.rn.name() + ", "@ + op.operand2.assembly()),
        op.opcode is Rsb ==> shown(condition, ArmOperation::DataProcessing(op))
            == conditional("rsb"@, condition, flag_letter(op.set_flags), op.rd.name() + ", "@
            + op.rn.name() + ", "@ + op.operand2.assembly()),
        op.opcode is Add ==> shown(condition, ArmOperation::DataProcessing(op))
            == conditional("add"@, condition, flag_letter(op.set_flags), op.rd.name() + ", "@
            + op.rn.name() + ", "@ + op.operand2.assembly()),
        op.opcode is Adc ==> shown(condition, ArmOperation::DataProcessing(op))
            == conditional("adc"@, condition, flag_letter(op.set_flags), op.rd.name() + ", "@
            + op.rn.name() + ", "@ + op.operand2.assembly()),
        op.opcode is Sbc ==> shown(condition, ArmOperation::DataProcessing(op))
            == conditional("sbc"@, condition, flag_letter(op.set_flags), op.rd.name() + ", "@
            + op.rn.name() + ", "@ + op.operand2.assembly()),
        op.opcode is Rsc ==> shown(condition, ArmOperation::DataProcessing(op))
            == conditional("rsc"@, condition, flag_letter(op.set_flags), op.rd.name() + ", "@
            + op.rn.name() + ", "@ + op.operand2.assembly()),
        op.opcode is Orr ==> shown(condition, ArmOperation::DataProcessing(op))
            == conditional("orr"@, condition, flag_letter(op.set_flags), op.rd.name() + ", "@
            + op.rn.name() + ", "@ + op.operand2.assembly()),
        op.opcode is Bic ==> shown(condition, ArmOperation::DataProcessing(op))
            == conditional("bic"@, condition, flag_letter(op.set_flags), op.rd.name() + ", "@
            + op.rn.name() + ", "@ + op.operand2.assembly()),
        op.opcode is Mov ==> shown(condition, ArmOperation::DataProcessing(op))
            == conditional("mov"@, condition, flag_letter(op.set_flags), op.rd.name() + ", "@
            + op.operand2.assembly()),
        op.opcode is Mvn ==> shown(condition, ArmOperation::DataProcessing(op))
            == conditional("mvn"@, condition, flag_letter(op.set_flags), op.rd.name() + ", "@
            + op.operand2.assembly()),
        op.opcode is Tst ==> shown(condition, ArmOperation::DataProcessing(op))
            == conditional("tst"@, condition, ""@, op.rn.name() + ", "@ + op.operand2.assembly()),
        op.opcode is Teq ==> shown(condition, ArmOperation::DataProcessing(op))
            == conditional("teq"@, condition, ""@, op.rn.name() + ", "@ + op.operand2.assembly()),
        op.opcode is Cmp ==> shown(condition, ArmOperation::DataProcessing(op))
            == conditional("cmp"@, condition, ""@, op.rn.name() + ", "@ + op.operand2.assembly()),
        op.opcode is Cmn ==> shown(condition, ArmOperation::DataProcessing(op))
            == conditional("cmn"@, condition, ""@, op.rn.name() + ", "@ + op.operand2.assembly()),
{
}

/// The multiplies are shown with the destination first, a long one's low word before
/// its high word.
pub proof fn multiply_text(op: Multiply, long: MultiplyLong, q: SaturatingArithmetic,
    zeros: CountLeadingZeros, condition: Condition)
    ensures
        !op.accumulate ==> shown(condition, ArmOperation::Multiply(op))
            == conditional("mul"@, condition, flag_letter(op.set_flags), op.rd.name() + ", "@
            + op.rm.name() + ", "@ + op.rs.name()),
        op.accumulate ==> shown(condition, ArmOperation::Multiply(op))
            == conditional("mla"@, condition, flag_letter(op.set_flags), op.rd.name() + ", "@
            + op.rm.name() + ", "@ + op.rs.name() + ", "@ + op.rn.name()),
        !long.signed && !long.accumulate ==> shown(condition, ArmOperation::MultiplyLong(long))
            == conditional("umull"@, condition, flag_letter(long.set_flags), long.rd_lo.name()
            + ", "@ + long.rd_hi.name() + ", "@ + long.rm.name() + ", "@ + long.rs.name()),
        !long.signed && long.accumulate ==> shown(condition, ArmOperation::MultiplyLong(long))
            == conditional("umlal"@, condition, flag_letter(long.set_flags), long.rd_lo.name()
            + ", "@ + long.rd_hi.name() + ", "@ + long.rm.name() + ", "@ + long.rs.name()),
        long.signed && !long.accumulate ==> shown(condition, ArmOperation::MultiplyLong(long))
            == conditional("smull"@, condition, flag_letter(long.set_flags), long.rd_lo.name()
            + ", "@ + long.rd_hi.name() + ", "@ + long.rm.name() + ", "@ + long.rs.name()),
        long.signed && long.accumulate ==> shown(condition, ArmOperation::MultiplyLong(long))
            == conditional("smlal"@, condition, flag_letter(long.set_flags), long.rd_lo.name()
            + ", "@ + long.rd_hi.name() + ", "@ + long.rm.name() + ", "@ + long.rs.name()),
        q.op is QAdd ==> shown(condition, ArmOperation::SaturatingArithmetic(q))
            == conditional("qadd"@, condition, ""@, q.rd.name() + ", "@ + q.rm.name() + ", "@
            + q.rn.name()),
        q.op is QSub ==> shown(condition, ArmOperation::SaturatingArithmetic(q))
            == conditional("qsub"@, condition, ""@, q.rd.name() + ", "@ + q.rm.name() + ", "@
            + q.rn.name()),
        q.op is QDAdd ==> shown(condition, ArmOperation::SaturatingArithmetic(q))
            == conditional("qdadd"@, condition, ""@, q.rd.name() + ", "@ + q.rm.name() + ", "@
            + q.rn.name()),
        q.op is QDSub ==> shown(condition, ArmOperation::SaturatingArithmetic(q))
            == conditional("qdsub"@, condition, ""@, q.rd.name() + ", "@ + q.rm.name() + ", "@
            + q.rn.name()),
        shown(condition, ArmOperation::CountLeadingZeros(zeros))
            == conditional("clz"@, condition, ""@, zeros.rd.name() + ", "@ + zeros.rm.name()),
{
}

/// A place in memory: `[rn], offset` where the offset is applied afterwards, else
/// `[rn, offset]` with `!` where the base is written back, or `[rn]` for no offset.
pub open spec fn indexed(
    rn: Register,
    offset: Seq<char>,
    none: bool,
    pre_indexed: bool,
    writeback: bool,
) -> Seq<char> {
    if !pre_indexed {
        "["@ + rn.name() + "], "@ + offset
    } else if writeback {
        "["@ + rn.name() + ", "@ + offset + "]"@ + "!"@
    } else if none {
        "["@ + rn.name() + "]"@
    } else {
        "["@ + rn.name() + ", "@ + offset + "]"@ + ""@
    }
}

/// A load or store is shown as `ldr` or `str` with the letters of its width and sign,
/// and `t` for the post-indexed form with user access.
pub proof fn transfer_text(op: SingleTransfer, half: HalfwordTransfer, double: DoublewordTransfer,
    condition: Condition)
    ensures
        op.load && op.byte && !op.pre_indexed && op.writeback
            ==> shown(condition, ArmOperation::SingleTransfer(op))
            == conditional("ldr"@, condition, "b"@ + "t"@, op.rd.name() + ", "@
            + indexed(op.rn, op.offset.assembly(op.add), op.offset
            == SingleOffset::Immediate(0), op.pre_indexed, op.writeback)),
        op.load && op.byte && (op.pre_indexed || !op.writeback)
            ==> shown(condition, ArmOperation::SingleTransfer(op))
            == conditional("ldr"@, condition, "b"@ + ""@, op.rd.name() + ", "@
            + indexed(op.rn, op.offset.assembly(op.add), op.offset
            == SingleOffset::Immediate(0), op.pre_indexed, op.writeback)),
        op.load && !op.byte && !op.pre_indexed && op.writeback
            ==> shown(condition, ArmOperation::SingleTransfer(op))
            == conditional("ldr"@, condition, ""@ + "t"@, op.rd.name() + ", "@
            + indexed(op.rn, op.offset.assembly(op.add), op.offset
            == SingleOffset::Immediate(0), op.pre_indexed, op.writeback)),
        op.load && !op.byte && (op.pre_indexed || !op.writeback)
            ==> shown(condition, ArmOperation::SingleTransfer(op))
            == conditional("ldr"@, condition, ""@ + ""@, op.rd.name() + ", "@
            + indexed(op.rn, op.offset.assembly(op.add), op.offset
            == SingleOffset::Immediate(0), op.pre_indexed, op.writeback)),
        half.load && half.kind is UnsignedHalfword
            ==> shown(condition, ArmOperation::HalfwordTransfer(half))
            == conditional("ldr"@, condition, "h"@, half.rd.name() + ", "@
            + indexed(half.rn, half.offset.assembly(half.add), half.offset
            == HalfwordOffset::Immediate(0), half.pre_indexed, half.writeback)),
        half.load && half.kind is SignedByte ==> shown(condition,
            ArmOperation::HalfwordTransfer(half))
            == conditional("ldr"@, condition, "sb"@, half.rd.name() + ", "@
            + indexed(half.rn, half.offset.assembly(half.add), half.offset
            == HalfwordOffset::Immediate(0), half.pre_indexed, half.writeback)),
        half.load && half.kind is SignedHalfword
            ==> shown(condition, ArmOperation::HalfwordTransfer(half))
            == conditional("ldr"@, condition, "sh"@, half.rd.name() + ", "@
            + indexed(half.rn, half.offset.assembly(half.add), half.offset
            == HalfwordOffset::Immediate(0), half.pre_indexed, half.writeback)),
        !double.store ==> shown(condition, ArmOperation::DoublewordTransfer(double))
            == conditional("ldrd"@, condition, ""@, double.rd.name() + ", "@
            + indexed(double.rn, double.offset.assembly(double.add), double.offset
            == HalfwordOffset::Immediate(0), double.pre_indexed, double.writeback)),
        !op.load && op.byte && !op.pre_indexed && op.writeback
            ==> shown(condition, ArmOperation::SingleTransfer(op))
            == conditional("str"@, condition, "b"@ + "t"@, op.rd.name() + ", "@
            + indexed(op.rn, op.offset.assembly(op.add), op.offset
            == SingleOffset::Immediate(0), op.pre_indexed, op.writeback)),
        !op.load && op.byte && (op.pre_indexed || !op.writeback)
            ==> shown(condition, ArmOperation::SingleTransfer(op))
            == conditional("str"@, condition, "b"@ + ""@, op.rd.name() + ", "@
            + indexed(op.rn, op.offset.assembly(op.add), op.offset
            == SingleOffset::Immediate(0), op.pre_indexed, op.writeback)),
        !op.load && !op.byte && !op.pre_indexed && op.writeback
            ==> shown(condition, ArmOperation::SingleTransfer(op))
            == conditional("str"@, condition, ""@ + "t"@, op.rd.name() + ", "@
            + indexed(op.rn, op.offset.assembly(op.add), op.offset
            == SingleOffset::Immediate(0), op.pre_indexed, op.writeback)),
        !op.load && !op.byte && (op.pre_indexed || !op.writeback)
            ==> shown(condition, ArmOperation::SingleTransfer(op))
            == conditional("str"@, condition, ""@ + ""@, op.rd.name() + ", "@
            + indexed(op.rn, op.offset.assembly(op.add), op.offset
            == SingleOffset::Immediate(0), op.pre_indexed, op.writeback)),
        !half.load && half.kind is UnsignedHalfword
            ==> shown(condition, ArmOperation::HalfwordTransfer(half))
            == conditional("str"@, condition, "h"@, half.rd.name() + ", "@
            + indexed(half.rn, half.offset.assembly(half.add), half.offset
            == HalfwordOffset::Immediate(0), half.pre_indexed, half.writeback)),
        !half.load && half.kind is SignedByte
            ==> shown(condition, ArmOperation::HalfwordTransfer(half))
            == conditional("str"@, condition, "sb"@, half.rd.name() + ", "@
            + indexed(half.rn, half.offset.assembly(half.add), half.offset
            == HalfwordOffset::Immediate(0), half.pre_indexed, half.writeback)),
        !half.load && half.kind is SignedHalfword
            ==> shown(condition, ArmOperation::HalfwordTransfer(half))
            == conditional("str"@, condition, "sh"@, half.rd.name() + ", "@
            + indexed(half.rn, half.offset.assembly(half.add), half.offset
            == HalfwordOffset::Immediate(0), half.pre_indexed, half.writeback)),
        double.store ==> shown(condition, ArmOperation::DoublewordTransfer(double))
            == conditional("strd"@, condition, ""@, double.rd.name() + ", "@
            + indexed(double.rn, double.offset.assembly(double.add), double.offset
            == HalfwordOffset::Immediate(0), double.pre_indexed, double.writeback)),
{
}

/// A magnitude: in decimal below ten, else in hexadecimal.
pub open spec fn magnitude(value: u32) -> Seq<char> {
    if value < 10 {
        ""@ + text::numeral(value as nat, 10)
    } else {
        "0x"@ + text::numeral(value as nat, 16)
    }
}

/// An offset shows its sign; a shifted register shows its shift unless that is none,
/// and the encoded zeros as what they mean.
pub proof fn operand_text(rm: Register, rs: Register, value: u16, small: u8)
    ensures
        SingleOffset::Immediate(value).assembly(true) == "#"@ + ""@ + magnitude(value as u32),
        SingleOffset::Immediate(value).assembly(false) == "#"@ + "-"@ + magnitude(value as u32),
        HalfwordOffset::Immediate(small).assembly(true) == "#"@ + ""@ + magnitude(small as u32),
        HalfwordOffset::Immediate(small).assembly(false) == "#"@ + "-"@ + magnitude(small as u32),
        HalfwordOffset::Register(rm).assembly(true) == ""@ + rm.name(),
        HalfwordOffset::Register(rm).assembly(false) == "-"@ + rm.name(),
        (Operand2::Register { rm, shift: Shift { kind: ShiftKind::Lsl,
            source: ShiftSource::Immediate(0) } }).assembly() == rm.name(),
        (Operand2::Register { rm, shift: Shift { kind: ShiftKind::Lsr,
            source: ShiftSource::Immediate(0) } }).assembly() == rm.name() + ", "@ + "lsr #32"@,
        (Operand2::Register { rm, shift: Shift { kind: ShiftKind::Asr,
            source: ShiftSource::Immediate(0) } }).assembly() == rm.name() + ", "@ + "asr #32"@,
        (Operand2::Register { rm, shift: Shift { kind: ShiftKind::Ror,
            source: ShiftSource::Immediate(0) } }).assembly() == rm.name() + ", "@ + "rrx"@,
        small != 0 ==> (Operand2::Register { rm, shift: Shift { kind: ShiftKind::Lsl,
            source: ShiftSource::Immediate(small) } }).assembly()
            == rm.name() + ", "@ + ("lsl"@ + " #"@ + text::numeral(small as nat, 10)),
        (Operand2::Register { rm, shift: Shift { kind: ShiftKind::Lsl,
            source: ShiftSource::Register(rs) } }).assembly()
            == rm.name() + ", "@ + ("lsl"@ + " "@ + rs.name()),
        small != 0 ==> (Operand2::Register { rm, shift: Shift { kind: ShiftKind::Lsr,
            source: ShiftSource::Immediate(small) } }).assembly()
            == rm.name() + ", "@ + ("lsr"@ + " #"@ + text::numeral(small as nat, 10)),
        (Operand2::Register { rm, shift: Shift { kind: ShiftKind::Lsr,
            source: ShiftSource::Register(rs) } }).assembly()
            == rm.name() + ", "@ + ("lsr"@ + " "@ + rs.name()),
        small != 0 ==> (Operand2::Register { rm, shift: Shift { kind: ShiftKind::Asr,
            source: ShiftSource::Immediate(small) } }).assembly()
            == rm.name() + ", "@ + ("asr"@ + " #"@ + text::numeral(small as nat, 10)),
        (Operand2::Register { rm, shift: Shift { kind: ShiftKind::Asr,
            source: ShiftSource::Register(rs) } }).assembly()
            == rm.name() + ", "@ + ("asr"@ + " "@ + rs.name()),
        small != 0 ==> (Operand2::Register { rm, shift: Shift { kind: ShiftKind::Ror,
            source: ShiftSource::Immediate(small) } }).assembly()
            == rm.name() + ", "@ + ("ror"@ + " #"@ + text::numeral(small as nat, 10)),
        (Operand2::Register { rm, shift: Shift { kind: ShiftKind::Ror,
            source: ShiftSource::Register(rs) } }).assembly()
            == rm.name() + ", "@ + ("ror"@ + " "@ + rs.name()),
{
}

/// A block transfer is shown with the direction in which it goes and whether before or
/// after each word; a branch with its displacement or its register.
pub proof fn block_and_branch_text(op: BlockTransfer, swap: Swap, branch: Branch,
    exchange: BranchExchange, label: BranchLinkExchange, swi: SoftwareInterrupt, mrs: Mrs,
    condition: Condition)
    ensures
        op.load && !op.pre_indexed && op.add ==> shown(condition,
            ArmOperation::BlockTransfer(op)) == conditional("ldm"@, condition, "ia"@,
            (op.rn.name() + (if op.writeback { "!"@ } else { ""@ })) + ", "@
            + (super::register_list_text(op.register_list)
            + (if op.psr_force_user { "^"@ } else { ""@ }))),
        op.load && op.pre_indexed && op.add ==> shown(condition, ArmOperation::BlockTransfer(op))
            == conditional("ldm"@, condition, "ib"@, (op.rn.name()
            + (if op.writeback { "!"@ } else { ""@ })) + ", "@
            + (super::register_list_text(op.register_list)
            + (if op.psr_force_user { "^"@ } else { ""@ }))),
        op.load && !op.pre_indexed && !op.add
            ==> shown(condition, ArmOperation::BlockTransfer(op))
            == conditional("ldm"@, condition, "da"@, (op.rn.name()
            + (if op.writeback { "!"@ } else { ""@ })) + ", "@
            + (super::register_list_text(op.register_list)
            + (if op.psr_force_user { "^"@ } else { ""@ }))),
        op.load && op.pre_indexed && !op.add ==> shown(condition,
            ArmOperation::BlockTransfer(op)) == conditional("ldm"@, condition, "db"@,
            (op.rn.name() + (if op.writeback { "!"@ } else { ""@ })) + ", "@
            + (super::register_list_text(op.register_list)
            + (if op.psr_force_user { "^"@ } else { ""@ }))),
        !op.load && !op.pre_indexed && op.add
            ==> shown(condition, ArmOperation::BlockTransfer(op))
            == conditional("stm"@, condition, "ia"@, (op.rn.name()
            + (if op.writeback { "!"@ } else { ""@ })) + ", "@
            + (super::register_list_text(op.register_list)
            + (if op.psr_force_user { "^"@ } else { ""@ }))),
        !op.load && op.pre_indexed && op.add ==> shown(condition,
            ArmOperation::BlockTransfer(op)) == conditional("stm"@, condition, "ib"@,
            (op.rn.name() + (if op.writeback { "!"@ } else { ""@ })) + ", "@
            + (super::register_list_text(op.register_list)
            + (if op.psr_force_user { "^"@ } else { ""@ }))),
        !op.load && !op.pre_indexed && !op.add
            ==> shown(condition, ArmOperation::BlockTransfer(op))
            == conditional("stm"@, condition, "da"@, (op.rn.name()
            + (if op.writeback { "!"@ } else { ""@ })) + ", "@
            + (super::register_list_text(op.register_list)
            + (if op.psr_force_user { "^"@ } else { ""@ }))),
        !op.load && op.pre_indexed && !op.add
            ==> shown(condition, ArmOperation::BlockTransfer(op))
            == conditional("stm"@, condition, "db"@, (op.rn.name()
            + (if op.writeback { "!"@ } else { ""@ })) + ", "@
            + (super::register_list_text(op.register_list)
            + (if op.psr_force_user { "^"@ } else { ""@ }))),
        swap.byte ==> shown(condition, ArmOperation::Swap(swap))
            == conditional("swp"@, condition, "b"@, swap.rd.name() + ", "@ + swap.rm.name()
            + ", "@ + ("["@ + swap.rn.name() + "]"@)),
        !swap.byte ==> shown(condition, ArmOperation::Swap(swap))
            == conditional("swp"@, condition, ""@, swap.rd.name() + ", "@ + swap.rm.name()
            + ", "@ + ("["@ + swap.rn.name() + "]"@)),
        !branch.link ==> shown(condition, ArmOperation::Branch(branch))
            == conditional("b"@, condition, ""@, "#"@
            + text::signed_decimal(branch.offset as int)),
        branch.link ==> shown(condition, ArmOperation::Branch(branch))
            == conditional("bl"@, condition, ""@, "#"@
            + text::signed_decimal(branch.offset as int)),
        !exchange.link ==> shown(condition, ArmOperation::BranchExchange(exchange))
            == conditional("bx"@, condition, ""@, exchange.rn.name()),
        exchange.link ==> shown(condition, ArmOperation::BranchExchange(exchange))
            == conditional("blx"@, condition, ""@, exchange.rn.name()),
        shown(condition, ArmOperation::BranchLinkExchange(label))
            == "blx\t#"@ + text::signed_decimal(label.offset as int),
        shown(condition, ArmOperation::SoftwareInterrupt(swi))
            == conditional("swi"@, condition, ""@, "#0x"@
            + text::numeral(swi.comment as nat, 16)),
        !mrs.source_spsr ==> shown(condition, ArmOperation::Mrs(mrs))
            == conditional("mrs"@, condition, ""@, mrs.rd.name() + ", "@ + "cpsr"@),
        mrs.source_spsr ==> shown(condition, ArmOperation::Mrs(mrs))
            == conditional("mrs"@, condition, ""@, mrs.rd.name() + ", "@ + "spsr"@),
{
}

/// A run of listed registers ends before the first that is not listed.
pub proof fn runs_are_unbroken(bits: u16, i: int, k: int)
    requires
        0 <= i < 16,
        bits & (1u16 << (i as u16)) != 0,
    ensures
        ({
            let end = super::run_end(bits, i);
            &&& i <= end < 16
            &&& i <= k <= end ==> bits & (1u16 << (k as u16)) != 0
            &&& end + 1 < 16 ==> bits & (1u16 << ((end + 1) as u16)) == 0
        }),
    decreases 16 - i,
{
    if i + 1 < 16 && bits & (1u16 << ((i + 1) as u16)) != 0 {
        runs_are_unbroken(bits, i + 1, k);
    }
}

/// A register list stands in braces, in ascending order: a single register by its name, two
/// neighbours with a comma between them, and three or more as the first and the last with
/// a hyphen.
pub proof fn register_lists(bits: u16, start: int, end: int)
    requires
        0 <= start <= end < 16,
    ensures
        ({
            let first = Register(start as u8).name();
            let last = Register(end as u8).name();
            &&& end == start ==> super::run_text(start, end) == first
            &&& end == start + 1 ==> super::run_text(start, end) == first + ", "@ + last
            &&& end > start + 1 ==> super::run_text(start, end) == first + "-"@ + last
        }),
        super::register_list_text(bits) == "{"@ + super::list_from(bits, 0, true) + "}"@,
        bits & (1u16 << (start as u16)) == 0 ==> super::list_from(bits, start, true)
            == super::list_from(bits, start + 1, true) && super::list_from(bits, start, false)
            == super::list_from(bits, start + 1, false),
        bits & (1u16 << (start as u16)) != 0 && super::run_end(bits, start) == end
            ==> super::list_from(bits, start, true) == super::run_text(start, end)
            + super::list_from(bits, end + 1, false) && super::list_from(bits, start, false)
            == ", "@ + super::run_text(start, end) + super::list_from(bits, end + 1, false),
        super::list_from(bits, 16, true).len() == 0 && super::list_from(bits, 16, false).len() == 0,
{
    reveal_strlit("");
    assert(""@ + super::run_text(start, end) =~= super::run_text(start, end));
}

} // verus!
