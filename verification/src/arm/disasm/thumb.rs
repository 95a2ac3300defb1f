//! Disassembly of decoded Thumb instructions.

use vstd::prelude::*;

use crate::arm::disasm::{condition_suffix, immediate, reg, register_list};
use crate::arm::instruction::thumb::{
    AddSubOperand, LoadAddressSource, ThumbAluOp, ThumbHiRegOp, ThumbImmediateOp,
    ThumbInstruction, ThumbShiftOp, ThumbSignExtendOp,
};
use crate::arm::register::Register;
use crate::text;

verus! {

/// `name\trd, rs`.
pub open spec fn two_registers(name: Seq<char>, rd: Register, rs: Register) -> Seq<char> {
    name + "\t"@ + rd.name() + ", "@ + rs.name()
}

fn two_registers_text(name: &str, rd: Register, rs: Register) -> (out: String)
    ensures
        out@ == two_registers(name@, rd, rs),
{
    let mut out = text::text(name);
    out.append("\t");
    out.append(reg(rd));
    out.append(", ");
    out.append(reg(rs));
    out
}

/// `name\trd, [rb, ro]`.
pub open spec fn register_offset(
    name: Seq<char>,
    rd: Register,
    rb: Register,
    ro: Register,
) -> Seq<char> {
    name + "\t"@ + rd.name() + ", ["@ + rb.name() + ", "@ + ro.name() + "]"@
}

fn register_offset_text(name: &str, rd: Register, rb: Register, ro: Register) -> (out: String)
    ensures
        out@ == register_offset(name@, rd, rb, ro),
{
    let mut out = text::text(name);
    out.append("\t");
    out.append(reg(rd));
    out.append(", [");
    out.append(reg(rb));
    out.append(", ");
    out.append(reg(ro));
    out.append("]");
    out
}

/// `[rb, #offset]`, a zero offset collapsed to `[rb]`.
pub open spec fn offset_address_text(rb: Register, offset: u32) -> Seq<char> {
    if offset == 0 {
        "["@ + rb.name() + "]"@
    } else {
        "["@ + rb.name() + ", "@ + super::immediate_text(offset) + "]"@
    }
}

/// Format `[rb, #offset]`, collapsing a zero offset to `[rb]`.
fn offset_address(rb: Register, offset: u32) -> (out: String)
    ensures
        out@ == offset_address_text(rb, offset),
{
    let mut out = text::text("[");
    out.append(reg(rb));
    if offset != 0 {
        out.append(", ");
        out.append(immediate(offset).as_str());
    }
    out.append("]");
    out
}

impl ThumbAluOp {
    /// The mnemonic of a format-4 operation.
    pub open spec fn mnemonic(self) -> Seq<char> {
        match self {
            ThumbAluOp::And => "and"@,
            ThumbAluOp::Eor => "eor"@,
            ThumbAluOp::Lsl => "lsl"@,
            ThumbAluOp::Lsr => "lsr"@,
            ThumbAluOp::Asr => "asr"@,
            ThumbAluOp::Adc => "adc"@,
            ThumbAluOp::Sbc => "sbc"@,
            ThumbAluOp::Ror => "ror"@,
            ThumbAluOp::Tst => "tst"@,
            ThumbAluOp::Neg => "neg"@,
            ThumbAluOp::Cmp => "cmp"@,
            ThumbAluOp::Cmn => "cmn"@,
            ThumbAluOp::Orr => "orr"@,
            ThumbAluOp::Mul => "mul"@,
            ThumbAluOp::Bic => "bic"@,
            ThumbAluOp::Mvn => "mvn"@,
        }
    }
}

fn thumb_alu_name(op: ThumbAluOp) -> (name: &'static str)
    ensures
        name@ == op.mnemonic(),
{
    match op {
        ThumbAluOp::And => "and",
        ThumbAluOp::Eor => "eor",
        ThumbAluOp::Lsl => "lsl",
        ThumbAluOp::Lsr => "lsr",
        ThumbAluOp::Asr => "asr",
        ThumbAluOp::Adc => "adc",
        ThumbAluOp::Sbc => "sbc",
        ThumbAluOp::Ror => "ror",
        ThumbAluOp::Tst => "tst",
        ThumbAluOp::Neg => "neg",
        ThumbAluOp::Cmp => "cmp",
        ThumbAluOp::Cmn => "cmn",
        ThumbAluOp::Orr => "orr",
        ThumbAluOp::Mul => "mul",
        ThumbAluOp::Bic => "bic",
        ThumbAluOp::Mvn => "mvn",
    }
}

/// The mnemonic of a word or byte transfer.
pub open spec fn load_store_mnemonic(load: bool, byte: bool) -> Seq<char> {
    match (load, byte) {
        (true, false) => "ldr"@,
        (true, true) => "ldrb"@,
        (false, false) => "str"@,
        (false, true) => "strb"@,
    }
}

fn load_store_name(load: bool, byte: bool) -> (name: &'static str)
    ensures
        name@ == load_store_mnemonic(load, byte),
{
    match (load, byte) {
        (true, false) => "ldr",
        (true, true) => "ldrb",
        (false, false) => "str",
        (false, true) => "strb",
    }
}

impl ThumbInstruction {
    /// The assembly text of an instruction.
    pub open spec fn assembly(self) -> Seq<char> {
        match self {
            ThumbInstruction::MoveShifted { op, amount, rs, rd } => {
                let name = match op {
                    ThumbShiftOp::Lsl => "lsl"@,
                    ThumbShiftOp::Lsr => "lsr"@,
                    ThumbShiftOp::Asr => "asr"@,
                };
                let shown: nat = if !(op is Lsl) && amount == 0 {
                    32
                } else {
                    amount as nat
                };
                two_registers(name, rd, rs) + ", #"@ + text::numeral(shown, 10)
            },
            ThumbInstruction::AddSubtract { subtract, operand, rs, rd } => two_registers(
                if subtract {
                    "sub"@
                } else {
                    "add"@
                },
                rd,
                rs,
            ) + ", "@ + (match operand {
                AddSubOperand::Register(rn) => rn.name(),
                AddSubOperand::Immediate(imm) => "#"@ + text::numeral(imm as nat, 10),
            }),
            ThumbInstruction::AluImmediate { op, rd, immediate } => (match op {
                ThumbImmediateOp::Mov => "mov"@,
                ThumbImmediateOp::Cmp => "cmp"@,
                ThumbImmediateOp::Add => "add"@,
                ThumbImmediateOp::Sub => "sub"@,
            }) + "\t"@ + rd.name() + ", "@ + super::immediate_text(immediate as u32),
            ThumbInstruction::AluOperation { op, rs, rd } => two_registers(op.mnemonic(), rd, rs),
            ThumbInstruction::HiRegister { op, rs, rd } => match op {
                ThumbHiRegOp::Bx => "bx\t"@ + rs.name(),
                ThumbHiRegOp::Add => two_registers("add"@, rd, rs),
                ThumbHiRegOp::Cmp => two_registers("cmp"@, rd, rs),
                ThumbHiRegOp::Mov => two_registers("mov"@, rd, rs),
            },
            ThumbInstruction::PcRelativeLoad { rd, word8 } => "ldr\t"@ + rd.name() + ", [pc, "@
                + super::immediate_text((word8 * 4) as u32) + "]"@,
            ThumbInstruction::LoadStoreRegister { load, byte, ro, rb, rd } => register_offset(
                load_store_mnemonic(load, byte),
                rd,
                rb,
                ro,
            ),
            ThumbInstruction::LoadStoreSignExtended { op, ro, rb, rd } => register_offset(
                match op {
                    ThumbSignExtendOp::StoreHalfword => "strh"@,
                    ThumbSignExtendOp::LoadHalfword => "ldrh"@,
                    ThumbSignExtendOp::LoadSignedByte => "ldrsb"@,
                    ThumbSignExtendOp::LoadSignedHalfword => "ldrsh"@,
                },
                rd,
                rb,
                ro,
            ),
            ThumbInstruction::LoadStoreImmediate { load, byte, offset, rb, rd } =>
                load_store_mnemonic(load, byte) + "\t"@ + rd.name() + ", "@ + offset_address_text(
                rb,
                if byte {
                    offset as u32
                } else {
                    (offset * 4) as u32
                },
            ),
            ThumbInstruction::LoadStoreHalfword { load, offset, rb, rd } => (if load {
                "ldrh"@
            } else {
                "strh"@
            }) + "\t"@ + rd.name() + ", "@ + offset_address_text(rb, (offset * 2) as u32),
            ThumbInstruction::SpRelativeLoadStore { load, rd, word8 } => (if load {
                "ldr"@
            } else {
                "str"@
            }) + "\t"@ + rd.name() + ", [sp, "@ + super::immediate_text((word8 * 4) as u32) + "]"@,
            ThumbInstruction::LoadAddress { source, rd, word8 } => "add\t"@ + rd.name() + (
            match source {
                LoadAddressSource::Pc => ", pc, "@,
                LoadAddressSource::Sp => ", sp, "@,
            }) + super::immediate_text((word8 * 4) as u32),
            ThumbInstruction::AdjustStackPointer { subtract, word7 } => (if subtract {
                "sub\tsp, "@
            } else {
                "add\tsp, "@
            }) + super::immediate_text((word7 * 4) as u32),
            ThumbInstruction::PushPop { pop, include_pc_lr, register_list } => (if pop {
                "pop\t"@
            } else {
                "push\t"@
            }) + super::register_list_text(
                register_list as u16 | (if !include_pc_lr {
                    0u16
                } else if pop {
                    0x8000u16
                } else {
                    0x4000u16
                }),
            ),
            ThumbInstruction::BlockTransfer { load, rb, register_list } => (if load {
                "ldmia\t"@
            } else {
                "stmia\t"@
            }) + rb.name() + "!, "@ + super::register_list_text(register_list as u16),
            ThumbInstruction::ConditionalBranch { condition, offset } => "b"@ + condition.suffix()
                + "\t#"@ + text::signed_decimal(offset as int),
            ThumbInstruction::SoftwareInterrupt { comment } => "swi\t#0x"@ + text::numeral(
                comment as nat,
                16,
            ),
            ThumbInstruction::Branch { offset } => "b\t#"@ + text::signed_decimal(offset as int),
            ThumbInstruction::LongBranchLink { second_half, exchange, offset } => (if exchange {
                "blx\t("@
            } else {
                "bl\t("@
            }) + (if second_half {
                "low"@
            } else {
                "high"@
            }) + ") #0x"@ + text::padded_hex(offset as nat, 3),
            ThumbInstruction::Undefined { raw } => ".hword\t0x"@ + text::padded_hex(
                raw as nat,
                4,
            ),
        }
    }
}

/// Render a decoded Thumb instruction as assembly text.
pub fn format_thumb(inst: &ThumbInstruction) -> (out: String)
    ensures
        out@ == inst.assembly(),
{
    match inst {
        ThumbInstruction::MoveShifted { op, amount, rs, rd } => {
            let name = match op {
                ThumbShiftOp::Lsl => "lsl",
                ThumbShiftOp::Lsr => "lsr",
                ThumbShiftOp::Asr => "asr",
            };
            // For LSR/ASR the encoded amount 0 means 32; LSL keeps 0 as-is.
            let shown: u32 = if !matches!(op, ThumbShiftOp::Lsl) && *amount == 0 {
                32
            } else {
                *amount as u32
            };
            let mut out = two_registers_text(name, *rd, *rs);
            out.append(", #");
            out.append(text::decimal(shown).as_str());
            out
        },
        ThumbInstruction::AddSubtract { subtract, operand, rs, rd } => {
            let name = if *subtract {
                "sub"
            } else {
                "add"
            };
            let mut out = two_registers_text(name, *rd, *rs);
            out.append(", ");
            match operand {
                AddSubOperand::Register(rn) => {
                    out.append(reg(*rn));
                },
                AddSubOperand::Immediate(imm) => {
                    let mut shown = text::text("#");
                    shown.append(text::decimal(*imm as u32).as_str());
                    out.append(shown.as_str());
                },
            }
            out
        },
        ThumbInstruction::AluImmediate { op, rd, immediate: imm } => {
            let mut out = text::text(
                match op {
                    ThumbImmediateOp::Mov => "mov",
                    ThumbImmediateOp::Cmp => "cmp",
                    ThumbImmediateOp::Add => "add",
                    ThumbImmediateOp::Sub => "sub",
                },
            );
            out.append("\t");
            out.append(reg(*rd));
            out.append(", ");
            out.append(immediate(*imm as u32).as_str());
            out
        },
        ThumbInstruction::AluOperation { op, rs, rd } => two_registers_text(
            thumb_alu_name(*op),
            *rd,
            *rs,
        ),
        ThumbInstruction::HiRegister { op, rs, rd } => match op {
            ThumbHiRegOp::Bx => {
                let mut out = text::text("bx\t");
                out.append(reg(*rs));
                out
            },
            ThumbHiRegOp::Add => two_registers_text("add", *rd, *rs),
            ThumbHiRegOp::Cmp => two_registers_text("cmp", *rd, *rs),
            ThumbHiRegOp::Mov => two_registers_text("mov", *rd, *rs),
        },
        ThumbInstruction::PcRelativeLoad { rd, word8 } => {
            let mut out = text::text("ldr\t");
            out.append(reg(*rd));
            out.append(", [pc, ");
            out.append(immediate(*word8 as u32 * 4).as_str());
            out.append("]");
            out
        },
        ThumbInstruction::LoadStoreRegister { load, byte, ro, rb, rd } => register_offset_text(
            load_store_name(*load, *byte),
            *rd,
            *rb,
            *ro,
        ),
        ThumbInstruction::LoadStoreSignExtended { op, ro, rb, rd } => {
            let name = match op {
                ThumbSignExtendOp::StoreHalfword => "strh",
                ThumbSignExtendOp::LoadHalfword => "ldrh",
                ThumbSignExtendOp::LoadSignedByte => "ldrsb",
                ThumbSignExtendOp::LoadSignedHalfword => "ldrsh",
            };
            register_offset_text(name, *rd, *rb, *ro)
        },
        ThumbInstruction::LoadStoreImmediate { load, byte, offset, rb, rd } => {
            let scaled: u32 = if *byte {
                *offset as u32
            } else {
                *offset as u32 * 4
            };
            let mut out = text::text(load_store_name(*load, *byte));
            out.append("\t");
            out.append(reg(*rd));
            out.append(", ");
            out.append(offset_address(*rb, scaled).as_str());
            out
        },
        ThumbInstruction::LoadStoreHalfword { load, offset, rb, rd } => {
            let mut out = text::text(
                if *load {
                    "ldrh"
                } else {
                    "strh"
                },
            );
            out.append("\t");
            out.append(reg(*rd));
            out.append(", ");
            out.append(offset_address(*rb, *offset as u32 * 2).as_str());
            out
        },
        ThumbInstruction::SpRelativeLoadStore { load, rd, word8 } => {
            let mut out = text::text(
                if *load {
                    "ldr"
                } else {
                    "str"
                },
            );
            out.append("\t");
            out.append(reg(*rd));
            out.append(", [sp, ");
            out.append(immediate(*word8 as u32 * 4).as_str());
            out.append("]");
            out
        },
        ThumbInstruction::LoadAddress { source, rd, word8 } => {
            let mut out = text::text("add\t");
            out.append(reg(*rd));
            out.append(
                match source {
                    LoadAddressSource::Pc => ", pc, ",
                    LoadAddressSource::Sp => ", sp, ",
                },
            );
            out.append(immediate(*word8 as u32 * 4).as_str());
            out
        },
        ThumbInstruction::AdjustStackPointer { subtract, word7 } => {
            let mut out = text::text(
                if *subtract {
                    "sub\tsp, "
                } else {
                    "add\tsp, "
                },
            );
            out.append(immediate(*word7 as u32 * 4).as_str());
            out
        },
        ThumbInstruction::PushPop { pop, include_pc_lr, register_list: list } => {
            let mut out = text::text(
                if *pop {
                    "pop\t"
                } else {
                    "push\t"
                },
            );
            // The R bit adds LR when pushing, PC when popping.
            let extra: u16 = if !*include_pc_lr {
                0
            } else if *pop {
                0x8000
            } else {
                0x4000
            };
            out.append(register_list(*list as u16 | extra).as_str());
            out
        },
        ThumbInstruction::BlockTransfer { load, rb, register_list: list } => {
            let mut out = text::text(
                if *load {
                    "ldmia\t"
                } else {
                    "stmia\t"
                },
            );
            out.append(reg(*rb));
            out.append("!, ");
            out.append(register_list(*list as u16).as_str());
            out
        },
        ThumbInstruction::ConditionalBranch { condition, offset } => {
            let mut out = text::text("b");
            out.append(condition_suffix(*condition));
            out.append("\t#");
            out.append(text::decimal_signed(*offset).as_str());
            out
        },
        ThumbInstruction::SoftwareInterrupt { comment } => {
            let mut out = text::text("swi\t#0x");
            out.append(text::hex(*comment as u32).as_str());
            out
        },
        ThumbInstruction::Branch { offset } => {
            let mut out = text::text("b\t#");
            out.append(text::decimal_signed(*offset).as_str());
            out
        },
        ThumbInstruction::LongBranchLink { second_half, exchange, offset } => {
            // Each halfword is shown on its own; a PC-aware caller combines the
            // two into a single resolved `bl`/`blx <target>`.
            let mut out = text::text(
                if *exchange {
                    "blx\t("
                } else {
                    "bl\t("
                },
            );
            out.append(
                if *second_half {
                    "low"
                } else {
                    "high"
                },
            );
            out.append(") #0x");
            out.append(text::hex_padded(*offset as u32, 3).as_str());
            out
        },
        ThumbInstruction::Undefined { raw } => {
            let mut out = text::text(".hword\t0x");
            out.append(text::hex_padded(*raw as u32, 4).as_str());
            out
        },
    }
}

} // verus!
