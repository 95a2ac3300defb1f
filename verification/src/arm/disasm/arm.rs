//! Disassembly of decoded ARM instructions.

use vstd::prelude::*;

use crate::arm::disasm::{
    condition_suffix, immediate, reg, register_list, sign, signed_immediate,
};
use crate::arm::instruction::arm::{
    ArmInstruction, ArmOperation, BlockTransfer, Branch, BranchExchange,
    CoprocessorRegisterTransfer, DataProcessing, DataProcessingOpcode, DoublewordTransfer,
    DspMulOp, HalfwordKind, HalfwordMultiply, HalfwordOffset, HalfwordTransfer, Mrs, Msr,
    MsrSource, Multiply, MultiplyLong, Operand2, SaturatingArithmetic, SaturatingOp, Shift,
    ShiftKind, ShiftSource, SingleOffset, SingleTransfer, SoftwareInterrupt, Swap,
};
use crate::arm::register::Register;
use crate::bits;
use crate::text;

verus! {

/// `mnemonic{cond}{suffix}`, a tab, and the operands.
pub open spec fn line(
    mnemonic: Seq<char>,
    cond: Seq<char>,
    suffix: Seq<char>,
    operands: Seq<char>,
) -> Seq<char> {
    mnemonic + cond + suffix + "\t"@ + operands
}

fn line_text(mnemonic: &str, cond: &str, suffix: &str, operands: &str) -> (out: String)
    ensures
        out@ == line(mnemonic@, cond@, suffix@, operands@),
{
    let mut out = text::text(mnemonic);
    out.append(cond);
    out.append(suffix);
    out.append("\t");
    out.append(operands);
    out
}

/// Two operands, comma-separated.
pub open spec fn pair(a: Seq<char>, b: Seq<char>) -> Seq<char> {
    a + ", "@ + b
}

fn pair_text(a: &str, b: &str) -> (out: String)
    ensures
        out@ == pair(a@, b@),
{
    let mut out = text::text(a);
    out.append(", ");
    out.append(b);
    out
}

/// Three registers, comma-separated.
pub open spec fn three(a: Register, b: Register, c: Register) -> Seq<char> {
    pair(pair(a.name(), b.name()), c.name())
}

fn three_text(a: Register, b: Register, c: Register) -> (out: String)
    ensures
        out@ == three(a, b, c),
{
    pair_text(pair_text(reg(a), reg(b)).as_str(), reg(c))
}

/// Four registers, comma-separated.
pub open spec fn four(a: Register, b: Register, c: Register, d: Register) -> Seq<char> {
    pair(three(a, b, c), d.name())
}

fn four_text(a: Register, b: Register, c: Register, d: Register) -> (out: String)
    ensures
        out@ == four(a, b, c, d),
{
    pair_text(three_text(a, b, c).as_str(), reg(d))
}

/// `on` where `shown`, else nothing.
pub open spec fn optional(shown: bool, on: Seq<char>) -> Seq<char> {
    if shown {
        on
    } else {
        ""@
    }
}

fn optional_text<'a>(shown: bool, on: &'a str) -> (s: &'a str)
    ensures
        s@ == optional(shown, on@),
{
    if shown {
        on
    } else {
        ""
    }
}

impl DataProcessingOpcode {
    /// The mnemonic of an opcode.
    pub open spec fn mnemonic(self) -> Seq<char> {
        match self {
            DataProcessingOpcode::And => "and"@,
            DataProcessingOpcode::Eor => "eor"@,
            DataProcessingOpcode::Sub => "sub"@,
            DataProcessingOpcode::Rsb => "rsb"@,
            DataProcessingOpcode::Add => "add"@,
            DataProcessingOpcode::Adc => "adc"@,
            DataProcessingOpcode::Sbc => "sbc"@,
            DataProcessingOpcode::Rsc => "rsc"@,
            DataProcessingOpcode::Tst => "tst"@,
            DataProcessingOpcode::Teq => "teq"@,
            DataProcessingOpcode::Cmp => "cmp"@,
            DataProcessingOpcode::Cmn => "cmn"@,
            DataProcessingOpcode::Orr => "orr"@,
            DataProcessingOpcode::Mov => "mov"@,
            DataProcessingOpcode::Bic => "bic"@,
            DataProcessingOpcode::Mvn => "mvn"@,
        }
    }
}

fn dp_mnemonic(opcode: DataProcessingOpcode) -> (name: &'static str)
    ensures
        name@ == opcode.mnemonic(),
{
    match opcode {
        DataProcessingOpcode::And => "and",
        DataProcessingOpcode::Eor => "eor",
        DataProcessingOpcode::Sub => "sub",
        DataProcessingOpcode::Rsb => "rsb",
        DataProcessingOpcode::Add => "add",
        DataProcessingOpcode::Adc => "adc",
        DataProcessingOpcode::Sbc => "sbc",
        DataProcessingOpcode::Rsc => "rsc",
        DataProcessingOpcode::Tst => "tst",
        DataProcessingOpcode::Teq => "teq",
        DataProcessingOpcode::Cmp => "cmp",
        DataProcessingOpcode::Cmn => "cmn",
        DataProcessingOpcode::Orr => "orr",
        DataProcessingOpcode::Mov => "mov",
        DataProcessingOpcode::Bic => "bic",
        DataProcessingOpcode::Mvn => "mvn",
    }
}

impl ShiftKind {
    /// The mnemonic of a shift.
    pub open spec fn mnemonic(self) -> Seq<char> {
        match self {
            ShiftKind::Lsl => "lsl"@,
            ShiftKind::Lsr => "lsr"@,
            ShiftKind::Asr => "asr"@,
            ShiftKind::Ror => "ror"@,
        }
    }
}

fn shift_name(kind: ShiftKind) -> (name: &'static str)
    ensures
        name@ == kind.mnemonic(),
{
    match kind {
        ShiftKind::Lsl => "lsl",
        ShiftKind::Lsr => "lsr",
        ShiftKind::Asr => "asr",
        ShiftKind::Ror => "ror",
    }
}

impl Shift {
    /// A barrel shift as shown, or `None` when there is nothing to show
    /// (`LSL #0`). `LSR`/`ASR #0` mean `#32`, and `ROR #0` is `RRX`.
    pub open spec fn assembly(self) -> Option<Seq<char>> {
        match self.source {
            ShiftSource::Immediate(0) => match self.kind {
                ShiftKind::Lsl => None,
                ShiftKind::Lsr => Some("lsr #32"@),
                ShiftKind::Asr => Some("asr #32"@),
                ShiftKind::Ror => Some("rrx"@),
            },
            ShiftSource::Immediate(amount) => Some(
                self.kind.mnemonic() + " #"@ + text::numeral(amount as nat, 10),
            ),
            ShiftSource::Register(rs) => Some(self.kind.mnemonic() + " "@ + rs.name()),
        }
    }

    /// A register with its shift, where there is one to show.
    pub open spec fn applied(self, register: Seq<char>) -> Seq<char> {
        match self.assembly() {
            Some(shown) => pair(register, shown),
            None => register,
        }
    }
}

/// Format a barrel-shift, or `None` when there is nothing to show (`LSL #0`).
/// The special encodings surface here: `LSR`/`ASR #0` mean `#32`, and `ROR #0`
/// is `RRX`.
fn format_shift(shift: &Shift) -> (out: Option<String>)
    ensures
        match out {
            Some(shown) => shift.assembly() == Some(shown@),
            None => shift.assembly() is None,
        },
{
    match shift.source {
        ShiftSource::Immediate(amount) => if amount == 0 {
            match shift.kind {
                ShiftKind::Lsl => None,
                ShiftKind::Lsr => Some(text::text("lsr #32")),
                ShiftKind::Asr => Some(text::text("asr #32")),
                ShiftKind::Ror => Some(text::text("rrx")),
            }
        } else {
            let mut out = text::text(shift_name(shift.kind));
            out.append(" #");
            out.append(text::decimal(amount as u32).as_str());
            Some(out)
        },
        ShiftSource::Register(rs) => {
            let mut out = text::text(shift_name(shift.kind));
            out.append(" ");
            out.append(reg(rs));
            Some(out)
        },
    }
}

fn format_shifted(register: &str, shift: &Shift) -> (out: String)
    ensures
        out@ == shift.applied(register@),
{
    match format_shift(shift) {
        Some(shown) => pair_text(register, shown.as_str()),
        None => text::text(register),
    }
}

impl Operand2 {
    /// The flexible second operand as shown.
    pub open spec fn assembly(self) -> Seq<char> {
        match self {
            Operand2::Immediate { value, rotate } => super::immediate_text(
                bits::rotated_right(value as u32, (rotate * 2) as u32),
            ),
            Operand2::Register { rm, shift } => shift.applied(rm.name()),
        }
    }
}

fn format_operand2(operand2: &Operand2) -> (out: String)
    ensures
        out@ == operand2.assembly(),
{
    match operand2 {
        Operand2::Immediate { value, rotate } => immediate(
            bits::rotate_right(*value as u32, *rotate as u32 * 2),
        ),
        Operand2::Register { rm, shift } => format_shifted(reg(*rm), shift),
    }
}

impl DataProcessing {
    /// Comparisons take no destination and always set flags; moves take no first
    /// operand.
    pub open spec fn assembly(self, cond: Seq<char>) -> Seq<char> {
        let name = self.opcode.mnemonic();
        let operand2 = self.operand2.assembly();
        if self.opcode.is_comparison() {
            line(name, cond, ""@, pair(self.rn.name(), operand2))
        } else {
            line(
                name,
                cond,
                optional(self.set_flags, "s"@),
                if self.opcode is Mov || self.opcode is Mvn {
                    pair(self.rd.name(), operand2)
                } else {
                    pair(pair(self.rd.name(), self.rn.name()), operand2)
                },
            )
        }
    }
}

fn format_data_processing(op: &DataProcessing, cond: &str) -> (out: String)
    ensures
        out@ == op.assembly(cond@),
{
    let mnem = dp_mnemonic(op.opcode);
    let operand2 = format_operand2(&op.operand2);
    if op.opcode.is_comparison() {
        line_text(mnem, cond, "", pair_text(reg(op.rn), operand2.as_str()).as_str())
    } else {
        let s = optional_text(op.set_flags, "s");
        let operands = if matches!(
            op.opcode,
            DataProcessingOpcode::Mov | DataProcessingOpcode::Mvn
        ) {
            pair_text(reg(op.rd), operand2.as_str())
        } else {
            pair_text(pair_text(reg(op.rd), reg(op.rn)).as_str(), operand2.as_str())
        };
        line_text(mnem, cond, s, operands.as_str())
    }
}

impl Multiply {
    /// `MUL`/`MLA` as shown.
    pub open spec fn assembly(self, cond: Seq<char>) -> Seq<char> {
        let s = optional(self.set_flags, "s"@);
        if self.accumulate {
            line("mla"@, cond, s, four(self.rd, self.rm, self.rs, self.rn))
        } else {
            line("mul"@, cond, s, three(self.rd, self.rm, self.rs))
        }
    }
}

fn format_multiply(op: &Multiply, cond: &str) -> (out: String)
    ensures
        out@ == op.assembly(cond@),
{
    let s = optional_text(op.set_flags, "s");
    if op.accumulate {
        line_text("mla", cond, s, four_text(op.rd, op.rm, op.rs, op.rn).as_str())
    } else {
        line_text("mul", cond, s, three_text(op.rd, op.rm, op.rs).as_str())
    }
}

impl MultiplyLong {
    /// The long multiplies as shown.
    pub open spec fn assembly(self, cond: Seq<char>) -> Seq<char> {
        line(
            match (self.signed, self.accumulate) {
                (false, false) => "umull"@,
                (false, true) => "umlal"@,
                (true, false) => "smull"@,
                (true, true) => "smlal"@,
            },
            cond,
            optional(self.set_flags, "s"@),
            four(self.rd_lo, self.rd_hi, self.rm, self.rs),
        )
    }
}

fn format_multiply_long(op: &MultiplyLong, cond: &str) -> (out: String)
    ensures
        out@ == op.assembly(cond@),
{
    let mnem = match (op.signed, op.accumulate) {
        (false, false) => "umull",
        (false, true) => "umlal",
        (true, false) => "smull",
        (true, true) => "smlal",
    };
    let s = optional_text(op.set_flags, "s");
    line_text(mnem, cond, s, four_text(op.rd_lo, op.rd_hi, op.rm, op.rs).as_str())
}

impl SaturatingArithmetic {
    /// The saturating operations as shown.
    pub open spec fn assembly(self, cond: Seq<char>) -> Seq<char> {
        line(
            match self.op {
                SaturatingOp::QAdd => "qadd"@,
                SaturatingOp::QSub => "qsub"@,
                SaturatingOp::QDAdd => "qdadd"@,
                SaturatingOp::QDSub => "qdsub"@,
            },
            cond,
            ""@,
            three(self.rd, self.rm, self.rn),
        )
    }
}

fn format_saturating(op: &SaturatingArithmetic, cond: &str) -> (out: String)
    ensures
        out@ == op.assembly(cond@),
{
    let mnem = match op.op {
        SaturatingOp::QAdd => "qadd",
        SaturatingOp::QSub => "qsub",
        SaturatingOp::QDAdd => "qdadd",
        SaturatingOp::QDSub => "qdsub",
    };
    line_text(mnem, cond, "", three_text(op.rd, op.rm, op.rn).as_str())
}

/// `t` or `b`: which half of a register a DSP multiply uses.
pub open spec fn half_letter(top: bool) -> Seq<char> {
    if top {
        "t"@
    } else {
        "b"@
    }
}

fn half_letter_text(top: bool) -> (s: &'static str)
    ensures
        s@ == half_letter(top),
{
    if top {
        "t"
    } else {
        "b"
    }
}

impl HalfwordMultiply {
    /// The DSP multiplies as shown.
    pub open spec fn assembly(self, cond: Seq<char>) -> Seq<char> {
        let x = half_letter(self.x);
        let y = half_letter(self.y);
        match self.op {
            DspMulOp::SmulXY => line("smul"@ + x + y, cond, ""@, three(self.rd, self.rm, self.rs)),
            DspMulOp::SmlaXY => line(
                "smla"@ + x + y,
                cond,
                ""@,
                four(self.rd, self.rm, self.rs, self.rn),
            ),
            DspMulOp::SmulWY => line("smulw"@ + y, cond, ""@, three(self.rd, self.rm, self.rs)),
            DspMulOp::SmlaWY => line(
                "smlaw"@ + y,
                cond,
                ""@,
                four(self.rd, self.rm, self.rs, self.rn),
            ),
            DspMulOp::SmlalXY => line(
                "smlal"@ + x + y,
                cond,
                ""@,
                four(self.rn, self.rd, self.rm, self.rs),
            ),
        }
    }
}

fn format_halfword_multiply(op: &HalfwordMultiply, cond: &str) -> (out: String)
    ensures
        out@ == op.assembly(cond@),
{
    let x = half_letter_text(op.x);
    let y = half_letter_text(op.y);
    match op.op {
        DspMulOp::SmulXY => {
            let mut mnem = text::text("smul");
            mnem.append(x);
            mnem.append(y);
            line_text(mnem.as_str(), cond, "", three_text(op.rd, op.rm, op.rs).as_str())
        },
        DspMulOp::SmlaXY => {
            let mut mnem = text::text("smla");
            mnem.append(x);
            mnem.append(y);
            line_text(mnem.as_str(), cond, "", four_text(op.rd, op.rm, op.rs, op.rn).as_str())
        },
        DspMulOp::SmulWY => {
            let mut mnem = text::text("smulw");
            mnem.append(y);
            line_text(mnem.as_str(), cond, "", three_text(op.rd, op.rm, op.rs).as_str())
        },
        DspMulOp::SmlaWY => {
            let mut mnem = text::text("smlaw");
            mnem.append(y);
            line_text(mnem.as_str(), cond, "", four_text(op.rd, op.rm, op.rs, op.rn).as_str())
        },
        DspMulOp::SmlalXY => {
            let mut mnem = text::text("smlal");
            mnem.append(x);
            mnem.append(y);
            line_text(mnem.as_str(), cond, "", four_text(op.rn, op.rd, op.rm, op.rs).as_str())
        },
    }
}

/// An address operand: `[rn]`, `[rn, offset]`, `[rn, offset]!` or, post-indexed,
/// `[rn], offset`.
pub open spec fn address(
    rn: Register,
    offset: Seq<char>,
    zero_offset: bool,
    pre_indexed: bool,
    writeback: bool,
) -> Seq<char> {
    if !pre_indexed {
        "["@ + rn.name() + "], "@ + offset
    } else if zero_offset && !writeback {
        "["@ + rn.name() + "]"@
    } else {
        "["@ + rn.name() + ", "@ + offset + "]"@ + optional(writeback, "!"@)
    }
}

fn format_address(
    rn: Register,
    offset: &str,
    zero_offset: bool,
    pre_indexed: bool,
    writeback: bool,
) -> (out: String)
    ensures
        out@ == address(rn, offset@, zero_offset, pre_indexed, writeback),
{
    let mut out = text::text("[");
    out.append(reg(rn));
    if !pre_indexed {
        // Post-indexed always writes back, so the `!` is implicit.
        out.append("], ");
        out.append(offset);
    } else if zero_offset && !writeback {
        out.append("]");
    } else {
        out.append(", ");
        out.append(offset);
        out.append("]");
        out.append(optional_text(writeback, "!"));
    }
    out
}

/// `ldr` or `str`.
pub open spec fn ldr_str(load: bool) -> Seq<char> {
    if load {
        "ldr"@
    } else {
        "str"@
    }
}

fn ldr_str_text(load: bool) -> (s: &'static str)
    ensures
        s@ == ldr_str(load),
{
    if load {
        "ldr"
    } else {
        "str"
    }
}

impl SingleOffset {
    /// The offset of a single transfer as shown.
    pub open spec fn assembly(self, add: bool) -> Seq<char> {
        match self {
            SingleOffset::Immediate(imm) => super::signed_immediate_text(imm as u32, add),
            SingleOffset::Register { rm, shift } => shift.applied(
                super::sign_text(add) + rm.name(),
            ),
        }
    }
}

impl SingleTransfer {
    /// Post-indexed with writeback is the translated (user-mode) `T` variant.
    pub open spec fn assembly(self, cond: Seq<char>) -> Seq<char> {
        line(
            ldr_str(self.load),
            cond,
            optional(self.byte, "b"@) + optional(!self.pre_indexed && self.writeback, "t"@),
            pair(
                self.rd.name(),
                address(
                    self.rn,
                    self.offset.assembly(self.add),
                    self.offset == SingleOffset::Immediate(0),
                    self.pre_indexed,
                    self.writeback,
                ),
            ),
        )
    }
}

fn format_single_transfer(op: &SingleTransfer, cond: &str) -> (out: String)
    ensures
        out@ == op.assembly(cond@),
{
    let mut suffix = text::text(optional_text(op.byte, "b"));
    suffix.append(optional_text(!op.pre_indexed && op.writeback, "t"));
    let operands = pair_text(reg(op.rd), format_single_address(op).as_str());
    line_text(ldr_str_text(op.load), cond, suffix.as_str(), operands.as_str())
}

fn format_single_address(op: &SingleTransfer) -> (out: String)
    ensures
        out@ == address(
            op.rn,
            op.offset.assembly(op.add),
            op.offset == SingleOffset::Immediate(0),
            op.pre_indexed,
            op.writeback,
        ),
{
    let zero_offset = matches!(op.offset, SingleOffset::Immediate(0));
    let offset = format_single_offset(&op.offset, op.add);
    format_address(op.rn, offset.as_str(), zero_offset, op.pre_indexed, op.writeback)
}

fn format_single_offset(offset: &SingleOffset, add: bool) -> (out: String)
    ensures
        out@ == offset.assembly(add),
{
    match offset {
        SingleOffset::Immediate(imm) => signed_immediate(*imm as u32, add),
        SingleOffset::Register { rm, shift } => {
            let mut base = text::text(sign(add));
            base.append(reg(*rm));
            format_shifted(base.as_str(), shift)
        },
    }
}

impl HalfwordOffset {
    /// The offset of an extra load/store as shown.
    pub open spec fn assembly(self, add: bool) -> Seq<char> {
        match self {
            HalfwordOffset::Immediate(imm) => super::signed_immediate_text(imm as u32, add),
            HalfwordOffset::Register(rm) => super::sign_text(add) + rm.name(),
        }
    }
}

fn format_halfword_offset(offset: &HalfwordOffset, add: bool) -> (out: String)
    ensures
        out@ == offset.assembly(add),
{
    match offset {
        HalfwordOffset::Immediate(imm) => signed_immediate(*imm as u32, add),
        HalfwordOffset::Register(rm) => {
            let mut out = text::text(sign(add));
            out.append(reg(*rm));
            out
        },
    }
}

impl HalfwordTransfer {
    /// The halfword and signed transfers as shown.
    pub open spec fn assembly(self, cond: Seq<char>) -> Seq<char> {
        line(
            ldr_str(self.load),
            cond,
            match self.kind {
                HalfwordKind::UnsignedHalfword => "h"@,
                HalfwordKind::SignedByte => "sb"@,
                HalfwordKind::SignedHalfword => "sh"@,
            },
            pair(
                self.rd.name(),
                address(
                    self.rn,
                    self.offset.assembly(self.add),
                    self.offset == HalfwordOffset::Immediate(0),
                    self.pre_indexed,
                    self.writeback,
                ),
            ),
        )
    }
}

fn format_halfword_transfer(op: &HalfwordTransfer, cond: &str) -> (out: String)
    ensures
        out@ == op.assembly(cond@),
{
    let kind = match op.kind {
        HalfwordKind::UnsignedHalfword => "h",
        HalfwordKind::SignedByte => "sb",
        HalfwordKind::SignedHalfword => "sh",
    };
    let zero_offset = matches!(op.offset, HalfwordOffset::Immediate(0));
    let offset = format_halfword_offset(&op.offset, op.add);
    let place = format_address(
        op.rn,
        offset.as_str(),
        zero_offset,
        op.pre_indexed,
        op.writeback,
    );
    let operands = pair_text(reg(op.rd), place.as_str());
    line_text(ldr_str_text(op.load), cond, kind, operands.as_str())
}

impl DoublewordTransfer {
    /// `LDRD`/`STRD` as shown.
    pub open spec fn assembly(self, cond: Seq<char>) -> Seq<char> {
        line(
            if self.store {
                "strd"@
            } else {
                "ldrd"@
            },
            cond,
            ""@,
            pair(
                self.rd.name(),
                address(
                    self.rn,
                    self.offset.assembly(self.add),
                    self.offset == HalfwordOffset::Immediate(0),
                    self.pre_indexed,
                    self.writeback,
                ),
            ),
        )
    }
}

fn format_doubleword_transfer(op: &DoublewordTransfer, cond: &str) -> (out: String)
    ensures
        out@ == op.assembly(cond@),
{
    let ldst = if op.store {
        "strd"
    } else {
        "ldrd"
    };
    let zero_offset = matches!(op.offset, HalfwordOffset::Immediate(0));
    let offset = format_halfword_offset(&op.offset, op.add);
    let place = format_address(
        op.rn,
        offset.as_str(),
        zero_offset,
        op.pre_indexed,
        op.writeback,
    );
    let operands = pair_text(reg(op.rd), place.as_str());
    line_text(ldst, cond, "", operands.as_str())
}

impl BlockTransfer {
    /// `LDM`/`STM` as shown.
    pub open spec fn assembly(self, cond: Seq<char>) -> Seq<char> {
        line(
            if self.load {
                "ldm"@
            } else {
                "stm"@
            },
            cond,
            match (self.pre_indexed, self.add) {
                (false, true) => "ia"@,
                (true, true) => "ib"@,
                (false, false) => "da"@,
                (true, false) => "db"@,
            },
            pair(
                self.rn.name() + optional(self.writeback, "!"@),
                super::register_list_text(self.register_list) + optional(
                    self.psr_force_user,
                    "^"@,
                ),
            ),
        )
    }
}

fn format_block_transfer(op: &BlockTransfer, cond: &str) -> (out: String)
    ensures
        out@ == op.assembly(cond@),
{
    let ldst = if op.load {
        "ldm"
    } else {
        "stm"
    };
    let mode = match (op.pre_indexed, op.add) {
        (false, true) => "ia",
        (true, true) => "ib",
        (false, false) => "da",
        (true, false) => "db",
    };
    let mut base = text::text(reg(op.rn));
    base.append(optional_text(op.writeback, "!"));
    let mut list = register_list(op.register_list);
    list.append(optional_text(op.psr_force_user, "^"));
    line_text(ldst, cond, mode, pair_text(base.as_str(), list.as_str()).as_str())
}

impl Swap {
    /// `SWP`/`SWPB` as shown.
    pub open spec fn assembly(self, cond: Seq<char>) -> Seq<char> {
        line(
            "swp"@,
            cond,
            optional(self.byte, "b"@),
            pair(pair(self.rd.name(), self.rm.name()), "["@ + self.rn.name() + "]"@),
        )
    }
}

fn format_swap(op: &Swap, cond: &str) -> (out: String)
    ensures
        out@ == op.assembly(cond@),
{
    let mut place = text::text("[");
    place.append(reg(op.rn));
    place.append("]");
    let operands = pair_text(pair_text(reg(op.rd), reg(op.rm)).as_str(), place.as_str());
    line_text("swp", cond, optional_text(op.byte, "b"), operands.as_str())
}

impl Branch {
    /// `B`/`BL` as shown, with the displacement.
    pub open spec fn assembly(self, cond: Seq<char>) -> Seq<char> {
        line(
            if self.link {
                "bl"@
            } else {
                "b"@
            },
            cond,
            ""@,
            "#"@ + text::signed_decimal(self.offset as int),
        )
    }
}

fn format_branch(op: &Branch, cond: &str) -> (out: String)
    ensures
        out@ == op.assembly(cond@),
{
    let mnem = if op.link {
        "bl"
    } else {
        "b"
    };
    let mut target = text::text("#");
    target.append(text::decimal_signed(op.offset).as_str());
    line_text(mnem, cond, "", target.as_str())
}

impl BranchExchange {
    /// `BX`/`BLX Rn` as shown.
    pub open spec fn assembly(self, cond: Seq<char>) -> Seq<char> {
        line(
            if self.link {
                "blx"@
            } else {
                "bx"@
            },
            cond,
            ""@,
            self.rn.name(),
        )
    }
}

fn format_branch_exchange(op: &BranchExchange, cond: &str) -> (out: String)
    ensures
        out@ == op.assembly(cond@),
{
    let mnem = if op.link {
        "blx"
    } else {
        "bx"
    };
    line_text(mnem, cond, "", reg(op.rn))
}

impl CoprocessorRegisterTransfer {
    /// `MRC`/`MCR` as shown: `pN, opc1, Rd, cN, cM, opc2`.
    pub open spec fn assembly(self, cond: Seq<char>) -> Seq<char> {
        line(
            if self.load {
                "mrc"@
            } else {
                "mcr"@
            },
            cond,
            ""@,
            "p"@ + text::numeral(self.cp_num as nat, 10) + ", "@ + text::numeral(
                self.opcode1 as nat,
                10,
            ) + ", "@ + self.rd.name() + ", c"@ + text::numeral(self.crn as nat, 10) + ", c"@
                + text::numeral(self.crm as nat, 10) + ", "@ + text::numeral(
                self.opcode2 as nat,
                10,
            ),
        )
    }
}

fn format_coprocessor_transfer(op: &CoprocessorRegisterTransfer, cond: &str) -> (out: String)
    ensures
        out@ == op.assembly(cond@),
{
    let mnemonic = if op.load {
        "mrc"
    } else {
        "mcr"
    };
    let mut operands = text::text("p");
    operands.append(text::decimal(op.cp_num as u32).as_str());
    operands.append(", ");
    operands.append(text::decimal(op.opcode1 as u32).as_str());
    operands.append(", ");
    operands.append(reg(op.rd));
    operands.append(", c");
    operands.append(text::decimal(op.crn as u32).as_str());
    operands.append(", c");
    operands.append(text::decimal(op.crm as u32).as_str());
    operands.append(", ");
    operands.append(text::decimal(op.opcode2 as u32).as_str());
    line_text(mnemonic, cond, "", operands.as_str())
}

fn format_software_interrupt(op: &SoftwareInterrupt, cond: &str) -> (out: String)
    ensures
        out@ == line("swi"@, cond@, ""@, "#0x"@ + text::numeral(op.comment as nat, 16)),
{
    let mut comment = text::text("#0x");
    comment.append(text::hex(op.comment).as_str());
    line_text("swi", cond, "", comment.as_str())
}

/// The name of a status register.
pub open spec fn psr_name(spsr: bool) -> Seq<char> {
    if spsr {
        "spsr"@
    } else {
        "cpsr"@
    }
}

fn psr_text(spsr: bool) -> (s: &'static str)
    ensures
        s@ == psr_name(spsr),
{
    if spsr {
        "spsr"
    } else {
        "cpsr"
    }
}

fn format_mrs(op: &Mrs, cond: &str) -> (out: String)
    ensures
        out@ == line("mrs"@, cond@, ""@, pair(op.rd.name(), psr_name(op.source_spsr))),
{
    line_text("mrs", cond, "", pair_text(reg(op.rd), psr_text(op.source_spsr)).as_str())
}

impl Msr {
    /// `MSR` as shown: the register with its field mask, and the source.
    pub open spec fn assembly(self, cond: Seq<char>) -> Seq<char> {
        line(
            "msr"@,
            cond,
            ""@,
            pair(
                psr_name(self.dest_spsr) + "_"@ + optional(self.write_flags, "f"@) + optional(
                    self.write_status,
                    "s"@,
                ) + optional(self.write_extension, "x"@) + optional(self.write_control, "c"@),
                match self.source {
                    MsrSource::Register(rm) => rm.name(),
                    MsrSource::Immediate { value, rotate } => super::immediate_text(
                        bits::rotated_right(value as u32, (rotate * 2) as u32),
                    ),
                },
            ),
        )
    }
}

fn format_msr(op: &Msr, cond: &str) -> (out: String)
    ensures
        out@ == op.assembly(cond@),
{
    let mut fields = text::text(psr_text(op.dest_spsr));
    fields.append("_");
    fields.append(optional_text(op.write_flags, "f"));
    fields.append(optional_text(op.write_status, "s"));
    fields.append(optional_text(op.write_extension, "x"));
    fields.append(optional_text(op.write_control, "c"));
    let source = match &op.source {
        MsrSource::Register(rm) => text::text(reg(*rm)),
        MsrSource::Immediate { value, rotate } => immediate(
            bits::rotate_right(*value as u32, *rotate as u32 * 2),
        ),
    };
    line_text("msr", cond, "", pair_text(fields.as_str(), source.as_str()).as_str())
}

impl ArmInstruction {
    /// The assembly text of an instruction.
    pub open spec fn assembly(self) -> Seq<char> {
        let cond = self.condition.suffix();
        match self.operation {
            ArmOperation::DataProcessing(op) => op.assembly(cond),
            ArmOperation::Multiply(op) => op.assembly(cond),
            ArmOperation::MultiplyLong(op) => op.assembly(cond),
            ArmOperation::CountLeadingZeros(op) => line(
                "clz"@,
                cond,
                ""@,
                pair(op.rd.name(), op.rm.name()),
            ),
            ArmOperation::SaturatingArithmetic(op) => op.assembly(cond),
            ArmOperation::HalfwordMultiply(op) => op.assembly(cond),
            ArmOperation::SingleTransfer(op) => op.assembly(cond),
            ArmOperation::HalfwordTransfer(op) => op.assembly(cond),
            ArmOperation::DoublewordTransfer(op) => op.assembly(cond),
            ArmOperation::BlockTransfer(op) => op.assembly(cond),
            ArmOperation::Swap(op) => op.assembly(cond),
            ArmOperation::Branch(op) => op.assembly(cond),
            ArmOperation::BranchExchange(op) => op.assembly(cond),
            ArmOperation::BranchLinkExchange(op) => "blx\t#"@ + text::signed_decimal(
                op.offset as int,
            ),
            ArmOperation::Breakpoint(op) => "bkpt\t#0x"@ + text::padded_hex(op.comment as nat, 4),
            ArmOperation::CoprocessorRegisterTransfer(op) => op.assembly(cond),
            ArmOperation::SoftwareInterrupt(op) => line(
                "swi"@,
                cond,
                ""@,
                "#0x"@ + text::numeral(op.comment as nat, 16),
            ),
            ArmOperation::Mrs(op) => line(
                "mrs"@,
                cond,
                ""@,
                pair(op.rd.name(), psr_name(op.source_spsr)),
            ),
            ArmOperation::Msr(op) => op.assembly(cond),
            ArmOperation::Undefined { raw } => ".word\t0x"@ + text::padded_hex(raw as nat, 8),
        }
    }
}

/// Render a decoded ARM instruction as assembly text.
pub fn format_arm(inst: &ArmInstruction) -> (out: String)
    ensures
        out@ == inst.assembly(),
{
    let cond = condition_suffix(inst.condition);
    match &inst.operation {
        ArmOperation::DataProcessing(op) => format_data_processing(op, cond),
        ArmOperation::Multiply(op) => format_multiply(op, cond),
        ArmOperation::MultiplyLong(op) => format_multiply_long(op, cond),
        ArmOperation::CountLeadingZeros(op) => line_text(
            "clz",
            cond,
            "",
            pair_text(reg(op.rd), reg(op.rm)).as_str(),
        ),
        ArmOperation::SaturatingArithmetic(op) => format_saturating(op, cond),
        ArmOperation::HalfwordMultiply(op) => format_halfword_multiply(op, cond),
        ArmOperation::SingleTransfer(op) => format_single_transfer(op, cond),
        ArmOperation::HalfwordTransfer(op) => format_halfword_transfer(op, cond),
        ArmOperation::DoublewordTransfer(op) => format_doubleword_transfer(op, cond),
        ArmOperation::BlockTransfer(op) => format_block_transfer(op, cond),
        ArmOperation::Swap(op) => format_swap(op, cond),
        ArmOperation::Branch(op) => format_branch(op, cond),
        ArmOperation::BranchExchange(op) => format_branch_exchange(op, cond),
        ArmOperation::BranchLinkExchange(op) => {
            let mut out = text::text("blx\t#");
            out.append(text::decimal_signed(op.offset).as_str());
            out
        },
        ArmOperation::Breakpoint(op) => {
            let mut out = text::text("bkpt\t#0x");
            out.append(text::hex_padded(op.comment as u32, 4).as_str());
            out
        },
        ArmOperation::CoprocessorRegisterTransfer(op) => format_coprocessor_transfer(op, cond),
        ArmOperation::SoftwareInterrupt(op) => format_software_interrupt(op, cond),
        ArmOperation::Mrs(op) => format_mrs(op, cond),
        ArmOperation::Msr(op) => format_msr(op, cond),
        ArmOperation::Undefined { raw } => {
            let mut out = text::text(".word\t0x");
            out.append(text::hex_padded(*raw, 8).as_str());
            out
        },
    }
}

} // verus!
