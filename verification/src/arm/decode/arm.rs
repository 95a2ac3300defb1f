//! ARM (32-bit) instruction decoder.
//!
//! Decoding proceeds in two steps. First the 4-bit condition (bits 31..28) is
//! peeled off. Then the operation is classified.
//!
//! Classification cannot be a simple `match` on the class field (bits 27..25),
//! because several distinct instructions hide inside what otherwise looks like
//! the data-processing encoding space: `BX`, the multiplies, the single-data
//! swap, and the halfword/signed transfers all live in the `000` region and are
//! distinguished only by scattered fixed bits. So those specific encodings are
//! tested first, in a fixed order, using masks; only once they are ruled out
//! does the coarse class field decide.
//!
//! The order of the leading tests matters: each pattern is checked before any
//! broader pattern that would also match it.

use vstd::prelude::*;

use crate::arm::condition::Condition;
use crate::arm::decode::operand::{decode_operand2, decode_shift};
use crate::arm::instruction::arm::{
    ArmInstruction, ArmOperation, BlockTransfer, Branch, BranchExchange, BranchLinkExchange,
    Breakpoint, CoprocessorRegisterTransfer, CountLeadingZeros, DataProcessing,
    DataProcessingOpcode, DoublewordTransfer, DspMulOp, HalfwordKind, HalfwordMultiply,
    HalfwordOffset, HalfwordTransfer, Mrs, Msr, MsrSource, Multiply, MultiplyLong,
    SaturatingArithmetic, SaturatingOp, SingleOffset, SingleTransfer, SoftwareInterrupt, Swap,
};
use crate::arm::register::Register;
use crate::bits;

verus! {

/// Decode a 32-bit ARM instruction word.
#[verifier::allow_in_spec]
pub fn decode_arm(raw: u32) -> (instruction: ArmInstruction)
    ensures
        instruction.operation.valid(),
    returns
        (if raw >> 28 == 0xF {
            if (raw >> 25) & 0b111 == 0b101 {
                ArmInstruction { condition: Condition::Al, operation: decode_blx_immediate(raw) }
            } else {
                ArmInstruction {
                    condition: Condition::Nv,
                    operation: ArmOperation::Undefined { raw },
                }
            }
        } else {
            ArmInstruction {
                condition: Condition::of((raw >> 28) & 0xF),
                operation: decode_operation(raw),
            }
        }),
{
    // `cond == 1111` is the ARMv5 unconditional-instruction space (BLX <label>,
    // PLD, ...). On ARMv4T it means "never execute", so anything here that is not
    // modelled stays a NOP via the `Nv` condition.
    if raw >> 28 == 0xF {
        return if (raw >> 25) & 0b111 == 0b101 {
            ArmInstruction { condition: Condition::Al, operation: decode_blx_immediate(raw) }
        } else {
            // PLD and reserved hints: never-execute keeps them NOP on both cores.
            ArmInstruction { condition: Condition::Nv, operation: ArmOperation::Undefined { raw } }
        };
    }
    ArmInstruction { condition: Condition::decode(raw >> 28), operation: decode_operation(raw) }
}

/// The byte displacement of a branch: the 24-bit field (bits 23..0) read as a
/// signed word count.
pub open spec fn branch_displacement(raw: u32) -> int {
    let field = (raw & 0x00FF_FFFF) as int;
    4 * (if field >= 0x80_0000 {
        field - 0x100_0000
    } else {
        field
    })
}

/// `BLX <label>`: `1111 101H imm24` - a link-and-exchange PC-relative branch. The
/// 24-bit offset is sign-extended and scaled by 4; the `H` bit adds a halfword.
#[verifier::allow_in_spec]
pub fn decode_blx_immediate(raw: u32) -> ArmOperation
    returns
        ArmOperation::BranchLinkExchange(
            BranchLinkExchange {
                offset: (branch_displacement(raw) + 2 * ((raw >> 24) & 1)) as i32,
            },
        ),
{
    let offset: i32 = ((raw << 8) as i32 >> 6) | (((raw >> 24) & 1) as i32) << 1;
    assert(offset == 4 * (if (raw & 0x00FF_FFFF) >= 0x80_0000 {
        (raw & 0x00FF_FFFF) - 0x100_0000
    } else {
        (raw & 0x00FF_FFFF) as int
    }) + 2 * ((raw >> 24) & 1)) by (bit_vector)
        requires
            offset == ((raw << 8) as i32 >> 6) | (((raw >> 24) & 1) as i32) << 1,
    ;
    ArmOperation::BranchLinkExchange(BranchLinkExchange { offset })
}

/// Classify and decode the operation portion of an ARM word (everything below
/// the condition).
#[verifier::allow_in_spec]
pub fn decode_operation(raw: u32) -> (operation: ArmOperation)
    ensures
        operation.valid(),
    returns
        (if matches_branch_exchange(raw) {
            decode_branch_exchange(raw)
        } else if matches_breakpoint(raw) {
            decode_breakpoint(raw)
        } else if matches_clz(raw) {
            decode_clz(raw)
        } else if matches_saturating(raw) {
            decode_saturating(raw)
        } else if matches_halfword_multiply(raw) {
            decode_halfword_multiply(raw)
        } else if matches_swap(raw) {
            decode_swap(raw)
        } else if matches_multiply(raw) {
            decode_multiply(raw)
        } else if matches_multiply_long(raw) {
            decode_multiply_long(raw)
        } else if matches_doubleword_transfer(raw) {
            decode_doubleword_transfer(raw)
        } else if matches_halfword_transfer(raw) {
            decode_halfword_transfer(raw)
        } else {
            match (raw >> 25) & 0b111 {
                0b000 | 0b001 => decode_data_processing(raw),
                0b010 | 0b011 => decode_single_transfer(raw),
                0b100 => decode_block_transfer(raw),
                0b101 => decode_branch(raw),
                0b110 => ArmOperation::Undefined { raw },
                _ => decode_swi_or_coprocessor(raw),
            }
        }),
{
    if matches_branch_exchange(raw) {
        decode_branch_exchange(raw)
    } else if matches_breakpoint(raw) {
        decode_breakpoint(raw)
    } else if matches_clz(raw) {
        decode_clz(raw)
    } else if matches_saturating(raw) {
        decode_saturating(raw)
    } else if matches_halfword_multiply(raw) {
        decode_halfword_multiply(raw)
    } else if matches_swap(raw) {
        decode_swap(raw)
    } else if matches_multiply(raw) {
        decode_multiply(raw)
    } else if matches_multiply_long(raw) {
        decode_multiply_long(raw)
    } else if matches_doubleword_transfer(raw) {
        decode_doubleword_transfer(raw)
    } else if matches_halfword_transfer(raw) {
        decode_halfword_transfer(raw)
    } else {
        match (raw >> 25) & 0b111 {
            0b000 | 0b001 => decode_data_processing(raw),
            0b010 | 0b011 => decode_single_transfer(raw),
            0b100 => decode_block_transfer(raw),
            0b101 => decode_branch(raw),
            // Coprocessor data transfer (LDC/STC) is not modelled.
            0b110 => ArmOperation::Undefined { raw },
            _ => decode_swi_or_coprocessor(raw),
        }
    }
}

// ---------------------------------------------------------------------------
// Class matchers
//
// Each predicate isolates one encoding by masking the fixed bits that identify
// it and comparing against their required value.
// ---------------------------------------------------------------------------

/// `BX`/`BLX Rn`: `cond 0001 0010 1111 1111 1111 00L1 Rn` (`L` = bit 5, masked out
/// here so both match; the decoder reads it for the link).
#[verifier::allow_in_spec]
pub fn matches_branch_exchange(raw: u32) -> bool
    returns
        (raw & 0x0FFF_FFD0) == 0x012F_FF10,
{
    (raw & 0x0FFF_FFD0) == 0x012F_FF10
}

/// `BKPT`: `cond 0001 0010 imm12 0111 imm4` (ARMv5).
#[verifier::allow_in_spec]
pub fn matches_breakpoint(raw: u32) -> bool
    returns
        (raw & 0x0FF0_00F0) == 0x0120_0070,
{
    (raw & 0x0FF0_00F0) == 0x0120_0070
}

/// `CLZ Rd,Rm`: `cond 0001 0110 1111 Rd 1111 0001 Rm` (ARMv5).
#[verifier::allow_in_spec]
pub fn matches_clz(raw: u32) -> bool
    returns
        (raw & 0x0FFF_0FF0) == 0x016F_0F10,
{
    (raw & 0x0FFF_0FF0) == 0x016F_0F10
}

/// `QADD`/`QSUB`/`QDADD`/`QDSUB`: `cond 0001 0oo0 Rn Rd 0000 0101 Rm` (ARMv5TE).
#[verifier::allow_in_spec]
pub fn matches_saturating(raw: u32) -> bool
    returns
        (raw & 0x0F90_0FF0) == 0x0100_0050,
{
    (raw & 0x0F90_0FF0) == 0x0100_0050
}

/// `SWP`/`SWPB`: `cond 0001 0B00 Rn Rd 0000 1001 Rm`.
#[verifier::allow_in_spec]
pub fn matches_swap(raw: u32) -> bool
    returns
        (raw & 0x0FB0_0FF0) == 0x0100_0090,
{
    (raw & 0x0FB0_0FF0) == 0x0100_0090
}

/// DSP halfword multiplies: `cond 0001 0oo0 Rd Rn Rs 1yx0 Rm` (ARMv5TE).
#[verifier::allow_in_spec]
pub fn matches_halfword_multiply(raw: u32) -> bool
    returns
        (raw & 0x0F90_0090) == 0x0100_0080,
{
    (raw & 0x0F90_0090) == 0x0100_0080
}

/// `MUL`/`MLA`: `cond 0000 00AS Rd Rn Rs 1001 Rm`.
#[verifier::allow_in_spec]
pub fn matches_multiply(raw: u32) -> bool
    returns
        (raw & 0x0FC0_00F0) == 0x0000_0090,
{
    (raw & 0x0FC0_00F0) == 0x0000_0090
}

/// `UMULL`/`UMLAL`/`SMULL`/`SMLAL`: `cond 0000 1UAS RdHi RdLo Rs 1001 Rm`.
#[verifier::allow_in_spec]
pub fn matches_multiply_long(raw: u32) -> bool
    returns
        (raw & 0x0F80_00F0) == 0x0080_0090,
{
    (raw & 0x0F80_00F0) == 0x0080_0090
}

/// Halfword / signed-byte transfers: bits 27..25 = `000`, bit 7 = 1, bit 4 = 1,
/// and `SH` (bits 6..5) != `00`. The `SH == 00` case is SWP/multiply and is
/// excluded here (and matched earlier), so this predicate is order-independent.
#[verifier::allow_in_spec]
pub fn matches_halfword_transfer(raw: u32) -> bool
    returns
        (raw & 0x0E00_0090) == 0x0000_0090 && (raw & 0x0000_0060) != 0,
{
    (raw & 0x0E00_0090) == 0x0000_0090 && (raw & 0x0000_0060) != 0
}

/// `LDRD`/`STRD` (ARMv5TE): the extra-load/store slot with `L` (bit 20) = 0 and
/// `S` (bit 6) = 1, i.e. `SH` = 10 (`LDRD`) or 11 (`STRD`). It must be tried
/// before [`matches_halfword_transfer`], which would otherwise capture these as
/// nonexistent "store signed byte/halfword".
#[verifier::allow_in_spec]
pub fn matches_doubleword_transfer(raw: u32) -> bool
    returns
        (raw & 0x0E10_00D0) == 0x0000_00D0,
{
    (raw & 0x0E10_00D0) == 0x0000_00D0
}

// ---------------------------------------------------------------------------
// Per-class decoders
// ---------------------------------------------------------------------------

#[verifier::allow_in_spec]
pub fn decode_clz(raw: u32) -> (operation: ArmOperation)
    ensures
        operation.valid(),
    returns
        ArmOperation::CountLeadingZeros(CountLeadingZeros {
            rd: Register::new((raw >> 12) as u8),
            rm: Register::new(raw as u8),
        }),
{
    ArmOperation::CountLeadingZeros(CountLeadingZeros {
        rd: Register::new((raw >> 12) as u8),
        rm: Register::new(raw as u8),
    })
}

#[verifier::allow_in_spec]
pub fn decode_swap(raw: u32) -> (operation: ArmOperation)
    ensures
        operation.valid(),
    returns
        ArmOperation::Swap(Swap {
            byte: raw & 0x0040_0000 != 0,
            rn: Register::new((raw >> 16) as u8),
            rd: Register::new((raw >> 12) as u8),
            rm: Register::new(raw as u8),
        }),
{
    ArmOperation::Swap(Swap {
        byte: raw & 0x0040_0000 != 0,
        rn: Register::new((raw >> 16) as u8),
        rd: Register::new((raw >> 12) as u8),
        rm: Register::new(raw as u8),
    })
}

/// `LDM` / `STM` - block (multiple register) transfer. The 16-bit register list
/// occupies bits 15..0, one bit per register.
#[verifier::allow_in_spec]
pub fn decode_block_transfer(raw: u32) -> (operation: ArmOperation)
    ensures
        operation.valid(),
    returns
        ArmOperation::BlockTransfer(BlockTransfer {
            load: raw & 0x0010_0000 != 0,
            pre_indexed: raw & 0x0100_0000 != 0,
            add: raw & 0x0080_0000 != 0,
            writeback: raw & 0x0020_0000 != 0,
            psr_force_user: raw & 0x0040_0000 != 0,
            rn: Register::new((raw >> 16) as u8),
            register_list: raw as u16,
        }),
{
    ArmOperation::BlockTransfer(BlockTransfer {
        load: raw & 0x0010_0000 != 0,
        pre_indexed: raw & 0x0100_0000 != 0,
        add: raw & 0x0080_0000 != 0,
        writeback: raw & 0x0020_0000 != 0,
        psr_force_user: raw & 0x0040_0000 != 0,
        rn: Register::new((raw >> 16) as u8),
        register_list: raw as u16,
    })
}

/// `MUL` / `MLA` - 32-bit multiply. Note the operand layout differs from the
/// data-processing classes: `Rn` (the accumulator) is in bits 15..12, not 19..16.
#[verifier::allow_in_spec]
pub fn decode_multiply(raw: u32) -> (operation: ArmOperation)
    ensures
        operation.valid(),
    returns
        ArmOperation::Multiply(Multiply {
            accumulate: raw & 0x0020_0000 != 0,
            set_flags: raw & 0x0010_0000 != 0,
            rd: Register::new((raw >> 16) as u8),
            rn: Register::new((raw >> 12) as u8),
            rs: Register::new((raw >> 8) as u8),
            rm: Register::new(raw as u8),
        }),
{
    ArmOperation::Multiply(Multiply {
        accumulate: raw & 0x0020_0000 != 0,
        set_flags: raw & 0x0010_0000 != 0,
        rd: Register::new((raw >> 16) as u8),
        rn: Register::new((raw >> 12) as u8),
        rs: Register::new((raw >> 8) as u8),
        rm: Register::new(raw as u8),
    })
}

/// `UMULL` / `UMLAL` / `SMULL` / `SMLAL` - 64-bit multiply. Bit 22 selects
/// signed vs unsigned; the 64-bit result/accumulator spans `RdHi`:`RdLo`.
#[verifier::allow_in_spec]
pub fn decode_multiply_long(raw: u32) -> (operation: ArmOperation)
    ensures
        operation.valid(),
    returns
        ArmOperation::MultiplyLong(MultiplyLong {
            signed: raw & 0x0040_0000 != 0,
            accumulate: raw & 0x0020_0000 != 0,
            set_flags: raw & 0x0010_0000 != 0,
            rd_hi: Register::new((raw >> 16) as u8),
            rd_lo: Register::new((raw >> 12) as u8),
            rs: Register::new((raw >> 8) as u8),
            rm: Register::new(raw as u8),
        }),
{
    ArmOperation::MultiplyLong(MultiplyLong {
        signed: raw & 0x0040_0000 != 0,
        accumulate: raw & 0x0020_0000 != 0,
        set_flags: raw & 0x0010_0000 != 0,
        rd_hi: Register::new((raw >> 16) as u8),
        rd_lo: Register::new((raw >> 12) as u8),
        rs: Register::new((raw >> 8) as u8),
        rm: Register::new(raw as u8),
    })
}

/// `BX`/`BLX` - branch and exchange. The target register is bits 3..0.
#[verifier::allow_in_spec]
pub fn decode_branch_exchange(raw: u32) -> (operation: ArmOperation)
    ensures
        operation.valid(),
    returns
        ArmOperation::BranchExchange(BranchExchange {
            rn: Register::new(raw as u8),
            link: raw & 0x0000_0020 != 0,
        }),
{
    ArmOperation::BranchExchange(BranchExchange {
        rn: Register::new(raw as u8),
        link: raw & 0x0000_0020 != 0,
    })
}

/// `BKPT` - the comment field is split across two parts of the word.
#[verifier::allow_in_spec]
pub fn decode_breakpoint(raw: u32) -> (operation: ArmOperation)
    ensures
        operation.valid(),
    returns
        ArmOperation::Breakpoint(Breakpoint {
            comment: ((((raw >> 8) & 0xFFF) << 4) | (raw & 0xF)) as u16,
        }),
{
    ArmOperation::Breakpoint(Breakpoint {
        comment: ((((raw >> 8) & 0xFFF) << 4) | (raw & 0xF)) as u16,
    })
}

/// `MRC` / `MCR` - `cond 1110 opc1 L CRn Rd cp_num opc2 1 CRm`. Bit 20 (`L`)
/// selects `MRC` (load, from coprocessor) vs `MCR` (store, to coprocessor).
#[verifier::allow_in_spec]
pub fn decode_coprocessor_register_transfer(raw: u32) -> (operation: ArmOperation)
    ensures
        operation.valid(),
    returns
        ArmOperation::CoprocessorRegisterTransfer(CoprocessorRegisterTransfer {
            load: raw & 0x0010_0000 != 0,
            cp_num: ((raw >> 8) & 0xF) as u8,
            opcode1: ((raw >> 21) & 0x7) as u8,
            opcode2: ((raw >> 5) & 0x7) as u8,
            crn: ((raw >> 16) & 0xF) as u8,
            crm: (raw & 0xF) as u8,
            rd: Register::new((raw >> 12) as u8),
        }),
{
    ArmOperation::CoprocessorRegisterTransfer(CoprocessorRegisterTransfer {
        load: raw & 0x0010_0000 != 0,
        cp_num: ((raw >> 8) & 0xF) as u8,
        opcode1: ((raw >> 21) & 0x7) as u8,
        opcode2: ((raw >> 5) & 0x7) as u8,
        crn: ((raw >> 16) & 0xF) as u8,
        crm: (raw & 0xF) as u8,
        rd: Register::new((raw >> 12) as u8),
    })
}

/// `SWI` - software interrupt. Bits 23..0 are the comment field, ignored by the
/// CPU but retained for the handler.
#[verifier::allow_in_spec]
pub fn decode_software_interrupt(raw: u32) -> (operation: ArmOperation)
    ensures
        operation.valid(),
    returns
        ArmOperation::SoftwareInterrupt(SoftwareInterrupt {
            comment: raw & 0x00FF_FFFF,
        }),
{
    ArmOperation::SoftwareInterrupt(SoftwareInterrupt {
        comment: raw & 0x00FF_FFFF,
    })
}

/// `LDRD` / `STRD` - doubleword (register-pair) transfer. Same addressing shape
/// as a halfword transfer; the `H` bit (bit 5) selects load vs store.
#[verifier::allow_in_spec]
pub fn decode_doubleword_transfer(raw: u32) -> (operation: ArmOperation)
    ensures
        operation.valid(),
    returns
        ArmOperation::DoublewordTransfer(DoublewordTransfer {
            store: raw & 0x0000_0020 != 0,
            pre_indexed: raw & 0x0100_0000 != 0,
            add: raw & 0x0080_0000 != 0,
            writeback: raw & 0x0020_0000 != 0,
            rn: Register::new((raw >> 16) as u8),
            rd: Register::new((raw >> 12) as u8),
            offset: decode_extra_offset(raw),
        }),
{
    ArmOperation::DoublewordTransfer(DoublewordTransfer {
        store: raw & 0x0000_0020 != 0,
        pre_indexed: raw & 0x0100_0000 != 0,
        add: raw & 0x0080_0000 != 0,
        writeback: raw & 0x0020_0000 != 0,
        rn: Register::new((raw >> 16) as u8),
        rd: Register::new((raw >> 12) as u8),
        offset: decode_extra_offset(raw),
    })
}

/// `LDRH` / `STRH` / `LDRSB` / `LDRSH` - halfword and signed-byte transfers. The
/// `SH` field (bits 6..5) names the access.
#[verifier::allow_in_spec]
pub fn decode_halfword_transfer(raw: u32) -> (operation: ArmOperation)
    ensures
        operation.valid(),
    returns
        ArmOperation::HalfwordTransfer(HalfwordTransfer {
            load: raw & 0x0010_0000 != 0,
            pre_indexed: raw & 0x0100_0000 != 0,
            add: raw & 0x0080_0000 != 0,
            writeback: raw & 0x0020_0000 != 0,
            kind: HalfwordKind::of((raw >> 5) & 0b11),
            rn: Register::new((raw >> 16) as u8),
            rd: Register::new((raw >> 12) as u8),
            offset: decode_extra_offset(raw),
        }),
{
    ArmOperation::HalfwordTransfer(HalfwordTransfer {
        load: raw & 0x0010_0000 != 0,
        pre_indexed: raw & 0x0100_0000 != 0,
        add: raw & 0x0080_0000 != 0,
        writeback: raw & 0x0020_0000 != 0,
        kind: decode_halfword_kind(raw >> 5),
        rn: Register::new((raw >> 16) as u8),
        rd: Register::new((raw >> 12) as u8),
        offset: decode_extra_offset(raw),
    })
}

/// The offset field shared by the halfword, signed and doubleword transfers: an
/// 8-bit immediate split across two nibbles (bit 22 set) or a register.
#[verifier::allow_in_spec]
pub fn decode_extra_offset(raw: u32) -> (offset: HalfwordOffset)
    ensures
        offset.valid(),
    returns
        (if raw & 0x0040_0000 != 0 {
                HalfwordOffset::Immediate(((((raw >> 8) & 0xF) << 4) | (raw & 0xF)) as u8)
            } else {
                HalfwordOffset::Register(Register::new(raw as u8))
            }),
{
    let immediate = raw & 0x0040_0000 != 0;
    if immediate {
        let hi: u32 = (raw >> 8) & 0xF;
        let lo: u32 = raw & 0xF;
        HalfwordOffset::Immediate(((hi << 4) | lo) as u8)
    } else {
        HalfwordOffset::Register(Register::new(raw as u8))
    }
}

impl HalfwordKind {
    /// The access named by a two-bit `SH` field other than `00`.
    pub open spec fn of(field: u32) -> HalfwordKind {
        match field {
            0b01 => HalfwordKind::UnsignedHalfword,
            0b10 => HalfwordKind::SignedByte,
            _ => HalfwordKind::SignedHalfword,
        }
    }

    /// The `SH` field that names an access.
    pub open spec fn encoding(self) -> u32 {
        match self {
            HalfwordKind::UnsignedHalfword => 0b01,
            HalfwordKind::SignedByte => 0b10,
            HalfwordKind::SignedHalfword => 0b11,
        }
    }
}

/// Decode the `SH` field (bits 6..5) of a halfword/signed transfer. `SH == 00`
/// is the swap encoding and is matched before reaching here.
fn decode_halfword_kind(bits: u32) -> (kind: HalfwordKind)
    ensures
        kind == HalfwordKind::of(bits & 0b11),
{
    match bits & 0b11 {
        0b01 => HalfwordKind::UnsignedHalfword,
        0b10 => HalfwordKind::SignedByte,
        _ => HalfwordKind::SignedHalfword,
    }
}

impl SaturatingOp {
    /// The operation named by a two-bit field.
    pub open spec fn of(field: u32) -> SaturatingOp {
        match field {
            0b00 => SaturatingOp::QAdd,
            0b01 => SaturatingOp::QSub,
            0b10 => SaturatingOp::QDAdd,
            _ => SaturatingOp::QDSub,
        }
    }

    /// The two-bit field that names an operation.
    pub open spec fn encoding(self) -> u32 {
        match self {
            SaturatingOp::QAdd => 0b00,
            SaturatingOp::QSub => 0b01,
            SaturatingOp::QDAdd => 0b10,
            SaturatingOp::QDSub => 0b11,
        }
    }
}

#[verifier::allow_in_spec]
pub fn decode_saturating(raw: u32) -> (operation: ArmOperation)
    ensures
        operation.valid(),
    returns
        ArmOperation::SaturatingArithmetic(SaturatingArithmetic {
            op: SaturatingOp::of((raw >> 21) & 0b11),
            rd: Register::new((raw >> 12) as u8),
            rm: Register::new(raw as u8),
            rn: Register::new((raw >> 16) as u8),
        }),
{
    let op = match (raw >> 21) & 0b11 {
        0b00 => SaturatingOp::QAdd,
        0b01 => SaturatingOp::QSub,
        0b10 => SaturatingOp::QDAdd,
        _ => SaturatingOp::QDSub,
    };
    ArmOperation::SaturatingArithmetic(SaturatingArithmetic {
        op,
        rd: Register::new((raw >> 12) as u8),
        rm: Register::new(raw as u8),
        rn: Register::new((raw >> 16) as u8),
    })
}

impl DspMulOp {
    /// The operation named by a two-bit field; for `01` the `x` bit chooses.
    pub open spec fn of(field: u32, x: bool) -> DspMulOp {
        match field {
            0b00 => DspMulOp::SmlaXY,
            0b01 => if x {
                DspMulOp::SmulWY
            } else {
                DspMulOp::SmlaWY
            },
            0b10 => DspMulOp::SmlalXY,
            _ => DspMulOp::SmulXY,
        }
    }

    /// The two-bit field that names an operation.
    pub open spec fn encoding(self) -> u32 {
        match self {
            DspMulOp::SmlaXY => 0b00,
            DspMulOp::SmulWY | DspMulOp::SmlaWY => 0b01,
            DspMulOp::SmlalXY => 0b10,
            DspMulOp::SmulXY => 0b11,
        }
    }
}

#[verifier::allow_in_spec]
pub fn decode_halfword_multiply(raw: u32) -> (operation: ArmOperation)
    ensures
        operation.valid(),
    returns
        ArmOperation::HalfwordMultiply(HalfwordMultiply {
            op: DspMulOp::of((raw >> 21) & 0b11, raw & 0x0000_0020 != 0),
            x: raw & 0x0000_0020 != 0,
            y: raw & 0x0000_0040 != 0,
            rd: Register::new((raw >> 16) as u8),
            rn: Register::new((raw >> 12) as u8),
            rs: Register::new((raw >> 8) as u8),
            rm: Register::new(raw as u8),
        }),
{
    let x = raw & 0x0000_0020 != 0;
    let y = raw & 0x0000_0040 != 0;
    let op = match (raw >> 21) & 0b11 {
        0b00 => DspMulOp::SmlaXY,
        0b01 => if x {
            DspMulOp::SmulWY
        } else {
            DspMulOp::SmlaWY
        },
        0b10 => DspMulOp::SmlalXY,
        _ => DspMulOp::SmulXY,
    };
    ArmOperation::HalfwordMultiply(HalfwordMultiply {
        op,
        x,
        y,
        rd: Register::new((raw >> 16) as u8),
        rn: Register::new((raw >> 12) as u8),
        rs: Register::new((raw >> 8) as u8),
        rm: Register::new(raw as u8),
    })
}

/// ALU operations, and the status-register transfers that share their space.
#[verifier::allow_in_spec]
pub fn decode_data_processing(raw: u32) -> (operation: ArmOperation)
    ensures
        operation.valid(),
    returns
        (if raw & 0x0010_0000 == 0 && DataProcessingOpcode::of((raw >> 21) & 0xF).is_comparison() {
            decode_psr_transfer(raw, raw & 0x0200_0000 != 0)
        } else {
            ArmOperation::DataProcessing(DataProcessing {
                opcode: DataProcessingOpcode::of((raw >> 21) & 0xF),
                set_flags: raw & 0x0010_0000 != 0,
                rd: Register::new((raw >> 12) as u8),
                rn: Register::new((raw >> 16) as u8),
                operand2: decode_operand2(raw, raw & 0x0200_0000 != 0),
            })
        }),
{
    let opcode = decode_dp_opcode(raw >> 21);
    let set_flags = raw & 0x0010_0000 != 0;
    let immediate = raw & 0x0200_0000 != 0;

    // `TST`/`TEQ`/`CMP`/`CMN` exist only to set flags, so they are always
    // encoded with S set. The S-clear encoding of those four opcodes is reused
    // for status-register access (MRS/MSR), which is split out here.
    if !set_flags && is_status_opcode(opcode) {
        return decode_psr_transfer(raw, immediate);
    }
    ArmOperation::DataProcessing(DataProcessing {
        opcode,
        set_flags,
        rd: Register::new((raw >> 12) as u8),
        rn: Register::new((raw >> 16) as u8),
        operand2: decode_operand2(raw, immediate),
    })
}

impl DataProcessingOpcode {
    /// The opcode named by a 4-bit field.
    pub open spec fn of(field: u32) -> DataProcessingOpcode {
        match field {
            0x0 => DataProcessingOpcode::And,
            0x1 => DataProcessingOpcode::Eor,
            0x2 => DataProcessingOpcode::Sub,
            0x3 => DataProcessingOpcode::Rsb,
            0x4 => DataProcessingOpcode::Add,
            0x5 => DataProcessingOpcode::Adc,
            0x6 => DataProcessingOpcode::Sbc,
            0x7 => DataProcessingOpcode::Rsc,
            0x8 => DataProcessingOpcode::Tst,
            0x9 => DataProcessingOpcode::Teq,
            0xA => DataProcessingOpcode::Cmp,
            0xB => DataProcessingOpcode::Cmn,
            0xC => DataProcessingOpcode::Orr,
            0xD => DataProcessingOpcode::Mov,
            0xE => DataProcessingOpcode::Bic,
            _ => DataProcessingOpcode::Mvn,
        }
    }

    /// The 4-bit field that names an opcode.
    pub open spec fn encoding(self) -> u32 {
        match self {
            DataProcessingOpcode::And => 0x0,
            DataProcessingOpcode::Eor => 0x1,
            DataProcessingOpcode::Sub => 0x2,
            DataProcessingOpcode::Rsb => 0x3,
            DataProcessingOpcode::Add => 0x4,
            DataProcessingOpcode::Adc => 0x5,
            DataProcessingOpcode::Sbc => 0x6,
            DataProcessingOpcode::Rsc => 0x7,
            DataProcessingOpcode::Tst => 0x8,
            DataProcessingOpcode::Teq => 0x9,
            DataProcessingOpcode::Cmp => 0xA,
            DataProcessingOpcode::Cmn => 0xB,
            DataProcessingOpcode::Orr => 0xC,
            DataProcessingOpcode::Mov => 0xD,
            DataProcessingOpcode::Bic => 0xE,
            DataProcessingOpcode::Mvn => 0xF,
        }
    }
}

/// Decode the 4-bit data-processing opcode (bits 24..21).
fn decode_dp_opcode(bits: u32) -> (opcode: DataProcessingOpcode)
    ensures
        opcode == DataProcessingOpcode::of(bits & 0xF),
{
    match bits & 0xF {
        0x0 => DataProcessingOpcode::And,
        0x1 => DataProcessingOpcode::Eor,
        0x2 => DataProcessingOpcode::Sub,
        0x3 => DataProcessingOpcode::Rsb,
        0x4 => DataProcessingOpcode::Add,
        0x5 => DataProcessingOpcode::Adc,
        0x6 => DataProcessingOpcode::Sbc,
        0x7 => DataProcessingOpcode::Rsc,
        0x8 => DataProcessingOpcode::Tst,
        0x9 => DataProcessingOpcode::Teq,
        0xA => DataProcessingOpcode::Cmp,
        0xB => DataProcessingOpcode::Cmn,
        0xC => DataProcessingOpcode::Orr,
        0xD => DataProcessingOpcode::Mov,
        0xE => DataProcessingOpcode::Bic,
        _ => DataProcessingOpcode::Mvn,
    }
}

/// Whether an opcode is one of the four comparison ops (`TST`/`TEQ`/`CMP`/`CMN`)
/// whose S-clear encoding is repurposed for MRS/MSR.
fn is_status_opcode(opcode: DataProcessingOpcode) -> (status: bool)
    ensures
        status == opcode.is_comparison(),
{
    matches!(
        opcode,
        DataProcessingOpcode::Tst
            | DataProcessingOpcode::Teq
            | DataProcessingOpcode::Cmp
            | DataProcessingOpcode::Cmn
    )
}

/// Decode the MRS/MSR encodings that share the S-clear comparison opcode space.
/// Bit 21 selects between them: clear is `MRS` (read PSR), set is `MSR` (write
/// PSR). Bit 22 selects CPSR vs SPSR.
#[verifier::allow_in_spec]
pub fn decode_psr_transfer(raw: u32, immediate: bool) -> (operation: ArmOperation)
    ensures
        operation.valid(),
    returns
        (if raw & 0x0020_0000 == 0 {
            ArmOperation::Mrs(Mrs {
                source_spsr: raw & 0x0040_0000 != 0,
                rd: Register::new((raw >> 12) as u8),
            })
        } else {
            ArmOperation::Msr(Msr {
                dest_spsr: raw & 0x0040_0000 != 0,
                write_flags: raw & 0x0008_0000 != 0,
                write_status: raw & 0x0004_0000 != 0,
                write_extension: raw & 0x0002_0000 != 0,
                write_control: raw & 0x0001_0000 != 0,
                source: if immediate {
                    MsrSource::Immediate { value: raw as u8, rotate: (raw >> 8) as u8 & 0xF }
                } else {
                    MsrSource::Register(Register::new(raw as u8))
                },
            })
        }),
{
    let spsr = raw & 0x0040_0000 != 0;
    if raw & 0x0020_0000 == 0 {
        ArmOperation::Mrs(Mrs { source_spsr: spsr, rd: Register::new((raw >> 12) as u8) })
    } else {
        proof {
            bits::lemma_low_bits_u8((raw >> 8) as u8);
        }
        let source = if immediate {
            MsrSource::Immediate { value: raw as u8, rotate: (raw >> 8) as u8 & 0xF }
        } else {
            MsrSource::Register(Register::new(raw as u8))
        };
        ArmOperation::Msr(Msr {
            dest_spsr: spsr,
            write_flags: raw & 0x0008_0000 != 0,
            write_status: raw & 0x0004_0000 != 0,
            write_extension: raw & 0x0002_0000 != 0,
            write_control: raw & 0x0001_0000 != 0,
            source,
        })
    }
}

/// `LDR` / `STR` - single word/byte transfer.
///
/// Note the `I` bit (bit 25) has the *opposite* sense to data processing here:
/// set means a register offset, clear means an immediate offset.
#[verifier::allow_in_spec]
pub fn decode_single_transfer(raw: u32) -> (operation: ArmOperation)
    ensures
        operation.valid(),
    returns
        (if raw & 0x0200_0000 != 0 && raw & 0x0000_0010 != 0 {
            ArmOperation::Undefined { raw }
        } else {
            ArmOperation::SingleTransfer(SingleTransfer {
                load: raw & 0x0010_0000 != 0,
                byte: raw & 0x0040_0000 != 0,
                pre_indexed: raw & 0x0100_0000 != 0,
                add: raw & 0x0080_0000 != 0,
                writeback: raw & 0x0020_0000 != 0,
                rn: Register::new((raw >> 16) as u8),
                rd: Register::new((raw >> 12) as u8),
                offset: if raw & 0x0200_0000 != 0 {
                    SingleOffset::Register {
                        rm: Register::new(raw as u8),
                        shift: decode_shift(raw),
                    }
                } else {
                    SingleOffset::Immediate((raw & 0xFFF) as u16)
                },
            })
        }),
{
    let register_offset = raw & 0x0200_0000 != 0;

    // The register-offset form only permits an immediate shift amount (bit 4
    // clear). Bit 4 set is not a valid single transfer on this core, so it
    // falls through to undefined rather than being decoded as a register shift.
    if register_offset && raw & 0x0000_0010 != 0 {
        return ArmOperation::Undefined { raw };
    }

    let offset = if register_offset {
        SingleOffset::Register { rm: Register::new(raw as u8), shift: decode_shift(raw) }
    } else {
        SingleOffset::Immediate((raw & 0xFFF) as u16)
    };

    ArmOperation::SingleTransfer(SingleTransfer {
        load: raw & 0x0010_0000 != 0,
        byte: raw & 0x0040_0000 != 0,
        pre_indexed: raw & 0x0100_0000 != 0,
        add: raw & 0x0080_0000 != 0,
        writeback: raw & 0x0020_0000 != 0,
        rn: Register::new((raw >> 16) as u8),
        rd: Register::new((raw >> 12) as u8),
        offset,
    })
}

/// `B` / `BL` - PC-relative branch.
///
/// The 24-bit field is a signed word count, sign-extended and multiplied by 4
/// to a byte offset (that `<< 2` is inherent to the encoding); the `PC + 8`
/// pipeline adjustment is left to the interpreter. Shifting the word left by 8
/// drops the condition/class/link bits and lands the sign bit in bit 31, so a
/// single arithmetic right shift by 6 does the extend-and-scale.
#[verifier::allow_in_spec]
pub fn decode_branch(raw: u32) -> ArmOperation
    returns
        ArmOperation::Branch(
            Branch { link: raw & 0x0100_0000 != 0, offset: branch_displacement(raw) as i32 },
        ),
{
    let offset: i32 = ((raw << 8) as i32) >> 6;
    assert(offset == 4 * (if (raw & 0x00FF_FFFF) >= 0x80_0000 {
        (raw & 0x00FF_FFFF) - 0x100_0000
    } else {
        (raw & 0x00FF_FFFF) as int
    })) by (bit_vector)
        requires
            offset == ((raw << 8) as i32) >> 6,
    ;
    ArmOperation::Branch(Branch { link: raw & 0x0100_0000 != 0, offset })
}

/// Bits 27..24 == 1111 is `SWI`. Otherwise bits 27..24 == 1110 is coprocessor
/// space: bit 4 set is a register transfer (`MRC`/`MCR`, the CP15 interface);
/// bit 4 clear is `CDP`, which CP15 does not use and which traps.
#[verifier::allow_in_spec]
pub fn decode_swi_or_coprocessor(raw: u32) -> (operation: ArmOperation)
    ensures
        operation.valid(),
    returns
        (if (raw & 0x0F00_0000) == 0x0F00_0000 {
            decode_software_interrupt(raw)
        } else if raw & 0x0000_0010 != 0 {
            decode_coprocessor_register_transfer(raw)
        } else {
            ArmOperation::Undefined { raw }
        }),
{
    if (raw & 0x0F00_0000) == 0x0F00_0000 {
        decode_software_interrupt(raw)
    } else if raw & 0x0000_0010 != 0 {
        decode_coprocessor_register_transfer(raw)
    } else {
        ArmOperation::Undefined { raw }
    }
}

} // verus!
