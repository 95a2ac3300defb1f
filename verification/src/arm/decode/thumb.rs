//! Thumb (16-bit) instruction decoder.
//!
//! Thumb classification is a prefix decode tree on the high bits: bits 15..13
//! select a coarse group, and lower bits refine it. Several formats share a top
//! prefix and are split further down (format 1 vs 2 on bits 12..11; the
//! register-offset load/stores on bit 9; the `1101` group into conditional
//! branch, `SWI`, and undefined on bits 11..8). The tree is total: every one of
//! the 65536 halfwords resolves to some variant, `Undefined` included.
//!
//! Scope is ARMv4T (the GBA's ARM7TDMI): the `BLX` encoding space and the
//! reserved `cond == 1110` conditional branch decode to `Undefined`.

use vstd::prelude::*;

use crate::arm::condition::Condition;
use crate::arm::instruction::thumb::{
    AddSubOperand, LoadAddressSource, ThumbAluOp, ThumbHiRegOp, ThumbImmediateOp,
    ThumbInstruction, ThumbShiftOp, ThumbSignExtendOp,
};
use crate::arm::register::Register;
use crate::bits;

verus! {

/// Decode a 16-bit Thumb instruction halfword.
#[verifier::allow_in_spec]
pub fn decode_thumb(raw: u16) -> (instruction: ThumbInstruction)
    ensures
        instruction.valid(),
    returns
        (match raw >> 13 {
            0b000 => {
                if (raw >> 11) & 0b11 == 0b11 {
                    decode_add_subtract(raw)
                } else {
                    decode_move_shifted(raw)
                }
            },
            0b001 => decode_alu_immediate(raw),
            0b010 => {
                if raw & 0x1000 != 0 {
                    if raw & 0x0200 != 0 {
                        decode_load_store_sign_extended(raw)
                    } else {
                        decode_load_store_register(raw)
                    }
                } else if raw & 0x0800 != 0 {
                    decode_pc_relative_load(raw)
                } else if raw & 0x0400 != 0 {
                    decode_hi_register(raw)
                } else {
                    decode_alu_operation(raw)
                }
            },
            0b011 => decode_load_store_immediate(raw),
            0b100 => {
                if raw & 0x1000 != 0 {
                    decode_sp_relative_load_store(raw)
                } else {
                    decode_load_store_halfword(raw)
                }
            },
            0b101 => {
                if raw & 0x1000 != 0 {
                    decode_misc_1011(raw)
                } else {
                    decode_load_address(raw)
                }
            },
            0b110 => {
                if raw & 0x1000 != 0 {
                    match (raw >> 8) & 0xF {
                        0xF => decode_software_interrupt(raw),
                        0xE => ThumbInstruction::Undefined { raw },
                        _ => decode_conditional_branch(raw),
                    }
                } else {
                    decode_block_transfer(raw)
                }
            },
            _ => match (raw >> 11) & 0b11 {
                0b00 => decode_unconditional_branch(raw),
                0b01 => ThumbInstruction::Undefined { raw },
                _ => decode_long_branch_link(raw),
            },
        }),
{
    match raw >> 13 {
        0b000 => {
            // Format 1 (move shifted) unless the shift-op field is 0b11, which
            // is instead the format-2 add/subtract encoding.
            if (raw >> 11) & 0b11 == 0b11 {
                decode_add_subtract(raw)
            } else {
                decode_move_shifted(raw)
            }
        },
        0b001 => decode_alu_immediate(raw),
        0b010 => {
            if raw & 0x1000 != 0 {
                // 0101: register-offset load/store; bit 9 splits plain from
                // sign-extended.
                if raw & 0x0200 != 0 {
                    decode_load_store_sign_extended(raw)
                } else {
                    decode_load_store_register(raw)
                }
            } else if raw & 0x0800 != 0 {
                decode_pc_relative_load(raw)
            } else if raw & 0x0400 != 0 {
                decode_hi_register(raw)
            } else {
                decode_alu_operation(raw)
            }
        },
        0b011 => decode_load_store_immediate(raw),
        0b100 => {
            if raw & 0x1000 != 0 {
                decode_sp_relative_load_store(raw)
            } else {
                decode_load_store_halfword(raw)
            }
        },
        0b101 => {
            if raw & 0x1000 != 0 {
                decode_misc_1011(raw)
            } else {
                decode_load_address(raw)
            }
        },
        0b110 => {
            if raw & 0x1000 != 0 {
                // 1101: conditional branch, unless the condition field names
                // SWI (1111) or the reserved-undefined slot (1110).
                match (raw >> 8) & 0xF {
                    0xF => decode_software_interrupt(raw),
                    0xE => ThumbInstruction::Undefined { raw },
                    _ => decode_conditional_branch(raw),
                }
            } else {
                decode_block_transfer(raw)
            }
        },
        _ => match (raw >> 11) & 0b11 {
            0b00 => decode_unconditional_branch(raw),
            // 11101 is the ARMv5-only BLX.
            0b01 => ThumbInstruction::Undefined { raw },
            _ => decode_long_branch_link(raw),
        },
    }
}

/// Refine the `1011` group into adjust-SP (format 13), push/pop (format 14), or
/// undefined, on bits 11..9.
#[verifier::allow_in_spec]
pub fn decode_misc_1011(raw: u16) -> (instruction: ThumbInstruction)
    ensures
        instruction.valid(),
    returns
        (match (raw >> 9) & 0b111 {
            0b000 => decode_adjust_stack_pointer(raw),
            0b010 | 0b110 => decode_push_pop(raw),
            _ => ThumbInstruction::Undefined { raw },
        }),
{
    match (raw >> 9) & 0b111 {
        0b000 => decode_adjust_stack_pointer(raw),
        0b010 | 0b110 => decode_push_pop(raw),
        _ => ThumbInstruction::Undefined { raw },
    }
}

// ---------------------------------------------------------------------------
// Field tables
// ---------------------------------------------------------------------------

impl ThumbShiftOp {
    /// The format-1 shift named by an encoded field.
    pub open spec fn of(field: u16) -> ThumbShiftOp {
        match field {
            0 => ThumbShiftOp::Lsl,
            1 => ThumbShiftOp::Lsr,
            _ => ThumbShiftOp::Asr,
        }
    }

    /// The encoded field that names an operation.
    pub open spec fn encoding(self) -> u16 {
        match self {
            ThumbShiftOp::Lsl => 0,
            ThumbShiftOp::Lsr => 1,
            ThumbShiftOp::Asr => 2,
        }
    }
}

impl ThumbImmediateOp {
    /// The format-3 operation named by an encoded field.
    pub open spec fn of(field: u16) -> ThumbImmediateOp {
        match field {
            0 => ThumbImmediateOp::Mov,
            1 => ThumbImmediateOp::Cmp,
            2 => ThumbImmediateOp::Add,
            _ => ThumbImmediateOp::Sub,
        }
    }

    /// The encoded field that names an operation.
    pub open spec fn encoding(self) -> u16 {
        match self {
            ThumbImmediateOp::Mov => 0,
            ThumbImmediateOp::Cmp => 1,
            ThumbImmediateOp::Add => 2,
            ThumbImmediateOp::Sub => 3,
        }
    }
}

impl ThumbAluOp {
    /// The format-4 operation named by an encoded field.
    pub open spec fn of(field: u16) -> ThumbAluOp {
        match field {
            0 => ThumbAluOp::And,
            1 => ThumbAluOp::Eor,
            2 => ThumbAluOp::Lsl,
            3 => ThumbAluOp::Lsr,
            4 => ThumbAluOp::Asr,
            5 => ThumbAluOp::Adc,
            6 => ThumbAluOp::Sbc,
            7 => ThumbAluOp::Ror,
            8 => ThumbAluOp::Tst,
            9 => ThumbAluOp::Neg,
            10 => ThumbAluOp::Cmp,
            11 => ThumbAluOp::Cmn,
            12 => ThumbAluOp::Orr,
            13 => ThumbAluOp::Mul,
            14 => ThumbAluOp::Bic,
            _ => ThumbAluOp::Mvn,
        }
    }

    /// The encoded field that names an operation.
    pub open spec fn encoding(self) -> u16 {
        match self {
            ThumbAluOp::And => 0,
            ThumbAluOp::Eor => 1,
            ThumbAluOp::Lsl => 2,
            ThumbAluOp::Lsr => 3,
            ThumbAluOp::Asr => 4,
            ThumbAluOp::Adc => 5,
            ThumbAluOp::Sbc => 6,
            ThumbAluOp::Ror => 7,
            ThumbAluOp::Tst => 8,
            ThumbAluOp::Neg => 9,
            ThumbAluOp::Cmp => 10,
            ThumbAluOp::Cmn => 11,
            ThumbAluOp::Orr => 12,
            ThumbAluOp::Mul => 13,
            ThumbAluOp::Bic => 14,
            ThumbAluOp::Mvn => 15,
        }
    }
}

impl ThumbHiRegOp {
    /// The format-5 operation named by an encoded field.
    pub open spec fn of(field: u16) -> ThumbHiRegOp {
        match field {
            0 => ThumbHiRegOp::Add,
            1 => ThumbHiRegOp::Cmp,
            2 => ThumbHiRegOp::Mov,
            _ => ThumbHiRegOp::Bx,
        }
    }

    /// The encoded field that names an operation.
    pub open spec fn encoding(self) -> u16 {
        match self {
            ThumbHiRegOp::Add => 0,
            ThumbHiRegOp::Cmp => 1,
            ThumbHiRegOp::Mov => 2,
            ThumbHiRegOp::Bx => 3,
        }
    }
}

impl ThumbSignExtendOp {
    /// The format-8 access (`H` then `S`) named by an encoded field.
    pub open spec fn of(field: u16) -> ThumbSignExtendOp {
        match field {
            0 => ThumbSignExtendOp::StoreHalfword,
            1 => ThumbSignExtendOp::LoadSignedByte,
            2 => ThumbSignExtendOp::LoadHalfword,
            _ => ThumbSignExtendOp::LoadSignedHalfword,
        }
    }

    /// The encoded field that names an operation.
    pub open spec fn encoding(self) -> u16 {
        match self {
            ThumbSignExtendOp::StoreHalfword => 0,
            ThumbSignExtendOp::LoadSignedByte => 1,
            ThumbSignExtendOp::LoadHalfword => 2,
            ThumbSignExtendOp::LoadSignedHalfword => 3,
        }
    }
}

/// A branch displacement in bytes: a two's-complement halfword count whose sign
/// bit weighs `sign`.
pub open spec fn halfword_displacement(field: u16, sign: int) -> int {
    2 * (if field >= sign {
        field - 2 * sign
    } else {
        field as int
    })
}

// ---------------------------------------------------------------------------
// Per-format decoders
// ---------------------------------------------------------------------------

/// Format 1: `000 op amount5 Rs Rd`.
#[verifier::allow_in_spec]
pub fn decode_move_shifted(raw: u16) -> (instruction: ThumbInstruction)
    ensures
        instruction.valid(),
    returns
        (ThumbInstruction::MoveShifted {
            op: ThumbShiftOp::of((raw >> 11) & 0b11),
            amount: (raw >> 6) as u8 & 0x1F,
            rs: Register::new((raw >> 3) as u8 & 7),
            rd: Register::new(raw as u8 & 7),
        }),
{
    proof {
        bits::lemma_low_bits_u8((raw >> 6) as u8);
    }
    let op = match (raw >> 11) & 0b11 {
        0 => ThumbShiftOp::Lsl,
        1 => ThumbShiftOp::Lsr,
        _ => ThumbShiftOp::Asr,
    };
    ThumbInstruction::MoveShifted {
        op,
        amount: (raw >> 6) as u8 & 0x1F,
        rs: Register::new((raw >> 3) as u8 & 7),
        rd: Register::new(raw as u8 & 7),
    }
}

/// Format 2: `00011 I op Rn/imm3 Rs Rd`.
#[verifier::allow_in_spec]
pub fn decode_add_subtract(raw: u16) -> (instruction: ThumbInstruction)
    ensures
        instruction.valid(),
    returns
        (ThumbInstruction::AddSubtract {
            subtract: raw & 0x0200 != 0,
            operand: if raw & 0x0400 != 0 {
                AddSubOperand::Immediate((raw >> 6) as u8 & 7)
            } else {
                AddSubOperand::Register(Register::new((raw >> 6) as u8 & 7))
            },
            rs: Register::new((raw >> 3) as u8 & 7),
            rd: Register::new(raw as u8 & 7),
        }),
{
    ThumbInstruction::AddSubtract {
        subtract: raw & 0x0200 != 0,
        operand: if raw & 0x0400 != 0 {
            AddSubOperand::Immediate((raw >> 6) as u8 & 7)
        } else {
            AddSubOperand::Register(Register::new((raw >> 6) as u8 & 7))
        },
        rs: Register::new((raw >> 3) as u8 & 7),
        rd: Register::new(raw as u8 & 7),
    }
}

/// Format 3: `001 op Rd imm8`.
#[verifier::allow_in_spec]
pub fn decode_alu_immediate(raw: u16) -> (instruction: ThumbInstruction)
    ensures
        instruction.valid(),
    returns
        (ThumbInstruction::AluImmediate {
            op: ThumbImmediateOp::of((raw >> 11) & 0b11),
            rd: Register::new((raw >> 8) as u8 & 7),
            immediate: raw as u8,
        }),
{
    let op = match (raw >> 11) & 0b11 {
        0 => ThumbImmediateOp::Mov,
        1 => ThumbImmediateOp::Cmp,
        2 => ThumbImmediateOp::Add,
        _ => ThumbImmediateOp::Sub,
    };
    ThumbInstruction::AluImmediate {
        op,
        rd: Register::new((raw >> 8) as u8 & 7),
        immediate: raw as u8,
    }
}

/// Format 4: `010000 op Rs Rd`.
#[verifier::allow_in_spec]
pub fn decode_alu_operation(raw: u16) -> (instruction: ThumbInstruction)
    ensures
        instruction.valid(),
    returns
        (ThumbInstruction::AluOperation {
            op: ThumbAluOp::of((raw >> 6) & 0xF),
            rs: Register::new((raw >> 3) as u8 & 7),
            rd: Register::new(raw as u8 & 7),
        }),
{
    let op = match (raw >> 6) & 0xF {
        0 => ThumbAluOp::And,
        1 => ThumbAluOp::Eor,
        2 => ThumbAluOp::Lsl,
        3 => ThumbAluOp::Lsr,
        4 => ThumbAluOp::Asr,
        5 => ThumbAluOp::Adc,
        6 => ThumbAluOp::Sbc,
        7 => ThumbAluOp::Ror,
        8 => ThumbAluOp::Tst,
        9 => ThumbAluOp::Neg,
        10 => ThumbAluOp::Cmp,
        11 => ThumbAluOp::Cmn,
        12 => ThumbAluOp::Orr,
        13 => ThumbAluOp::Mul,
        14 => ThumbAluOp::Bic,
        _ => ThumbAluOp::Mvn,
    };
    ThumbInstruction::AluOperation {
        op,
        rs: Register::new((raw >> 3) as u8 & 7),
        rd: Register::new(raw as u8 & 7),
    }
}

/// Format 5: `010001 op H1 H2 Rs Rd`. `H1` and `H2` are the high bits of `Rd` and
/// `Rs`.
#[verifier::allow_in_spec]
pub fn decode_hi_register(raw: u16) -> (instruction: ThumbInstruction)
    ensures
        instruction.valid(),
    returns
        (ThumbInstruction::HiRegister {
            op: ThumbHiRegOp::of((raw >> 8) & 0b11),
            rs: Register::new((raw >> 3) as u8),
            rd: Register::new(((raw >> 4) as u8 & 8) | (raw as u8 & 7)),
        }),
{
    let op = match (raw >> 8) & 0b11 {
        0 => ThumbHiRegOp::Add,
        1 => ThumbHiRegOp::Cmp,
        2 => ThumbHiRegOp::Mov,
        _ => ThumbHiRegOp::Bx,
    };
    ThumbInstruction::HiRegister {
        op,
        rs: Register::new((raw >> 3) as u8),
        rd: Register::new(((raw >> 4) as u8 & 8) | (raw as u8 & 7)),
    }
}

/// Format 6: `01001 Rd word8`.
#[verifier::allow_in_spec]
pub fn decode_pc_relative_load(raw: u16) -> (instruction: ThumbInstruction)
    ensures
        instruction.valid(),
    returns
        (ThumbInstruction::PcRelativeLoad {
            rd: Register::new((raw >> 8) as u8 & 7),
            word8: raw as u8,
        }),
{
    ThumbInstruction::PcRelativeLoad {
        rd: Register::new((raw >> 8) as u8 & 7),
        word8: raw as u8,
    }
}

/// Format 7: `0101 L B 0 Ro Rb Rd`.
#[verifier::allow_in_spec]
pub fn decode_load_store_register(raw: u16) -> (instruction: ThumbInstruction)
    ensures
        instruction.valid(),
    returns
        (ThumbInstruction::LoadStoreRegister {
            load: raw & 0x0800 != 0,
            byte: raw & 0x0400 != 0,
            ro: Register::new((raw >> 6) as u8 & 7),
            rb: Register::new((raw >> 3) as u8 & 7),
            rd: Register::new(raw as u8 & 7),
        }),
{
    ThumbInstruction::LoadStoreRegister {
        load: raw & 0x0800 != 0,
        byte: raw & 0x0400 != 0,
        ro: Register::new((raw >> 6) as u8 & 7),
        rb: Register::new((raw >> 3) as u8 & 7),
        rd: Register::new(raw as u8 & 7),
    }
}

/// Format 8: `0101 H S 1 Ro Rb Rd`.
#[verifier::allow_in_spec]
pub fn decode_load_store_sign_extended(raw: u16) -> (instruction: ThumbInstruction)
    ensures
        instruction.valid(),
    returns
        (ThumbInstruction::LoadStoreSignExtended {
            op: ThumbSignExtendOp::of((raw >> 10) & 0b11),
            ro: Register::new((raw >> 6) as u8 & 7),
            rb: Register::new((raw >> 3) as u8 & 7),
            rd: Register::new(raw as u8 & 7),
        }),
{
    let op = match (raw >> 10) & 0b11 {
        0 => ThumbSignExtendOp::StoreHalfword,
        1 => ThumbSignExtendOp::LoadSignedByte,
        2 => ThumbSignExtendOp::LoadHalfword,
        _ => ThumbSignExtendOp::LoadSignedHalfword,
    };
    ThumbInstruction::LoadStoreSignExtended {
        op,
        ro: Register::new((raw >> 6) as u8 & 7),
        rb: Register::new((raw >> 3) as u8 & 7),
        rd: Register::new(raw as u8 & 7),
    }
}

/// Format 9: `011 B L offset5 Rb Rd`.
#[verifier::allow_in_spec]
pub fn decode_load_store_immediate(raw: u16) -> (instruction: ThumbInstruction)
    ensures
        instruction.valid(),
    returns
        (ThumbInstruction::LoadStoreImmediate {
            load: raw & 0x0800 != 0,
            byte: raw & 0x1000 != 0,
            offset: (raw >> 6) as u8 & 0x1F,
            rb: Register::new((raw >> 3) as u8 & 7),
            rd: Register::new(raw as u8 & 7),
        }),
{
    ThumbInstruction::LoadStoreImmediate {
        load: raw & 0x0800 != 0,
        byte: raw & 0x1000 != 0,
        offset: (raw >> 6) as u8 & 0x1F,
        rb: Register::new((raw >> 3) as u8 & 7),
        rd: Register::new(raw as u8 & 7),
    }
}

/// Format 10: `1000 L offset5 Rb Rd`.
#[verifier::allow_in_spec]
pub fn decode_load_store_halfword(raw: u16) -> (instruction: ThumbInstruction)
    ensures
        instruction.valid(),
    returns
        (ThumbInstruction::LoadStoreHalfword {
            load: raw & 0x0800 != 0,
            offset: (raw >> 6) as u8 & 0x1F,
            rb: Register::new((raw >> 3) as u8 & 7),
            rd: Register::new(raw as u8 & 7),
        }),
{
    ThumbInstruction::LoadStoreHalfword {
        load: raw & 0x0800 != 0,
        offset: (raw >> 6) as u8 & 0x1F,
        rb: Register::new((raw >> 3) as u8 & 7),
        rd: Register::new(raw as u8 & 7),
    }
}

/// Format 11: `1001 L Rd word8`.
#[verifier::allow_in_spec]
pub fn decode_sp_relative_load_store(raw: u16) -> (instruction: ThumbInstruction)
    ensures
        instruction.valid(),
    returns
        (ThumbInstruction::SpRelativeLoadStore {
            load: raw & 0x0800 != 0,
            rd: Register::new((raw >> 8) as u8 & 7),
            word8: raw as u8,
        }),
{
    ThumbInstruction::SpRelativeLoadStore {
        load: raw & 0x0800 != 0,
        rd: Register::new((raw >> 8) as u8 & 7),
        word8: raw as u8,
    }
}

/// Format 12: `1010 SP Rd word8`.
#[verifier::allow_in_spec]
pub fn decode_load_address(raw: u16) -> (instruction: ThumbInstruction)
    ensures
        instruction.valid(),
    returns
        (ThumbInstruction::LoadAddress {
            source: if raw & 0x0800 != 0 {
                LoadAddressSource::Sp
            } else {
                LoadAddressSource::Pc
            },
            rd: Register::new((raw >> 8) as u8 & 7),
            word8: raw as u8,
        }),
{
    ThumbInstruction::LoadAddress {
        source: if raw & 0x0800 != 0 {
            LoadAddressSource::Sp
        } else {
            LoadAddressSource::Pc
        },
        rd: Register::new((raw >> 8) as u8 & 7),
        word8: raw as u8,
    }
}

/// Format 13: `10110000 S word7`. With bit 8 set the halfword is no format of this
/// core, so it stays undefined.
#[verifier::allow_in_spec]
pub fn decode_adjust_stack_pointer(raw: u16) -> (instruction: ThumbInstruction)
    ensures
        instruction.valid(),
    returns
        (if raw & 0x0100 != 0 {
            ThumbInstruction::Undefined { raw }
        } else {
            ThumbInstruction::AdjustStackPointer {
                subtract: raw & 0x0080 != 0,
                word7: raw as u8 & 0x7F,
            }
        }),
{
    if raw & 0x0100 != 0 {
        ThumbInstruction::Undefined { raw }
    } else {
        ThumbInstruction::AdjustStackPointer {
            subtract: raw & 0x0080 != 0,
            word7: raw as u8 & 0x7F,
        }
    }
}

/// Format 14: `1011 L 10 R list8`.
#[verifier::allow_in_spec]
pub fn decode_push_pop(raw: u16) -> (instruction: ThumbInstruction)
    ensures
        instruction.valid(),
    returns
        (ThumbInstruction::PushPop {
            pop: raw & 0x0800 != 0,
            include_pc_lr: raw & 0x0100 != 0,
            register_list: raw as u8,
        }),
{
    ThumbInstruction::PushPop {
        pop: raw & 0x0800 != 0,
        include_pc_lr: raw & 0x0100 != 0,
        register_list: raw as u8,
    }
}

/// Format 15: `1100 L Rb list8`.
#[verifier::allow_in_spec]
pub fn decode_block_transfer(raw: u16) -> (instruction: ThumbInstruction)
    ensures
        instruction.valid(),
    returns
        (ThumbInstruction::BlockTransfer {
            load: raw & 0x0800 != 0,
            rb: Register::new((raw >> 8) as u8 & 7),
            register_list: raw as u8,
        }),
{
    proof {
        bits::lemma_low_bits_u8((raw >> 8) as u8);
    }
    ThumbInstruction::BlockTransfer {
        load: raw & 0x0800 != 0,
        rb: Register::new((raw >> 8) as u8 & 7),
        register_list: raw as u8,
    }
}

/// Format 16: `1101 cond offset8`.
#[verifier::allow_in_spec]
pub fn decode_conditional_branch(raw: u16) -> (instruction: ThumbInstruction)
    ensures
        instruction.valid(),
    returns
        (ThumbInstruction::ConditionalBranch {
            condition: Condition::of(((raw >> 8) & 0xF) as u32),
            offset: halfword_displacement(raw & 0xFF, 0x80) as i32,
        }),
{
    proof {
        bits::lemma_low_bits_u16(raw);
        bits::lemma_low_bits_u16(raw >> 8);
    }
    let field: i32 = (raw & 0xFF) as i32;
    let offset: i32 = if field >= 0x80 {
        2 * (field - 0x100)
    } else {
        2 * field
    };
    let nibble: u32 = ((raw >> 8) & 0xF) as u32;
    assert(nibble & 0xF == nibble) by (bit_vector)
        requires
            nibble < 16,
    ;
    ThumbInstruction::ConditionalBranch { condition: Condition::decode(nibble), offset }
}

/// Format 17: `11011111 comment8`.
#[verifier::allow_in_spec]
pub fn decode_software_interrupt(raw: u16) -> (instruction: ThumbInstruction)
    ensures
        instruction.valid(),
    returns
        (ThumbInstruction::SoftwareInterrupt {
            comment: raw as u8,
        }),
{
    ThumbInstruction::SoftwareInterrupt {
        comment: raw as u8,
    }
}

/// Format 18: `11100 offset11`.
#[verifier::allow_in_spec]
pub fn decode_unconditional_branch(raw: u16) -> (instruction: ThumbInstruction)
    ensures
        instruction.valid(),
    returns
        (ThumbInstruction::Branch {
            offset: halfword_displacement(raw & 0x7FF, 0x400) as i32,
        }),
{
    proof {
        bits::lemma_low_bits_u16(raw);
    }
    let field: i32 = (raw & 0x7FF) as i32;
    let offset: i32 = if field >= 0x400 {
        2 * (field - 0x800)
    } else {
        2 * field
    };
    ThumbInstruction::Branch { offset }
}

/// Format 19: `1111 H offset11`.
#[verifier::allow_in_spec]
pub fn decode_long_branch_link(raw: u16) -> (instruction: ThumbInstruction)
    ensures
        instruction.valid(),
    returns
        (ThumbInstruction::LongBranchLink {
            second_half: raw & 0x0800 != 0,
            exchange: false,
            offset: raw & 0x7FF,
        }),
{
    ThumbInstruction::LongBranchLink {
        second_half: raw & 0x0800 != 0,
        exchange: false,
        offset: raw & 0x7FF,
    }
}

} // verus!
