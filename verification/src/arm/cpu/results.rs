//! What the ARM arithmetic instructions compute, stated as plain arithmetic on the
//! registers before and after.

use vstd::prelude::*;

use super::CpuState;
use crate::arm::instruction::arm::{
    DataProcessing, DataProcessingOpcode, Operand2, ShiftKind, ShiftSource,
};
use crate::arm::register::Register;

verus! {

/// A word read as a two's-complement number.
pub open spec fn signed(x: u32) -> int {
    if x < 0x8000_0000 {
        x as int
    } else {
        x - 0x1_0000_0000
    }
}

/// Whether a bit of the CPSR is set.
pub open spec fn flag(state: CpuState, bit: u32) -> bool {
    state.cpsr.0 & bit != 0
}

/// The carry flag as a number.
pub open spec fn carry(state: CpuState) -> int {
    if flag(state, 0x2000_0000) {
        1
    } else {
        0
    }
}

/// Whether a number is outside the signed 32-bit range.
pub open spec fn overflows(x: int) -> bool {
    x < -0x8000_0000 || x > 0x7FFF_FFFF
}

/// A word with the bits of a mask set or cleared.
pub open spec fn assigned(bits: u32, mask: u32, on: bool) -> u32 {
    if on {
        bits | mask
    } else {
        bits & !mask
    }
}

/// Assigning the condition flags one after the other, and the bytes of a status
/// register under a mask.
pub proof fn lemma_assigned_flags(bits: u32, x: u32, n: bool, z: bool, c: bool, v: bool)
    by (bit_vector)
    ensures
        (x & 0x8000_0000 != 0) == (x >= 0x8000_0000),
        ({
            let mask = (if n {
                0xFF00_0000u32
            } else {
                0u32
            }) | (if z {
                0x00FF_0000u32
            } else {
                0u32
            }) | (if c {
                0x0000_FF00u32
            } else {
                0u32
            }) | (if v {
                0x0000_00FFu32
            } else {
                0u32
            });
            let w = (bits & !mask) | (x & mask);
            let low = (bits & !(mask & 0xF000_0000)) | (x & (mask & 0xF000_0000));
            &&& w & 0xFF00_0000 == (if n {
                x & 0xFF00_0000
            } else {
                bits & 0xFF00_0000
            })
            &&& w & 0x00FF_0000 == (if z {
                x & 0x00FF_0000
            } else {
                bits & 0x00FF_0000
            })
            &&& w & 0x0000_FF00 == (if c {
                x & 0x0000_FF00
            } else {
                bits & 0x0000_FF00
            })
            &&& w & 0x0000_00FF == (if v {
                x & 0x0000_00FF
            } else {
                bits & 0x0000_00FF
            })
            &&& low & 0x0FFF_FFFF == bits & 0x0FFF_FFFF
            &&& low & 0xF000_0000 == (if n {
                x & 0xF000_0000
            } else {
                bits & 0xF000_0000
            })
        }),
        ({
            let w = assigned(assigned(bits, 0x8000_0000, n), 0x4000_0000, z);
            &&& (w & 0x8000_0000 != 0) == n
            &&& (w & 0x4000_0000 != 0) == z
            &&& w & 0x3FFF_FFFF == bits & 0x3FFF_FFFF
            &&& w & 0x2000_0000 == bits & 0x2000_0000
            &&& w & 0x1000_0000 == bits & 0x1000_0000
        }),
        ({
            let w = assigned(
                assigned(assigned(bits, 0x8000_0000, n), 0x4000_0000, z),
                0x2000_0000,
                c,
            );
            &&& (w & 0x8000_0000 != 0) == n
            &&& (w & 0x4000_0000 != 0) == z
            &&& (w & 0x2000_0000 != 0) == c
            &&& w & 0x1000_0000 == bits & 0x1000_0000
            &&& w & 0x0FFF_FFFF == bits & 0x0FFF_FFFF
        }),
        ({
            let w = assigned(
                assigned(
                    assigned(assigned(bits, 0x8000_0000, n), 0x4000_0000, z),
                    0x2000_0000,
                    c,
                ),
                0x1000_0000,
                v,
            );
            &&& (w & 0x8000_0000 != 0) == n
            &&& (w & 0x4000_0000 != 0) == z
            &&& (w & 0x2000_0000 != 0) == c
            &&& (w & 0x1000_0000 != 0) == v
            &&& w & 0x0FFF_FFFF == bits & 0x0FFF_FFFF
        }),
{
}

/// The first operand of a data-processing instruction: a register, or the address
/// of the instruction two words on (three, where the second operand is shifted by
/// a register).
pub open spec fn first_operand(state: CpuState, op: DataProcessing) -> int {
    if op.rn.0 != 15 {
        state.r[op.rn.0 as int] as int
    } else if op.operand2 matches Operand2::Register { rm, shift } && shift.source is Register {
        (state.r[15] + 12) % 0x1_0000_0000
    } else {
        (state.r[15] + 8) % 0x1_0000_0000
    }
}

/// The value that a data-processing instruction computes from its two operands
/// and the carry, as a number before it wraps; the logical instructions are
/// stated by [`logical_results`].
pub open spec fn exact_result(opcode: DataProcessingOpcode, a: int, b: int, c: int) -> int {
    match opcode {
        DataProcessingOpcode::Add | DataProcessingOpcode::Cmn => a + b,
        DataProcessingOpcode::Adc => a + b + c,
        DataProcessingOpcode::Sub | DataProcessingOpcode::Cmp => a - b,
        DataProcessingOpcode::Sbc => a - b - 1 + c,
        DataProcessingOpcode::Rsb => b - a,
        DataProcessingOpcode::Rsc => b - a - 1 + c,
        _ => 0,
    }
}

/// Whether an opcode adds or subtracts.
pub open spec fn computes(opcode: DataProcessingOpcode) -> bool {
    match opcode {
        DataProcessingOpcode::And
        | DataProcessingOpcode::Eor
        | DataProcessingOpcode::Tst
        | DataProcessingOpcode::Teq
        | DataProcessingOpcode::Orr
        | DataProcessingOpcode::Mov
        | DataProcessingOpcode::Bic
        | DataProcessingOpcode::Mvn => false,
        _ => true,
    }
}

/// Whether an opcode writes its destination.
pub open spec fn writes(opcode: DataProcessingOpcode) -> bool {
    match opcode {
        DataProcessingOpcode::Tst
        | DataProcessingOpcode::Teq
        | DataProcessingOpcode::Cmp
        | DataProcessingOpcode::Cmn => false,
        _ => true,
    }
}

proof fn lemma_exact(opcode: DataProcessingOpcode, a: u32, b: u32, shifter: bool, c: bool)
    requires
        computes(opcode),
    ensures
        CpuState::alu_result(opcode, a, b, shifter, c).0 == exact_result(
            opcode,
            a as int,
            b as int,
            if c {
                1
            } else {
                0
            },
        ) % 0x1_0000_0000,
{
}

/// An adding or subtracting instruction leaves in its destination the exact sum or
/// difference of its operands modulo 2^32: `SUB` the first less the second, `RSB`
/// the second less the first, `SBC` and `RSC` one less again while the carry is
/// clear. `CMP` and `CMN` write no register. No other register changes.
pub proof fn arithmetic_results(state: CpuState, op: DataProcessing)
    requires
        state.valid(),
        !flag(state, 0x20),
        op.rn.valid(),
        op.rd.0 < 15,
        computes(op.opcode),
    ensures
        ({
            let a = first_operand(state, op);
            let b = state.eval_operand2(op.operand2).0 as int;
            let after = state.data_processing(op);
            &&& writes(op.opcode) ==> after.r[op.rd.0 as int] == exact_result(
                op.opcode,
                a,
                b,
                carry(state),
            ) % 0x1_0000_0000
            &&& forall|i: int|
                0 <= i < 16 && (i != op.rd.0 || !writes(op.opcode)) ==> after.r[i] == state.r[i]
        }),
{
    let (b, c) = state.eval_operand2(op.operand2);
    let rn = first_operand(state, op) as u32;
    lemma_exact(op.opcode, rn, b, c, state.cpsr.c());
    let (result, carry_out, v) = CpuState::alu_result(op.opcode, rn, b, c, state.cpsr.c());
    let after = state.data_processing(op);
    assert(after.r == (if writes(op.opcode) {
        state.r.update(op.rd.0 as int, result)
    } else {
        state.r
    }));
}

/// `rsb rd, rn, #0` negates: the result and the operand sum to nothing modulo
/// 2^32, and `RSB` of two operands is `SUB` of the same two exchanged.
pub proof fn reverse_subtraction(
    state: CpuState,
    rd: Register,
    rn: Register,
    rm: Register,
    set_flags: bool,
)
    requires
        state.valid(),
        !flag(state, 0x20),
        rd.0 < 15,
        rn.0 < 15,
        rm.0 < 15,
    ensures
        ({
            let zero = Operand2::Immediate { value: 0, rotate: 0 };
            let op = DataProcessing {
                opcode: DataProcessingOpcode::Rsb,
                set_flags,
                rd,
                rn,
                operand2: zero,
            };
            (state.data_processing(op).r[rd.0 as int] + state.r[rn.0 as int]) % 0x1_0000_0000 == 0
        }),
        ({
            let plain = crate::arm::instruction::arm::Shift {
                kind: ShiftKind::Lsl,
                source: ShiftSource::Immediate(0),
            };
            let reversed = DataProcessing {
                opcode: DataProcessingOpcode::Rsb,
                set_flags,
                rd,
                rn,
                operand2: Operand2::Register { rm, shift: plain },
            };
            let exchanged = DataProcessing {
                opcode: DataProcessingOpcode::Sub,
                set_flags,
                rd,
                rn: rm,
                operand2: Operand2::Register { rm: rn, shift: plain },
            };
            state.data_processing(reversed) == state.data_processing(exchanged)
        }),
{
}

/// With the `S` bit an adding or subtracting instruction sets N to the sign of its
/// result, Z where the result is zero, C where a sum carried out or a difference
/// borrowed nothing, and V where the signed result does not fit; the rest of the
/// CPSR stays. Without the `S` bit the CPSR stays whole.
pub proof fn arithmetic_flags(state: CpuState, op: DataProcessing)
    requires
        state.valid(),
        !flag(state, 0x20),
        op.rn.valid(),
        op.rd.0 < 15,
        computes(op.opcode),
    ensures
        ({
            let a = first_operand(state, op);
            let b = state.eval_operand2(op.operand2).0 as int;
            let exact = exact_result(op.opcode, a, b, carry(state));
            let wrapped = exact % 0x1_0000_0000;
            let exact_signed = exact_result(
                op.opcode,
                signed(a as u32),
                signed(b as u32),
                carry(state),
            );
            let after = state.data_processing(op);
            &&& !op.set_flags ==> after.cpsr == state.cpsr
            &&& op.set_flags ==> {
                &&& flag(after, 0x8000_0000) == (wrapped >= 0x8000_0000)
                &&& flag(after, 0x4000_0000) == (wrapped == 0)
                &&& flag(after, 0x1000_0000) == overflows(exact_signed)
                &&& after.cpsr.0 & 0x0FFF_FFFF == state.cpsr.0 & 0x0FFF_FFFF
                &&& match op.opcode {
                    DataProcessingOpcode::Add
                    | DataProcessingOpcode::Cmn
                    | DataProcessingOpcode::Adc => flag(after, 0x2000_0000) == (exact
                        >= 0x1_0000_0000),
                    _ => flag(after, 0x2000_0000) == (exact >= 0),
                }
            }
        }),
{
    let b = state.eval_operand2(op.operand2).0;
    let rn = first_operand(state, op) as u32;
    let (result, c, v) = CpuState::alu_result(
        op.opcode,
        rn,
        b,
        state.eval_operand2(op.operand2).1,
        state.cpsr.c(),
    );
    lemma_assigned_flags(state.cpsr.0, result, result >= 0x8000_0000, result == 0, c, v);
}

proof fn lemma_logic(a: u32, b: u32)
    by (bit_vector)
    ensures
        (a & b) + (a & !b) == a,
        (a | b) + (a & b) == a + b,
        (a ^ b) + (a & b) == (a | b),
        !b + b == 0xFFFF_FFFFu32,
{
}

/// The destination of a data-processing instruction after `opcode` was executed in
/// place of the instruction's own.
pub open spec fn destination(
    state: CpuState,
    op: DataProcessing,
    opcode: DataProcessingOpcode,
) -> int {
    state.data_processing(DataProcessing { opcode, ..op }).r[op.rd.0 as int] as int
}

/// The logical instructions divide up their operands' bits: `AND` and `BIC` keep
/// the first operand's bits where the second has and has not a bit, `ORR` has the
/// bits of either, `EOR` those of exactly one, `MOV` the second operand itself and
/// `MVN` its complement. `AND` of an operand with itself is that operand.
pub proof fn logical_results(state: CpuState, op: DataProcessing)
    requires
        state.valid(),
        !flag(state, 0x20),
        op.rn.valid(),
        op.rd.0 < 15,
    ensures
        ({
            let a = first_operand(state, op);
            let b = state.eval_operand2(op.operand2).0;
            let and = destination(state, op, DataProcessingOpcode::And);
            let bic = destination(state, op, DataProcessingOpcode::Bic);
            let orr = destination(state, op, DataProcessingOpcode::Orr);
            let eor = destination(state, op, DataProcessingOpcode::Eor);
            &&& and == (a as u32) & b
            &&& and + bic == a
            &&& orr + and == a + b
            &&& eor + and == orr
            &&& destination(state, op, DataProcessingOpcode::Mov) == b
            &&& destination(state, op, DataProcessingOpcode::Mvn) == 0xFFFF_FFFF - b
        }),
{
    lemma_logic(first_operand(state, op) as u32, state.eval_operand2(op.operand2).0);
}

/// A logical instruction with the `S` bit sets N and Z from its result and C from
/// the shifter, and keeps V and the rest of the CPSR; `TST` sets the flags that
/// `AND` would and `TEQ` those that `EOR` would, and neither writes a register.
pub proof fn logical_flags(state: CpuState, op: DataProcessing)
    requires
        state.valid(),
        !flag(state, 0x20),
        op.rn.valid(),
        op.rd.0 < 15,
        !computes(op.opcode),
    ensures
        ({
            let shadow = match op.opcode {
                DataProcessingOpcode::Tst => DataProcessingOpcode::And,
                DataProcessingOpcode::Teq => DataProcessingOpcode::Eor,
                _ => op.opcode,
            };
            let result = destination(state, op, shadow);
            let after = state.data_processing(op);
            &&& !op.set_flags ==> after.cpsr == state.cpsr
            &&& op.set_flags ==> {
                &&& flag(after, 0x8000_0000) == (result >= 0x8000_0000)
                &&& flag(after, 0x4000_0000) == (result == 0)
                &&& flag(after, 0x2000_0000) == state.eval_operand2(op.operand2).1
                &&& flag(after, 0x1000_0000) == flag(state, 0x1000_0000)
                &&& after.cpsr.0 & 0x0FFF_FFFF == state.cpsr.0 & 0x0FFF_FFFF
            }
            &&& forall|i: int|
                0 <= i < 16 && (i != op.rd.0 || !writes(op.opcode)) ==> after.r[i] == state.r[i]
        }),
{
    let (b, c) = state.eval_operand2(op.operand2);
    let rn = first_operand(state, op) as u32;
    let (result, carry, v) = CpuState::alu_result(op.opcode, rn, b, c, state.cpsr.c());
    lemma_assigned_flags(state.cpsr.0, result, result >= 0x8000_0000, result == 0, c, v);
}

} // verus!
