//! What the multiplies and the ARMv5TE arithmetic compute, as plain arithmetic.

use vstd::prelude::*;

use super::bus::BusModel;
use super::psr::ArmVersion;
use super::results::{flag, lemma_assigned_flags, overflows, signed};
use super::CpuState;
use crate::arm::instruction::arm::{
    CountLeadingZeros, DspMulOp, HalfwordMultiply, Multiply, MultiplyLong, SaturatingArithmetic,
    SaturatingOp,
};

verus! {

/// `MUL` leaves the product of its operands modulo 2^32 in its destination, and `MLA`
/// adds a third register to the product first; with the `S` bit N and Z follow the
/// result, C and V stay.
pub proof fn multiply_results<B: BusModel>(state: CpuState, op: Multiply, bus: B)
    requires
        state.valid(),
        op.rd.0 < 15,
        op.rm.0 < 15,
        op.rs.0 < 15,
        op.rn.0 < 15,
    ensures
        ({
            let after = state.multiply(op, bus).0;
            let exact = state.r[op.rm.0 as int] * state.r[op.rs.0 as int] + (if op.accumulate {
                state.r[op.rn.0 as int] as int
            } else {
                0
            });
            &&& after.r == state.r.update(op.rd.0 as int, (exact % 0x1_0000_0000) as u32)
            &&& !op.set_flags ==> after.cpsr == state.cpsr
            &&& op.set_flags ==> {
                &&& flag(after, 0x8000_0000) == (exact % 0x1_0000_0000 >= 0x8000_0000)
                &&& flag(after, 0x4000_0000) == (exact % 0x1_0000_0000 == 0)
                &&& after.cpsr.0 & 0x3FFF_FFFF == state.cpsr.0 & 0x3FFF_FFFF
            }
        }),
{
    let exact = state.r[op.rm.0 as int] * state.r[op.rs.0 as int] + (if op.accumulate {
        state.r[op.rn.0 as int] as int
    } else {
        0
    });
    let result = (exact % 0x1_0000_0000) as u32;
    lemma_assigned_flags(
        state.cpsr.0,
        result,
        result >= 0x8000_0000,
        result == 0,
        false,
        false,
    );
}

/// A multiply takes one internal cycle for each byte that its multiplier needs as a
/// signed number beyond a plain sign; `MLA` takes one more, the long forms another.
pub proof fn multiply_cycles<B: BusModel>(
    state: CpuState,
    op: Multiply,
    long: MultiplyLong,
    bus: B,
)
    requires
        state.valid(),
        op.rs.0 < 15,
        long.rs.0 < 15,
    ensures
        ({
            let extra = if op.accumulate {
                1int
            } else {
                0
            };
            state.multiply(op, bus).0.cycles == state.cycles + steps(state.r[op.rs.0 as int])
                + extra
        }),
        ({
            let extra = if long.accumulate {
                2int
            } else {
                1
            };
            state.multiply_long(long, bus).0.cycles == state.cycles + steps(
                state.r[long.rs.0 as int],
            ) + extra
        }),
{
}

/// How many bytes of a multiplier are looked at.
pub open spec fn steps(multiplier: u32) -> int {
    let x = signed(multiplier);
    if -0x100 <= x < 0x100 {
        1
    } else if -0x1_0000 <= x < 0x1_0000 {
        2
    } else if -0x100_0000 <= x < 0x100_0000 {
        3
    } else {
        4
    }
}

/// The 64-bit number in a register pair.
pub open spec fn doubleword(high: u32, low: u32) -> int {
    high * 0x1_0000_0000 + low
}

/// A long multiply leaves the 64-bit product, signed or unsigned, in its pair of
/// destinations, the high word in `rd_hi`; the accumulating forms first add what the
/// pair held. With the `S` bit N is the top bit of the 64 and Z tells whether all are
/// clear.
pub proof fn long_multiply_results<B: BusModel>(state: CpuState, op: MultiplyLong, bus: B)
    requires
        state.valid(),
        op.rd_hi.0 < 15,
        op.rd_lo.0 < 15,
        op.rd_hi != op.rd_lo,
        op.rm.0 < 15,
        op.rs.0 < 15,
    ensures
        ({
            let after = state.multiply_long(op, bus).0;
            let a = state.r[op.rm.0 as int];
            let b = state.r[op.rs.0 as int];
            let product = if op.signed {
                signed(a) * signed(b)
            } else {
                a * b
            };
            let exact = product + (if op.accumulate {
                doubleword(state.r[op.rd_hi.0 as int], state.r[op.rd_lo.0 as int])
            } else {
                0
            });
            let wrapped = exact % 0x1_0000_0000_0000_0000;
            &&& doubleword(after.r[op.rd_hi.0 as int], after.r[op.rd_lo.0 as int]) == wrapped
            &&& forall|i: int|
                0 <= i < 16 && i != op.rd_hi.0 && i != op.rd_lo.0 ==> after.r[i] == state.r[i]
            &&& !op.set_flags ==> after.cpsr == state.cpsr
            &&& op.set_flags ==> {
                &&& flag(after, 0x8000_0000) == (wrapped >= 0x8000_0000_0000_0000)
                &&& flag(after, 0x4000_0000) == (wrapped == 0)
                &&& after.cpsr.0 & 0x3FFF_FFFF == state.cpsr.0 & 0x3FFF_FFFF
            }
        }),
{
    let wrapped = state.long_product(op) % 0x1_0000_0000_0000_0000;
    lemma_assigned_flags(
        state.cpsr.0,
        0,
        wrapped >= 0x8000_0000_0000_0000,
        wrapped == 0,
        false,
        false,
    );
}

/// `CLZ` on ARMv5 counts the zeros above the highest set bit: 32 for zero, and
/// otherwise the bit just below that many is set and none above it is.
pub proof fn leading_zeros_are_counted(state: CpuState, op: CountLeadingZeros)
    requires
        state.valid(),
        state.version == ArmVersion::Armv5TE,
        op.rd.0 < 15,
        op.rm.0 < 15,
    ensures
        ({
            let x = state.r[op.rm.0 as int];
            let count = state.count_leading_zeros(op).r[op.rd.0 as int];
            &&& count <= 32
            &&& x == 0 <==> count == 32
            &&& count < 32 ==> (x >> ((31 - count) as u32)) & 1 != 0
            &&& x >> ((32 - count) as u32) == 0
        }),
{
    vstd::std_specs::bits::axiom_u32_leading_zeros(state.r[op.rm.0 as int]);
}

/// The nearest number in the signed 32-bit range.
pub open spec fn clamped(x: int) -> int {
    if x < -0x8000_0000 {
        -0x8000_0000
    } else if x > 0x7FFF_FFFF {
        0x7FFF_FFFF
    } else {
        x
    }
}

/// The saturating forms: `QADD` and `QSUB` add and subtract `rn`, `QDADD` and `QDSUB`
/// twice `rn`, each step held to the signed 32-bit range; Q is raised where a step had
/// to be held and never lowered.
pub proof fn saturating_results(state: CpuState, op: SaturatingArithmetic)
    requires
        state.valid(),
        state.version == ArmVersion::Armv5TE,
        op.rd.0 < 15,
        op.rm.0 < 15,
        op.rn.0 < 15,
    ensures
        ({
            let after = state.saturating(op);
            let m = signed(state.r[op.rm.0 as int]);
            let n = signed(state.r[op.rn.0 as int]);
            let term = match op.op {
                SaturatingOp::QAdd | SaturatingOp::QSub => n,
                SaturatingOp::QDAdd | SaturatingOp::QDSub => 2 * n,
            };
            let exact = match op.op {
                SaturatingOp::QAdd | SaturatingOp::QDAdd => m + clamped(term),
                SaturatingOp::QSub | SaturatingOp::QDSub => m - clamped(term),
            };
            &&& signed(after.r[op.rd.0 as int]) == clamped(exact)
            &&& forall|i: int| 0 <= i < 16 && i != op.rd.0 ==> after.r[i] == state.r[i]
            &&& overflows(term) || overflows(exact) ==> after.cpsr.0 == state.cpsr.0 | 0x0800_0000
            &&& !overflows(term) && !overflows(exact) ==> after.cpsr == state.cpsr
        }),
{
}

/// The low halfword of a word, or its high halfword, as a signed number.
pub open spec fn halfword(x: u32, top: bool) -> int {
    let h = if top {
        x as int / 0x1_0000
    } else {
        x as int % 0x1_0000
    };
    if h < 0x8000 {
        h
    } else {
        h - 0x1_0000
    }
}

proof fn lemma_high_half(x: u32)
    ensures
        x >> 16 == x as int / 0x1_0000,
{
    vstd::bits::lemma_u32_shr_is_div(x, 16);
    vstd::arithmetic::power2::lemma2_to64();
}

/// The DSP multiplies. `SMULxy` and `SMLAxy` multiply one signed halfword of each
/// operand; `SMULWy` and `SMLAWy` a word by a halfword, keeping the top 32 of 48 bits;
/// the `SMLA` forms add `rn` and raise Q where the signed sum does not fit, without
/// holding it; `SMLALxy` adds to the 64-bit pair `rd`:`rn`.
pub proof fn dsp_multiply_results(state: CpuState, op: HalfwordMultiply)
    requires
        state.valid(),
        state.version == ArmVersion::Armv5TE,
        op.rd.0 < 15,
        op.rn.0 < 15,
        op.rm.0 < 15,
        op.rs.0 < 15,
    ensures
        ({
            let after = state.halfword_multiply(op);
            let m = state.r[op.rm.0 as int];
            let s = halfword(state.r[op.rs.0 as int], op.y);
            let n = signed(state.r[op.rn.0 as int]);
            let short = halfword(m, op.x) * s;
            let wide = (signed(m) * s) / 0x1_0000;
            let sum = match op.op {
                DspMulOp::SmulXY => short,
                DspMulOp::SmlaXY => short + n,
                DspMulOp::SmulWY => wide,
                _ => wide + n,
            };
            &&& !(op.op is SmlalXY) ==> after.r[op.rd.0 as int] == sum % 0x1_0000_0000
            &&& op.op is SmulXY || op.op is SmulWY ==> after.cpsr == state.cpsr
            &&& op.op is SmlaXY || op.op is SmlaWY ==> after.cpsr.0 == (if overflows(sum) {
                state.cpsr.0 | 0x0800_0000
            } else {
                state.cpsr.0
            })
            &&& op.op is SmlalXY && op.rd != op.rn ==> doubleword(
                after.r[op.rd.0 as int],
                after.r[op.rn.0 as int],
            ) == (doubleword(state.r[op.rd.0 as int], state.r[op.rn.0 as int]) + short)
                % 0x1_0000_0000_0000_0000
        }),
{
    lemma_high_half(state.r[op.rm.0 as int]);
    lemma_high_half(state.r[op.rs.0 as int]);
}

/// On ARMv4 the ARMv5TE arithmetic traps as undefined.
pub proof fn dsp_needs_armv5(
    state: CpuState,
    zeros: CountLeadingZeros,
    saturating: SaturatingArithmetic,
    multiply: HalfwordMultiply,
)
    requires
        state.version == ArmVersion::Armv4T,
    ensures
        state.count_leading_zeros(zeros) == state.undefined(4),
        state.saturating(saturating) == state.undefined(4),
        state.halfword_multiply(multiply) == state.undefined(4),
{
}

} // verus!
