//! What the Thumb instructions do, as plain arithmetic on the registers and as the
//! addresses of their accesses.

use vstd::prelude::*;

use super::accesses::displaced;
use super::alu::{immediate_shift, register_shift};
use super::bus::BusModel;
use super::psr::ArmVersion;
use super::results::{carry, flag, lemma_assigned_flags, overflows, signed};
use super::CpuState;
use crate::arm::instruction::arm::{HalfwordKind, ShiftKind};
use crate::arm::instruction::thumb::{
    AddSubOperand, LoadAddressSource, ThumbAluOp, ThumbHiRegOp, ThumbImmediateOp,
    ThumbInstruction, ThumbShiftOp, ThumbSignExtendOp,
};
use crate::arm::register::Register;
use crate::bits;

verus! {

/// The flags after a sum or difference: N and Z of the wrapped number, V where the
/// signed number does not fit, C as given, and nothing else changed.
pub open spec fn counted(
    before: CpuState,
    after: CpuState,
    exact: int,
    exact_signed: int,
    carry_out: bool,
) -> bool {
    let wrapped = exact % 0x1_0000_0000;
    &&& flag(after, 0x8000_0000) == (wrapped >= 0x8000_0000)
    &&& flag(after, 0x4000_0000) == (wrapped == 0)
    &&& flag(after, 0x2000_0000) == carry_out
    &&& flag(after, 0x1000_0000) == overflows(exact_signed)
    &&& after.cpsr.0 & 0x0FFF_FFFF == before.cpsr.0 & 0x0FFF_FFFF
}

/// The flags after a logical result: N and Z of it, the rest unchanged.
pub open spec fn judged(before: CpuState, after: CpuState, result: int) -> bool {
    &&& flag(after, 0x8000_0000) == (result >= 0x8000_0000)
    &&& flag(after, 0x4000_0000) == (result == 0)
    &&& after.cpsr.0 & 0x3FFF_FFFF == before.cpsr.0 & 0x3FFF_FFFF
}

proof fn lemma_added(state: CpuState, rd: Register, a: u32, b: u32, c: bool)
    requires
        state.valid(),
        rd.0 < 8,
    ensures
        ({
            let extra = if c {
                1int
            } else {
                0
            };
            let sum = super::alu::sum_with_carry(a, b, c);
            let after = state.arithmetic_to(rd, sum);
            let exact = a + b + extra;
            &&& after.r == state.r.update(rd.0 as int, (exact % 0x1_0000_0000) as u32)
            &&& counted(
                state,
                after,
                exact,
                signed(a) + signed(b) + extra,
                exact >= 0x1_0000_0000,
            )
            &&& state.compare(sum).r == state.r
            &&& counted(
                state,
                state.compare(sum),
                exact,
                signed(a) + signed(b) + extra,
                exact >= 0x1_0000_0000,
            )
        }),
{
    let (result, out, v) = super::alu::sum_with_carry(a, b, c);
    lemma_assigned_flags(state.cpsr.0, result, result >= 0x8000_0000, result == 0, out, v);
}

proof fn lemma_subtracted(state: CpuState, rd: Register, a: u32, b: u32, c: bool)
    requires
        state.valid(),
        rd.0 < 8,
    ensures
        ({
            let missing = if c {
                0int
            } else {
                1
            };
            let difference = super::alu::difference_with_carry(a, b, c);
            let after = state.arithmetic_to(rd, difference);
            let exact = a - b - missing;
            &&& after.r == state.r.update(rd.0 as int, (exact % 0x1_0000_0000) as u32)
            &&& counted(state, after, exact, signed(a) - signed(b) - missing, exact >= 0)
            &&& state.compare(difference).r == state.r
            &&& counted(
                state,
                state.compare(difference),
                exact,
                signed(a) - signed(b) - missing,
                exact >= 0,
            )
        }),
{
    let (result, out, v) = super::alu::difference_with_carry(a, b, c);
    lemma_assigned_flags(state.cpsr.0, result, result >= 0x8000_0000, result == 0, out, v);
}

/// The two-operand sums and differences of format 4: `ADC` and `SBC` with the carry,
/// `NEG` from zero, and `CMP` and `CMN` without a result.
pub proof fn thumb_sums<B: BusModel>(state: CpuState, rs: Register, rd: Register, bus: B)
    requires
        state.valid(),
        rs.0 < 8,
        rd.0 < 8,
    ensures
        ({
            let a = state.r[rd.0 as int];
            let b = state.r[rs.0 as int];
            let c = carry(state);
            let d = rd.0 as int;
            let adc = state.thumb_alu(ThumbAluOp::Adc, rs, rd, bus).0;
            let sbc = state.thumb_alu(ThumbAluOp::Sbc, rs, rd, bus).0;
            let neg = state.thumb_alu(ThumbAluOp::Neg, rs, rd, bus).0;
            let left = state.thumb_alu(ThumbAluOp::Cmp, rs, rd, bus).0;
            let both = state.thumb_alu(ThumbAluOp::Cmn, rs, rd, bus).0;
            &&& adc.r == state.r.update(d, ((a + b + c) % 0x1_0000_0000) as u32)
            &&& counted(
                state,
                adc,
                a + b + c,
                signed(a) + signed(b) + c,
                a + b + c >= 0x1_0000_0000,
            )
            &&& sbc.r == state.r.update(d, ((a - b - 1 + c) % 0x1_0000_0000) as u32)
            &&& counted(
                state,
                sbc,
                a - b - 1 + c,
                signed(a) - signed(b) - 1 + c,
                a - b - 1 + c >= 0,
            )
            &&& neg.r == state.r.update(d, ((0 - b) % 0x1_0000_0000) as u32)
            &&& counted(state, neg, 0 - b, 0 - signed(b), b == 0)
            &&& left.r == state.r
            &&& counted(state, left, a - b, signed(a) - signed(b), a >= b)
            &&& both.r == state.r
            &&& counted(state, both, a + b, signed(a) + signed(b), a + b >= 0x1_0000_0000)
        }),
{
    let a = state.r[rd.0 as int];
    let b = state.r[rs.0 as int];
    lemma_added(state, rd, a, b, state.cpsr.c());
    lemma_added(state, rd, a, b, false);
    lemma_subtracted(state, rd, a, b, state.cpsr.c());
    lemma_subtracted(state, rd, a, b, true);
    lemma_subtracted(state, rd, 0, b, true);
}

/// The logical operations of format 4 leave C and V alone: `AND`, `EOR`, `ORR` and
/// `BIC` of destination and source, `MVN` the source's complement, `TST` the flags of
/// `AND` without its result, and `MUL` the product modulo 2^32.
pub proof fn thumb_logic<B: BusModel>(state: CpuState, rs: Register, rd: Register, bus: B)
    requires
        state.valid(),
        rs.0 < 8,
        rd.0 < 8,
    ensures
        ({
            let a = state.r[rd.0 as int];
            let b = state.r[rs.0 as int];
            let d = rd.0 as int;
            let and = state.thumb_alu(ThumbAluOp::And, rs, rd, bus).0;
            let eor = state.thumb_alu(ThumbAluOp::Eor, rs, rd, bus).0;
            let orr = state.thumb_alu(ThumbAluOp::Orr, rs, rd, bus).0;
            let bic = state.thumb_alu(ThumbAluOp::Bic, rs, rd, bus).0;
            let mvn = state.thumb_alu(ThumbAluOp::Mvn, rs, rd, bus).0;
            let tst = state.thumb_alu(ThumbAluOp::Tst, rs, rd, bus).0;
            let mul = state.thumb_alu(ThumbAluOp::Mul, rs, rd, bus).0;
            &&& and.r == state.r.update(d, a & b) && judged(state, and, (a & b) as int)
            &&& eor.r == state.r.update(d, a ^ b) && judged(state, eor, (a ^ b) as int)
            &&& orr.r == state.r.update(d, a | b) && judged(state, orr, (a | b) as int)
            &&& bic.r == state.r.update(d, a & !b) && judged(state, bic, (a & !b) as int)
            &&& mvn.r == state.r.update(d, !b) && judged(state, mvn, (!b) as int)
            &&& tst.r == state.r && judged(state, tst, (a & b) as int)
            &&& mul.r == state.r.update(d, ((a * b) % 0x1_0000_0000) as u32)
            &&& judged(state, mul, (a * b) % 0x1_0000_0000)
            &&& mul.cycles == state.cycles + super::products::steps(a)
        }),
{
    let a = state.r[rd.0 as int];
    let b = state.r[rs.0 as int];
    let product = ((a * b) % 0x1_0000_0000) as u32;
    lemma_judged(state, a & b);
    lemma_judged(state, a ^ b);
    lemma_judged(state, a | b);
    lemma_judged(state, a & !b);
    lemma_judged(state, !b);
    lemma_judged(state, product);
}

proof fn lemma_judged(state: CpuState, result: u32)
    ensures
        judged(state, state.set_nz(result), result as int),
{
    lemma_assigned_flags(
        state.cpsr.0,
        result,
        result >= 0x8000_0000,
        result == 0,
        false,
        false,
    );
}

/// The shifts of format 4 shift the destination by the low byte of the source; those of
/// format 1 shift the source by an encoded amount into the destination. Both set N and
/// Z from the result and C from the shifter.
pub proof fn thumb_shifts<B: BusModel>(
    state: CpuState,
    rs: Register,
    rd: Register,
    amount: u8,
    bus: B,
)
    requires
        state.valid(),
        rs.0 < 8,
        rd.0 < 8,
        amount < 32,
    ensures
        ({
            let a = state.r[rd.0 as int];
            let b = state.r[rs.0 as int];
            let c = flag(state, 0x2000_0000);
            let with = |op: ThumbAluOp| state.thumb_alu(op, rs, rd, bus).0;
            let count = (b % 256) as u32;
            &&& shifted(state, with(ThumbAluOp::Lsl), rd, register_shift(ShiftKind::Lsl, a, count,
                c))
            &&& shifted(state, with(ThumbAluOp::Lsr), rd, register_shift(ShiftKind::Lsr, a, count,
                c))
            &&& shifted(state, with(ThumbAluOp::Asr), rd, register_shift(ShiftKind::Asr, a, count,
                c))
            &&& shifted(state, with(ThumbAluOp::Ror), rd, register_shift(ShiftKind::Ror, a, count,
                c))
        }),
        ({
            let b = state.r[rs.0 as int];
            let c = flag(state, 0x2000_0000);
            let with = |op: ThumbShiftOp|
                state.thumb(ThumbInstruction::MoveShifted { op, amount, rs, rd }, bus).0;
            &&& shifted(
                state,
                with(ThumbShiftOp::Lsl),
                rd,
                immediate_shift(ShiftKind::Lsl, b, amount, c),
            )
            &&& shifted(
                state,
                with(ThumbShiftOp::Lsr),
                rd,
                immediate_shift(ShiftKind::Lsr, b, amount, c),
            )
            &&& shifted(
                state,
                with(ThumbShiftOp::Asr),
                rd,
                immediate_shift(ShiftKind::Asr, b, amount, c),
            )
        }),
{
    let a = state.r[rd.0 as int];
    let b = state.r[rs.0 as int];
    let c = flag(state, 0x2000_0000);
    bits::lemma_low_bits_u32(b);
    lemma_shifted(state, rd, register_shift(ShiftKind::Lsl, a, b & 0xFF, c));
    lemma_shifted(state, rd, register_shift(ShiftKind::Lsr, a, b & 0xFF, c));
    lemma_shifted(state, rd, register_shift(ShiftKind::Asr, a, b & 0xFF, c));
    lemma_shifted(state, rd, register_shift(ShiftKind::Ror, a, b & 0xFF, c));
    lemma_shifted(state, rd, immediate_shift(ShiftKind::Lsl, b, amount, c));
    lemma_shifted(state, rd, immediate_shift(ShiftKind::Lsr, b, amount, c));
    lemma_shifted(state, rd, immediate_shift(ShiftKind::Asr, b, amount, c));
    lemma_move_shifted(state, ThumbShiftOp::Lsl, amount, rs, rd, bus);
    lemma_move_shifted(state, ThumbShiftOp::Lsr, amount, rs, rd, bus);
    lemma_move_shifted(state, ThumbShiftOp::Asr, amount, rs, rd, bus);
}

proof fn lemma_move_shifted<B: BusModel>(
    state: CpuState,
    op: ThumbShiftOp,
    amount: u8,
    rs: Register,
    rd: Register,
    bus: B,
)
    ensures
        ({
            let kind = match op {
                ThumbShiftOp::Lsl => ShiftKind::Lsl,
                ThumbShiftOp::Lsr => ShiftKind::Lsr,
                ThumbShiftOp::Asr => ShiftKind::Asr,
            };
            let (result, c) = immediate_shift(kind, state.reg(rs), amount, state.cpsr.c());
            state.thumb(ThumbInstruction::MoveShifted { op, amount, rs, rd }, bus) == (
                state.set_reg(rd, result).set_logical_flags(result, c),
                bus,
            )
        }),
{
    reveal(CpuState::thumb);
}

/// A shift's result is in `rd` with its N and Z and the shifter's carry.
pub open spec fn shifted(
    before: CpuState,
    after: CpuState,
    rd: Register,
    shift: (u32, bool),
) -> bool {
    &&& after.r == before.r.update(rd.0 as int, shift.0)
    &&& flag(after, 0x8000_0000) == (shift.0 >= 0x8000_0000)
    &&& flag(after, 0x4000_0000) == (shift.0 == 0)
    &&& flag(after, 0x2000_0000) == shift.1
    &&& flag(after, 0x1000_0000) == flag(before, 0x1000_0000)
    &&& after.cpsr.0 & 0x0FFF_FFFF == before.cpsr.0 & 0x0FFF_FFFF
}

proof fn lemma_shifted(state: CpuState, rd: Register, shift: (u32, bool))
    requires
        state.valid(),
        rd.0 < 8,
    ensures
        shifted(
            state,
            state.set_reg(rd, shift.0).set_logical_flags(shift.0, shift.1),
            rd,
            shift,
        ),
{
    lemma_assigned_flags(
        state.cpsr.0,
        shift.0,
        shift.0 >= 0x8000_0000,
        shift.0 == 0,
        shift.1,
        false,
    );
}

/// Formats 2 and 3: a register plus or less a register or a small number, and the
/// eight-bit immediates.
pub proof fn thumb_immediates<B: BusModel>(
    state: CpuState,
    rn: Register,
    rs: Register,
    rd: Register,
    number: u8,
    bus: B,
)
    requires
        state.valid(),
        rn.0 < 8,
        rs.0 < 8,
        rd.0 < 8,
    ensures
        ({
            let a = state.r[rs.0 as int];
            let b = state.r[rn.0 as int];
            let old_d = state.r[rd.0 as int];
            let d = rd.0 as int;
            let pair = |subtract: bool, operand: AddSubOperand|
                state.thumb(ThumbInstruction::AddSubtract { subtract, operand, rs, rd }, bus).0;
            let single = |op: ThumbImmediateOp|
                state.thumb(ThumbInstruction::AluImmediate { op, rd, immediate: number }, bus).0;
            let sum = pair(false, AddSubOperand::Register(rn));
            let difference = pair(true, AddSubOperand::Register(rn));
            let more = pair(false, AddSubOperand::Immediate(number));
            let less = pair(true, AddSubOperand::Immediate(number));
            &&& sum.r == state.r.update(d, ((a + b) % 0x1_0000_0000) as u32)
            &&& counted(state, sum, a + b, signed(a) + signed(b), a + b >= 0x1_0000_0000)
            &&& difference.r == state.r.update(d, ((a - b) % 0x1_0000_0000) as u32)
            &&& counted(state, difference, a - b, signed(a) - signed(b), a >= b)
            &&& more.r == state.r.update(d, ((a + number) % 0x1_0000_0000) as u32)
            &&& counted(state, more, a + number, signed(a) + number, a + number >= 0x1_0000_0000)
            &&& less.r == state.r.update(d, ((a - number) % 0x1_0000_0000) as u32)
            &&& counted(state, less, a - number, signed(a) - number, a >= number)
            &&& single(ThumbImmediateOp::Mov).r == state.r.update(d, number as u32)
            &&& judged(state, single(ThumbImmediateOp::Mov), number as int)
            &&& single(ThumbImmediateOp::Cmp).r == state.r
            &&& counted(
                state,
                single(ThumbImmediateOp::Cmp),
                old_d - number,
                signed(old_d) - number,
                old_d >= number,
            )
            &&& single(ThumbImmediateOp::Add).r == state.r.update(
                d,
                ((old_d + number) % 0x1_0000_0000) as u32,
            )
            &&& counted(
                state,
                single(ThumbImmediateOp::Add),
                old_d + number,
                signed(old_d) + number,
                old_d + number >= 0x1_0000_0000,
            )
            &&& single(ThumbImmediateOp::Sub).r == state.r.update(
                d,
                ((old_d - number) % 0x1_0000_0000) as u32,
            )
            &&& counted(
                state,
                single(ThumbImmediateOp::Sub),
                old_d - number,
                signed(old_d) - number,
                old_d >= number,
            )
        }),
{
    let a = state.r[rs.0 as int];
    let b = state.r[rn.0 as int];
    let held = state.r[rd.0 as int];
    lemma_add_subtract(state, false, AddSubOperand::Register(rn), rs, rd, bus);
    lemma_add_subtract(state, true, AddSubOperand::Register(rn), rs, rd, bus);
    lemma_add_subtract(state, false, AddSubOperand::Immediate(number), rs, rd, bus);
    lemma_add_subtract(state, true, AddSubOperand::Immediate(number), rs, rd, bus);
    lemma_alu_immediate(state, rd, number, bus);
    lemma_added(state, rd, a, b, false);
    lemma_added(state, rd, a, number as u32, false);
    lemma_added(state, rd, held, number as u32, false);
    lemma_subtracted(state, rd, a, b, true);
    lemma_subtracted(state, rd, a, number as u32, true);
    lemma_subtracted(state, rd, held, number as u32, true);
    lemma_judged(state, number as u32);
}

proof fn lemma_add_subtract<B: BusModel>(
    state: CpuState,
    subtract: bool,
    operand: AddSubOperand,
    rs: Register,
    rd: Register,
    bus: B,
)
    ensures
        ({
            let b = match operand {
                AddSubOperand::Register(r) => state.reg(r),
                AddSubOperand::Immediate(imm) => imm as u32,
            };
            state.thumb(ThumbInstruction::AddSubtract { subtract, operand, rs, rd }, bus).0
                == state.arithmetic_to(
                rd,
                if subtract {
                    super::alu::difference_with_carry(state.reg(rs), b, true)
                } else {
                    super::alu::sum_with_carry(state.reg(rs), b, false)
                },
            )
        }),
{
    reveal(CpuState::thumb);
}

proof fn lemma_alu_immediate<B: BusModel>(state: CpuState, rd: Register, immediate: u8, bus: B)
    ensures
        ({
            let single = |op: ThumbImmediateOp|
                state.thumb(ThumbInstruction::AluImmediate { op, rd, immediate }, bus).0;
            let a = state.reg(rd);
            let b = immediate as u32;
            &&& single(ThumbImmediateOp::Mov) == state.logical_to(rd, b)
            &&& single(ThumbImmediateOp::Cmp) == state.compare(
                super::alu::difference_with_carry(a, b, true),
            )
            &&& single(ThumbImmediateOp::Add) == state.arithmetic_to(
                rd,
                super::alu::sum_with_carry(a, b, false),
            )
            &&& single(ThumbImmediateOp::Sub) == state.arithmetic_to(
                rd,
                super::alu::difference_with_carry(a, b, true),
            )
        }),
{
    reveal(CpuState::thumb);
}

/// Format 5: `ADD` and `MOV` between any registers leave the flags alone, `CMP` sets
/// them; the ARMv5 `BLX` links to the next halfword, marked as Thumb.
pub proof fn thumb_high_registers(state: CpuState, rs: Register, rd: Register)
    requires
        state.valid(),
        rs.0 < 15,
        rd.0 < 15,
    ensures
        ({
            let a = state.r[rd.0 as int];
            let b = state.r[rs.0 as int];
            let sum = state.thumb_hi_register(ThumbHiRegOp::Add, rs, rd);
            let copy = state.thumb_hi_register(ThumbHiRegOp::Mov, rs, rd);
            &&& sum == (CpuState {
                r: state.r.update(rd.0 as int, ((a + b) % 0x1_0000_0000) as u32),
                ..state
            })
            &&& copy == (CpuState { r: state.r.update(rd.0 as int, b), ..state })
            &&& counted(
                state,
                state.thumb_hi_register(ThumbHiRegOp::Cmp, rs, rd),
                a - b,
                signed(a) - signed(b),
                a >= b,
            )
            &&& state.thumb_hi_register(ThumbHiRegOp::Cmp, rs, rd).r == state.r
        }),
        rd.0 >= 8 && rs.0 < 14 && state.version == ArmVersion::Armv5TE ==> {
            let after = state.thumb_hi_register(ThumbHiRegOp::Bx, rs, rd);
            let target = state.r[rs.0 as int];
            let next = (state.r[15] + 2) % 0x1_0000_0000;
            &&& after.r[15] == target - target % 2
            &&& after.r[14] == next + 1 - next % 2
        },
{
    lemma_subtracted(state, Register(0), state.r[rd.0 as int], state.r[rs.0 as int], true);
    bits::lemma_low_bits_u32(state.r[rs.0 as int]);
    bits::lemma_low_bits_u32(state.r[15].wrapping_add(2));
}

/// A word or byte transfer of `rd` at an address.
pub open spec fn transfers<B: BusModel>(
    state: CpuState,
    outcome: (CpuState, B),
    bus: B,
    load: bool,
    byte: bool,
    address: u32,
    rd: Register,
) -> bool {
    let (after, after_bus) = outcome;
    &&& after.data_access
    &&& after.cpsr == state.cpsr
    &&& load ==> {
        let (value, loaded, read_bus) = state.load_word_or_byte(bus, address, byte);
        &&& after_bus == read_bus.idled(1)
        &&& after.r == state.r.update(rd.0 as int, value)
        &&& after.cycles == loaded.cycles + 1
    }
    &&& !load ==> {
        let (cycles, stored) = if byte {
            bus.stored8(address, state.r[rd.0 as int] as u8, false)
        } else {
            bus.stored32(address, state.r[rd.0 as int], false)
        };
        &&& after_bus == stored
        &&& after.r == state.r
        &&& after.cycles == state.cycles + cycles
    }
}

/// A word wrapped to 32 bits.
pub open spec fn wrapped(x: int) -> u32 {
    (x % 0x1_0000_0000) as u32
}

/// The addresses of the Thumb word and byte transfers: two registers added; a register
/// plus an offset that counts words, or bytes for a byte transfer; the stack pointer
/// plus a count of words.
pub proof fn thumb_transfer_addresses<B: BusModel>(
    state: CpuState,
    load: bool,
    byte: bool,
    ro: Register,
    rb: Register,
    rd: Register,
    offset: u8,
    bus: B,
)
    requires
        state.valid(),
        ro.0 < 8,
        rb.0 < 8,
        rd.0 < 8,
    ensures
        transfers(
            state,
            state.thumb(ThumbInstruction::LoadStoreRegister { load, byte, ro, rb, rd }, bus),
            bus,
            load,
            byte,
            wrapped(state.r[rb.0 as int] + state.r[ro.0 as int]),
            rd,
        ),
        transfers(
            state,
            state.thumb(ThumbInstruction::LoadStoreImmediate { load, byte, offset, rb, rd }, bus),
            bus,
            load,
            byte,
            wrapped(
                state.r[rb.0 as int] + offset * (if byte {
                    1int
                } else {
                    4
                }),
            ),
            rd,
        ),
        transfers(
            state,
            state.thumb(ThumbInstruction::SpRelativeLoadStore { load, rd, word8: offset }, bus),
            bus,
            load,
            false,
            wrapped(state.r[13] + offset * 4),
            rd,
        ),
{
    lemma_load_store(state, load, byte, ro, rb, rd, offset, bus);
}

proof fn lemma_load_store<B: BusModel>(
    state: CpuState,
    load: bool,
    byte: bool,
    ro: Register,
    rb: Register,
    rd: Register,
    offset: u8,
    bus: B,
)
    ensures
        state.thumb(ThumbInstruction::LoadStoreRegister { load, byte, ro, rb, rd }, bus)
            == state.thumb_load_store(
            bus,
            load,
            byte,
            state.reg(rb).wrapping_add(state.reg(ro)),
            rd,
        ),
        state.thumb(ThumbInstruction::LoadStoreImmediate { load, byte, offset, rb, rd }, bus)
            == state.thumb_load_store(
            bus,
            load,
            byte,
            state.reg(rb).wrapping_add(
                if byte {
                    offset as u32
                } else {
                    (offset * 4) as u32
                },
            ),
            rd,
        ),
        state.thumb(ThumbInstruction::SpRelativeLoadStore { load, rd, word8: offset }, bus)
            == state.thumb_load_store(
            bus,
            load,
            false,
            state.reg(Register(13)).wrapping_add((offset * 4) as u32),
            rd,
        ),
{
    reveal(CpuState::thumb);
}

/// The Thumb halfword and signed transfers: two registers added, or a register plus a
/// count of halfwords; the store takes the low halfword, the loads extend as their
/// names say.
pub proof fn thumb_halfword_transfers<B: BusModel>(
    state: CpuState,
    op: ThumbSignExtendOp,
    ro: Register,
    rb: Register,
    rd: Register,
    offset: u8,
    load: bool,
    bus: B,
)
    requires
        state.valid(),
        ro.0 < 8,
        rb.0 < 8,
        rd.0 < 8,
    ensures
        extends(
            state,
            state.thumb(ThumbInstruction::LoadStoreSignExtended { op, ro, rb, rd }, bus),
            bus,
            op,
            wrapped(state.r[rb.0 as int] + state.r[ro.0 as int]),
            rd,
        ),
        extends(
            state,
            state.thumb(ThumbInstruction::LoadStoreHalfword { load, offset, rb, rd }, bus),
            bus,
            if load {
                ThumbSignExtendOp::LoadHalfword
            } else {
                ThumbSignExtendOp::StoreHalfword
            },
            wrapped(state.r[rb.0 as int] + offset * 2),
            rd,
        ),
{
    lemma_sign_extended(state, op, ro, rb, rd, offset, load, bus);
}

proof fn lemma_sign_extended<B: BusModel>(
    state: CpuState,
    op: ThumbSignExtendOp,
    ro: Register,
    rb: Register,
    rd: Register,
    offset: u8,
    load: bool,
    bus: B,
)
    ensures
        state.thumb(ThumbInstruction::LoadStoreSignExtended { op, ro, rb, rd }, bus)
            == state.thumb_sign_extended(
            bus,
            op,
            state.reg(rb).wrapping_add(state.reg(ro)),
            rd,
        ),
        state.thumb(ThumbInstruction::LoadStoreHalfword { load, offset, rb, rd }, bus)
            == state.thumb_sign_extended(
            bus,
            if load {
                ThumbSignExtendOp::LoadHalfword
            } else {
                ThumbSignExtendOp::StoreHalfword
            },
            state.reg(rb).wrapping_add((offset * 2) as u32),
            rd,
        ),
{
    reveal(CpuState::thumb);
}

/// A halfword or signed transfer of `rd` at an address.
pub open spec fn extends<B: BusModel>(
    state: CpuState,
    outcome: (CpuState, B),
    bus: B,
    op: ThumbSignExtendOp,
    address: u32,
    rd: Register,
) -> bool {
    let (after, after_bus) = outcome;
    &&& after.data_access
    &&& after.cpsr == state.cpsr
    &&& match op {
        ThumbSignExtendOp::StoreHalfword => {
            let (cycles, stored) = bus.stored16(address, state.r[rd.0 as int] as u16, false);
            &&& after_bus == stored
            &&& after.r == state.r
            &&& after.cycles == state.cycles + cycles
        },
        ThumbSignExtendOp::LoadHalfword => loads(
            state,
            outcome,
            bus,
            HalfwordKind::UnsignedHalfword,
            address,
            rd,
        ),
        ThumbSignExtendOp::LoadSignedByte => loads(
            state,
            outcome,
            bus,
            HalfwordKind::SignedByte,
            address,
            rd,
        ),
        ThumbSignExtendOp::LoadSignedHalfword => loads(
            state,
            outcome,
            bus,
            HalfwordKind::SignedHalfword,
            address,
            rd,
        ),
    }
}

/// An extending load of `rd` from an address.
pub open spec fn loads<B: BusModel>(
    state: CpuState,
    outcome: (CpuState, B),
    bus: B,
    kind: HalfwordKind,
    address: u32,
    rd: Register,
) -> bool {
    let (value, loaded, read_bus) = state.load_extended(bus, address, kind);
    &&& outcome.1 == read_bus.idled(1)
    &&& outcome.0.r == state.r.update(rd.0 as int, value)
    &&& outcome.0.cycles == loaded.cycles + 1
}

/// The address computations: a load relative to the PC and an address relative to it
/// start at the word-aligned address two halfwords on; the stack pointer moves by whole
/// words.
pub proof fn thumb_relative_addresses<B: BusModel>(
    state: CpuState,
    rd: Register,
    count: u8,
    subtract: bool,
    bus: B,
)
    requires
        state.valid(),
        flag(state, 0x20),
        rd.0 < 8,
    ensures
        ({
            let here = (state.r[15] + 4) % 0x1_0000_0000;
            let aligned = here - here % 4;
            let load = state.thumb(ThumbInstruction::PcRelativeLoad { rd, word8: count }, bus);
            let (read, read_bus) = bus.loaded32(wrapped(aligned + 4 * count), false);
            let from_pc = state.thumb(
                ThumbInstruction::LoadAddress { source: LoadAddressSource::Pc, rd, word8: count },
                bus,
            );
            let from_sp = state.thumb(
                ThumbInstruction::LoadAddress { source: LoadAddressSource::Sp, rd, word8: count },
                bus,
            );
            let moved = state.thumb(
                ThumbInstruction::AdjustStackPointer { subtract, word7: count },
                bus,
            );
            &&& load.0.r == state.r.update(rd.0 as int, read.value)
            &&& load.1 == read_bus.idled(1)
            &&& load.0.cycles == state.cycles + read.cycles + 1
            &&& from_pc.0.r == state.r.update(rd.0 as int, wrapped(aligned + 4 * count))
            &&& from_sp.0.r == state.r.update(rd.0 as int, wrapped(state.r[13] + 4 * count))
            &&& moved.0.r == state.r.update(
                13,
                displaced(state.r[13], (4 * count) as u32, !subtract) as u32,
            )
            &&& from_pc.1 == bus && from_sp.1 == bus && moved.1 == bus
            &&& from_pc.0.cpsr == state.cpsr && from_sp.0.cpsr == state.cpsr && moved.0.cpsr
                == state.cpsr
        }),
{
    lemma_relative(state, rd, count, subtract, bus);
    bits::lemma_low_bits_u32(state.reg(Register(15)));
}

proof fn lemma_relative<B: BusModel>(
    state: CpuState,
    rd: Register,
    count: u8,
    subtract: bool,
    bus: B,
)
    ensures
        ({
            let s = state.touching_data();
            let address = (s.reg(Register(15)) & !3).wrapping_add((count * 4) as u32);
            let (value, read, read_bus) = s.load32(bus, address, false);
            let (idle, idle_bus) = read.idle(read_bus, 1);
            state.thumb(ThumbInstruction::PcRelativeLoad { rd, word8: count }, bus) == (
                idle.set_reg(rd, value),
                idle_bus,
            )
        }),
        state.thumb(
            ThumbInstruction::LoadAddress { source: LoadAddressSource::Pc, rd, word8: count },
            bus,
        ) == (
            state.set_reg(
                rd,
                (state.reg(Register(15)) & !3).wrapping_add((count * 4) as u32),
            ),
            bus,
        ),
        state.thumb(
            ThumbInstruction::LoadAddress { source: LoadAddressSource::Sp, rd, word8: count },
            bus,
        ) == (
            state.set_reg(rd, state.reg(Register(13)).wrapping_add((count * 4) as u32)),
            bus,
        ),
        state.thumb(ThumbInstruction::AdjustStackPointer { subtract, word7: count }, bus) == (
            state.set_reg(
                Register(13),
                CpuState::moved(state.reg(Register(13)), (count * 4) as u32, !subtract),
            ),
            bus,
        ),
{
    reveal(CpuState::thumb);
}

/// A Thumb block goes word by word: the registers of a list from the lowest on, each
/// four bytes on from the one before.
pub proof fn thumb_block_goes_word_by_word<B: BusModel>(
    state: CpuState,
    load: bool,
    list: u8,
    i: u16,
    address: u32,
    sequential: bool,
    bus: B,
)
    requires
        state.valid(),
        i < 8,
    ensures
        list as u16 & (1u16 << i) == 0 ==> state.thumb_registers(
            load,
            list,
            None,
            i,
            address,
            sequential,
            bus,
        ) == state.thumb_registers(load, list, None, (i + 1) as u16, address, sequential, bus),
        list as u16 & (1u16 << i) != 0 && load ==> {
            let (read, read_bus) = bus.loaded32(address, sequential);
            let loaded = CpuState {
                r: state.r.update(i as int, read.value),
                cycles: state.cycles + read.cycles,
                ..state
            };
            state.thumb_registers(load, list, None, i, address, sequential, bus)
                == loaded.thumb_registers(
                load,
                list,
                None,
                (i + 1) as u16,
                wrapped(address + 4),
                true,
                read_bus,
            )
        },
        list as u16 & (1u16 << i) != 0 && !load ==> {
            let (cycles, stored) = bus.stored32(address, state.r[i as int], sequential);
            let spent = CpuState { cycles: state.cycles + cycles, ..state };
            state.thumb_registers(load, list, None, i, address, sequential, bus)
                == spent.thumb_registers(
                load,
                list,
                None,
                (i + 1) as u16,
                wrapped(address + 4),
                true,
                stored,
            )
        },
{
    bits::lemma_low_bits_u8(i as u8);
}

/// `PUSH` moves the stack pointer down by a word for each register and stores them from
/// there up, the link register last; `POP` loads them back from the stack pointer on,
/// the PC last, and moves it up as far.
pub proof fn thumb_stack_moves<B: BusModel>(state: CpuState, list: u8, with_link: bool, bus: B)
    requires
        state.valid(),
    ensures
        ({
            let count = bits::ones_below(list as u16, 16) + (if with_link {
                1int
            } else {
                0
            });
            let base = wrapped(state.r[13] - 4 * count);
            let (pushed, pushed_bus) = state.thumb_push(bus, with_link, list);
            let (s, b, address, sequential) = state.thumb_registers(
                false,
                list,
                None,
                0,
                base,
                false,
                bus,
            );
            &&& s.r.len() == 16 ==> pushed.r == s.r.update(13, base)
            &&& pushed_bus == (if with_link {
                b.stored32(address, s.r[14], sequential).1
            } else {
                b
            })
        }),
        ({
            let (popped, popped_bus) = state.thumb_pop(bus, with_link, list);
            let (s, b, address, sequential) = state.thumb_registers(
                true,
                list,
                None,
                0,
                state.r[13],
                false,
                bus,
            );
            let (read, read_bus) = b.loaded32(address, sequential);
            &&& s.r.len() == 16 && !with_link ==> popped.r == s.r.update(13, address)
                && popped_bus == b.idled(1)
            &&& s.r.len() == 16 && with_link ==> popped.r[15] == read.value - read.value % 2
                && popped.r[13] == wrapped(address + 4) && popped_bus == read_bus.idled(1)
        }),
{
    let (s, b, address, sequential) = state.thumb_registers(
        true,
        list,
        None,
        0,
        state.r[13],
        false,
        bus,
    );
    bits::lemma_low_bits_u32(b.loaded32(address, sequential).0.value);
    bits::lemma_ones_below_bound(list as u16, 16);
}

} // verus!
