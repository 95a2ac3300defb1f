//! Laws of control flow and the status registers: where branches go, what exceptions
//! save, and which bits a status register transfer moves.

use vstd::prelude::*;

use super::bus::BusModel;
use super::laws;
use super::psr::{flag_write_reads_back, ArmVersion, Mode, Psr};
use super::results::{flag, lemma_assigned_flags, signed};
use super::CpuState;
use crate::arm::condition::Condition;
use crate::arm::instruction::arm::{
    ArmOperation, Branch, BranchExchange, BranchLinkExchange, Mrs, Msr, MsrSource,
    SoftwareInterrupt,
};
use crate::arm::instruction::thumb::{ThumbHiRegOp, ThumbInstruction};
use crate::arm::register::Register;
use crate::bits;

verus! {

/// r15 reads as the address of the instruction plus 8 in ARM state and plus 4 in Thumb
/// state, and under a register-specified shift 4 further on; any other register reads
/// as it is.
pub proof fn operand_registers(state: CpuState, register: Register)
    requires
        state.valid(),
        register.0 < 15,
    ensures
        state.reg(register) == state.r[register.0 as int],
        state.reg_register_shifted(register) == state.r[register.0 as int],
        !flag(state, 0x20) ==> state.reg(Register(15)) == (state.r[15] + 8) % 0x1_0000_0000,
        flag(state, 0x20) ==> state.reg(Register(15)) == (state.r[15] + 4) % 0x1_0000_0000,
        !flag(state, 0x20) ==> state.reg_register_shifted(Register(15)) == (state.r[15] + 12)
            % 0x1_0000_0000,
{
}

/// `B` goes to the address two words on plus its offset, and `BL` also leaves the
/// address of the next word in the link register; nothing else changes but that
/// execution was redirected.
pub proof fn branch_target(state: CpuState, op: Branch)
    requires
        state.valid(),
        !flag(state, 0x20),
    ensures
        ({
            let after = state.branch(op);
            &&& after.r[15] == (state.r[15] + 8 + op.offset) % 0x1_0000_0000
            &&& after.r[14] == (if op.link {
                (state.r[15] + 4) % 0x1_0000_0000
            } else {
                state.r[14] as int
            })
            &&& forall|i: int| 0 <= i < 14 ==> after.r[i] == state.r[i]
            &&& after.branched
            &&& after.cpsr == state.cpsr
        }),
{
}

proof fn lemma_exchange(state: CpuState, target: u32)
    requires
        state.valid(),
    ensures
        ({
            let after = state.exchange(target);
            &&& after.r[15] == target - target % 2
            &&& flag(after, 0x20) == (target % 2 == 1)
            &&& after.cpsr.0 & 0xFFFF_FFDF == state.cpsr.0 & 0xFFFF_FFDF
            &&& forall|i: int| 0 <= i < 15 ==> after.r[i] == state.r[i]
            &&& after.branched
        }),
{
    bits::lemma_low_bits_u32(target);
    flag_write_reads_back(state.cpsr, 0x20, target & 1 != 0, 0xFFFF_FFDF);
}

/// `BX` goes to the even address in its register, in Thumb state exactly where the
/// register was odd; `BLX` of a register, on ARMv5 alone, also links, but takes its
/// target first.
pub proof fn exchange_target(state: CpuState, op: BranchExchange)
    requires
        state.valid(),
        !flag(state, 0x20),
        op.rn.0 < 15,
        !op.link || state.version == ArmVersion::Armv5TE,
    ensures
        ({
            let after = state.branch_exchange(op);
            let target = state.r[op.rn.0 as int];
            &&& after.r[15] == target - target % 2
            &&& flag(after, 0x20) == (target % 2 == 1)
            &&& after.cpsr.0 & 0xFFFF_FFDF == state.cpsr.0 & 0xFFFF_FFDF
            &&& after.r[14] == (if op.link {
                (state.r[15] + 4) % 0x1_0000_0000
            } else {
                state.r[14] as int
            })
            &&& forall|i: int| 0 <= i < 14 ==> after.r[i] == state.r[i]
        }),
{
    let linked = if op.link {
        state.set_reg(Register(14), state.r[15].wrapping_add(4))
    } else {
        state
    };
    lemma_exchange(linked, state.r[op.rn.0 as int]);
}

/// `BLX` of a label, on ARMv5, links and goes on in Thumb state at the address two
/// words on plus its offset; on ARMv4 it does nothing.
pub proof fn exchange_to_a_label(state: CpuState, op: BranchLinkExchange)
    requires
        state.valid(),
        !flag(state, 0x20),
    ensures
        state.version == ArmVersion::Armv4T ==> state.branch_link_exchange(op) == state,
        state.version == ArmVersion::Armv5TE ==> {
            let after = state.branch_link_exchange(op);
            &&& after.r[15] == (state.r[15] + 8 + op.offset) % 0x1_0000_0000
            &&& after.r[14] == (state.r[15] + 4) % 0x1_0000_0000
            &&& flag(after, 0x20)
            &&& after.cpsr.0 & 0xFFFF_FFDF == state.cpsr.0 & 0xFFFF_FFDF
        },
{
    bits::lemma_low_bits_u32(0);
    flag_write_reads_back(state.cpsr, 0x20, true, 0xFFFF_FFDF);
}

/// An exception in mode `mode` (by its encoding) at `vector` that returns to
/// `return_address`: the old CPSR is the new mode's SPSR, the return address is in its
/// link register, and execution is in ARM state at the vector with IRQs masked.
pub open spec fn trapped(
    before: CpuState,
    after: CpuState,
    vector: int,
    mode: u32,
    return_address: int,
) -> bool {
    &&& after.r[15] == vector
    &&& after.r[14] == return_address % 0x1_0000_0000
    &&& after.cpsr.0 & 0x1F == mode
    &&& after.cpsr.0 & 0x20 == 0
    &&& after.cpsr.0 & 0x80 != 0
    &&& after.current_spsr() == Some(before.cpsr)
    &&& after.branched
}

proof fn lemma_trapped(state: CpuState, vector: u32, mode: Mode, return_address: u32)
    requires
        state.valid(),
        state.cpsr.mode() is Some,
        mode != Mode::User && mode != Mode::System,
    ensures
        trapped(
            state,
            state.enter_exception(vector, mode, return_address, false),
            vector as int,
            mode.bits(),
            return_address as int,
        ),
{
    laws::exception_entry_masks_irqs(state, vector, mode, return_address, false);
    super::psr::mode_write_reads_back(state.cpsr, mode);
}

/// The exceptions: undefined instructions go to 0x04 in Undefined mode, software
/// interrupts to 0x08 in Supervisor mode, breakpoints on ARMv5 to 0x0C in Abort mode
/// and IRQs to 0x18 in IRQ mode. All return to the instruction after the one they
/// interrupted; the IRQ's link register is four bytes past the one not yet executed.
pub proof fn exception_vectors(state: CpuState, size: u32)
    requires
        state.valid(),
        state.cpsr.mode() is Some,
    ensures
        trapped(state, state.undefined(size), 0x04, 0x1B, state.r[15] + size),
        trapped(state, state.software_interrupt(size), 0x08, 0x13, state.r[15] + size),
        state.version == ArmVersion::Armv5TE ==> trapped(
            state,
            state.breakpoint(),
            0x0C,
            0x17,
            state.r[15] + 4,
        ),
        state.version == ArmVersion::Armv4T ==> state.breakpoint() == state.undefined(4),
        trapped(state, state.irq(), 0x18, 0x12, state.r[15] + 4),
{
    lemma_trapped(state, 0x04, Mode::Undefined, state.r[15].wrapping_add(size));
    lemma_trapped(state, 0x08, Mode::Supervisor, state.r[15].wrapping_add(size));
    lemma_trapped(state, 0x0C, Mode::Abort, state.r[15].wrapping_add(4));
    lemma_trapped(state, 0x18, Mode::Irq, state.r[15].wrapping_add(4));
}

/// An ARM software interrupt returns to the next word and a Thumb one to the next
/// halfword; so do the undefined instructions of either state.
pub proof fn traps_return_to_the_next_instruction<B: BusModel>(
    state: CpuState,
    swi: SoftwareInterrupt,
    comment: u8,
    raw: u32,
    bus: B,
)
    requires
        state.valid(),
        state.cpsr.mode() is Some,
    ensures
        trapped(
            state,
            state.arm(ArmOperation::SoftwareInterrupt(swi), bus).0,
            0x08,
            0x13,
            state.r[15] + 4,
        ),
        trapped(
            state,
            state.arm(ArmOperation::Undefined { raw }, bus).0,
            0x04,
            0x1B,
            state.r[15] + 4,
        ),
        trapped(
            state,
            state.thumb(ThumbInstruction::SoftwareInterrupt { comment }, bus).0,
            0x08,
            0x13,
            state.r[15] + 2,
        ),
{
    assert(state.arm(ArmOperation::SoftwareInterrupt(swi), bus).0 == state.software_interrupt(4))
        by {
        reveal(CpuState::arm);
    }
    assert(state.arm(ArmOperation::Undefined { raw }, bus).0 == state.undefined(4)) by {
        reveal(CpuState::arm);
    }
    assert(state.thumb(ThumbInstruction::SoftwareInterrupt { comment }, bus).0
        == state.software_interrupt(2)) by {
        reveal(CpuState::thumb);
    }
    exception_vectors(state, 4);
    exception_vectors(state, 2);
}

/// A mode switch never touches r0 to r7 or r15, touches r8 to r12 only into or out of
/// FIQ mode, and none at all between User and System mode.
pub proof fn mode_switch_banks(state: CpuState, mode: Mode)
    requires
        state.valid(),
        state.cpsr.mode() is Some,
    ensures
        ({
            let from = state.cpsr.mode()->0;
            let after = state.change_mode(mode);
            &&& forall|i: int| 0 <= i < 8 || i == 15 ==> after.r[i] == state.r[i]
            &&& (from == Mode::Fiq) == (mode == Mode::Fiq) ==> forall|i: int|
                8 <= i < 13 ==> after.r[i] == state.r[i]
            &&& from == mode || (from == Mode::User && mode == Mode::System) || (from
                == Mode::System && mode == Mode::User) ==> after.r == state.r
            &&& after.spsr == state.spsr
            &&& after.cpsr.mode() == Some(mode)
        }),
{
    super::psr::mode_write_reads_back(state.cpsr, mode);
}

/// Each privileged mode has a stack pointer and a link register of its own: what one
/// holds there, another mode's writes do not reach.
pub proof fn banked_registers_are_private(state: CpuState, mode: Mode, sp: u32, lr: u32)
    requires
        state.valid(),
        state.cpsr.mode() is Some,
        mode != Mode::User && mode != Mode::System,
        state.cpsr.mode() != Some(mode),
    ensures
        ({
            let there = state.change_mode(mode);
            let written = CpuState { r: there.r.update(13, sp).update(14, lr), ..there };
            let back = written.change_mode(state.cpsr.mode()->0);
            let again = back.change_mode(mode);
            &&& back.r[13] == state.r[13]
            &&& back.r[14] == state.r[14]
            &&& again.r[13] == sp
            &&& again.r[14] == lr
        }),
{
    let from = state.cpsr.mode()->0;
    super::psr::mode_write_reads_back(state.cpsr, mode);
    let there = state.change_mode(mode);
    let written = CpuState { r: there.r.update(13, sp).update(14, lr), ..there };
    super::psr::mode_write_reads_back(written.cpsr, from);
}

/// `MRS` reads the CPSR, or the SPSR of a mode that has one, whole.
pub proof fn status_register_reads(state: CpuState, op: Mrs)
    requires
        state.valid(),
        op.rd.0 < 15,
    ensures
        !op.source_spsr ==> state.mrs(op).r[op.rd.0 as int] == state.cpsr.0,
        op.source_spsr && state.current_spsr() is Some ==> state.mrs(op).r[op.rd.0 as int]
            == (state.current_spsr()->0).0,
        op.source_spsr && state.current_spsr() is None ==> state.mrs(op).r[op.rd.0 as int]
            == state.cpsr.0,
        forall|i: int| 0 <= i < 16 && i != op.rd.0 ==> state.mrs(op).r[i] == state.r[i],
        state.mrs(op).cpsr == state.cpsr,
{
}

/// The byte of a status register that a field bit selects comes from the source, any
/// other stays.
pub open spec fn merged(before: u32, after: u32, source: u32, selected: bool, byte: u32) -> bool {
    after & byte == (if selected {
        source & byte
    } else {
        before & byte
    })
}

/// `MSR` moves exactly the bytes that its four field bits select, from the top down
/// flags, status, extension and control; in User mode only the four condition flags
/// can change, and in a mode without an SPSR a write to it is lost.
pub proof fn status_register_writes(state: CpuState, op: Msr, source: u32)
    requires
        state.valid(),
        op.source matches MsrSource::Register(rm) && rm.0 < 15 && state.r[rm.0 as int] == source,
    ensures
        !op.dest_spsr && state.cpsr.mode() != Some(Mode::User) ==> {
            let before = state.cpsr.0;
            let after = state.msr(op).cpsr.0;
            &&& merged(before, after, source, op.write_flags, 0xFF00_0000)
            &&& merged(before, after, source, op.write_status, 0x00FF_0000)
            &&& merged(before, after, source, op.write_extension, 0x0000_FF00)
            &&& merged(before, after, source, op.write_control, 0x0000_00FF)
        },
        !op.dest_spsr && state.cpsr.mode() == Some(Mode::User) ==> {
            let after = state.msr(op).cpsr.0;
            &&& merged(state.cpsr.0, after, source, op.write_flags, 0xF000_0000)
            &&& after & 0x0FFF_FFFF == state.cpsr.0 & 0x0FFF_FFFF
        },
        op.dest_spsr && state.current_spsr() is None ==> state.msr(op) == state,
        op.dest_spsr && state.current_spsr() is Some ==> {
            let before = (state.current_spsr()->0).0;
            let after = (state.msr(op).current_spsr()->0).0;
            &&& state.msr(op).cpsr == state.cpsr
            &&& state.msr(op).r == state.r
            &&& merged(before, after, source, op.write_flags, 0xFF00_0000)
            &&& merged(before, after, source, op.write_status, 0x00FF_0000)
            &&& merged(before, after, source, op.write_extension, 0x0000_FF00)
            &&& merged(before, after, source, op.write_control, 0x0000_00FF)
        },
{
    lemma_assigned_flags(
        state.cpsr.0,
        source,
        op.write_flags,
        op.write_status,
        op.write_extension,
        op.write_control,
    );
    if state.current_spsr() is Some {
        lemma_assigned_flags(
            (state.current_spsr()->0).0,
            source,
            op.write_flags,
            op.write_status,
            op.write_extension,
            op.write_control,
        );
    }
}

/// A Thumb branch goes to the address two halfwords on plus its offset; a conditional
/// one only where its condition passes.
pub proof fn thumb_branch_target<B: BusModel>(
    state: CpuState,
    offset: i32,
    condition: Condition,
    bus: B,
)
    requires
        state.valid(),
        flag(state, 0x20),
    ensures
        ({
            let (after, after_bus) = state.thumb(ThumbInstruction::Branch { offset }, bus);
            &&& after_bus == bus
            &&& after.branched
            &&& after.r == state.r.update(
                15,
                ((state.r[15] + 4 + offset) % 0x1_0000_0000) as u32,
            )
        }),
        state.thumb(ThumbInstruction::ConditionalBranch { condition, offset }, bus) == (
        if state.cpsr.passes(condition) {
            state.thumb(ThumbInstruction::Branch { offset }, bus)
        } else {
            (state, bus)
        }),
{
    assert(state.thumb(ThumbInstruction::Branch { offset }, bus) == (state.thumb_jump(offset), bus))
        by {
        reveal(CpuState::thumb);
    }
    assert(state.thumb(ThumbInstruction::ConditionalBranch { condition, offset }, bus) == (
    if state.cpsr.passes(condition) {
        (state.thumb_jump(offset), bus)
    } else {
        (state, bus)
    })) by {
        reveal(CpuState::thumb);
    }
}

/// `BX` in Thumb state goes to the even address in its register, staying in Thumb state
/// exactly where the register was odd.
pub proof fn thumb_exchange_target(state: CpuState, rs: Register, rd: Register)
    requires
        state.valid(),
        rs.0 < 15,
        rd.0 < 8,
    ensures
        ({
            let after = state.thumb_hi_register(ThumbHiRegOp::Bx, rs, rd);
            let target = state.r[rs.0 as int];
            &&& after.r == state.r.update(15, (target - target % 2) as u32)
            &&& flag(after, 0x20) == (target % 2 == 1)
            &&& after.cpsr.0 & 0xFFFF_FFDF == state.cpsr.0 & 0xFFFF_FFDF
        }),
{
    lemma_exchange(state, state.r[rs.0 as int]);
}

/// An instruction that does not redirect execution is followed by the next word, or
/// the next halfword; one that does leaves r15 where it put it.
pub proof fn execution_advances(state: CpuState, next: u32)
    requires
        state.valid(),
    ensures
        state.branched ==> state.advance(next).r == state.r && !state.advance(next).sequential,
        !state.branched ==> state.advance(next).r == state.r.update(15, next)
            && state.advance(next).sequential == !state.data_access,
{
}

/// The conditions read the flags: Z, C, N and V one by one, then the unsigned and the
/// signed comparisons that a subtraction leaves behind.
pub proof fn conditions_after_a_comparison(a: u32, b: u32, cpsr: Psr)
    requires
        ({
            let (difference, carry, overflow) = super::alu::difference_with_carry(a, b, true);
            &&& cpsr.n() == (difference >= 0x8000_0000)
            &&& cpsr.z() == (difference == 0)
            &&& cpsr.c() == carry
            &&& cpsr.v() == overflow
        }),
    ensures
        cpsr.passes(Condition::Eq) == (a == b),
        cpsr.passes(Condition::Ne) == (a != b),
        cpsr.passes(Condition::Cs) == (a >= b),
        cpsr.passes(Condition::Cc) == (a < b),
        cpsr.passes(Condition::Hi) == (a > b),
        cpsr.passes(Condition::Ls) == (a <= b),
        cpsr.passes(Condition::Ge) == (signed(a)
            >= signed(b)),
        cpsr.passes(Condition::Lt) == (signed(a)
            < signed(b)),
        cpsr.passes(Condition::Gt) == (signed(a)
            > signed(b)),
        cpsr.passes(Condition::Le) == (signed(a)
            <= signed(b)),
{
}

/// The plain conditions are the CPSR's top four bits: N, Z, C and V from bit 31 down;
/// `AL` always passes and `NV` never.
pub proof fn conditions_read_the_flags(cpsr: Psr)
    ensures
        cpsr.passes(Condition::Mi) == (cpsr.0 & 0x8000_0000 != 0),
        cpsr.passes(Condition::Pl) == (cpsr.0 & 0x8000_0000 == 0),
        cpsr.passes(Condition::Eq) == (cpsr.0 & 0x4000_0000 != 0),
        cpsr.passes(Condition::Ne) == (cpsr.0 & 0x4000_0000 == 0),
        cpsr.passes(Condition::Cs) == (cpsr.0 & 0x2000_0000 != 0),
        cpsr.passes(Condition::Cc) == (cpsr.0 & 0x2000_0000 == 0),
        cpsr.passes(Condition::Vs) == (cpsr.0 & 0x1000_0000 != 0),
        cpsr.passes(Condition::Vc) == (cpsr.0 & 0x1000_0000 == 0),
        cpsr.passes(Condition::Al),
        !cpsr.passes(Condition::Nv),
{
}

} // verus!
