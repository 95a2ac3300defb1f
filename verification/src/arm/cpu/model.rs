//! The programmer-visible state of a core, and what each instruction class does
//! to it.
//!
//! A [`CpuState`] is what a [`super::Cpu`] stands for. The functions on it are the
//! instruction semantics: each maps a state (and, where memory is touched, a bus)
//! to the state (and the bus) that execution leaves behind. The order of the bus
//! accesses is the order in which the bus value is threaded through.

use vstd::prelude::*;

use super::alu;
use super::bus::BusModel;
use super::psr::{ArmVersion, Mode, Psr};
use crate::arm::decode::{decode_arm, decode_thumb};
use crate::arm::instruction::arm::{
    ArmOperation, BlockTransfer, Branch, BranchExchange, BranchLinkExchange,
    CoprocessorRegisterTransfer, CountLeadingZeros, DataProcessing, DataProcessingOpcode,
    DoublewordTransfer, DspMulOp, HalfwordKind, HalfwordMultiply, HalfwordOffset, HalfwordTransfer,
    Mrs, Msr, MsrSource, Multiply, MultiplyLong, Operand2, SaturatingArithmetic, ShiftKind,
    ShiftSource, SingleOffset, SingleTransfer, Swap,
};
use crate::arm::instruction::thumb::{
    AddSubOperand, LoadAddressSource, ThumbAluOp, ThumbHiRegOp, ThumbImmediateOp,
    ThumbInstruction, ThumbShiftOp, ThumbSignExtendOp,
};
use crate::arm::register::Register;
use crate::bits;

verus! {

/// The state of a core.
#[verifier::ext_equal]
pub struct CpuState {
    /// r0..r15; `r[15]` is the address of the instruction being executed.
    pub r: Seq<u32>,
    pub cpsr: Psr,
    /// r13 of each bank, indexed by [`CpuState::bank13`]; the entry of the active
    /// bank is stale.
    pub banked_r13: Seq<u32>,
    /// r14 of each bank.
    pub banked_r14: Seq<u32>,
    /// r8..r12 of the modes other than FIQ, while FIQ mode is active.
    pub banked_common: Seq<u32>,
    /// r8..r12 of FIQ mode, while another mode is active.
    pub banked_fiq: Seq<u32>,
    /// The SPSRs, indexed by [`CpuState::spsr_index`].
    pub spsr: Seq<Psr>,
    /// Guest cycles executed so far.
    pub cycles: int,
    /// Whether the current instruction redirected the PC.
    pub branched: bool,
    /// Whether the next fetch follows on the previous one.
    pub sequential: bool,
    /// Whether the current instruction accessed data.
    pub data_access: bool,
    pub version: ArmVersion,
}

impl CpuState {
    /// A fresh core in System mode, all registers zero.
    pub open spec fn reset(version: ArmVersion) -> CpuState {
        CpuState {
            r: Seq::new(16, |i: int| 0u32),
            cpsr: Psr(0).with_mode(Mode::System),
            banked_r13: Seq::new(6, |i: int| 0u32),
            banked_r14: Seq::new(6, |i: int| 0u32),
            banked_common: Seq::new(5, |i: int| 0u32),
            banked_fiq: Seq::new(5, |i: int| 0u32),
            spsr: Seq::new(5, |i: int| Psr(0)),
            cycles: 0,
            branched: false,
            sequential: false,
            data_access: false,
            version,
        }
    }

    /// The register files have their sizes.
    pub open spec fn valid(self) -> bool {
        &&& self.r.len() == 16
        &&& self.banked_r13.len() == 6
        &&& self.banked_r14.len() == 6
        &&& self.banked_common.len() == 5
        &&& self.banked_fiq.len() == 5
        &&& self.spsr.len() == 5
        &&& self.cycles >= 0
    }

    /// Whether the cycle counter can take `accesses` more bus accesses.
    pub open spec fn has_room(self, accesses: int) -> bool {
        self.cycles + accesses * 0x1_0000_0000 <= u64::MAX
    }

    // --- Registers ---

    /// The pipeline offset at which r15 is read as an operand.
    pub open spec fn pc_offset(self) -> u32 {
        if self.cpsr.thumb() {
            4
        } else {
            8
        }
    }

    /// A register read as an operand.
    pub open spec fn reg(self, register: Register) -> u32 {
        if register.is_pc() {
            self.r[15].wrapping_add(self.pc_offset())
        } else {
            self.r[register.0 as int]
        }
    }

    /// A register read by an instruction with a register-specified shift: r15 is
    /// one more instruction ahead.
    pub open spec fn reg_register_shifted(self, register: Register) -> u32 {
        if register.is_pc() {
            self.r[15].wrapping_add((self.pc_offset() + 4) as u32)
        } else {
            self.r[register.0 as int]
        }
    }

    /// Whether r8..r12 of User mode are banked away.
    pub open spec fn user_r8_banked(self) -> bool {
        self.cpsr.mode() == Some(Mode::Fiq)
    }

    /// Whether r13 and r14 of User mode are banked away.
    pub open spec fn user_r13_banked(self) -> bool {
        self.cpsr.mode() != Some(Mode::User) && self.cpsr.mode() != Some(Mode::System)
    }

    /// A register of the User bank.
    pub open spec fn reg_user(self, index: int) -> u32 {
        if 8 <= index <= 12 && self.user_r8_banked() {
            self.banked_common[index - 8]
        } else if index == 13 && self.user_r13_banked() {
            self.banked_r13[0]
        } else if index == 14 && self.user_r13_banked() {
            self.banked_r14[0]
        } else {
            self.r[index]
        }
    }

    /// A write to a register of the User bank.
    pub open spec fn set_reg_user(self, index: int, value: u32) -> CpuState {
        if 8 <= index <= 12 && self.user_r8_banked() {
            CpuState { banked_common: self.banked_common.update(index - 8, value), ..self }
        } else if index == 13 && self.user_r13_banked() {
            CpuState { banked_r13: self.banked_r13.update(0, value), ..self }
        } else if index == 14 && self.user_r13_banked() {
            CpuState { banked_r14: self.banked_r14.update(0, value), ..self }
        } else {
            CpuState { r: self.r.update(index, value), ..self }
        }
    }

    /// A register write; writing r15 redirects execution.
    pub open spec fn set_reg(self, register: Register, value: u32) -> CpuState {
        if register.is_pc() {
            CpuState { r: self.r.update(15, value), branched: true, ..self }
        } else {
            CpuState { r: self.r.update(register.0 as int, value), ..self }
        }
    }

    /// The N and Z flags of a result.
    pub open spec fn set_nz(self, result: u32) -> CpuState {
        CpuState {
            cpsr: self.cpsr.with(Psr::N, result & 0x8000_0000 != 0).with(Psr::Z, result == 0),
            ..self
        }
    }

    /// The flags of a logical operation.
    pub open spec fn set_logical_flags(self, result: u32, carry: bool) -> CpuState {
        let s = self.set_nz(result);
        CpuState { cpsr: s.cpsr.with(Psr::C, carry), ..s }
    }

    /// The flags of an arithmetic operation.
    pub open spec fn set_arithmetic_flags(
        self,
        result: u32,
        carry: bool,
        overflow: bool,
    ) -> CpuState {
        let s = self.set_nz(result);
        CpuState { cpsr: s.cpsr.with(Psr::C, carry).with(Psr::V, overflow), ..s }
    }

    // --- Bus accesses, each with its cycles counted ---

    /// Cycles counted.
    pub open spec fn spend(self, cycles: int) -> CpuState {
        CpuState { cycles: self.cycles + cycles, ..self }
    }

    /// Internal cycles.
    pub open spec fn idle<B: BusModel>(self, bus: B, cycles: u32) -> (CpuState, B) {
        (self.spend(cycles as int), bus.idled(cycles))
    }

    /// A word load.
    pub open spec fn load32<B: BusModel>(self, bus: B, address: u32, sequential: bool) -> (
        u32,
        CpuState,
        B,
    ) {
        let (read, after) = bus.loaded32(address, sequential);
        (read.value, self.spend(read.cycles as int), after)
    }

    /// A halfword load.
    pub open spec fn load16<B: BusModel>(self, bus: B, address: u32) -> (u16, CpuState, B) {
        let (read, after) = bus.loaded16(address, false);
        (read.value, self.spend(read.cycles as int), after)
    }

    /// A byte load.
    pub open spec fn load8<B: BusModel>(self, bus: B, address: u32) -> (u8, CpuState, B) {
        let (read, after) = bus.loaded8(address, false);
        (read.value, self.spend(read.cycles as int), after)
    }

    /// A word store.
    pub open spec fn store32<B: BusModel>(
        self,
        bus: B,
        address: u32,
        value: u32,
        sequential: bool,
    ) -> (CpuState, B) {
        let (cycles, after) = bus.stored32(address, value, sequential);
        (self.spend(cycles as int), after)
    }

    /// A halfword store.
    pub open spec fn store16<B: BusModel>(self, bus: B, address: u32, value: u16) -> (CpuState, B) {
        let (cycles, after) = bus.stored16(address, value, false);
        (self.spend(cycles as int), after)
    }

    /// A byte store.
    pub open spec fn store8<B: BusModel>(self, bus: B, address: u32, value: u8) -> (CpuState, B) {
        let (cycles, after) = bus.stored8(address, value, false);
        (self.spend(cycles as int), after)
    }

    /// A word load at any address: the aligned word, rotated so that the
    /// addressed byte is lowest.
    pub open spec fn load_rotated<B: BusModel>(self, bus: B, address: u32) -> (u32, CpuState, B) {
        let (word, s, after) = self.load32(bus, address & !3, false);
        (bits::rotated_right(word, ((address & 3) * 8) as u32), s, after)
    }

    /// A word or zero-extended byte load.
    pub open spec fn load_word_or_byte<B: BusModel>(self, bus: B, address: u32, byte: bool) -> (
        u32,
        CpuState,
        B,
    ) {
        if byte {
            let (value, s, after) = self.load8(bus, address);
            (value as u32, s, after)
        } else {
            self.load_rotated(bus, address)
        }
    }

    /// A word or byte store.
    pub open spec fn store_word_or_byte<B: BusModel>(
        self,
        bus: B,
        address: u32,
        value: u32,
        byte: bool,
    ) -> (CpuState, B) {
        if byte {
            self.store8(bus, address, value as u8)
        } else {
            self.store32(bus, address, value, false)
        }
    }

    /// A halfword or sign-extended load. An odd `LDRH` rotates the aligned
    /// halfword; an odd `LDRSH` loads the signed byte there.
    pub open spec fn load_extended<B: BusModel>(self, bus: B, address: u32, kind: HalfwordKind) -> (
        u32,
        CpuState,
        B,
    ) {
        match kind {
            HalfwordKind::UnsignedHalfword => {
                let (value, s, after) = self.load16(bus, address & !1);
                (
                    if address & 1 != 0 {
                        bits::rotated_right(value as u32, 8)
                    } else {
                        value as u32
                    },
                    s,
                    after,
                )
            },
            HalfwordKind::SignedByte => {
                let (value, s, after) = self.load8(bus, address);
                (bits::wrapped32(bits::signed8(value as u32)), s, after)
            },
            HalfwordKind::SignedHalfword => if address & 1 != 0 {
                let (value, s, after) = self.load8(bus, address);
                (bits::wrapped32(bits::signed8(value as u32)), s, after)
            } else {
                let (value, s, after) = self.load16(bus, address);
                (bits::wrapped32(bits::signed16(value as u32)), s, after)
            },
        }
    }

    // --- Status registers, banking, and exceptions ---

    /// The r13/r14 bank of a mode.
    pub open spec fn bank13(mode: Mode) -> int {
        match mode {
            Mode::User | Mode::System => 0,
            Mode::Fiq => 1,
            Mode::Irq => 2,
            Mode::Supervisor => 3,
            Mode::Abort => 4,
            Mode::Undefined => 5,
        }
    }

    /// The SPSR of a mode, where it has one.
    pub open spec fn spsr_index(mode: Mode) -> Option<int> {
        match mode {
            Mode::Fiq => Some(0),
            Mode::Irq => Some(1),
            Mode::Supervisor => Some(2),
            Mode::Abort => Some(3),
            Mode::Undefined => Some(4),
            Mode::User | Mode::System => None,
        }
    }

    /// The index of the current mode's SPSR.
    pub open spec fn current_spsr_index(self) -> Option<int> {
        match self.cpsr.mode() {
            Some(mode) => Self::spsr_index(mode),
            None => None,
        }
    }

    /// The SPSR of the current mode.
    pub open spec fn current_spsr(self) -> Option<Psr> {
        match self.current_spsr_index() {
            Some(i) => Some(self.spsr[i]),
            None => None,
        }
    }

    /// A write to the SPSR of the current mode; lost in a mode without one.
    pub open spec fn set_current_spsr(self, value: Psr) -> CpuState {
        match self.current_spsr_index() {
            Some(i) => CpuState { spsr: self.spsr.update(i, value), ..self },
            None => self,
        }
    }

    /// r13 and r14 exchanged between two banks.
    pub open spec fn swap_r13(self, from: int, to: int) -> CpuState {
        if from == to {
            self
        } else {
            CpuState {
                r: self.r.update(13, self.banked_r13[to]).update(14, self.banked_r14[to]),
                banked_r13: self.banked_r13.update(from, self.r[13]),
                banked_r14: self.banked_r14.update(from, self.r[14]),
                ..self
            }
        }
    }

    /// r8..r12 replaced by `values`.
    pub open spec fn with_r8_r12(self, values: Seq<u32>) -> Seq<u32> {
        self.r.update(8, values[0]).update(9, values[1]).update(10, values[2]).update(
            11,
            values[3],
        ).update(12, values[4])
    }

    /// r8..r12 exchanged on entering or leaving FIQ mode.
    pub open spec fn swap_r8_r12(self, from_fiq: bool, to_fiq: bool) -> CpuState {
        let current = seq![self.r[8], self.r[9], self.r[10], self.r[11], self.r[12]];
        if from_fiq == to_fiq {
            self
        } else if from_fiq {
            CpuState {
                r: self.with_r8_r12(self.banked_common),
                banked_fiq: current,
                ..self
            }
        } else {
            CpuState {
                r: self.with_r8_r12(self.banked_fiq),
                banked_common: current,
                ..self
            }
        }
    }

    /// The mode whose registers are in place: a reserved mode field counts as
    /// System.
    pub open spec fn effective_mode(self) -> Mode {
        match self.cpsr.mode() {
            Some(mode) => mode,
            None => Mode::System,
        }
    }

    /// A switch to another mode, with its registers brought into place.
    pub open spec fn change_mode(self, mode: Mode) -> CpuState {
        let current = self.effective_mode();
        if current == mode {
            self
        } else {
            let s = self.swap_r13(Self::bank13(current), Self::bank13(mode)).swap_r8_r12(
                current == Mode::Fiq,
                mode == Mode::Fiq,
            );
            CpuState { cpsr: s.cpsr.with_mode(mode), ..s }
        }
    }

    /// A write of the whole CPSR.
    pub open spec fn write_cpsr(self, value: Psr) -> CpuState {
        let s = match value.mode() {
            Some(mode) => self.change_mode(mode),
            None => self,
        };
        CpuState { cpsr: value, ..s }
    }

    /// The CPSR restored from the current SPSR, where there is one.
    pub open spec fn restore_cpsr(self) -> CpuState {
        match self.current_spsr() {
            Some(spsr) => self.write_cpsr(spsr),
            None => self,
        }
    }

    /// Exception entry: the CPSR goes to the SPSR of the new mode, the return
    /// address to its LR; ARM state with IRQs masked, at the vector.
    pub open spec fn enter_exception(
        self,
        vector: u32,
        mode: Mode,
        return_address: u32,
        disable_fiq: bool,
    ) -> CpuState {
        let s = self.change_mode(mode).set_current_spsr(self.cpsr);
        let masked = s.cpsr.with(Psr::T, false).with(Psr::I, true);
        CpuState {
            r: s.r.update(14, return_address).update(15, vector),
            cpsr: if disable_fiq {
                masked.with(Psr::F, true)
            } else {
                masked
            },
            branched: true,
            sequential: false,
            ..s
        }
    }

    /// The Undefined Instruction trap of an instruction `size` bytes long.
    pub open spec fn undefined(self, size: u32) -> CpuState {
        self.enter_exception(0x04, Mode::Undefined, self.r[15].wrapping_add(size), false)
    }

    /// A software interrupt of an instruction `size` bytes long.
    pub open spec fn software_interrupt(self, size: u32) -> CpuState {
        self.enter_exception(0x08, Mode::Supervisor, self.r[15].wrapping_add(size), false)
    }

    /// `BKPT`.
    pub open spec fn breakpoint(self) -> CpuState {
        if self.version.is_v5() {
            self.enter_exception(0x0C, Mode::Abort, self.r[15].wrapping_add(4), false)
        } else {
            self.undefined(4)
        }
    }

    /// The entry to the IRQ exception.
    pub open spec fn irq(self) -> CpuState {
        self.enter_exception(0x18, Mode::Irq, self.r[15].wrapping_add(4), false)
    }

    // --- ARM data processing ---

    /// The value of the flexible second operand, and the shifter's carry.
    pub open spec fn eval_operand2(self, operand2: Operand2) -> (u32, bool) {
        match operand2 {
            Operand2::Immediate { value, rotate } => {
                let result = bits::rotated_right(value as u32, (rotate * 2) as u32);
                (
                    result,
                    if rotate == 0 {
                        self.cpsr.c()
                    } else {
                        result & 0x8000_0000 != 0
                    },
                )
            },
            Operand2::Register { rm, shift } => match shift.source {
                ShiftSource::Immediate(amount) => alu::immediate_shift(
                    shift.kind,
                    self.reg(rm),
                    amount,
                    self.cpsr.c(),
                ),
                ShiftSource::Register(rs) => alu::register_shift(
                    shift.kind,
                    self.reg_register_shifted(rm),
                    self.reg(rs) & 0xFF,
                    self.cpsr.c(),
                ),
            },
        }
    }

    /// Whether the operand is shifted by a register.
    pub open spec fn shifts_by_register(operand2: Operand2) -> bool {
        operand2 matches Operand2::Register { rm, shift } && shift.source is Register
    }

    /// The result of an opcode, with its carry and overflow. The logical opcodes
    /// pass the shifter's carry on and report no overflow.
    pub open spec fn alu_result(
        opcode: DataProcessingOpcode,
        rn: u32,
        operand2: u32,
        shifter_carry: bool,
        carry_in: bool,
    ) -> (u32, bool, bool) {
        match opcode {
            DataProcessingOpcode::And | DataProcessingOpcode::Tst => (
                rn & operand2,
                shifter_carry,
                false,
            ),
            DataProcessingOpcode::Eor | DataProcessingOpcode::Teq => (
                rn ^ operand2,
                shifter_carry,
                false,
            ),
            DataProcessingOpcode::Orr => (rn | operand2, shifter_carry, false),
            DataProcessingOpcode::Bic => (rn & !operand2, shifter_carry, false),
            DataProcessingOpcode::Mov => (operand2, shifter_carry, false),
            DataProcessingOpcode::Mvn => (!operand2, shifter_carry, false),
            DataProcessingOpcode::Sub | DataProcessingOpcode::Cmp => alu::difference_with_carry(
                rn,
                operand2,
                true,
            ),
            DataProcessingOpcode::Rsb => alu::difference_with_carry(operand2, rn, true),
            DataProcessingOpcode::Add | DataProcessingOpcode::Cmn => alu::sum_with_carry(
                rn,
                operand2,
                false,
            ),
            DataProcessingOpcode::Adc => alu::sum_with_carry(rn, operand2, carry_in),
            DataProcessingOpcode::Sbc => alu::difference_with_carry(rn, operand2, carry_in),
            DataProcessingOpcode::Rsc => alu::difference_with_carry(operand2, rn, carry_in),
        }
    }

    /// Whether an opcode is arithmetic and so sets V.
    pub open spec fn is_arithmetic(opcode: DataProcessingOpcode) -> bool {
        match opcode {
            DataProcessingOpcode::Sub
            | DataProcessingOpcode::Rsb
            | DataProcessingOpcode::Add
            | DataProcessingOpcode::Adc
            | DataProcessingOpcode::Sbc
            | DataProcessingOpcode::Rsc
            | DataProcessingOpcode::Cmp
            | DataProcessingOpcode::Cmn => true,
            _ => false,
        }
    }

    /// A data-processing instruction. With the `S` bit and r15 as destination the
    /// CPSR is restored from the SPSR instead of set from the result.
    pub open spec fn data_processing(self, op: DataProcessing) -> CpuState {
        let (operand2, shifter_carry) = self.eval_operand2(op.operand2);
        let rn = if Self::shifts_by_register(op.operand2) {
            self.reg_register_shifted(op.rn)
        } else {
            self.reg(op.rn)
        };
        let (result, carry, overflow) = Self::alu_result(
            op.opcode,
            rn,
            operand2,
            shifter_carry,
            self.cpsr.c(),
        );
        let s = if op.opcode.is_comparison() {
            self
        } else {
            self.set_reg(op.rd, result)
        };
        if !op.set_flags {
            s
        } else if op.rd.is_pc() {
            s.restore_cpsr()
        } else if Self::is_arithmetic(op.opcode) {
            s.set_arithmetic_flags(result, carry, overflow)
        } else {
            s.set_logical_flags(result, carry)
        }
    }

    // --- Multiplies and ARMv5TE arithmetic ---

    /// `MUL`/`MLA`.
    pub open spec fn multiply<B: BusModel>(self, op: Multiply, bus: B) -> (CpuState, B) {
        let rs = self.reg(op.rs);
        let result = bits::wrapped32(
            self.reg(op.rm) * rs + (if op.accumulate {
                self.reg(op.rn) as int
            } else {
                0
            }),
        );
        let s = self.set_reg(op.rd, result);
        let s = if op.set_flags {
            s.set_nz(result)
        } else {
            s
        };
        s.idle(
            bus,
            (alu::multiply_time(rs) + (if op.accumulate {
                1int
            } else {
                0
            })) as u32,
        )
    }

    /// The 64-bit product of a long multiply, before it wraps.
    pub open spec fn long_product(self, op: MultiplyLong) -> int {
        let rm = self.reg(op.rm);
        let rs = self.reg(op.rs);
        (if op.signed {
            bits::signed32(rm) * bits::signed32(rs)
        } else {
            rm * rs
        }) + (if op.accumulate {
            self.reg(op.rd_hi) * 0x1_0000_0000 + self.reg(op.rd_lo)
        } else {
            0
        })
    }

    /// `UMULL`/`UMLAL`/`SMULL`/`SMLAL`.
    pub open spec fn multiply_long<B: BusModel>(self, op: MultiplyLong, bus: B) -> (CpuState, B) {
        let result = self.long_product(op) % 0x1_0000_0000_0000_0000;
        let s = self.set_reg(op.rd_lo, (result % 0x1_0000_0000) as u32).set_reg(
            op.rd_hi,
            (result / 0x1_0000_0000) as u32,
        );
        let s = if op.set_flags {
            CpuState {
                cpsr: s.cpsr.with(Psr::N, result >= 0x8000_0000_0000_0000).with(
                    Psr::Z,
                    result == 0,
                ),
                ..s
            }
        } else {
            s
        };
        s.idle(
            bus,
            (alu::multiply_time(self.reg(op.rs)) + (if op.accumulate {
                2int
            } else {
                1
            })) as u32,
        )
    }

    /// `CLZ`.
    pub open spec fn count_leading_zeros(self, op: CountLeadingZeros) -> CpuState {
        if self.version.is_v5() {
            self.set_reg(op.rd, self.reg(op.rm).leading_zeros())
        } else {
            self.undefined(4)
        }
    }

    /// The nearest signed 32-bit value.
    pub open spec fn saturated(x: int) -> int {
        if x > 0x7FFF_FFFF {
            0x7FFF_FFFF
        } else if x < -0x8000_0000 {
            -0x8000_0000
        } else {
            x
        }
    }

    /// The sticky Q flag raised where `saturated`.
    pub open spec fn raise_q(self, saturated: bool) -> CpuState {
        if saturated {
            CpuState { cpsr: self.cpsr.with(Psr::Q, true), ..self }
        } else {
            self
        }
    }

    /// `QADD`/`QSUB`/`QDADD`/`QDSUB`.
    pub open spec fn saturating(self, op: SaturatingArithmetic) -> CpuState {
        if !self.version.is_v5() {
            self.undefined(4)
        } else {
            let rm = bits::signed32(self.reg(op.rm));
            let rn = bits::signed32(self.reg(op.rn));
            let doubled = if op.op is QDAdd || op.op is QDSub {
                2 * rn
            } else {
                rn
            };
            let second = Self::saturated(doubled);
            let exact = if op.op is QAdd || op.op is QDAdd {
                rm + second
            } else {
                rm - second
            };
            let result = Self::saturated(exact);
            self.raise_q(second != doubled || result != exact).set_reg(
                op.rd,
                bits::wrapped32(result),
            )
        }
    }

    /// One halfword of a register, sign-extended.
    pub open spec fn half(value: u32, top: bool) -> int {
        bits::signed16(
            if top {
                value >> 16
            } else {
                value
            },
        )
    }

    /// The DSP multiplies. The accumulating 32-bit forms raise Q on overflow
    /// without saturating.
    pub open spec fn halfword_multiply(self, op: HalfwordMultiply) -> CpuState {
        if !self.version.is_v5() {
            self.undefined(4)
        } else {
            let rm = self.reg(op.rm);
            let rs = Self::half(self.reg(op.rs), op.y);
            let rn = bits::signed32(self.reg(op.rn));
            let product = Self::half(rm, op.x) * rs;
            let wide = (bits::signed32(rm) * rs) / 0x1_0000;
            match op.op {
                DspMulOp::SmulXY => self.set_reg(op.rd, bits::wrapped32(product)),
                DspMulOp::SmlaXY => self.raise_q(
                    Self::saturated(product + rn) != product + rn,
                ).set_reg(op.rd, bits::wrapped32(product + rn)),
                DspMulOp::SmulWY => self.set_reg(op.rd, bits::wrapped32(wide)),
                DspMulOp::SmlaWY => self.raise_q(
                    Self::saturated(wide + rn) != wide + rn,
                ).set_reg(op.rd, bits::wrapped32(wide + rn)),
                DspMulOp::SmlalXY => {
                    let result = (self.reg(op.rd) * 0x1_0000_0000 + self.reg(op.rn) + product)
                        % 0x1_0000_0000_0000_0000;
                    self.set_reg(op.rn, (result % 0x1_0000_0000) as u32).set_reg(
                        op.rd,
                        (result / 0x1_0000_0000) as u32,
                    )
                },
            }
        }
    }

    // --- ARM memory transfers ---

    /// The offset of a single transfer.
    pub open spec fn single_offset(self, offset: SingleOffset) -> u32 {
        match offset {
            SingleOffset::Immediate(imm) => imm as u32,
            SingleOffset::Register { rm, shift } => match shift.source {
                ShiftSource::Immediate(amount) => alu::immediate_shift(
                    shift.kind,
                    self.reg(rm),
                    amount,
                    self.cpsr.c(),
                ).0,
                ShiftSource::Register(_) => self.reg(rm),
            },
        }
    }

    /// The offset of a halfword or doubleword transfer.
    pub open spec fn extra_offset(self, offset: HalfwordOffset) -> u32 {
        match offset {
            HalfwordOffset::Immediate(imm) => imm as u32,
            HalfwordOffset::Register(rm) => self.reg(rm),
        }
    }

    /// A base moved by an offset.
    pub open spec fn moved(base: u32, offset: u32, add: bool) -> u32 {
        if add {
            base.wrapping_add(offset)
        } else {
            base.wrapping_sub(offset)
        }
    }

    /// The base-register writeback of a transfer. Post-indexed always writes
    /// back; pre-indexed only with `W`.
    pub open spec fn apply_writeback(
        self,
        pre_indexed: bool,
        writeback: bool,
        rn: Register,
        value: u32,
    ) -> CpuState {
        if !pre_indexed || writeback {
            self.set_reg(rn, value)
        } else {
            self
        }
    }

    /// The register write of a word load: on ARMv5, loading r15 also chooses the
    /// instruction set from bit 0.
    pub open spec fn set_loaded(self, rd: Register, value: u32, byte: bool) -> CpuState {
        if rd.is_pc() && !byte && self.version.is_v5() {
            let s = CpuState { cpsr: self.cpsr.with(Psr::T, value & 1 != 0), ..self };
            s.set_reg(rd, value & !1)
        } else {
            self.set_reg(rd, value)
        }
    }

    /// Marked as having accessed data.
    pub open spec fn touching_data(self) -> CpuState {
        CpuState { data_access: true, ..self }
    }

    /// `LDR`/`STR`. The loaded register is written after the base, so it wins
    /// where they are the same; r15 is stored 12 bytes ahead.
    pub open spec fn single_transfer<B: BusModel>(self, op: SingleTransfer, bus: B) -> (CpuState, B) {
        let s = self.touching_data();
        let base = s.reg(op.rn);
        let moved = Self::moved(base, s.single_offset(op.offset), op.add);
        let address = if op.pre_indexed {
            moved
        } else {
            base
        };
        if op.load {
            let (value, s, bus) = s.load_word_or_byte(bus, address, op.byte);
            let (s, bus) = s.idle(bus, 1);
            (
                s.apply_writeback(op.pre_indexed, op.writeback, op.rn, moved).set_loaded(
                    op.rd,
                    value,
                    op.byte,
                ),
                bus,
            )
        } else {
            let value = if op.rd.is_pc() {
                s.reg(op.rd).wrapping_add(4)
            } else {
                s.reg(op.rd)
            };
            let (s, bus) = s.store_word_or_byte(bus, address, value, op.byte);
            (s.apply_writeback(op.pre_indexed, op.writeback, op.rn, moved), bus)
        }
    }

    /// `LDRH`/`STRH`/`LDRSB`/`LDRSH`.
    pub open spec fn halfword_transfer<B: BusModel>(self, op: HalfwordTransfer, bus: B) -> (
        CpuState,
        B,
    ) {
        let s = self.touching_data();
        let base = s.reg(op.rn);
        let moved = Self::moved(base, s.extra_offset(op.offset), op.add);
        let address = if op.pre_indexed {
            moved
        } else {
            base
        };
        if op.load {
            let (value, s, bus) = s.load_extended(bus, address, op.kind);
            let (s, bus) = s.idle(bus, 1);
            (
                s.apply_writeback(op.pre_indexed, op.writeback, op.rn, moved).set_reg(
                    op.rd,
                    value,
                ),
                bus,
            )
        } else {
            let (s, bus) = s.store16(bus, address, s.reg(op.rd) as u16);
            (s.apply_writeback(op.pre_indexed, op.writeback, op.rn, moved), bus)
        }
    }

    /// `LDRD`/`STRD`: the register pair `rd`, `rd`+1 against two words.
    pub open spec fn doubleword_transfer<B: BusModel>(self, op: DoublewordTransfer, bus: B) -> (
        CpuState,
        B,
    ) {
        if !self.version.is_v5() {
            (self.undefined(4), bus)
        } else {
            let s = self.touching_data();
            let base = s.reg(op.rn);
            let moved = Self::moved(base, s.extra_offset(op.offset), op.add);
            let address = if op.pre_indexed {
                moved
            } else {
                base
            };
            let second = Register::new((op.rd.0 + 1) as u8);
            if op.store {
                let (low, high) = (s.reg(op.rd), s.reg(second));
                let (s, bus) = s.store32(bus, address, low, false);
                let (s, bus) = s.store32(bus, address.wrapping_add(4), high, true);
                (s.apply_writeback(op.pre_indexed, op.writeback, op.rn, moved), bus)
            } else {
                let (low, s, bus) = s.load32(bus, address, false);
                let (high, s, bus) = s.load32(bus, address.wrapping_add(4), true);
                let (s, bus) = s.idle(bus, 1);
                (
                    s.apply_writeback(op.pre_indexed, op.writeback, op.rn, moved).set_reg(
                        op.rd,
                        low,
                    ).set_reg(second, high),
                    bus,
                )
            }
        }
    }

    /// Whether register `index` is in a register list.
    pub open spec fn listed(list: u16, index: u16) -> bool {
        list & (1u16 << index) != 0
    }

    /// Whether register `index` is in the list and not the lowest one there.
    pub open spec fn listed_after_first(list: u16, index: u16) -> bool {
        Self::listed(list, index) && list.trailing_zeros() != index
    }

    /// Where a block transfer starts, and the base it leaves behind, for a block
    /// of `size` bytes.
    pub open spec fn block_span(op: BlockTransfer, base: u32, size: u32) -> (u32, u32) {
        if op.add {
            (
                if op.pre_indexed {
                    base.wrapping_add(4)
                } else {
                    base
                },
                base.wrapping_add(size),
            )
        } else {
            let low = base.wrapping_sub(size);
            (
                if op.pre_indexed {
                    low
                } else {
                    low.wrapping_add(4)
                },
                low,
            )
        }
    }

    /// A block transfer with an empty list: only r15 moves, and the base moves as
    /// though all sixteen registers had.
    pub open spec fn empty_block_transfer<B: BusModel>(self, op: BlockTransfer, bus: B) -> (
        CpuState,
        B,
    ) {
        let (address, last) = Self::block_span(op, self.reg(op.rn), 0x40);
        if op.load {
            let (value, s, bus) = self.load32(bus, address, false);
            let (s, bus) = s.idle(bus, 1);
            (s.apply_writeback(true, op.writeback, op.rn, last).set_reg(Register(15), value), bus)
        } else {
            let (s, bus) = self.store32(
                bus,
                address,
                self.reg(Register(15)).wrapping_add(4),
                false,
            );
            (s.apply_writeback(true, op.writeback, op.rn, last), bus)
        }
    }

    /// Whether the list of a block transfer names the User bank.
    pub open spec fn uses_user_bank(op: BlockTransfer) -> bool {
        op.psr_force_user && !Self::listed(op.register_list, 15)
    }

    /// The value that `STM` stores for register `i`: the written-back base where
    /// the base is in the list after another register; r15 12 bytes ahead.
    pub open spec fn block_store_value(self, op: BlockTransfer, last: u32, i: u16) -> u32 {
        let value = if op.writeback && Self::listed_after_first(op.register_list, op.rn.0 as u16)
            && i == op.rn.0 {
            last
        } else if Self::uses_user_bank(op) {
            self.reg_user(i as int)
        } else {
            self.reg(Register::new(i as u8))
        };
        if i == 15 {
            value.wrapping_add(4)
        } else {
            value
        }
    }

    /// The listed registers from `i` on, lowest first at the lowest address.
    pub open spec fn block_registers<B: BusModel>(
        self,
        op: BlockTransfer,
        last: u32,
        i: u16,
        address: u32,
        sequential: bool,
        bus: B,
    ) -> (CpuState, B)
        decreases 16 - i,
    {
        if i >= 16 {
            (self, bus)
        } else if !Self::listed(op.register_list, i) {
            self.block_registers(op, last, (i + 1) as u16, address, sequential, bus)
        } else if op.load {
            let (value, s, bus) = self.load32(bus, address, sequential);
            let s = if Self::uses_user_bank(op) {
                s.set_reg_user(i as int, value)
            } else {
                s.set_reg(Register::new(i as u8), value)
            };
            s.block_registers(op, last, (i + 1) as u16, address.wrapping_add(4), true, bus)
        } else {
            let (s, bus) = self.store32(
                bus,
                address,
                self.block_store_value(op, last, i),
                sequential,
            );
            s.block_registers(op, last, (i + 1) as u16, address.wrapping_add(4), true, bus)
        }
    }

    /// `LDM`/`STM`. A loaded base keeps the loaded value unless it is the lowest
    /// register of the list, which the writeback overwrites. Loading r15 with the
    /// `S` bit returns from an exception.
    pub open spec fn block_transfer<B: BusModel>(self, op: BlockTransfer, bus: B) -> (CpuState, B) {
        let s = self.touching_data();
        let count = bits::ones_below(op.register_list, 16);
        if count == 0 {
            s.empty_block_transfer(op, bus)
        } else {
            let (address, last) = Self::block_span(op, s.reg(op.rn), (count * 4) as u32);
            let (s, bus) = s.block_registers(op, last, 0, address, false, bus);
            let (s, bus) = if op.load {
                s.idle(bus, 1)
            } else {
                (s, bus)
            };
            let keeps_loaded = op.load && Self::listed_after_first(
                op.register_list,
                op.rn.0 as u16,
            );
            let s = if op.writeback && !keeps_loaded {
                s.set_reg(op.rn, last)
            } else {
                s
            };
            if op.load && op.psr_force_user && Self::listed(op.register_list, 15) {
                (s.restore_cpsr(), bus)
            } else {
                (s, bus)
            }
        }
    }

    /// `SWP`/`SWPB`.
    pub open spec fn swap<B: BusModel>(self, op: Swap, bus: B) -> (CpuState, B) {
        let s = self.touching_data();
        let address = s.reg(op.rn);
        let (loaded, s, bus) = s.load_word_or_byte(bus, address, op.byte);
        let (s, bus) = if op.byte {
            s.store8(bus, address, s.reg(op.rm) as u8)
        } else {
            s.store32(bus, address & !3, s.reg(op.rm), false)
        };
        let (s, bus) = s.idle(bus, 1);
        (s.set_reg(op.rd, loaded), bus)
    }

    // --- ARM control flow and status registers ---

    /// `B`/`BL`.
    pub open spec fn branch(self, op: Branch) -> CpuState {
        let s = if op.link {
            self.set_reg(Register(14), self.r[15].wrapping_add(4))
        } else {
            self
        };
        s.set_reg(Register(15), s.reg(Register(15)).wrapping_add(bits::wrapped32(op.offset as int)))
    }

    /// A jump that chooses the instruction set from bit 0 of the target.
    pub open spec fn exchange(self, target: u32) -> CpuState {
        let s = CpuState { cpsr: self.cpsr.with(Psr::T, target & 1 != 0), ..self };
        s.set_reg(Register(15), target & !1)
    }

    /// `BX`/`BLX Rn`.
    pub open spec fn branch_exchange(self, op: BranchExchange) -> CpuState {
        if op.link && !self.version.is_v5() {
            self.undefined(4)
        } else {
            let target = self.reg(op.rn);
            let s = if op.link {
                self.set_reg(Register(14), self.r[15].wrapping_add(4))
            } else {
                self
            };
            s.exchange(target)
        }
    }

    /// `BLX <label>`; a NOP on ARMv4T.
    pub open spec fn branch_link_exchange(self, op: BranchLinkExchange) -> CpuState {
        if !self.version.is_v5() {
            self
        } else {
            let s = self.set_reg(Register(14), self.r[15].wrapping_add(4));
            let target = s.reg(Register(15)).wrapping_add(bits::wrapped32(op.offset as int));
            CpuState { cpsr: s.cpsr.with(Psr::T, true), ..s }.set_reg(Register(15), target)
        }
    }

    /// `MRS`.
    pub open spec fn mrs(self, op: Mrs) -> CpuState {
        let source = match self.current_spsr() {
            Some(spsr) if op.source_spsr => spsr,
            _ => self.cpsr,
        };
        self.set_reg(op.rd, source.bits())
    }

    /// The bits that the field mask of an `MSR` selects.
    pub open spec fn msr_mask(op: Msr) -> u32 {
        (if op.write_flags {
            0xFF00_0000u32
        } else {
            0u32
        }) | (if op.write_status {
            0x00FF_0000u32
        } else {
            0u32
        }) | (if op.write_extension {
            0x0000_FF00u32
        } else {
            0u32
        }) | (if op.write_control {
            0x0000_00FFu32
        } else {
            0u32
        })
    }

    /// `MSR`. User mode can write the condition flags only.
    pub open spec fn msr(self, op: Msr) -> CpuState {
        let source = match op.source {
            MsrSource::Register(rm) => self.reg(rm),
            MsrSource::Immediate { value, rotate } => bits::rotated_right(
                value as u32,
                (rotate * 2) as u32,
            ),
        };
        let mask = Self::msr_mask(op);
        if op.dest_spsr {
            match self.current_spsr() {
                Some(current) => self.set_current_spsr(
                    Psr((current.bits() & !mask) | (source & mask)),
                ),
                None => self,
            }
        } else {
            let effective = if self.cpsr.mode() == Some(Mode::User) {
                mask & 0xF000_0000
            } else {
                mask
            };
            self.write_cpsr(Psr((self.cpsr.bits() & !effective) | (source & effective)))
        }
    }

    /// `MRC`/`MCR`. A coprocessor that is not there traps; `MRC` to r15 sets the
    /// condition flags.
    pub open spec fn coprocessor_transfer<B: BusModel>(
        self,
        op: CoprocessorRegisterTransfer,
        bus: B,
    ) -> (CpuState, B) {
        if !self.version.is_v5() {
            (self.undefined(4), bus)
        } else if op.load {
            let (value, bus) = bus.coprocessor_got(
                op.cp_num,
                op.opcode1,
                op.crn,
                op.crm,
                op.opcode2,
            );
            match value {
                None => (self.undefined(4), bus),
                Some(value) => if op.rd.is_pc() {
                    (
                        CpuState {
                            cpsr: Psr(
                                (self.cpsr.bits() & 0x0FFF_FFFF) | (value & 0xF000_0000),
                            ),
                            ..self
                        },
                        bus,
                    )
                } else {
                    (self.set_reg(op.rd, value), bus)
                },
            }
        } else {
            let (accepted, bus) = bus.coprocessor_written(
                op.cp_num,
                op.opcode1,
                op.crn,
                op.crm,
                op.opcode2,
                self.reg(op.rd),
            );
            if accepted {
                (self, bus)
            } else {
                (self.undefined(4), bus)
            }
        }
    }

    /// One ARM operation.
    #[verifier::opaque]
    pub open spec fn arm<B: BusModel>(self, operation: ArmOperation, bus: B) -> (CpuState, B) {
        match operation {
            ArmOperation::DataProcessing(op) => (self.data_processing(op), bus),
            ArmOperation::Branch(op) => (self.branch(op), bus),
            ArmOperation::BranchExchange(op) => (self.branch_exchange(op), bus),
            ArmOperation::BranchLinkExchange(op) => (self.branch_link_exchange(op), bus),
            ArmOperation::Breakpoint(_) => (self.breakpoint(), bus),
            ArmOperation::SingleTransfer(op) => self.single_transfer(op, bus),
            ArmOperation::HalfwordTransfer(op) => self.halfword_transfer(op, bus),
            ArmOperation::DoublewordTransfer(op) => self.doubleword_transfer(op, bus),
            ArmOperation::BlockTransfer(op) => self.block_transfer(op, bus),
            ArmOperation::Swap(op) => self.swap(op, bus),
            ArmOperation::Multiply(op) => self.multiply(op, bus),
            ArmOperation::MultiplyLong(op) => self.multiply_long(op, bus),
            ArmOperation::CountLeadingZeros(op) => (self.count_leading_zeros(op), bus),
            ArmOperation::SaturatingArithmetic(op) => (self.saturating(op), bus),
            ArmOperation::HalfwordMultiply(op) => (self.halfword_multiply(op), bus),
            ArmOperation::CoprocessorRegisterTransfer(op) => self.coprocessor_transfer(op, bus),
            ArmOperation::Mrs(op) => (self.mrs(op), bus),
            ArmOperation::Msr(op) => (self.msr(op), bus),
            ArmOperation::SoftwareInterrupt(_) => (self.software_interrupt(4), bus),
            ArmOperation::Undefined { raw } => (self.undefined(4), bus),
        }
    }

    /// Where the next instruction is fetched, and whether that fetch follows on:
    /// not after a jump or a data access.
    pub open spec fn advance(self, next: u32) -> CpuState {
        if self.branched {
            CpuState { sequential: false, ..self }
        } else {
            CpuState { r: self.r.update(15, next), sequential: !self.data_access, ..self }
        }
    }

    /// One instruction in ARM state.
    pub open spec fn step_arm<B: BusModel>(self, bus: B) -> (CpuState, B) {
        let pc = self.r[15] & !3;
        let (fetched, bus) = bus.fetched32(pc, self.sequential);
        let s = CpuState { r: self.r.update(15, pc), data_access: false, ..self }.spend(
            fetched.cycles as int,
        );
        let instruction = decode_arm(fetched.value);
        let (s, bus) = if s.cpsr.passes(instruction.condition) {
            s.arm(instruction.operation, bus)
        } else {
            (s, bus)
        };
        (s.advance(pc.wrapping_add(4)), bus)
    }

    /// One instruction in Thumb state.
    pub open spec fn step_thumb<B: BusModel>(self, bus: B) -> (CpuState, B) {
        let pc = self.r[15] & !1;
        let (fetched, bus) = bus.fetched16(pc, self.sequential);
        let s = CpuState { r: self.r.update(15, pc), data_access: false, ..self }.spend(
            fetched.cycles as int,
        );
        let (s, bus) = s.thumb(decode_thumb(fetched.value), bus);
        (s.advance(pc.wrapping_add(2)), bus)
    }

    /// One instruction.
    pub open spec fn step<B: BusModel>(self, bus: B) -> (CpuState, B) {
        let s = CpuState { branched: false, ..self };
        if s.cpsr.thumb() {
            s.step_thumb(bus)
        } else {
            s.step_arm(bus)
        }
    }

    // --- Thumb ---

    /// The listed low registers from `i` on, lowest first at the lowest address;
    /// `base_value` is what is stored for the base register instead of its value.
    pub open spec fn thumb_registers<B: BusModel>(
        self,
        load: bool,
        list: u8,
        base_value: Option<(u16, u32)>,
        i: u16,
        address: u32,
        sequential: bool,
        bus: B,
    ) -> (CpuState, B, u32, bool)
        decreases 8 - i,
    {
        if i >= 8 {
            (self, bus, address, sequential)
        } else if !Self::listed(list as u16, i) {
            self.thumb_registers(
                load,
                list,
                base_value,
                (i + 1) as u16,
                address,
                sequential,
                bus,
            )
        } else if load {
            let (value, s, bus) = self.load32(bus, address, sequential);
            s.set_reg(Register::new(i as u8), value).thumb_registers(
                load,
                list,
                base_value,
                (i + 1) as u16,
                address.wrapping_add(4),
                true,
                bus,
            )
        } else {
            let value = match base_value {
                Some((index, base)) if index == i => base,
                _ => self.reg(Register::new(i as u8)),
            };
            let (s, bus) = self.store32(bus, address, value, sequential);
            s.thumb_registers(
                load,
                list,
                base_value,
                (i + 1) as u16,
                address.wrapping_add(4),
                true,
                bus,
            )
        }
    }

    /// `POP`. A popped PC stays in Thumb state.
    pub open spec fn thumb_pop<B: BusModel>(self, bus: B, with_pc: bool, list: u8) -> (CpuState, B) {
        let (s, bus, address, sequential) = self.thumb_registers(
            true,
            list,
            None,
            0,
            self.reg(Register(13)),
            false,
            bus,
        );
        let (s, bus, end) = if with_pc {
            let (value, s, bus) = s.load32(bus, address, sequential);
            (s.set_reg(Register(15), value & !1), bus, address.wrapping_add(4))
        } else {
            (s, bus, address)
        };
        let (s, bus) = s.idle(bus, 1);
        (s.set_reg(Register(13), end), bus)
    }

    /// `PUSH`.
    pub open spec fn thumb_push<B: BusModel>(self, bus: B, with_lr: bool, list: u8) -> (CpuState, B) {
        let count = bits::ones_below(list as u16, 16) + (if with_lr {
            1int
        } else {
            0
        });
        let base = self.reg(Register(13)).wrapping_sub((count * 4) as u32);
        let (s, bus, address, sequential) = self.thumb_registers(
            false,
            list,
            None,
            0,
            base,
            false,
            bus,
        );
        let (s, bus) = if with_lr {
            s.store32(bus, address, s.reg(Register(14)), sequential)
        } else {
            (s, bus)
        };
        (s.set_reg(Register(13), base), bus)
    }

    /// `LDMIA`/`STMIA`. A base loaded from memory keeps the loaded value; a base
    /// stored after another register is stored as written back. An empty list
    /// moves r15 alone and the base by 0x40.
    pub open spec fn thumb_block_transfer<B: BusModel>(
        self,
        bus: B,
        load: bool,
        rb: Register,
        list: u8,
    ) -> (CpuState, B) {
        let s = self.touching_data();
        let base = s.reg(rb);
        if list == 0 {
            let last = base.wrapping_add(0x40);
            if load {
                let (value, s, bus) = s.load32(bus, base, false);
                let (s, bus) = s.idle(bus, 1);
                (s.set_reg(rb, last).set_reg(Register(15), value & !1), bus)
            } else {
                let (s, bus) = s.store32(
                    bus,
                    base,
                    s.reg(Register(15)).wrapping_add(2),
                    false,
                );
                (s.set_reg(rb, last), bus)
            }
        } else {
            let last = base.wrapping_add((bits::ones_below(list as u16, 16) * 4) as u32);
            let stored_base = if Self::listed_after_first(list as u16, rb.0 as u16) {
                Some((rb.0 as u16, last))
            } else {
                None
            };
            let (s, bus, address, sequential) = s.thumb_registers(
                load,
                list,
                stored_base,
                0,
                base,
                false,
                bus,
            );
            let (s, bus) = if load {
                s.idle(bus, 1)
            } else {
                (s, bus)
            };
            if load && Self::listed(list as u16, rb.0 as u16) {
                (s, bus)
            } else {
                (s.set_reg(rb, last), bus)
            }
        }
    }

    /// A word or byte load or store.
    pub open spec fn thumb_load_store<B: BusModel>(
        self,
        bus: B,
        load: bool,
        byte: bool,
        address: u32,
        rd: Register,
    ) -> (CpuState, B) {
        let s = self.touching_data();
        if load {
            let (value, s, bus) = s.load_word_or_byte(bus, address, byte);
            let (s, bus) = s.idle(bus, 1);
            (s.set_reg(rd, value), bus)
        } else {
            s.store_word_or_byte(bus, address, s.reg(rd), byte)
        }
    }

    /// A halfword or sign-extended load or store.
    pub open spec fn thumb_sign_extended<B: BusModel>(
        self,
        bus: B,
        op: ThumbSignExtendOp,
        address: u32,
        rd: Register,
    ) -> (CpuState, B) {
        let s = self.touching_data();
        if op is StoreHalfword {
            s.store16(bus, address, s.reg(rd) as u16)
        } else {
            let kind = match op {
                ThumbSignExtendOp::LoadSignedByte => HalfwordKind::SignedByte,
                ThumbSignExtendOp::LoadSignedHalfword => HalfwordKind::SignedHalfword,
                _ => HalfwordKind::UnsignedHalfword,
            };
            let (value, s, bus) = s.load_extended(bus, address, kind);
            let (s, bus) = s.idle(bus, 1);
            (s.set_reg(rd, value), bus)
        }
    }

    /// A result written to `rd` with the flags of an arithmetic operation.
    pub open spec fn arithmetic_to(self, rd: Register, sum: (u32, bool, bool)) -> CpuState {
        self.set_reg(rd, sum.0).set_arithmetic_flags(sum.0, sum.1, sum.2)
    }

    /// The flags of an arithmetic operation whose result is dropped.
    pub open spec fn compare(self, sum: (u32, bool, bool)) -> CpuState {
        self.set_arithmetic_flags(sum.0, sum.1, sum.2)
    }

    /// A result written to `rd` with its N and Z.
    pub open spec fn logical_to(self, rd: Register, result: u32) -> CpuState {
        self.set_reg(rd, result).set_nz(result)
    }

    /// A shift by a register.
    pub open spec fn thumb_shift(
        self,
        kind: ShiftKind,
        value: u32,
        amount: u32,
        rd: Register,
    ) -> CpuState {
        let (result, carry) = alu::register_shift(kind, value, amount & 0xFF, self.cpsr.c());
        self.set_reg(rd, result).set_logical_flags(result, carry)
    }

    /// A format-4 ALU operation.
    pub open spec fn thumb_alu<B: BusModel>(
        self,
        op: ThumbAluOp,
        rs: Register,
        rd: Register,
        bus: B,
    ) -> (CpuState, B) {
        let a = self.reg(rd);
        let b = self.reg(rs);
        let c = self.cpsr.c();
        match op {
            ThumbAluOp::And => (self.logical_to(rd, a & b), bus),
            ThumbAluOp::Eor => (self.logical_to(rd, a ^ b), bus),
            ThumbAluOp::Orr => (self.logical_to(rd, a | b), bus),
            ThumbAluOp::Bic => (self.logical_to(rd, a & !b), bus),
            ThumbAluOp::Mvn => (self.logical_to(rd, !b), bus),
            ThumbAluOp::Tst => (self.set_nz(a & b), bus),
            ThumbAluOp::Mul => self.logical_to(rd, bits::wrapped32(a * b)).idle(
                bus,
                alu::multiply_time(a),
            ),
            ThumbAluOp::Lsl => (self.thumb_shift(ShiftKind::Lsl, a, b, rd), bus),
            ThumbAluOp::Lsr => (self.thumb_shift(ShiftKind::Lsr, a, b, rd), bus),
            ThumbAluOp::Asr => (self.thumb_shift(ShiftKind::Asr, a, b, rd), bus),
            ThumbAluOp::Ror => (self.thumb_shift(ShiftKind::Ror, a, b, rd), bus),
            ThumbAluOp::Adc => (self.arithmetic_to(rd, alu::sum_with_carry(a, b, c)), bus),
            ThumbAluOp::Sbc => (self.arithmetic_to(rd, alu::difference_with_carry(a, b, c)), bus),
            ThumbAluOp::Neg => (
                self.arithmetic_to(rd, alu::difference_with_carry(0, b, true)),
                bus,
            ),
            ThumbAluOp::Cmp => (self.compare(alu::difference_with_carry(a, b, true)), bus),
            ThumbAluOp::Cmn => (self.compare(alu::sum_with_carry(a, b, false)), bus),
        }
    }

    /// A format-5 operation. `BX` with the high bit of `rd` set is the ARMv5
    /// `BLX`.
    pub open spec fn thumb_hi_register(self, op: ThumbHiRegOp, rs: Register, rd: Register) -> CpuState {
        match op {
            ThumbHiRegOp::Add => self.set_reg(rd, self.reg(rd).wrapping_add(self.reg(rs))),
            ThumbHiRegOp::Cmp => self.compare(
                alu::difference_with_carry(self.reg(rd), self.reg(rs), true),
            ),
            ThumbHiRegOp::Mov => self.set_reg(rd, self.reg(rs)),
            ThumbHiRegOp::Bx => if rd.0 < 8 {
                self.exchange(self.reg(rs))
            } else if self.version.is_v5() {
                self.set_reg(Register(14), self.r[15].wrapping_add(2) | 1).exchange(self.reg(rs))
            } else {
                self.undefined(2)
            },
        }
    }

    /// One half of the two-halfword `BL`/`BLX`.
    pub open spec fn thumb_long_branch(
        self,
        second_half: bool,
        exchange: bool,
        offset: u16,
    ) -> CpuState {
        if exchange && !self.version.is_v5() {
            self.undefined(2)
        } else if !second_half {
            let high = (if offset >= 0x400 {
                offset - 0x800
            } else {
                offset as int
            }) * 0x1000;
            self.set_reg(
                Register(14),
                self.reg(Register(15)).wrapping_add(bits::wrapped32(high)),
            )
        } else {
            let target = self.reg(Register(14)).wrapping_add((offset * 2) as u32);
            let s = self.set_reg(Register(14), self.r[15].wrapping_add(2) | 1);
            if exchange {
                CpuState { cpsr: s.cpsr.with(Psr::T, false), ..s }.set_reg(
                    Register(15),
                    target & !3,
                )
            } else {
                s.set_reg(Register(15), target)
            }
        }
    }

    /// A relative jump.
    pub open spec fn thumb_jump(self, offset: i32) -> CpuState {
        self.set_reg(
            Register(15),
            self.reg(Register(15)).wrapping_add(bits::wrapped32(offset as int)),
        )
    }

    /// One Thumb instruction. The `BLX` space, undefined to the decoder, is the
    /// second half of a `BLX` on ARMv5.
    #[verifier::opaque]
    pub open spec fn thumb<B: BusModel>(self, instruction: ThumbInstruction, bus: B) -> (CpuState, B) {
        match instruction {
            ThumbInstruction::MoveShifted { op, amount, rs, rd } => {
                let kind = match op {
                    ThumbShiftOp::Lsl => ShiftKind::Lsl,
                    ThumbShiftOp::Lsr => ShiftKind::Lsr,
                    ThumbShiftOp::Asr => ShiftKind::Asr,
                };
                let (result, carry) = alu::immediate_shift(
                    kind,
                    self.reg(rs),
                    amount,
                    self.cpsr.c(),
                );
                (self.set_reg(rd, result).set_logical_flags(result, carry), bus)
            },
            ThumbInstruction::AddSubtract { subtract, operand, rs, rd } => {
                let a = self.reg(rs);
                let b = match operand {
                    AddSubOperand::Register(r) => self.reg(r),
                    AddSubOperand::Immediate(imm) => imm as u32,
                };
                (
                    self.arithmetic_to(
                        rd,
                        if subtract {
                            alu::difference_with_carry(a, b, true)
                        } else {
                            alu::sum_with_carry(a, b, false)
                        },
                    ),
                    bus,
                )
            },
            ThumbInstruction::AluImmediate { op, rd, immediate } => {
                let a = self.reg(rd);
                let b = immediate as u32;
                (
                    match op {
                        ThumbImmediateOp::Mov => self.logical_to(rd, b),
                        ThumbImmediateOp::Cmp => self.compare(
                            alu::difference_with_carry(a, b, true),
                        ),
                        ThumbImmediateOp::Add => self.arithmetic_to(
                            rd,
                            alu::sum_with_carry(a, b, false),
                        ),
                        ThumbImmediateOp::Sub => self.arithmetic_to(
                            rd,
                            alu::difference_with_carry(a, b, true),
                        ),
                    },
                    bus,
                )
            },
            ThumbInstruction::AluOperation { op, rs, rd } => self.thumb_alu(op, rs, rd, bus),
            ThumbInstruction::HiRegister { op, rs, rd } => (
                self.thumb_hi_register(op, rs, rd),
                bus,
            ),
            ThumbInstruction::PcRelativeLoad { rd, word8 } => {
                let s = self.touching_data();
                let address = (s.reg(Register(15)) & !3).wrapping_add((word8 * 4) as u32);
                let (value, s, bus) = s.load32(bus, address, false);
                let (s, bus) = s.idle(bus, 1);
                (s.set_reg(rd, value), bus)
            },
            ThumbInstruction::LoadStoreRegister { load, byte, ro, rb, rd } =>
                self.thumb_load_store(
                bus,
                load,
                byte,
                self.reg(rb).wrapping_add(self.reg(ro)),
                rd,
            ),
            ThumbInstruction::LoadStoreSignExtended { op, ro, rb, rd } => self.thumb_sign_extended(
                bus,
                op,
                self.reg(rb).wrapping_add(self.reg(ro)),
                rd,
            ),
            ThumbInstruction::LoadStoreImmediate { load, byte, offset, rb, rd } =>
                self.thumb_load_store(
                bus,
                load,
                byte,
                self.reg(rb).wrapping_add(
                    if byte {
                        offset as u32
                    } else {
                        (offset * 4) as u32
                    },
                ),
                rd,
            ),
            ThumbInstruction::LoadStoreHalfword { load, offset, rb, rd } =>
                self.thumb_sign_extended(
                bus,
                if load {
                    ThumbSignExtendOp::LoadHalfword
                } else {
                    ThumbSignExtendOp::StoreHalfword
                },
                self.reg(rb).wrapping_add((offset * 2) as u32),
                rd,
            ),
            ThumbInstruction::SpRelativeLoadStore { load, rd, word8 } => self.thumb_load_store(
                bus,
                load,
                false,
                self.reg(Register(13)).wrapping_add((word8 * 4) as u32),
                rd,
            ),
            ThumbInstruction::LoadAddress { source, rd, word8 } => {
                let base = match source {
                    LoadAddressSource::Pc => self.reg(Register(15)) & !3,
                    LoadAddressSource::Sp => self.reg(Register(13)),
                };
                (self.set_reg(rd, base.wrapping_add((word8 * 4) as u32)), bus)
            },
            ThumbInstruction::AdjustStackPointer { subtract, word7 } => (
                self.set_reg(
                    Register(13),
                    Self::moved(self.reg(Register(13)), (word7 * 4) as u32, !subtract),
                ),
                bus,
            ),
            ThumbInstruction::PushPop { pop, include_pc_lr, register_list } => {
                let s = self.touching_data();
                if pop {
                    s.thumb_pop(bus, include_pc_lr, register_list)
                } else {
                    s.thumb_push(bus, include_pc_lr, register_list)
                }
            },
            ThumbInstruction::BlockTransfer { load, rb, register_list } =>
                self.thumb_block_transfer(bus, load, rb, register_list),
            ThumbInstruction::ConditionalBranch { condition, offset } => if self.cpsr.passes(
                condition,
            ) {
                (self.thumb_jump(offset), bus)
            } else {
                (self, bus)
            },
            ThumbInstruction::SoftwareInterrupt { comment } => (self.software_interrupt(2), bus),
            ThumbInstruction::Branch { offset } => (self.thumb_jump(offset), bus),
            ThumbInstruction::LongBranchLink { second_half, exchange, offset } => (
                self.thumb_long_branch(second_half, exchange, offset),
                bus,
            ),
            ThumbInstruction::Undefined { raw } => if raw >> 11 == 0b11101 {
                (self.thumb_long_branch(true, true, raw & 0x7FF), bus)
            } else {
                (self.undefined(2), bus)
            },
        }
    }
}

} // verus!
