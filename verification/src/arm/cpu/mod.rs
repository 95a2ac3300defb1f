//! The ARM interpreter.
//!
//! This executes the decoded instructions from [`crate::arm::decode`] against a
//! [`Bus`]. It models the visible programmer state - the register file, the
//! CPSR, and the fetch pipeline - and nothing about any particular machine.
//!
//! The pipeline is modeled by keeping `r15` at the address of the instruction
//! being executed and exposing it, when read as an operand, at the pipeline
//! offset (`+8` in ARM state, `+4` in Thumb). A write to `r15` redirects
//! execution; otherwise the fetch advances by one instruction.

use vstd::prelude::*;

pub mod accesses;
pub mod alu;
pub mod blocks;
pub mod control;
pub mod fetches;
pub mod laws;
mod bus;
mod model;
pub mod products;
pub mod psr;
pub mod results;
pub mod shifts;
mod thumb;
pub mod thumb_results;
mod transfer;

pub use bus::{Bus, BusModel, Timed};
pub use model::CpuState;
pub use psr::{ArmVersion, Mode, Psr};

use crate::arm::decode::{decode_arm, decode_thumb};
use crate::arm::instruction::arm::{
    ArmOperation, Branch, BranchExchange, BranchLinkExchange, Breakpoint,
    CoprocessorRegisterTransfer, CountLeadingZeros, DataProcessing, DataProcessingOpcode,
    DspMulOp, HalfwordMultiply, Mrs, Msr, MsrSource, Multiply, MultiplyLong, Operand2,
    SaturatingArithmetic, SaturatingOp, ShiftSource, SoftwareInterrupt,
};
use crate::arm::register::Register;
use crate::bits;

verus! {

/// The processor state.
#[derive(Clone, Copy, Debug)]
pub struct Cpu {
    /// r0..r15; `r[15]` holds the address of the instruction being executed.
    r: [u32; 16],
    cpsr: Psr,
    /// Banked r13 for the inactive modes, indexed by [`bank13`].
    banked_r13: [u32; 6],
    /// Banked r14 for the inactive modes.
    banked_r14: [u32; 6],
    /// Banked r8..r12 of the modes other than FIQ.
    banked_common: [u32; 5],
    /// Banked r8..r12 of FIQ mode.
    banked_fiq: [u32; 5],
    /// SPSRs for the exception modes, indexed by [`spsr_index`].
    spsr: [Psr; 5],
    /// Total guest cycles executed.
    cycles: u64,
    /// Whether the current instruction redirected the PC.
    branched: bool,
    /// Whether the next fetch is sequential with the previous access.
    sequential: bool,
    /// Whether the current instruction performed a data access (which breaks the
    /// fetch sequence for the next opcode).
    data_access: bool,
    /// The architecture variant this core implements. Gates the ARMv5TE-only
    /// behaviours (interworking rules, and trapping v5 instructions as undefined on
    /// ARMv4T). ARM7 cores keep the default [`ArmVersion::Armv4T`].
    version: ArmVersion,
}

impl View for Cpu {
    type V = CpuState;

    closed spec fn view(&self) -> CpuState {
        CpuState {
            r: self.r@,
            cpsr: self.cpsr,
            banked_r13: self.banked_r13@,
            banked_r14: self.banked_r14@,
            banked_common: self.banked_common@,
            banked_fiq: self.banked_fiq@,
            spsr: self.spsr@,
            cycles: self.cycles as int,
            branched: self.branched,
            sequential: self.sequential,
            data_access: self.data_access,
            version: self.version,
        }
    }
}

proof fn lemma_view_is_valid(cpu: Cpu)
    ensures
        cpu@.valid(),
{
}

impl Default for Cpu {
    fn default() -> (cpu: Cpu)
        ensures
            cpu@ == CpuState::reset(ArmVersion::Armv4T),
    {
        Self::new()
    }
}

impl Cpu {
    /// A fresh ARMv4T (ARM7TDMI) core - the GBA CPU and the DS's ARM7.
    pub fn new() -> (cpu: Cpu)
        ensures
            cpu@ == CpuState::reset(ArmVersion::Armv4T),
    {
        Self::with_version(ArmVersion::Armv4T)
    }

    /// A fresh core of the given architecture variant. Use [`ArmVersion::Armv5TE`]
    /// for the DS's ARM9 (ARM946E-S).
    pub fn with_version(version: ArmVersion) -> (cpu: Cpu)
        ensures
            cpu@ == CpuState::reset(version),
    {
        let mut cpsr = Psr::from_bits(0);
        cpsr.set_mode(Mode::System);
        Cpu {
            r: [0; 16],
            cpsr,
            banked_r13: [0; 6],
            banked_r14: [0; 6],
            banked_common: [0; 5],
            banked_fiq: [0; 5],
            spsr: [Psr::from_bits(0); 5],
            cycles: 0,
            branched: false,
            sequential: false,
            data_access: false,
            version,
        }
    }

    /// The architecture variant this core implements.
    pub fn version(&self) -> (version: ArmVersion)
        ensures
            version == self@.version,
    {
        self.version
    }

    /// The current operating mode.
    pub fn mode(&self) -> (mode: Option<Mode>)
        ensures
            mode == self@.cpsr.mode(),
    {
        self.cpsr.mode()
    }

    /// The SPSR of the current mode, if it has one.
    pub fn spsr(&self) -> (spsr: Option<Psr>)
        ensures
            spsr == self@.current_spsr(),
    {
        self.current_spsr()
    }

    /// The current program status register.
    pub fn cpsr(&self) -> (cpsr: Psr)
        ensures
            cpsr == self@.cpsr,
    {
        self.cpsr
    }

    /// The guest cycles executed so far.
    pub fn cycles(&self) -> (cycles: u64)
        ensures
            cycles == self@.cycles,
    {
        self.cycles
    }

    /// Read the raw stored register (no pipeline adjustment). For `r15` this is
    /// the address of the instruction being executed.
    pub fn register(&self, index: usize) -> (value: u32)
        requires
            index < 16,
        ensures
            value == self@.r[index as int],
    {
        self.r[index]
    }

    /// Set a register's raw value. A new `r15` breaks the fetch sequence.
    pub fn set_register(&mut self, index: usize, value: u32)
        requires
            index < 16,
        ensures
            final(self)@ == (CpuState {
                r: old(self)@.r.update(index as int, value),
                sequential: old(self)@.sequential && index != 15,
                ..old(self)@
            }),
    {
        self.r[index] = value;
        if index == 15 {
            self.sequential = false;
        }
    }

    /// Set the program counter and begin fetching from there.
    pub fn set_pc(&mut self, address: u32)
        ensures
            final(self)@ == (CpuState {
                r: old(self)@.r.update(15, address),
                sequential: false,
                ..old(self)@
            }),
    {
        self.set_register(15, address);
    }

    /// The pipeline offset applied to `r15` when it is read as an operand.
    fn pc_offset(&self) -> (offset: u32)
        ensures
            offset == self@.pc_offset(),
    {
        if self.cpsr.thumb() {
            4
        } else {
            8
        }
    }

    /// Read a register as an operand: `r15` reads at the pipeline offset.
    fn reg(&self, register: Register) -> (value: u32)
        requires
            register.valid(),
        ensures
            value == self@.reg(register),
    {
        if register.is_pc() {
            self.r[15].wrapping_add(self.pc_offset())
        } else {
            self.r[register.index()]
        }
    }

    /// Read a register operand of a data-processing instruction that uses a
    /// register-specified shift. The extra internal cycle to read the shift
    /// amount advances the prefetch one more instruction, so `r15` reads at
    /// PC+12 (ARM) rather than PC+8.
    fn reg_register_shifted(&self, register: Register) -> (value: u32)
        requires
            register.valid(),
        ensures
            value == self@.reg_register_shifted(register),
    {
        if register.is_pc() {
            self.r[15].wrapping_add(self.pc_offset() + 4)
        } else {
            self.r[register.index()]
        }
    }

    /// Write a register. Writing `r15` redirects execution.
    fn set_reg(&mut self, register: Register, value: u32)
        requires
            register.valid(),
        ensures
            final(self)@ == old(self)@.set_reg(register, value),
    {
        if register.is_pc() {
            self.r[15] = value;
            self.branched = true;
        } else {
            self.r[register.index()] = value;
        }
    }

    fn set_nz(&mut self, result: u32)
        ensures
            final(self)@ == old(self)@.set_nz(result),
    {
        self.cpsr.set_n(result & 0x8000_0000 != 0);
        self.cpsr.set_z(result == 0);
    }

    fn set_logical_flags(&mut self, result: u32, carry: bool)
        ensures
            final(self)@ == old(self)@.set_logical_flags(result, carry),
    {
        self.set_nz(result);
        self.cpsr.set_c(carry);
    }

    fn set_arithmetic_flags(&mut self, result: u32, carry: bool, overflow: bool)
        ensures
            final(self)@ == old(self)@.set_arithmetic_flags(result, carry, overflow),
    {
        self.set_nz(result);
        self.cpsr.set_c(carry);
        self.cpsr.set_v(overflow);
    }

    /// Execute one instruction.
    pub fn step<B: Bus>(&mut self, bus: &mut B)
        requires
            old(self)@.has_room(32),
            old(bus).model().valid(),
        ensures
            final(self)@ == old(self)@.step(old(bus).model()).0,
            final(bus).model() == old(self)@.step(old(bus).model()).1,
            final(bus).model().valid(),
    {
        self.branched = false;
        if self.cpsr.thumb() {
            self.step_thumb(bus);
        } else {
            self.step_arm(bus);
        }
    }

    fn step_arm<B: Bus>(&mut self, bus: &mut B)
        requires
            old(self)@.has_room(32),
            old(bus).model().valid(),
        ensures
            final(self)@ == old(self)@.step_arm(old(bus).model()).0,
            final(bus).model() == old(self)@.step_arm(old(bus).model()).1,
            final(bus).model().valid(),
    {
        let pc: u32 = self.r[15] & !3u32;
        self.r[15] = pc;
        self.data_access = false;
        let fetched = bus.fetch32(pc, self.sequential);
        self.cycles = self.cycles + fetched.cycles as u64;

        let instruction = decode_arm(fetched.value);
        if self.cpsr.passes(instruction.condition) {
            self.execute_arm(instruction.operation, bus);
        }
        if self.branched {
            self.sequential = false;
        } else {
            self.r[15] = pc.wrapping_add(4);
            // A data access breaks the sequential fetch stream.
            self.sequential = !self.data_access;
        }
    }

    fn step_thumb<B: Bus>(&mut self, bus: &mut B)
        requires
            old(self)@.has_room(32),
            old(bus).model().valid(),
        ensures
            final(self)@ == old(self)@.step_thumb(old(bus).model()).0,
            final(bus).model() == old(self)@.step_thumb(old(bus).model()).1,
            final(bus).model().valid(),
    {
        let pc: u32 = self.r[15] & !1u32;
        self.r[15] = pc;
        self.data_access = false;
        let fetched = bus.fetch16(pc, self.sequential);
        self.cycles = self.cycles + fetched.cycles as u64;

        let instruction = decode_thumb(fetched.value);
        self.execute_thumb(instruction, bus);

        if self.branched {
            self.sequential = false;
        } else {
            self.r[15] = pc.wrapping_add(2);
            self.sequential = !self.data_access;
        }
    }

    fn execute_arm<B: Bus>(&mut self, operation: ArmOperation, bus: &mut B)
        requires
            operation.valid(),
            old(self)@.has_room(20),
            old(bus).model().valid(),
        ensures
            final(self)@ == old(self)@.arm(operation, old(bus).model()).0,
            final(bus).model() == old(self)@.arm(operation, old(bus).model()).1,
            final(bus).model().valid(),
    {
        proof {
            reveal(CpuState::arm);
        }
        match operation {
            ArmOperation::DataProcessing(op) => self.execute_data_processing(op),
            ArmOperation::Branch(op) => self.execute_branch(op),
            ArmOperation::BranchExchange(op) => self.execute_branch_exchange(op),
            ArmOperation::BranchLinkExchange(op) => self.execute_blx_immediate(op),
            ArmOperation::Breakpoint(op) => self.execute_breakpoint(op),
            ArmOperation::SingleTransfer(op) => self.execute_single_transfer(op, bus),
            ArmOperation::HalfwordTransfer(op) => self.execute_halfword_transfer(op, bus),
            ArmOperation::DoublewordTransfer(op) => self.execute_doubleword_transfer(op, bus),
            ArmOperation::BlockTransfer(op) => self.execute_block_transfer(op, bus),
            ArmOperation::Swap(op) => self.execute_swap(op, bus),
            ArmOperation::Multiply(op) => self.execute_multiply(op, bus),
            ArmOperation::MultiplyLong(op) => self.execute_multiply_long(op, bus),
            ArmOperation::CountLeadingZeros(op) => self.execute_clz(op),
            ArmOperation::SaturatingArithmetic(op) => self.execute_saturating(op),
            ArmOperation::HalfwordMultiply(op) => self.execute_halfword_multiply(op),
            ArmOperation::CoprocessorRegisterTransfer(op) => self.execute_coprocessor_transfer(
                op,
                bus,
            ),
            ArmOperation::Mrs(op) => self.execute_mrs(op),
            ArmOperation::Msr(op) => self.execute_msr(op),
            ArmOperation::SoftwareInterrupt(op) => self.execute_software_interrupt(op),
            ArmOperation::Undefined { .. } => self.execute_undefined(),
        }
    }

    /// Consume `count` internal cycles, advancing time and any ROM prefetcher.
    fn internal_cycles<B: Bus>(&mut self, bus: &mut B, count: u32)
        requires
            old(self)@.has_room(1),
            old(bus).model().valid(),
        ensures
            final(self)@ == old(self)@.idle(old(bus).model(), count).0,
            final(bus).model() == old(self)@.idle(old(bus).model(), count).1,
            final(bus).model().valid(),
    {
        self.cycles = self.cycles + count as u64;
        bus.internal(count);
    }

    fn execute_multiply<B: Bus>(&mut self, op: Multiply, bus: &mut B)
        requires
            ArmOperation::Multiply(op).valid(),
            old(self)@.has_room(1),
            old(bus).model().valid(),
        ensures
            final(self)@ == old(self)@.multiply(op, old(bus).model()).0,
            final(bus).model() == old(self)@.multiply(op, old(bus).model()).1,
            final(bus).model().valid(),
    {
        let rs: u32 = self.reg(op.rs);
        let rm: u32 = self.reg(op.rm);
        let mut result: u32 = rm.wrapping_mul(rs);
        if op.accumulate {
            let rn: u32 = self.reg(op.rn);
            proof {
                vstd::arithmetic::div_mod::lemma_add_mod_noop(
                    rm * rs,
                    rn as int,
                    0x1_0000_0000,
                );
            }
            result = result.wrapping_add(rn);
        }
        assert(result == bits::wrapped32(
            self@.reg(op.rm) * self@.reg(op.rs) + (if op.accumulate {
                self@.reg(op.rn) as int
            } else {
                0
            }),
        ));
        self.set_reg(op.rd, result);
        if op.set_flags {
            // C is left unpredictable (unchanged here); V is unaffected.
            self.set_nz(result);
        }
        let extra: u32 = if op.accumulate {
            1
        } else {
            0
        };
        self.internal_cycles(bus, alu::multiply_cycles(rs) + extra);
    }

    /// The 64-bit result of a long multiply.
    fn long_product(&self, op: MultiplyLong) -> (result: u64)
        requires
            ArmOperation::MultiplyLong(op).valid(),
        ensures
            result == self@.long_product(op) % 0x1_0000_0000_0000_0000,
    {
        let rm: u32 = self.reg(op.rm);
        let rs: u32 = self.reg(op.rs);
        let product: u64 = if op.signed {
            let a: i64 = bits::to_signed(rm) as i64;
            let b: i64 = bits::to_signed(rs) as i64;
            let signed: i64 = bits::product(a, b);
            bits::wrap64(signed)
        } else {
            assert(0 <= rm * rs <= 0xFFFF_FFFF * 0xFFFF_FFFF) by (nonlinear_arith)
                requires
                    0 <= rm <= 0xFFFF_FFFF,
                    0 <= rs <= 0xFFFF_FFFF,
            ;
            rm as u64 * rs as u64
        };
        if op.accumulate {
            let hi: u32 = self.reg(op.rd_hi);
            let lo: u32 = self.reg(op.rd_lo);
            let acc: u64 = bits::join(hi, lo);
            proof {
                let exact: int = if op.signed {
                    bits::signed32(rm) * bits::signed32(rs)
                } else {
                    rm * rs
                };
                vstd::arithmetic::div_mod::lemma_add_mod_noop(
                    exact,
                    acc as int,
                    0x1_0000_0000_0000_0000,
                );
            }
            product.wrapping_add(acc)
        } else {
            product
        }
    }

    fn execute_multiply_long<B: Bus>(&mut self, op: MultiplyLong, bus: &mut B)
        requires
            ArmOperation::MultiplyLong(op).valid(),
            old(self)@.has_room(1),
            old(bus).model().valid(),
        ensures
            final(self)@ == old(self)@.multiply_long(op, old(bus).model()).0,
            final(bus).model() == old(self)@.multiply_long(op, old(bus).model()).1,
            final(bus).model().valid(),
    {
        let rs: u32 = self.reg(op.rs);
        let result: u64 = self.long_product(op);
        let (hi, lo) = bits::split(result);
        self.set_reg(op.rd_lo, lo);
        self.set_reg(op.rd_hi, hi);
        if op.set_flags {
            self.cpsr.set_n(result >= 0x8000_0000_0000_0000);
            self.cpsr.set_z(result == 0);
        }
        let extra: u32 = if op.accumulate {
            2
        } else {
            1
        };
        self.internal_cycles(bus, alu::multiply_cycles(rs) + extra);
    }

    /// `CLZ` (ARMv5): count leading zeros. Traps as undefined on an ARMv4T core.
    fn execute_clz(&mut self, op: CountLeadingZeros)
        requires
            ArmOperation::CountLeadingZeros(op).valid(),
        ensures
            final(self)@ == old(self)@.count_leading_zeros(op),
    {
        if !self.version.is_v5() {
            return self.execute_undefined();
        }
        let value: u32 = self.reg(op.rm);
        self.set_reg(op.rd, value.leading_zeros());
    }

    /// `QADD`/`QSUB`/`QDADD`/`QDSUB` (ARMv5TE): signed saturating arithmetic. Any
    /// clamp to the 32-bit range sets the sticky `Q` flag. Undefined on ARMv4T.
    fn execute_saturating(&mut self, op: SaturatingArithmetic)
        requires
            ArmOperation::SaturatingArithmetic(op).valid(),
        ensures
            final(self)@ == old(self)@.saturating(op),
    {
        if !self.version.is_v5() {
            return self.execute_undefined();
        }
        let rm: i64 = bits::to_signed(self.reg(op.rm)) as i64;
        let rn: i64 = bits::to_signed(self.reg(op.rn)) as i64;
        // The `QD` variants double the second operand first, saturating.
        let doubled: i64 = if matches!(op.op, SaturatingOp::QDAdd | SaturatingOp::QDSub) {
            2 * rn
        } else {
            rn
        };
        let second: i32 = saturate(doubled);
        let exact: i64 = match op.op {
            SaturatingOp::QAdd | SaturatingOp::QDAdd => rm + second as i64,
            SaturatingOp::QSub | SaturatingOp::QDSub => rm - second as i64,
        };
        let result: i32 = saturate(exact);
        if second as i64 != doubled || result as i64 != exact {
            self.cpsr.set_q(true);  // sticky - only MSR clears it
        }
        self.set_reg(op.rd, bits::to_word(result));
    }

    /// Raise `Q` where a 32-bit accumulation overflowed, and write the wrapped
    /// sum: the result is not saturated.
    fn accumulate(&mut self, rd: Register, product: i32, rn: u32)
        requires
            rd.valid(),
        ensures
            final(self)@ == old(self)@.raise_q(
                CpuState::saturated(product + bits::signed32(rn)) != product + bits::signed32(rn),
            ).set_reg(rd, bits::wrapped32(product + bits::signed32(rn))),
    {
        let exact: i64 = product as i64 + bits::to_signed(rn) as i64;
        if exact > 0x7FFF_FFFF || exact < -0x8000_0000 {
            self.cpsr.set_q(true);
        }
        let result: u32 = bits::to_word(product).wrapping_add(rn);
        assert(result == bits::wrapped32(product + bits::signed32(rn)));
        self.set_reg(rd, result);
    }

    /// The ARMv5TE DSP multiplies (`SMUL/SMLA` halfword and `W`/`L` forms).
    /// Undefined on ARMv4T. Only the accumulating 32-bit forms touch `Q`.
    fn execute_halfword_multiply(&mut self, op: HalfwordMultiply)
        requires
            ArmOperation::HalfwordMultiply(op).valid(),
        ensures
            final(self)@ == old(self)@.halfword_multiply(op),
    {
        if !self.version.is_v5() {
            return self.execute_undefined();
        }
        let rm: u32 = self.reg(op.rm);
        let rs: i32 = bits::signed_half(self.reg(op.rs), op.y);
        let rn: u32 = self.reg(op.rn);
        let product: i32 = bits::half_product(bits::signed_half(rm, op.x), rs);
        match op.op {
            DspMulOp::SmulXY => {
                self.set_reg(op.rd, bits::to_word(product));
            },
            DspMulOp::SmlaXY => {
                self.accumulate(op.rd, product, rn);
            },
            DspMulOp::SmulWY => {
                let wide: i32 = bits::wide_product(bits::to_signed(rm), rs);
                self.set_reg(op.rd, bits::to_word(wide));
            },
            DspMulOp::SmlaWY => {
                let wide: i32 = bits::wide_product(bits::to_signed(rm), rs);
                self.accumulate(op.rd, wide, rn);
            },
            DspMulOp::SmlalXY => {
                self.accumulate_long(op.rd, op.rn, product);
            },
        }
    }

    /// Add a product to the doubleword held in `hi`:`lo`.
    fn accumulate_long(&mut self, hi: Register, lo: Register, product: i32)
        requires
            hi.valid(),
            lo.valid(),
        ensures
            ({
                let sum = (old(self)@.reg(hi) * 0x1_0000_0000 + old(self)@.reg(lo) + product)
                    % 0x1_0000_0000_0000_0000;
                final(self)@ == old(self)@.set_reg(lo, (sum % 0x1_0000_0000) as u32).set_reg(
                    hi,
                    (sum / 0x1_0000_0000) as u32,
                )
            }),
    {
        let acc: u64 = bits::join(self.reg(hi), self.reg(lo));
        let result: u64 = acc.wrapping_add(bits::wrap64(product as i64));
        let (high, low) = bits::split(result);
        self.set_reg(lo, low);
        self.set_reg(hi, high);
    }

    fn execute_branch(&mut self, branch: Branch)
        ensures
            final(self)@ == old(self)@.branch(branch),
    {
        if branch.link {
            let return_address: u32 = self.r[15].wrapping_add(4);
            self.set_reg(Register::lr(), return_address);
        }
        let target: u32 = self.reg(Register::pc()).wrapping_add(bits::to_word(branch.offset));
        self.set_reg(Register::pc(), target);
    }

    /// Jump to `target`, choosing the instruction set from its bit 0.
    fn exchange(&mut self, target: u32)
        ensures
            final(self)@ == old(self)@.exchange(target),
    {
        self.cpsr.set_thumb(target & 1 != 0);
        self.set_reg(Register::pc(), target & !1u32);
    }

    fn execute_branch_exchange(&mut self, bx: BranchExchange)
        requires
            bx.rn.valid(),
        ensures
            final(self)@ == old(self)@.branch_exchange(bx),
    {
        // `BLX Rn` is ARMv5-only; on ARMv4T the encoding is undefined.
        if bx.link && !self.version.is_v5() {
            return self.execute_undefined();
        }
        let target: u32 = self.reg(bx.rn);
        if bx.link {
            let return_address: u32 = self.r[15].wrapping_add(4);
            self.set_reg(Register::lr(), return_address);
        }
        self.exchange(target);
    }

    /// `BLX <label>` (ARMv5): branch-with-link into Thumb. On ARMv4T it sits in the
    /// never-execute (`cond == 1111`) space and is simply a NOP.
    fn execute_blx_immediate(&mut self, op: BranchLinkExchange)
        ensures
            final(self)@ == old(self)@.branch_link_exchange(op),
    {
        if !self.version.is_v5() {
            return ;
        }
        let return_address: u32 = self.r[15].wrapping_add(4);
        self.set_reg(Register::lr(), return_address);
        // Read PC (with the ARM +8 pipeline offset) before switching to Thumb.
        let target: u32 = self.reg(Register::pc()).wrapping_add(bits::to_word(op.offset));
        self.cpsr.set_thumb(true);
        self.set_reg(Register::pc(), target);
    }

    /// `BKPT` (ARMv5): take the Prefetch Abort exception. Undefined on ARMv4T.
    fn execute_breakpoint(&mut self, _op: Breakpoint)
        ensures
            final(self)@ == old(self)@.breakpoint(),
    {
        if !self.version.is_v5() {
            return self.execute_undefined();
        }
        let return_address: u32 = self.r[15].wrapping_add(4);
        self.enter_exception(0x0C, Mode::Abort, return_address, false);
    }

    fn execute_data_processing(&mut self, op: DataProcessing)
        requires
            ArmOperation::DataProcessing(op).valid(),
        ensures
            final(self)@ == old(self)@.data_processing(op),
    {
        // A register-specified shift makes any r15 operand read at PC+12.
        let register_shift = match op.operand2 {
            Operand2::Register { shift, .. } => matches!(shift.source, ShiftSource::Register(_)),
            Operand2::Immediate { .. } => false,
        };
        let (operand2, shifter_carry) = self.eval_operand2(&op.operand2);
        let rn: u32 = if register_shift {
            self.reg_register_shifted(op.rn)
        } else {
            self.reg(op.rn)
        };
        let carry_in = self.cpsr.c();

        // (result, carry, overflow, arithmetic?, writes destination?)
        let (result, carry, overflow, arithmetic, writes) = match op.opcode {
            DataProcessingOpcode::And => (rn & operand2, shifter_carry, false, false, true),
            DataProcessingOpcode::Eor => (rn ^ operand2, shifter_carry, false, false, true),
            DataProcessingOpcode::Orr => (rn | operand2, shifter_carry, false, false, true),
            DataProcessingOpcode::Bic => (rn & !operand2, shifter_carry, false, false, true),
            DataProcessingOpcode::Mov => (operand2, shifter_carry, false, false, true),
            DataProcessingOpcode::Mvn => (!operand2, shifter_carry, false, false, true),
            DataProcessingOpcode::Tst => (rn & operand2, shifter_carry, false, false, false),
            DataProcessingOpcode::Teq => (rn ^ operand2, shifter_carry, false, false, false),
            DataProcessingOpcode::Sub => append(crate::arm::cpu::alu::sub(rn, operand2), true),
            DataProcessingOpcode::Rsb => append(crate::arm::cpu::alu::sub(operand2, rn), true),
            DataProcessingOpcode::Add => append(alu::adc(rn, operand2, false), true),
            DataProcessingOpcode::Adc => append(alu::adc(rn, operand2, carry_in), true),
            DataProcessingOpcode::Sbc => append(alu::sbc(rn, operand2, carry_in), true),
            DataProcessingOpcode::Rsc => append(alu::sbc(operand2, rn, carry_in), true),
            DataProcessingOpcode::Cmp => append(crate::arm::cpu::alu::sub(rn, operand2), false),
            DataProcessingOpcode::Cmn => append(alu::adc(rn, operand2, false), false),
        };

        if writes {
            self.set_reg(op.rd, result);
        }
        if op.set_flags {
            if op.rd.is_pc() {
                // With the S bit and r15 as destination, the CPSR is restored from
                // the SPSR rather than set from the result. This is the exception
                // return (`SUBS pc, lr, #4`) and the deprecated comparison forms
                // (`CMP/CMN/TST/TEQ` with Rd=15 - "TEQP" etc.), which restore the
                // mode instead of comparing.
                self.restore_cpsr();
            } else if arithmetic {
                self.set_arithmetic_flags(result, carry, overflow);
            } else {
                self.set_logical_flags(result, carry);
            }
        }
    }

    /// Evaluate the flexible second operand, returning its value and the carry
    /// the barrel shifter produced (used as the C flag for logical operations).
    fn eval_operand2(&self, operand2: &Operand2) -> (evaluated: (u32, bool))
        requires
            operand2.valid(),
        ensures
            evaluated == self@.eval_operand2(*operand2),
    {
        match operand2 {
            Operand2::Immediate { value, rotate } => {
                let amount: u32 = *rotate as u32 * 2;
                let result: u32 = bits::rotate_right(*value as u32, amount);
                let carry = if amount == 0 {
                    self.cpsr.c()
                } else {
                    result & 0x8000_0000 != 0
                };
                (result, carry)
            },
            Operand2::Register { rm, shift } => match shift.source {
                ShiftSource::Immediate(amount) => {
                    let value: u32 = self.reg(*rm);
                    alu::shift_by_immediate(shift.kind, value, amount, self.cpsr.c())
                },
                ShiftSource::Register(rs) => {
                    // Register-specified shift: r15 operands read at PC+12.
                    let value: u32 = self.reg_register_shifted(*rm);
                    let amount: u32 = self.reg(rs) & 0xFF;
                    alu::shift_by_register(shift.kind, value, amount, self.cpsr.c())
                },
            },
        }
    }

    // --- Status registers, banking, and exceptions ---

    fn current_spsr(&self) -> (spsr: Option<Psr>)
        ensures
            spsr == self@.current_spsr(),
    {
        match self.cpsr.mode() {
            Some(mode) => match spsr_index(mode) {
                Some(i) => Some(self.spsr[i]),
                None => None,
            },
            None => None,
        }
    }

    fn set_current_spsr(&mut self, value: Psr)
        ensures
            final(self)@ == old(self)@.set_current_spsr(value),
    {
        if let Some(mode) = self.cpsr.mode() {
            if let Some(i) = spsr_index(mode) {
                self.spsr[i] = value;
            }
        }
    }

    /// Exchange r13 and r14 between two banks.
    fn swap_r13(&mut self, from: usize, to: usize)
        requires
            from < 6,
            to < 6,
        ensures
            final(self)@ == old(self)@.swap_r13(from as int, to as int),
    {
        if from != to {
            self.banked_r13[from] = self.r[13];
            self.banked_r14[from] = self.r[14];
            self.r[13] = self.banked_r13[to];
            self.r[14] = self.banked_r14[to];
        }
    }

    /// Exchange r8..r12 on entering or leaving FIQ mode.
    fn swap_r8_r12(&mut self, from_fiq: bool, to_fiq: bool)
        ensures
            final(self)@ == old(self)@.swap_r8_r12(from_fiq, to_fiq),
    {
        if from_fiq != to_fiq {
            let current: [u32; 5] = [self.r[8], self.r[9], self.r[10], self.r[11], self.r[12]];
            let restored: [u32; 5] = if from_fiq {
                self.banked_fiq = current;
                self.banked_common
            } else {
                self.banked_common = current;
                self.banked_fiq
            };
            self.r[8] = restored[0];
            self.r[9] = restored[1];
            self.r[10] = restored[2];
            self.r[11] = restored[3];
            self.r[12] = restored[4];
            assert(current@ =~= seq![current@[0], current@[1], current@[2], current@[3], current@[4]]);
        }
    }

    /// Switch to `new_mode`, moving the banked registers accordingly and setting
    /// the CPSR mode field.
    fn change_mode(&mut self, new_mode: Mode)
        ensures
            final(self)@ == old(self)@.change_mode(new_mode),
    {
        let old_mode = match self.cpsr.mode() {
            Some(mode) => mode,
            None => Mode::System,
        };
        if old_mode == new_mode {
            return ;
        }
        self.swap_r13(bank13(old_mode), bank13(new_mode));
        self.swap_r8_r12(old_mode == Mode::Fiq, new_mode == Mode::Fiq);
        self.cpsr.set_mode(new_mode);
    }

    /// Write the whole CPSR, re-banking registers if the mode changed.
    fn write_cpsr(&mut self, value: Psr)
        ensures
            final(self)@ == old(self)@.write_cpsr(value),
    {
        if let Some(new_mode) = value.mode() {
            self.change_mode(new_mode);
        }
        // change_mode has already applied the mode field; keep the rest.
        self.cpsr = value;
    }

    /// Restore the CPSR from the current SPSR, where there is one.
    fn restore_cpsr(&mut self)
        ensures
            final(self)@ == old(self)@.restore_cpsr(),
    {
        if let Some(spsr) = self.current_spsr() {
            self.write_cpsr(spsr);
        }
    }

    /// Enter an exception: save the CPSR to the target mode's SPSR, set its LR,
    /// switch to ARM state with IRQs masked, and jump to the vector.
    fn enter_exception(&mut self, vector: u32, mode: Mode, return_address: u32, disable_fiq: bool)
        ensures
            final(self)@ == old(self)@.enter_exception(vector, mode, return_address, disable_fiq),
    {
        let saved = self.cpsr;
        self.change_mode(mode);
        self.set_current_spsr(saved);
        self.r[14] = return_address;
        self.cpsr.set_thumb(false);
        self.cpsr.set_irq_disabled(true);
        if disable_fiq {
            self.cpsr.set_fiq_disabled(true);
        }
        self.r[15] = vector;
        self.branched = true;
        self.sequential = false;
    }

    /// Whether an IRQ can currently be accepted (the CPSR I-bit is clear).
    pub fn irq_enabled(&self) -> (enabled: bool)
        ensures
            enabled == !self@.cpsr.irq_disabled(),
    {
        !self.cpsr.irq_disabled()
    }

    /// Take an IRQ exception. The machine decides when the line is asserted and
    /// interrupts are enabled; this performs the entry.
    pub fn take_irq(&mut self)
        ensures
            final(self)@ == old(self)@.irq(),
    {
        let return_address: u32 = self.r[15].wrapping_add(4);
        self.enter_exception(0x18, Mode::Irq, return_address, false);
    }

    fn execute_software_interrupt(&mut self, _swi: SoftwareInterrupt)
        ensures
            final(self)@ == old(self)@.software_interrupt(4),
    {
        let return_address: u32 = self.r[15].wrapping_add(4);
        self.enter_exception(0x08, Mode::Supervisor, return_address, false);
    }

    fn execute_undefined(&mut self)
        ensures
            final(self)@ == old(self)@.undefined(4),
    {
        let return_address: u32 = self.r[15].wrapping_add(4);
        self.enter_exception(0x04, Mode::Undefined, return_address, false);
    }

    fn execute_mrs(&mut self, op: Mrs)
        requires
            op.rd.valid(),
        ensures
            final(self)@ == old(self)@.mrs(op),
    {
        let value: u32 = if op.source_spsr {
            match self.current_spsr() {
                Some(spsr) => spsr.bits(),
                None => self.cpsr.bits(),
            }
        } else {
            self.cpsr.bits()
        };
        self.set_reg(op.rd, value);
    }

    fn execute_msr(&mut self, op: Msr)
        requires
            op.source.valid(),
        ensures
            final(self)@ == old(self)@.msr(op),
    {
        let source: u32 = match op.source {
            MsrSource::Register(rm) => self.reg(rm),
            MsrSource::Immediate { value, rotate } => bits::rotate_right(
                value as u32,
                rotate as u32 * 2,
            ),
        };
        let flags: u32 = if op.write_flags {
            0xFF00_0000
        } else {
            0
        };
        let status: u32 = if op.write_status {
            0x00FF_0000
        } else {
            0
        };
        let extension: u32 = if op.write_extension {
            0x0000_FF00
        } else {
            0
        };
        let control: u32 = if op.write_control {
            0x0000_00FF
        } else {
            0
        };
        let mask: u32 = flags | status | extension | control;

        if op.dest_spsr {
            if let Some(current) = self.current_spsr() {
                let merged: u32 = (current.bits() & !mask) | (source & mask);
                self.set_current_spsr(Psr::from_bits(merged));
            }
        } else {
            // In User mode only the condition flags are writable; the control
            // byte (mode, interrupt masks, state) is protected.
            let effective: u32 = if self.cpsr.mode() == Some(Mode::User) {
                mask & 0xF000_0000
            } else {
                mask
            };
            let merged: u32 = (self.cpsr.bits() & !effective) | (source & effective);
            self.write_cpsr(Psr::from_bits(merged));
        }
    }

    /// `MRC`/`MCR` (ARMv5TE): a coprocessor register transfer through the bus. A
    /// coprocessor that is not there raises the Undefined Instruction trap, as
    /// every one does on ARMv4T. `MRC` to r15 updates the condition flags.
    fn execute_coprocessor_transfer<B: Bus>(
        &mut self,
        op: CoprocessorRegisterTransfer,
        bus: &mut B,
    )
        requires
            op.rd.valid(),
            old(bus).model().valid(),
        ensures
            final(self)@ == old(self)@.coprocessor_transfer(op, old(bus).model()).0,
            final(bus).model() == old(self)@.coprocessor_transfer(op, old(bus).model()).1,
            final(bus).model().valid(),
    {
        if !self.version.is_v5() {
            return self.execute_undefined();
        }
        if op.load {
            match bus.coprocessor_read(op.cp_num, op.opcode1, op.crn, op.crm, op.opcode2) {
                None => self.execute_undefined(),
                Some(value) => {
                    if op.rd.is_pc() {
                        let merged: u32 = (self.cpsr.bits() & 0x0FFF_FFFF) | (value & 0xF000_0000);
                        self.cpsr = Psr::from_bits(merged);
                    } else {
                        self.set_reg(op.rd, value);
                    }
                },
            }
        } else {
            let value: u32 = self.reg(op.rd);
            let accepted = bus.coprocessor_write(
                op.cp_num,
                op.opcode1,
                op.crn,
                op.crm,
                op.opcode2,
                value,
            );
            if !accepted {
                self.execute_undefined();
            }
        }
    }
}

/// The r13/r14 bank index for a mode.
fn bank13(mode: Mode) -> (bank: usize)
    ensures
        bank == CpuState::bank13(mode),
        bank < 6,
{
    match mode {
        Mode::User | Mode::System => 0,
        Mode::Fiq => 1,
        Mode::Irq => 2,
        Mode::Supervisor => 3,
        Mode::Abort => 4,
        Mode::Undefined => 5,
    }
}

/// The SPSR index for a mode, or `None` for modes without an SPSR.
fn spsr_index(mode: Mode) -> (index: Option<usize>)
    ensures
        index matches Some(i) ==> CpuState::spsr_index(mode) == Some(i as int) && i < 5,
        index is None ==> CpuState::spsr_index(mode) is None,
{
    match mode {
        Mode::Fiq => Some(0),
        Mode::Irq => Some(1),
        Mode::Supervisor => Some(2),
        Mode::Abort => Some(3),
        Mode::Undefined => Some(4),
        Mode::User | Mode::System => None,
    }
}

/// Attach the "arithmetic" flag and destination-write flag to an ALU result.
fn append(result: (u32, bool, bool), writes: bool) -> (appended: (u32, bool, bool, bool, bool))
    ensures
        appended == (result.0, result.1, result.2, true, writes),
{
    (result.0, result.1, result.2, true, writes)
}

/// Clamp to the signed 32-bit range.
fn saturate(x: i64) -> (clamped: i32)
    ensures
        clamped == CpuState::saturated(x as int),
{
    if x > 0x7FFF_FFFF {
        0x7FFF_FFFF
    } else if x < -0x8000_0000 {
        -0x8000_0000
    } else {
        x as i32
    }
}

} // verus!
