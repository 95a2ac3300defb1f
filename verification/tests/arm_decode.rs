use rewinds::arm::decode::arm::{
    decode_arm, matches_branch_exchange, matches_doubleword_transfer, matches_halfword_transfer,
    matches_multiply, matches_multiply_long, matches_swap,
};
use rewinds::arm::instruction::arm::{
    ArmOperation, BlockTransfer, Branch, BranchExchange,
    DataProcessing, DataProcessingOpcode, HalfwordKind, HalfwordOffset,
    HalfwordTransfer, Mrs, Msr, MsrSource, Multiply, MultiplyLong, Operand2, Shift, ShiftKind,
    ShiftSource, SingleOffset, SingleTransfer, SoftwareInterrupt, Swap,
};
use rewinds::arm::{Condition, Register};

#[test]
fn extracts_condition() {
    // `BXEQ r0` — condition nibble 0000.
    assert_eq!(decode_arm(0x012F_FF10).condition, Condition::Eq);
    // `B` with AL condition.
    assert_eq!(decode_arm(0xEA00_0000).condition, Condition::Al);
    // `SWINV` — condition nibble 1111.
    assert_eq!(decode_arm(0xFF00_0000).condition, Condition::Nv);
}

#[test]
fn bx_is_matched() {
    assert!(matches_branch_exchange(0xE12F_FF1E)); // BX lr
    assert!(matches_branch_exchange(0x012F_FF13)); // BXEQ r3
    // A data-processing word must not look like BX.
    assert!(!matches_branch_exchange(0xE281_1001)); // ADD r1, r1, #1
}

#[test]
fn multiply_family_is_matched() {
    assert!(matches_multiply(0xE001_0293)); // MUL r1, r3, r2
    assert!(matches_multiply(0xE021_3291)); // MLA r1, r1, r2, r3
    assert!(!matches_multiply_long(0xE001_0293));

    assert!(matches_multiply_long(0xE081_2394)); // UMULL
    assert!(matches_multiply_long(0xE0C1_2394)); // SMULL
    assert!(!matches_multiply(0xE081_2394));
}

#[test]
fn swap_is_matched_and_not_confused() {
    assert!(matches_swap(0xE104_3092)); // SWP r3, r2, [r4]
    assert!(matches_swap(0xE144_3092)); // SWPB r3, r2, [r4]
    // A swap must not be picked up by the multiply or halfword matchers.
    assert!(!matches_multiply(0xE104_3092));
    assert!(!matches_halfword_transfer(0xE104_3092));
}

#[test]
fn halfword_transfer_is_matched() {
    assert!(matches_halfword_transfer(0xE1D1_00B0)); // LDRH r0, [r1]
    assert!(matches_halfword_transfer(0xE1D1_00D0)); // LDRSB r0, [r1]
    assert!(matches_halfword_transfer(0xE1D1_00F0)); // LDRSH r0, [r1]
    // SWP has SH == 00 and must not be treated as a halfword transfer.
    assert!(!matches_halfword_transfer(0xE104_3092));
}

#[test]
fn doubleword_transfer_is_matched_and_decodes() {
    // LDRD/STRD (L=0, SH=10/11) must be caught before the halfword matcher,
    // which would otherwise treat them as nonexistent signed stores.
    assert!(matches_doubleword_transfer(0xE1C2_00D0)); // LDRD r0, [r2]
    assert!(matches_doubleword_transfer(0xE1C2_00F0)); // STRD r0, [r2]
    // The L=1 signed loads are halfword transfers, not doubleword.
    assert!(!matches_doubleword_transfer(0xE1D1_00D0)); // LDRSB
    assert!(!matches_doubleword_transfer(0xE1D1_00F0)); // LDRSH

    let ArmOperation::DoublewordTransfer(ldrd) = decode_arm(0xE1C2_00D0).operation else {
        panic!("expected LDRD");
    };
    assert!(!ldrd.store);
    assert_eq!(ldrd.rd, Register::new(0));
    assert_eq!(ldrd.rn, Register::new(2));

    let ArmOperation::DoublewordTransfer(strd) = decode_arm(0xE1C2_00F0).operation else {
        panic!("expected STRD");
    };
    assert!(strd.store);
}

#[test]
fn coprocessor_register_transfer_decodes() {
    // mcr p15, 0, r1, c1, c0, 0
    let ArmOperation::CoprocessorRegisterTransfer(mcr) = decode_arm(0xEE01_1F10).operation
    else {
        panic!("expected MCR");
    };
    assert!(!mcr.load);
    assert_eq!(mcr.cp_num, 15);
    assert_eq!(mcr.opcode1, 0);
    assert_eq!(mcr.opcode2, 0);
    assert_eq!(mcr.crn, 1);
    assert_eq!(mcr.crm, 0);
    assert_eq!(mcr.rd, Register::new(1));

    // mrc p15, 0, r2, c1, c0, 0 — same location, L bit set.
    let ArmOperation::CoprocessorRegisterTransfer(mrc) = decode_arm(0xEE11_2F10).operation
    else {
        panic!("expected MRC");
    };
    assert!(mrc.load);
    assert_eq!(mrc.rd, Register::new(2));

    // CDP (bit 4 clear) is not modelled and stays Undefined.
    assert!(matches!(
        decode_arm(0xEE01_1F00).operation,
        ArmOperation::Undefined { .. }
    ));
}

#[test]
fn swap_decodes() {
    // SWP r3, r2, [r4]
    let op = decode_arm(0xE104_3092).operation;
    assert_eq!(
        op,
        ArmOperation::Swap(Swap {
            byte: false,
            rn: Register::new(4),
            rd: Register::new(3),
            rm: Register::new(2),
        })
    );
    // SWPB sets the byte flag.
    let ArmOperation::Swap(swapb) = decode_arm(0xE144_3092).operation else {
        panic!("expected swap");
    };
    assert!(swapb.byte);
}

#[test]
fn dp_immediate_operand() {
    // MOV r0, #0x1F
    let op = decode_arm(0xE3A0_001F).operation;
    assert_eq!(
        op,
        ArmOperation::DataProcessing(DataProcessing {
            opcode: DataProcessingOpcode::Mov,
            set_flags: false,
            rd: Register::new(0),
            rn: Register::new(0),
            operand2: Operand2::Immediate {
                value: 0x1F,
                rotate: 0,
            },
        })
    );
}

#[test]
fn dp_register_with_immediate_shift() {
    // ADD r0, r1, r2, LSL #3
    let op = decode_arm(0xE081_0182).operation;
    assert_eq!(
        op,
        ArmOperation::DataProcessing(DataProcessing {
            opcode: DataProcessingOpcode::Add,
            set_flags: false,
            rd: Register::new(0),
            rn: Register::new(1),
            operand2: Operand2::Register {
                rm: Register::new(2),
                shift: Shift {
                    kind: ShiftKind::Lsl,
                    source: ShiftSource::Immediate(3),
                },
            },
        })
    );
}

#[test]
fn dp_register_with_register_shift() {
    // MOV r0, r1, LSL r2
    let op = decode_arm(0xE1A0_0211).operation;
    assert_eq!(
        op,
        ArmOperation::DataProcessing(DataProcessing {
            opcode: DataProcessingOpcode::Mov,
            set_flags: false,
            rd: Register::new(0),
            rn: Register::new(0),
            operand2: Operand2::Register {
                rm: Register::new(1),
                shift: Shift {
                    kind: ShiftKind::Lsl,
                    source: ShiftSource::Register(Register::new(2)),
                },
            },
        })
    );
}

#[test]
fn dp_comparison_keeps_set_flags_and_is_not_psr() {
    // CMP r0, #1 — a real comparison (S set), not an MRS/MSR.
    let op = decode_arm(0xE350_0001).operation;
    assert_eq!(
        op,
        ArmOperation::DataProcessing(DataProcessing {
            opcode: DataProcessingOpcode::Cmp,
            set_flags: true,
            rd: Register::new(0),
            rn: Register::new(0),
            operand2: Operand2::Immediate {
                value: 1,
                rotate: 0,
            },
        })
    );
}

#[test]
fn mrs_reads_cpsr_and_spsr() {
    // MRS r0, CPSR
    assert_eq!(
        decode_arm(0xE10F_0000).operation,
        ArmOperation::Mrs(Mrs {
            source_spsr: false,
            rd: Register::new(0),
        })
    );
    // MRS r0, SPSR
    assert_eq!(
        decode_arm(0xE14F_0000).operation,
        ArmOperation::Mrs(Mrs {
            source_spsr: true,
            rd: Register::new(0),
        })
    );
}

#[test]
fn msr_register_all_fields() {
    // MSR CPSR_fsxc, r0 — every field-mask bit set.
    assert_eq!(
        decode_arm(0xE12F_F000).operation,
        ArmOperation::Msr(Msr {
            dest_spsr: false,
            write_flags: true,
            write_status: true,
            write_extension: true,
            write_control: true,
            source: MsrSource::Register(Register::new(0)),
        })
    );
}

#[test]
fn msr_immediate_flags_only() {
    // MSR CPSR_f, #0xFF ROR 8  (field mask = flags byte only)
    assert_eq!(
        decode_arm(0xE328_F4FF).operation,
        ArmOperation::Msr(Msr {
            dest_spsr: false,
            write_flags: true,
            write_status: false,
            write_extension: false,
            write_control: false,
            source: MsrSource::Immediate {
                value: 0xFF,
                rotate: 4,
            },
        })
    );
}

#[test]
fn single_transfer_immediate_offset() {
    // LDR r1, [r0, #4]
    assert_eq!(
        decode_arm(0xE590_1004).operation,
        ArmOperation::SingleTransfer(SingleTransfer {
            load: true,
            byte: false,
            pre_indexed: true,
            add: true,
            writeback: false,
            rn: Register::new(0),
            rd: Register::new(1),
            offset: SingleOffset::Immediate(4),
        })
    );
}

#[test]
fn single_transfer_register_offset_post_indexed() {
    // STRB r2, [r3], -r4, LSL #2
    assert_eq!(
        decode_arm(0xE643_2104).operation,
        ArmOperation::SingleTransfer(SingleTransfer {
            load: false,
            byte: true,
            pre_indexed: false,
            add: false,
            writeback: false,
            rn: Register::new(3),
            rd: Register::new(2),
            offset: SingleOffset::Register {
                rm: Register::new(4),
                shift: Shift {
                    kind: ShiftKind::Lsl,
                    source: ShiftSource::Immediate(2),
                },
            },
        })
    );
}

#[test]
fn single_transfer_register_offset_with_bit4_is_undefined() {
    // LDR r0, [r1, r2] with bit 4 set is not a valid single transfer.
    assert_eq!(
        decode_arm(0xE791_0012).operation,
        ArmOperation::Undefined { raw: 0xE791_0012 }
    );
}

#[test]
fn halfword_immediate_offset() {
    // LDRH r1, [r0, #4]
    assert_eq!(
        decode_arm(0xE1D0_10B4).operation,
        ArmOperation::HalfwordTransfer(HalfwordTransfer {
            load: true,
            pre_indexed: true,
            add: true,
            writeback: false,
            kind: HalfwordKind::UnsignedHalfword,
            rn: Register::new(0),
            rd: Register::new(1),
            offset: HalfwordOffset::Immediate(4),
        })
    );
}

#[test]
fn halfword_immediate_recombines_nibbles() {
    // STRH r1, [r0, #0xB4] — offset high nibble 0xB, low nibble 0x4.
    let ArmOperation::HalfwordTransfer(t) = decode_arm(0xE1C0_1BB4).operation else {
        panic!("expected halfword transfer");
    };
    assert!(!t.load);
    assert_eq!(t.kind, HalfwordKind::UnsignedHalfword);
    assert_eq!(t.offset, HalfwordOffset::Immediate(0xB4));
}

#[test]
fn halfword_register_offset_signed_byte() {
    // LDRSB r1, [r0, r2]
    assert_eq!(
        decode_arm(0xE190_10D2).operation,
        ArmOperation::HalfwordTransfer(HalfwordTransfer {
            load: true,
            pre_indexed: true,
            add: true,
            writeback: false,
            kind: HalfwordKind::SignedByte,
            rn: Register::new(0),
            rd: Register::new(1),
            offset: HalfwordOffset::Register(Register::new(2)),
        })
    );
}

#[test]
fn branch_decodes_link_and_offset() {
    // B forward: offset field 0x0A -> byte offset 40.
    assert_eq!(
        decode_arm(0xEA00_000A).operation,
        ArmOperation::Branch(Branch {
            link: false,
            offset: 40,
        })
    );
    // BL with a negative field 0xFFFFFE -> byte offset -8.
    assert_eq!(
        decode_arm(0xEBFF_FFFE).operation,
        ArmOperation::Branch(Branch {
            link: true,
            offset: -8,
        })
    );
}

#[test]
fn branch_exchange_decodes_register() {
    // BX lr
    assert_eq!(
        decode_arm(0xE12F_FF1E).operation,
        ArmOperation::BranchExchange(BranchExchange {
            rn: Register::new(14),
            link: false,
        })
    );
}

#[test]
fn swi_decodes_comment() {
    assert_eq!(
        decode_arm(0xEF12_3456).operation,
        ArmOperation::SoftwareInterrupt(SoftwareInterrupt { comment: 0x12_3456 })
    );
}

#[test]
fn multiply_decodes() {
    // MUL r1, r3, r2
    assert_eq!(
        decode_arm(0xE001_0293).operation,
        ArmOperation::Multiply(Multiply {
            accumulate: false,
            set_flags: false,
            rd: Register::new(1),
            rn: Register::new(0),
            rs: Register::new(2),
            rm: Register::new(3),
        })
    );
    // MLA r1, r1, r2, r3 — accumulator Rn is r3 (bits 15..12).
    assert_eq!(
        decode_arm(0xE021_3291).operation,
        ArmOperation::Multiply(Multiply {
            accumulate: true,
            set_flags: false,
            rd: Register::new(1),
            rn: Register::new(3),
            rs: Register::new(2),
            rm: Register::new(1),
        })
    );
    // MULS r0, r1, r2 — S bit set.
    let ArmOperation::Multiply(muls) = decode_arm(0xE010_0291).operation else {
        panic!("expected multiply");
    };
    assert!(muls.set_flags);
    assert!(!muls.accumulate);
}

#[test]
fn multiply_long_decodes() {
    // UMULL r2, r1, r4, r3  (RdLo=r2, RdHi=r1)
    assert_eq!(
        decode_arm(0xE081_2394).operation,
        ArmOperation::MultiplyLong(MultiplyLong {
            signed: false,
            accumulate: false,
            set_flags: false,
            rd_hi: Register::new(1),
            rd_lo: Register::new(2),
            rs: Register::new(3),
            rm: Register::new(4),
        })
    );
    // SMLALS r2, r1, r4, r3 — signed, accumulate, and set-flags all set.
    assert_eq!(
        decode_arm(0xE0F1_2394).operation,
        ArmOperation::MultiplyLong(MultiplyLong {
            signed: true,
            accumulate: true,
            set_flags: true,
            rd_hi: Register::new(1),
            rd_lo: Register::new(2),
            rs: Register::new(3),
            rm: Register::new(4),
        })
    );
}

#[test]
fn block_transfer_decodes() {
    // LDMFD sp!, {pc}  (post-increment, writeback, load)
    assert_eq!(
        decode_arm(0xE8BD_8000).operation,
        ArmOperation::BlockTransfer(BlockTransfer {
            load: true,
            pre_indexed: false,
            add: true,
            writeback: true,
            psr_force_user: false,
            rn: Register::sp(),
            register_list: 0x8000,
        })
    );
    // STMFD sp!, {r0-r3, lr}  (pre-decrement, writeback, store)
    assert_eq!(
        decode_arm(0xE92D_400F).operation,
        ArmOperation::BlockTransfer(BlockTransfer {
            load: false,
            pre_indexed: true,
            add: false,
            writeback: true,
            psr_force_user: false,
            rn: Register::sp(),
            register_list: 0x400F,
        })
    );
}

#[test]
fn block_transfer_s_bit_is_psr_force_user() {
    // LDM r0, {r0, pc}^ — the S bit maps to psr_force_user.
    let ArmOperation::BlockTransfer(t) = decode_arm(0xE8D0_8001).operation else {
        panic!("expected block transfer");
    };
    assert!(t.psr_force_user);
}

#[test]
fn decoded_pc_loads_report_may_modify_pc() {
    // Now that these classes decode, the classification helper sees through
    // real encodings, not just hand-built values.
    assert!(decode_arm(0xE8BD_8000).operation.may_modify_pc()); // LDMFD sp!, {pc}
    assert!(decode_arm(0xE1A0_F00E).operation.may_modify_pc()); // MOV pc, lr
    assert!(!decode_arm(0xE001_0293).operation.may_modify_pc()); // MUL — never PC
}
