use rewinds::arm::instruction::arm::{
    ArmOperation, BlockTransfer, Branch, BranchExchange, DataProcessing, DataProcessingOpcode,
    Operand2, Shift, ShiftKind, ShiftSource, SingleOffset, SingleTransfer, SoftwareInterrupt,
};
use rewinds::arm::Register;

#[test]
fn control_flow_instructions_are_both() {
    for op in [
        ArmOperation::Branch(Branch {
            link: true,
            offset: 0,
        }),
        ArmOperation::BranchExchange(BranchExchange {
            rn: Register::lr(),
            link: false,
        }),
        ArmOperation::SoftwareInterrupt(SoftwareInterrupt { comment: 0 }),
    ] {
        assert!(op.is_control_flow());
        assert!(op.may_modify_pc());
    }
}

#[test]
fn pc_writes_modify_pc_but_are_not_control_flow() {
    // MOV pc, lr
    let mov_pc = ArmOperation::DataProcessing(DataProcessing {
        opcode: DataProcessingOpcode::Mov,
        set_flags: false,
        rd: Register::pc(),
        rn: Register::new(0),
        operand2: Operand2::Register {
            rm: Register::lr(),
            shift: Shift {
                kind: ShiftKind::Lsl,
                source: ShiftSource::Immediate(0),
            },
        },
    });
    assert!(mov_pc.may_modify_pc());
    assert!(!mov_pc.is_control_flow());

    // LDR pc, [r0]
    let ldr_pc = ArmOperation::SingleTransfer(SingleTransfer {
        load: true,
        byte: false,
        pre_indexed: true,
        add: true,
        writeback: false,
        rn: Register::new(0),
        rd: Register::pc(),
        offset: SingleOffset::Immediate(0),
    });
    assert!(ldr_pc.may_modify_pc());
    assert!(!ldr_pc.is_control_flow());

    // LDM sp!, {pc}
    let ldm_pc = ArmOperation::BlockTransfer(BlockTransfer {
        load: true,
        pre_indexed: false,
        add: true,
        writeback: true,
        psr_force_user: false,
        rn: Register::sp(),
        register_list: 1 << 15,
    });
    assert!(ldm_pc.may_modify_pc());
    assert!(!ldm_pc.is_control_flow());
}

#[test]
fn non_pc_writes_do_not_modify_pc() {
    // ADD r0, r0, #1
    let add = ArmOperation::DataProcessing(DataProcessing {
        opcode: DataProcessingOpcode::Add,
        set_flags: false,
        rd: Register::new(0),
        rn: Register::new(0),
        operand2: Operand2::Immediate {
            value: 1,
            rotate: 0,
        },
    });
    assert!(!add.may_modify_pc());

    // A comparison never writes a register, even if the rd field reads r15.
    let cmp = ArmOperation::DataProcessing(DataProcessing {
        opcode: DataProcessingOpcode::Cmp,
        set_flags: true,
        rd: Register::pc(),
        rn: Register::new(0),
        operand2: Operand2::Immediate {
            value: 0,
            rotate: 0,
        },
    });
    assert!(!cmp.may_modify_pc());

    // A store to r15 writes memory, not the PC.
    let str_pc = ArmOperation::SingleTransfer(SingleTransfer {
        load: false,
        byte: false,
        pre_indexed: true,
        add: true,
        writeback: false,
        rn: Register::new(0),
        rd: Register::pc(),
        offset: SingleOffset::Immediate(0),
    });
    assert!(!str_pc.may_modify_pc());

    // A load that does not include r15 in its list.
    let ldm = ArmOperation::BlockTransfer(BlockTransfer {
        load: true,
        pre_indexed: false,
        add: true,
        writeback: true,
        psr_force_user: false,
        rn: Register::sp(),
        register_list: 0x00FF,
    });
    assert!(!ldm.may_modify_pc());

    // Undefined writes nothing itself.
    let undef = ArmOperation::Undefined { raw: 0 };
    assert!(!undef.may_modify_pc());
    assert!(!undef.is_control_flow());
}
