use rewinds::arm::decode_arm;
use rewinds::arm::disasm::format_arm;

fn disasm(raw: u32) -> String {
    format_arm(&decode_arm(raw))
}

#[test]
fn data_processing() {
    assert_eq!(disasm(0xE281_1001), "add\tr1, r1, #1");
    assert_eq!(disasm(0xE1A0_0181), "mov\tr0, r1, lsl #3");
    assert_eq!(disasm(0xE350_0001), "cmp\tr0, #1");
    // MOVS with a rotated immediate: 0xFF ror 8 == 0xFF000000.
    assert_eq!(disasm(0xE3B0_04FF), "movs\tr0, #0xff000000");
}

#[test]
fn multiply() {
    assert_eq!(disasm(0xE001_0293), "mul\tr1, r3, r2");
    assert_eq!(disasm(0xE021_3291), "mla\tr1, r1, r2, r3");
    assert_eq!(disasm(0xE081_2394), "umull\tr2, r1, r4, r3");
    assert_eq!(disasm(0xE0F1_2394), "smlals\tr2, r1, r4, r3");
}

#[test]
fn transfers() {
    assert_eq!(disasm(0xE590_1004), "ldr\tr1, [r0, #4]");
    assert_eq!(disasm(0xE511_0008), "ldr\tr0, [r1, #-8]");
    assert_eq!(disasm(0xE643_2104), "strb\tr2, [r3], -r4, lsl #2");
    assert_eq!(disasm(0xE1D0_10B4), "ldrh\tr1, [r0, #4]");
    assert_eq!(disasm(0xE190_10D2), "ldrsb\tr1, [r0, r2]");
}

#[test]
fn block_transfers() {
    assert_eq!(disasm(0xE8BD_8000), "ldmia\tsp!, {pc}");
    assert_eq!(disasm(0xE92D_400F), "stmdb\tsp!, {r0-r3, lr}");
}

#[test]
fn arm_control_flow() {
    assert_eq!(disasm(0xE12F_FF1E), "bx\tlr");
    assert_eq!(disasm(0xEBFF_FFFE), "bl\t#-8");
    assert_eq!(disasm(0xEA00_000A), "b\t#40");
    assert_eq!(disasm(0xEF12_3456), "swi\t#0x123456");
}

#[test]
fn status_and_swap() {
    assert_eq!(disasm(0xE10F_0000), "mrs\tr0, cpsr");
    assert_eq!(disasm(0xE12F_F000), "msr\tcpsr_fsxc, r0");
    assert_eq!(disasm(0xE104_3092), "swp\tr3, r2, [r4]");
}

#[test]
fn conditions_and_undefined() {
    assert_eq!(disasm(0x012F_FF1E), "bxeq\tlr");
    assert_eq!(disasm(0x1281_1001), "addne\tr1, r1, #1");
    assert_eq!(disasm(0xE791_0012), ".word\t0xe7910012");
}
