use rewinds::arm::decode_thumb;
use rewinds::arm::disasm::format_thumb;

fn disasm(raw: u16) -> String {
    format_thumb(&decode_thumb(raw))
}

#[test]
fn alu_and_shift() {
    assert_eq!(disasm(0x0148), "lsl\tr0, r1, #5");
    assert_eq!(disasm(0x1888), "add\tr0, r1, r2");
    assert_eq!(disasm(0x1EC8), "sub\tr0, r1, #3");
    assert_eq!(disasm(0x252A), "mov\tr5, #0x2a");
    assert_eq!(disasm(0x435A), "mul\tr2, r3");
}

#[test]
fn hi_register_and_bx() {
    assert_eq!(disasm(0x4488), "add\tr8, r1");
    assert_eq!(disasm(0x4641), "mov\tr1, r8");
    assert_eq!(disasm(0x4770), "bx\tlr");
}

#[test]
fn loads_and_stores() {
    assert_eq!(disasm(0x4B10), "ldr\tr3, [pc, #0x40]");
    assert_eq!(disasm(0x5888), "ldr\tr0, [r1, r2]");
    assert_eq!(disasm(0x5688), "ldrsb\tr0, [r1, r2]");
    assert_eq!(disasm(0x6948), "ldr\tr0, [r1, #0x14]");
    assert_eq!(disasm(0x8888), "ldrh\tr0, [r1, #4]");
    assert_eq!(disasm(0x9A08), "ldr\tr2, [sp, #0x20]");
    assert_eq!(disasm(0xA440), "add\tr4, pc, #0x100");
}

#[test]
fn stack_and_block() {
    assert_eq!(disasm(0xB010), "add\tsp, #0x40");
    assert_eq!(disasm(0xB084), "sub\tsp, #0x10");
    assert_eq!(disasm(0xB50F), "push\t{r0-r3, lr}");
    assert_eq!(disasm(0xBDFF), "pop\t{r0-r7, pc}");
    assert_eq!(disasm(0xC10F), "stmia\tr1!, {r0-r3}");
}

#[test]
fn thumb_control_flow() {
    assert_eq!(disasm(0xD010), "beq\t#32");
    assert_eq!(disasm(0xD1FB), "bne\t#-10");
    assert_eq!(disasm(0xDFAB), "swi\t#0xab");
    assert_eq!(disasm(0xE100), "b\t#512");
    assert_eq!(disasm(0xF123), "bl\t(high) #0x123");
    assert_eq!(disasm(0xFC56), "bl\t(low) #0x456");
}

#[test]
fn undefined() {
    assert_eq!(disasm(0xDE00), ".hword\t0xde00");
}
