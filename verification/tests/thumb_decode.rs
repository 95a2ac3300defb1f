use rewinds::arm::{decode_thumb, ThumbInstruction};

#[test]
fn decoder_is_total_and_never_panics() {
    // Every 16-bit halfword must resolve to some variant without panicking.
    for raw in 0..=u16::MAX {
        let _ = decode_thumb(raw);
    }
}

#[test]
fn undefined_spaces_decode_to_undefined() {
    // BLX space, bits 15..11 = 11101, is ARMv5-only.
    let blx = 0b1110_1000_0000_0000;
    assert_eq!(
        decode_thumb(blx),
        ThumbInstruction::Undefined { raw: blx }
    );
    // Conditional-branch slot with the reserved cond == 1110.
    let reserved_cond = 0b1101_1110_0000_0000;
    assert_eq!(
        decode_thumb(reserved_cond),
        ThumbInstruction::Undefined {
            raw: reserved_cond
        }
    );
}
