use rewinds::arm::Condition;

#[test]
fn decodes_every_nibble() {
    let expected = [
        Condition::Eq,
        Condition::Ne,
        Condition::Cs,
        Condition::Cc,
        Condition::Mi,
        Condition::Pl,
        Condition::Vs,
        Condition::Vc,
        Condition::Hi,
        Condition::Ls,
        Condition::Ge,
        Condition::Lt,
        Condition::Gt,
        Condition::Le,
        Condition::Al,
        Condition::Nv,
    ];
    for (bits, cond) in expected.iter().enumerate() {
        assert_eq!(Condition::decode(bits as u32), *cond);
    }
}

#[test]
fn ignores_upper_bits() {
    // `raw >> 28` is only ever 0..=15, but decode should be robust to junk.
    assert_eq!(Condition::decode(0xE), Condition::Al);
    assert_eq!(Condition::decode(0xDEAD_BEE0 | 0xE), Condition::Al);
}
