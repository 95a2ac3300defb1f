use rewinds::gba::cartridge::eeprom::{Eeprom, SIZE_512, SIZE_8K};

/// Clock a big-endian bit sequence of `n` bits into the chip.
fn write_bits(e: &mut Eeprom, value: u128, n: u32) {
    for i in (0..n).rev() {
        e.write_bit((value >> i) & 1 != 0);
    }
}

/// A 6-bit write to block 5, then a read back of the same block.
#[test]
fn write_then_read_roundtrip_6bit() {
    let mut e = Eeprom::new();
    let payload: u64 = 0x0123_4567_89AB_CDEF;
    // Write command: 1 0 | addr(6)=5 | data(64) | stop(0)  => 73 bits.
    let mut cmd: u128 = 0b10;
    cmd = (cmd << 6) | 5;
    cmd = (cmd << 64) | payload as u128;
    cmd <<= 1;
    write_bits(&mut e, cmd, 73);
    // The program takes effect on the first read (the game's ready poll).
    assert_eq!(e.read_bit(), 1); // ready
    assert_eq!(e.size(), SIZE_512);

    // Read command: 1 1 | addr(6)=5 | stop(0) => 9 bits.
    let mut rd: u128 = 0b11;
    rd = (rd << 6) | 5;
    rd <<= 1;
    write_bits(&mut e, rd, 9);
    // 4 don't-care bits, then 64 data bits MSB-first.
    for _ in 0..4 {
        e.read_bit();
    }
    let mut got: u64 = 0;
    for _ in 0..64 {
        got = (got << 1) | e.read_bit() as u64;
    }
    assert_eq!(got, payload);
}

/// A 14-bit command upgrades the chip to 8 KiB.
#[test]
fn fourteen_bit_command_grows_to_8k() {
    let mut e = Eeprom::new();
    // Read command with a 14-bit address (17 bits total) to block 300.
    let mut rd: u128 = 0b11;
    rd = (rd << 14) | 300;
    rd <<= 1;
    write_bits(&mut e, rd, 17);
    e.read_bit(); // executes -> detects 14-bit width
    assert_eq!(e.size(), SIZE_8K);
}

#[test]
fn load_sets_width_from_size() {
    let mut e = Eeprom::new();
    e.load(&vec![0u8; SIZE_8K]);
    assert_eq!(e.size(), SIZE_8K);
    assert_eq!(e.addr_bits(), 14);
}

/// A 14-bit write to block 300 of a fresh chip, then a read back of the same block.
#[test]
fn a_large_chip_gives_back_what_was_written() {
    for mut e in [Eeprom::new(), Eeprom::large()] {
        let payload: u64 = 0xFEDC_BA98_7654_3210;
        write_bits(&mut e, ((0b10u128 << 14 | 300) << 64 | payload as u128) << 1, 81);
        assert_eq!(e.read_bit(), 1);
        assert_eq!((e.size(), e.addr_bits()), (SIZE_8K, 14));
        write_bits(&mut e, (0b11u128 << 14 | 300) << 1, 17);
        let mut got: u128 = 0;
        for _ in 0..68 {
            got = got << 1 | e.read_bit() as u128;
        }
        assert_eq!(got, payload as u128);
        assert_eq!(&e.bytes()[300 * 8..301 * 8], &payload.to_be_bytes());
    }
}
