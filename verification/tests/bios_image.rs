//! Taking a flat BIOS image out of an object file.

use rewinds::bios::{extract_text, ExtractError, BIOS_SIZE};

const NAMES: &[u8] = b"\0.text\0.shstrtab\0.rel.text\0";

fn put16(b: &mut [u8], at: usize, v: u16) {
    b[at..at + 2].copy_from_slice(&v.to_le_bytes());
}

fn put32(b: &mut [u8], at: usize, v: u32) {
    b[at..at + 4].copy_from_slice(&v.to_le_bytes());
}

/// An object with `.text`, the section names and, if asked for, relocations.
fn object(text: &[u8], relocations: bool) -> Vec<u8> {
    let count: u16 = if relocations { 4 } else { 3 };
    let text_at = 0x34usize;
    let names_at = text_at + text.len();
    let table_at = names_at + NAMES.len();
    let mut elf = vec![0u8; table_at + count as usize * 0x28];
    elf[0..4].copy_from_slice(&[0x7F, b'E', b'L', b'F']);
    elf[4] = 1;
    elf[5] = 1;
    put16(&mut elf, 0x12, 0x28);
    put32(&mut elf, 0x20, table_at as u32);
    put16(&mut elf, 0x2E, 0x28);
    put16(&mut elf, 0x30, count);
    put16(&mut elf, 0x32, 2);
    elf[text_at..names_at].copy_from_slice(text);
    elf[names_at..table_at].copy_from_slice(NAMES);
    let mut section = |i: usize, name: u32, off: usize, size: usize| {
        let at = table_at + i * 0x28;
        put32(&mut elf, at, name);
        put32(&mut elf, at + 0x10, off as u32);
        put32(&mut elf, at + 0x14, size as u32);
    };
    section(1, 1, text_at, text.len());
    section(2, 7, names_at, NAMES.len());
    if relocations {
        section(3, 17, text_at, 0);
    }
    elf
}

#[test]
fn the_image_is_the_padded_text() {
    let image = extract_text(&object(&[1, 2, 3, 4], false)).unwrap();
    assert_eq!(image.len(), BIOS_SIZE);
    assert_eq!(&image[0..6], &[1, 2, 3, 4, 0, 0]);
    assert!(image[4..].iter().all(|&b| b == 0));
}

#[test]
fn a_full_image_fits_and_a_larger_one_does_not() {
    assert_eq!(extract_text(&object(&vec![7u8; BIOS_SIZE], false)).unwrap(), vec![7u8; BIOS_SIZE]);
    assert_eq!(
        extract_text(&object(&vec![7u8; BIOS_SIZE + 1], false)),
        Err(ExtractError::TooLarge(BIOS_SIZE + 1))
    );
}

#[test]
fn relocations_are_refused() {
    assert_eq!(extract_text(&object(&[1], true)), Err(ExtractError::Relocations));
}

#[test]
fn every_malformed_header_is_named() {
    let good = object(&[1], false);
    let broken = |at: usize, v: u8| {
        let mut elf = good.clone();
        elf[at] = v;
        extract_text(&elf)
    };
    assert_eq!(extract_text(&good[0..0x33]), Err(ExtractError::NotElf));
    assert_eq!(broken(0, 0), Err(ExtractError::NotElf));
    assert_eq!(broken(4, 2), Err(ExtractError::Not32Bit));
    assert_eq!(broken(5, 2), Err(ExtractError::NotLittleEndian));
    assert_eq!(broken(0x12, 3), Err(ExtractError::NotArm));
    assert_eq!(broken(0x30, 0), Err(ExtractError::NoSections));
    assert_eq!(broken(0x22, 0xFF), Err(ExtractError::Truncated));
    // Only the empty first section is left.
    assert_eq!(broken(0x30, 1), Err(ExtractError::NoText));
}

#[test]
fn errors_have_messages() {
    assert_eq!(ExtractError::NotElf.message(), "not an ELF file");
    assert_eq!(ExtractError::NoText.message(), "no .text section found");
    assert_eq!(
        ExtractError::TooLarge(0x4001).message(),
        ".text is 16385 bytes, exceeds 16 KiB"
    );
}
