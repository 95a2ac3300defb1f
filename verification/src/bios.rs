//! The GBA BIOS image: extracting the `.text` section of a 32-bit little-endian ARM
//! ELF object, padded to 16 KiB, as a flat image.
//!
//! This exists so the BIOS can be built with an assembler alone - no cross-linker or
//! objcopy. It relies on the assembled `.text` being position-independent; the
//! presence of any `.text` relocation section means that assumption was broken, and
//! extraction refuses to emit a silently-wrong image.

use vstd::prelude::*;

use crate::text;

verus! {

/// The size of a BIOS image: 16 KiB.
pub const BIOS_SIZE: usize = 0x4000;

/// Why an object yields no image.
#[derive(Clone, Copy, Debug, PartialEq, Eq, Structural)]
pub enum ExtractError {
    /// Too short, or without the ELF magic.
    NotElf,
    /// Not a 32-bit ELF (ELFCLASS32 expected).
    Not32Bit,
    /// Not little-endian (ELFDATA2LSB expected).
    NotLittleEndian,
    /// Not an ARM object (EM_ARM expected).
    NotArm,
    /// No section header table.
    NoSections,
    /// A header points outside the file.
    Truncated,
    /// `.text` has relocations; the source must be position-independent.
    Relocations,
    /// No `.text` section found.
    NoText,
    /// `.text` is this many bytes, which exceeds 16 KiB.
    TooLarge(usize),
}

impl ExtractError {
    /// What the error says.
    pub open spec fn spec_message(self) -> Seq<char> {
        match self {
            ExtractError::NotElf => "not an ELF file"@,
            ExtractError::Not32Bit => "not a 32-bit ELF (ELFCLASS32 expected)"@,
            ExtractError::NotLittleEndian => "not little-endian (ELFDATA2LSB expected)"@,
            ExtractError::NotArm => "not an ARM object (EM_ARM expected)"@,
            ExtractError::NoSections => "no section header table"@,
            ExtractError::Truncated => "a header points outside the file"@,
            ExtractError::Relocations =>
                ".text has relocations; bios.s must be position-independent"@,
            ExtractError::NoText => "no .text section found"@,
            ExtractError::TooLarge(size) => ".text is "@ + text::numeral(size as nat, 10)
                + " bytes, exceeds 16 KiB"@,
        }
    }

    /// A message for the user.
    pub fn message(&self) -> (message: String)
        ensures
            message@ == self.spec_message(),
    {
        match self {
            ExtractError::NotElf => text::text("not an ELF file"),
            ExtractError::Not32Bit => text::text("not a 32-bit ELF (ELFCLASS32 expected)"),
            ExtractError::NotLittleEndian =>
                text::text("not little-endian (ELFDATA2LSB expected)"),
            ExtractError::NotArm => text::text("not an ARM object (EM_ARM expected)"),
            ExtractError::NoSections => text::text("no section header table"),
            ExtractError::Truncated => text::text("a header points outside the file"),
            ExtractError::Relocations =>
                text::text(".text has relocations; bios.s must be position-independent"),
            ExtractError::NoText => text::text("no .text section found"),
            ExtractError::TooLarge(size) => {
                let mut message = text::text(".text is ");
                message.append(text::decimal64(*size as u64).as_str());
                message.append(" bytes, exceeds 16 KiB");
                message
            },
        }
    }
}

/// Part of a byte sequence, if it lies within it.
pub open spec fn part(bytes: Seq<u8>, off: int, len: int) -> Option<Seq<u8>> {
    if off + len <= bytes.len() {
        Some(bytes.subrange(off, off + len))
    } else {
        None
    }
}

/// The halfword at `off`, if it lies within the bytes.
pub open spec fn half_at(bytes: Seq<u8>, off: int) -> Option<int> {
    if off + 2 <= bytes.len() {
        Some(bytes[off] + bytes[off + 1] * 0x100)
    } else {
        None
    }
}

/// The word at `off`, if it lies within the bytes.
pub open spec fn word_at(bytes: Seq<u8>, off: int) -> Option<int> {
    if off + 4 <= bytes.len() {
        Some(
            bytes[off] + bytes[off + 1] * 0x100 + bytes[off + 2] * 0x1_0000 + bytes[off + 3]
                * 0x100_0000,
        )
    } else {
        None
    }
}

/// Whether the NUL-terminated string at `off` of a string table is `name`.
pub open spec fn named(table: Seq<u8>, off: int, name: Seq<u8>) -> bool {
    &&& off + name.len() < table.len()
    &&& table.subrange(off, off + name.len()) == name
    &&& table[off + name.len()] == 0
}

/// `.text`
pub open spec fn text_name() -> Seq<u8> {
    seq![0x2Eu8, 0x74, 0x65, 0x78, 0x74]
}

/// `.rel.text`
pub open spec fn rel_name() -> Seq<u8> {
    seq![0x2Eu8, 0x72, 0x65, 0x6C, 0x2E, 0x74, 0x65, 0x78, 0x74]
}

/// `.rela.text`
pub open spec fn rela_name() -> Seq<u8> {
    seq![0x2Eu8, 0x72, 0x65, 0x6C, 0x61, 0x2E, 0x74, 0x65, 0x78, 0x74]
}

/// The section header table: where it starts, the size of an entry, how many there
/// are, and which section holds the names.
#[derive(Clone, Copy, Debug, PartialEq, Eq, Structural)]
pub struct SectionTable {
    pub offset: u64,
    pub entry_size: u64,
    pub count: u64,
    pub names: u64,
}

impl SectionTable {
    /// The header of section `i`.
    pub open spec fn header(self, elf: Seq<u8>, i: int) -> Option<Seq<u8>> {
        part(elf, self.offset + i * self.entry_size, self.entry_size as int)
    }

    /// The contents of a section, given its header.
    pub open spec fn contents(elf: Seq<u8>, header: Seq<u8>) -> Option<Seq<u8>> {
        match (word_at(header, 0x10), word_at(header, 0x14)) {
            (Some(off), Some(size)) => part(elf, off, size),
            _ => None,
        }
    }
}

/// The section header table of an ARM ELF object.
pub open spec fn identified(elf: Seq<u8>) -> Result<SectionTable, ExtractError> {
    if elf.len() < 0x34 || elf.subrange(0, 4) != seq![0x7Fu8, 0x45, 0x4C, 0x46] {
        Err(ExtractError::NotElf)
    } else if elf[4] != 1 {
        Err(ExtractError::Not32Bit)
    } else if elf[5] != 1 {
        Err(ExtractError::NotLittleEndian)
    } else if half_at(elf, 0x12) != Some(0x28int) {
        Err(ExtractError::NotArm)
    } else {
        let table = SectionTable {
            offset: word_at(elf, 0x20)->0 as u64,
            entry_size: half_at(elf, 0x2E)->0 as u64,
            count: half_at(elf, 0x30)->0 as u64,
            names: half_at(elf, 0x32)->0 as u64,
        };
        if table.offset == 0 || table.count == 0 {
            Err(ExtractError::NoSections)
        } else {
            Ok(table)
        }
    }
}

/// The string table that holds the section names.
pub open spec fn name_table(elf: Seq<u8>, table: SectionTable) -> Option<Seq<u8>> {
    match table.header(elf, table.names as int) {
        Some(header) => SectionTable::contents(elf, header),
        None => None,
    }
}

/// What the section with the given header makes of the text found so far: `.text`
/// replaces it, and a relocation section for `.text` is refused.
pub open spec fn examined(
    elf: Seq<u8>,
    names: Seq<u8>,
    header: Option<Seq<u8>>,
    text: Option<Seq<u8>>,
) -> Result<Option<Seq<u8>>, ExtractError> {
    match header {
        None => Err(ExtractError::Truncated),
        Some(header) => match word_at(header, 0) {
            None => Err(ExtractError::Truncated),
            Some(name) => if name > names.len() {
                Err(ExtractError::Truncated)
            } else if named(names, name, rel_name()) || named(names, name, rela_name()) {
                Err(ExtractError::Relocations)
            } else if named(names, name, text_name()) {
                match SectionTable::contents(elf, header) {
                    Some(contents) => Ok(Some(contents)),
                    None => Err(ExtractError::Truncated),
                }
            } else {
                Ok(text)
            },
        },
    }
}

/// The `.text` section among the sections from the `i`th on; the last one, if there
/// are several.
pub open spec fn text_from(
    elf: Seq<u8>,
    table: SectionTable,
    names: Seq<u8>,
    i: int,
    text: Option<Seq<u8>>,
) -> Result<Option<Seq<u8>>, ExtractError>
    decreases table.count - i,
{
    if i >= table.count {
        Ok(text)
    } else {
        match examined(elf, names, table.header(elf, i), text) {
            Ok(found) => text_from(elf, table, names, i + 1, found),
            Err(error) => Err(error),
        }
    }
}

/// The flat image of an object: its `.text`, padded with zeros.
pub open spec fn image_of(elf: Seq<u8>) -> Result<Seq<u8>, ExtractError> {
    match identified(elf) {
        Err(error) => Err(error),
        Ok(table) => match name_table(elf, table) {
            None => Err(ExtractError::Truncated),
            Some(names) => match text_from(elf, table, names, 0, None) {
                Err(error) => Err(error),
                Ok(None) => Err(ExtractError::NoText),
                Ok(Some(text)) => if text.len() > BIOS_SIZE {
                    Err(ExtractError::TooLarge(text.len() as usize))
                } else {
                    Ok(padded(text))
                },
            },
        },
    }
}

/// Bytes padded with zeros to the size of an image.
pub open spec fn padded(text: Seq<u8>) -> Seq<u8> {
    Seq::new(
        BIOS_SIZE as nat,
        |i: int|
            if i < text.len() {
                text[i]
            } else {
                0u8
            },
    )
}

fn read_half(bytes: &[u8], off: usize) -> (value: Option<u64>)
    requires
        off < 0x100,
    ensures
        match value {
            Some(v) => half_at(bytes@, off as int) == Some(v as int),
            None => half_at(bytes@, off as int) is None,
        },
{
    if off + 2 <= bytes.len() {
        Some(bytes[off] as u64 + bytes[off + 1] as u64 * 0x100)
    } else {
        None
    }
}

fn read_word(bytes: &[u8], off: usize) -> (value: Option<u64>)
    requires
        off < 0x100,
    ensures
        match value {
            Some(v) => word_at(bytes@, off as int) == Some(v as int) && v <= u32::MAX,
            None => word_at(bytes@, off as int) is None,
        },
{
    if off + 4 <= bytes.len() {
        Some(
            bytes[off] as u64 + bytes[off + 1] as u64 * 0x100 + bytes[off + 2] as u64 * 0x1_0000
                + bytes[off + 3] as u64 * 0x100_0000,
        )
    } else {
        None
    }
}

/// Part of a slice, if it lies within it.
fn slice_part(bytes: &[u8], off: u64, len: u64) -> (found: Option<&[u8]>)
    requires
        off + len <= u64::MAX,
    ensures
        match found {
            Some(slice) => part(bytes@, off as int, len as int) == Some(slice@),
            None => part(bytes@, off as int, len as int) is None,
        },
{
    if off + len <= bytes.len() as u64 {
        Some(vstd::slice::slice_subrange(bytes, off as usize, (off + len) as usize))
    } else {
        None
    }
}

/// Whether the NUL-terminated string at `off` of a string table is `name`.
fn is_named(table: &[u8], off: u64, name: &[u8]) -> (same: bool)
    requires
        off <= u32::MAX,
        name@.len() < 0x100,
    ensures
        same == named(table@, off as int, name@),
{
    if off + name.len() as u64 >= table.len() as u64 {
        return false;
    }
    let start: usize = off as usize;
    let mut i: usize = 0;
    while i < name.len()
        invariant
            i <= name@.len(),
            start == off,
            start + name@.len() < table@.len(),
            table@.len() <= usize::MAX,
            forall|k: int| 0 <= k < i ==> #[trigger] name@[k] == table@[start + k],
        decreases name@.len() - i,
    {
        if table[start + i] != name[i] {
            assert(table@.subrange(off as int, off + name@.len())[i as int] != name@[i as int]);
            return false;
        }
        i = i + 1;
    }
    assert(table@.subrange(off as int, off + name@.len()) =~= name@);
    table[start + name.len()] == 0
}

/// Find the section header table of an ARM ELF object.
fn identify(elf: &[u8]) -> (result: Result<SectionTable, ExtractError>)
    ensures
        result == identified(elf@),
        result matches Ok(table) ==> table.offset <= u32::MAX && table.entry_size <= 0xFFFF
            && table.count <= 0xFFFF && table.names <= 0xFFFF,
{
    if elf.len() < 0x34 {
        return Err(ExtractError::NotElf);
    }
    if elf[0] != 0x7F || elf[1] != 0x45 || elf[2] != 0x4C || elf[3] != 0x46 {
        proof {
            let magic = elf@.subrange(0, 4);
            assert(magic[0] == elf@[0] && magic[1] == elf@[1] && magic[2] == elf@[2] && magic[3]
                == elf@[3]);
            assert(magic != seq![0x7Fu8, 0x45, 0x4C, 0x46]);
        }
        return Err(ExtractError::NotElf);
    }
    assert(elf@.subrange(0, 4) =~= seq![0x7Fu8, 0x45, 0x4C, 0x46]);
    if elf[4] != 1 {
        return Err(ExtractError::Not32Bit);
    }
    if elf[5] != 1 {
        return Err(ExtractError::NotLittleEndian);
    }
    match (
        read_half(elf, 0x12),
        read_word(elf, 0x20),
        read_half(elf, 0x2E),
        read_half(elf, 0x30),
        read_half(elf, 0x32),
    ) {
        (Some(machine), Some(offset), Some(entry_size), Some(count), Some(names)) => {
            if machine != 0x28 {
                return Err(ExtractError::NotArm);
            }
            if offset == 0 || count == 0 {
                return Err(ExtractError::NoSections);
            }
            Ok(SectionTable { offset, entry_size, count, names })
        },
        _ => Err(ExtractError::NotElf),
    }
}

/// The header of section `i`.
fn header_at<'a>(elf: &'a [u8], table: &SectionTable, i: u64) -> (header: Option<&'a [u8]>)
    requires
        table.offset <= u32::MAX,
        table.entry_size <= 0xFFFF,
        i <= 0xFFFF,
    ensures
        match header {
            Some(bytes) => table.header(elf@, i as int) == Some(bytes@),
            None => table.header(elf@, i as int) is None,
        },
{
    proof {
        assert(0 <= i * table.entry_size <= 0xFFFF * 0xFFFF) by (nonlinear_arith)
            requires
                0 <= i <= 0xFFFF,
                0 <= table.entry_size <= 0xFFFF,
        ;
    }
    slice_part(elf, table.offset + i * table.entry_size, table.entry_size)
}

/// The contents of a section, given its header.
fn contents_of<'a>(elf: &'a [u8], header: &[u8]) -> (contents: Option<&'a [u8]>)
    ensures
        match contents {
            Some(bytes) => SectionTable::contents(elf@, header@) == Some(bytes@),
            None => SectionTable::contents(elf@, header@) is None,
        },
{
    match (read_word(header, 0x10), read_word(header, 0x14)) {
        (Some(off), Some(size)) => slice_part(elf, off, size),
        _ => None,
    }
}

/// What a found slice stands for.
pub open spec fn view_of(found: Option<&[u8]>) -> Option<Seq<u8>> {
    match found {
        Some(bytes) => Some(bytes@),
        None => None,
    }
}

/// What the section with the given header makes of the text found so far.
fn examine<'a>(
    elf: &'a [u8],
    names: &[u8],
    header: Option<&[u8]>,
    text: Option<&'a [u8]>,
) -> (result: Result<Option<&'a [u8]>, ExtractError>)
    ensures
        match result {
            Ok(found) => examined(elf@, names@, view_of(header), view_of(text)) == Ok::<
                Option<Seq<u8>>,
                ExtractError,
            >(view_of(found)),
            Err(error) => examined(elf@, names@, view_of(header), view_of(text)) == Err::<
                Option<Seq<u8>>,
                ExtractError,
            >(error),
        },
{
    let header = match header {
        Some(header) => header,
        None => return Err(ExtractError::Truncated),
    };
    let name: u64 = match read_word(header, 0) {
        Some(name) => name,
        None => return Err(ExtractError::Truncated),
    };
    if name > names.len() as u64 {
        return Err(ExtractError::Truncated);
    }
    let rel: [u8; 9] = [0x2E, 0x72, 0x65, 0x6C, 0x2E, 0x74, 0x65, 0x78, 0x74];
    let rela: [u8; 10] = [0x2E, 0x72, 0x65, 0x6C, 0x61, 0x2E, 0x74, 0x65, 0x78, 0x74];
    let text_section: [u8; 5] = [0x2E, 0x74, 0x65, 0x78, 0x74];
    assert(rel@ =~= rel_name());
    assert(rela@ =~= rela_name());
    assert(text_section@ =~= text_name());
    // A relocation section for .text means unresolved absolute references
    // survived assembly - the flat extract would be wrong.
    if is_named(names, name, rel.as_slice()) || is_named(names, name, rela.as_slice()) {
        return Err(ExtractError::Relocations);
    }
    if is_named(names, name, text_section.as_slice()) {
        match contents_of(elf, header) {
            Some(contents) => Ok(Some(contents)),
            None => Err(ExtractError::Truncated),
        }
    } else {
        Ok(text)
    }
}

/// Extract the flat BIOS image of an object: its `.text`, padded to 16 KiB.
pub fn extract_text(elf: &[u8]) -> (result: Result<Vec<u8>, ExtractError>)
    ensures
        match result {
            Ok(image) => image_of(elf@) == Ok::<Seq<u8>, ExtractError>(image@),
            Err(error) => image_of(elf@) == Err::<Seq<u8>, ExtractError>(error),
        },
{
    let table = match identify(elf) {
        Ok(table) => table,
        Err(error) => return Err(error),
    };
    let names = match header_at(elf, &table, table.names) {
        Some(header) => match contents_of(elf, header) {
            Some(names) => names,
            None => return Err(ExtractError::Truncated),
        },
        None => return Err(ExtractError::Truncated),
    };
    let mut text: Option<&[u8]> = None;
    let mut i: u64 = 0;
    let ghost goal = text_from(elf@, table, names@, 0, None);
    while i < table.count
        invariant
            i <= table.count,
            table.offset <= u32::MAX,
            table.entry_size <= 0xFFFF,
            table.count <= 0xFFFF,
            identified(elf@) == Ok::<SectionTable, ExtractError>(table),
            name_table(elf@, table) == Some(names@),
            goal == text_from(elf@, table, names@, 0, None),
            goal == text_from(elf@, table, names@, i as int, view_of(text)),
        decreases table.count - i,
    {
        match examine(elf, names, header_at(elf, &table, i), text) {
            Ok(found) => text = found,
            Err(error) => return Err(error),
        }
        i = i + 1;
    }
    let text = match text {
        Some(text) => text,
        None => return Err(ExtractError::NoText),
    };
    if text.len() > BIOS_SIZE {
        return Err(ExtractError::TooLarge(text.len()));
    }
    let mut image: Vec<u8> = Vec::new();
    let mut k: usize = 0;
    while k < BIOS_SIZE
        invariant
            k <= 0x4000,
            text@.len() <= 0x4000,
            image@ == padded(text@).take(k as int),
        decreases 0x4000 - k,
    {
        let byte: u8 = if k < text.len() {
            text[k]
        } else {
            0
        };
        image.push(byte);
        assert(padded(text@).take(k + 1) =~= padded(text@).take(k as int).push(byte));
        k = k + 1;
    }
    assert(padded(text@).take(0x4000) =~= padded(text@));
    Ok(image)
}

/// An extracted image always has the size of a BIOS, starts with the object's text and
/// holds nothing else.
pub proof fn image_is_padded_text(text: Seq<u8>)
    requires
        text.len() <= BIOS_SIZE,
    ensures
        padded(text).len() == BIOS_SIZE,
        padded(text).take(text.len() as int) == text,
        forall|i: int| text.len() <= i < BIOS_SIZE ==> #[trigger] padded(text)[i] == 0,
{
    assert(padded(text).take(text.len() as int) =~= text);
}

/// The little-endian word at an offset.
pub open spec fn little_endian(bytes: Seq<u8>, at: int) -> int {
    bytes[at] + 0x100 * (bytes[at + 1] + 0x100 * (bytes[at + 2] + 0x100 * bytes[at + 3]))
}

/// Only a little-endian 32-bit ELF object for the ARM has an image.
pub proof fn image_is_of_an_arm_object(elf: Seq<u8>)
    requires
        image_of(elf) is Ok,
    ensures
        elf.len() >= 52,
        elf[0] == 0x7F && elf[1] == 0x45 && elf[2] == 0x4C && elf[3] == 0x46,
        elf[4] == 1 && elf[5] == 1,
        elf[0x12] + 0x100 * elf[0x13] == 40,
        image_of(elf)->Ok_0.len() == 0x4000,
{
    let magic = elf.subrange(0, 4);
    assert(magic[0] == elf[0] && magic[1] == elf[1] && magic[2] == elf[2] && magic[3] == elf[3]);
}

/// Whether section `i` of an object is `.text`, and holds `text`.
pub open spec fn holds_text(
    elf: Seq<u8>,
    table: SectionTable,
    names: Seq<u8>,
    i: int,
    text: Seq<u8>,
) -> bool {
    let header = table.offset + i * table.entry_size;
    let name = little_endian(elf, header);
    let start = little_endian(elf, header + 16);
    &&& 0 <= i < table.count
    &&& header + table.entry_size <= elf.len()
    &&& names[name] == 0x2E && names[name + 1] == 0x74 && names[name + 2] == 0x65 && names[name + 3]
        == 0x78 && names[name + 4] == 0x74 && names[name + 5] == 0
    &&& text.len() == little_endian(elf, header + 20)
    &&& start + text.len() <= elf.len()
    &&& forall|k: int| 0 <= k < text.len() ==> #[trigger] text[k] == elf[start + k]
}

proof fn lemma_header(elf: Seq<u8>, table: SectionTable, names: Seq<u8>, i: int, text: Seq<u8>)
    requires
        0 <= i < table.count,
        table.header(elf, i) is Some,
        word_at(table.header(elf, i)->0, 0) is Some,
        named(names, word_at(table.header(elf, i)->0, 0)->0, text_name()),
        SectionTable::contents(elf, table.header(elf, i)->0) == Some(text),
    ensures
        holds_text(elf, table, names, i, text),
{
    let at = table.offset + i * table.entry_size;
    assert(at >= 0) by (nonlinear_arith)
        requires
            at == table.offset + i * table.entry_size,
            i >= 0,
    ;
    let header = table.header(elf, i)->0;
    assert(header =~= elf.subrange(at, at + table.entry_size));
    assert forall|k: int| 0 <= k < header.len() implies header[k] == elf[at + k] by {
    }
    let name = word_at(header, 0)->0;
    let found = names.subrange(name, name + 5);
    assert(text_name().len() == 5);
    assert(found == text_name());
    assert(found[0] == names[name] && found[1] == names[name + 1] && found[2] == names[name + 2]
        && found[3] == names[name + 3] && found[4] == names[name + 4]);
}

proof fn lemma_text_found(
    elf: Seq<u8>,
    table: SectionTable,
    names: Seq<u8>,
    i: int,
    text: Option<Seq<u8>>,
)
    requires
        0 <= i,
        text_from(elf, table, names, i, text) matches Ok(Some(_)),
    ensures
        text_from(elf, table, names, i, text)->Ok_0 == text || exists|j: int|
            holds_text(elf, table, names, j, (text_from(elf, table, names, i, text)->Ok_0)->0),
    decreases table.count - i,
{
    if i < table.count {
        let header = table.header(elf, i);
        let found = examined(elf, names, header, text)->Ok_0;
        lemma_text_found(elf, table, names, i + 1, found);
        if found != text {
            lemma_header(elf, table, names, i, found->0);
        }
    }
}

/// The image is the contents of a `.text` section, byte for byte from the start, and
/// zeros behind it.
pub proof fn image_holds_the_text_section(elf: Seq<u8>)
    requires
        image_of(elf) is Ok,
    ensures
        exists|i: int, text: Seq<u8>|
            #[trigger] holds_text(
                elf,
                identified(elf)->Ok_0,
                name_table(elf, identified(elf)->Ok_0)->0,
                i,
                text,
            ) && text.len() <= 0x4000 && image_of(elf)->Ok_0 == text + Seq::new(
                (0x4000 - text.len()) as nat,
                |k: int| 0u8,
            ),
{
    let table = identified(elf)->Ok_0;
    let names = name_table(elf, table)->0;
    lemma_text_found(elf, table, names, 0, None);
    let text = (text_from(elf, table, names, 0, None)->Ok_0)->0;
    let i = choose|i: int| holds_text(elf, table, names, i, text);
    assert(holds_text(elf, table, names, i, text));
    assert(padded(text) =~= text + Seq::new((0x4000 - text.len()) as nat, |k: int| 0u8));
}

/// An object whose sections name a relocation of `.text` has no image.
pub proof fn relocated_text_is_refused(
    elf: Seq<u8>,
    names: Seq<u8>,
    header: Seq<u8>,
    text: Option<Seq<u8>>,
)
    requires
        header.len() >= 4,
        ({
            let name = little_endian(header, 0);
            &&& name + 9 < names.len()
            &&& names[name] == 0x2E && names[name + 1] == 0x72 && names[name + 2] == 0x65
                && names[name + 3] == 0x6C && names[name + 4] == 0x2E && names[name + 5] == 0x74
                && names[name + 6] == 0x65 && names[name + 7] == 0x78 && names[name + 8] == 0x74
                && names[name + 9] == 0
        }),
    ensures
        examined(elf, names, Some(header), text) == Err::<Option<Seq<u8>>, ExtractError>(
            ExtractError::Relocations,
        ),
{
    let name = little_endian(header, 0);
    assert(names.subrange(name, name + 9) =~= rel_name());
}

} // verus!
