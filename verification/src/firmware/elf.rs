//! Access to the sections of an ELF file.

use vstd::prelude::*;
use vstd::slice::slice_subrange;
use vstd::string::*;
use vstd::utf8::encode_utf8;

use crate::bytes::{le_value, lemma_pow256_values, read_le};

verus! {

/// Where the fields of the file header and of the section headers are, for one class of ELF files.
#[derive(Clone, Copy, Debug, PartialEq, Eq, Structural)]
pub struct ElfLayout {
    /// Size of the file header.
    pub header_size: usize,
    /// Size of an address or offset, and the alignment of the section headers.
    pub word_size: usize,
    /// Offset in the file header of the offset of the section headers.
    pub shoff: usize,
    /// Offset in the file header of the number of section headers.
    pub shnum: usize,
    /// Offset in the file header of the index of the section that holds the names.
    pub shstrndx: usize,
    /// Size of a section header.
    pub section_header_size: usize,
    /// Offset in a section header of the offset of the section.
    pub sh_offset: usize,
    /// Offset in a section header of the size of the section.
    pub sh_size: usize,
}

/// The layout of 32-bit ELF files.
pub open spec fn elf32() -> ElfLayout {
    ElfLayout {
        header_size: 52,
        word_size: 4,
        shoff: 32,
        shnum: 48,
        shstrndx: 50,
        section_header_size: 40,
        sh_offset: 16,
        sh_size: 20,
    }
}

/// The layout of 64-bit ELF files.
pub open spec fn elf64() -> ElfLayout {
    ElfLayout {
        header_size: 64,
        word_size: 8,
        shoff: 40,
        shnum: 60,
        shstrndx: 62,
        section_header_size: 64,
        sh_offset: 24,
        sh_size: 32,
    }
}

/// The layout of an ELF file, if it starts with the magic number and has a known class.
pub open spec fn layout_of(elf: Seq<u8>) -> Option<ElfLayout> {
    if elf.len() >= 5 && elf[0] == 0x7f && elf[1] == 0x45 && elf[2] == 0x4c && elf[3] == 0x46 {
        if elf[4] == 1 {
            Some(elf32())
        } else if elf[4] == 2 {
            Some(elf64())
        } else {
            None
        }
    } else {
        None
    }
}

/// The number of `width` bytes at `at`.
pub open spec fn number_at(elf: Seq<u8>, at: int, width: int) -> int {
    le_value(elf.subrange(at, at + width)) as int
}

impl ElfLayout {
    /// Offset of the section headers.
    pub open spec fn table(self, elf: Seq<u8>) -> int {
        number_at(elf, self.shoff as int, self.word_size as int)
    }

    /// Number of the section headers.
    pub open spec fn count(self, elf: Seq<u8>) -> int {
        number_at(elf, self.shnum as int, 2)
    }

    /// Index of the section that holds the names.
    pub open spec fn names(self, elf: Seq<u8>) -> int {
        number_at(elf, self.shstrndx as int, 2)
    }

    /// Whether the headers are inside the file, the section headers are aligned, and one of them is
    /// that of the names.
    pub open spec fn valid(self, elf: Seq<u8>) -> bool {
        &&& self.header_size <= elf.len()
        &&& self.table(elf) + self.count(elf) * self.section_header_size <= elf.len()
        &&& self.table(elf) % (self.word_size as int) == 0
        &&& self.names(elf) < self.count(elf)
    }

    /// Offset of a section header.
    pub open spec fn section_header(self, elf: Seq<u8>, i: int) -> int {
        self.table(elf) + i * self.section_header_size
    }

    /// Offset of a section.
    pub open spec fn section_start(self, elf: Seq<u8>, i: int) -> int {
        number_at(elf, self.section_header(elf, i) + self.sh_offset, self.word_size as int)
    }

    /// Size of a section.
    pub open spec fn section_size(self, elf: Seq<u8>, i: int) -> int {
        number_at(elf, self.section_header(elf, i) + self.sh_size, self.word_size as int)
    }

    /// Offset of the name of a section.
    pub open spec fn section_name(self, elf: Seq<u8>, i: int) -> int {
        self.section_start(elf, self.names(elf)) + number_at(elf, self.section_header(elf, i), 4)
    }

    /// Whether a section has the given name and is inside the file.
    pub open spec fn is_section(self, elf: Seq<u8>, i: int, name: Seq<u8>) -> bool {
        &&& is_name_at(elf, self.section_name(elf, i), name)
        &&& self.section_start(elf, i) + self.section_size(elf, i) <= elf.len()
    }

    /// The first section from the `i`-th on that has the given name and is inside the file.
    pub open spec fn first_section(self, elf: Seq<u8>, i: int, name: Seq<u8>) -> Option<int>
        decreases self.count(elf) - i,
    {
        if i >= self.count(elf) {
            None
        } else if self.is_section(elf, i, name) {
            Some(i)
        } else {
            self.first_section(elf, i + 1, name)
        }
    }

    /// The layout is one of the two that there are.
    pub open spec fn wf(self) -> bool {
        self == elf32() || self == elf64()
    }
}

/// Whether the string at `at`, up to and without the first zero, is `name`.
pub open spec fn is_name_at(elf: Seq<u8>, at: int, name: Seq<u8>) -> bool {
    &&& at + name.len() < elf.len()
    &&& elf.subrange(at, at + name.len()) == name
    &&& !name.contains(0)
    &&& elf[at + name.len()] == 0
}

/// The contents of the named section of an ELF file.
pub open spec fn section_of(elf: Seq<u8>, name: Seq<u8>) -> Option<Seq<u8>> {
    match layout_of(elf) {
        Some(layout) => if layout.valid(elf) {
            match layout.first_section(elf, 0, name) {
                Some(i) => Some(
                    elf.subrange(
                        layout.section_start(elf, i),
                        layout.section_start(elf, i) + layout.section_size(elf, i),
                    ),
                ),
                None => None,
            }
        } else {
            None
        },
        None => None,
    }
}

/// Returns whether the string at `at`, up to the first zero, is `name`.
fn name_at(elf: &[u8], at: u64, name: &[u8]) -> (result: bool)
    ensures
        result == is_name_at(elf@, at as int, name@),
{
    let total: usize = elf.len();
    let len: usize = name.len();
    if at >= total as u64 || (total as u64 - at) <= len as u64 {
        return false;
    }
    let start: usize = at as usize;
    let mut i: usize = 0;
    while i < len
        invariant
            i <= len,
            len == name@.len(),
            total == elf@.len(),
            start == at,
            start + len < total,
            forall|k: int| 0 <= k < i ==> elf@[start + k] == #[trigger] name@[k] && name@[k] != 0,
        decreases len - i,
    {
        if name[i] == 0 || elf[start + i] != name[i] {
            proof {
                assert(name@[i as int] == name[i as int]);
                assert(elf@.subrange(start as int, start + len)[i as int] == elf@[start + i]);
            }
            return false;
        }
        i = i + 1;
    }
    assert(elf@.subrange(start as int, start + len) =~= name@);
    elf[start + len] == 0
}

/// Returns the layout of an ELF file.
fn layout(elf: &[u8]) -> (layout: Option<ElfLayout>)
    ensures
        layout == layout_of(elf@),
{
    if elf.len() < 5 || elf[0] != 0x7f || elf[1] != 0x45 || elf[2] != 0x4c || elf[3] != 0x46 {
        return None;
    }
    match elf[4] {
        1 => Some(
            ElfLayout {
                header_size: 52,
                word_size: 4,
                shoff: 32,
                shnum: 48,
                shstrndx: 50,
                section_header_size: 40,
                sh_offset: 16,
                sh_size: 20,
            },
        ),
        2 => Some(
            ElfLayout {
                header_size: 64,
                word_size: 8,
                shoff: 40,
                shnum: 60,
                shstrndx: 62,
                section_header_size: 64,
                sh_offset: 24,
                sh_size: 32,
            },
        ),
        _ => None,
    }
}

/// Section headers lie inside the file.
proof fn lemma_section_header(layout: ElfLayout, elf: Seq<u8>, i: int)
    requires
        layout.wf(),
        layout.valid(elf),
        0 <= i < layout.count(elf),
    ensures
        0 <= layout.table(elf),
        0 <= i * layout.section_header_size,
        layout.section_header(elf, i) + layout.section_header_size <= elf.len(),
{
    let size = layout.section_header_size as int;
    assert((i + 1) * size <= layout.count(elf) * size) by (nonlinear_arith)
        requires
            i + 1 <= layout.count(elf),
            size >= 0,
    ;
    assert((i + 1) * size == i * size + size) by (nonlinear_arith);
    assert(0 <= i * size) by (nonlinear_arith)
        requires
            0 <= i,
            0 <= size,
    ;
}

/// Returns whether the headers of the file can be used.
fn check_headers(elf: &[u8], layout: ElfLayout) -> (result: bool)
    requires
        layout.wf(),
    ensures
        result == layout.valid(elf@),
{
    if elf.len() < layout.header_size {
        return false;
    }
    proof {
        lemma_pow256_values();
    }
    let table: u64 = read_le(elf, layout.shoff, layout.word_size);
    let count: u64 = read_le(elf, layout.shnum, 2);
    let names: u64 = read_le(elf, layout.shstrndx, 2);
    assert(count * layout.section_header_size <= 0x40_0000) by (nonlinear_arith)
        requires
            count <= 0xffff,
            layout.section_header_size <= 64,
    ;
    let size: u64 = count * layout.section_header_size as u64;
    let end: u64 = match table.checked_add(size) {
        Some(end) => end,
        None => {
            return false;
        },
    };
    end <= elf.len() as u64 && table % layout.word_size as u64 == 0 && names < count
}

/// Returns where the first section that has the given name and is inside the file starts and ends.
fn find_section(elf: &[u8], layout: ElfLayout, name: &[u8]) -> (range: Option<(usize, usize)>)
    requires
        layout.wf(),
        layout.valid(elf@),
    ensures
        match range {
            Some((start, end)) => {
                let i = layout.first_section(elf@, 0, name@);
                &&& i is Some
                &&& start == layout.section_start(elf@, i.unwrap())
                &&& end == start + layout.section_size(elf@, i.unwrap())
                &&& end <= elf@.len()
            },
            None => layout.first_section(elf@, 0, name@) is None,
        },
{
    proof {
        lemma_pow256_values();
    }
    let total: usize = elf.len();
    let table: u64 = read_le(elf, layout.shoff, layout.word_size);
    let count: usize = read_le(elf, layout.shnum, 2) as usize;
    let names_index: usize = read_le(elf, layout.shstrndx, 2) as usize;
    proof {
        lemma_section_header(layout, elf@, names_index as int);
    }
    let names_header: usize = table as usize + names_index * layout.section_header_size;
    let names: u64 = read_le(elf, names_header + layout.sh_offset, layout.word_size);
    let mut i: usize = 0;
    while i < count
        invariant
            i <= count,
            total == elf@.len(),
            layout.wf(),
            layout.valid(elf@),
            table == layout.table(elf@),
            count == layout.count(elf@),
            names == layout.section_start(elf@, layout.names(elf@)),
            layout.first_section(elf@, 0, name@) == layout.first_section(elf@, i as int, name@),
        decreases count - i,
    {
        proof {
            lemma_section_header(layout, elf@, i as int);
            lemma_pow256_values();
        }
        let header: usize = table as usize + i * layout.section_header_size;
        let name_offset: u64 = read_le(elf, header, 4);
        let start: u64 = read_le(elf, header + layout.sh_offset, layout.word_size);
        let size: u64 = read_le(elf, header + layout.sh_size, layout.word_size);
        let named: bool = match names.checked_add(name_offset) {
            Some(at) => name_at(elf, at, name),
            None => false,
        };
        if named {
            if let Some(end) = start.checked_add(size) {
                if end <= total as u64 {
                    return Some((start as usize, end as usize));
                }
            }
        }
        assert(!layout.is_section(elf@, i as int, name@));
        i = i + 1;
    }
    None
}

/// Finds and extracts a named section from an ELF file.
///
/// Returns the section data if found, `None` if not found or invalid. Section headers are only read
/// where they are aligned, as the file itself is.
pub fn elf_section<'a>(elf: &'a [u8], section_name: &str) -> (section: Option<&'a [u8]>)
    ensures
        match section {
            Some(section) => section_of(elf@, encode_utf8(section_name@)) == Some(section@),
            None => section_of(elf@, encode_utf8(section_name@)) is None,
        },
{
    let layout = match layout(elf) {
        Some(layout) => layout,
        None => {
            return None;
        },
    };
    if !check_headers(elf, layout) {
        return None;
    }
    match find_section(elf, layout, section_name.as_bytes()) {
        Some((start, end)) => Some(slice_subrange(elf, start, end)),
        None => None,
    }
}

/// A section that is found is the first of that name that lies inside the file: it has that name,
/// and none before it is such a section.
pub proof fn law_found_section_is_first(layout: ElfLayout, elf: Seq<u8>, from: int, name: Seq<u8>)
    requires
        0 <= from,
    ensures
        match layout.first_section(elf, from, name) {
            Some(found) => {
                &&& from <= found < layout.count(elf)
                &&& layout.is_section(elf, found, name)
                &&& forall|i: int| from <= i < found ==> !layout.is_section(elf, i, name)
            },
            None => forall|i: int|
                from <= i < layout.count(elf) ==> !layout.is_section(elf, i, name),
        },
    decreases layout.count(elf) - from,
{
    if from < layout.count(elf) && !layout.is_section(elf, from, name) {
        law_found_section_is_first(layout, elf, from + 1, name);
    }
}

/// The place of an entry in a table of entries of a known size.
proof fn lemma_table_place(size: usize, known: int, i: int)
    requires
        size == known,
    ensures
        i * size == known * i,
{
    assert(i * known == known * i) by (nonlinear_arith);
}

/// The parts of a section header, in a 64-bit file. The table of section headers is at the number at
/// 40 and has the number at 60 of entries, each of 64 bytes. An entry has the offset of its name at 0,
/// and the offset and the size of its section, eight bytes each, at 24 and 32. The names are in the
/// section whose index is at 62.
pub proof fn law_sections_of_64_bit_file(elf: Seq<u8>, i: int, name: Seq<u8>)
    requires
        elf.len() >= 5,
        elf[0] == 0x7f && elf[1] == 0x45 && elf[2] == 0x4c && elf[3] == 0x46,
        elf[4] == 2,
        0 <= i,
    ensures
        layout_of(elf) matches Some(layout) && {
            let table = le_value(elf.subrange(40, 48)) as int;
            let count = le_value(elf.subrange(60, 62)) as int;
            let names = le_value(elf.subrange(62, 64)) as int;
            let header = table + 64 * i;
            let names_at = le_value(
                elf.subrange(table + 64 * names + 24, table + 64 * names + 32),
            ) as int;
            let name_at = names_at + le_value(elf.subrange(header, header + 4));
            let start = le_value(elf.subrange(header + 24, header + 32)) as int;
            let size = le_value(elf.subrange(header + 32, header + 40)) as int;
            &&& layout.count(elf) == count
            &&& layout.valid(elf) <==> elf.len() >= 64 && table + 64 * count <= elf.len() && table
                % 8 == 0 && names < count
            &&& layout.section_start(elf, i) == start
            &&& layout.section_size(elf, i) == size
            &&& layout.is_section(elf, i, name) <==> start + size <= elf.len() && name_at
                + name.len() < elf.len() && elf.subrange(name_at, name_at + name.len()) == name
                && elf[name_at + name.len()] == 0 && !name.contains(0)
        },
{
    let layout = elf64();
    let table = le_value(elf.subrange(40, 48)) as int;
    let names = le_value(elf.subrange(62, 64)) as int;
    let header = table + 64 * i;
    assert(layout_of(elf) == Some(layout));
    assert(layout.table(elf) == table);
    assert(layout.names(elf) == names);
    lemma_table_place(layout.section_header_size, 64, i);
    lemma_table_place(layout.section_header_size, 64, names);
    assert(layout.section_header(elf, i) == header);
    assert(layout.section_header(elf, names) == table + 64 * names);
    assert(layout.section_start(elf, i) == le_value(elf.subrange(header + 24, header + 32)));
    assert(layout.section_size(elf, i) == le_value(elf.subrange(header + 32, header + 40)));
    assert(layout.section_start(elf, names) == le_value(
        elf.subrange(table + 64 * names + 24, table + 64 * names + 32),
    ));
}

/// The parts of a section header, in a 32-bit file. The table of section headers is at the number at
/// 32 and has the number at 48 of entries, each of 40 bytes. An entry has the offset of its name at 0,
/// and the offset and the size of its section, four bytes each, at 16 and 20. The names are in the
/// section whose index is at 50.
pub proof fn law_sections_of_32_bit_file(elf: Seq<u8>, i: int, name: Seq<u8>)
    requires
        elf.len() >= 5,
        elf[0] == 0x7f && elf[1] == 0x45 && elf[2] == 0x4c && elf[3] == 0x46,
        elf[4] == 1,
        0 <= i,
    ensures
        layout_of(elf) matches Some(layout) && {
            let table = le_value(elf.subrange(32, 36)) as int;
            let count = le_value(elf.subrange(48, 50)) as int;
            let names = le_value(elf.subrange(50, 52)) as int;
            let header = table + 40 * i;
            let names_at = le_value(
                elf.subrange(table + 40 * names + 16, table + 40 * names + 20),
            ) as int;
            let name_at = names_at + le_value(elf.subrange(header, header + 4));
            let start = le_value(elf.subrange(header + 16, header + 20)) as int;
            let size = le_value(elf.subrange(header + 20, header + 24)) as int;
            &&& layout.count(elf) == count
            &&& layout.valid(elf) <==> elf.len() >= 52 && table + 40 * count <= elf.len() && table
                % 4 == 0 && names < count
            &&& layout.section_start(elf, i) == start
            &&& layout.section_size(elf, i) == size
            &&& layout.is_section(elf, i, name) <==> start + size <= elf.len() && name_at
                + name.len() < elf.len() && elf.subrange(name_at, name_at + name.len()) == name
                && elf[name_at + name.len()] == 0 && !name.contains(0)
        },
{
    let layout = elf32();
    let table = le_value(elf.subrange(32, 36)) as int;
    let names = le_value(elf.subrange(50, 52)) as int;
    let header = table + 40 * i;
    assert(layout_of(elf) == Some(layout));
    assert(layout.table(elf) == table);
    assert(layout.names(elf) == names);
    lemma_table_place(layout.section_header_size, 40, i);
    lemma_table_place(layout.section_header_size, 40, names);
    assert(layout.section_header(elf, i) == header);
    assert(layout.section_header(elf, names) == table + 40 * names);
    assert(layout.section_start(elf, i) == le_value(elf.subrange(header + 16, header + 20)));
    assert(layout.section_size(elf, i) == le_value(elf.subrange(header + 20, header + 24)));
    assert(layout.section_start(elf, names) == le_value(
        elf.subrange(table + 40 * names + 16, table + 40 * names + 20),
    ));
}

/// A file without the magic number, or of another class, has no sections that can be found.
pub proof fn law_no_sections_without_magic(elf: Seq<u8>, name: Seq<u8>)
    requires
        elf.len() < 5 || elf[0] != 0x7f || elf[1] != 0x45 || elf[2] != 0x4c || elf[3] != 0x46 || (
        elf[4] != 1 && elf[4] != 2),
    ensures
        section_of(elf, name) is None,
{
}

/// What is found of a named section in a 64-bit file: `i` is the first header with that name whose
/// section is inside the file. What is found is the bytes from the number at 24 in it on, as many as
/// the number at 32 in it says, eight bytes each.
pub proof fn law_section_of_64_bit_file(elf: Seq<u8>, i: int, name: Seq<u8>)
    requires
        elf.len() >= 64,
        elf[0] == 0x7f && elf[1] == 0x45 && elf[2] == 0x4c && elf[3] == 0x46,
        elf[4] == 2,
        layout_of(elf).unwrap().valid(elf),
        0 <= i < layout_of(elf).unwrap().count(elf),
        layout_of(elf).unwrap().is_section(elf, i, name),
        forall|j: int| 0 <= j < i ==> !layout_of(elf).unwrap().is_section(elf, j, name),
    ensures
        ({
            let header = le_value(elf.subrange(40, 48)) + 64 * i;
            let start = le_value(elf.subrange(header + 24, header + 32)) as int;
            let size = le_value(elf.subrange(header + 32, header + 40)) as int;
            section_of(elf, name) == Some(elf.subrange(start, start + size))
        }),
{
    law_sections_of_64_bit_file(elf, i, name);
    law_found_section_is_first(layout_of(elf).unwrap(), elf, 0, name);
}

/// What is found of a named section in a 32-bit file: `i` is the first header with that name whose
/// section is inside the file. What is found is the bytes from the number at 16 in it on, as many as
/// the number at 20 in it says, four bytes each.
pub proof fn law_section_of_32_bit_file(elf: Seq<u8>, i: int, name: Seq<u8>)
    requires
        elf.len() >= 52,
        elf[0] == 0x7f && elf[1] == 0x45 && elf[2] == 0x4c && elf[3] == 0x46,
        elf[4] == 1,
        layout_of(elf).unwrap().valid(elf),
        0 <= i < layout_of(elf).unwrap().count(elf),
        layout_of(elf).unwrap().is_section(elf, i, name),
        forall|j: int| 0 <= j < i ==> !layout_of(elf).unwrap().is_section(elf, j, name),
    ensures
        ({
            let header = le_value(elf.subrange(32, 36)) + 40 * i;
            let start = le_value(elf.subrange(header + 16, header + 20)) as int;
            let size = le_value(elf.subrange(header + 20, header + 24)) as int;
            section_of(elf, name) == Some(elf.subrange(start, start + size))
        }),
{
    law_sections_of_32_bit_file(elf, i, name);
    law_found_section_is_first(layout_of(elf).unwrap(), elf, 0, name);
}

/// A name is found only where a section has it: without such a section nothing is.
pub proof fn law_missing_section(elf: Seq<u8>, name: Seq<u8>)
    requires
        layout_of(elf) matches Some(layout) && (!layout.valid(elf) || forall|j: int|
            0 <= j < layout.count(elf) ==> !layout.is_section(elf, j, name)),
    ensures
        section_of(elf, name) is None,
{
    law_found_section_is_first(layout_of(elf).unwrap(), elf, 0, name);
}

} // verus!
