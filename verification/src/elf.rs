//! The binary-format reader: header validation, section enumeration and
//! symbol-table resolution over an in-memory image.
//!
//! Every structure is deserialized field by field at explicit offsets, in the
//! host's native little-endian order, and every read is bounds-checked against
//! the buffer; a read that would run past the end surfaces an error instead.

pub mod elfdefs;

use vstd::prelude::*;

use crate::bytes::{cstr_at, read_cstr, read_u16, read_u32, read_u64, u16_le, u32_le, u64_le};
use crate::elf::elfdefs::{Elf32_Ehdr, Elf32_Shdr, Elf64_Ehdr, Elf64_Shdr, ElfW, ElfW_Ehdr, ELFCLASS32, ELFCLASS64};

verus! {

/// Everything that can go wrong while reading an image.
#[derive(PartialEq, Eq, Structural, Clone, Copy, Debug)]
pub enum ElfError {
    /// Fewer bytes than the fixed header layout requires.
    TruncatedHeader,
    /// The magic signature does not match.
    NotRecognizedFormat,
    /// The width-class byte is neither of the two supported values.
    UnsupportedWidthClass,
    /// A section descriptor lies (partly) outside the image.
    SectionTableUnreadable,
    /// No section is named `.symtab`.
    SymbolTableNotFound,
    /// No section is named `.strtab`.
    StringTableNotFound,
    /// The symbol table's size is no exact multiple of its entry size.
    MalformedSymbolTable,
    /// A symbol record lies (partly) outside the image.
    SymbolTableUnreadable,
    /// The requested symbol is absent from the symbol table.
    SymbolNotFound,
    /// A corrected address does not fit the machine word.
    AddressOutOfRange,
}

/// The image starts with the fixed 4-byte magic signature.
pub open spec fn has_magic(d: Seq<u8>) -> bool {
    d.len() >= 4 && d[0] == 0x7f && d[1] == 0x45 && d[2] == 0x4c && d[3] == 0x46
}

/// Byte length of the fixed header layout of a width class.
pub open spec fn ehdr_size(class: u8) -> int {
    if class == ELFCLASS32 {
        52
    } else {
        64
    }
}

/// Why reading the header fails, or `None` when it succeeds.
pub open spec fn header_error(d: Seq<u8>) -> Option<ElfError> {
    if d.len() < 4 {
        Some(ElfError::TruncatedHeader)
    } else if !has_magic(d) {
        Some(ElfError::NotRecognizedFormat)
    } else if d.len() < 5 {
        Some(ElfError::TruncatedHeader)
    } else if d[4] != ELFCLASS32 && d[4] != ELFCLASS64 {
        Some(ElfError::UnsupportedWidthClass)
    } else if d.len() < ehdr_size(d[4]) {
        Some(ElfError::TruncatedHeader)
    } else {
        None
    }
}

/// The header reads successfully.
pub open spec fn header_ok(d: Seq<u8>) -> bool {
    header_error(d) is None
}

/// The width-class byte of a readable image.
pub open spec fn class_of(d: Seq<u8>) -> u8 {
    d[4]
}

/// The image type (fixed-address executable vs. position-independent).
pub open spec fn etype_of(d: Seq<u8>) -> u16 {
    u16_le(d, 16)
}

/// Section-header table file offset.
pub open spec fn shoff_of(d: Seq<u8>) -> u64 {
    if class_of(d) == ELFCLASS32 {
        u32_le(d, 32) as u64
    } else {
        u64_le(d, 40)
    }
}

/// Section-descriptor entry size recorded in the header.
pub open spec fn shentsize_of(d: Seq<u8>) -> u16 {
    if class_of(d) == ELFCLASS32 {
        u16_le(d, 46)
    } else {
        u16_le(d, 58)
    }
}

/// Number of section descriptors.
pub open spec fn shnum_of(d: Seq<u8>) -> u16 {
    if class_of(d) == ELFCLASS32 {
        u16_le(d, 48)
    } else {
        u16_le(d, 60)
    }
}

/// Index of the section-name string-table descriptor.
pub open spec fn shstrndx_of(d: Seq<u8>) -> u16 {
    if class_of(d) == ELFCLASS32 {
        u16_le(d, 50)
    } else {
        u16_le(d, 62)
    }
}

/// `h` holds exactly the fields encoded in the 32-bit layout of `d`.
pub open spec fn ehdr32_parsed(d: Seq<u8>, h: Elf32_Ehdr) -> bool {
    &&& h.e_ident@ == d.subrange(0, 16)
    &&& h.e_type == u16_le(d, 16)
    &&& h.e_machine == u16_le(d, 18)
    &&& h.e_version == u32_le(d, 20)
    &&& h.e_entry == u32_le(d, 24)
    &&& h.e_phoff == u32_le(d, 28)
    &&& h.e_shoff == u32_le(d, 32)
    &&& h.e_flags == u32_le(d, 36)
    &&& h.e_ehsize == u16_le(d, 40)
    &&& h.e_phentsize == u16_le(d, 42)
    &&& h.e_phnum == u16_le(d, 44)
    &&& h.e_shentsize == u16_le(d, 46)
    &&& h.e_shnum == u16_le(d, 48)
    &&& h.e_shstrndx == u16_le(d, 50)
}

/// `h` holds exactly the fields encoded in the 64-bit layout of `d`.
pub open spec fn ehdr64_parsed(d: Seq<u8>, h: Elf64_Ehdr) -> bool {
    &&& h.e_ident@ == d.subrange(0, 16)
    &&& h.e_type == u16_le(d, 16)
    &&& h.e_machine == u16_le(d, 18)
    &&& h.e_version == u32_le(d, 20)
    &&& h.e_entry == u64_le(d, 24)
    &&& h.e_phoff == u64_le(d, 32)
    &&& h.e_shoff == u64_le(d, 40)
    &&& h.e_flags == u32_le(d, 48)
    &&& h.e_ehsize == u16_le(d, 52)
    &&& h.e_phentsize == u16_le(d, 54)
    &&& h.e_phnum == u16_le(d, 56)
    &&& h.e_shentsize == u16_le(d, 58)
    &&& h.e_shnum == u16_le(d, 60)
    &&& h.e_shstrndx == u16_le(d, 62)
}

/// The width-tagged header `h` is the one encoded in `d`: the tag matches the
/// width-class byte and every field matches its layout slot.
pub open spec fn parsed_from(h: ElfW<Elf32_Ehdr, Elf64_Ehdr>, d: Seq<u8>) -> bool {
    header_ok(d) && match h {
        ElfW::Elf32(hh) => class_of(d) == ELFCLASS32 && ehdr32_parsed(d, hh),
        ElfW::Elf64(hh) => class_of(d) == ELFCLASS64 && ehdr64_parsed(d, hh),
    }
}

/// Reads and validates the image header: checks the magic signature, then the
/// width-class byte, then re-reads the whole fixed layout of that width.
pub fn read_ehdr(d: &Vec<u8>) -> (r: Result<ElfW<Elf32_Ehdr, Elf64_Ehdr>, ElfError>)
    ensures
        r is Err <==> header_error(d@) is Some,
        r matches Err(e) ==> header_error(d@) == Some(e),
        r matches Ok(w) ==> parsed_from(w, d@),
{
    let n: usize = d.len();
    if n < 4 {
        return Err(ElfError::TruncatedHeader);
    }
    if !(d[0] == 0x7f && d[1] == 0x45 && d[2] == 0x4c && d[3] == 0x46) {
        return Err(ElfError::NotRecognizedFormat);
    }
    if n < 5 {
        return Err(ElfError::TruncatedHeader);
    }
    let class = d[4];
    if class != ELFCLASS32 && class != ELFCLASS64 {
        return Err(ElfError::UnsupportedWidthClass);
    }
    if class == ELFCLASS32 {
        if n < 52 {
            return Err(ElfError::TruncatedHeader);
        }
        let e_ident: [u8; 16] = [
            d[0], d[1], d[2], d[3], d[4], d[5], d[6], d[7], d[8], d[9], d[10], d[11], d[12],
            d[13], d[14], d[15],
        ];
        let h = Elf32_Ehdr {
            e_ident,
            e_type: read_u16(d, 16),
            e_machine: read_u16(d, 18),
            e_version: read_u32(d, 20),
            e_entry: read_u32(d, 24),
            e_phoff: read_u32(d, 28),
            e_shoff: read_u32(d, 32),
            e_flags: read_u32(d, 36),
            e_ehsize: read_u16(d, 40),
            e_phentsize: read_u16(d, 42),
            e_phnum: read_u16(d, 44),
            e_shentsize: read_u16(d, 46),
            e_shnum: read_u16(d, 48),
            e_shstrndx: read_u16(d, 50),
        };
        proof {
            assert(h.e_ident@ =~= d@.subrange(0, 16));
        }
        Ok(ElfW::Elf32(h))
    } else {
        if n < 64 {
            return Err(ElfError::TruncatedHeader);
        }
        let e_ident: [u8; 16] = [
            d[0], d[1], d[2], d[3], d[4], d[5], d[6], d[7], d[8], d[9], d[10], d[11], d[12],
            d[13], d[14], d[15],
        ];
        let h = Elf64_Ehdr {
            e_ident,
            e_type: read_u16(d, 16),
            e_machine: read_u16(d, 18),
            e_version: read_u32(d, 20),
            e_entry: read_u64(d, 24),
            e_phoff: read_u64(d, 32),
            e_shoff: read_u64(d, 40),
            e_flags: read_u32(d, 48),
            e_ehsize: read_u16(d, 52),
            e_phentsize: read_u16(d, 54),
            e_phnum: read_u16(d, 56),
            e_shentsize: read_u16(d, 58),
            e_shnum: read_u16(d, 60),
            e_shstrndx: read_u16(d, 62),
        };
        proof {
            assert(h.e_ident@ =~= d@.subrange(0, 16));
        }
        Ok(ElfW::Elf64(h))
    }
}

impl ElfW<Elf32_Ehdr, Elf64_Ehdr> {
    /// The width the tag itself carries.
    pub open spec fn width_spec(&self) -> u8 {
        match self {
            ElfW::Elf32(_) => ELFCLASS32,
            ElfW::Elf64(_) => ELFCLASS64,
        }
    }

    /// Width dispatch without re-inspecting raw identification bytes.
    pub fn width(&self) -> (r: u8)
        ensures
            r == self.width_spec(),
    {
        match self {
            ElfW::Elf32(_) => ELFCLASS32,
            ElfW::Elf64(_) => ELFCLASS64,
        }
    }

    /// Section-header table offset recorded in the header.
    pub open spec fn shoff_spec(&self) -> u64 {
        match self {
            ElfW::Elf32(h) => h.e_shoff as u64,
            ElfW::Elf64(h) => h.e_shoff,
        }
    }

    /// Section-descriptor entry size recorded in the header.
    pub open spec fn shentsize_spec(&self) -> u16 {
        match self {
            ElfW::Elf32(h) => h.e_shentsize,
            ElfW::Elf64(h) => h.e_shentsize,
        }
    }

    /// Number of section descriptors recorded in the header.
    pub open spec fn shnum_spec(&self) -> u16 {
        match self {
            ElfW::Elf32(h) => h.e_shnum,
            ElfW::Elf64(h) => h.e_shnum,
        }
    }

    /// Index of the section-name string-table descriptor.
    pub open spec fn shstrndx_spec(&self) -> u16 {
        match self {
            ElfW::Elf32(h) => h.e_shstrndx,
            ElfW::Elf64(h) => h.e_shstrndx,
        }
    }

    pub fn shoff(&self) -> (r: u64)
        ensures
            r == self.shoff_spec(),
    {
        match self {
            ElfW::Elf32(h) => h.e_shoff as u64,
            ElfW::Elf64(h) => h.e_shoff,
        }
    }

    pub fn shentsize(&self) -> (r: u16)
        ensures
            r == self.shentsize_spec(),
    {
        match self {
            ElfW::Elf32(h) => h.e_shentsize,
            ElfW::Elf64(h) => h.e_shentsize,
        }
    }

    pub fn shnum(&self) -> (r: u16)
        ensures
            r == self.shnum_spec(),
    {
        match self {
            ElfW::Elf32(h) => h.e_shnum,
            ElfW::Elf64(h) => h.e_shnum,
        }
    }

    pub fn shstrndx(&self) -> (r: u16)
        ensures
            r == self.shstrndx_spec(),
    {
        match self {
            ElfW::Elf32(h) => h.e_shstrndx,
            ElfW::Elf64(h) => h.e_shstrndx,
        }
    }
}

/// Byte length of a section descriptor of a width class.
pub open spec fn shdr_size(class: u8) -> int {
    if class == ELFCLASS32 {
        40
    } else {
        64
    }
}

/// File offset of the section descriptor at index `i`.
pub open spec fn shdr_base(d: Seq<u8>, i: int) -> int {
    shoff_of(d) + i * shentsize_of(d)
}

/// The descriptor at index `i` lies entirely inside the image.
pub open spec fn shdr_in_bounds(d: Seq<u8>, i: int) -> bool {
    shdr_base(d, i) + shdr_size(class_of(d)) <= d.len()
}

/// Name-field value (a string-table offset) of the descriptor at `i`.
pub open spec fn sec_name_off(d: Seq<u8>, i: int) -> u32 {
    u32_le(d, shdr_base(d, i))
}

/// File offset of the section at index `i`.
pub open spec fn sec_offset(d: Seq<u8>, i: int) -> u64 {
    if class_of(d) == ELFCLASS32 {
        u32_le(d, shdr_base(d, i) + 16) as u64
    } else {
        u64_le(d, shdr_base(d, i) + 24)
    }
}

/// Total byte size of the section at index `i`.
pub open spec fn sec_size(d: Seq<u8>, i: int) -> u64 {
    if class_of(d) == ELFCLASS32 {
        u32_le(d, shdr_base(d, i) + 20) as u64
    } else {
        u64_le(d, shdr_base(d, i) + 32)
    }
}

/// Entry size of the section at index `i`.
pub open spec fn sec_entsize(d: Seq<u8>, i: int) -> u64 {
    if class_of(d) == ELFCLASS32 {
        u32_le(d, shdr_base(d, i) + 36) as u64
    } else {
        u64_le(d, shdr_base(d, i) + 56)
    }
}

/// File offset of the section-name string table: the offset field of the
/// descriptor selected by the header's string-table index.
pub open spec fn shstr_off(d: Seq<u8>) -> u64 {
    sec_offset(d, shstrndx_of(d) as int)
}

/// Resolved name of the section at index `i`: the null-terminated bytes at
/// its name offset inside the section-name string table.
pub open spec fn section_name(d: Seq<u8>, i: int) -> Seq<u8> {
    cstr_at(d, shstr_off(d) + sec_name_off(d, i) as int)
}

/// `s` holds exactly the ten fields of the 32-bit descriptor at `base`.
pub open spec fn shdr32_parsed(d: Seq<u8>, base: int, s: Elf32_Shdr) -> bool {
    &&& s.sh_name == u32_le(d, base)
    &&& s.sh_type == u32_le(d, base + 4)
    &&& s.sh_flags == u32_le(d, base + 8)
    &&& s.sh_addr == u32_le(d, base + 12)
    &&& s.sh_offset == u32_le(d, base + 16)
    &&& s.sh_size == u32_le(d, base + 20)
    &&& s.sh_link == u32_le(d, base + 24)
    &&& s.sh_info == u32_le(d, base + 28)
    &&& s.sh_addralign == u32_le(d, base + 32)
    &&& s.sh_entsize == u32_le(d, base + 36)
}

/// `s` holds exactly the ten fields of the 64-bit descriptor at `base`.
pub open spec fn shdr64_parsed(d: Seq<u8>, base: int, s: Elf64_Shdr) -> bool {
    &&& s.sh_name == u32_le(d, base)
    &&& s.sh_type == u32_le(d, base + 4)
    &&& s.sh_flags == u64_le(d, base + 8)
    &&& s.sh_addr == u64_le(d, base + 16)
    &&& s.sh_offset == u64_le(d, base + 24)
    &&& s.sh_size == u64_le(d, base + 32)
    &&& s.sh_link == u32_le(d, base + 40)
    &&& s.sh_info == u32_le(d, base + 44)
    &&& s.sh_addralign == u64_le(d, base + 48)
    &&& s.sh_entsize == u64_le(d, base + 56)
}

/// Deserializes one 32-bit section descriptor field by field.
pub fn read_shdr32(d: &Vec<u8>, base: usize) -> (s: Elf32_Shdr)
    requires
        base + 40 <= d@.len(),
    ensures
        shdr32_parsed(d@, base as int, s),
{
    let _n: usize = d.len();
    Elf32_Shdr {
        sh_name: read_u32(d, base),
        sh_type: read_u32(d, base + 4),
        sh_flags: read_u32(d, base + 8),
        sh_addr: read_u32(d, base + 12),
        sh_offset: read_u32(d, base + 16),
        sh_size: read_u32(d, base + 20),
        sh_link: read_u32(d, base + 24),
        sh_info: read_u32(d, base + 28),
        sh_addralign: read_u32(d, base + 32),
        sh_entsize: read_u32(d, base + 36),
    }
}

/// Deserializes one 64-bit section descriptor field by field.
pub fn read_shdr64(d: &Vec<u8>, base: usize) -> (s: Elf64_Shdr)
    requires
        base + 64 <= d@.len(),
    ensures
        shdr64_parsed(d@, base as int, s),
{
    let _n: usize = d.len();
    Elf64_Shdr {
        sh_name: read_u32(d, base),
        sh_type: read_u32(d, base + 4),
        sh_flags: read_u64(d, base + 8),
        sh_addr: read_u64(d, base + 16),
        sh_offset: read_u64(d, base + 24),
        sh_size: read_u64(d, base + 32),
        sh_link: read_u32(d, base + 40),
        sh_info: read_u32(d, base + 44),
        sh_addralign: read_u64(d, base + 48),
        sh_entsize: read_u64(d, base + 56),
    }
}

/// One visited section: resolved name plus the descriptor fields handed on.
pub struct SectionInfo {
    pub name: Vec<u8>,
    pub offset: u64,
    pub entsize: u64,
    pub size: u64,
}

/// `s` carries exactly what the descriptor at index `i` encodes.
pub open spec fn sec_info_ok(d: Seq<u8>, i: int, s: SectionInfo) -> bool {
    &&& s.name@ == section_name(d, i)
    &&& s.offset == sec_offset(d, i)
    &&& s.entsize == sec_entsize(d, i)
    &&& s.size == sec_size(d, i)
}

/// Bounds-checked file offset of the descriptor at `i`; `None` exactly when
/// the descriptor does not lie entirely inside the image.
fn locate_shdr(d: &Vec<u8>, h: &ElfW<Elf32_Ehdr, Elf64_Ehdr>, i: u16) -> (r: Option<u64>)
    requires
        parsed_from(*h, d@),
    ensures
        r is Some <==> shdr_in_bounds(d@, i as int),
        r matches Some(b) ==> b == shdr_base(d@, i as int),
{
    proof {
        lemma_parsed_header_fields(*h, d@);
    }
    let n: usize = d.len();
    let len64: u64 = n as u64;
    let shoff = h.shoff();
    let entsize = h.shentsize() as u64;
    let ssz: u64 = if h.width() == ELFCLASS32 {
        40
    } else {
        64
    };
    proof {
        assert((i as int) * (entsize as int) <= 0xffff * 0xffff) by (nonlinear_arith)
            requires
                0 <= i as int <= 0xffff,
                0 <= entsize as int <= 0xffff,
        ;
    }
    let rel: u64 = (i as u64) * entsize;
    if shoff > u64::MAX - rel {
        return None;
    }
    let base = shoff + rel;
    if base > u64::MAX - ssz {
        return None;
    }
    if base + ssz > len64 {
        return None;
    }
    Some(base)
}

/// Reads the descriptor at `i` and resolves its name against the string table
/// at `strtab_off`.
fn read_section_info(d: &Vec<u8>, h: &ElfW<Elf32_Ehdr, Elf64_Ehdr>, i: u16, strtab_off: u64) -> (r:
    Result<SectionInfo, ElfError>)
    requires
        parsed_from(*h, d@),
        strtab_off == shstr_off(d@),
    ensures
        r is Ok <==> shdr_in_bounds(d@, i as int),
        r matches Ok(s) ==> sec_info_ok(d@, i as int, s),
        r matches Err(e) ==> e == ElfError::SectionTableUnreadable,
{
    proof {
        lemma_parsed_header_fields(*h, d@);
    }
    let base = match locate_shdr(d, h, i) {
        None => {
            return Err(ElfError::SectionTableUnreadable);
        },
        Some(b) => b,
    };
    let n: usize = d.len();
    let bu = base as usize;
    let name_off: u64;
    let offset: u64;
    let entsize: u64;
    let size: u64;
    if h.width() == ELFCLASS32 {
        let s = read_shdr32(d, bu);
        name_off = s.sh_name as u64;
        offset = s.sh_offset as u64;
        size = s.sh_size as u64;
        entsize = s.sh_entsize as u64;
    } else {
        let s = read_shdr64(d, bu);
        name_off = s.sh_name as u64;
        offset = s.sh_offset;
        size = s.sh_size;
        entsize = s.sh_entsize;
    }
    let name: Vec<u8> = if strtab_off > u64::MAX - name_off {
        let empty: Vec<u8> = Vec::new();
        proof {
            assert(strtab_off + name_off as int > u64::MAX >= d@.len());
            assert(empty@ =~= cstr_at(d@, strtab_off + name_off as int));
        }
        empty
    } else {
        read_cstr(d, strtab_off + name_off)
    };
    Ok(SectionInfo { name, offset, entsize, size })
}

/// Stepwise enumerator over the section table, in ascending index order; the
/// consumer may simply stop calling [`SectionIter::next`], and nothing past
/// the last visited descriptor is ever read.
pub struct SectionIter {
    /// Index of the next section to visit.
    pub idx: u16,
    /// File offset of the section-name string table.
    pub strtab_off: u64,
}

impl SectionIter {
    /// The iterator belongs to the image `d`.
    pub open spec fn wf(&self, d: Seq<u8>) -> bool {
        self.strtab_off == shstr_off(d)
    }

    /// Locates the section-name string table, the base for resolving every
    /// section's name, and starts at section index 0.
    pub fn begin(d: &Vec<u8>, h: &ElfW<Elf32_Ehdr, Elf64_Ehdr>) -> (r: Result<
        SectionIter,
        ElfError,
    >)
        requires
            parsed_from(*h, d@),
        ensures
            r is Ok <==> shdr_in_bounds(d@, shstrndx_of(d@) as int),
            r matches Ok(it) ==> it.wf(d@) && it.idx == 0,
            r matches Err(e) ==> e == ElfError::SectionTableUnreadable,
    {
        proof {
            lemma_parsed_header_fields(*h, d@);
        }
        let base = match locate_shdr(d, h, h.shstrndx()) {
            None => {
                return Err(ElfError::SectionTableUnreadable);
            },
            Some(b) => b,
        };
        let n: usize = d.len();
        let bu = base as usize;
        let off: u64 = if h.width() == ELFCLASS32 {
            read_shdr32(d, bu).sh_offset as u64
        } else {
            read_shdr64(d, bu).sh_offset
        };
        Ok(SectionIter { idx: 0, strtab_off: off })
    }

    /// Visits the next section: `Ok(Some(..))` carries section `idx` and
    /// advances, `Ok(None)` means every section has been visited, and a
    /// descriptor outside the image surfaces an error.
    pub fn next(&mut self, d: &Vec<u8>, h: &ElfW<Elf32_Ehdr, Elf64_Ehdr>) -> (r: Result<
        Option<SectionInfo>,
        ElfError,
    >)
        requires
            parsed_from(*h, d@),
            old(self).wf(d@),
        ensures
            final(self).wf(d@),
            old(self).idx >= shnum_of(d@) ==> r == Ok::<Option<SectionInfo>, ElfError>(None)
                && final(self).idx == old(self).idx,
            old(self).idx < shnum_of(d@) && shdr_in_bounds(d@, old(self).idx as int) ==> (r
                matches Ok(o) && o matches Some(s) && sec_info_ok(d@, old(self).idx as int, s))
                && final(self).idx == old(self).idx + 1,
            old(self).idx < shnum_of(d@) && !shdr_in_bounds(d@, old(self).idx as int) ==> r
                == Err::<Option<SectionInfo>, ElfError>(ElfError::SectionTableUnreadable),
    {
        proof {
            lemma_parsed_header_fields(*h, d@);
        }
        if self.idx >= h.shnum() {
            return Ok(None);
        }
        match read_section_info(d, h, self.idx, self.strtab_off) {
            Err(e) => Err(e),
            Ok(s) => {
                self.idx = self.idx + 1;
                Ok(Some(s))
            },
        }
    }
}

/// Every descriptor the full enumeration reads lies inside the image.
pub open spec fn sections_readable(d: Seq<u8>) -> bool {
    &&& shdr_in_bounds(d, shstrndx_of(d) as int)
    &&& forall|i: int| 0 <= i < shnum_of(d) ==> shdr_in_bounds(d, i)
}

impl ElfW<Elf32_Ehdr, Elf64_Ehdr> {
    /// Visits every section in ascending index order and returns them all:
    /// resolved name, file offset, entry size and total size.
    pub fn enum_sections(&self, d: &Vec<u8>) -> (r: Result<Vec<SectionInfo>, ElfError>)
        requires
            parsed_from(*self, d@),
        ensures
            r is Ok <==> sections_readable(d@),
            r matches Ok(v) ==> v@.len() == shnum_of(d@) && (forall|i: int|
                0 <= i < v@.len() ==> sec_info_ok(d@, i, #[trigger] v@[i])),
            r matches Err(e) ==> e == ElfError::SectionTableUnreadable,
    {
        proof {
            lemma_parsed_header_fields(*self, d@);
        }
        let mut it = match SectionIter::begin(d, self) {
            Err(e) => {
                return Err(e);
            },
            Ok(it) => it,
        };
        let shnum = self.shnum();
        let mut out: Vec<SectionInfo> = Vec::new();
        while it.idx < shnum
            invariant
                parsed_from(*self, d@),
                it.wf(d@),
                shnum == shnum_of(d@),
                shdr_in_bounds(d@, shstrndx_of(d@) as int),
                out@.len() == it.idx <= shnum,
                forall|i: int| 0 <= i < it.idx ==> sec_info_ok(d@, i, #[trigger] out@[i]),
                forall|i: int| 0 <= i < it.idx ==> shdr_in_bounds(d@, i),
            decreases shnum - it.idx,
        {
            match it.next(d, self) {
                Err(e) => {
                    return Err(e);
                },
                Ok(None) => {
                    assert(false);
                },
                Ok(Some(s)) => {
                    out.push(s);
                },
            }
        }
        Ok(out)
    }
}

/// The section name `.symtab` as bytes.
pub open spec fn symtab_name() -> Seq<u8> {
    seq![46u8, 115u8, 121u8, 109u8, 116u8, 97u8, 98u8]
}

/// The section name `.strtab` as bytes.
pub open spec fn strtab_name() -> Seq<u8> {
    seq![46u8, 115u8, 116u8, 114u8, 116u8, 97u8, 98u8]
}

/// `.symtab` as a buffer for comparisons.
pub fn symtab_name_vec() -> (v: Vec<u8>)
    ensures
        v@ == symtab_name(),
{
    let mut v: Vec<u8> = Vec::new();
    v.push(46);
    v.push(115);
    v.push(121);
    v.push(109);
    v.push(116);
    v.push(97);
    v.push(98);
    proof {
        assert(v@ =~= symtab_name());
    }
    v
}

/// `.strtab` as a buffer for comparisons.
pub fn strtab_name_vec() -> (v: Vec<u8>)
    ensures
        v@ == strtab_name(),
{
    let mut v: Vec<u8> = Vec::new();
    v.push(46);
    v.push(115);
    v.push(116);
    v.push(114);
    v.push(116);
    v.push(97);
    v.push(98);
    proof {
        assert(v@ =~= strtab_name());
    }
    v
}

/// Where the two tables of interest were found: symbol-table offset, size and
/// entry size, and string-table offset.
#[derive(PartialEq, Eq, Structural, Clone, Copy, Debug)]
pub struct TableRefs {
    pub sym_off: u64,
    pub sym_size: u64,
    pub sym_entsize: u64,
    pub str_off: u64,
}

/// The scan for `.symtab` and `.strtab`, from section index `i` onward with
/// what was already found: it stops as soon as both are found, reads each
/// visited descriptor in ascending order, and keeps the first match of each
/// name.
pub open spec fn scan_tables(
    d: Seq<u8>,
    i: int,
    sym: Option<(u64, u64, u64)>,
    sof: Option<u64>,
) -> Result<TableRefs, ElfError>
    decreases shnum_of(d) - i,
{
    if sym is Some && sof is Some {
        Ok(
            TableRefs {
                sym_off: sym->Some_0.0,
                sym_size: sym->Some_0.1,
                sym_entsize: sym->Some_0.2,
                str_off: sof->Some_0,
            },
        )
    } else if i >= shnum_of(d) {
        Err(
            if sof is None {
                ElfError::StringTableNotFound
            } else {
                ElfError::SymbolTableNotFound
            },
        )
    } else if !shdr_in_bounds(d, i) {
        Err(ElfError::SectionTableUnreadable)
    } else {
        let nm = section_name(d, i);
        scan_tables(
            d,
            i + 1,
            if sym is None && nm == symtab_name() {
                Some((sec_offset(d, i), sec_size(d, i), sec_entsize(d, i)))
            } else {
                sym
            },
            if sof is None && nm == strtab_name() {
                Some(sec_offset(d, i))
            } else {
                sof
            },
        )
    }
}

/// The symbol and string tables of the image, or why locating them fails.
pub open spec fn tables_of(d: Seq<u8>) -> Result<TableRefs, ElfError> {
    scan_tables(d, 0, None, None)
}

/// Byte length of one symbol record of a width class.
pub open spec fn sym_size(class: u8) -> int {
    if class == ELFCLASS32 {
        16
    } else {
        24
    }
}

/// Name-field value (a string-table offset) of the symbol record at `base`.
pub open spec fn sym_name_off(d: Seq<u8>, base: int) -> u32 {
    u32_le(d, base)
}

/// Value field of the symbol record at `base`; the field sits at a
/// width-dependent position.
pub open spec fn sym_value(d: Seq<u8>, class: u8, base: int) -> u64 {
    if class == ELFCLASS32 {
        u32_le(d, base + 4) as u64
    } else {
        u64_le(d, base + 8)
    }
}

/// (name, value) of symbol record `i` of a table at `off` with stride
/// `entsize`, the name resolved in the string table at `soff`.
pub open spec fn sym_pair(
    d: Seq<u8>,
    class: u8,
    off: u64,
    entsize: u64,
    soff: u64,
    i: int,
) -> (Seq<u8>, u64) {
    let base = off + i * entsize;
    (cstr_at(d, soff + sym_name_off(d, base) as int), sym_value(d, class, base))
}

/// Everything symbol enumeration yields: the (name, value) pairs in table
/// order, or the first failure. A table size that is no exact multiple of the
/// entry size is rejected, never silently truncated.
pub open spec fn symbols_spec(d: Seq<u8>) -> Result<Seq<(Seq<u8>, u64)>, ElfError> {
    if header_error(d) is Some {
        Err(header_error(d)->Some_0)
    } else if !shdr_in_bounds(d, shstrndx_of(d) as int) {
        Err(ElfError::SectionTableUnreadable)
    } else {
        match tables_of(d) {
            Err(e) => Err(e),
            Ok(t) => {
                if t.sym_entsize == 0 || t.sym_size % t.sym_entsize != 0 {
                    Err(ElfError::MalformedSymbolTable)
                } else {
                    let count = t.sym_size as int / t.sym_entsize as int;
                    if count > 0 && t.sym_off + (count - 1) * t.sym_entsize + sym_size(class_of(d))
                        > d.len() {
                        Err(ElfError::SymbolTableUnreadable)
                    } else {
                        Ok(
                            Seq::new(
                                count as nat,
                                |i: int|
                                    sym_pair(
                                        d,
                                        class_of(d),
                                        t.sym_off,
                                        t.sym_entsize,
                                        t.str_off,
                                        i,
                                    ),
                            ),
                        )
                    }
                }
            },
        }
    }
}

/// One resolved symbol record: its name (terminator stripped) and raw value.
pub struct SymbolInfo {
    pub name: Vec<u8>,
    pub value: u64,
}

/// Reads the header, locates `.symtab` and `.strtab` (stopping the section
/// scan as soon as both are found), checks that the table size is an exact
/// multiple of the entry size, and returns every (name, value) pair in table
/// order.
pub fn enum_symbols(d: &Vec<u8>) -> (r: Result<Vec<SymbolInfo>, ElfError>)
    ensures
        r is Ok <==> symbols_spec(d@) is Ok,
        r matches Err(e) ==> symbols_spec(d@) == Err::<Seq<(Seq<u8>, u64)>, ElfError>(e),
        r matches Ok(v) ==> symbols_spec(d@) matches Ok(ps) && v@.len() == ps.len() && (forall|
            i: int,
        |
            0 <= i < ps.len() ==> (#[trigger] v@[i]).name@ == ps[i].0 && v@[i].value == ps[i].1),
{
    let h = match read_ehdr(d) {
        Err(e) => {
            return Err(e);
        },
        Ok(h) => h,
    };
    proof {
        lemma_parsed_header_fields(h, d@);
    }
    let mut it = match SectionIter::begin(d, &h) {
        Err(e) => {
            return Err(e);
        },
        Ok(it) => it,
    };
    let shnum = h.shnum();
    let target_sym = symtab_name_vec();
    let target_str = strtab_name_vec();
    let mut sym: Option<(u64, u64, u64)> = None;
    let mut sof: Option<u64> = None;
    while !(sym.is_some() && sof.is_some())
        invariant
            parsed_from(h, d@),
            it.wf(d@),
            shnum == shnum_of(d@),
            it.idx <= shnum || (sym is Some && sof is Some),
            shdr_in_bounds(d@, shstrndx_of(d@) as int),
            target_sym@ == symtab_name(),
            target_str@ == strtab_name(),
            tables_of(d@) == scan_tables(d@, it.idx as int, sym, sof),
        decreases shnum - it.idx + (if sym is Some { 0int } else { 1int }) + (if sof is Some {
            0int
        } else {
            1int
        }),
    {
        if it.idx >= shnum {
            if sof.is_none() {
                return Err(ElfError::StringTableNotFound);
            }
            return Err(ElfError::SymbolTableNotFound);
        }
        match it.next(d, &h) {
            Err(e) => {
                return Err(e);
            },
            Ok(None) => {
                assert(false);
            },
            Ok(Some(s)) => {
                if sym.is_none() && crate::bytes::bytes_eq(&s.name, &target_sym) {
                    sym = Some((s.offset, s.size, s.entsize));
                }
                if sof.is_none() && crate::bytes::bytes_eq(&s.name, &target_str) {
                    sof = Some(s.offset);
                }
            },
        }
    }
    let (so, ss, se) = match sym {
        Some(t) => t,
        None => {
            assert(false);
            (0u64, 0u64, 0u64)
        },
    };
    let soff = match sof {
        Some(o) => o,
        None => {
            assert(false);
            0u64
        },
    };
    assert(tables_of(d@) == Ok::<TableRefs, ElfError>(
        TableRefs { sym_off: so, sym_size: ss, sym_entsize: se, str_off: soff },
    ));
    if se == 0 || ss % se != 0 {
        return Err(ElfError::MalformedSymbolTable);
    }
    let count: u64 = ss / se;
    let class = h.width();
    let ssz: u64 = if class == ELFCLASS32 {
        16
    } else {
        24
    };
    let n: usize = d.len();
    let len64: u64 = n as u64;
    proof {
        vstd::arithmetic::div_mod::lemma_fundamental_div_mod(ss as int, se as int);
        assert(ss as int == se as int * (count as int));
        assert(count as int * se as int == ss as int) by (nonlinear_arith)
            requires
                ss as int == se as int * (count as int),
        ;
    }
    if count > 0 {
        proof {
            vstd::arithmetic::mul::lemma_mul_inequality(1, count as int, se as int);
        }
        let rel: u64 = ss - se;
        proof {
            assert((count as int - 1) * se as int == count as int * se as int - se as int)
                by (nonlinear_arith);
            assert(rel == (count as int - 1) * se as int);
        }
        if so > u64::MAX - rel {
            return Err(ElfError::SymbolTableUnreadable);
        }
        let lb = so + rel;
        if lb > u64::MAX - ssz {
            return Err(ElfError::SymbolTableUnreadable);
        }
        if lb + ssz > len64 {
            return Err(ElfError::SymbolTableUnreadable);
        }
    }
    assert(count > 0 ==> so + (count as int - 1) * se as int + ssz <= d@.len());
    let ghost ps = symbols_spec(d@)->Ok_0;
    assert(symbols_spec(d@) is Ok);
    assert(ps == Seq::new(
        (ss as int / se as int) as nat,
        |j: int| sym_pair(d@, class_of(d@), so, se, soff, j),
    ));
    assert(ps.len() == count);
    let mut out: Vec<SymbolInfo> = Vec::new();
    let mut i: u64 = 0;
    while i < count
        invariant
            i <= count,
            n == d@.len(),
            len64 == n as u64,
            class == class_of(d@),
            ssz == sym_size(class_of(d@)),
            count > 0 ==> so + (count - 1) * se + ssz <= len64,
            count as int * se as int == ss as int,
            symbols_spec(d@) matches Ok(ps2) && ps2 == ps,
            ps == Seq::new(count as nat, |j: int| sym_pair(d@, class_of(d@), so, se, soff, j)),
            ps.len() == count,
            out@.len() == i,
            forall|j: int|
                0 <= j < i ==> (#[trigger] out@[j]).name@ == ps[j].0 && out@[j].value == ps[j].1,
        decreases count - i,
    {
        proof {
            vstd::arithmetic::mul::lemma_mul_inequality(i as int, count as int - 1, se as int);
            assert(i as int * se as int <= (count as int - 1) * se as int);
        }
        let base: u64 = so + i * se;
        let bu = base as usize;
        let name_off = read_u32(d, bu) as u64;
        let value: u64 = if class == ELFCLASS32 {
            read_u32(d, bu + 4) as u64
        } else {
            read_u64(d, bu + 8)
        };
        let name: Vec<u8> = if soff > u64::MAX - name_off {
            let empty: Vec<u8> = Vec::new();
            proof {
                assert(soff + name_off as int > u64::MAX >= d@.len());
                assert(empty@ =~= cstr_at(d@, soff + name_off as int));
            }
            empty
        } else {
            read_cstr(d, soff + name_off)
        };
        assert(ps[i as int] == sym_pair(d@, class_of(d@), so, se, soff, i as int));
        out.push(SymbolInfo { name, value });
        i = i + 1;
    }
    Ok(out)
}

/// For a header parsed from `d`, the tagged fields agree with the raw layout
/// accessors over `d`.
pub proof fn lemma_parsed_header_fields(h: ElfW<Elf32_Ehdr, Elf64_Ehdr>, d: Seq<u8>)
    requires
        parsed_from(h, d),
    ensures
        h.width_spec() == class_of(d),
        h.shoff_spec() == shoff_of(d),
        h.shentsize_spec() == shentsize_of(d),
        h.shnum_spec() == shnum_of(d),
        h.shstrndx_spec() == shstrndx_of(d),
        h.etype_spec() == etype_of(d),
{
}

/// The scan from index `i`, with everything before `i` already accounted for,
/// ends at the first `.symtab` (index `a`) and first `.strtab` (index `b`).
/// Only the descriptors up to the later of the two need to lie inside the
/// image: the scan stops as soon as both tables are found and never reads a
/// descriptor past the last one it visited.
pub proof fn lemma_scan_stops_when_found(d: Seq<u8>, a: int, b: int, i: int)
    requires
        forall|j: int|
            0 <= j <= (if a > b {
                a
            } else {
                b
            }) ==> shdr_in_bounds(d, j),
        0 <= a < shnum_of(d) && section_name(d, a) == symtab_name(),
        forall|j: int| 0 <= j < a ==> section_name(d, j) != symtab_name(),
        0 <= b < shnum_of(d) && section_name(d, b) == strtab_name(),
        forall|j: int| 0 <= j < b ==> section_name(d, j) != strtab_name(),
        0 <= i <= shnum_of(d),
    ensures
        scan_tables(
            d,
            i,
            if i > a {
                Some((sec_offset(d, a), sec_size(d, a), sec_entsize(d, a)))
            } else {
                None
            },
            if i > b {
                Some(sec_offset(d, b))
            } else {
                None
            },
        ) == Ok::<TableRefs, ElfError>(
            TableRefs {
                sym_off: sec_offset(d, a),
                sym_size: sec_size(d, a),
                sym_entsize: sec_entsize(d, a),
                str_off: sec_offset(d, b),
            },
        ),
    decreases shnum_of(d) - i,
{
    let sym: Option<(u64, u64, u64)> = if i > a {
        Some((sec_offset(d, a), sec_size(d, a), sec_entsize(d, a)))
    } else {
        None
    };
    let sof: Option<u64> = if i > b {
        Some(sec_offset(d, b))
    } else {
        None
    };
    if sym is Some && sof is Some {
        // the scan stops here with both tables in hand
    } else {
        assert(i <= a || i <= b);
        assert(i < shnum_of(d));
        lemma_scan_stops_when_found(d, a, b, i + 1);
    }
}

/// Enumerating the symbols of a well-formed image yields exactly the encoded
/// (name, value) records, in table order, for either width class: the tables
/// are the first sections named `.symtab` and `.strtab`, and record `i` is
/// read at the symbol-table offset plus `i` strides, its name resolved in the
/// string table.
pub proof fn lemma_image_round_trip(d: Seq<u8>, a: int, b: int)
    requires
        header_ok(d),
        shdr_in_bounds(d, shstrndx_of(d) as int),
        forall|j: int|
            0 <= j <= (if a > b {
                a
            } else {
                b
            }) ==> shdr_in_bounds(d, j),
        0 <= a < shnum_of(d) && section_name(d, a) == symtab_name(),
        forall|j: int| 0 <= j < a ==> section_name(d, j) != symtab_name(),
        0 <= b < shnum_of(d) && section_name(d, b) == strtab_name(),
        forall|j: int| 0 <= j < b ==> section_name(d, j) != strtab_name(),
        sec_entsize(d, a) != 0,
        sec_size(d, a) % sec_entsize(d, a) == 0,
        sec_size(d, a) as int / sec_entsize(d, a) as int > 0 ==> sec_offset(d, a) + (sec_size(d, a)
            as int / sec_entsize(d, a) as int - 1) * sec_entsize(d, a) + sym_size(class_of(d))
            <= d.len(),
    ensures
        symbols_spec(d) matches Ok(ps) && ps.len() == sec_size(d, a) as int / sec_entsize(d, a)
            as int && (forall|i: int|
            0 <= i < ps.len() ==> ps[i] == sym_pair(
                d,
                class_of(d),
                sec_offset(d, a),
                sec_entsize(d, a),
                sec_offset(d, b),
                i,
            )),
{
    lemma_scan_stops_when_found(d, a, b, 0);
}

/// A symbol table whose declared size is no exact multiple of its entry size
/// is rejected outright, never silently truncated.
pub proof fn lemma_malformed_table_rejected(d: Seq<u8>)
    requires
        header_ok(d),
        shdr_in_bounds(d, shstrndx_of(d) as int),
        tables_of(d) matches Ok(t) && (t.sym_entsize == 0 || t.sym_size % t.sym_entsize != 0),
    ensures
        symbols_spec(d) == Err::<Seq<(Seq<u8>, u64)>, ElfError>(ElfError::MalformedSymbolTable),
{
}

/// Value of the first pair named `nm` at or after index `i`, if any.
pub open spec fn first_value_from(ps: Seq<(Seq<u8>, u64)>, nm: Seq<u8>, i: int) -> Option<u64>
    decreases ps.len() - i,
{
    if i < 0 || i >= ps.len() {
        None
    } else if ps[i].0 == nm {
        Some(ps[i].1)
    } else {
        first_value_from(ps, nm, i + 1)
    }
}

/// What looking `nm` up in the image's symbol table yields: the raw value of
/// the first symbol of that name, `None` when no symbol carries it, or the
/// enumeration failure.
pub open spec fn find_symbol_spec(d: Seq<u8>, nm: Seq<u8>) -> Result<Option<u64>, ElfError> {
    match symbols_spec(d) {
        Err(e) => Err(e),
        Ok(ps) => Ok(first_value_from(ps, nm, 0)),
    }
}

/// Looks a symbol up by exact name; the scan over the table stops at the
/// first match.
pub fn find_symbol(d: &Vec<u8>, name: &Vec<u8>) -> (r: Result<Option<u64>, ElfError>)
    ensures
        r == find_symbol_spec(d@, name@),
{
    let syms = match enum_symbols(d) {
        Err(e) => {
            return Err(e);
        },
        Ok(v) => v,
    };
    let ghost ps = symbols_spec(d@)->Ok_0;
    let mut i: usize = 0;
    while i < syms.len()
        invariant
            i <= syms@.len() == ps.len(),
            symbols_spec(d@) == Ok::<Seq<(Seq<u8>, u64)>, ElfError>(ps),
            forall|j: int|
                0 <= j < ps.len() ==> (#[trigger] syms@[j]).name@ == ps[j].0 && syms@[j].value
                    == ps[j].1,
            first_value_from(ps, name@, 0) == first_value_from(ps, name@, i as int),
        decreases syms@.len() - i,
    {
        if crate::bytes::bytes_eq(&syms[i].name, name) {
            assert(first_value_from(ps, name@, i as int) == Some(ps[i as int].1));
            return Ok(Some(syms[i].value));
        }
        i = i + 1;
        assert(first_value_from(ps, name@, i - 1) == first_value_from(ps, name@, i as int));
    }
    Ok(None)
}

/// The absolute address a raw symbol value resolves to: unchanged for a
/// fixed-address executable, the module's load base added for every other
/// image type.
pub open spec fn resolved_address(e_type: u16, value: u64, base: u64) -> u64 {
    if e_type == crate::elf::elfdefs::ET_EXEC {
        value
    } else {
        (value + base) as u64
    }
}

/// Position-independence correction for one symbol value.
pub fn resolve_symbol_address(e_type: u16, value: u64, base: u64) -> (r: u64)
    requires
        e_type != crate::elf::elfdefs::ET_EXEC ==> value + base <= u64::MAX,
    ensures
        r == resolved_address(e_type, value, base),
{
    if e_type == crate::elf::elfdefs::ET_EXEC {
        value
    } else {
        value + base
    }
}

/// The name of the loader entry point, `__libc_dlopen_mode`, as bytes.
pub open spec fn dlopen_name() -> Seq<u8> {
    seq![
        95u8,
        95u8,
        108u8,
        105u8,
        98u8,
        99u8,
        95u8,
        100u8,
        108u8,
        111u8,
        112u8,
        101u8,
        110u8,
        95u8,
        109u8,
        111u8,
        100u8,
        101u8,
    ]
}

/// `__libc_dlopen_mode` as a buffer for comparisons.
pub fn dlopen_name_vec() -> (v: Vec<u8>)
    ensures
        v@ == dlopen_name(),
{
    let mut v: Vec<u8> = Vec::new();
    v.push(95);
    v.push(95);
    v.push(108);
    v.push(105);
    v.push(98);
    v.push(99);
    v.push(95);
    v.push(100);
    v.push(108);
    v.push(111);
    v.push(112);
    v.push(101);
    v.push(110);
    v.push(95);
    v.push(109);
    v.push(111);
    v.push(100);
    v.push(101);
    proof {
        assert(v@ =~= dlopen_name());
    }
    v
}

/// What resolving the loader entry point against load base `base` yields.
pub open spec fn dlopen_address_spec(d: Seq<u8>, base: u64) -> Result<u64, ElfError> {
    match find_symbol_spec(d, dlopen_name()) {
        Err(e) => Err(e),
        Ok(None) => Err(ElfError::SymbolNotFound),
        Ok(Some(v)) => {
            if etype_of(d) == crate::elf::elfdefs::ET_EXEC {
                Ok(v)
            } else if v + base > u64::MAX {
                Err(ElfError::AddressOutOfRange)
            } else {
                Ok((v + base) as u64)
            }
        },
    }
}

/// Resolves the loader entry point of the module whose on-disk image is `d`
/// and whose runtime load base is `base`: finds the symbol by name, then
/// applies position-independence correction using the image's type.
pub fn dlopen_address(d: &Vec<u8>, base: u64) -> (r: Result<u64, ElfError>)
    ensures
        r == dlopen_address_spec(d@, base),
{
    let h = match read_ehdr(d) {
        Err(e) => {
            return Err(e);
        },
        Ok(h) => h,
    };
    proof {
        lemma_parsed_header_fields(h, d@);
    }
    let target = dlopen_name_vec();
    let value = match find_symbol(d, &target) {
        Err(e) => {
            return Err(e);
        },
        Ok(None) => {
            return Err(ElfError::SymbolNotFound);
        },
        Ok(Some(v)) => v,
    };
    let e_type = h.get_type();
    if e_type == crate::elf::elfdefs::ET_EXEC {
        Ok(value)
    } else if value > u64::MAX - base {
        Err(ElfError::AddressOutOfRange)
    } else {
        Ok(resolve_symbol_address(e_type, value, base))
    }
}

} // verus!
