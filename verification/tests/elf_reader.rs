//! Tests of the binary-format reader over synthetically constructed images.

use injector::elf::elfdefs::{ElfW, ElfW_Ehdr, ELFCLASS32, ELFCLASS64, ET_EXEC};
use injector::elf::{
    dlopen_address, enum_symbols, find_symbol, read_ehdr, resolve_symbol_address, ElfError,
    SectionIter,
};

fn w16(d: &mut Vec<u8>, off: usize, v: u16) {
    d[off] = v as u8;
    d[off + 1] = (v >> 8) as u8;
}

fn w32(d: &mut Vec<u8>, off: usize, v: u32) {
    for i in 0..4 {
        d[off + i] = (v >> (8 * i)) as u8;
    }
}

fn w64(d: &mut Vec<u8>, off: usize, v: u64) {
    for i in 0..8 {
        d[off + i] = (v >> (8 * i)) as u8;
    }
}

fn put(d: &mut Vec<u8>, off: usize, bytes: &[u8]) {
    d[off..off + bytes.len()].copy_from_slice(bytes);
}

/// Builds a 64-bit image: header, four section descriptors, a section-name
/// string table, a symbol string table, and a symbol table with the given
/// (name-offset, value) records.
fn build64(e_type: u16, syms: &[(u32, u64)], symtab_size_override: Option<u64>) -> Vec<u8> {
    let shoff = 64usize;
    let shentsize = 64usize;
    let shnum = 4usize;
    let shstr_off = shoff + shnum * shentsize; // 320
    let shstr = b"\0.symtab\0.strtab\0.shstrtab\0";
    let str_off = shstr_off + shstr.len(); // 347
    let strtab = b"\0foo\0barbaz\0__libc_dlopen_mode\0";
    let sym_off = str_off + strtab.len();
    let sym_size = syms.len() * 24;
    let total = sym_off + sym_size;
    let mut d = vec![0u8; total];
    // header
    put(&mut d, 0, b"\x7fELF");
    d[4] = ELFCLASS64;
    w16(&mut d, 16, e_type);
    w64(&mut d, 40, shoff as u64);
    w16(&mut d, 58, shentsize as u16);
    w16(&mut d, 60, shnum as u16);
    w16(&mut d, 62, 3);
    // section 0: null (all zero)
    // section 1: .symtab
    let s1 = shoff + shentsize;
    w32(&mut d, s1, 1); // name offset of ".symtab" in shstrtab
    w64(&mut d, s1 + 24, sym_off as u64);
    w64(&mut d, s1 + 32, symtab_size_override.unwrap_or(sym_size as u64));
    w64(&mut d, s1 + 56, 24);
    // section 2: .strtab
    let s2 = shoff + 2 * shentsize;
    w32(&mut d, s2, 9);
    w64(&mut d, s2 + 24, str_off as u64);
    w64(&mut d, s2 + 32, strtab.len() as u64);
    // section 3: .shstrtab
    let s3 = shoff + 3 * shentsize;
    w32(&mut d, s3, 17);
    w64(&mut d, s3 + 24, shstr_off as u64);
    w64(&mut d, s3 + 32, shstr.len() as u64);
    // string tables
    put(&mut d, shstr_off, shstr);
    put(&mut d, str_off, strtab);
    // symbol records
    for (i, (name_off, value)) in syms.iter().enumerate() {
        let base = sym_off + 24 * i;
        w32(&mut d, base, *name_off);
        w64(&mut d, base + 8, *value);
    }
    d
}

/// Builds the analogous 32-bit image (40-byte descriptors, 16-byte symbol
/// records).
fn build32(e_type: u16, syms: &[(u32, u32)]) -> Vec<u8> {
    let shoff = 52usize;
    let shentsize = 40usize;
    let shnum = 4usize;
    let shstr_off = shoff + shnum * shentsize;
    let shstr = b"\0.symtab\0.strtab\0.shstrtab\0";
    let str_off = shstr_off + shstr.len();
    let strtab = b"\0foo\0barbaz\0__libc_dlopen_mode\0";
    let sym_off = str_off + strtab.len();
    let sym_size = syms.len() * 16;
    let total = sym_off + sym_size;
    let mut d = vec![0u8; total];
    put(&mut d, 0, b"\x7fELF");
    d[4] = ELFCLASS32;
    w16(&mut d, 16, e_type);
    w32(&mut d, 32, shoff as u32);
    w16(&mut d, 46, shentsize as u16);
    w16(&mut d, 48, shnum as u16);
    w16(&mut d, 50, 3);
    let s1 = shoff + shentsize;
    w32(&mut d, s1, 1);
    w32(&mut d, s1 + 16, sym_off as u32);
    w32(&mut d, s1 + 20, sym_size as u32);
    w32(&mut d, s1 + 36, 16);
    let s2 = shoff + 2 * shentsize;
    w32(&mut d, s2, 9);
    w32(&mut d, s2 + 16, str_off as u32);
    w32(&mut d, s2 + 20, strtab.len() as u32);
    let s3 = shoff + 3 * shentsize;
    w32(&mut d, s3, 17);
    w32(&mut d, s3 + 16, shstr_off as u32);
    w32(&mut d, s3 + 20, shstr.len() as u32);
    put(&mut d, shstr_off, shstr);
    put(&mut d, str_off, strtab);
    for (i, (name_off, value)) in syms.iter().enumerate() {
        let base = sym_off + 16 * i;
        w32(&mut d, base, *name_off);
        w32(&mut d, base + 4, *value);
    }
    d
}

#[test]
fn read_ehdr_rejects_short_magic() {
    let d = vec![0x7f, b'E'];
    assert_eq!(read_ehdr(&d).err(), Some(ElfError::TruncatedHeader));
}

#[test]
fn read_ehdr_rejects_bad_magic() {
    let mut d = build64(3, &[], None);
    d[1] = b'F';
    assert_eq!(read_ehdr(&d).err(), Some(ElfError::NotRecognizedFormat));
}

#[test]
fn read_ehdr_rejects_bad_class() {
    let mut d = build64(3, &[], None);
    d[4] = 7;
    assert_eq!(read_ehdr(&d).err(), Some(ElfError::UnsupportedWidthClass));
}

#[test]
fn read_ehdr_rejects_truncated_layout() {
    let d = build64(3, &[], None)[..40].to_vec();
    assert_eq!(read_ehdr(&d).err(), Some(ElfError::TruncatedHeader));
}

#[test]
fn read_ehdr_parses_both_classes() {
    let d64 = build64(3, &[], None);
    match read_ehdr(&d64).unwrap() {
        ElfW::Elf64(h) => {
            assert_eq!(h.e_shoff, 64);
            assert_eq!(h.e_shentsize, 64);
            assert_eq!(h.e_shnum, 4);
            assert_eq!(h.e_shstrndx, 3);
            assert_eq!(h.e_type, 3);
        },
        _ => panic!("expected the 64-bit variant"),
    }
    let d32 = build32(2, &[]);
    match read_ehdr(&d32).unwrap() {
        ElfW::Elf32(h) => {
            assert_eq!(h.e_shoff, 52);
            assert_eq!(h.e_shentsize, 40);
            assert_eq!(h.e_shnum, 4);
            assert_eq!(h.e_type, 2);
        },
        _ => panic!("expected the 32-bit variant"),
    }
}

#[test]
fn header_accessors_report_class_magic_type() {
    let d = build64(2, &[], None);
    let h = read_ehdr(&d).unwrap();
    assert_eq!(h.get_class(), ELFCLASS64);
    assert_eq!(h.get_magic(), vec![0x7f, b'E', b'L', b'F']);
    assert_eq!(h.get_type(), ET_EXEC);
}

#[test]
fn enum_sections_visits_ascending_order() {
    let d = build64(3, &[(1, 0x1111)], None);
    let h = read_ehdr(&d).unwrap();
    let secs = h.enum_sections(&d).unwrap();
    assert_eq!(secs.len(), 4);
    assert_eq!(secs[0].name, b"".to_vec());
    assert_eq!(secs[1].name, b".symtab".to_vec());
    assert_eq!(secs[2].name, b".strtab".to_vec());
    assert_eq!(secs[3].name, b".shstrtab".to_vec());
    assert_eq!(secs[1].entsize, 24);
    assert_eq!(secs[1].size, 24);
}

#[test]
fn section_iter_stops_where_the_consumer_stops() {
    let d = build64(3, &[], None);
    let h = read_ehdr(&d).unwrap();
    let mut it = SectionIter::begin(&d, &h).unwrap();
    let first = it.next(&d, &h).unwrap().unwrap();
    let second = it.next(&d, &h).unwrap().unwrap();
    assert_eq!(first.name, b"".to_vec());
    assert_eq!(second.name, b".symtab".to_vec());
    // the consumer stops here: exactly two sections were visited
    assert_eq!(it.idx, 2);
}

#[test]
fn enum_symbols_yields_encoded_pairs_64() {
    let d = build64(3, &[(1, 0x1111), (5, 0x2222)], None);
    let syms = enum_symbols(&d).unwrap();
    assert_eq!(syms.len(), 2);
    assert_eq!(syms[0].name, b"foo".to_vec());
    assert_eq!(syms[0].value, 0x1111);
    assert_eq!(syms[1].name, b"barbaz".to_vec());
    assert_eq!(syms[1].value, 0x2222);
}

#[test]
fn enum_symbols_yields_encoded_pairs_32() {
    let d = build32(3, &[(1, 0x1111), (5, 0x2222)]);
    let syms = enum_symbols(&d).unwrap();
    assert_eq!(syms.len(), 2);
    assert_eq!(syms[0].name, b"foo".to_vec());
    assert_eq!(syms[0].value, 0x1111);
    assert_eq!(syms[1].name, b"barbaz".to_vec());
    assert_eq!(syms[1].value, 0x2222);
}

#[test]
fn symtab_size_not_multiple_is_rejected() {
    let d = build64(3, &[(1, 0x1111), (5, 0x2222)], Some(25));
    assert_eq!(enum_symbols(&d).err(), Some(ElfError::MalformedSymbolTable));
}

#[test]
fn symtab_entsize_zero_is_rejected() {
    let mut d = build64(3, &[(1, 0x1111)], None);
    // zero out the entry-size field of the .symtab descriptor
    let s1 = 64 + 64;
    for i in 0..8 {
        d[s1 + 56 + i] = 0;
    }
    assert_eq!(enum_symbols(&d).err(), Some(ElfError::MalformedSymbolTable));
}

#[test]
fn missing_tables_are_reported() {
    // damage the section names so neither table is found
    let mut d = build64(3, &[], None);
    let shstr_off = 64 + 4 * 64;
    d[shstr_off + 1] = b'X'; // ".symtab" -> "Xsymtab"... first byte of name
    assert_eq!(enum_symbols(&d).err(), Some(ElfError::SymbolTableNotFound));
    let mut d2 = build64(3, &[], None);
    d2[shstr_off + 9] = b'X'; // ".strtab" start
    assert_eq!(enum_symbols(&d2).err(), Some(ElfError::StringTableNotFound));
}

#[test]
fn section_table_outside_image_is_unreadable() {
    let mut d = build64(3, &[], None);
    w64(&mut d, 40, 1 << 40); // section-header offset far past the end
    assert_eq!(enum_symbols(&d).err(), Some(ElfError::SectionTableUnreadable));
}

#[test]
fn find_symbol_returns_first_match() {
    let d = build64(3, &[(1, 0x1111), (1, 0x9999), (5, 0x2222)], None);
    assert_eq!(find_symbol(&d, &b"foo".to_vec()).unwrap(), Some(0x1111));
    assert_eq!(find_symbol(&d, &b"barbaz".to_vec()).unwrap(), Some(0x2222));
    assert_eq!(find_symbol(&d, &b"nothere".to_vec()).unwrap(), None);
}

#[test]
fn position_independent_value_gets_base_added() {
    // shared object: raw value plus load base
    assert_eq!(
        resolve_symbol_address(3, 0x1000, 0x7f00_0000_0000),
        0x7f00_0000_1000
    );
    // fixed-address executable: raw value unchanged
    assert_eq!(resolve_symbol_address(ET_EXEC, 0x1000, 0x7f00_0000_0000), 0x1000);
}

#[test]
fn dlopen_address_resolves_with_correction() {
    // name offset 12 points at "__libc_dlopen_mode" inside the string table
    let pie = build64(3, &[(12, 0x1000)], None);
    assert_eq!(dlopen_address(&pie, 0x7f00_0000_0000).unwrap(), 0x7f00_0000_1000);
    let exe = build64(ET_EXEC, &[(12, 0x1000)], None);
    assert_eq!(dlopen_address(&exe, 0x7f00_0000_0000).unwrap(), 0x1000);
    let missing = build64(3, &[(1, 0x1000)], None);
    assert_eq!(dlopen_address(&missing, 0).err(), Some(ElfError::SymbolNotFound));
}

#[test]
fn symbol_records_outside_image_are_unreadable() {
    let mut d = build64(3, &[(1, 0x1111)], None);
    // point the symbol table far past the end of the image
    let s1 = 64 + 64;
    w64(&mut d, s1 + 24, 1 << 40);
    assert_eq!(enum_symbols(&d).err(), Some(ElfError::SymbolTableUnreadable));
}

#[test]
fn corrected_address_must_fit_the_machine_word() {
    let pie = build64(3, &[(12, 0x1000)], None);
    assert_eq!(
        dlopen_address(&pie, u64::MAX - 0xff).err(),
        Some(ElfError::AddressOutOfRange)
    );
}

#[test]
fn symbol_scan_stops_once_both_tables_found() {
    // declare many more sections than the image holds: the scan finds
    // .symtab and .strtab early and never reads the descriptors past them
    let mut d = build64(3, &[(1, 0x1111)], None);
    w16(&mut d, 60, 200);
    let syms = enum_symbols(&d).unwrap();
    assert_eq!(syms.len(), 1);
    assert_eq!(syms[0].name, b"foo".to_vec());
    // the full enumeration, by contrast, visits every index and fails
    let h = read_ehdr(&d).unwrap();
    assert_eq!(h.enum_sections(&d).err(), Some(ElfError::SectionTableUnreadable));
}
