use elfdump::elf::{
    check_class, ElfFileType, ElfType, ProgramHeader64, ProgramHeaderFlag, ProgramHeaderType,
    SectionHeader64, SectionHeaderFlag, SectionHeaderType, Elf64Header,
};
use elfdump::names::get_section_name;
use elfdump::object::Elf64;
use elfdump::reader::ByteReader;
use elfdump::ParserError;

fn put16(b: &mut Vec<u8>, v: u16) {
    b.extend_from_slice(&v.to_le_bytes());
}

fn put32(b: &mut Vec<u8>, v: u32) {
    b.extend_from_slice(&v.to_le_bytes());
}

fn put64(b: &mut Vec<u8>, v: u64) {
    b.extend_from_slice(&v.to_le_bytes());
}

struct Shape {
    phoff: u64,
    shoff: u64,
    phentsize: u16,
    phnum: u16,
    shentsize: u16,
    shnum: u16,
    shstrndx: u16,
}

fn header(s: &Shape) -> Vec<u8> {
    let mut b = vec![0x7F, b'E', b'L', b'F', 2, 1, 1, 3, 0, 0, 0, 0, 0, 0, 0, 0];
    put16(&mut b, 2);
    put16(&mut b, 0x3E);
    put32(&mut b, 1);
    put64(&mut b, 0x40_1000);
    put64(&mut b, s.phoff);
    put64(&mut b, s.shoff);
    put32(&mut b, 0);
    put16(&mut b, 64);
    put16(&mut b, s.phentsize);
    put16(&mut b, s.phnum);
    put16(&mut b, s.shentsize);
    put16(&mut b, s.shnum);
    put16(&mut b, s.shstrndx);
    assert_eq!(b.len(), 64);
    b
}

fn program_header(b: &mut Vec<u8>, ty: u32, flags: u32, offset: u64, vaddr: u64) {
    put32(b, ty);
    put32(b, flags);
    put64(b, offset);
    put64(b, vaddr);
    put64(b, vaddr);
    put64(b, 0x200);
    put64(b, 0x300);
    put64(b, 0x1000);
}

fn section_header(b: &mut Vec<u8>, name: u32, ty: u32, flags: u64, offset: u64, size: u64) {
    put32(b, name);
    put32(b, ty);
    put64(b, flags);
    put64(b, 0);
    put64(b, offset);
    put64(b, size);
    put32(b, 0);
    put32(b, 0);
    put64(b, 1);
    put64(b, 0);
}

/// Header, one section header for a string table, and the table's one zero byte.
fn minimal_image() -> Vec<u8> {
    let mut b = header(&Shape {
        phoff: 64,
        shoff: 64,
        phentsize: 56,
        phnum: 0,
        shentsize: 64,
        shnum: 1,
        shstrndx: 0,
    });
    section_header(&mut b, 0, 3, 0, 128, 1);
    b.push(0);
    b
}

/// Header, two program headers, a string table, then three section headers.
fn fuller_image() -> Vec<u8> {
    let table: &[u8] = b"\0.text\0.shstrtab\0";
    let table_at = 64 + 2 * 56;
    let shoff = (table_at + table.len()) as u64;
    let mut b = header(&Shape {
        phoff: 64,
        shoff,
        phentsize: 56,
        phnum: 2,
        shentsize: 64,
        shnum: 3,
        shstrndx: 2,
    });
    program_header(&mut b, 1, 5, 0, 0x40_0000);
    program_header(&mut b, 2, 6, 0x1000, 0x60_0000);
    b.extend_from_slice(table);
    section_header(&mut b, 0, 0, 0, 0, 0);
    section_header(&mut b, 1, 1, 0x4, 0x40, 0x10);
    section_header(&mut b, 7, 3, 0, table_at as u64, table.len() as u64);
    b
}

#[test]
fn minimal_image_round_trips() {
    let b = minimal_image();
    let o = Elf64::parse(&b).unwrap();
    let h = &o.header;
    assert_eq!(h.magic, [0x7F, b'E', b'L', b'F']);
    assert_eq!(h.class, 2);
    assert_eq!(h.endianness, 1);
    assert_eq!(h.version, 1);
    assert_eq!(h.abi, 3);
    assert_eq!(h.abi_version, 0);
    assert_eq!(h.padding, [0; 7]);
    assert_eq!(h.e_type, ElfFileType::EtExec);
    assert_eq!(h.machine, 0x3E);
    assert_eq!(h.e_version, 1);
    assert_eq!(h.e_entry, 0x40_1000);
    assert_eq!(h.e_phoff, 64);
    assert_eq!(h.e_shoff, 64);
    assert_eq!(h.e_flags, 0);
    assert_eq!(h.e_ehsize, 64);
    assert_eq!(h.e_phentsize, 56);
    assert_eq!(h.e_phnum, 0);
    assert_eq!(h.e_shentsize, 64);
    assert_eq!(h.e_shnum, 1);
    assert_eq!(h.e_shstrndx, 0);
    assert!(h.is_valid_magic());
    assert!(o.program_headers.is_empty());
    assert_eq!(o.section_headers.len(), 1);
    let s = &o.section_headers[0];
    assert_eq!(s.name, "");
    assert_eq!(s.sh_type, SectionHeaderType::StrTab);
    assert_eq!(s.sh_offset, 128);
    assert_eq!(s.sh_size, 1);
    assert_eq!(s.sh_addralign, 1);
}

#[test]
fn every_truncation_is_out_of_bounds() {
    for full in [minimal_image(), fuller_image()] {
        assert!(Elf64::parse(&full).is_ok());
        for k in 0..full.len() {
            assert_eq!(Elf64::parse(&full[..k]), Err(ParserError::OutOfBounds), "prefix {}", k);
        }
    }
}

#[test]
fn trailing_bytes_are_not_read() {
    let mut b = minimal_image();
    b.push(0xAB);
    let k = b.len() - 1;
    assert!(Elf64::parse(&b[..k]).is_ok());
}

#[test]
fn header_counts_match_tables() {
    let b = fuller_image();
    let o = Elf64::parse(&b).unwrap();
    assert_eq!(o.program_headers.len(), o.header.e_phnum as usize);
    assert_eq!(o.program_headers.len(), 2);
    assert_eq!(o.section_headers.len(), o.header.e_shnum as usize);
    assert_eq!(o.section_headers.len(), 3);
}

#[test]
fn fuller_image_decodes_each_entry() {
    let b = fuller_image();
    let o = Elf64::parse(&b).unwrap();
    let p0 = &o.program_headers[0];
    assert_eq!(p0.p_type, ProgramHeaderType::PtLoad);
    assert_eq!(p0.p_flag, ProgramHeaderFlag::Pfrx);
    assert_eq!(p0.p_vaddr, 0x40_0000);
    assert_eq!(p0.p_filesz, 0x200);
    assert_eq!(p0.p_memsz, 0x300);
    assert_eq!(p0.p_align, 0x1000);
    let p1 = &o.program_headers[1];
    assert_eq!(p1.p_type, ProgramHeaderType::PtDynamic);
    assert_eq!(p1.p_flag, ProgramHeaderFlag::Pfrw);
    assert_eq!(p1.p_offset, 0x1000);
    let names: Vec<&str> = o.section_headers.iter().map(|s| s.name.as_str()).collect();
    assert_eq!(names, vec!["", ".text", ".shstrtab"]);
    assert_eq!(o.section_headers[1].sh_type, SectionHeaderType::ProgBits);
    assert_eq!(o.section_headers[1].sh_flag, SectionHeaderFlag::ExecInstr);
    assert_eq!(o.section_headers[1].sh_offset, 0x40);
    assert_eq!(o.section_headers[1].sh_size, 0x10);
    assert_eq!(o.section_headers[0].sh_type, SectionHeaderType::Null);
}

#[test]
fn parsing_twice_gives_equal_objects() {
    let b = fuller_image();
    assert_eq!(Elf64::parse(&b), Elf64::parse(&b));
    let m = minimal_image();
    assert_eq!(Elf64::parse(&m), Elf64::parse(&m));
}

#[test]
fn string_index_out_of_range_fails() {
    let mut b = minimal_image();
    b[62] = 1;
    assert_eq!(Elf64::parse(&b), Err(ParserError::OutOfBounds));
}

#[test]
fn string_table_past_end_fails() {
    let mut b = minimal_image();
    b[64 + 32] = 2;
    assert_eq!(Elf64::parse(&b), Err(ParserError::OutOfBounds));
    let mut c = minimal_image();
    for i in 0..8 {
        c[64 + 24 + i] = 0xFF;
        c[64 + 32 + i] = 0xFF;
    }
    assert_eq!(Elf64::parse(&c), Err(ParserError::OutOfBounds));
}

#[test]
fn section_table_offset_past_end_fails() {
    let mut b = minimal_image();
    b[40] = 200;
    assert_eq!(Elf64::parse(&b), Err(ParserError::OutOfBounds));
}

#[test]
fn small_entry_sizes_fail() {
    let mut b = fuller_image();
    b[54] = 40;
    assert_eq!(Elf64::parse(&b), Err(ParserError::OutOfBounds));
    let mut c = minimal_image();
    c[58] = 32;
    assert_eq!(Elf64::parse(&c), Err(ParserError::OutOfBounds));
}

#[test]
fn name_offset_outside_table_fails() {
    let mut b = minimal_image();
    b[64] = 1;
    assert_eq!(Elf64::parse(&b), Err(ParserError::OutOfBounds));
}

#[test]
fn zero_sections_fail() {
    let mut b = minimal_image();
    b[60] = 0;
    assert_eq!(Elf64::parse(&b), Err(ParserError::OutOfBounds));
}

#[test]
fn names_resolve_from_table() {
    let table: &[u8] = b"\0.text\0.data\0";
    assert_eq!(get_section_name(table, 1), Ok(String::from(".text")));
    assert_eq!(get_section_name(table, 7), Ok(String::from(".data")));
    assert_eq!(get_section_name(table, 0), Ok(String::new()));
    assert_eq!(get_section_name(table, 3), Ok(String::from("ext")));
    assert_eq!(get_section_name(table, table.len()), Err(ParserError::OutOfBounds));
    assert_eq!(get_section_name(table, usize::MAX), Err(ParserError::OutOfBounds));
}

#[test]
fn name_without_terminator_runs_to_table_end() {
    let table: &[u8] = b"\0abc";
    assert_eq!(get_section_name(table, 1), Ok(String::from("abc")));
}

#[test]
fn invalid_utf8_name_is_replaced() {
    let table: &[u8] = &[0, b'a', 0xFF, b'b', 0];
    assert_eq!(get_section_name(table, 1), Ok(String::from("a\u{FFFD}b")));
}

#[test]
fn header_needs_sixty_four_bytes() {
    let b = minimal_image();
    assert!(Elf64Header::parse(&b[..64]).is_ok());
    assert_eq!(Elf64Header::parse(&b[..63]), Err(ParserError::OutOfBounds));
    assert_eq!(Elf64Header::parse(&[]), Err(ParserError::OutOfBounds));
}

#[test]
fn entries_need_their_full_size() {
    let mut p = Vec::new();
    program_header(&mut p, 1, 7, 0x10, 0x20);
    let ph = ProgramHeader64::parse(&p).unwrap();
    assert_eq!(ph.p_flag, ProgramHeaderFlag::Pfrwx);
    assert_eq!(ph.p_offset, 0x10);
    assert_eq!(ph.p_paddr, 0x20);
    assert_eq!(ProgramHeader64::parse(&p[..55]), Err(ParserError::OutOfBounds));
    let mut s = Vec::new();
    section_header(&mut s, 9, 2, 0x2, 0x30, 0x40);
    let sh = SectionHeader64::parse(&s).unwrap();
    assert_eq!(sh.sh_name, 9);
    assert_eq!(sh.name, "");
    assert_eq!(sh.sh_type, SectionHeaderType::SymTab);
    assert_eq!(sh.sh_flag, SectionHeaderFlag::Alloc);
    assert_eq!(sh.sh_size, 0x40);
    assert_eq!(SectionHeader64::parse(&s[..63]), Err(ParserError::OutOfBounds));
}

#[test]
fn magic_is_checked_on_request() {
    let mut b = minimal_image();
    assert!(Elf64Header::parse(&b).unwrap().is_valid_magic());
    b[1] = b'X';
    let h = Elf64Header::parse(&b).unwrap();
    assert!(!h.is_valid_magic());
    assert!(Elf64::parse(&b).is_ok());
}

#[test]
fn class_is_dispatched() {
    let b = minimal_image();
    assert_eq!(check_class(&mut ByteReader::new(&b)), ElfType::Elf64);
    let mut c = b.clone();
    c[4] = 1;
    assert_eq!(check_class(&mut ByteReader::new(&c)), ElfType::Elf32);
    c[4] = 3;
    assert_eq!(check_class(&mut ByteReader::new(&c)), ElfType::Invalid);
    let mut d = b.clone();
    d[0] = 0;
    assert_eq!(check_class(&mut ByteReader::new(&d)), ElfType::Invalid);
    assert_eq!(check_class(&mut ByteReader::new(&b[..4])), ElfType::Invalid);
}
