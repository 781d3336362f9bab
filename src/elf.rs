use vstd::prelude::*;

use crate::reader::{le16, le32, le64, ByteReader};
use crate::ParserError;

verus! {

/// Placeholder for the 32-bit layout, which this library does not decode.
#[derive(Debug, Clone, Copy, PartialEq, Eq)]
pub struct Elf32 {}

/// Which layout a file image declares.
#[derive(Debug, Clone, Copy, PartialEq, Eq, Structural)]
pub enum ElfType {
    Elf32,
    Elf64,
    Invalid,
}

/// The layout that the identification bytes at the start of `b` declare.
pub open spec fn class_of(b: Seq<u8>) -> ElfType {
    if b.len() < 5 || b.subrange(0, 4) != elf_magic() {
        ElfType::Invalid
    } else if b[4] == 1 {
        ElfType::Elf32
    } else if b[4] == 2 {
        ElfType::Elf64
    } else {
        ElfType::Invalid
    }
}

/// Reads the identification bytes and tells which layout they declare.
pub fn check_class(reader: &mut ByteReader) -> (r: ElfType)
    requires
        old(reader).wf(),
    ensures
        final(reader).wf(),
        r == class_of(old(reader).rest()),
{
    let ghost start = reader.rest();
    let magic = match reader.read_bytes(4) {
        Ok(m) => m,
        Err(_) => {
            return ElfType::Invalid;
        },
    };
    if !(magic[0] == 0x7F && magic[1] == 0x45 && magic[2] == 0x4C && magic[3] == 0x46) {
        proof {
            if start.subrange(0, 4) == elf_magic() {
                assert(magic@[0] == start.subrange(0, 4)[0]);
                assert(magic@[3] == start.subrange(0, 4)[3]);
            }
        }
        return ElfType::Invalid;
    }
    assert(start.subrange(0, 4) =~= elf_magic());
    match reader.read_byte() {
        Ok(1) => ElfType::Elf32,
        Ok(2) => ElfType::Elf64,
        _ => ElfType::Invalid,
    }
}

/// Segment kind of a program header.
#[derive(Debug, Clone, Copy, PartialEq, Eq, Structural)]
pub enum ProgramHeaderType {
    PtNull,
    PtLoad,
    PtDynamic,
    Undefined,
}

/// Segment permissions: execute (1), write (2) and read (4) combined.
#[derive(Debug, Clone, Copy, PartialEq, Eq, Structural)]
pub enum ProgramHeaderFlag {
    Pfx,
    Pfw,
    Pfwx,
    Pfr,
    Pfrx,
    Pfrw,
    Pfrwx,
    Undefined,
}

/// Section attribute, decoded as one value out of the standard bits.
#[derive(Debug, Clone, Copy, PartialEq, Eq, Structural)]
pub enum SectionHeaderFlag {
    Writable,
    Alloc,
    ExecInstr,
    Merge,
    Strings,
    InfoLink,
    LinkOrder,
    OsNonConforming,
    Group,
    Tls,
    MaskOs,
    MaskProc,
    Ordered,
    Exclude,
    Undefined,
}

/// Section kind.
#[derive(Debug, Clone, Copy, PartialEq, Eq, Structural)]
pub enum SectionHeaderType {
    Null,
    ProgBits,
    SymTab,
    StrTab,
    Rela,
    Hash,
    Dynamic,
    Note,
    NoBits,
    Rel,
    ShLib,
    DynSym,
    InitArray,
    FiniArray,
    PreInitArray,
    Group,
    SymTabShndx,
    Num,
    LoOs,
    Undefined,
}

/// Object file kind.
#[derive(Debug, Clone, Copy, PartialEq, Eq, Structural)]
pub enum ElfFileType {
    EtNone,
    EtRel,
    EtExec,
    EtDyn,
    EtCore,
    EtOsSpec,
    EtProcSpec,
    Undefined,
}

pub open spec fn file_type_of(t: u16) -> ElfFileType {
    if t == 0 {
        ElfFileType::EtNone
    } else if t == 1 {
        ElfFileType::EtRel
    } else if t == 2 {
        ElfFileType::EtExec
    } else if t == 3 {
        ElfFileType::EtDyn
    } else if t == 4 {
        ElfFileType::EtCore
    } else if 0xFE00 <= t <= 0xFEFF {
        ElfFileType::EtOsSpec
    } else if 0xFF00 <= t {
        ElfFileType::EtProcSpec
    } else {
        ElfFileType::Undefined
    }
}

pub open spec fn segment_type_of(t: u32) -> ProgramHeaderType {
    if t == 0 {
        ProgramHeaderType::PtNull
    } else if t == 1 {
        ProgramHeaderType::PtLoad
    } else if t == 2 {
        ProgramHeaderType::PtDynamic
    } else {
        ProgramHeaderType::Undefined
    }
}

pub open spec fn segment_flag_of(f: u32) -> ProgramHeaderFlag {
    if f == 1 {
        ProgramHeaderFlag::Pfx
    } else if f == 2 {
        ProgramHeaderFlag::Pfw
    } else if f == 3 {
        ProgramHeaderFlag::Pfwx
    } else if f == 4 {
        ProgramHeaderFlag::Pfr
    } else if f == 5 {
        ProgramHeaderFlag::Pfrx
    } else if f == 6 {
        ProgramHeaderFlag::Pfrw
    } else if f == 7 {
        ProgramHeaderFlag::Pfrwx
    } else {
        ProgramHeaderFlag::Undefined
    }
}

pub open spec fn section_flag_of(f: u64) -> SectionHeaderFlag {
    if f == 0x1 {
        SectionHeaderFlag::Writable
    } else if f == 0x2 {
        SectionHeaderFlag::Alloc
    } else if f == 0x4 {
        SectionHeaderFlag::ExecInstr
    } else if f == 0x10 {
        SectionHeaderFlag::Merge
    } else if f == 0x20 {
        SectionHeaderFlag::Strings
    } else if f == 0x40 {
        SectionHeaderFlag::InfoLink
    } else if f == 0x80 {
        SectionHeaderFlag::LinkOrder
    } else if f == 0x100 {
        SectionHeaderFlag::OsNonConforming
    } else if f == 0x200 {
        SectionHeaderFlag::Group
    } else if f == 0x400 {
        SectionHeaderFlag::Tls
    } else if f == 0x0FF0_0000 {
        SectionHeaderFlag::MaskOs
    } else if f == 0xF000_0000 {
        SectionHeaderFlag::MaskProc
    } else if f == 0x400_0000 {
        SectionHeaderFlag::Ordered
    } else if f == 0x800_0000 {
        SectionHeaderFlag::Exclude
    } else {
        SectionHeaderFlag::Undefined
    }
}

/// The section flag values that have a name.
pub open spec fn is_known_section_flag(f: u64) -> bool {
    f == 0x1 || f == 0x2 || f == 0x4 || f == 0x10 || f == 0x20 || f == 0x40 || f == 0x80 || f
        == 0x100 || f == 0x200 || f == 0x400 || f == 0x0FF0_0000 || f == 0xF000_0000 || f
        == 0x400_0000 || f == 0x800_0000
}

pub open spec fn section_type_of(t: u32) -> SectionHeaderType {
    if t == 0x0 {
        SectionHeaderType::Null
    } else if t == 0x1 {
        SectionHeaderType::ProgBits
    } else if t == 0x2 {
        SectionHeaderType::SymTab
    } else if t == 0x3 {
        SectionHeaderType::StrTab
    } else if t == 0x4 {
        SectionHeaderType::Rela
    } else if t == 0x5 {
        SectionHeaderType::Hash
    } else if t == 0x6 {
        SectionHeaderType::Dynamic
    } else if t == 0x7 {
        SectionHeaderType::Note
    } else if t == 0x8 {
        SectionHeaderType::NoBits
    } else if t == 0x9 {
        SectionHeaderType::Rel
    } else if t == 0xA {
        SectionHeaderType::ShLib
    } else if t == 0xB {
        SectionHeaderType::DynSym
    } else if t == 0xE {
        SectionHeaderType::InitArray
    } else if t == 0xF {
        SectionHeaderType::FiniArray
    } else if t == 0x10 {
        SectionHeaderType::PreInitArray
    } else if t == 0x11 {
        SectionHeaderType::Group
    } else if t == 0x12 {
        SectionHeaderType::SymTabShndx
    } else if t == 0x13 {
        SectionHeaderType::Num
    } else if t == 0x6000_0000 {
        SectionHeaderType::LoOs
    } else {
        SectionHeaderType::Undefined
    }
}

/// The section type values that have a name.
pub open spec fn is_known_section_type(t: u32) -> bool {
    t <= 0xB || (0xE <= t <= 0x13) || t == 0x6000_0000
}

/// A decoded program header table entry.
#[derive(Debug, Clone, Copy, PartialEq, Eq)]
pub struct ProgramHeader64 {
    pub p_type: ProgramHeaderType,
    pub p_flag: ProgramHeaderFlag,
    pub p_offset: u64,
    pub p_vaddr: u64,
    pub p_paddr: u64,
    pub p_filesz: u64,
    pub p_memsz: u64,
    pub p_align: u64,
}

/// The entry size that a 64-bit program header needs.
pub const PROGRAM_HEADER_SIZE: usize = 56;

impl ProgramHeader64 {
    /// This entry is what the bytes of `b` at `at` encode.
    pub open spec fn decodes_at(self, b: Seq<u8>, at: int) -> bool {
        &&& self.p_type == segment_type_of(le32(b, at) as u32)
        &&& self.p_flag == segment_flag_of(le32(b, at + 4) as u32)
        &&& self.p_offset == le64(b, at + 8)
        &&& self.p_vaddr == le64(b, at + 16)
        &&& self.p_paddr == le64(b, at + 24)
        &&& self.p_filesz == le64(b, at + 32)
        &&& self.p_memsz == le64(b, at + 40)
        &&& self.p_align == le64(b, at + 48)
    }

    /// Decodes one entry from the start of `data`.
    pub fn parse(data: &[u8]) -> (r: Result<Self, ParserError>)
        ensures
            data@.len() >= PROGRAM_HEADER_SIZE ==> (r matches Ok(h) && h.decodes_at(data@, 0)),
            data@.len() < PROGRAM_HEADER_SIZE ==> r == Err::<Self, ParserError>(
                ParserError::OutOfBounds,
            ),
    {
        let mut reader = ByteReader::new(data);
        let p_type = ProgramHeader64::read_type(reader.read_u32()?);
        let p_flag = ProgramHeader64::read_flag(reader.read_u32()?);
        let p_offset = reader.read_u64()?;
        let p_vaddr = reader.read_u64()?;
        let p_paddr = reader.read_u64()?;
        let p_filesz = reader.read_u64()?;
        let p_memsz = reader.read_u64()?;
        let p_align = reader.read_u64()?;
        Ok(ProgramHeader64 { p_type, p_flag, p_offset, p_vaddr, p_paddr, p_filesz, p_memsz, p_align })
    }

    pub fn read_type(data: u32) -> (r: ProgramHeaderType)
        ensures
            r == segment_type_of(data),
            data > 2 ==> r == ProgramHeaderType::Undefined,
    {
        match data {
            0 => ProgramHeaderType::PtNull,
            1 => ProgramHeaderType::PtLoad,
            2 => ProgramHeaderType::PtDynamic,
            _ => ProgramHeaderType::Undefined,
        }
    }

    pub fn read_flag(flag: u32) -> (r: ProgramHeaderFlag)
        ensures
            r == segment_flag_of(flag),
            (flag == 0 || flag > 7) ==> r == ProgramHeaderFlag::Undefined,
    {
        match flag {
            1 => ProgramHeaderFlag::Pfx,
            2 => ProgramHeaderFlag::Pfw,
            3 => ProgramHeaderFlag::Pfwx,
            4 => ProgramHeaderFlag::Pfr,
            5 => ProgramHeaderFlag::Pfrx,
            6 => ProgramHeaderFlag::Pfrw,
            7 => ProgramHeaderFlag::Pfrwx,
            _ => ProgramHeaderFlag::Undefined,
        }
    }
}

/// A decoded section header table entry with its resolved name.
#[derive(Debug, Clone, PartialEq, Eq)]
pub struct SectionHeader64 {
    pub sh_name: u32,
    pub name: String,
    pub sh_type: SectionHeaderType,
    pub sh_flag: SectionHeaderFlag,
    pub sh_addr: u64,
    pub sh_offset: u64,
    pub sh_size: u64,
    pub sh_link: u32,
    pub sh_info: u32,
    pub sh_addralign: u64,
    pub sh_entsize: u64,
}

/// The entry size that a 64-bit section header needs.
pub const SECTION_HEADER_SIZE: usize = 64;

impl SectionHeader64 {
    /// Every field but the name is what the bytes of `b` at `at` encode.
    pub open spec fn decodes_at(self, b: Seq<u8>, at: int) -> bool {
        &&& self.sh_name == le32(b, at)
        &&& self.sh_type == section_type_of(le32(b, at + 4) as u32)
        &&& self.sh_flag == section_flag_of(le64(b, at + 8) as u64)
        &&& self.sh_addr == le64(b, at + 16)
        &&& self.sh_offset == le64(b, at + 24)
        &&& self.sh_size == le64(b, at + 32)
        &&& self.sh_link == le32(b, at + 40)
        &&& self.sh_info == le32(b, at + 44)
        &&& self.sh_addralign == le64(b, at + 48)
        &&& self.sh_entsize == le64(b, at + 56)
    }

    /// The two entries hold the same values and the same name.
    pub open spec fn same_as(self, o: SectionHeader64) -> bool {
        &&& self.sh_name == o.sh_name
        &&& self.name@ == o.name@
        &&& self.sh_type == o.sh_type
        &&& self.sh_flag == o.sh_flag
        &&& self.sh_addr == o.sh_addr
        &&& self.sh_offset == o.sh_offset
        &&& self.sh_size == o.sh_size
        &&& self.sh_link == o.sh_link
        &&& self.sh_info == o.sh_info
        &&& self.sh_addralign == o.sh_addralign
        &&& self.sh_entsize == o.sh_entsize
    }

    /// Decodes one entry from the start of `data`; its name is left empty.
    pub fn parse(data: &[u8]) -> (r: Result<Self, ParserError>)
        ensures
            data@.len() >= SECTION_HEADER_SIZE ==> (r matches Ok(h) && h.decodes_at(data@, 0)
                && h.name@ == Seq::<char>::empty()),
            data@.len() < SECTION_HEADER_SIZE ==> r == Err::<Self, ParserError>(
                ParserError::OutOfBounds,
            ),
    {
        let mut reader = ByteReader::new(data);
        let sh_name = reader.read_u32()?;
        let name = String::new();
        let sh_type = SectionHeader64::read_type(reader.read_u32()?);
        let sh_flag = SectionHeader64::read_flags(reader.read_u64()?);
        let sh_addr = reader.read_u64()?;
        let sh_offset = reader.read_u64()?;
        let sh_size = reader.read_u64()?;
        let sh_link = reader.read_u32()?;
        let sh_info = reader.read_u32()?;
        let sh_addralign = reader.read_u64()?;
        let sh_entsize = reader.read_u64()?;
        Ok(SectionHeader64 {
            sh_name,
            name,
            sh_type,
            sh_flag,
            sh_addr,
            sh_offset,
            sh_size,
            sh_link,
            sh_info,
            sh_addralign,
            sh_entsize,
        })
    }

    pub fn read_flags(flag: u64) -> (r: SectionHeaderFlag)
        ensures
            r == section_flag_of(flag),
            !is_known_section_flag(flag) ==> r == SectionHeaderFlag::Undefined,
    {
        match flag {
            0x1 => SectionHeaderFlag::Writable,
            0x2 => SectionHeaderFlag::Alloc,
            0x4 => SectionHeaderFlag::ExecInstr,
            0x10 => SectionHeaderFlag::Merge,
            0x20 => SectionHeaderFlag::Strings,
            0x40 => SectionHeaderFlag::InfoLink,
            0x80 => SectionHeaderFlag::LinkOrder,
            0x100 => SectionHeaderFlag::OsNonConforming,
            0x200 => SectionHeaderFlag::Group,
            0x400 => SectionHeaderFlag::Tls,
            0x0FF0_0000 => SectionHeaderFlag::MaskOs,
            0xF000_0000 => SectionHeaderFlag::MaskProc,
            0x400_0000 => SectionHeaderFlag::Ordered,
            0x800_0000 => SectionHeaderFlag::Exclude,
            _ => SectionHeaderFlag::Undefined,
        }
    }

    pub fn read_type(data: u32) -> (r: SectionHeaderType)
        ensures
            r == section_type_of(data),
            !is_known_section_type(data) ==> r == SectionHeaderType::Undefined,
    {
        match data {
            0x0 => SectionHeaderType::Null,
            0x1 => SectionHeaderType::ProgBits,
            0x2 => SectionHeaderType::SymTab,
            0x3 => SectionHeaderType::StrTab,
            0x4 => SectionHeaderType::Rela,
            0x5 => SectionHeaderType::Hash,
            0x6 => SectionHeaderType::Dynamic,
            0x7 => SectionHeaderType::Note,
            0x8 => SectionHeaderType::NoBits,
            0x9 => SectionHeaderType::Rel,
            0xA => SectionHeaderType::ShLib,
            0xB => SectionHeaderType::DynSym,
            0xE => SectionHeaderType::InitArray,
            0xF => SectionHeaderType::FiniArray,
            0x10 => SectionHeaderType::PreInitArray,
            0x11 => SectionHeaderType::Group,
            0x12 => SectionHeaderType::SymTabShndx,
            0x13 => SectionHeaderType::Num,
            0x6000_0000 => SectionHeaderType::LoOs,
            _ => SectionHeaderType::Undefined,
        }
    }

    /// The same entry under the given name.
    pub(crate) fn with_name(&self, name: String) -> (r: SectionHeader64)
        ensures
            r.name == name,
            r.sh_name == self.sh_name,
            r.sh_type == self.sh_type,
            r.sh_flag == self.sh_flag,
            r.sh_addr == self.sh_addr,
            r.sh_offset == self.sh_offset,
            r.sh_size == self.sh_size,
            r.sh_link == self.sh_link,
            r.sh_info == self.sh_info,
            r.sh_addralign == self.sh_addralign,
            r.sh_entsize == self.sh_entsize,
    {
        SectionHeader64 {
            sh_name: self.sh_name,
            name,
            sh_type: self.sh_type,
            sh_flag: self.sh_flag,
            sh_addr: self.sh_addr,
            sh_offset: self.sh_offset,
            sh_size: self.sh_size,
            sh_link: self.sh_link,
            sh_info: self.sh_info,
            sh_addralign: self.sh_addralign,
            sh_entsize: self.sh_entsize,
        }
    }
}

/// The decoded file header.
#[derive(Debug, Clone, Copy, PartialEq, Eq)]
pub struct Elf64Header {
    pub magic: [u8; 4],
    pub class: u8,
    pub endianness: u8,
    pub version: u8,
    pub abi: u8,
    pub abi_version: u8,
    pub padding: [u8; 7],
    pub e_type: ElfFileType,
    pub machine: u16,
    pub e_version: u32,
    pub e_entry: u64,
    pub e_phoff: u64,
    pub e_shoff: u64,
    pub e_flags: u32,
    pub e_ehsize: u16,
    pub e_phentsize: u16,
    pub e_phnum: u16,
    pub e_shentsize: u16,
    pub e_shnum: u16,
    pub e_shstrndx: u16,
}

/// The size of the file header.
pub const HEADER_SIZE: usize = 64;

/// The identification bytes every ELF file starts with.
pub open spec fn elf_magic() -> Seq<u8> {
    seq![0x7Fu8, 0x45u8, 0x4Cu8, 0x46u8]
}

impl Elf64Header {
    /// This header is what the first 64 bytes of `b` encode.
    pub open spec fn decodes(self, b: Seq<u8>) -> bool {
        &&& self.magic@ == b.subrange(0, 4)
        &&& self.class == b[4]
        &&& self.endianness == b[5]
        &&& self.version == b[6]
        &&& self.abi == b[7]
        &&& self.abi_version == b[8]
        &&& self.padding@ == b.subrange(9, 16)
        &&& self.e_type == file_type_of(le16(b, 16) as u16)
        &&& self.machine == le16(b, 18)
        &&& self.e_version == le32(b, 20)
        &&& self.e_entry == le64(b, 24)
        &&& self.e_phoff == le64(b, 32)
        &&& self.e_shoff == le64(b, 40)
        &&& self.e_flags == le32(b, 48)
        &&& self.e_ehsize == le16(b, 52)
        &&& self.e_phentsize == le16(b, 54)
        &&& self.e_phnum == le16(b, 56)
        &&& self.e_shentsize == le16(b, 58)
        &&& self.e_shnum == le16(b, 60)
        &&& self.e_shstrndx == le16(b, 62)
    }

    /// Decodes the file header from the start of `data`, without validating it.
    pub fn parse(data: &[u8]) -> (r: Result<Self, ParserError>)
        ensures
            data@.len() >= HEADER_SIZE ==> (r matches Ok(h) && h.decodes(data@)),
            data@.len() < HEADER_SIZE ==> r == Err::<Self, ParserError>(ParserError::OutOfBounds),
    {
        if data.len() < HEADER_SIZE {
            return Err(ParserError::OutOfBounds);
        }
        let mut reader = ByteReader::new(data);
        let m = reader.read_bytes(4)?;
        let magic: [u8; 4] = [m[0], m[1], m[2], m[3]];
        let class = reader.read_byte()?;
        let endianness = reader.read_byte()?;
        let version = reader.read_byte()?;
        let abi = reader.read_byte()?;
        let abi_version = reader.read_byte()?;
        let p = reader.read_bytes(7)?;
        let padding: [u8; 7] = [p[0], p[1], p[2], p[3], p[4], p[5], p[6]];
        let e_type = Elf64Header::read_type(reader.read_u16()?);
        let machine = reader.read_u16()?;
        let e_version = reader.read_u32()?;
        let e_entry = reader.read_u64()?;
        let e_phoff = reader.read_u64()?;
        let e_shoff = reader.read_u64()?;
        let e_flags = reader.read_u32()?;
        let e_ehsize = reader.read_u16()?;
        let e_phentsize = reader.read_u16()?;
        let e_phnum = reader.read_u16()?;
        let e_shentsize = reader.read_u16()?;
        let e_shnum = reader.read_u16()?;
        let e_shstrndx = reader.read_u16()?;
        proof {
            assert(magic@ =~= data@.subrange(0, 4));
            assert(padding@ =~= data@.subrange(9, 16));
        }
        Ok(Elf64Header {
            magic,
            class,
            endianness,
            version,
            abi,
            abi_version,
            padding,
            e_type,
            machine,
            e_version,
            e_entry,
            e_phoff,
            e_shoff,
            e_flags,
            e_ehsize,
            e_phentsize,
            e_phnum,
            e_shentsize,
            e_shnum,
            e_shstrndx,
        })
    }

    pub fn read_type(data: u16) -> (r: ElfFileType)
        ensures
            r == file_type_of(data),
            (4 < data < 0xFE00) ==> r == ElfFileType::Undefined,
    {
        match data {
            0 => ElfFileType::EtNone,
            1 => ElfFileType::EtRel,
            2 => ElfFileType::EtExec,
            3 => ElfFileType::EtDyn,
            4 => ElfFileType::EtCore,
            0xFE00..=0xFEFF => ElfFileType::EtOsSpec,
            0xFF00..=0xFFFF => ElfFileType::EtProcSpec,
            _ => ElfFileType::Undefined,
        }
    }

    /// Whether the header starts with the ELF identification bytes.
    pub fn is_valid_magic(&self) -> (r: bool)
        ensures
            r == (self.magic@ == elf_magic()),
    {
        let ok = self.magic[0] == 0x7F && self.magic[1] == 0x45 && self.magic[2] == 0x4C
            && self.magic[3] == 0x46;
        proof {
            if ok {
                assert(self.magic@ =~= elf_magic());
            }
        }
        ok
    }
}

} // verus!
