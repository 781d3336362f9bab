use vstd::prelude::*;

use crate::elf::{
    Elf64Header, ProgramHeader64, SectionHeader64, HEADER_SIZE, PROGRAM_HEADER_SIZE,
    SECTION_HEADER_SIZE,
};
use crate::names::{get_section_name, name_bytes, utf8_lossy};
use crate::reader::{le16, le32, le64, ByteReader};
use crate::ParserError;

verus! {

/// Number of program header entries that the header of `b` announces.
pub open spec fn phnum(b: Seq<u8>) -> int {
    le16(b, 56)
}

/// Size of one program header entry that the header of `b` announces.
pub open spec fn phentsize(b: Seq<u8>) -> int {
    le16(b, 54)
}

/// Offset of the section header table that the header of `b` announces.
pub open spec fn shoff(b: Seq<u8>) -> int {
    le64(b, 40)
}

/// Size of one section header entry that the header of `b` announces.
pub open spec fn shentsize(b: Seq<u8>) -> int {
    le16(b, 58)
}

/// Number of section header entries that the header of `b` announces.
pub open spec fn shnum(b: Seq<u8>) -> int {
    le16(b, 60)
}

/// Index of the section that holds the section names.
pub open spec fn shstrndx(b: Seq<u8>) -> int {
    le16(b, 62)
}

/// Where program header `i` starts: the table follows the file header directly.
pub open spec fn ph_start(b: Seq<u8>, i: int) -> int {
    HEADER_SIZE + i * phentsize(b)
}

/// Where section header `i` starts.
pub open spec fn sh_start(b: Seq<u8>, i: int) -> int {
    shoff(b) + i * shentsize(b)
}

/// File offset of the section-name string table.
pub open spec fn strtab_offset(b: Seq<u8>) -> int {
    le64(b, sh_start(b, shstrndx(b)) + 24)
}

/// Size of the section-name string table.
pub open spec fn strtab_size(b: Seq<u8>) -> int {
    le64(b, sh_start(b, shstrndx(b)) + 32)
}

/// The bytes of the section-name string table.
pub open spec fn string_table(b: Seq<u8>) -> Seq<u8> {
    b.subrange(strtab_offset(b), strtab_offset(b) + strtab_size(b))
}

/// Name offset of section header `i`.
pub open spec fn sh_name_at(b: Seq<u8>, i: int) -> int {
    le32(b, sh_start(b, i))
}

/// Whether `b` holds every byte that a parse reads: the file header, the program
/// and section header tables with entries large enough, the section-name string
/// table, and a start inside it for each name.
pub open spec fn parses(b: Seq<u8>) -> bool {
    &&& b.len() >= HEADER_SIZE
    &&& phnum(b) == 0 || (phentsize(b) >= PROGRAM_HEADER_SIZE && ph_start(b, phnum(b)) <= b.len())
    &&& shoff(b) <= b.len()
    &&& shnum(b) == 0 || (shentsize(b) >= SECTION_HEADER_SIZE && sh_start(b, shnum(b)) <= b.len())
    &&& shstrndx(b) < shnum(b)
    &&& strtab_offset(b) + strtab_size(b) <= b.len()
    &&& forall|i: int| 0 <= i < shnum(b) ==> #[trigger] sh_name_at(b, i) < strtab_size(b)
}

/// How far into the file image the bytes that a parse reads reach: the end of
/// the program header table, of the section header table or of the
/// section-name string table, whichever lies last.
pub open spec fn extent(b: Seq<u8>) -> int {
    let ph_end = ph_start(b, phnum(b));
    let sh_end = sh_start(b, shnum(b));
    let str_end = strtab_offset(b) + strtab_size(b);
    if ph_end >= sh_end && ph_end >= str_end {
        ph_end
    } else if sh_end >= str_end {
        sh_end
    } else {
        str_end
    }
}

/// A parsed object file: its header and both header tables, in file order.
#[derive(Debug, Clone, PartialEq, Eq)]
pub struct Elf64 {
    pub header: Elf64Header,
    pub program_headers: Vec<ProgramHeader64>,
    pub section_headers: Vec<SectionHeader64>,
}

impl Elf64 {
    /// This object is what the file image `b` encodes, section names resolved.
    pub open spec fn decodes(self, b: Seq<u8>) -> bool {
        &&& self.header.decodes(b)
        &&& self.program_headers@.len() == self.header.e_phnum
        &&& forall|i: int|
            0 <= i < self.program_headers@.len() ==> #[trigger] self.program_headers@[i].decodes_at(
                b,
                ph_start(b, i),
            )
        &&& self.section_headers@.len() == self.header.e_shnum
        &&& forall|i: int|
            0 <= i < self.section_headers@.len() ==> {
                &&& #[trigger] self.section_headers@[i].decodes_at(b, sh_start(b, i))
                &&& self.section_headers@[i].name@ == utf8_lossy(
                    name_bytes(string_table(b), self.section_headers@[i].sh_name as int),
                )
            }
    }

    /// The two objects hold the same values, field by field and name by name.
    pub open spec fn same_as(self, o: Elf64) -> bool {
        &&& self.header == o.header
        &&& self.program_headers@ == o.program_headers@
        &&& self.section_headers@.len() == o.section_headers@.len()
        &&& forall|i: int|
            0 <= i < self.section_headers@.len() ==> #[trigger] self.section_headers@[i].same_as(
                o.section_headers@[i],
            )
    }

    /// Parses a whole file image.
    pub fn parse(bytes: &[u8]) -> (r: Result<Self, ParserError>)
        ensures
            r is Ok <==> parses(bytes@),
            r matches Ok(o) ==> o.decodes(bytes@),
            r matches Ok(o) ==> o.program_headers@.len() == o.header.e_phnum
                && o.section_headers@.len() == o.header.e_shnum,
            r matches Err(e) ==> e == ParserError::OutOfBounds,
    {
        let ghost b = bytes@;
        let mut reader = ByteReader::new(bytes);
        let header_data = reader.read_bytes(HEADER_SIZE)?;
        let header = Elf64Header::parse(header_data)?;
        proof {
            assert(header_data@.subrange(0, 4) =~= b.subrange(0, 4));
            assert(header_data@.subrange(9, 16) =~= b.subrange(9, 16));
        }
        assert(header.decodes(b));
        let program_headers = read_program_headers(&mut reader, &header, bytes)?;
        let raw = read_section_headers(&header, bytes)?;
        let idx = header.e_shstrndx as usize;
        if idx >= raw.len() {
            return Err(ParserError::OutOfBounds);
        }
        let start = raw[idx].sh_offset;
        let size = raw[idx].sh_size;
        assert(raw@[idx as int].decodes_at(b, sh_start(b, idx as int)));
        if start > bytes.len() as u64 || size > bytes.len() as u64 - start {
            return Err(ParserError::OutOfBounds);
        }
        let table = vstd::slice::slice_subrange(bytes, start as usize, (start + size) as usize);
        assert(table@ == string_table(b));
        let section_headers = resolve_names(&raw, table, Ghost(b))?;
        Ok(Elf64 { header, program_headers, section_headers })
    }
}

/// Decodes the program header table, which `reader` stands at the start of.
fn read_program_headers(reader: &mut ByteReader, header: &Elf64Header, bytes: &[u8]) -> (r: Result<
    Vec<ProgramHeader64>,
    ParserError,
>)
    requires
        header.decodes(bytes@),
        bytes@.len() >= HEADER_SIZE,
        old(reader).wf(),
        old(reader).rest() == bytes@.subrange(HEADER_SIZE as int, bytes@.len() as int),
    ensures
        r is Ok <==> (phnum(bytes@) == 0 || (phentsize(bytes@) >= PROGRAM_HEADER_SIZE && ph_start(
            bytes@,
            phnum(bytes@),
        ) <= bytes@.len())),
        r matches Ok(v) ==> v@.len() == header.e_phnum && forall|j: int|
            0 <= j < v@.len() ==> #[trigger] v@[j].decodes_at(bytes@, ph_start(bytes@, j)),
        r matches Err(e) ==> e == ParserError::OutOfBounds,
{
    let ghost b = bytes@;
    let mut program_headers: Vec<ProgramHeader64> = Vec::new();
    let mut i: u16 = 0;
    assert(ph_start(b, 0) == HEADER_SIZE);
    while i < header.e_phnum
        invariant
            header.decodes(b),
            bytes@ == b,
            b.len() >= HEADER_SIZE,
            reader.wf(),
            i <= header.e_phnum,
            ph_start(b, i as int) <= b.len(),
            reader.rest() == b.subrange(ph_start(b, i as int), b.len() as int),
            i > 0 ==> phentsize(b) >= PROGRAM_HEADER_SIZE,
            program_headers@.len() == i,
            forall|j: int|
                0 <= j < i ==> #[trigger] program_headers@[j].decodes_at(b, ph_start(b, j)),
        decreases header.e_phnum - i,
    {
        proof {
            lemma_entry_step(i as int, phnum(b), phentsize(b));
        }
        let data = reader.read_bytes(header.e_phentsize as usize)?;
        let ph = ProgramHeader64::parse(data)?;
        proof {
            lemma_window(b, ph_start(b, i as int), phentsize(b), data@);
            assert(ph.decodes_at(b, ph_start(b, i as int)));
        }
        program_headers.push(ph);
        i += 1;
    }
    Ok(program_headers)
}

/// Decodes the section header table at its file offset; names stay empty.
fn read_section_headers(header: &Elf64Header, bytes: &[u8]) -> (r: Result<
    Vec<SectionHeader64>,
    ParserError,
>)
    requires
        header.decodes(bytes@),
        bytes@.len() >= HEADER_SIZE,
    ensures
        r is Ok <==> (shoff(bytes@) <= bytes@.len() && (shnum(bytes@) == 0 || (shentsize(bytes@)
            >= SECTION_HEADER_SIZE && sh_start(bytes@, shnum(bytes@)) <= bytes@.len()))),
        r matches Ok(v) ==> v@.len() == header.e_shnum && forall|j: int|
            0 <= j < v@.len() ==> #[trigger] v@[j].decodes_at(bytes@, sh_start(bytes@, j)),
        r matches Err(e) ==> e == ParserError::OutOfBounds,
{
    let ghost b = bytes@;
    if header.e_shoff > bytes.len() as u64 {
        return Err(ParserError::OutOfBounds);
    }
    let mut reader = ByteReader::new(bytes);
    reader.skip(header.e_shoff as usize)?;
    let mut raw: Vec<SectionHeader64> = Vec::new();
    let mut k: u16 = 0;
    assert(sh_start(b, 0) == shoff(b));
    while k < header.e_shnum
        invariant
            header.decodes(b),
            bytes@ == b,
            shoff(b) <= b.len(),
            reader.wf(),
            k <= header.e_shnum,
            sh_start(b, k as int) <= b.len(),
            reader.rest() == b.subrange(sh_start(b, k as int), b.len() as int),
            k > 0 ==> shentsize(b) >= SECTION_HEADER_SIZE,
            raw@.len() == k,
            forall|j: int| 0 <= j < k ==> #[trigger] raw@[j].decodes_at(b, sh_start(b, j)),
        decreases header.e_shnum - k,
    {
        proof {
            lemma_entry_step(k as int, shnum(b), shentsize(b));
        }
        let data = reader.read_bytes(header.e_shentsize as usize)?;
        let sh = SectionHeader64::parse(data)?;
        proof {
            lemma_window(b, sh_start(b, k as int), shentsize(b), data@);
            lemma_section_moved(sh, data@, b, sh_start(b, k as int));
        }
        raw.push(sh);
        k += 1;
    }
    Ok(raw)
}

/// Gives each section header its name out of `string_table`.
fn resolve_names(raw: &Vec<SectionHeader64>, string_table: &[u8], Ghost(b): Ghost<Seq<u8>>) -> (r:
    Result<Vec<SectionHeader64>, ParserError>)
    requires
        forall|m: int| 0 <= m < raw@.len() ==> #[trigger] raw@[m].decodes_at(b, sh_start(b, m)),
    ensures
        r is Ok <==> forall|m: int|
            0 <= m < raw@.len() ==> #[trigger] sh_name_at(b, m) < string_table@.len(),
        r matches Ok(v) ==> v@.len() == raw@.len() && forall|m: int|
            0 <= m < v@.len() ==> {
                &&& #[trigger] v@[m].decodes_at(b, sh_start(b, m))
                &&& v@[m].name@ == utf8_lossy(name_bytes(string_table@, v@[m].sh_name as int))
            },
        r matches Err(e) ==> e == ParserError::OutOfBounds,
{
    let mut section_headers: Vec<SectionHeader64> = Vec::new();
    let mut j: usize = 0;
    while j < raw.len()
        invariant
            forall|m: int| 0 <= m < raw@.len() ==> #[trigger] raw@[m].decodes_at(b, sh_start(b, m)),
            j <= raw@.len(),
            section_headers@.len() == j,
            forall|m: int| 0 <= m < j ==> #[trigger] sh_name_at(b, m) < string_table@.len(),
            forall|m: int|
                0 <= m < j ==> {
                    &&& #[trigger] section_headers@[m].decodes_at(b, sh_start(b, m))
                    &&& section_headers@[m].name@ == utf8_lossy(
                        name_bytes(string_table@, section_headers@[m].sh_name as int),
                    )
                },
        decreases raw@.len() - j,
    {
        assert(raw@[j as int].decodes_at(b, sh_start(b, j as int)));
        assert(sh_name_at(b, j as int) == raw@[j as int].sh_name);
        let name = get_section_name(string_table, raw[j].sh_name as usize)?;
        let sh = raw[j].with_name(name);
        section_headers.push(sh);
        j += 1;
    }
    Ok(section_headers)
}

/// Parsing is a function of the bytes: two objects that both decode the same
/// file image are structurally equal.
pub proof fn lemma_parse_deterministic(b: Seq<u8>, o1: Elf64, o2: Elf64)
    requires
        o1.decodes(b),
        o2.decodes(b),
    ensures
        o1.same_as(o2),
{
    assert(o1.header.magic =~= o2.header.magic);
    assert(o1.header.padding =~= o2.header.padding);
    assert forall|i: int| 0 <= i < o1.program_headers@.len() implies o1.program_headers@[i]
        == o2.program_headers@[i] by {
        assert(o1.program_headers@[i].decodes_at(b, ph_start(b, i)));
        assert(o2.program_headers@[i].decodes_at(b, ph_start(b, i)));
    }
    assert(o1.program_headers@ =~= o2.program_headers@);
    assert forall|i: int| 0 <= i < o1.section_headers@.len() implies #[trigger] o1.section_headers@[
        i].same_as(o2.section_headers@[i]) by {
        assert(o1.section_headers@[i].decodes_at(b, sh_start(b, i)));
        assert(o2.section_headers@[i].decodes_at(b, sh_start(b, i)));
    }
}

/// A prefix of a parsable file image that stops before the last byte that a
/// parse reads does not parse.
pub proof fn lemma_truncated_image_fails(b: Seq<u8>, k: int)
    requires
        parses(b),
        0 <= k < extent(b),
    ensures
        !parses(b.subrange(0, k)),
{
    let p = b.subrange(0, k);
    if k >= HEADER_SIZE {
        assert(phnum(p) == phnum(b));
        assert(phentsize(p) == phentsize(b));
        assert(shoff(p) == shoff(b));
        assert(shentsize(p) == shentsize(b));
        assert(shnum(p) == shnum(b));
        assert(shstrndx(p) == shstrndx(b));
        if sh_start(b, shnum(b)) <= k && ph_start(b, phnum(b)) <= k {
            let e = sh_start(b, shstrndx(b));
            lemma_entry_step(shstrndx(b), shnum(b), shentsize(b));
            assert(e + 40 <= k);
            assert(strtab_offset(p) == strtab_offset(b));
            assert(strtab_size(p) == strtab_size(b));
        }
    }
}

/// A prefix of a parsable file image that keeps every byte that a parse reads
/// still parses: the bytes past the extent are never looked at.
pub proof fn lemma_prefix_to_extent_parses(b: Seq<u8>, k: int)
    requires
        parses(b),
        extent(b) <= k <= b.len(),
    ensures
        parses(b.subrange(0, k)),
{
    let p = b.subrange(0, k);
    assert(ph_start(b, phnum(b)) >= HEADER_SIZE) by (nonlinear_arith)
        requires
            phnum(b) >= 0,
            phentsize(b) >= 0,
    ;
    assert(phnum(p) == phnum(b));
    assert(phentsize(p) == phentsize(b));
    assert(shoff(p) == shoff(b));
    assert(shentsize(p) == shentsize(b));
    assert(shnum(p) == shnum(b));
    assert(shstrndx(p) == shstrndx(b));
    lemma_entry_step(shstrndx(b), shnum(b), shentsize(b));
    assert(strtab_offset(p) == strtab_offset(b));
    assert(strtab_size(p) == strtab_size(b));
    assert forall|i: int| 0 <= i < shnum(p) implies #[trigger] sh_name_at(p, i) < strtab_size(p) by {
        lemma_entry_step(i, shnum(b), shentsize(b));
        assert(sh_name_at(b, i) < strtab_size(b));
        assert(sh_name_at(p, i) == sh_name_at(b, i));
    }
}

/// Stepping from entry `i` to entry `i + 1` of a table of `n` entries of `size` bytes.
proof fn lemma_entry_step(i: int, n: int, size: int)
    requires
        0 <= i < n,
        0 <= size,
    ensures
        (i + 1) * size == i * size + size,
        (i + 1) * size <= n * size,
{
    assert((i + 1) * size == i * size + size) by (nonlinear_arith);
    assert((i + 1) * size <= n * size) by (nonlinear_arith)
        requires
            i + 1 <= n,
            0 <= size,
    ;
}

/// A section header decoded from a copy of the bytes of `b` at `at` is what
/// `b` encodes there.
proof fn lemma_section_moved(sh: SectionHeader64, w: Seq<u8>, b: Seq<u8>, at: int)
    requires
        sh.decodes_at(w, 0),
        w.len() >= SECTION_HEADER_SIZE,
        forall|m: int| 0 <= m < SECTION_HEADER_SIZE ==> #[trigger] w[m] == b[at + m],
    ensures
        sh.decodes_at(b, at),
{
    assert(le32(w, 0) == le32(b, at));
    assert(le32(w, 4) == le32(b, at + 4));
    assert(le64(w, 8) == le64(b, at + 8));
    assert(le64(w, 16) == le64(b, at + 16));
    assert(le64(w, 24) == le64(b, at + 24));
    assert(le64(w, 32) == le64(b, at + 32));
    assert(le32(w, 40) == le32(b, at + 40));
    assert(le32(w, 44) == le32(b, at + 44));
    assert(le64(w, 48) == le64(b, at + 48));
    assert(le64(w, 56) == le64(b, at + 56));
}

/// The bytes that a cursor at `start` hands out for the next `len` bytes are
/// those of `b` from `start` on.
proof fn lemma_window(b: Seq<u8>, start: int, len: int, w: Seq<u8>)
    requires
        0 <= start,
        0 <= len,
        start + len <= b.len(),
        w == b.subrange(start, b.len() as int).subrange(0, len),
    ensures
        forall|m: int| 0 <= m < len ==> #[trigger] w[m] == b[start + m],
{
}

} // verus!
