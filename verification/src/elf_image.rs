//! Reading the program headers of an ELF image: the header is decoded by
//! the `elf` crate, and the loader keeps the segments it must place in
//! memory (`PT_LOAD` and `PT_INTERP`).

use vstd::prelude::*;
use vstd::slice::slice_subrange;
use elf::endian::AnyEndian;
use elf::file::{Class, FileHeader};
use elf::parse::ParseAt;
use elf::segment::{ProgramHeader, SegmentTable};

verus! {

/// Why an ELF image could not be read.
#[derive(Debug, Clone, Copy, PartialEq, Eq, Structural)]
pub enum LoadError {
    /// The image ends before a structure it must hold.
    UnexpectedEof,
    /// A structure of the image is malformed.
    InvalidData,
}

/// Bytes read for the ELF header.
pub const ELF_HEAD_BUF_SIZE: usize = 256;

/// Length of `e_ident`.
pub const ELF_IDENT_LEN: usize = 16;

/// The largest program header table that is accepted: one 4 KiB page.
pub const MAX_PHDR_TABLE_SIZE: usize = 4096;

/// `p_type` of a loadable segment.
pub const PT_LOAD: u32 = 1;

/// `p_type` of the segment naming the program interpreter.
pub const PT_INTERP: u32 = 3;

/// What `e_ident` says: word size, byte order and OS ABI.
#[derive(Debug, Clone, Copy, PartialEq, Eq, Structural)]
pub struct ElfIdent {
    pub is64: bool,
    pub little: bool,
    pub osabi: u8,
    pub abiversion: u8,
}

/// The fields of the ELF header that follow `e_ident`.
#[derive(Debug, Clone, Copy, PartialEq, Eq, Structural)]
pub struct HeaderFields {
    pub e_type: u16,
    pub e_machine: u16,
    pub version: u32,
    pub e_entry: u64,
    pub e_phoff: u64,
    pub e_shoff: u64,
    pub e_flags: u32,
    pub e_ehsize: u16,
    pub e_phentsize: u16,
    pub e_phnum: u16,
    pub e_shentsize: u16,
    pub e_shnum: u16,
    pub e_shstrndx: u16,
}

/// A decoded ELF header.
#[derive(Debug, Clone, Copy, PartialEq, Eq, Structural)]
pub struct ElfHeader {
    pub ident: ElfIdent,
    pub fields: HeaderFields,
}

/// One program header.
#[derive(Debug, Clone, Copy, PartialEq, Eq, Structural)]
pub struct Segment {
    pub p_type: u32,
    pub p_offset: u64,
    pub p_vaddr: u64,
    pub p_paddr: u64,
    pub p_filesz: u64,
    pub p_memsz: u64,
    pub p_flags: u32,
    pub p_align: u64,
}

/// The program headers to load, the entry point, and where the program
/// header table was.
pub struct ElfImage {
    pub phdrs: Vec<Segment>,
    pub entry: usize,
    pub phoff: usize,
    pub phnum: usize,
}

#[verifier::external_type_specification]
#[verifier::external_body]
pub struct ExParseError(elf::ParseError);

/// `e_ident` is accepted by the `elf` crate: the magic number, the current
/// ELF version, a known class and a known byte order.
pub open spec fn ident_accepted(id: Seq<u8>) -> bool {
    &&& id.len() >= 9
    &&& id[0] == 0x7f && id[1] == 0x45 && id[2] == 0x4c && id[3] == 0x46
    &&& id[6] == 1
    &&& id[4] == 1 || id[4] == 2
    &&& id[5] == 1 || id[5] == 2
}

/// Length of the header fields after `e_ident`.
pub open spec fn tail_len(is64: bool) -> int {
    if is64 {
        48
    } else {
        36
    }
}

/// Size of one program header table entry.
pub open spec fn phent_size(is64: bool) -> int {
    if is64 {
        56
    } else {
        32
    }
}

/// The header fields as `elf::file::FileHeader::parse_tail` decodes them
/// from `tail`, for the given word size and byte order.
pub uninterp spec fn parsed_header_fields(is64: bool, little: bool, tail: Seq<u8>) -> HeaderFields;

/// The program headers that iterating `elf::segment::SegmentTable` over
/// `table` yields, for the given word size and byte order.
pub uninterp spec fn parsed_program_headers(is64: bool, little: bool, table: Seq<u8>) -> Seq<Segment>;

/// `elf::file::parse_ident`.
///
/// Its source accepts `e_ident` exactly when the magic number is `\x7fELF`,
/// `EI_VERSION` is 1, `EI_CLASS` is 1 (32-bit) or 2 (64-bit) and `EI_DATA` is
/// 1 (little endian) or 2 (big endian), and copies `EI_OSABI` and
/// `EI_ABIVERSION`; the contract says so.
#[verifier::external_body]
fn elf_parse_ident(ident: &[u8]) -> (r: Result<ElfIdent, elf::ParseError>)
    requires
        ident.len() == ELF_IDENT_LEN,
    ensures
        r is Ok <==> ident_accepted(ident@),
        r matches Ok(id) ==> {
            &&& id.is64 == (ident@[4] == 2)
            &&& id.little == (ident@[5] == 1)
            &&& id.osabi == ident@[7]
            &&& id.abiversion == ident@[8]
        },
{
    match elf::file::parse_ident::<AnyEndian>(ident) {
        Ok((endian, class, osabi, abiversion)) => Ok(ElfIdent {
            is64: match class { Class::ELF64 => true, Class::ELF32 => false },
            little: match endian { AnyEndian::Little => true, AnyEndian::Big => false },
            osabi,
            abiversion,
        }),
        Err(e) => Err(e),
    }
}

/// `elf::file::FileHeader::parse_tail`.
///
/// Its source reads the fields one after the other and fails only when the
/// bytes run out, which a tail of the full length never does; the decoded
/// values are named by [`parsed_header_fields`].
#[verifier::external_body]
fn elf_parse_tail(id: ElfIdent, tail: &[u8]) -> (r: Result<HeaderFields, elf::ParseError>)
    requires
        tail.len() == tail_len(id.is64),
    ensures
        r is Ok,
        r matches Ok(f) ==> f == parsed_header_fields(id.is64, id.little, tail@),
{
    let endian = if id.little { AnyEndian::Little } else { AnyEndian::Big };
    let class = if id.is64 { Class::ELF64 } else { Class::ELF32 };
    match FileHeader::<AnyEndian>::parse_tail((endian, class, id.osabi, id.abiversion), tail) {
        Ok(h) => Ok(HeaderFields {
            e_type: h.e_type, e_machine: h.e_machine, version: h.version, e_entry: h.e_entry,
            e_phoff: h.e_phoff, e_shoff: h.e_shoff, e_flags: h.e_flags, e_ehsize: h.e_ehsize,
            e_phentsize: h.e_phentsize, e_phnum: h.e_phnum, e_shentsize: h.e_shentsize,
            e_shnum: h.e_shnum, e_shstrndx: h.e_shstrndx,
        }),
        Err(e) => Err(e),
    }
}

/// `<ProgramHeader as ParseAt>::validate_entsize`.
///
/// Its source accepts the entry size exactly when it is 32 for a 32-bit
/// image and 56 for a 64-bit one, and then returns it.
#[verifier::external_body]
fn elf_validate_phentsize(is64: bool, entsize: usize) -> (r: Result<usize, elf::ParseError>)
    ensures
        r is Ok <==> entsize == phent_size(is64),
        r matches Ok(n) ==> n == entsize,
{
    let class = if is64 { Class::ELF64 } else { Class::ELF32 };
    ProgramHeader::validate_entsize(class, entsize)
}

/// Iterating `elf::segment::SegmentTable::new(..).iter()`.
///
/// The iterator parses one entry after the other and stops at the first
/// that does not fit in the table, so it yields the whole entries of the
/// table, in order; their values are named by [`parsed_program_headers`].
#[verifier::external_body]
fn elf_program_headers(is64: bool, little: bool, table: &[u8]) -> (r: Vec<Segment>)
    ensures
        r@ == parsed_program_headers(is64, little, table@),
        r@.len() == table@.len() as int / phent_size(is64),
{
    let endian = if little { AnyEndian::Little } else { AnyEndian::Big };
    let class = if is64 { Class::ELF64 } else { Class::ELF32 };
    let mut out = Vec::new();
    for ph in SegmentTable::new(endian, class, table).iter() {
        out.push(Segment {
            p_type: ph.p_type, p_offset: ph.p_offset, p_vaddr: ph.p_vaddr, p_paddr: ph.p_paddr,
            p_filesz: ph.p_filesz, p_memsz: ph.p_memsz, p_flags: ph.p_flags, p_align: ph.p_align,
        });
    }
    out
}

/// The header decoded from the first bytes of an image, if they hold one.
pub open spec fn elf_header_of(head: Seq<u8>) -> Option<ElfHeader> {
    if head.len() < ELF_IDENT_LEN || !ident_accepted(head.take(ELF_IDENT_LEN as int)) {
        None
    } else {
        let ident = ElfIdent {
            is64: head[4] == 2,
            little: head[5] == 1,
            osabi: head[7],
            abiversion: head[8],
        };
        let end = ELF_IDENT_LEN + tail_len(ident.is64);
        if head.len() < end {
            None
        } else {
            Some(ElfHeader {
                ident,
                fields: parsed_header_fields(ident.is64, ident.little, head.subrange(ELF_IDENT_LEN as int, end)),
            })
        }
    }
}

/// Decodes the ELF header at the start of `head`; `InvalidData` when there
/// is none.
pub fn elf_header_from(head: &[u8]) -> (r: Result<ElfHeader, LoadError>)
    ensures
        r matches Ok(h) ==> elf_header_of(head@) == Some(h),
        r is Err ==> elf_header_of(head@) is None && r == Err::<ElfHeader, LoadError>(LoadError::InvalidData),
{
    if head.len() < ELF_IDENT_LEN {
        return Err(LoadError::InvalidData);
    }
    let ident_bytes = slice_subrange(head, 0, ELF_IDENT_LEN);
    assert(ident_bytes@ == head@.take(ELF_IDENT_LEN as int));
    let ident = match elf_parse_ident(ident_bytes) {
        Ok(id) => id,
        Err(_) => {
            return Err(LoadError::InvalidData);
        },
    };
    let tail_end: usize = if ident.is64 { ELF_IDENT_LEN + 48 } else { ELF_IDENT_LEN + 36 };
    if head.len() < tail_end {
        return Err(LoadError::InvalidData);
    }
    let tail = slice_subrange(head, ELF_IDENT_LEN, tail_end);
    match elf_parse_tail(ident, tail) {
        Ok(fields) => Ok(ElfHeader { ident, fields }),
        Err(_) => Err(LoadError::InvalidData),
    }
}

/// The size of the program header table a header describes: the entry size
/// must be the one of the image's class.
pub open spec fn phdr_table_size_of(h: ElfHeader) -> Result<usize, LoadError> {
    if h.fields.e_phentsize as int != phent_size(h.ident.is64) {
        Err(LoadError::InvalidData)
    } else if h.fields.e_phentsize as int * h.fields.e_phnum as int > usize::MAX {
        Err(LoadError::InvalidData)
    } else {
        Ok((h.fields.e_phentsize as int * h.fields.e_phnum as int) as usize)
    }
}

/// The size in bytes of the program header table of `h`.
pub fn phdr_table_size(h: &ElfHeader) -> (r: Result<usize, LoadError>)
    ensures
        r == phdr_table_size_of(*h),
{
    let entsize = match elf_validate_phentsize(h.ident.is64, h.fields.e_phentsize as usize) {
        Ok(n) => n,
        Err(_) => {
            return Err(LoadError::InvalidData);
        },
    };
    match entsize.checked_mul(h.fields.e_phnum as usize) {
        Some(size) => Ok(size),
        None => Err(LoadError::InvalidData),
    }
}

/// A segment the loader places in memory.
pub open spec fn is_loadable(seg: Segment) -> bool {
    seg.p_type == PT_LOAD || seg.p_type == PT_INTERP
}

/// [`is_loadable`] as a predicate value.
pub open spec fn loadable() -> spec_fn(Segment) -> bool {
    |s: Segment| is_loadable(s)
}

/// The loadable segments described by a program header table.
pub open spec fn loadable_segments_of(h: ElfHeader, table: Seq<u8>) -> Seq<Segment> {
    parsed_program_headers(h.ident.is64, h.ident.little, table).filter(loadable())
}

/// The `PT_LOAD` and `PT_INTERP` entries of the program header table
/// `table` of an image with header `h`, in table order.
pub fn loadable_segments(h: &ElfHeader, table: &[u8]) -> (r: Vec<Segment>)
    ensures
        r@ == loadable_segments_of(*h, table@),
        forall|i: int| 0 <= i < r@.len() ==> (#[trigger] r@[i]).p_type == 1 || r@[i].p_type == 3,
{
    let all = elf_program_headers(h.ident.is64, h.ident.little, table);
    let mut out: Vec<Segment> = Vec::new();
    let mut i: usize = 0;
    while i < all.len()
        invariant
            i <= all@.len(),
            out@ == all@.take(i as int).filter(loadable()),
        decreases all@.len() - i,
    {
        let seg = all[i];
        let ghost before = out@;
        if seg.p_type == PT_LOAD || seg.p_type == PT_INTERP {
            out.push(seg);
        }
        proof {
            let next = all@.take(i + 1);
            assert(next.drop_last() == all@.take(i as int));
            assert(next.last() == seg);
            assert(out@ == next.filter(loadable())) by {
                reveal(Seq::filter);
            }
        }
        i = i + 1;
    }
    proof {
        assert(all@.take(all@.len() as int) == all@);
        assert forall|k: int| 0 <= k < out@.len() implies is_loadable(#[trigger] out@[k]) by {
            all@.lemma_filter_pred(loadable(), k);
        }
    }
    out
}

/// Reading `data` as an ELF image panics: its program header table is
/// empty, larger than a page, or ends past the address space.
pub open spec fn elf_parse_panics(data: Seq<u8>) -> bool {
    &&& data.len() >= ELF_HEAD_BUF_SIZE
    &&& elf_header_of(data.take(ELF_HEAD_BUF_SIZE as int)) matches Some(h)
    &&& phdr_table_size_of(h) matches Ok(size)
    &&& {
        ||| size == 0
        ||| size > MAX_PHDR_TABLE_SIZE
        ||| (h.fields.e_phoff as usize) + size > usize::MAX
    }
}

/// What reading `data` as an ELF image gives, where it does not panic.
pub open spec fn elf_parse_result(data: Seq<u8>) -> Result<(Seq<Segment>, usize, usize, usize), LoadError> {
    if data.len() < ELF_HEAD_BUF_SIZE {
        Err(LoadError::UnexpectedEof)
    } else {
        match elf_header_of(data.take(ELF_HEAD_BUF_SIZE as int)) {
            None => Err(LoadError::InvalidData),
            Some(h) => match phdr_table_size_of(h) {
                Err(e) => Err(e),
                Ok(size) => {
                    let phoff = h.fields.e_phoff as usize;
                    if phoff + size > data.len() {
                        Err(LoadError::UnexpectedEof)
                    } else {
                        Ok((
                            loadable_segments_of(h, data.subrange(phoff as int, phoff + size)),
                            h.fields.e_entry as usize,
                            h.fields.e_phoff as usize,
                            h.fields.e_phnum as usize,
                        ))
                    }
                },
            },
        }
    }
}

/// Reads the loadable program headers, the entry point, the program header
/// table offset and the number of program headers of the ELF image `data`.
pub fn parse_elf_from_bytes(data: &[u8]) -> (r: Result<ElfImage, LoadError>)
    requires
        !elf_parse_panics(data@),
    ensures
        match (r, elf_parse_result(data@)) {
            (Ok(img), Ok((phdrs, entry, phoff, phnum))) => img.phdrs@ == phdrs && img.entry == entry
                && img.phoff == phoff && img.phnum == phnum,
            (Err(e), Err(e2)) => e == e2,
            _ => false,
        },
{
    if data.len() < ELF_HEAD_BUF_SIZE {
        return Err(LoadError::UnexpectedEof);
    }
    let head = slice_subrange(data, 0, ELF_HEAD_BUF_SIZE);
    assert(head@ == data@.take(ELF_HEAD_BUF_SIZE as int));
    let h = match elf_header_from(head) {
        Ok(h) => h,
        Err(e) => {
            return Err(e);
        },
    };
    let size = match phdr_table_size(&h) {
        Ok(size) => size,
        Err(e) => {
            return Err(e);
        },
    };
    let phoff = h.fields.e_phoff as usize;
    if phoff + size > data.len() {
        return Err(LoadError::UnexpectedEof);
    }
    let table = slice_subrange(data, phoff, phoff + size);
    let phdrs = loadable_segments(&h, table);
    Ok(ElfImage {
        phdrs,
        entry: h.fields.e_entry as usize,
        phoff: h.fields.e_phoff as usize,
        phnum: h.fields.e_phnum as usize,
    })
}

/// [`parse_elf_from_bytes`] where it does not panic: `None` exactly on the
/// images on which it would.
pub fn try_parse_elf_from_bytes(data: &[u8]) -> (r: Option<Result<ElfImage, LoadError>>)
    ensures
        r is None <==> elf_parse_panics(data@),
        r matches Some(res) ==> match (res, elf_parse_result(data@)) {
            (Ok(img), Ok((phdrs, entry, phoff, phnum))) => img.phdrs@ == phdrs && img.entry == entry
                && img.phoff == phoff && img.phnum == phnum,
            (Err(e), Err(e2)) => e == e2,
            _ => false,
        },
{
    if data.len() >= ELF_HEAD_BUF_SIZE {
        let head = slice_subrange(data, 0, ELF_HEAD_BUF_SIZE);
        assert(head@ == data@.take(ELF_HEAD_BUF_SIZE as int));
        if let Ok(h) = elf_header_from(head) {
            if let Ok(size) = phdr_table_size(&h) {
                let phoff = h.fields.e_phoff as usize;
                if size == 0 || size > MAX_PHDR_TABLE_SIZE || phoff > usize::MAX - size {
                    return None;
                }
            }
        }
    }
    Some(parse_elf_from_bytes(data))
}

/// The loader keeps, in table order, exactly the program headers of type 1
/// (`PT_LOAD`) and 3 (`PT_INTERP`): every kept header has one of these types,
/// and every header of one of these types is kept.
pub proof fn law_loadable_segments(h: ElfHeader, table: Seq<u8>)
    ensures
        loadable_segments_of(h, table) == parsed_program_headers(h.ident.is64, h.ident.little, table).filter(
            |s: Segment| s.p_type == 1u32 || s.p_type == 3u32,
        ),
        forall|i: int|
            0 <= i < loadable_segments_of(h, table).len() ==> (#[trigger] loadable_segments_of(
                h,
                table,
            )[i]).p_type == 1 || loadable_segments_of(h, table)[i].p_type == 3,
        forall|i: int|
            0 <= i < parsed_program_headers(h.ident.is64, h.ident.little, table).len() && (
            #[trigger] parsed_program_headers(h.ident.is64, h.ident.little, table)[i]).p_type == 1
                ==> loadable_segments_of(h, table).contains(
                parsed_program_headers(h.ident.is64, h.ident.little, table)[i],
            ),
        forall|i: int|
            0 <= i < parsed_program_headers(h.ident.is64, h.ident.little, table).len() && (
            #[trigger] parsed_program_headers(h.ident.is64, h.ident.little, table)[i]).p_type == 3
                ==> loadable_segments_of(h, table).contains(
                parsed_program_headers(h.ident.is64, h.ident.little, table)[i],
            ),
{
    let all = parsed_program_headers(h.ident.is64, h.ident.little, table);
    let lit = |s: Segment| s.p_type == 1u32 || s.p_type == 3u32;
    assert(loadable() =~= lit);
    assert forall|i: int| 0 <= i < loadable_segments_of(h, table).len() implies (#[trigger] loadable_segments_of(
        h,
        table,
    )[i]).p_type == 1 || loadable_segments_of(h, table)[i].p_type == 3 by {
        all.lemma_filter_pred(lit, i);
    }
    assert forall|i: int| 0 <= i < all.len() && (#[trigger] all[i]).p_type == 1 implies loadable_segments_of(
        h,
        table,
    ).contains(all[i]) by {
        all.lemma_filter_contains(lit, i);
    }
    assert forall|i: int| 0 <= i < all.len() && (#[trigger] all[i]).p_type == 3 implies loadable_segments_of(
        h,
        table,
    ).contains(all[i]) by {
        all.lemma_filter_contains(lit, i);
    }
}

/// The header is read from the first bytes of an image exactly when they
/// start with `\x7fELF`, ELF version 1, class 1 (32-bit) or 2 (64-bit) and
/// byte order 1 (little) or 2 (big), and hold the 36 (32-bit) or 48 (64-bit)
/// bytes that follow the 16 identification bytes. The word size, byte order
/// and OS ABI come from those identification bytes, and the other fields are
/// decoded, with that word size and byte order, from exactly the bytes that
/// follow them.
pub proof fn law_elf_header(head: Seq<u8>)
    ensures
        ({
            let accepted = head.len() >= 16 && head[0] == 0x7f && head[1] == 0x45 && head[2] == 0x4c
                && head[3] == 0x46 && head[6] == 1 && (head[4] == 1 || head[4] == 2) && (head[5] == 1
                || head[5] == 2);
            let is64 = head[4] == 2;
            let tail = if is64 {
                48int
            } else {
                36int
            };
            &&& elf_header_of(head) is Some <==> accepted && head.len() >= 16 + tail
            &&& elf_header_of(head) matches Some(h) ==> {
                &&& h.ident.is64 == is64
                &&& h.ident.little == (head[5] == 1)
                &&& h.ident.osabi == head[7]
                &&& h.ident.abiversion == head[8]
                &&& h.fields == parsed_header_fields(is64, head[5] == 1, head.subrange(16, 16 + tail))
            }
        }),
{
}

/// The program header table of a header has entries of 32 bytes (32-bit)
/// or 56 bytes (64-bit) and `e_phnum` of them; any other entry size is
/// `InvalidData`.
pub proof fn law_phdr_table_size(h: ElfHeader)
    ensures
        phdr_table_size_of(h) is Ok <==> h.fields.e_phentsize == (if h.ident.is64 {
            56u16
        } else {
            32u16
        }),
        phdr_table_size_of(h) matches Ok(n) ==> n == h.fields.e_phentsize * h.fields.e_phnum,
        phdr_table_size_of(h) is Err ==> phdr_table_size_of(h) == Err::<usize, LoadError>(
            LoadError::InvalidData,
        ),
{
    assert(h.fields.e_phentsize * h.fields.e_phnum <= 0xffff * 0xffff) by (nonlinear_arith);
}

/// Reading an image: fewer than 256 bytes, or a program header table that
/// ends past the image, is `UnexpectedEof`; no valid header in the first 256
/// bytes, or a wrong entry size, is `InvalidData`. Otherwise the result is
/// the loadable headers of the table at `e_phoff`, the entry point
/// `e_entry`, `e_phoff` and `e_phnum`. It panics exactly on a valid header
/// whose table is empty, over 4096 bytes, or ends past the address space.
pub proof fn law_elf_parse(data: Seq<u8>)
    ensures
        data.len() < 256 ==> elf_parse_result(data) == Err::<
            (Seq<Segment>, usize, usize, usize),
            LoadError,
        >(LoadError::UnexpectedEof) && !elf_parse_panics(data),
        data.len() >= 256 && elf_header_of(data.take(256)) is None ==> elf_parse_result(data) == Err::<
            (Seq<Segment>, usize, usize, usize),
            LoadError,
        >(LoadError::InvalidData) && !elf_parse_panics(data),
        data.len() >= 256 ==> (elf_header_of(data.take(256)) matches Some(h) ==> {
            let size = h.fields.e_phentsize * h.fields.e_phnum;
            let phoff = h.fields.e_phoff as usize;
            &&& h.fields.e_phentsize != (if h.ident.is64 {
                56u16
            } else {
                32u16
            }) ==> elf_parse_result(data) == Err::<(Seq<Segment>, usize, usize, usize), LoadError>(
                LoadError::InvalidData,
            ) && !elf_parse_panics(data)
            &&& h.fields.e_phentsize == (if h.ident.is64 {
                56u16
            } else {
                32u16
            }) ==> {
                &&& elf_parse_panics(data) <==> (size == 0 || size > 4096 || phoff + size
                    > usize::MAX)
                &&& phoff + size > data.len() ==> elf_parse_result(data) == Err::<
                    (Seq<Segment>, usize, usize, usize),
                    LoadError,
                >(LoadError::UnexpectedEof)
                &&& phoff + size <= data.len() ==> elf_parse_result(data) == Ok::<
                    (Seq<Segment>, usize, usize, usize),
                    LoadError,
                >(
                    (
                        loadable_segments_of(h, data.subrange(phoff as int, phoff + size)),
                        h.fields.e_entry as usize,
                        h.fields.e_phoff as usize,
                        h.fields.e_phnum as usize,
                    ),
                )
            }
        }),
{
    if data.len() >= 256 {
        if let Some(h) = elf_header_of(data.take(256)) {
            law_phdr_table_size(h);
        }
    }
}

} // verus!
