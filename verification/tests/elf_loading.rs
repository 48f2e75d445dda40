use early_alloc::elf_image::{
    elf_header_from, loadable_segments, parse_elf_from_bytes, phdr_table_size,
    try_parse_elf_from_bytes, LoadError, Segment, PT_INTERP, PT_LOAD,
};
use early_alloc::loader::{plan_segment, split_page, SegmentPlan};

const PT_NOTE: u32 = 4;

fn put_u16(buf: &mut Vec<u8>, v: u16, little: bool) {
    if little {
        buf.extend_from_slice(&v.to_le_bytes());
    } else {
        buf.extend_from_slice(&v.to_be_bytes());
    }
}

fn put_u32(buf: &mut Vec<u8>, v: u32, little: bool) {
    if little {
        buf.extend_from_slice(&v.to_le_bytes());
    } else {
        buf.extend_from_slice(&v.to_be_bytes());
    }
}

fn put_u64(buf: &mut Vec<u8>, v: u64, little: bool) {
    if little {
        buf.extend_from_slice(&v.to_le_bytes());
    } else {
        buf.extend_from_slice(&v.to_be_bytes());
    }
}

fn seg(p_type: u32, offset: u64, vaddr: u64, filesz: u64, memsz: u64) -> Segment {
    Segment {
        p_type,
        p_offset: offset,
        p_vaddr: vaddr,
        p_paddr: vaddr,
        p_filesz: filesz,
        p_memsz: memsz,
        p_flags: 5,
        p_align: 0x1000,
    }
}

/// A 64-bit image: header, program header table at offset 64, padded to
/// `total` bytes.
fn image64(little: bool, phentsize: u16, segs: &[Segment], phnum: u16, total: usize) -> Vec<u8> {
    let mut b = vec![0x7f, b'E', b'L', b'F', 2, if little { 1 } else { 2 }, 1, 0];
    b.resize(16, 0);
    put_u16(&mut b, 2, little);
    put_u16(&mut b, 0xf3, little);
    put_u32(&mut b, 1, little);
    put_u64(&mut b, 0x10078, little);
    put_u64(&mut b, 64, little);
    put_u64(&mut b, 0, little);
    put_u32(&mut b, 0, little);
    put_u16(&mut b, 64, little);
    put_u16(&mut b, phentsize, little);
    put_u16(&mut b, phnum, little);
    put_u16(&mut b, 64, little);
    put_u16(&mut b, 0, little);
    put_u16(&mut b, 0, little);
    assert_eq!(b.len(), 64);
    for s in segs {
        put_u32(&mut b, s.p_type, little);
        put_u32(&mut b, s.p_flags, little);
        put_u64(&mut b, s.p_offset, little);
        put_u64(&mut b, s.p_vaddr, little);
        put_u64(&mut b, s.p_paddr, little);
        put_u64(&mut b, s.p_filesz, little);
        put_u64(&mut b, s.p_memsz, little);
        put_u64(&mut b, s.p_align, little);
    }
    if b.len() < total {
        b.resize(total, 0);
    }
    b
}

/// A 32-bit little-endian image with its program header table at offset 52.
fn image32(segs: &[Segment], total: usize) -> Vec<u8> {
    let mut b = vec![0x7f, b'E', b'L', b'F', 1, 1, 1, 0];
    b.resize(16, 0);
    put_u16(&mut b, 2, true);
    put_u16(&mut b, 0xf3, true);
    put_u32(&mut b, 1, true);
    put_u32(&mut b, 0x2000, true);
    put_u32(&mut b, 52, true);
    put_u32(&mut b, 0, true);
    put_u32(&mut b, 0, true);
    put_u16(&mut b, 52, true);
    put_u16(&mut b, 32, true);
    put_u16(&mut b, segs.len() as u16, true);
    put_u16(&mut b, 40, true);
    put_u16(&mut b, 0, true);
    put_u16(&mut b, 0, true);
    assert_eq!(b.len(), 52);
    for s in segs {
        put_u32(&mut b, s.p_type, true);
        put_u32(&mut b, s.p_offset as u32, true);
        put_u32(&mut b, s.p_vaddr as u32, true);
        put_u32(&mut b, s.p_paddr as u32, true);
        put_u32(&mut b, s.p_filesz as u32, true);
        put_u32(&mut b, s.p_memsz as u32, true);
        put_u32(&mut b, s.p_flags, true);
        put_u32(&mut b, s.p_align as u32, true);
    }
    if b.len() < total {
        b.resize(total, 0);
    }
    b
}

fn sample_segments() -> Vec<Segment> {
    vec![
        seg(PT_LOAD, 0, 0x10000, 0x180, 0x180),
        seg(PT_NOTE, 0x200, 0x10200, 0x20, 0x20),
        seg(PT_INTERP, 0x220, 0x10220, 0x10, 0x10),
        seg(PT_LOAD, 0x1000, 0x11000, 0x80, 0x2000),
    ]
}

#[test]
fn parses_loadable_headers_of_64_bit_image() {
    let segs = sample_segments();
    let data = image64(true, 56, &segs, 4, 512);
    let img = parse_elf_from_bytes(&data).unwrap();
    assert_eq!(img.entry, 0x10078);
    assert_eq!(img.phoff, 64);
    assert_eq!(img.phnum, 4);
    assert_eq!(img.phdrs, vec![segs[0], segs[2], segs[3]]);
}

#[test]
fn parses_big_endian_image() {
    let segs = sample_segments();
    let data = image64(false, 56, &segs, 4, 512);
    let img = parse_elf_from_bytes(&data).unwrap();
    assert_eq!(img.entry, 0x10078);
    assert_eq!(img.phdrs, vec![segs[0], segs[2], segs[3]]);
}

#[test]
fn parses_32_bit_image() {
    let segs = vec![seg(PT_LOAD, 0, 0x2000, 0x40, 0x60), seg(PT_NOTE, 0x40, 0x2040, 4, 4)];
    let data = image32(&segs, 300);
    let img = parse_elf_from_bytes(&data).unwrap();
    assert_eq!(img.entry, 0x2000);
    assert_eq!(img.phoff, 52);
    assert_eq!(img.phnum, 2);
    assert_eq!(img.phdrs, vec![segs[0]]);
}

#[test]
fn short_image_is_eof() {
    let data = image64(true, 56, &[], 4, 0);
    assert!(data.len() < 256);
    assert_eq!(parse_elf_from_bytes(&data).err(), Some(LoadError::UnexpectedEof));
}

#[test]
fn bad_magic_is_invalid() {
    let mut data = image64(true, 56, &sample_segments(), 4, 512);
    data[1] = b'X';
    assert_eq!(parse_elf_from_bytes(&data).err(), Some(LoadError::InvalidData));
}

#[test]
fn bad_class_or_version_is_invalid() {
    let mut data = image64(true, 56, &sample_segments(), 4, 512);
    data[4] = 3;
    assert_eq!(parse_elf_from_bytes(&data).err(), Some(LoadError::InvalidData));
    let mut data = image64(true, 56, &sample_segments(), 4, 512);
    data[6] = 2;
    assert_eq!(parse_elf_from_bytes(&data).err(), Some(LoadError::InvalidData));
}

#[test]
fn bad_entry_size_is_invalid() {
    let data = image64(true, 32, &sample_segments(), 4, 512);
    assert_eq!(parse_elf_from_bytes(&data).err(), Some(LoadError::InvalidData));
}

#[test]
fn table_past_end_is_eof() {
    let data = image64(true, 56, &sample_segments(), 4, 0);
    let mut data = data;
    data.truncate(256);
    // The table needs 64 + 4 * 56 = 288 bytes.
    assert_eq!(parse_elf_from_bytes(&data).err(), Some(LoadError::UnexpectedEof));
}

#[test]
fn empty_table_would_panic() {
    let data = image64(true, 56, &[], 0, 512);
    assert!(try_parse_elf_from_bytes(&data).is_none());
}

#[test]
fn oversized_table_would_panic() {
    let data = image64(true, 56, &[], 100, 512);
    assert!(try_parse_elf_from_bytes(&data).is_none());
}

#[test]
fn checked_parse_agrees_otherwise() {
    let segs = sample_segments();
    let data = image64(true, 56, &segs, 4, 512);
    let img = try_parse_elf_from_bytes(&data).unwrap().unwrap();
    assert_eq!(img.phdrs.len(), 3);
    let mut bad = data.clone();
    bad[0] = 0;
    assert_eq!(try_parse_elf_from_bytes(&bad).unwrap().err(), Some(LoadError::InvalidData));
}

#[test]
fn header_and_table_steps() {
    let segs = sample_segments();
    let data = image64(true, 56, &segs, 4, 512);
    let h = elf_header_from(&data[..256]).unwrap();
    assert!(h.ident.is64);
    assert!(h.ident.little);
    assert_eq!(h.fields.e_machine, 0xf3);
    assert_eq!(h.fields.e_phnum, 4);
    assert_eq!(h.fields.e_phentsize, 56);
    assert_eq!(h.fields.e_ehsize, 64);
    let size = phdr_table_size(&h).unwrap();
    assert_eq!(size, 224);
    let all = loadable_segments(&h, &data[64..64 + size]);
    assert_eq!(all, vec![segs[0], segs[2], segs[3]]);
    assert!(all.iter().all(|s| s.p_type == PT_LOAD || s.p_type == PT_INTERP));
}

#[test]
fn header_too_short_is_invalid() {
    let data = image64(true, 56, &sample_segments(), 4, 512);
    assert_eq!(elf_header_from(&data[..10]), Err(LoadError::InvalidData));
    assert_eq!(elf_header_from(&data[..40]), Err(LoadError::InvalidData));
}

#[test]
fn partial_table_entry_is_dropped() {
    let segs = sample_segments();
    let data = image64(true, 56, &segs, 4, 512);
    let h = elf_header_from(&data[..256]).unwrap();
    let all = loadable_segments(&h, &data[64..64 + 2 * 56 + 20]);
    assert_eq!(all, vec![segs[0]]);
}

#[test]
fn segment_plan_covers_memory_image() {
    let s = seg(PT_LOAD, 0x1000, 0x11234, 0x80, 0x2000);
    let p = plan_segment(&s);
    assert_eq!(
        p,
        SegmentPlan {
            map_start: 0x11000,
            map_size: 0x3000,
            write_addr: 0x11234,
            mem_len: 0x2000,
            file_len: 0x80,
            file_offset: 0x1000,
        }
    );
}

#[test]
fn segment_plan_of_aligned_segment() {
    let s = seg(PT_LOAD, 0, 0x10000, 0x1000, 0x1000);
    let p = plan_segment(&s);
    assert_eq!(p.map_start, 0x10000);
    assert_eq!(p.map_size, 0x1000);
}

#[test]
fn page_split() {
    assert_eq!(split_page(0x8020_0abc), (0x8020_0000, 0xabc));
    assert_eq!(split_page(0x1000), (0x1000, 0));
    assert_eq!(split_page(0xfff), (0, 0xfff));
}
