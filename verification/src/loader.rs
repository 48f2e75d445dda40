//! Placing ELF segments and guest accesses on 4 KiB pages.

use vstd::prelude::*;
use vstd::arithmetic::power2::{lemma2_to64, pow2};
use crate::align::{align_down, align_down_spec, align_up, align_up_spec, is_pow2, lemma_align_bounds};
use crate::elf_image::Segment;

verus! {

/// Size of a page.
pub const PAGE_SIZE_4K: usize = 4096;

/// The page size is a power of two.
pub proof fn lemma_page_size_pow2()
    ensures
        is_pow2(PAGE_SIZE_4K),
{
    lemma2_to64();
    assert(pow2(12) == 4096);
    assert(12 < usize::BITS);
}

/// Splits an address into the start of its page and its offset in the page.
pub fn split_page(addr: usize) -> (r: (usize, usize))
    ensures
        r.0 == align_down_spec(addr as int, PAGE_SIZE_4K as int),
        r.1 == addr as int % PAGE_SIZE_4K as int,
        r.0 + r.1 == addr,
        r.0 as int % PAGE_SIZE_4K as int == 0,
        r.0 as int % 4096 == 0,
        r.1 < 4096,
{
    proof {
        lemma_page_size_pow2();
        lemma_align_bounds(addr as int, PAGE_SIZE_4K as int);
    }
    let page = align_down(addr, PAGE_SIZE_4K);
    (page, addr - page)
}

/// How one segment is brought into an address space: the page-aligned
/// range to map, and the bytes to write there, of which the first
/// `file_len` come from the image at `file_offset` and the rest are zero.
#[derive(Debug, Clone, Copy, PartialEq, Eq, Structural)]
pub struct SegmentPlan {
    pub map_start: usize,
    pub map_size: usize,
    pub write_addr: usize,
    pub mem_len: usize,
    pub file_len: usize,
    pub file_offset: u64,
}

/// The segment's memory image ends inside the address space with room to
/// round its end up to a page, and its file part is not longer than its
/// memory part.
pub open spec fn segment_fits(seg: Segment) -> bool {
    &&& seg.p_vaddr + seg.p_memsz + PAGE_SIZE_4K <= usize::MAX
    &&& seg.p_filesz <= seg.p_memsz
}

/// The plan for a segment: map from its start rounded down to a page to its
/// end rounded up to a page.
pub open spec fn segment_plan_of(seg: Segment) -> SegmentPlan {
    let start = align_down_spec(seg.p_vaddr as int, PAGE_SIZE_4K as int);
    let end = align_up_spec(seg.p_vaddr + seg.p_memsz, PAGE_SIZE_4K as int);
    SegmentPlan {
        map_start: start as usize,
        map_size: (end - start) as usize,
        write_addr: seg.p_vaddr as usize,
        mem_len: seg.p_memsz as usize,
        file_len: seg.p_filesz as usize,
        file_offset: seg.p_offset,
    }
}

/// Plans how to load `seg`. The mapped range is page aligned and covers the
/// whole memory image of the segment, and the file part fits in it.
pub fn plan_segment(seg: &Segment) -> (p: SegmentPlan)
    requires
        segment_fits(*seg),
    ensures
        p == segment_plan_of(*seg),
        p.file_offset == seg.p_offset,
        p.write_addr == seg.p_vaddr,
        p.file_len == seg.p_filesz,
        p.mem_len == seg.p_memsz,
        p.map_start as int % PAGE_SIZE_4K as int == 0,
        p.map_size as int % PAGE_SIZE_4K as int == 0,
        p.map_start <= p.write_addr,
        p.write_addr + p.mem_len <= p.map_start + p.map_size,
        p.file_len <= p.mem_len,
{
    proof {
        lemma_page_size_pow2();
        lemma_align_bounds(seg.p_vaddr as int, PAGE_SIZE_4K as int);
        lemma_align_bounds(seg.p_vaddr + seg.p_memsz, PAGE_SIZE_4K as int);
        vstd::arithmetic::div_mod::lemma_sub_mod_noop(
            align_up_spec(seg.p_vaddr + seg.p_memsz, PAGE_SIZE_4K as int),
            align_down_spec(seg.p_vaddr as int, PAGE_SIZE_4K as int),
            PAGE_SIZE_4K as int,
        );
    }
    let vaddr = seg.p_vaddr as usize;
    let vaddr_end = (seg.p_vaddr + seg.p_memsz) as usize;
    let start = align_down(vaddr, PAGE_SIZE_4K);
    let end = align_up(vaddr_end, PAGE_SIZE_4K);
    SegmentPlan {
        map_start: start,
        map_size: end - start,
        write_addr: vaddr,
        mem_len: seg.p_memsz as usize,
        file_len: seg.p_filesz as usize,
        file_offset: seg.p_offset,
    }
}

/// Loading a segment reads its file part from exactly its file offset and
/// writes its whole memory image at exactly its virtual address; the mapped
/// range is the smallest run of whole 4 KiB pages that covers that image.
pub proof fn law_segment_plan(seg: Segment)
    requires
        segment_fits(seg),
    ensures
        ({
            let p = segment_plan_of(seg);
            &&& p.file_offset == seg.p_offset
            &&& p.write_addr == seg.p_vaddr
            &&& p.file_len == seg.p_filesz
            &&& p.mem_len == seg.p_memsz
            &&& p.file_len <= p.mem_len
            &&& p.map_start % 4096 == 0
            &&& p.map_size % 4096 == 0
            &&& p.map_start <= seg.p_vaddr < p.map_start + 4096
            &&& seg.p_vaddr + seg.p_memsz <= p.map_start + p.map_size
            &&& p.map_start + p.map_size < seg.p_vaddr + seg.p_memsz + 4096
        }),
{
    lemma_align_bounds(seg.p_vaddr as int, 4096);
    lemma_align_bounds(seg.p_vaddr + seg.p_memsz, 4096);
    vstd::arithmetic::div_mod::lemma_sub_mod_noop(
        align_up_spec(seg.p_vaddr + seg.p_memsz, 4096),
        align_down_spec(seg.p_vaddr as int, 4096),
        4096,
    );
}

} // verus!
