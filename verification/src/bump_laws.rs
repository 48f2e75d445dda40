//! Laws of the early allocator, stated over the outcomes that its methods
//! are specified by.

use vstd::prelude::*;
use crate::align::{align_down_spec, align_up_spec, is_pow2, lemma_align_bounds};
use vstd::arithmetic::div_mod::{lemma_div_is_ordered, lemma_hoist_over_denominator};
use crate::bump::{
    add_memory_outcome, alloc_outcome, alloc_pages_outcome, block_len, dealloc_outcome,
    fresh_state, page_align, AllocError, ArenaState,
};

verus! {

/// Every operation keeps the allocator's invariant.
pub proof fn law_outcomes_keep_wf(
    s: ArenaState,
    size: int,
    align: int,
    num_pages: int,
    align_pow2: usize,
    page_size: usize,
    start: int,
    region_size: int,
)
    requires
        s.wf(),
        size >= 0,
        align > 0,
        num_pages >= 0,
        start >= 0,
        region_size >= 0,
    ensures
        alloc_outcome(s, size, align).1.wf(),
        dealloc_outcome(s).wf(),
        alloc_pages_outcome(s, num_pages, align_pow2, page_size).1.wf(),
        add_memory_outcome(s, start, region_size).1.wf(),
{
    lemma_align_bounds(s.b_pos, align);
    let (r, t) = alloc_pages_outcome(s, num_pages, align_pow2, page_size);
    if r is Ok {
        let a = page_align(align_pow2 as int, page_size as int);
        crate::align::lemma_pow2_positive(a as usize);
        lemma_align_bounds(s.p_pos - num_pages * page_size, a);
    }
}

/// A byte block lies in the available area it was taken from, at an address
/// that is a multiple of the requested alignment, and the bytes area grows
/// to just past it.
pub proof fn law_alloc_block_placement(s: ArenaState, size: int, align: int)
    requires
        s.wf(),
        size >= 0,
        align > 0,
        alloc_outcome(s, size, align).0 is Ok,
    ensures
        ({
            let (r, t) = alloc_outcome(s, size, align);
            let addr = r->Ok_0 as int;
            &&& addr % align == 0
            &&& s.b_pos <= addr
            &&& addr + block_len(size) == t.b_pos
            &&& t.b_pos <= s.p_pos
            &&& t.count == s.count + 1
        }),
{
    lemma_align_bounds(s.b_pos, align);
}

/// Two byte blocks handed out one after the other do not overlap: the second
/// starts at or after the end of the first.
pub proof fn law_successive_blocks_disjoint(
    s: ArenaState,
    size1: int,
    align1: int,
    size2: int,
    align2: int,
)
    requires
        s.wf(),
        size1 >= 0,
        size2 >= 0,
        align1 > 0,
        align2 > 0,
        alloc_outcome(s, size1, align1).0 is Ok,
        alloc_outcome(alloc_outcome(s, size1, align1).1, size2, align2).0 is Ok,
    ensures
        alloc_outcome(s, size1, align1).0->Ok_0 + block_len(size1)
            <= alloc_outcome(alloc_outcome(s, size1, align1).1, size2, align2).0->Ok_0,
{
    let t = alloc_outcome(s, size1, align1).1;
    law_alloc_block_placement(s, size1, align1);
    law_outcomes_keep_wf(s, size1, align1, 0, 0, 0, 0, 0);
    law_alloc_block_placement(t, size2, align2);
}

/// Pages handed out lie in the available area they were taken from, on an
/// alignment boundary, and the pages area grows down to their start.
pub proof fn law_alloc_pages_placement(
    s: ArenaState,
    num_pages: int,
    align_pow2: usize,
    page_size: usize,
)
    requires
        s.wf(),
        num_pages >= 0,
        alloc_pages_outcome(s, num_pages, align_pow2, page_size).0 is Ok,
    ensures
        ({
            let (r, t) = alloc_pages_outcome(s, num_pages, align_pow2, page_size);
            let first = r->Ok_0 as int;
            &&& first % page_align(align_pow2 as int, page_size as int) == 0
            &&& s.b_pos <= first
            &&& first + num_pages * page_size <= s.p_pos
            &&& t.p_pos == first
        }),
{
    let a = page_align(align_pow2 as int, page_size as int);
    crate::align::lemma_pow2_positive(a as usize);
    lemma_align_bounds(s.p_pos - num_pages * page_size, a);
}

/// A byte block and pages handed out next, in either order, do not overlap:
/// the block ends at or before the first page.
pub proof fn law_bytes_below_pages(
    s: ArenaState,
    size: int,
    align: int,
    num_pages: int,
    align_pow2: usize,
    page_size: usize,
)
    requires
        s.wf(),
        size >= 0,
        align > 0,
        num_pages >= 0,
    ensures
        ({
            let (rb, tb) = alloc_outcome(s, size, align);
            let (rp, tp) = alloc_pages_outcome(tb, num_pages, align_pow2, page_size);
            rb is Ok && rp is Ok ==> rb->Ok_0 + block_len(size) <= rp->Ok_0
        }),
        ({
            let (rp, tp) = alloc_pages_outcome(s, num_pages, align_pow2, page_size);
            let (rb, tb) = alloc_outcome(tp, size, align);
            rp is Ok && rb is Ok ==> rb->Ok_0 + block_len(size) <= rp->Ok_0
        }),
{
    let (rb, tb) = alloc_outcome(s, size, align);
    law_outcomes_keep_wf(s, size, align, num_pages, align_pow2, page_size, 0, 0);
    if rb is Ok {
        law_alloc_block_placement(s, size, align);
        if alloc_pages_outcome(tb, num_pages, align_pow2, page_size).0 is Ok {
            law_alloc_pages_placement(tb, num_pages, align_pow2, page_size);
        }
    }
    let (rp, tp) = alloc_pages_outcome(s, num_pages, align_pow2, page_size);
    if rp is Ok {
        law_alloc_pages_placement(s, num_pages, align_pow2, page_size);
        if alloc_outcome(tp, size, align).0 is Ok {
            law_alloc_block_placement(tp, size, align);
        }
    }
}

/// Releasing the only live byte block reclaims the whole bytes area.
pub proof fn law_last_release_reclaims(s: ArenaState)
    requires
        s.wf(),
        s.count == 1,
    ensures
        dealloc_outcome(s).used_bytes() == 0,
        dealloc_outcome(s).count == 0,
        dealloc_outcome(s).available_bytes() == s.p_pos - s.start,
{
}

/// Each release while byte blocks are live retires exactly one of them, so
/// after as many releases as there were live blocks the bytes area is empty.
pub proof fn law_release_counts_down(s: ArenaState)
    requires
        s.wf(),
        s.count > 0,
    ensures
        dealloc_outcome(s).count == s.count - 1,
        dealloc_outcome(s).count == 0 ==> dealloc_outcome(s).used_bytes() == 0,
        dealloc_outcome(s).count > 0 ==> dealloc_outcome(s).b_pos == s.b_pos,
{
}

/// With no byte block live, allocating a byte block and releasing it gives
/// back the state before.
pub proof fn law_alloc_then_dealloc_restores(s: ArenaState, size: int, align: int)
    requires
        s.wf(),
        s.count == 0,
        size >= 0,
        align > 0,
        alloc_outcome(s, size, align).0 is Ok,
    ensures
        dealloc_outcome(alloc_outcome(s, size, align).1) == s,
{
}

/// Releasing with no live byte block changes nothing, and no live byte
/// block means an empty bytes area.
pub proof fn law_release_without_blocks(s: ArenaState)
    requires
        s.wf(),
        s.count == 0,
    ensures
        dealloc_outcome(s) == s,
        s.used_bytes() == 0,
{
}

/// The region is split exactly into the bytes area, the available area and
/// the pages area.
pub proof fn law_accounting(s: ArenaState)
    requires
        s.wf(),
    ensures
        s.total_bytes() == s.used_bytes() + s.available_bytes() + s.page_bytes(),
        s.used_bytes() >= 0,
        s.available_bytes() >= 0,
        s.page_bytes() >= 0,
{
}

/// Pages are never reclaimed and the region's ends move only through
/// `add_memory`: byte allocation and release leave the pages area alone, and
/// page allocation only lowers its start.
pub proof fn law_pages_never_reclaimed(
    s: ArenaState,
    size: int,
    align: int,
    num_pages: int,
    align_pow2: usize,
    page_size: usize,
)
    requires
        s.wf(),
        size >= 0,
        align > 0,
        num_pages >= 0,
    ensures
        alloc_outcome(s, size, align).1.p_pos == s.p_pos,
        dealloc_outcome(s).p_pos == s.p_pos,
        alloc_pages_outcome(s, num_pages, align_pow2, page_size).1.p_pos <= s.p_pos,
        alloc_outcome(s, size, align).1.start == s.start,
        alloc_outcome(s, size, align).1.end == s.end,
        dealloc_outcome(s).start == s.start,
        dealloc_outcome(s).end == s.end,
        alloc_pages_outcome(s, num_pages, align_pow2, page_size).1.start == s.start,
        alloc_pages_outcome(s, num_pages, align_pow2, page_size).1.end == s.end,
{
    if alloc_pages_outcome(s, num_pages, align_pow2, page_size).0 is Ok {
        law_alloc_pages_placement(s, num_pages, align_pow2, page_size);
    }
}

/// A refused request leaves the allocator as it was.
pub proof fn law_refusal_changes_nothing(
    s: ArenaState,
    size: int,
    align: int,
    num_pages: int,
    align_pow2: usize,
    page_size: usize,
    start: int,
    region_size: int,
)
    requires
        s.wf(),
        size >= 0,
        align > 0,
        num_pages >= 0,
    ensures
        alloc_outcome(s, size, align).0 is Err ==> alloc_outcome(s, size, align).1 == s,
        alloc_pages_outcome(s, num_pages, align_pow2, page_size).0 is Err
            ==> alloc_pages_outcome(s, num_pages, align_pow2, page_size).1 == s,
        add_memory_outcome(s, start, region_size).0 is Err
            ==> add_memory_outcome(s, start, region_size).1 == s,
{
}

/// An allocator that manages no memory takes the first non-empty region
/// added to it as its whole memory; a region overlapping the managed one is
/// refused with `MemoryOverlap`; a region touching an end whose area is
/// unused is joined, and the region and its available area grow by its size.
pub proof fn law_add_memory_regions(s: ArenaState, start: int, size: int)
    requires
        s.wf(),
        start >= 0,
        size > 0,
        start + size <= usize::MAX,
    ensures
        s.start == s.end ==> add_memory_outcome(s, start, size).1.total_bytes() == size,
        s.start < s.end && start < s.end && s.start < start + size
            ==> add_memory_outcome(s, start, size).0 == Err::<(), AllocError>(AllocError::MemoryOverlap),
        s.start < s.end && start + size == s.start && s.used_bytes() == 0
            ==> add_memory_outcome(s, start, size).1.total_bytes() == s.total_bytes() + size
            && add_memory_outcome(s, start, size).1.available_bytes() == s.available_bytes() + size,
        s.start < s.end && start == s.end && s.page_bytes() == 0
            ==> add_memory_outcome(s, start, size).1.total_bytes() == s.total_bytes() + size
            && add_memory_outcome(s, start, size).1.available_bytes() == s.available_bytes() + size,
{
}

/// The state after byte requests `reqs`, each `(size, align)`, made one
/// after the other from `s`.
pub open spec fn allocs_after(s: ArenaState, reqs: Seq<(int, int)>) -> ArenaState
    decreases reqs.len(),
{
    if reqs.len() == 0 {
        s
    } else {
        alloc_outcome(allocs_after(s, reqs.drop_last()), reqs.last().0, reqs.last().1).1
    }
}

/// Each of the byte requests `reqs` made one after the other from `s`
/// succeeds.
pub open spec fn allocs_succeed(s: ArenaState, reqs: Seq<(int, int)>) -> bool {
    forall|i: int|
        0 <= i < reqs.len() ==> (#[trigger] alloc_outcome(
            allocs_after(s, reqs.take(i)),
            reqs[i].0,
            reqs[i].1,
        )).0 is Ok
}

/// Every request has a size and a positive alignment.
pub open spec fn requests_valid(reqs: Seq<(int, int)>) -> bool {
    forall|i: int| 0 <= i < reqs.len() ==> (#[trigger] reqs[i]).0 >= 0 && reqs[i].1 > 0
}

/// The state after `k` releases from `s`.
pub open spec fn deallocs_after(s: ArenaState, k: nat) -> ArenaState
    decreases k,
{
    if k == 0 {
        s
    } else {
        dealloc_outcome(deallocs_after(s, (k - 1) as nat))
    }
}

/// Successful byte allocations add one live block each and leave the ends
/// of the region and the pages area alone.
proof fn lemma_allocs_after(s: ArenaState, reqs: Seq<(int, int)>)
    requires
        s.wf(),
        requests_valid(reqs),
        allocs_succeed(s, reqs),
    ensures
        allocs_after(s, reqs).wf(),
        allocs_after(s, reqs) == (ArenaState {
            b_pos: allocs_after(s, reqs).b_pos,
            count: s.count + reqs.len(),
            ..s
        }),
    decreases reqs.len(),
{
    if reqs.len() > 0 {
        let prev = reqs.drop_last();
        let n = reqs.len() - 1;
        assert forall|i: int| 0 <= i < prev.len() implies (#[trigger] prev[i]).0 >= 0 && prev[i].1 > 0 by {
            assert(prev[i] == reqs[i]);
        }
        assert forall|i: int| 0 <= i < prev.len() implies (#[trigger] alloc_outcome(
            allocs_after(s, prev.take(i)),
            prev[i].0,
            prev[i].1,
        )).0 is Ok by {
            assert(prev.take(i) == reqs.take(i));
            assert(prev[i] == reqs[i]);
            assert(alloc_outcome(allocs_after(s, reqs.take(i)), reqs[i].0, reqs[i].1).0 is Ok);
        }
        lemma_allocs_after(s, prev);
        let t = allocs_after(s, prev);
        assert(reqs.take(n) == prev);
        assert(alloc_outcome(allocs_after(s, reqs.take(n)), reqs[n].0, reqs[n].1).0 is Ok);
        assert(reqs[n] == reqs.last());
        law_outcomes_keep_wf(t, reqs.last().0, reqs.last().1, 0, 0, 0, 0, 0);
    }
}

/// Releases count the live blocks down without moving the bytes area, until
/// the last one reclaims it.
proof fn lemma_deallocs_after(t: ArenaState, j: nat)
    requires
        t.wf(),
        j <= t.count,
    ensures
        j < t.count ==> deallocs_after(t, j) == (ArenaState { count: t.count - j, ..t }),
        j == t.count && j > 0 ==> deallocs_after(t, j) == (ArenaState {
            count: 0,
            b_pos: t.start,
            ..t
        }),
    decreases j,
{
    if j > 0 {
        lemma_deallocs_after(t, (j - 1) as nat);
    }
}

/// Releasing as many byte blocks as were allocated, starting with no block
/// live, gives back the state before: the bytes area is reclaimed and the
/// next block is placed where the first of them was.
pub proof fn law_allocs_then_deallocs_restore(s: ArenaState, reqs: Seq<(int, int)>)
    requires
        s.wf(),
        s.count == 0,
        requests_valid(reqs),
        allocs_succeed(s, reqs),
    ensures
        deallocs_after(allocs_after(s, reqs), reqs.len()) == s,
{
    if reqs.len() > 0 {
        lemma_allocs_after(s, reqs);
        lemma_deallocs_after(allocs_after(s, reqs), reqs.len());
    }
}

/// Used pages never fall: byte allocation and release, page allocation,
/// and adding memory leave the pages area at least as large (releasing
/// pages changes nothing at all), and a successful allocation of
/// `num_pages` pages adds at least that many.
pub proof fn law_used_pages_never_fall(
    s: ArenaState,
    size: int,
    align: int,
    num_pages: int,
    align_pow2: usize,
    page_size: usize,
    start: int,
    region_size: int,
)
    requires
        s.wf(),
        page_size > 0,
        size >= 0,
        align > 0,
        num_pages >= 0,
        start >= 0,
        region_size >= 0,
    ensures
        alloc_outcome(s, size, align).1.used_pages(page_size as int) >= s.used_pages(page_size as int),
        dealloc_outcome(s).used_pages(page_size as int) >= s.used_pages(page_size as int),
        alloc_pages_outcome(s, num_pages, align_pow2, page_size).1.used_pages(page_size as int)
            >= s.used_pages(page_size as int),
        add_memory_outcome(s, start, region_size).1.used_pages(page_size as int) >= s.used_pages(
            page_size as int,
        ),
        alloc_pages_outcome(s, num_pages, align_pow2, page_size).0 is Ok ==> alloc_pages_outcome(
            s,
            num_pages,
            align_pow2,
            page_size,
        ).1.used_pages(page_size as int) >= s.used_pages(page_size as int) + num_pages,
{
    let ps = page_size as int;
    let (r, t) = alloc_pages_outcome(s, num_pages, align_pow2, page_size);
    if r is Ok {
        law_alloc_pages_placement(s, num_pages, align_pow2, page_size);
        assert(t.page_bytes() >= s.page_bytes() + num_pages * ps);
        lemma_div_is_ordered(s.page_bytes() + num_pages * ps, t.page_bytes(), ps);
        lemma_hoist_over_denominator(s.page_bytes(), num_pages, page_size as nat);
    }
    lemma_div_is_ordered(s.page_bytes(), t.page_bytes(), ps);
    let u = add_memory_outcome(s, start, region_size).1;
    assert(u.page_bytes() >= s.page_bytes());
    lemma_div_is_ordered(s.page_bytes(), u.page_bytes(), ps);
}

/// What adding the region `[start, start + size)` does. It never touches
/// what is handed out: the bytes area, the live byte blocks and the pages
/// area keep their sizes. An empty region changes nothing; one past the end
/// of the address space is `InvalidParam`; an allocator managing nothing
/// takes the region as its whole, unused memory; a region overlapping the
/// managed one is `MemoryOverlap`. A disjoint region is accepted: it grows
/// the region and the available area by its size when it touches the bytes
/// end while no bytes are used or the pages end while no pages are used,
/// and otherwise changes nothing. A refusal changes nothing.
pub proof fn law_add_memory(s: ArenaState, start: int, size: int)
    requires
        s.wf(),
        start >= 0,
        size >= 0,
    ensures
        ({
            let (r, t) = add_memory_outcome(s, start, size);
            let end = start + size;
            &&& t.page_bytes() == s.page_bytes()
            &&& t.used_bytes() == s.used_bytes()
            &&& t.count == s.count
            &&& r is Err ==> t == s
            &&& size == 0 ==> r is Ok && t == s
            &&& size > 0 && end > usize::MAX ==> r == Err::<(), AllocError>(AllocError::InvalidParam)
            &&& size > 0 && end <= usize::MAX && s.start == s.end ==> {
                &&& r is Ok
                &&& t.start == start && t.end == end
                &&& t.used_bytes() == 0 && t.page_bytes() == 0 && t.count == 0
            }
            &&& size > 0 && end <= usize::MAX && s.start < s.end && start < s.end && s.start < end
                ==> r == Err::<(), AllocError>(AllocError::MemoryOverlap)
            &&& size > 0 && end <= usize::MAX && s.start < s.end && (end <= s.start || s.end <= start)
                ==> {
                &&& r is Ok
                &&& if (end == s.start && s.b_pos == s.start) || (start == s.end && s.p_pos == s.end) {
                    &&& t.total_bytes() == s.total_bytes() + size
                    &&& t.available_bytes() == s.available_bytes() + size
                    &&& (t.start == start || t.end == end)
                } else {
                    t == s
                }
            }
        }),
{
}

/// Two multiples of `m` less than `m` apart are equal.
proof fn lemma_aligned_unique(a: int, b: int, m: int)
    requires
        m > 0,
        a % m == 0,
        b % m == 0,
        a - m < b < a + m,
    ensures
        a == b,
{
    vstd::arithmetic::div_mod::lemma_fundamental_div_mod(a, m);
    vstd::arithmetic::div_mod::lemma_fundamental_div_mod(b, m);
    let qa = a / m;
    let qb = b / m;
    assert(qa == qb) by (nonlinear_arith)
        requires
            m > 0,
            a == m * qa,
            b == m * qb,
            a - m < b < a + m,
    ;
}

/// What a byte request answers, in terms of `a`, the first multiple of the
/// alignment at or after the end of the bytes area, and `len`, the size
/// (one byte for an empty request): a block passing the end of the address
/// space is `InvalidParam`; one reaching into the pages area, or at address
/// 0, is `NoMemory`; otherwise the request succeeds with address `a`, the
/// bytes area ends at `a + len` and one more block is live. A refused
/// request changes nothing.
pub proof fn law_alloc_result(s: ArenaState, size: int, align: int, a: int)
    requires
        s.wf(),
        size >= 0,
        align > 0,
        a % align == 0,
        s.b_pos <= a < s.b_pos + align,
    ensures
        ({
            let len = if size == 0 {
                1
            } else {
                size
            };
            let (r, t) = alloc_outcome(s, size, align);
            &&& a + len > usize::MAX ==> r == Err::<usize, AllocError>(AllocError::InvalidParam) && t == s
            &&& a + len <= usize::MAX && (a + len > s.p_pos || a == 0) ==> r == Err::<usize, AllocError>(
                AllocError::NoMemory,
            ) && t == s
            &&& a + len <= s.p_pos && a != 0 ==> r == Ok::<usize, AllocError>(a as usize) && t == (
            ArenaState { b_pos: a + len, count: s.count + 1, ..s })
        }),
{
    lemma_align_bounds(s.b_pos, align);
    lemma_aligned_unique(a, align_up_spec(s.b_pos, align), align);
}

/// What a page request answers, with `align` the larger of the requested
/// alignment and the page size, `len` the bytes of `num_pages` pages, and
/// `st` the last multiple of `align` at or below `p_pos - len`: no pages, an
/// alignment that is not a power of two, or a size past the address space
/// is `InvalidParam`; more pages than lie below the pages area, or a start
/// below the bytes area, is `NoMemory`; otherwise the pages start at `st`
/// and the pages area grows down to it. A refused request changes nothing.
pub proof fn law_alloc_pages_result(
    s: ArenaState,
    num_pages: int,
    align_pow2: usize,
    page_size: usize,
    st: int,
)
    requires
        s.wf(),
        num_pages >= 0,
    ensures
        ({
            let align = if align_pow2 >= page_size {
                align_pow2
            } else {
                page_size
            };
            let len = num_pages * page_size;
            let (r, t) = alloc_pages_outcome(s, num_pages, align_pow2, page_size);
            &&& num_pages == 0 ==> r == Err::<usize, AllocError>(AllocError::InvalidParam) && t == s
            &&& num_pages > 0 && !is_pow2(align) ==> r == Err::<usize, AllocError>(
                AllocError::InvalidParam,
            ) && t == s
            &&& num_pages > 0 && is_pow2(align) && len > usize::MAX ==> r == Err::<usize, AllocError>(
                AllocError::InvalidParam,
            ) && t == s
            &&& num_pages > 0 && is_pow2(align) && len <= usize::MAX && len > s.p_pos ==> r == Err::<
                usize,
                AllocError,
            >(AllocError::NoMemory) && t == s
            &&& num_pages > 0 && is_pow2(align) && len <= s.p_pos && st % (align as int) == 0 && st
                <= s.p_pos - len < st + align ==> {
                &&& st < s.b_pos ==> r == Err::<usize, AllocError>(AllocError::NoMemory) && t == s
                &&& st >= s.b_pos ==> r == Ok::<usize, AllocError>(st as usize) && t == (ArenaState {
                    p_pos: st,
                    ..s
                })
            }
        }),
{
    let align = if align_pow2 >= page_size {
        align_pow2
    } else {
        page_size
    };
    let len = num_pages * page_size;
    assert(page_align(align_pow2 as int, page_size as int) == align);
    if num_pages > 0 && is_pow2(align) && len <= s.p_pos && st % (align as int) == 0 && st <= s.p_pos
        - len < st + align {
        crate::align::lemma_pow2_positive(align);
        lemma_align_bounds(s.p_pos - len, align as int);
        lemma_aligned_unique(st, align_down_spec(s.p_pos - len, align as int), align as int);
    }
}

/// A freshly initialized region of `size` bytes has everything available:
/// no bytes used, no pages used, no live block.
pub proof fn law_fresh_state(start: int, size: int)
    requires
        start >= 0,
        size > 0,
        start + size <= usize::MAX,
    ensures
        fresh_state(start, start + size).wf(),
        fresh_state(start, start + size).start == start,
        fresh_state(start, start + size).end == start + size,
        fresh_state(start, start + size).total_bytes() == size,
        fresh_state(start, start + size).available_bytes() == size,
        fresh_state(start, start + size).used_bytes() == 0,
        fresh_state(start, start + size).page_bytes() == 0,
        fresh_state(start, start + size).count == 0,
{
}

/// The byte and page counts follow the requests: a granted byte block adds
/// its padding and length to the used bytes and takes them from the
/// available ones; granted pages add the bytes from their start to the old
/// start of the pages area to the pages area and take them from the
/// available bytes. The whole region stays the same.
pub proof fn law_counts_follow_requests(
    s: ArenaState,
    size: int,
    align: int,
    num_pages: int,
    align_pow2: usize,
    page_size: usize,
)
    requires
        s.wf(),
        size >= 0,
        align > 0,
        num_pages >= 0,
    ensures
        ({
            let (r, t) = alloc_outcome(s, size, align);
            let len = if size == 0 {
                1
            } else {
                size
            };
            r matches Ok(a) ==> {
                &&& t.used_bytes() == s.used_bytes() + (a - s.b_pos) + len
                &&& t.available_bytes() == s.available_bytes() - (a - s.b_pos) - len
                &&& t.page_bytes() == s.page_bytes()
                &&& t.total_bytes() == s.total_bytes()
            }
        }),
        ({
            let (r, t) = alloc_pages_outcome(s, num_pages, align_pow2, page_size);
            r matches Ok(p) ==> {
                &&& t.page_bytes() == s.page_bytes() + (s.p_pos - p)
                &&& t.available_bytes() == s.available_bytes() - (s.p_pos - p)
                &&& t.used_bytes() == s.used_bytes()
                &&& t.total_bytes() == s.total_bytes()
                &&& s.p_pos - p >= num_pages * page_size
            }
        }),
{
    let (r, t) = alloc_outcome(s, size, align);
    if r is Ok {
        law_alloc_block_placement(s, size, align);
    }
    if alloc_pages_outcome(s, num_pages, align_pow2, page_size).0 is Ok {
        law_alloc_pages_placement(s, num_pages, align_pow2, page_size);
    }
}

} // verus!
