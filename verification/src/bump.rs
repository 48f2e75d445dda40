//! The early memory allocator.
//!
//! One region of memory serves two kinds of requests from its two ends:
//!
//! ```text
//! [ bytes-used | avail-area | pages-used ]
//! |            | -->    <-- |            |
//! start       b_pos        p_pos       end
//! ```
//!
//! Bytes are handed out forward from `start`; `count` records how many byte
//! blocks are live, and when it drops back to zero the whole bytes area is
//! reclaimed. Pages are handed out backward from `end` and are never
//! reclaimed.

use vstd::prelude::*;
use crate::align::{align_down, align_down_spec, align_up, align_up_spec, is_pow2, is_power_of_two};
use crate::layout::Layout;

verus! {

/// Why an allocator request was refused.
#[derive(Debug, Clone, Copy, PartialEq, Eq, Structural)]
pub enum AllocError {
    /// Invalid size or alignment, or an address computation that overflows.
    InvalidParam,
    /// Memory added by `add_memory` overlaps memory already managed.
    MemoryOverlap,
    /// Not enough memory for the request.
    NoMemory,
    /// The memory to release was never handed out.
    NotAllocated,
}

/// The abstract state of an [`EarlyAllocator`]: the four boundaries of the
/// region and the number of live byte blocks.
pub struct ArenaState {
    pub start: int,
    pub end: int,
    pub b_pos: int,
    pub p_pos: int,
    pub count: int,
}

impl ArenaState {
    /// The boundaries are ordered, lie in the address space, and the bytes
    /// area is empty whenever no byte block is live. Every byte block takes
    /// at least one byte, so there are never more live blocks than used bytes.
    pub open spec fn wf(self) -> bool {
        &&& 0 <= self.start <= self.b_pos <= self.p_pos <= self.end <= usize::MAX
        &&& 0 <= self.count <= self.b_pos - self.start
        &&& self.count == 0 ==> self.b_pos == self.start
    }

    /// Bytes held by live byte blocks (including alignment padding).
    pub open spec fn used_bytes(self) -> int {
        self.b_pos - self.start
    }

    /// Bytes still free between the two areas.
    pub open spec fn available_bytes(self) -> int {
        self.p_pos - self.b_pos
    }

    /// Bytes taken by pages.
    pub open spec fn page_bytes(self) -> int {
        self.end - self.p_pos
    }

    /// Bytes of the whole region.
    pub open spec fn total_bytes(self) -> int {
        self.end - self.start
    }

    /// Whole pages of `page_size` bytes in the pages area.
    pub open spec fn used_pages(self, page_size: int) -> int {
        self.page_bytes() / page_size
    }
}

/// A freshly initialized region `[start, end)`: nothing handed out yet.
pub open spec fn fresh_state(start: int, end: int) -> ArenaState {
    ArenaState { start, end, b_pos: start, p_pos: end, count: 0 }
}

/// The number of bytes a byte block of `size` occupies: at least one.
pub open spec fn block_len(size: int) -> int {
    if size == 0 {
        1
    } else {
        size
    }
}

/// What `alloc` answers, and the state it leaves, for a request of `size`
/// bytes aligned to `align`.
///
/// The block starts at `b_pos` rounded up to `align`. A block that would pass
/// the end of the address space is `InvalidParam`, one that would reach into
/// the pages area is `NoMemory`, and so is a block at address zero, which
/// cannot be handed out as a pointer. Otherwise the block is taken and
/// counted as a live block. A refused request changes nothing.
pub open spec fn alloc_outcome(s: ArenaState, size: int, align: int) -> (Result<usize, AllocError>, ArenaState) {
    let addr = align_up_spec(s.b_pos, align);
    let new_b_pos = addr + block_len(size);
    if new_b_pos > usize::MAX {
        (Err(AllocError::InvalidParam), s)
    } else if new_b_pos > s.p_pos {
        (Err(AllocError::NoMemory), s)
    } else if addr == 0 {
        (Err(AllocError::NoMemory), s)
    } else {
        (Ok(addr as usize), ArenaState { b_pos: new_b_pos, count: s.count + 1, ..s })
    }
}

/// The state `dealloc` leaves: one live byte block fewer, and the bytes area
/// reclaimed when none is left. With no live block nothing changes.
pub open spec fn dealloc_outcome(s: ArenaState) -> ArenaState {
    if s.count == 0 {
        s
    } else if s.count == 1 {
        ArenaState { count: 0, b_pos: s.start, ..s }
    } else {
        ArenaState { count: s.count - 1, ..s }
    }
}

/// The alignment `alloc_pages` uses: the requested one, but at least a page.
pub open spec fn page_align(align_pow2: int, page_size: int) -> int {
    if align_pow2 >= page_size {
        align_pow2
    } else {
        page_size
    }
}

/// What `alloc_pages` answers, and the state it leaves, for `num_pages`
/// pages of `page_size` bytes aligned to `align_pow2`.
///
/// The pages are taken from the top of the available area, with their start
/// rounded down to the alignment; they must not reach into the bytes area.
pub open spec fn alloc_pages_outcome(
    s: ArenaState,
    num_pages: int,
    align_pow2: usize,
    page_size: usize,
) -> (Result<usize, AllocError>, ArenaState) {
    let align = page_align(align_pow2 as int, page_size as int);
    let size = num_pages * page_size;
    if num_pages == 0 {
        (Err(AllocError::InvalidParam), s)
    } else if !is_pow2(align as usize) {
        (Err(AllocError::InvalidParam), s)
    } else if size > usize::MAX {
        (Err(AllocError::InvalidParam), s)
    } else if size > s.p_pos {
        (Err(AllocError::NoMemory), s)
    } else {
        let start = align_down_spec(s.p_pos - size, align);
        if start < s.b_pos {
            (Err(AllocError::NoMemory), s)
        } else {
            (Ok(start as usize), ArenaState { p_pos: start, ..s })
        }
    }
}

/// What `add_memory` answers, and the state it leaves, for the region
/// `[start, start + size)`.
///
/// An empty region is accepted and ignored; a region past the end of the
/// address space is `InvalidParam`. An allocator that manages nothing takes
/// the region as its whole memory. A region disjoint from the managed one is
/// accepted; it is joined to it only where it touches an end whose area is
/// still unused (the bytes end while no bytes are used, the pages end while no
/// pages are used), and otherwise ignored. An overlapping region is
/// `MemoryOverlap`.
pub open spec fn add_memory_outcome(s: ArenaState, start: int, size: int) -> (Result<(), AllocError>, ArenaState) {
    let end = start + size;
    if size == 0 {
        (Ok(()), s)
    } else if end > usize::MAX {
        (Err(AllocError::InvalidParam), s)
    } else if s.start == s.end {
        (Ok(()), fresh_state(start, end))
    } else if end <= s.start || start >= s.end {
        if end == s.start && s.b_pos == s.start {
            (Ok(()), ArenaState { start: start, b_pos: start, ..s })
        } else if start == s.end && s.p_pos == s.end {
            (Ok(()), ArenaState { end: end, p_pos: end, ..s })
        } else {
            (Ok(()), s)
        }
    } else {
        (Err(AllocError::MemoryOverlap), s)
    }
}

/// Early memory allocator, usable before the general byte and page
/// allocators are ready. `SIZE` is the page size.
///
/// Bytes are allocated forward and pages backward in one region. The bytes
/// area is reclaimed when every byte block has been released; pages are
/// never reclaimed.
pub struct EarlyAllocator<const SIZE: usize> {
    start: usize,
    end: usize,
    b_pos: usize,
    p_pos: usize,
    count: usize,
}

impl<const SIZE: usize> View for EarlyAllocator<SIZE> {
    type V = ArenaState;

    closed spec fn view(&self) -> ArenaState {
        ArenaState {
            start: self.start as int,
            end: self.end as int,
            b_pos: self.b_pos as int,
            p_pos: self.p_pos as int,
            count: self.count as int,
        }
    }
}

impl<const SIZE: usize> EarlyAllocator<SIZE> {
    /// The allocator's invariant.
    pub open spec fn wf(&self) -> bool {
        self@.wf()
    }

    /// An allocator that manages no memory yet.
    pub fn new() -> (r: Self)
        ensures
            r.wf(),
            r@ == fresh_state(0, 0),
    {
        Self { start: 0, end: 0, b_pos: 0, p_pos: 0, count: 0 }
    }

    /// Whether the allocator manages no memory.
    pub fn is_empty(&self) -> (r: bool)
        ensures
            r == (self@.start == self@.end),
    {
        self.start == self.end
    }

    /// Makes `[start, start + size)` the whole managed region, with nothing
    /// handed out.
    pub fn init(&mut self, start: usize, size: usize)
        requires
            SIZE > 0,
            size > 0,
            start + size <= usize::MAX,
        ensures
            final(self).wf(),
            final(self)@ == fresh_state(start as int, start + size),
    {
        let end = start + size;
        self.start = start;
        self.end = end;
        self.b_pos = start;
        self.p_pos = end;
        self.count = 0;
    }

    /// Adds the region `[start, start + size)`; see [`add_memory_outcome`].
    pub fn add_memory(&mut self, start: usize, size: usize) -> (r: Result<(), AllocError>)
        requires
            old(self).wf(),
            // Taking the region as the whole memory initializes the page area,
            // which needs a page size.
            size > 0 && start + size <= usize::MAX && old(self)@.start == old(self)@.end ==> SIZE > 0,
        ensures
            final(self).wf(),
            (r, final(self)@) == add_memory_outcome(old(self)@, start as int, size as int),
    {
        if size == 0 {
            return Ok(());
        }
        let end = match start.checked_add(size) {
            Some(e) => e,
            None => {
                return Err(AllocError::InvalidParam);
            },
        };
        if self.is_empty() {
            self.init(start, size);
            return Ok(());
        }
        if end <= self.start || start >= self.end {
            if end == self.start && self.b_pos == self.start {
                self.start = start;
                self.b_pos = start;
            } else if start == self.end && self.p_pos == self.end {
                self.end = end;
                self.p_pos = end;
            }
            return Ok(());
        }
        Err(AllocError::MemoryOverlap)
    }

    /// Allocates a byte block for `layout` at the bottom of the available
    /// area and returns its address; see [`alloc_outcome`].
    pub fn alloc_bytes(&mut self, layout: Layout) -> (r: Result<usize, AllocError>)
        requires
            old(self).wf(),
            // Rounding `b_pos` up must not overflow.
            old(self)@.b_pos + layout.align() <= usize::MAX,
        ensures
            final(self).wf(),
            (r, final(self)@) == alloc_outcome(old(self)@, layout.size() as int, layout.align() as int),
            r matches Ok(addr) ==> {
                &&& addr as int % layout.align() as int == 0
                &&& old(self)@.b_pos <= addr
                &&& addr + block_len(layout.size() as int) <= old(self)@.p_pos
            },
    {
        let align = layout.align();
        proof {
            crate::align::lemma_pow2_positive(align);
            crate::align::lemma_align_bounds(self.b_pos as int, align as int);
        }
        let addr = align_up(self.b_pos, align);
        let size = layout.size().max(1);
        let end = match addr.checked_add(size) {
            Some(e) => e,
            None => {
                return Err(AllocError::InvalidParam);
            },
        };
        if end > self.p_pos {
            return Err(AllocError::NoMemory);
        }
        if addr == 0 {
            // No non-null pointer can name this block: refuse it untaken.
            return Err(AllocError::NoMemory);
        }
        self.b_pos = end;
        self.count = self.count + 1;
        Ok(addr)
    }

    /// Releases one byte block. Only the number of live blocks is tracked:
    /// the block's address and layout are not consulted. When the last live
    /// block is released the whole bytes area is reclaimed.
    pub fn dealloc(&mut self, pos: usize, layout: Layout)
        requires
            old(self).wf(),
        ensures
            final(self).wf(),
            final(self)@ == dealloc_outcome(old(self)@),
            final(self)@.count == 0 ==> final(self)@.b_pos == final(self)@.start,
    {
        if self.count == 0 {
            return;
        }
        self.count = self.count - 1;
        if self.count == 0 {
            self.b_pos = self.start;
        }
    }

    /// The address where the bytes area ends and the next byte block is
    /// searched from.
    pub fn byte_pos(&self) -> (r: usize)
        ensures
            r == self@.b_pos,
    {
        self.b_pos
    }

    /// Bytes of the whole managed region.
    pub fn total_bytes(&self) -> (r: usize)
        requires
            self.wf(),
        ensures
            r == self@.total_bytes(),
    {
        self.end - self.start
    }

    /// Bytes taken by the bytes area.
    pub fn used_bytes(&self) -> (r: usize)
        requires
            self.wf(),
        ensures
            r == self@.used_bytes(),
    {
        self.b_pos - self.start
    }

    /// Bytes still free between the bytes area and the pages area.
    pub fn available_bytes(&self) -> (r: usize)
        requires
            self.wf(),
        ensures
            r == self@.available_bytes(),
    {
        self.p_pos.saturating_sub(self.b_pos)
    }

    /// Allocates `num_pages` pages from the top of the available area and
    /// returns the address of the first; see [`alloc_pages_outcome`].
    pub fn alloc_pages(&mut self, num_pages: usize, align_pow2: usize) -> (r: Result<usize, AllocError>)
        requires
            old(self).wf(),
        ensures
            final(self).wf(),
            (r, final(self)@) == alloc_pages_outcome(old(self)@, num_pages as int, align_pow2, SIZE),
            r matches Ok(start) ==> {
                &&& start as int % page_align(align_pow2 as int, SIZE as int) == 0
                &&& old(self)@.b_pos <= start
                &&& start + num_pages * SIZE <= old(self)@.p_pos
            },
    {
        if num_pages == 0 {
            return Err(AllocError::InvalidParam);
        }
        let align = align_pow2.max(SIZE);
        if !is_power_of_two(align) {
            return Err(AllocError::InvalidParam);
        }
        let size = match num_pages.checked_mul(SIZE) {
            Some(s) => s,
            None => {
                return Err(AllocError::InvalidParam);
            },
        };
        let start = match self.p_pos.checked_sub(size) {
            Some(s) => s,
            None => {
                return Err(AllocError::NoMemory);
            },
        };
        proof {
            crate::align::lemma_pow2_positive(align);
            crate::align::lemma_align_bounds(start as int, align as int);
        }
        let start = align_down(start, align);
        if start < self.b_pos {
            return Err(AllocError::NoMemory);
        }
        self.p_pos = start;
        Ok(start)
    }

    /// Releasing pages does nothing: pages are never reclaimed.
    pub fn dealloc_pages(&mut self, pos: usize, num_pages: usize)
        requires
            old(self).wf(),
        ensures
            final(self)@ == old(self)@,
    {
    }

    /// Whole pages in the managed region.
    pub fn total_pages(&self) -> (r: usize)
        requires
            self.wf(),
            SIZE > 0,
        ensures
            r == self@.total_bytes() / SIZE as int,
    {
        (self.end - self.start) / SIZE
    }

    /// Whole pages in the pages area.
    pub fn used_pages(&self) -> (r: usize)
        requires
            self.wf(),
            SIZE > 0,
        ensures
            r == self@.used_pages(SIZE as int),
    {
        (self.end - self.p_pos) / SIZE
    }

    /// Whole pages that fit in the available area.
    pub fn available_pages(&self) -> (r: usize)
        requires
            self.wf(),
            SIZE > 0,
        ensures
            r == self@.available_bytes() / SIZE as int,
    {
        self.available_bytes() / SIZE
    }
}

} // verus!
