use early_alloc::align::{align_down, align_up, is_power_of_two};
use early_alloc::bump::{AllocError, EarlyAllocator};
use early_alloc::layout::Layout;

const PAGE: usize = 4096;

fn layout(size: usize, align: usize) -> Layout {
    Layout::from_size_align(size, align).unwrap()
}

fn fresh(start: usize, size: usize) -> EarlyAllocator<PAGE> {
    let mut a = EarlyAllocator::<PAGE>::new();
    a.init(start, size);
    a
}

#[test]
fn align_down_rounds_to_multiple() {
    assert_eq!(align_down(0x1234, 0x1000), 0x1000);
    assert_eq!(align_down(0x1000, 0x1000), 0x1000);
    assert_eq!(align_down(7, 1), 7);
    assert_eq!(align_down(0xfff, 0x1000), 0);
}

#[test]
fn align_up_rounds_to_multiple() {
    assert_eq!(align_up(0x1234, 0x1000), 0x2000);
    assert_eq!(align_up(0x1000, 0x1000), 0x1000);
    assert_eq!(align_up(0, 8), 0);
    assert_eq!(align_up(9, 8), 16);
}

#[test]
fn page_alignment_must_be_power_of_two() {
    let mut a = fresh(0x10000, 0x10000);
    assert_eq!(a.alloc_pages(1, 0x3000), Err(AllocError::InvalidParam));
    assert_eq!(a.alloc_pages(1, 0x6000), Err(AllocError::InvalidParam));
    assert_eq!(a.alloc_pages(1, 0x8000), Ok(0x18000));
}

#[test]
fn layout_rules() {
    assert!(Layout::from_size_align(16, 8).is_some());
    assert!(Layout::from_size_align(16, 12).is_none());
    assert!(Layout::from_size_align(16, 0).is_none());
    assert!(Layout::from_size_align(isize::MAX as usize, 1).is_some());
    assert!(Layout::from_size_align(isize::MAX as usize, 2).is_none());
    let l = layout(24, 16);
    assert_eq!(l.size(), 24);
    assert_eq!(l.align(), 16);
}

#[test]
fn new_allocator_is_empty() {
    let a = EarlyAllocator::<PAGE>::new();
    assert!(a.is_empty());
    assert_eq!(a.total_bytes(), 0);
    assert_eq!(a.used_bytes(), 0);
    assert_eq!(a.available_bytes(), 0);
}

#[test]
fn init_makes_whole_region_available() {
    let a = fresh(0x10000, 0x10000);
    assert!(!a.is_empty());
    assert_eq!(a.total_bytes(), 0x10000);
    assert_eq!(a.used_bytes(), 0);
    assert_eq!(a.available_bytes(), 0x10000);
    assert_eq!(a.total_pages(), 16);
    assert_eq!(a.used_pages(), 0);
    assert_eq!(a.available_pages(), 16);
}

#[test]
fn bytes_are_allocated_forward() {
    let mut a = fresh(0x10000, 0x10000);
    assert_eq!(a.alloc_bytes(layout(16, 8)), Ok(0x10000));
    assert_eq!(a.alloc_bytes(layout(3, 1)), Ok(0x10010));
    // Rounded up to the alignment: 0x10013 -> 0x10020.
    assert_eq!(a.alloc_bytes(layout(8, 32)), Ok(0x10020));
    assert_eq!(a.used_bytes(), 0x28);
    assert_eq!(a.byte_pos(), 0x10028);
    assert_eq!(a.available_bytes(), 0x10000 - 0x28);
}

#[test]
fn zero_sized_block_takes_one_byte() {
    let mut a = fresh(0x10000, 0x10000);
    assert_eq!(a.alloc_bytes(layout(0, 1)), Ok(0x10000));
    assert_eq!(a.alloc_bytes(layout(0, 1)), Ok(0x10001));
    assert_eq!(a.used_bytes(), 2);
}

#[test]
fn successive_blocks_do_not_overlap() {
    let mut a = fresh(0x10000, 0x10000);
    let first = a.alloc_bytes(layout(100, 4)).unwrap();
    let second = a.alloc_bytes(layout(50, 64)).unwrap();
    assert!(first + 100 <= second);
    assert_eq!(second % 64, 0);
}

#[test]
fn pages_are_allocated_backward() {
    let mut a = fresh(0x10000, 0x10000);
    assert_eq!(a.alloc_pages(2, PAGE), Ok(0x1e000));
    assert_eq!(a.used_pages(), 2);
    assert_eq!(a.alloc_pages(1, 0), Ok(0x1d000));
    assert_eq!(a.used_pages(), 3);
    assert_eq!(a.available_pages(), 13);
}

#[test]
fn pages_are_aligned_down() {
    let mut a = fresh(0x10000, 0x10000);
    assert_eq!(a.alloc_pages(1, PAGE), Ok(0x1f000));
    // Needs 0x4000 alignment: 0x1e000 rounds down to 0x1c000.
    assert_eq!(a.alloc_pages(1, 0x4000), Ok(0x1c000));
    assert_eq!(a.used_pages(), 4);
}

#[test]
fn bytes_stay_below_pages() {
    let mut a = fresh(0x10000, 0x10000);
    let page = a.alloc_pages(1, PAGE).unwrap();
    let block = a.alloc_bytes(layout(0xe000, 1)).unwrap();
    assert!(block + 0xe000 <= page);
    assert_eq!(a.alloc_bytes(layout(0x1001, 1)), Err(AllocError::NoMemory));
    let block2 = a.alloc_bytes(layout(0x1000, 1)).unwrap();
    assert_eq!(block2 + 0x1000, page);
    assert_eq!(a.available_bytes(), 0);
    assert_eq!(a.alloc_pages(1, PAGE), Err(AllocError::NoMemory));
}

#[test]
fn page_request_errors() {
    let mut a = fresh(0x10000, 0x10000);
    assert_eq!(a.alloc_pages(0, PAGE), Err(AllocError::InvalidParam));
    assert_eq!(a.alloc_pages(1, 0x3000), Err(AllocError::InvalidParam));
    assert_eq!(a.alloc_pages(usize::MAX, PAGE), Err(AllocError::InvalidParam));
    assert_eq!(a.alloc_pages(17, PAGE), Err(AllocError::NoMemory));
    assert_eq!(a.used_pages(), 0);
    assert_eq!(a.available_bytes(), 0x10000);
}

#[test]
fn page_request_beyond_address_zero_fails() {
    // More pages than lie below the top of the pages area.
    let mut a = fresh(0x1000, 0x1000);
    assert_eq!(a.alloc_pages(3, PAGE), Err(AllocError::NoMemory));
}

#[test]
fn byte_request_errors() {
    let mut a = fresh(0x10000, 0x10000);
    assert_eq!(a.alloc_bytes(layout(0x10001, 1)), Err(AllocError::NoMemory));
    assert_eq!(a.used_bytes(), 0);
    let mut top = fresh(usize::MAX - 0x1000, 0x1000);
    assert_eq!(top.alloc_bytes(layout(0x1001, 1)), Err(AllocError::InvalidParam));
    assert_eq!(top.used_bytes(), 0);
}

#[test]
fn block_at_address_zero_is_refused_untaken() {
    let mut a = fresh(0, 0x1000);
    assert_eq!(a.alloc_bytes(layout(1, 1)), Err(AllocError::NoMemory));
    assert_eq!(a.used_bytes(), 0);
    assert_eq!(a.alloc_bytes(layout(16, 8)), Err(AllocError::NoMemory));
    assert_eq!(a.used_bytes(), 0);
    assert_eq!(a.available_bytes(), 0x1000);
    // Pages can still be handed out, and a refused block is never counted.
    assert_eq!(a.alloc_pages(1, 0x1000), Ok(0));
    assert_eq!(a.used_pages(), 1);
}

#[test]
fn releasing_last_block_reclaims_bytes() {
    let mut a = fresh(0x10000, 0x10000);
    let l = layout(64, 8);
    let p1 = a.alloc_bytes(l).unwrap();
    let p2 = a.alloc_bytes(l).unwrap();
    a.dealloc(p1, l);
    assert_eq!(a.used_bytes(), 128);
    a.dealloc(p2, l);
    assert_eq!(a.used_bytes(), 0);
    assert_eq!(a.alloc_bytes(l), Ok(0x10000));
}

#[test]
fn release_without_blocks_changes_nothing() {
    let mut a = fresh(0x10000, 0x10000);
    a.dealloc(0x10000, layout(8, 8));
    assert_eq!(a.used_bytes(), 0);
    assert_eq!(a.available_bytes(), 0x10000);
}

#[test]
fn alloc_then_dealloc_restores_state() {
    let mut a = fresh(0x10000, 0x10000);
    a.alloc_pages(1, PAGE).unwrap();
    let l = layout(100, 16);
    let p = a.alloc_bytes(l).unwrap();
    a.dealloc(p, l);
    assert_eq!(a.used_bytes(), 0);
    assert_eq!(a.available_bytes(), 0xf000);
    assert_eq!(a.used_pages(), 1);
}

#[test]
fn pages_are_never_reclaimed() {
    let mut a = fresh(0x10000, 0x10000);
    let p = a.alloc_pages(2, PAGE).unwrap();
    a.dealloc_pages(p, 2);
    assert_eq!(a.used_pages(), 2);
    let l = layout(8, 8);
    let b = a.alloc_bytes(l).unwrap();
    a.dealloc(b, l);
    assert_eq!(a.used_pages(), 2);
    assert_eq!(a.total_bytes(), 0x10000);
}

#[test]
fn accounting_adds_up() {
    let mut a = fresh(0x10000, 0x10000);
    a.alloc_bytes(layout(0x123, 8)).unwrap();
    a.alloc_pages(3, PAGE).unwrap();
    assert_eq!(
        a.total_bytes(),
        a.used_bytes() + a.available_bytes() + a.used_pages() * PAGE
    );
}

#[test]
fn add_memory_to_empty_allocator_initializes() {
    let mut a = EarlyAllocator::<PAGE>::new();
    assert_eq!(a.add_memory(0x20000, 0x8000), Ok(()));
    assert_eq!(a.total_bytes(), 0x8000);
    assert_eq!(a.alloc_bytes(layout(1, 1)), Ok(0x20000));
}

#[test]
fn add_memory_ignores_empty_region() {
    let mut a = fresh(0x10000, 0x1000);
    assert_eq!(a.add_memory(0x50000, 0), Ok(()));
    assert_eq!(a.total_bytes(), 0x1000);
}

#[test]
fn add_memory_overflow_is_invalid() {
    let mut a = fresh(0x10000, 0x1000);
    assert_eq!(a.add_memory(usize::MAX, 2), Err(AllocError::InvalidParam));
    assert_eq!(a.total_bytes(), 0x1000);
}

#[test]
fn add_memory_overlap_is_refused() {
    let mut a = fresh(0x10000, 0x1000);
    assert_eq!(a.add_memory(0x10800, 0x1000), Err(AllocError::MemoryOverlap));
    assert_eq!(a.add_memory(0xf000, 0x1001), Err(AllocError::MemoryOverlap));
    assert_eq!(a.total_bytes(), 0x1000);
}

#[test]
fn add_memory_joins_below_unused_bytes_area() {
    let mut a = fresh(0x10000, 0x1000);
    assert_eq!(a.add_memory(0xf000, 0x1000), Ok(()));
    assert_eq!(a.total_bytes(), 0x2000);
    assert_eq!(a.alloc_bytes(layout(1, 1)), Ok(0xf000));
}

#[test]
fn add_memory_joins_above_unused_pages_area() {
    let mut a = fresh(0x10000, 0x1000);
    a.alloc_bytes(layout(1, 1)).unwrap();
    assert_eq!(a.add_memory(0x11000, 0x1000), Ok(()));
    assert_eq!(a.total_bytes(), 0x2000);
    assert_eq!(a.alloc_pages(1, PAGE), Ok(0x11000));
}

#[test]
fn add_memory_far_away_is_ignored() {
    let mut a = fresh(0x10000, 0x1000);
    assert_eq!(a.add_memory(0x40000, 0x1000), Ok(()));
    assert_eq!(a.total_bytes(), 0x1000);
    // Touching the bytes end while bytes are used: ignored too.
    a.alloc_bytes(layout(1, 1)).unwrap();
    assert_eq!(a.add_memory(0xf000, 0x1000), Ok(()));
    assert_eq!(a.total_bytes(), 0x1000);
}

#[test]
fn many_small_blocks_then_release_all() {
    let mut a = fresh(0x100000, 0x100000);
    let l = layout(24, 8);
    let mut blocks = Vec::new();
    for _ in 0..1000 {
        blocks.push(a.alloc_bytes(l).unwrap());
    }
    for w in blocks.windows(2) {
        assert!(w[0] + 24 <= w[1]);
    }
    for b in &blocks {
        a.dealloc(*b, l);
    }
    assert_eq!(a.used_bytes(), 0);
    assert_eq!(a.available_bytes(), 0x100000);
}

#[test]
fn used_pages_never_fall() {
    let mut a = fresh(0x10000, 0x10000);
    let before = a.used_pages();
    assert_eq!(a.alloc_pages(3, PAGE), Ok(0x1d000));
    assert!(a.used_pages() >= before + 3);
    let p = a.used_pages();
    let l = layout(8, 8);
    let b = a.alloc_bytes(l).unwrap();
    assert!(a.used_pages() >= p);
    a.dealloc(b, l);
    assert!(a.used_pages() >= p);
    a.dealloc_pages(0x1d000, 3);
    assert_eq!(a.used_pages(), p);
    assert_eq!(a.add_memory(0x40000, 0x1000), Ok(()));
    assert!(a.used_pages() >= p);
}

#[test]
fn k_blocks_released_restore_bytes_area() {
    let mut a = fresh(0x10000, 0x10000);
    let first = a.alloc_bytes(layout(10, 4)).unwrap();
    let ls = [layout(3, 1), layout(64, 32), layout(0, 8)];
    let mut ps = Vec::new();
    for l in ls {
        ps.push(a.alloc_bytes(l).unwrap());
    }
    for (p, l) in ps.iter().zip(ls) {
        a.dealloc(*p, l);
    }
    assert!(a.used_bytes() > 0);
    a.dealloc(first, layout(10, 4));
    assert_eq!(a.used_bytes(), 0);
    assert_eq!(a.alloc_bytes(layout(10, 4)), Ok(first));
}

#[test]
fn power_of_two_check() {
    assert!(is_power_of_two(1));
    assert!(is_power_of_two(4096));
    assert!(is_power_of_two(1 << (usize::BITS - 1)));
    assert!(!is_power_of_two(0));
    assert!(!is_power_of_two(12));
    assert!(!is_power_of_two(usize::MAX));
}
