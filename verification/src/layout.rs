//! The size and alignment of a requested byte block.

use vstd::prelude::*;
use crate::align::{is_pow2, is_power_of_two, lemma_pow2_positive};

verus! {

/// Size and alignment of a block of bytes, with the rules of
/// `core::alloc::Layout`: the alignment is a power of two and the size,
/// rounded up to the alignment, does not exceed `isize::MAX`.
#[derive(Debug, Clone, Copy)]
pub struct Layout {
    size: usize,
    align: usize,
}

impl Layout {
    #[verifier::type_invariant]
    spec fn valid(self) -> bool {
        &&& is_pow2(self.align)
        &&& self.size + self.align - 1 <= isize::MAX
    }

    /// The requested size in bytes.
    pub closed spec fn spec_size(&self) -> usize {
        self.size
    }

    /// The requested alignment.
    pub closed spec fn spec_align(&self) -> usize {
        self.align
    }

    /// Builds a layout; `None` exactly when `align` is not a power of two or
    /// `size` rounded up to `align` would exceed `isize::MAX`.
    pub fn from_size_align(size: usize, align: usize) -> (r: Option<Layout>)
        ensures
            r is Some <==> is_pow2(align) && size + align - 1 <= isize::MAX,
            r matches Some(l) ==> l.size() == size && l.align() == align,
    {
        if !is_power_of_two(align) {
            return None;
        }
        proof {
            lemma_pow2_positive(align);
        }
        if align - 1 > isize::MAX as usize || size > (isize::MAX as usize) - (align - 1) {
            return None;
        }
        Some(Layout { size, align })
    }

    /// The requested size in bytes.
    #[verifier::when_used_as_spec(spec_size)]
    pub fn size(&self) -> (r: usize)
        ensures
            r == self.spec_size(),
            r + self.spec_align() - 1 <= isize::MAX,
    {
        proof {
            use_type_invariant(self);
        }
        self.size
    }

    /// The requested alignment, a power of two.
    #[verifier::when_used_as_spec(spec_align)]
    pub fn align(&self) -> (r: usize)
        ensures
            r == self.spec_align(),
            is_pow2(r),
            self.spec_size() + r - 1 <= isize::MAX,
    {
        proof {
            use_type_invariant(self);
        }
        self.align
    }
}

} // verus!
