//! Power-of-two alignment arithmetic.

use vstd::prelude::*;
use vstd::arithmetic::power2::{lemma2_to64, lemma_pow2_strictly_increases, lemma_pow2_unfold, pow2};
use vstd::bits::{lemma_usize_low_bits_mask_is_mod, lemma_usize_pow2_no_overflow, low_bits_mask};

verus! {

/// `x` is `2^k` for some `k` that fits the width of `usize`.
pub open spec fn is_pow2(x: usize) -> bool {
    exists|k: nat| k < usize::BITS && x == pow2(k)
}

/// The largest multiple of `align` that is not above `pos`.
pub open spec fn align_down_spec(pos: int, align: int) -> int {
    pos - pos % align
}

/// The smallest multiple of `align` that is not below `pos`.
pub open spec fn align_up_spec(pos: int, align: int) -> int {
    align_down_spec(pos + align - 1, align)
}

/// A power of two has no set bit below its single one.
proof fn lemma_pow2_bits(x: usize)
    requires
        is_pow2(x),
    ensures
        x != 0 && x & ((x - 1) as usize) == 0,
{
    let k = choose|k: nat| k < usize::BITS && x == pow2(k);
    lemma_usize_pow2_no_overflow(k);
    vstd::arithmetic::power2::lemma_pow2_pos(k);
    lemma_usize_low_bits_mask_is_mod(x, k);
    assert(low_bits_mask(k) == x - 1);
    vstd::arithmetic::div_mod::lemma_mod_self_0(x as int);
}

/// A non-zero value with no set bit below its lowest one is a power of two.
proof fn lemma_bits_pow2(x: usize)
    requires
        x != 0,
        x & ((x - 1) as usize) == 0,
    ensures
        is_pow2(x),
    decreases x,
{
    lemma2_to64();
    if x == 1 {
        assert(x == pow2(0));
    } else {
        let y: usize = x / 2;
        assert(x % 2 == 0 && y != 0 && y & ((y - 1) as usize) == 0) by (bit_vector)
            requires
                x != 0,
                x != 1,
                x & ((x - 1) as usize) == 0,
                y == x / 2,
        ;
        lemma_bits_pow2(y);
        let k = choose|k: nat| k < usize::BITS && y == pow2(k);
        lemma_pow2_unfold(k + 1);
        assert(x == pow2(k + 1));
        if k + 1 >= usize::BITS {
            if k + 1 > usize::BITS {
                lemma_pow2_strictly_increases(usize::BITS as nat, k + 1);
            }
            assert(pow2(usize::BITS as nat) > usize::MAX);
        }
    }
}

/// Whether `x` is a power of two, as `usize::is_power_of_two` answers: it
/// is non-zero and has no set bit below its lowest one.
pub fn is_power_of_two(x: usize) -> (r: bool)
    ensures
        r == is_pow2(x),
{
    let r = x != 0 && x & (x - 1) == 0;
    proof {
        if r {
            lemma_bits_pow2(x);
        }
        if is_pow2(x) {
            lemma_pow2_bits(x);
        }
    }
    r
}

/// Clearing the bits below a power of two rounds down to a multiple of it.
proof fn lemma_mask_is_align_down(pos: usize, align: usize)
    requires
        is_pow2(align),
    ensures
        pos & !((align - 1) as usize) == pos - pos % align,
        pos & ((align - 1) as usize) == pos % align,
{
    let k = choose|k: nat| k < usize::BITS && align == pow2(k);
    lemma_usize_pow2_no_overflow(k);
    lemma_usize_low_bits_mask_is_mod(pos, k);
    assert(low_bits_mask(k) == align - 1);
    let m = (align - 1) as usize;
    assert(pos & !m == pos - (pos & m)) by (bit_vector);
}

/// A power of two is at least one.
pub proof fn lemma_pow2_positive(x: usize)
    requires
        is_pow2(x),
    ensures
        x >= 1,
{
    let k = choose|k: nat| k < usize::BITS && x == pow2(k);
    vstd::arithmetic::power2::lemma_pow2_pos(k);
}

/// Rounds `pos` down to a multiple of the power of two `align`.
pub fn align_down(pos: usize, align: usize) -> (r: usize)
    requires
        is_pow2(align),
    ensures
        r == align_down_spec(pos as int, align as int),
{
    proof {
        lemma_pow2_positive(align);
        lemma_mask_is_align_down(pos, align);
    }
    pos & !(align - 1)
}

/// Rounds `pos` up to a multiple of the power of two `align`.
pub fn align_up(pos: usize, align: usize) -> (r: usize)
    requires
        is_pow2(align),
        pos + align <= usize::MAX,
    ensures
        r == align_up_spec(pos as int, align as int),
{
    proof {
        lemma_pow2_positive(align);
        lemma_mask_is_align_down((pos + align - 1) as usize, align);
    }
    (pos + align - 1) & !(align - 1)
}

/// The rounding laws of [`align_down`] and [`align_up`]: each gives a
/// multiple of the alignment, within one alignment step of `pos`, on the
/// side it rounds towards.
pub proof fn lemma_align_bounds(pos: int, align: int)
    requires
        pos >= 0,
        align > 0,
    ensures
        align_down_spec(pos, align) % align == 0,
        align_down_spec(pos, align) <= pos < align_down_spec(pos, align) + align,
        align_up_spec(pos, align) % align == 0,
        pos <= align_up_spec(pos, align) < pos + align,
{
    vstd::arithmetic::div_mod::lemma_fundamental_div_mod(pos, align);
    vstd::arithmetic::div_mod::lemma_fundamental_div_mod(pos + align - 1, align);
    vstd::arithmetic::div_mod::lemma_mod_multiples_basic(pos / align, align);
    vstd::arithmetic::div_mod::lemma_mod_multiples_basic((pos + align - 1) / align, align);
    vstd::arithmetic::mul::lemma_mul_is_commutative(pos / align, align);
    vstd::arithmetic::mul::lemma_mul_is_commutative((pos + align - 1) / align, align);
}

} // verus!
