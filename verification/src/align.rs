//! Address alignment for power-of-two alignments.

use vstd::prelude::*;
use vstd::arithmetic::power2::pow2;

verus! {

/// `alignment` is a power of two that fits in a `usize`.
pub open spec fn is_power_of_two(alignment: usize) -> bool {
    exists|k: nat| k < usize::BITS && pow2(k) == alignment
}

/// The smallest multiple of `alignment` that is at least `addr`.
pub open spec fn round_up(addr: int, alignment: int) -> int {
    ((addr + alignment - 1) / alignment) * alignment
}

/// Clearing the bits below a power-of-two alignment rounds down to a multiple of it.
proof fn lemma_mask_rounds_down(y: usize, alignment: usize)
    requires
        is_power_of_two(alignment),
    ensures
        y & !((alignment - 1) as usize) == (y / alignment) * alignment,
        alignment > 0,
{
    let k = choose|k: nat| k < usize::BITS && pow2(k) == alignment;
    vstd::bits::lemma_usize_low_bits_mask_is_mod(y, k);
    vstd::arithmetic::power2::lemma_pow2_pos(k);
    assert(vstd::bits::low_bits_mask(k) == alignment - 1);
    assert(y & ((alignment - 1) as usize) == y % alignment);
    assert((y & !((alignment - 1) as usize)) + (y & ((alignment - 1) as usize)) == y)
        by (bit_vector);
    vstd::arithmetic::div_mod::lemma_fundamental_div_mod(y as int, alignment as int);
    assert(alignment * (y / alignment) == (y / alignment) * alignment) by (nonlinear_arith);
}

/// Returns `ptr` rounded up to the next multiple of the power-of-two
/// `alignment`: the least aligned address at or above `ptr`. The padding is
/// `res - ptr`, less than `alignment`; an address that is already aligned is
/// returned unchanged.
pub fn align_ptr(ptr: usize, alignment: usize) -> (res: usize)
    requires
        is_power_of_two(alignment),
        ptr + alignment - 1 <= usize::MAX,
    ensures
        res == round_up(ptr as int, alignment as int),
        res % alignment == 0,
        ptr <= res < ptr + alignment,
        ptr % alignment == 0 ==> res == ptr,
{
    proof {
        lemma_mask_rounds_down((ptr + alignment - 1) as usize, alignment);
        let a = alignment as int;
        let y = ptr + a - 1;
        vstd::arithmetic::div_mod::lemma_fundamental_div_mod(y, a);
        vstd::arithmetic::div_mod::lemma_mod_multiples_basic(y / a, a);
        assert(a * (y / a) == (y / a) * a) by (nonlinear_arith);
        assert(0 <= y % a < a);
        if ptr % alignment == 0 {
            let r = (y / a) * a;
            vstd::arithmetic::div_mod::lemma_fundamental_div_mod(ptr as int, a);
            vstd::arithmetic::div_mod::lemma_fundamental_div_mod(r, a);
            let (q1, q2) = (r / a, ptr as int / a);
            assert(q1 == q2) by (nonlinear_arith)
                requires
                    a > 0,
                    0 <= a * q1 - a * q2 < a,
            ;
        }
    }
    (ptr + (alignment - 1)) & !(alignment - 1)
}

/// Rounding up is idempotent: a rounded-up address is already aligned.
pub proof fn lemma_round_up_idempotent(addr: int, alignment: int)
    requires
        alignment > 0,
    ensures
        round_up(round_up(addr, alignment), alignment) == round_up(addr, alignment),
{
    let q = (addr + alignment - 1) / alignment;
    let r = q * alignment;
    assert((r + alignment - 1) / alignment == q) by (nonlinear_arith)
        requires
            alignment > 0,
            r == q * alignment,
    {
        vstd::arithmetic::div_mod::lemma_fundamental_div_mod_converse(
            r + alignment - 1,
            alignment,
            q,
            alignment - 1,
        );
    }
}

} // verus!
