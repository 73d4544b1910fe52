//! Facts about single bits of a 32-bit mask.

use vstd::prelude::*;

verus! {

/// Whether bit `i` of `mask` is set.  No bit outside `0..32` is.
pub open spec fn bit_is_set(mask: u32, i: int) -> bool {
    0 <= i < 32 && (mask >> (i as u32)) & 1 == 1
}

/// Setting bit `i` sets that bit and leaves every other bit as it was.
pub proof fn lemma_set_bit(mask: u32, i: u32)
    requires
        i < 32,
    ensures
        forall|j: int| #[trigger]
            bit_is_set(mask | (1u32 << i), j) <==> (j == i || bit_is_set(mask, j)),
{
    assert forall|j: int| #[trigger]
        bit_is_set(mask | (1u32 << i), j) <==> (j == i || bit_is_set(mask, j)) by {
        if 0 <= j < 32 {
            let k = j as u32;
            assert((((mask | (1u32 << i)) >> k) & 1 == 1) <==> (k == i || (mask >> k) & 1 == 1))
                by (bit_vector)
                requires
                    i < 32,
                    k < 32,
            ;
        }
    }
}

/// Clearing bit `i` clears that bit and leaves every other bit as it was.
pub proof fn lemma_clear_bit(mask: u32, i: u32)
    requires
        i < 32,
    ensures
        forall|j: int| #[trigger]
            bit_is_set(mask & !(1u32 << i), j) <==> (j != i && bit_is_set(mask, j)),
{
    assert forall|j: int| #[trigger]
        bit_is_set(mask & !(1u32 << i), j) <==> (j != i && bit_is_set(mask, j)) by {
        if 0 <= j < 32 {
            let k = j as u32;
            assert((((mask & !(1u32 << i)) >> k) & 1 == 1) <==> (k != i && (mask >> k) & 1 == 1))
                by (bit_vector)
                requires
                    i < 32,
                    k < 32,
            ;
        }
    }
}

/// The empty mask has no bit set.
pub proof fn lemma_no_bit_of_zero()
    ensures
        forall|j: int| !#[trigger] bit_is_set(0u32, j),
{
    assert forall|j: int| !#[trigger] bit_is_set(0u32, j) by {
        if 0 <= j < 32 {
            let k = j as u32;
            assert((0u32 >> k) & 1 == 0) by (bit_vector);
        }
    }
}

} // verus!
