use vstd::prelude::*;

verus! {

/// Whether bit `idx` of `bitmap` is set.
pub open spec fn bit_of(bitmap: u8, idx: u8) -> bool {
    (bitmap >> idx) & 1u8 == 1u8
}

/// 1 when bit `idx` of `bitmap` is set, else 0.
pub open spec fn bit_value(bitmap: u8, idx: u8) -> nat {
    if bit_of(bitmap, idx) { 1 } else { 0 }
}

/// Number of set bits of `bitmap`: the number of roles that approved.
pub open spec fn approval_count(bitmap: u8) -> nat {
    bit_value(bitmap, 0) + bit_value(bitmap, 1) + bit_value(bitmap, 2) + bit_value(bitmap, 3)
        + bit_value(bitmap, 4) + bit_value(bitmap, 5) + bit_value(bitmap, 6) + bit_value(bitmap, 7)
}

pub fn has_bit(bitmap: u8, idx: u8) -> (r: bool)
    requires
        idx < 8,
    ensures
        r == bit_of(bitmap, idx),
{
    ((bitmap >> idx) & 1) == 1
}

pub fn set_bit(bitmap: &mut u8, idx: u8)
    requires
        idx < 8,
    ensures
        *final(bitmap) == *old(bitmap) | (1u8 << idx),
        idx < 3 && *old(bitmap) < 8 ==> *final(bitmap) < 8,
        forall|j: u8| j < 8 ==> bit_of(*final(bitmap), j) == (j == idx || bit_of(*old(bitmap), j)),
{
    let b: u8 = *bitmap;
    let r: u8 = b | (1u8 << idx);
    assert((idx < 3 && b < 8 ==> r < 8) && forall|j: u8| j < 8 ==> ((r >> j) & 1u8 == 1u8) == (j == idx || (b >> j) & 1u8 == 1u8)) by (bit_vector)
        requires
            idx < 8,
            r == b | (1u8 << idx),
    ;
    *bitmap = r;
}

pub fn clear_bit(bitmap: &mut u8, idx: u8)
    requires
        idx < 8,
    ensures
        *final(bitmap) == *old(bitmap) & !(1u8 << idx),
        *old(bitmap) < 8 ==> *final(bitmap) < 8,
        forall|j: u8| j < 8 ==> bit_of(*final(bitmap), j) == (j != idx && bit_of(*old(bitmap), j)),
{
    let b: u8 = *bitmap;
    let r: u8 = b & !(1u8 << idx);
    assert((b < 8 ==> r < 8) && forall|j: u8| j < 8 ==> ((r >> j) & 1u8 == 1u8) == (j != idx && (b >> j) & 1u8 == 1u8)) by (bit_vector)
        requires
            idx < 8,
            r == b & !(1u8 << idx),
    ;
    *bitmap = r;
}

/// Number of set bits of `bitmap`: the number of roles that have approved.
pub fn bitcount(bitmap: u8) -> (r: u32)
    ensures
        r == approval_count(bitmap),
        r <= 8,
        bitmap < 8 ==> r <= 3,
{
    let mut r: u32 = 0;
    let mut i: u8 = 0;
    while i < 8
        invariant
            i <= 8,
            r <= i,
            r == count_below(bitmap, i),
        decreases 8 - i,
    {
        if has_bit(bitmap, i) {
            r = r + 1;
        }
        i = i + 1;
    }
    proof {
        reveal_with_fuel(count_below, 9);
        assert(bitmap < 8 ==> forall|j: u8| 3 <= j < 8 ==> (bitmap >> j) & 1u8 != 1u8) by (bit_vector);
        assert(bitmap < 8 ==> !bit_of(bitmap, 3) && !bit_of(bitmap, 4) && !bit_of(bitmap, 5) && !bit_of(bitmap, 6) && !bit_of(bitmap, 7));
    }
    r
}

/// Number of set bits of `bitmap` below bit `n`.
pub open spec fn count_below(bitmap: u8, n: u8) -> nat
    decreases n,
{
    if n == 0 { 0 } else { count_below(bitmap, (n - 1) as u8) + bit_value(bitmap, (n - 1) as u8) }
}

} // verus!
