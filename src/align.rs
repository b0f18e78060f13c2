//! Rounding of offsets and sizes to the boundaries given by an alignment mask
//! (an alignment minus one), as non-coherent memory requires.
use vstd::prelude::*;
use vstd::arithmetic::power2::pow2;
use vstd::bits::{lemma_u64_low_bits_mask_is_mod, low_bits_mask};

verus! {

/// `value` lies on a boundary of the alignment described by `mask`.
pub open spec fn is_aligned(value: u64, mask: u64) -> bool {
    value & mask == 0
}

/// The value rounded down to the alignment: its mask bits cleared.
pub open spec fn align_down_spec(value: u64, mask: u64) -> u64 {
    value & !mask
}

/// The value rounded up to the alignment, or `None` where the rounding
/// overflows 64 bits.
pub open spec fn align_up_spec(value: u64, mask: u64) -> Option<u64> {
    if value + mask > u64::MAX {
        None
    } else {
        Some(((value + mask) as u64) & !mask)
    }
}

/// Rounding down moves a value by less than an alignment, onto a boundary.
pub proof fn lemma_align_down_facts(value: u64, mask: u64)
    ensures
        align_down_spec(value, mask) <= value,
        value - align_down_spec(value, mask) <= mask,
        is_aligned(align_down_spec(value, mask), mask),
        is_aligned(value, mask) ==> align_down_spec(value, mask) == value,
{
    assert((value & !mask) <= value) by (bit_vector);
    assert(value - (value & !mask) <= mask) by (bit_vector);
    assert((value & !mask) & mask == 0) by (bit_vector);
    assert(value & mask == 0 ==> value & !mask == value) by (bit_vector);
}

/// Rounding up moves a value by less than an alignment, onto a boundary.
pub proof fn lemma_align_up_facts(value: u64, mask: u64)
    requires
        value + mask <= u64::MAX,
    ensures
        value <= align_up_spec(value, mask)->Some_0,
        align_up_spec(value, mask)->Some_0 - value <= mask,
        is_aligned(align_up_spec(value, mask)->Some_0, mask),
        is_aligned(value, mask) ==> align_up_spec(value, mask)->Some_0 == value,
{
    let s = (value + mask) as u64;
    assert(s == value + mask);
    assert(s == value + mask ==> value <= (s & !mask)) by (bit_vector);
    assert(s == value + mask ==> (s & !mask) - value <= mask) by (bit_vector);
    assert((s & !mask) & mask == 0) by (bit_vector);
    assert(s == value + mask && value & mask == 0 ==> (s & !mask) == value) by (bit_vector);
}

/// Rounds `value` down to the alignment described by `mask`.
pub fn align_down(value: u64, mask: u64) -> (r: u64)
    ensures
        r == align_down_spec(value, mask),
        r <= value,
        value - r <= mask,
        is_aligned(r, mask),
{
    proof {
        lemma_align_down_facts(value, mask);
    }
    value & !mask
}

/// Rounds `value` up to the alignment described by `mask`; `None` where the
/// result would not fit in 64 bits.
pub fn align_up(value: u64, mask: u64) -> (r: Option<u64>)
    ensures
        r == align_up_spec(value, mask),
        r is None <==> value + mask > u64::MAX,
        r matches Some(up) ==> value <= up && up - value <= mask && is_aligned(up, mask),
{
    match value.checked_add(mask) {
        Some(sum) => {
            proof {
                lemma_align_up_facts(value, mask);
            }
            Some(sum & !mask)
        },
        None => None,
    }
}

/// Rounding down never passes the value and rounding up never falls short
/// of it; an aligned value is left as it is by both; rounding up fails
/// exactly when the value lies within `mask` of the largest 64-bit value.
pub proof fn lemma_align_round_trip_bounds(x: u64, mask: u64)
    ensures
        align_down_spec(x, mask) <= x,
        align_up_spec(x, mask) matches Some(up) ==> x <= up,
        is_aligned(x, mask) ==> align_down_spec(x, mask) == x,
        is_aligned(x, mask) ==> align_up_spec(x, mask) == Some(x),
        align_up_spec(x, mask) is None <==> x > u64::MAX - mask,
{
    lemma_align_down_facts(x, mask);
    assert(x & mask == 0 ==> x <= 0xffff_ffff_ffff_ffffu64 - mask) by (bit_vector);
    if x + mask <= u64::MAX {
        lemma_align_up_facts(x, mask);
    }
}

/// Where the alignment is a power of two `2^k`, so that the mask is
/// `2^k - 1`, a value is aligned exactly when it is a multiple of `2^k`, and
/// rounding down gives the largest multiple of `2^k` that is not above it.
pub proof fn lemma_align_down_largest_multiple(value: u64, k: nat)
    requires
        k < 64,
    ensures
        is_aligned(value, low_bits_mask(k) as u64) <==> value as int % pow2(k) as int == 0,
        align_down_spec(value, low_bits_mask(k) as u64) == value - value as int % pow2(k) as int,
{
    let mask = low_bits_mask(k) as u64;
    lemma_u64_low_bits_mask_is_mod(value, k);
    vstd::arithmetic::power2::lemma_pow2_strictly_increases(k, 64);
    vstd::arithmetic::power2::lemma2_to64_rest();
    assert((value & !mask) == value - (value & mask)) by (bit_vector);
}

} // verus!
