use vstd::prelude::*;

verus! {

/// The value of `n` in `u64`, or `u64::MAX` where it does not fit.
pub open spec fn saturate_u64(n: u128) -> u64 {
    if n > u64::MAX as u128 {
        u64::MAX
    } else {
        n as u64
    }
}

/// Converts a block number to `u64`, saturating at `u64::MAX` instead of wrapping.
pub fn saturated_u64(n: u128) -> (r: u64)
    ensures
        r == saturate_u64(n),
        r as int == if n as int <= u64::MAX as int { n as int } else { u64::MAX as int },
{
    if n > u64::MAX as u128 {
        u64::MAX
    } else {
        n as u64
    }
}

} // verus!
