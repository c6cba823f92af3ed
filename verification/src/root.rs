//! Integer square roots.

use vstd::prelude::*;

verus! {

/// `r` is the square root of `n`, rounded down.
pub open spec fn is_floor_root(n: int, r: int) -> bool {
    0 <= r && r * r <= n < (r + 1) * (r + 1)
}

/// Squaring is strictly monotonic on the natural numbers.
pub proof fn lemma_square_strictly_monotonic(a: int, b: int)
    requires
        0 <= a < b,
    ensures
        a * a < b * b,
{
    assert(a * a < b * b) by (nonlinear_arith)
        requires
            0 <= a < b,
    ;
}

/// The square root of `n`, rounded down, for `n` below 2^62.
pub fn floor_root(n: u64) -> (r: u64)
    requires
        n < 0x4000_0000_0000_0000,
    ensures
        is_floor_root(n as int, r as int),
        r < 0x8000_0000,
{
    let mut lo: u64 = 0;
    let mut hi: u64 = 0x8000_0000;
    assert(0x8000_0000u64 * 0x8000_0000u64 == 0x4000_0000_0000_0000u64) by (nonlinear_arith);
    while hi - lo > 1
        invariant
            lo < hi <= 0x8000_0000,
            lo * lo <= n < hi * hi,
        decreases hi - lo,
    {
        let mid: u64 = lo + (hi - lo) / 2;
        assert(mid * mid < 0x4000_0000_0000_0000) by (nonlinear_arith)
            requires
                mid < 0x8000_0000,
        ;
        if mid * mid <= n {
            lo = mid;
        } else {
            hi = mid;
        }
    }
    lo
}

} // verus!
