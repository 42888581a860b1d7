use vstd::prelude::*;

verus! {

/// `r` is the integer square root of `n`: the largest natural whose square is at most `n`.
pub open spec fn is_floor_sqrt(n: nat, r: nat) -> bool {
    &&& r * r <= n
    &&& n < (r + 1) * (r + 1)
}

/// Gold and similar rewards grow like `n / sqrt(n)`, that is the square root of `n`,
/// rounded down (zero for zero).
pub fn sub_linear_scaling(n: u32) -> (r: u32)
    ensures
        is_floor_sqrt(n as nat, r as nat),
{
    let mut lo: u64 = 0;
    let mut hi: u64 = 65536;
    assert(n < hi * hi) by (nonlinear_arith)
        requires
            hi == 65536,
            n <= u32::MAX,
    ;
    while lo + 1 < hi
        invariant
            lo < hi <= 65536,
            lo * lo <= n,
            n < hi * hi,
        decreases hi - lo,
    {
        let mid = lo + (hi - lo) / 2;
        assert(mid * mid <= 65536 * 65536) by (nonlinear_arith)
            requires
                mid <= 65536,
        ;
        if mid * mid <= n as u64 {
            lo = mid;
        } else {
            hi = mid;
        }
    }
    assert(lo + 1 == hi);
    lo as u32
}

/// The integer square root of `n`.
pub open spec fn floor_sqrt_of(n: nat) -> nat {
    choose|r: nat| is_floor_sqrt(n, r)
}

/// The integer square root is unique: any `r` that is one is `floor_sqrt_of(n)`.
pub proof fn lemma_floor_sqrt_unique(n: nat, r: nat)
    requires
        is_floor_sqrt(n, r),
    ensures
        floor_sqrt_of(n) == r,
{
    let s = floor_sqrt_of(n);
    assert(is_floor_sqrt(n, s));
    if s < r {
        assert((s + 1) * (s + 1) <= r * r) by (nonlinear_arith)
            requires
                s < r,
        ;
    } else if r < s {
        assert((r + 1) * (r + 1) <= s * s) by (nonlinear_arith)
            requires
                r < s,
        ;
    }
}

/// The integer square root of a 32-bit number is below 65536.
pub proof fn lemma_floor_sqrt_bound(n: nat, r: nat)
    requires
        is_floor_sqrt(n, r),
        n <= u32::MAX,
    ensures
        r < 65536,
{
    if r >= 65536 {
        assert(r * r >= 65536 * 65536) by (nonlinear_arith)
            requires
                r >= 65536,
        ;
    }
}

} // verus!
