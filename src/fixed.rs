use vstd::prelude::*;

verus! {

/// `s` is the integer square root of `n`: the largest whole number whose square is at most `n`.
pub open spec fn is_floor_sqrt(n: int, s: int) -> bool {
    0 <= s && s * s <= n && n < (s + 1) * (s + 1)
}

/// The integer square root of a natural number.
pub open spec fn floor_sqrt(n: int) -> int {
    choose|s: int| is_floor_sqrt(n, s)
}

/// At most one number is the integer square root of `n`.
pub proof fn lemma_floor_sqrt_unique(n: int, s: int, t: int)
    requires
        is_floor_sqrt(n, s),
        is_floor_sqrt(n, t),
    ensures
        s == t,
{
    if s < t {
        assert((s + 1) * (s + 1) <= t * t) by (nonlinear_arith)
            requires
                0 <= s < t,
        {
        }
    } else if t < s {
        assert((t + 1) * (t + 1) <= s * s) by (nonlinear_arith)
            requires
                0 <= t < s,
        {
        }
    }
}

/// Integer square root of a 64-bit value, by bisection.
pub fn isqrt(n: u64) -> (s: u64)
    ensures
        is_floor_sqrt(n as int, s as int),
        s as int == floor_sqrt(n as int),
        s <= 4294967295,
{
    let mut lo: u64 = 0;
    let mut hi: u64 = 4294967296;
    while hi - lo > 1
        invariant
            lo < hi <= 4294967296,
            lo * lo <= n,
            n < hi * hi,
        decreases hi - lo,
    {
        let mid: u64 = lo + (hi - lo) / 2;
        assert(mid * mid <= 4294967296 * 4294967296) by (nonlinear_arith)
            requires
                mid <= 4294967296,
        {
        }
        if (mid as u128) * (mid as u128) <= n as u128 {
            lo = mid;
        } else {
            hi = mid;
        }
    }
    proof {
        lemma_floor_sqrt_exists(n as int);
        lemma_floor_sqrt_unique(n as int, lo as int, floor_sqrt(n as int));
    }
    lo
}

/// A positive value has a positive integer square root.
pub proof fn lemma_floor_sqrt_positive(n: int)
    requires
        n >= 1,
    ensures
        floor_sqrt(n) >= 1,
{
    let s = floor_sqrt(n);
    lemma_floor_sqrt_exists(n);
    if s == 0 {
        assert(false);
    }
}

/// Every natural number has an integer square root.
pub proof fn lemma_floor_sqrt_exists(n: int)
    requires
        n >= 0,
    ensures
        is_floor_sqrt(n, floor_sqrt(n)),
{
    let s = lemma_witness_sqrt(n);
    assert(is_floor_sqrt(n, s));
}

proof fn lemma_witness_sqrt(n: int) -> (s: int)
    requires
        n >= 0,
    ensures
        is_floor_sqrt(n, s),
    decreases n,
{
    if n == 0 {
        assert(is_floor_sqrt(0, 0));
        0
    } else {
        let t = lemma_witness_sqrt(n - 1);
        if n < (t + 1) * (t + 1) {
            t
        } else {
            assert(n < (t + 2) * (t + 2)) by (nonlinear_arith)
                requires
                    n - 1 < (t + 1) * (t + 1),
                    t >= 0,
            {
            }
            assert(((t + 1) + 1) * ((t + 1) + 1) == (t + 2) * (t + 2));
            t + 1
        }
    }
}

} // verus!
