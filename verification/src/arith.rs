//! Integer arithmetic that the fractions rest on: rounding division and the
//! integer square root.

use vstd::prelude::*;
use vstd::arithmetic::div_mod::{lemma_fundamental_div_mod, lemma_mod_bound};

verus! {

/// The magnitude of `v`.
pub open spec fn abs(v: int) -> int {
    if v < 0 {
        -v
    } else {
        v
    }
}

/// The larger of `a` and `b`.
pub open spec fn max(a: int, b: int) -> int {
    if a < b {
        b
    } else {
        a
    }
}

/// The sign of `v`: -1, 0 or 1.
pub open spec fn signum(v: int) -> int {
    if v < 0 {
        -1
    } else if v == 0 {
        0
    } else {
        1
    }
}

/// `r` is the square root of `n`, rounded down.
pub open spec fn is_floor_sqrt(n: int, r: int) -> bool {
    0 <= r && r * r <= n < (r + 1) * (r + 1)
}

/// The square root of `n`, rounded down (for `n >= 0`).
pub open spec fn floor_sqrt(n: int) -> int {
    choose|r: int| is_floor_sqrt(n, r)
}

/// Rounding down respects the order of fractions: if `p / q <= r / s` as
/// numbers, then so are their integer parts.
pub proof fn lemma_floor_div_monotone(p: int, q: int, r: int, s: int)
    requires
        q > 0,
        s > 0,
        p * s <= r * q,
    ensures
        p / q <= r / s,
{
    lemma_fundamental_div_mod(p, q);
    lemma_mod_bound(p, q);
    lemma_fundamental_div_mod(r, s);
    lemma_mod_bound(r, s);
    let a = p / q;
    let b = r / s;
    let pm = p % q;
    let rm = r % s;
    assert(a <= b) by (nonlinear_arith)
        requires
            q > 0,
            s > 0,
            p * s <= r * q,
            p == q * a + pm,
            0 <= pm < q,
            r == s * b + rm,
            0 <= rm < s,
    {
        if a >= b + 1 {
            assert(q * a >= q * (b + 1));
            assert(p >= q * (b + 1));
            assert(p * s >= q * (b + 1) * s);
            assert(r < s * (b + 1));
            assert(r * q < s * (b + 1) * q);
            assert(q * (b + 1) * s == s * (b + 1) * q);
        }
    }
}

/// The quotient is `k` exactly when the dividend lies in the `k`-th stretch of
/// the divisor.
pub proof fn lemma_floor_div_is(x: int, d: int, k: int)
    requires
        d > 0,
        k * d <= x < (k + 1) * d,
    ensures
        x / d == k,
{
    lemma_fundamental_div_mod(x, d);
    lemma_mod_bound(x, d);
    let q = x / d;
    let m = x % d;
    assert(q == k) by (nonlinear_arith)
        requires
            d > 0,
            k * d <= x < (k + 1) * d,
            x == d * q + m,
            0 <= m < d,
    {
        if q >= k + 1 {
            assert(d * q >= d * (k + 1));
        }
        if q <= k - 1 {
            assert(d * q <= d * (k - 1));
        }
    }
}

/// A quotient by a positive divisor has the sign of the dividend.
pub proof fn lemma_floor_div_sign(x: int, d: int)
    requires
        d > 0,
    ensures
        x < 0 ==> x / d < 0,
        x >= 0 ==> x / d >= 0,
{
    lemma_fundamental_div_mod(x, d);
    lemma_mod_bound(x, d);
    let q = x / d;
    let m = x % d;
    assert(x < 0 ==> q < 0) by (nonlinear_arith)
        requires
            d > 0,
            x == d * q + m,
            0 <= m < d,
    ;
    assert(x >= 0 ==> q >= 0) by (nonlinear_arith)
        requires
            d > 0,
            x == d * q + m,
            0 <= m < d,
    ;
}

/// Squaring keeps the order of non-negative numbers.
pub proof fn lemma_square_monotone(a: int, b: int)
    requires
        0 <= a <= b,
    ensures
        a * a <= b * b,
{
    assert(a * a <= b * b) by (nonlinear_arith)
        requires
            0 <= a <= b,
    ;
}

/// No number has two rounded-down square roots.
pub proof fn lemma_floor_sqrt_unique(n: int, r1: int, r2: int)
    requires
        is_floor_sqrt(n, r1),
        is_floor_sqrt(n, r2),
    ensures
        r1 == r2,
{
    if r1 < r2 {
        lemma_square_monotone(r1 + 1, r2);
    }
    if r2 < r1 {
        lemma_square_monotone(r2 + 1, r1);
    }
}

/// Every non-negative number has a rounded-down square root.
pub proof fn lemma_floor_sqrt_exists(n: int)
    requires
        n >= 0,
    ensures
        is_floor_sqrt(n, floor_sqrt(n)),
    decreases n,
{
    if n == 0 {
        assert(is_floor_sqrt(0, 0));
    } else {
        lemma_floor_sqrt_exists(n - 1);
        let r = floor_sqrt(n - 1);
        if (r + 1) * (r + 1) <= n {
            assert((r + 2) * (r + 2) > n) by (nonlinear_arith)
                requires
                    0 <= r,
                    n - 1 < (r + 1) * (r + 1),
            ;
            assert(is_floor_sqrt(n, r + 1));
        } else {
            assert(is_floor_sqrt(n, r));
        }
    }
}

/// `floor_sqrt(n)` is `r` as soon as `r` is a rounded-down square root of `n`.
pub proof fn lemma_floor_sqrt_is(n: int, r: int)
    requires
        is_floor_sqrt(n, r),
    ensures
        floor_sqrt(n) == r,
{
    lemma_floor_sqrt_unique(n, r, floor_sqrt(n));
}

/// The square root of `n`, rounded down.
pub fn isqrt(n: u64) -> (r: u64)
    ensures
        r == floor_sqrt(n as int),
        is_floor_sqrt(n as int, r as int),
        r <= 0xffff_ffff,
{
    let mut lo: u64 = 0;
    let mut hi: u64 = 0x1_0000_0000;
    assert(n < 0x1_0000_0000 * 0x1_0000_0000);
    while hi - lo > 1
        invariant
            lo < hi <= 0x1_0000_0000,
            lo * lo <= n,
            n < hi * hi,
        decreases hi - lo,
    {
        let mid: u64 = lo + (hi - lo) / 2;
        assert(mid * mid <= 0xffff_ffff * 0xffff_ffff) by (nonlinear_arith)
            requires
                0 <= mid <= 0xffff_ffff,
        ;
        if mid * mid <= n {
            lo = mid;
        } else {
            hi = mid;
        }
    }
    proof {
        lemma_floor_sqrt_is(n as int, lo as int);
    }
    lo
}

} // verus!
