//! Integer helpers for arithmetic in thousandths: rounding division and the
//! integer square root, with the order facts that the geometry needs.

use vstd::prelude::*;
use vstd::arithmetic::div_mod::{lemma_div_is_ordered, lemma_fundamental_div_mod};

verus! {

/// `a / b`, rounded up.
pub open spec fn ceil_div(a: int, b: int) -> int
    recommends
        a >= 0,
        b > 0,
{
    if a % b == 0 {
        a / b
    } else {
        a / b + 1
    }
}

/// `root` is the square root of `n`, rounded down.
pub open spec fn is_sqrt_floor(n: int, root: int) -> bool {
    root >= 0 && root * root <= n < (root + 1) * (root + 1)
}

/// The square root of `n`, rounded down; zero for a negative `n`.
pub open spec fn sqrt_floor(n: int) -> int
    decreases n,
{
    if n <= 0 {
        0
    } else {
        let below = sqrt_floor(n - 1);
        if (below + 1) * (below + 1) <= n {
            below + 1
        } else {
            below
        }
    }
}

/// `sqrt_floor` is the rounded-down square root.
pub proof fn lemma_sqrt_floor_is_root(n: int)
    requires
        n >= 0,
    ensures
        is_sqrt_floor(n, sqrt_floor(n)),
    decreases n,
{
    if n > 0 {
        lemma_sqrt_floor_is_root(n - 1);
        let below = sqrt_floor(n - 1);
        assert(below * below <= n - 1);
        assert((below + 2) * (below + 2) > (below + 1) * (below + 1)) by (nonlinear_arith)
            requires
                below >= 0,
        ;
    } else {
        assert(sqrt_floor(0) == 0);
    }
}

/// A larger number has no smaller root.
pub proof fn lemma_root_is_ordered(n1: int, r1: int, n2: int, r2: int)
    requires
        is_sqrt_floor(n1, r1),
        is_sqrt_floor(n2, r2),
        n1 <= n2,
    ensures
        r1 <= r2,
{
    if r1 > r2 {
        assert(r1 * r1 >= (r2 + 1) * (r2 + 1)) by (nonlinear_arith)
            requires
                r1 >= r2 + 1,
                r2 >= 0,
        ;
    }
}

/// Only one number is the rounded-down root of `n`.
pub proof fn lemma_sqrt_floor_unique(n: int, root: int)
    requires
        is_sqrt_floor(n, root),
    ensures
        root == sqrt_floor(n),
{
    lemma_sqrt_floor_is_root(n);
    lemma_root_is_ordered(n, root, n, sqrt_floor(n));
    lemma_root_is_ordered(n, sqrt_floor(n), n, root);
}

/// `sqrt_floor` is monotone.
pub proof fn lemma_sqrt_floor_is_ordered(n1: int, n2: int)
    requires
        0 <= n1 <= n2,
    ensures
        sqrt_floor(n1) <= sqrt_floor(n2),
{
    lemma_sqrt_floor_is_root(n1);
    lemma_sqrt_floor_is_root(n2);
    lemma_root_is_ordered(n1, sqrt_floor(n1), n2, sqrt_floor(n2));
}

/// The rounded-up quotient times the divisor covers the dividend, and it is
/// the least number that does.
pub proof fn lemma_ceil_div_is_least_cover(a: int, b: int)
    requires
        a >= 0,
        b > 0,
    ensures
        ceil_div(a, b) >= 0,
        a <= ceil_div(a, b) * b,
        forall|q: int| a <= #[trigger] (q * b) ==> ceil_div(a, b) <= q,
{
    lemma_fundamental_div_mod(a, b);
    let d = a / b;
    let m = a % b;
    assert(a == b * d + m);
    assert(0 <= m < b);
    assert(d >= 0) by (nonlinear_arith)
        requires
            a == b * d + m,
            0 <= m < b,
            a >= 0,
            b > 0,
    ;
    assert(a <= ceil_div(a, b) * b) by (nonlinear_arith)
        requires
            a == b * d + m,
            0 <= m < b,
            ceil_div(a, b) == (if m == 0 {
                d
            } else {
                d + 1
            }),
    ;
    assert forall|q: int| a <= #[trigger] (q * b) implies ceil_div(a, b) <= q by {
        assert(ceil_div(a, b) <= q) by (nonlinear_arith)
            requires
                a == b * d + m,
                0 <= m < b,
                b > 0,
                a <= q * b,
                ceil_div(a, b) == (if m == 0 {
                    d
                } else {
                    d + 1
                }),
        ;
    }
}

/// Of two fractions, the smaller one rounds up to no more than the larger.
pub proof fn lemma_ceil_div_is_ordered(a1: int, b1: int, a2: int, b2: int)
    requires
        a1 >= 0,
        a2 >= 0,
        b1 > 0,
        b2 > 0,
        a1 * b2 <= a2 * b1,
    ensures
        ceil_div(a1, b1) <= ceil_div(a2, b2),
{
    lemma_ceil_div_is_least_cover(a1, b1);
    lemma_ceil_div_is_least_cover(a2, b2);
    let q2 = ceil_div(a2, b2);
    assert(a1 <= q2 * b1) by (nonlinear_arith)
        requires
            a1 * b2 <= a2 * b1,
            a2 <= q2 * b2,
            b1 > 0,
            b2 > 0,
            a1 >= 0,
            q2 >= 0,
    ;
}

/// `a / b`, rounded up.
pub fn div_ceil(a: u128, b: u128) -> (quotient: u128)
    requires
        b > 0,
    ensures
        quotient == ceil_div(a as int, b as int),
{
    let whole: u128 = a / b;
    if a % b == 0 {
        whole
    } else {
        proof {
            lemma_fundamental_div_mod(a as int, b as int);
            assert(whole < a) by (nonlinear_arith)
                requires
                    a == b * whole + (a % b),
                    a % b > 0,
                    b > 0,
                    whole >= 0,
            ;
        }
        whole + 1
    }
}

/// The square root of `n`, rounded down.
pub fn isqrt(n: u128) -> (root: u64)
    ensures
        root == sqrt_floor(n as int),
        is_sqrt_floor(n as int, root as int),
{
    let mut low: u128 = 0;
    let mut high: u128 = 0x1_0000_0000_0000_0000;
    assert(0x1_0000_0000_0000_0000int * 0x1_0000_0000_0000_0000int > n) by (nonlinear_arith)
        requires
            n <= 0xffff_ffff_ffff_ffff_ffff_ffff_ffff_ffff,
    ;
    while high - low > 1
        invariant
            low < high <= 0x1_0000_0000_0000_0000,
            low * low <= n,
            n < high * high,
        decreases high - low,
    {
        let middle: u128 = low + (high - low) / 2;
        assert(middle * middle <= 0xffff_ffff_ffff_ffff * 0xffff_ffff_ffff_ffff)
            by (nonlinear_arith)
            requires
                0 <= middle <= 0xffff_ffff_ffff_ffff,
        ;
        if middle * middle <= n {
            low = middle;
        } else {
            high = middle;
        }
    }
    proof {
        assert(high == low + 1);
        lemma_sqrt_floor_unique(n as int, low as int);
    }
    low as u64
}

/// The smaller of two numbers.
pub open spec fn least(a: int, b: int) -> int {
    if a <= b {
        a
    } else {
        b
    }
}

/// Floor division keeps the order of the dividends.
pub proof fn lemma_floor_div_is_ordered(a1: int, a2: int, b: int)
    requires
        0 <= a1 <= a2,
        b > 0,
    ensures
        a1 / b <= a2 / b,
{
    lemma_div_is_ordered(a1, a2, b);
}

} // verus!
