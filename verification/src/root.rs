//! Integer square roots.

use crate::scalar::{lemma_product_bound, lemma_product_magnitude, magnitude, saturate, widen_magnitude};
use vstd::prelude::*;

verus! {

/// Whether `r` is the square root of `n` rounded down.
pub open spec fn is_floor_root(n: int, r: int) -> bool {
    0 <= r && r * r <= n && n < (r + 1) * (r + 1)
}

/// The square root of `n`, rounded down to a whole number.
pub open spec fn floor_root(n: int) -> int
    recommends
        n >= 0,
{
    choose|r: int| is_floor_root(n, r)
}

/// A number has at most one rounded-down square root.
pub proof fn lemma_floor_root_unique(n: int, r: int, s: int)
    requires
        is_floor_root(n, r),
        is_floor_root(n, s),
    ensures
        r == s,
{
    if r < s {
        assert((r + 1) * (r + 1) <= s * s) by (nonlinear_arith)
            requires
                0 <= r,
                r + 1 <= s,
        ;
    }
    if s < r {
        assert((s + 1) * (s + 1) <= r * r) by (nonlinear_arith)
            requires
                0 <= s,
                s + 1 <= r,
        ;
    }
}

/// Any witness of the defining bounds is the rounded-down square root.
pub proof fn lemma_floor_root_is(n: int, r: int)
    requires
        is_floor_root(n, r),
    ensures
        floor_root(n) == r,
{
    lemma_floor_root_unique(n, r, floor_root(n));
}

/// A root of at least `b` follows from a number of at least `b * b`.
pub proof fn lemma_floor_root_at_least(n: int, r: int, b: int)
    requires
        is_floor_root(n, r),
        0 <= b,
        b * b <= n,
    ensures
        b <= r,
{
    if r < b {
        assert((r + 1) * (r + 1) <= b * b) by (nonlinear_arith)
            requires
                0 <= r,
                r + 1 <= b,
        ;
    }
}

/// The square root of `n`, rounded down.
pub fn integer_root(n: u128) -> (r: u64)
    ensures
        is_floor_root(n as int, r as int),
        r as int == floor_root(n as int),
{
    let mut lo: u128 = 0;
    let mut hi: u128 = 0x1_0000_0000_0000_0000;
    assert(n < hi * hi) by (nonlinear_arith)
        requires
            hi == 0x1_0000_0000_0000_0000,
            n <= u128::MAX,
    ;
    while hi - lo > 1
        invariant
            lo < hi <= 0x1_0000_0000_0000_0000,
            lo * lo <= n,
            n < hi * hi,
        decreases hi - lo,
    {
        let mid: u128 = lo + (hi - lo) / 2;
        assert(mid * mid <= 0xffff_ffff_ffff_ffff * 0xffff_ffff_ffff_ffff) by (nonlinear_arith)
            requires
                0 <= mid <= 0xffff_ffff_ffff_ffff,
        ;
        if mid * mid <= n {
            lo = mid;
        } else {
            hi = mid;
        }
    }
    proof {
        assert(hi == lo + 1);
        lemma_floor_root_is(n as int, lo as int);
    }
    lo as u64
}

/// Every natural number has a rounded-down square root.
pub proof fn lemma_floor_root_exists(n: int)
    requires
        n >= 0,
    ensures
        is_floor_root(n, floor_root(n)),
    decreases n,
{
    if n == 0 {
        assert(is_floor_root(0, 0));
    } else {
        lemma_floor_root_exists(n - 1);
        let r = floor_root(n - 1);
        if (r + 1) * (r + 1) <= n {
            assert(n < (r + 2) * (r + 2)) by (nonlinear_arith)
                requires
                    0 <= r,
                    n - 1 < (r + 1) * (r + 1),
            ;
            assert(is_floor_root(n, r + 1));
        } else {
            assert(is_floor_root(n, r));
        }
    }
}

/// The sum of the squares of four integers.
pub open spec fn sum_of_squares(x: int, y: int, z: int, w: int) -> int {
    x * x + y * y + z * z + w * w
}

/// The Euclidean norm of four raw numbers, rounded down and clamped.
pub open spec fn spec_norm(x: int, y: int, z: int, w: int) -> int {
    saturate(floor_root(sum_of_squares(x, y, z, w)))
}

proof fn lemma_square(x: int)
    ensures
        x * x == magnitude(x) * magnitude(x),
        x * x >= 0,
{
    lemma_product_magnitude(x, x);
    assert(x * x >= 0) by (nonlinear_arith);
}

/// The Euclidean norm of four raw numbers, rounded down and clamped.
pub fn norm(x: i64, y: i64, z: i64, w: i64) -> (out: i64)
    ensures
        out == spec_norm(x as int, y as int, z as int, w as int),
        out >= 0,
{
    proof {
        lemma_square(x as int);
        lemma_square(y as int);
        lemma_square(z as int);
        lemma_square(w as int);
    }
    if x == i64::MIN || y == i64::MIN || z == i64::MIN || w == i64::MIN {
        proof {
            let n = sum_of_squares(x as int, y as int, z as int, w as int);
            assert(0x8000_0000_0000_0000 * 0x8000_0000_0000_0000 <= n) by {
                assert(i64::MIN * i64::MIN == 0x8000_0000_0000_0000 * 0x8000_0000_0000_0000)
                    by (nonlinear_arith);
            }
            lemma_floor_root_exists(n);
            lemma_floor_root_at_least(n, floor_root(n), 0x8000_0000_0000_0000);
        }
        return i64::MAX;
    }
    let a: u128 = widen_magnitude(x);
    let b: u128 = widen_magnitude(y);
    let c: u128 = widen_magnitude(z);
    let d: u128 = widen_magnitude(w);
    proof {
        let m: int = 0x7fff_ffff_ffff_ffff;
        lemma_product_bound(a as int, a as int, m, m);
        lemma_product_bound(b as int, b as int, m, m);
        lemma_product_bound(c as int, c as int, m, m);
        lemma_product_bound(d as int, d as int, m, m);
        assert(m * m == 0x3fff_ffff_ffff_ffff_0000_0000_0000_0001) by (nonlinear_arith)
            requires
                m == 0x7fff_ffff_ffff_ffff,
        ;
    }
    let total: u128 = a * a + b * b + c * c + d * d;
    let r: u64 = integer_root(total);
    if r > 0x7fff_ffff_ffff_ffff {
        i64::MAX
    } else {
        r as i64
    }
}

} // verus!
