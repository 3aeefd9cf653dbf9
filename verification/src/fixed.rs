//! Fixed-point units and the scalar arithmetic shared by every model.
//!
//! * lengths and per-tick velocities: [`UNIT`] units per pixel;
//! * angles: microradians, a full turn being [`TAU`];
//! * sines, cosines and other fractions: millionths ([`ONE`]);
//! * times: microseconds ([`SECOND`] per second).
//!
//! Coordinates live in `[-LIMIT, LIMIT]`; results that would leave that
//! range saturate at its ends.

use vstd::prelude::*;
use vstd::arithmetic::div_mod::{
    lemma_fundamental_div_mod, lemma_fundamental_div_mod_converse, lemma_mod_bound,
};

verus! {

/// Length units per pixel.
pub const UNIT: i64 = 1_000;

/// The fixed-point representation of 1.0 for fractions, sines and cosines.
pub const ONE: i64 = 1_000_000;

/// An eighth of a turn, in microradians.
pub const QUARTER_PI: i64 = 785_398;

/// A quarter turn, in microradians.
pub const HALF_PI: i64 = 1_570_796;

/// Half a turn, in microradians.
pub const PI: i64 = 3_141_592;

/// A full turn, in microradians.
pub const TAU: i64 = 6_283_184;

/// Largest magnitude of a coordinate.
pub const LIMIT: i64 = 1_000_000_000;

/// Largest collision radius.
pub const RADIUS_LIMIT: i64 = 1_500_000_000;

/// Microseconds per second.
pub const SECOND: u32 = 1_000_000;

/// `v` confined to `[-LIMIT, LIMIT]`.
pub open spec fn sat(v: int) -> int {
    if v < -LIMIT {
        -LIMIT as int
    } else if v > LIMIT {
        LIMIT as int
    } else {
        v
    }
}

/// Quotient of `a` by a positive `d`, rounded toward zero.
pub open spec fn div_trunc(a: int, d: int) -> int {
    if a >= 0 {
        a / d
    } else {
        -((-a) / d)
    }
}

/// Confines a wide intermediate result to the coordinate range.
pub fn saturate(v: i128) -> (r: i64)
    ensures
        r == sat(v as int),
        -LIMIT <= r <= LIMIT,
{
    if v < -(LIMIT as i128) {
        -LIMIT
    } else if v > LIMIT as i128 {
        LIMIT
    } else {
        v as i64
    }
}

/// Divides rounding toward zero.
pub fn quotient(a: i128, d: i128) -> (r: i128)
    requires
        d > 0,
    ensures
        r == div_trunc(a as int, d as int),
{
    a / d
}

/// The magnitude of a truncated quotient never exceeds that of the dividend.
pub proof fn lemma_div_trunc_bound(a: int, d: int, bound: int)
    requires
        d > 0,
        -(bound * d) <= a <= bound * d,
        bound >= 0,
    ensures
        -bound <= div_trunc(a, d) <= bound,
{
    if a >= 0 {
        assert(a / d <= bound) by (nonlinear_arith)
            requires
                d > 0,
                0 <= a <= bound * d,
        ;
        assert(a / d >= 0) by (nonlinear_arith)
            requires
                d > 0,
                0 <= a,
        ;
    } else {
        let b = -a;
        assert(b / d <= bound) by (nonlinear_arith)
            requires
                d > 0,
                0 <= b <= bound * d,
        ;
        assert(b / d >= 0) by (nonlinear_arith)
            requires
                d > 0,
                0 <= b,
        ;
    }
}

/// Reduces `value` into `[0, modulus)`: the remainder of the floored division.
pub fn wrap(value: i64, modulus: i64) -> (r: i64)
    requires
        modulus > 0,
    ensures
        r == (value as int) % (modulus as int),
        0 <= r < modulus,
{
    let m = value % modulus;
    proof {
        let v = value as int;
        let d = modulus as int;
        lemma_mod_bound(v, d);
        if v < 0 {
            let n = -v;
            lemma_fundamental_div_mod(n, d);
            lemma_mod_bound(n, d);
            if n % d == 0 {
                assert(v == d * (-(n / d)) + 0) by (nonlinear_arith)
                    requires
                        n == d * (n / d) + n % d,
                        n % d == 0,
                        v == -n,
                ;
                lemma_fundamental_div_mod_converse(v, d, -(n / d), 0);
            } else {
                assert(v == d * (-(n / d) - 1) + (d - n % d)) by (nonlinear_arith)
                    requires
                        n == d * (n / d) + n % d,
                        v == -n,
                ;
                lemma_fundamental_div_mod_converse(v, d, -(n / d) - 1, d - n % d);
            }
        }
    }
    if m < 0 {
        m + modulus
    } else {
        m
    }
}

/// Largest integer whose square does not exceed `n`.
pub open spec fn is_sqrt(n: int, r: int) -> bool {
    &&& 0 <= r
    &&& r * r <= n
    &&& n < (r + 1) * (r + 1)
}

/// The integer square root of `n`, rounded down.
pub open spec fn sqrt_spec(n: int) -> int {
    choose|r: int| is_sqrt(n, r)
}

/// A number has at most one integer square root.
pub proof fn lemma_sqrt_unique(n: int, a: int, b: int)
    requires
        is_sqrt(n, a),
        is_sqrt(n, b),
    ensures
        a == b,
{
    if a < b {
        assert((a + 1) * (a + 1) <= b * b) by (nonlinear_arith)
            requires
                0 <= a + 1 <= b,
        ;
    } else if b < a {
        assert((b + 1) * (b + 1) <= a * a) by (nonlinear_arith)
            requires
                0 <= b + 1 <= a,
        ;
    }
}

/// Every natural number has an integer square root.
pub proof fn lemma_sqrt_exists(n: int)
    requires
        n >= 0,
    ensures
        is_sqrt(n, sqrt_spec(n)),
{
    assert(n < (n + 1) * (n + 1)) by (nonlinear_arith)
        requires
            n >= 0,
    ;
    lemma_sqrt_below(n, n);
}

/// Some root not above `bound` is the integer square root of `n`, if
/// `bound` is large enough.
proof fn lemma_sqrt_below(n: int, bound: int)
    requires
        n >= 0,
        bound >= 0,
        n < (bound + 1) * (bound + 1),
    ensures
        exists|r: int| is_sqrt(n, r),
    decreases bound,
{
    if bound * bound <= n {
        assert(is_sqrt(n, bound));
    } else {
        assert(bound > 0) by (nonlinear_arith)
            requires
                bound * bound > n,
                n >= 0,
                bound >= 0,
        ;
        lemma_sqrt_below(n, bound - 1);
    }
}

/// Integer square root, rounded down.
pub fn isqrt(n: u64) -> (r: u64)
    ensures
        r == sqrt_spec(n as int),
        is_sqrt(n as int, r as int),
        r < 0x1_0000_0000,
{
    let mut lo: u64 = 0;
    let mut hi: u64 = 0x1_0000_0000;
    while hi - lo > 1
        invariant
            lo < hi <= 0x1_0000_0000,
            lo * lo <= n,
            n < hi * hi,
        decreases hi - lo,
    {
        let mid: u64 = lo + (hi - lo) / 2;
        assert(mid * mid < 0x1_0000_0000_0000_0000) by (nonlinear_arith)
            requires
                mid < 0x1_0000_0000,
        ;
        if mid * mid <= n {
            lo = mid;
        } else {
            hi = mid;
        }
    }
    proof {
        assert(is_sqrt(n as int, lo as int));
        lemma_sqrt_unique(n as int, lo as int, sqrt_spec(n as int));
    }
    lo
}

/// The point a fraction `draw / 2^32` of the way from `lo` to `hi`.
pub open spec fn pick_spec(draw: int, lo: int, hi: int) -> int {
    lo + div_trunc(draw * (hi - lo), 0x1_0000_0000)
}

/// A picked point lies between the ends, and short of `hi` where `lo < hi`.
pub proof fn lemma_pick_range(draw: int, lo: int, hi: int)
    requires
        0 <= draw < 0x1_0000_0000,
    ensures
        lo < hi ==> lo <= pick_spec(draw, lo, hi) < hi,
        lo == hi ==> pick_spec(draw, lo, hi) == lo,
        lo > hi ==> hi < pick_spec(draw, lo, hi) <= lo,
{
    let span = hi - lo;
    if span > 0 {
        let num = draw * span;
        assert(0 <= num < span * 0x1_0000_0000) by (nonlinear_arith)
            requires
                num == draw * span,
                0 <= draw < 0x1_0000_0000,
                span > 0,
        ;
        assert(0 <= num / 0x1_0000_0000 < span) by (nonlinear_arith)
            requires
                0 <= num < span * 0x1_0000_0000,
        ;
    } else if span < 0 {
        let num = draw * (-span);
        assert(draw * span == -num) by (nonlinear_arith)
            requires
                num == draw * (-span),
        ;
        assert(0 <= num < (-span) * 0x1_0000_0000) by (nonlinear_arith)
            requires
                num == draw * (-span),
                0 <= draw < 0x1_0000_0000,
                span < 0,
        ;
        assert(0 <= num / 0x1_0000_0000 < -span) by (nonlinear_arith)
            requires
                0 <= num < (-span) * 0x1_0000_0000,
        ;
        if num == 0 {
        }
    } else {
        assert(draw * span == 0) by (nonlinear_arith)
            requires
                span == 0,
        ;
    }
}

/// Maps a uniform 32-bit draw to a point between `lo` and `hi`.
pub fn pick(draw: u32, lo: i64, hi: i64) -> (r: i64)
    ensures
        r == pick_spec(draw as int, lo as int, hi as int),
{
    proof {
        lemma_pick_range(draw as int, lo as int, hi as int);
    }
    let span: i128 = hi as i128 - lo as i128;
    assert(-0x1_0000_0000_0000_0000_0000_0000 <= draw * span <= 0x1_0000_0000_0000_0000_0000_0000)
        by (nonlinear_arith)
        requires
            0 <= draw < 0x1_0000_0000,
            -0x1_0000_0000_0000_0000 <= span <= 0x1_0000_0000_0000_0000,
    ;
    let offset: i128 = quotient(draw as i128 * span, 0x1_0000_0000);
    (lo as i128 + offset) as i64
}

} // verus!
