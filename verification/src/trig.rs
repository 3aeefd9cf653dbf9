//! Fixed-point sine, cosine and arctangent.
//!
//! Each function is a rational approximation evaluated in integers, and its
//! specification is that formula. Angles are microradians; sines and cosines
//! are millionths.

use vstd::prelude::*;
use vstd::arithmetic::div_mod::lemma_add_mod_noop;
use crate::fixed::{wrap, HALF_PI, ONE, PI, QUARTER_PI, TAU};

verus! {

/// Largest magnitude of a coordinate difference.
pub const REACH: i64 = 2_000_000_000;

/// Five times the square of a quarter turn.
pub const FIVE_HALF_PI_SQUARED: u64 = 12_337_000_368_080;

/// Sine of an angle in the first half turn: `4p / (5(π/2)² - p)` with
/// `p = x(π - x)`, in millionths.
pub open spec fn sin_half_turn(x: int) -> int {
    let p = x * (PI - x);
    (4 * p * ONE) / (FIVE_HALF_PI_SQUARED - p)
}

/// Sine of any angle, in millionths: the second half turn mirrors the first.
pub open spec fn sin_spec(angle: int) -> int {
    let a = angle % (TAU as int);
    if a <= PI {
        sin_half_turn(a)
    } else {
        -sin_half_turn(a - PI)
    }
}

/// Cosine of any angle, in millionths: the sine a quarter turn ahead.
pub open spec fn cos_spec(angle: int) -> int {
    sin_spec(angle + HALF_PI)
}

/// The half-turn sine stays within `[0, ONE]`.
pub proof fn lemma_sin_half_turn_range(x: int)
    requires
        0 <= x <= PI,
    ensures
        0 <= sin_half_turn(x) <= ONE,
        0 <= x * (PI - x) <= 2_467_400_073_616,
{
    let p = x * (3_141_592 - x);
    assert(0 <= p) by (nonlinear_arith)
        requires
            p == x * (3_141_592 - x),
            0 <= x <= 3_141_592,
    ;
    let gap = 1_570_796 - x;
    assert(gap * gap >= 0) by (nonlinear_arith);
    assert(p <= 2_467_400_073_616) by (nonlinear_arith)
        requires
            p == x * (3_141_592 - x),
            gap == 1_570_796 - x,
            gap * gap >= 0,
    ;
    let num = 4 * p * 1_000_000;
    let den = 12_337_000_368_080 - p;
    assert(num <= 1_000_000 * den);
    assert(0 <= num / den <= 1_000_000) by (nonlinear_arith)
        requires
            0 <= num <= 1_000_000 * den,
            den > 0,
    ;
}

/// Sines stay within `[-ONE, ONE]`.
pub proof fn lemma_sin_range(angle: int)
    ensures
        -ONE <= sin_spec(angle) <= ONE,
{
    let a = angle % (TAU as int);
    if a <= PI {
        lemma_sin_half_turn_range(a);
    } else {
        lemma_sin_half_turn_range(a - PI);
    }
}

/// Cosines stay within `[-ONE, ONE]`.
pub proof fn lemma_cos_range(angle: int)
    ensures
        -ONE <= cos_spec(angle) <= ONE,
{
    lemma_sin_range(angle + HALF_PI);
}

/// In every direction the sine or the cosine is at least this large in
/// magnitude: the sine of an eighth of a turn.
pub const DIAGONAL: i64 = 705_882;

/// Between an eighth and three eighths of a turn the sine is at least that
/// of an eighth of a turn.
pub proof fn lemma_sin_half_turn_middle(x: int)
    requires
        QUARTER_PI <= x <= PI - QUARTER_PI,
    ensures
        sin_half_turn(x) >= DIAGONAL,
{
    lemma_sin_half_turn_range(x);
    let p = x * (3_141_592 - x);
    let low = x - 785_398;
    let high = 2_356_194 - x;
    assert(low * high >= 0) by (nonlinear_arith)
        requires
            low >= 0,
            high >= 0,
    ;
    assert(p >= 1_850_550_055_212) by (nonlinear_arith)
        requires
            p == x * (3_141_592 - x),
            low == x - 785_398,
            high == 2_356_194 - x,
            low * high >= 0,
    ;
    let num = 4 * p * 1_000_000;
    let den = 12_337_000_368_080 - p;
    assert(num >= 705_882 * den);
    assert(num / den >= 705_882) by (nonlinear_arith)
        requires
            num >= 705_882 * den,
            den > 0,
    ;
}

/// No direction is far from both axes: the sine or the cosine of any angle
/// is at least `DIAGONAL` in magnitude.
pub proof fn lemma_sin_or_cos_large(angle: int)
    ensures
        sin_spec(angle) >= DIAGONAL || sin_spec(angle) <= -DIAGONAL || cos_spec(angle) >= DIAGONAL
            || cos_spec(angle) <= -DIAGONAL,
{
    let a = angle % (TAU as int);
    vstd::arithmetic::div_mod::lemma_mod_bound(angle, TAU as int);
    lemma_add_mod_noop(angle, HALF_PI as int, TAU as int);
    vstd::arithmetic::div_mod::lemma_small_mod(HALF_PI as nat, TAU as nat);
    let b = (a + HALF_PI) % (TAU as int);
    assert(b == (angle + HALF_PI) % (TAU as int));
    if 785_398 <= a <= 2_356_194 {
        lemma_sin_half_turn_middle(a);
    } else if 3_926_990 <= a <= 5_497_786 {
        lemma_sin_half_turn_middle(a - PI);
    } else if a < 785_398 {
        vstd::arithmetic::div_mod::lemma_small_mod((a + HALF_PI) as nat, TAU as nat);
        lemma_sin_half_turn_middle(b);
    } else if a < 3_926_990 {
        vstd::arithmetic::div_mod::lemma_small_mod((a + HALF_PI) as nat, TAU as nat);
        lemma_sin_half_turn_middle(b - PI);
    } else {
        assert(b == a + HALF_PI - TAU) by {
            vstd::arithmetic::div_mod::lemma_mod_sub_multiples_vanish(a + HALF_PI, TAU as int);
            vstd::arithmetic::div_mod::lemma_small_mod((a + HALF_PI - TAU) as nat, TAU as nat);
        }
        lemma_sin_half_turn_middle(b);
    }
}

fn sin_in_half_turn(x: i64) -> (r: i64)
    requires
        0 <= x <= PI,
    ensures
        r == sin_half_turn(x as int),
        0 <= r <= ONE,
{
    proof {
        lemma_sin_half_turn_range(x as int);
    }
    let p: u64 = (x as u64) * ((PI - x) as u64);
    let num: u64 = 4 * p * 1_000_000;
    let den: u64 = FIVE_HALF_PI_SQUARED - p;
    (num / den) as i64
}

/// Sine of `angle` (microradians) in millionths.
pub fn sin(angle: i64) -> (r: i64)
    ensures
        r == sin_spec(angle as int),
        -ONE <= r <= ONE,
{
    let a = wrap(angle, TAU);
    if a <= PI {
        sin_in_half_turn(a)
    } else {
        -sin_in_half_turn(a - PI)
    }
}

/// Cosine of `angle` (microradians) in millionths.
pub fn cos(angle: i64) -> (r: i64)
    ensures
        r == cos_spec(angle as int),
        -ONE <= r <= ONE,
{
    let a = wrap(angle, TAU);
    proof {
        lemma_add_mod_noop(angle as int, HALF_PI as int, TAU as int);
        lemma_add_mod_noop(a as int, HALF_PI as int, TAU as int);
        vstd::arithmetic::div_mod::lemma_mod_twice(angle as int, TAU as int);
    }
    sin(a + HALF_PI)
}

/// Angle of a direction in the first octant (`0 <= rise <= run`, `run > 0`):
/// `t(π/4 + 0.273(1 - t))` with `t = rise / run`.
pub open spec fn octant_angle(rise: int, run: int) -> int {
    (rise * (QUARTER_PI * run + 273_000 * (run - rise))) / (run * run)
}

/// Angle of a direction in the first quadrant (`rise, run >= 0`). A vertical
/// direction is a quarter turn; the zero direction has angle 0.
pub open spec fn quadrant_angle(rise: int, run: int) -> int {
    if run == 0 {
        if rise == 0 {
            0
        } else {
            HALF_PI as int
        }
    } else if rise <= run {
        octant_angle(rise, run)
    } else {
        HALF_PI - octant_angle(run, rise)
    }
}

/// Absolute value.
pub open spec fn abs(v: int) -> int {
    if v < 0 {
        -v
    } else {
        v
    }
}

/// Arctangent of `rise / run`, in `[-HALF_PI, HALF_PI]`. Where `run` is zero
/// the result is a quarter turn with the sign of `rise`, and 0 where both are.
pub open spec fn atan_spec(rise: int, run: int) -> int {
    let q = quadrant_angle(abs(rise), abs(run));
    if (rise < 0) != (run < 0) {
        -q
    } else {
        q
    }
}

/// The octant angle stays within `[0, QUARTER_PI]`.
pub proof fn lemma_octant_angle_range(rise: int, run: int)
    requires
        0 <= rise <= run,
        run > 0,
    ensures
        0 <= octant_angle(rise, run) <= QUARTER_PI,
{
    let inner = 785_398 * run + 273_000 * (run - rise);
    let num = rise * inner;
    let den = run * run;
    assert(den > 0) by (nonlinear_arith)
        requires
            den == run * run,
            run > 0,
    ;
    assert(0 <= num) by (nonlinear_arith)
        requires
            num == rise * inner,
            inner >= 0,
            rise >= 0,
    ;
    let slack = run - rise;
    let margin = 785_398 * run - 273_000 * rise;
    assert(slack * margin >= 0) by (nonlinear_arith)
        requires
            slack >= 0,
            margin >= 0,
    ;
    assert(num <= 785_398 * den) by (nonlinear_arith)
        requires
            num == rise * (785_398 * run + 273_000 * (run - rise)),
            den == run * run,
            slack == run - rise,
            margin == 785_398 * run - 273_000 * rise,
            slack * margin >= 0,
    ;
    assert(0 <= num / den <= 785_398) by (nonlinear_arith)
        requires
            0 <= num <= 785_398 * den,
            den > 0,
    ;
}

/// Arctangents stay within a quarter turn of zero.
pub proof fn lemma_atan_range(rise: int, run: int)
    ensures
        -HALF_PI <= atan_spec(rise, run) <= HALF_PI,
{
    let a = abs(rise);
    let b = abs(run);
    if b == 0 {
    } else if a <= b {
        lemma_octant_angle_range(a, b);
    } else {
        lemma_octant_angle_range(b, a);
    }
}

fn angle_in_octant(rise: i64, run: i64) -> (r: i64)
    requires
        0 <= rise <= run <= REACH,
        run > 0,
    ensures
        r == octant_angle(rise as int, run as int),
        0 <= r <= QUARTER_PI,
{
    proof {
        lemma_octant_angle_range(rise as int, run as int);
    }
    let a: i128 = rise as i128;
    let b: i128 = run as i128;
    let inner: i128 = 785_398 * b + 273_000 * (b - a);
    assert(0 <= a * inner <= 2_000_000_000 * 2_116_796_000_000_000) by (nonlinear_arith)
        requires
            0 <= a <= 2_000_000_000,
            0 <= inner <= 2_116_796_000_000_000,
    ;
    assert(0 < b * b <= 4_000_000_000_000_000_000) by (nonlinear_arith)
        requires
            0 < b <= 2_000_000_000,
    ;
    let num: i128 = a * inner;
    let den: i128 = b * b;
    (num / den) as i64
}

fn angle_in_quadrant(rise: i64, run: i64) -> (r: i64)
    requires
        0 <= rise <= REACH,
        0 <= run <= REACH,
    ensures
        r == quadrant_angle(rise as int, run as int),
        0 <= r <= HALF_PI,
{
    if run == 0 {
        if rise == 0 {
            0
        } else {
            HALF_PI
        }
    } else if rise <= run {
        angle_in_octant(rise, run)
    } else {
        HALF_PI - angle_in_octant(run, rise)
    }
}

/// Arctangent of `rise / run` in microradians.
pub fn atan(rise: i64, run: i64) -> (r: i64)
    requires
        -REACH <= rise <= REACH,
        -REACH <= run <= REACH,
    ensures
        r == atan_spec(rise as int, run as int),
        -HALF_PI <= r <= HALF_PI,
{
    let a: i64 = if rise < 0 { -rise } else { rise };
    let b: i64 = if run < 0 { -run } else { run };
    let q = angle_in_quadrant(a, b);
    if (rise < 0) != (run < 0) {
        -q
    } else {
        q
    }
}

} // verus!
