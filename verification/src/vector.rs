//! Two-dimensional fixed-point vectors and the extent of the play-field.

use vstd::prelude::*;
use vstd::arithmetic::div_mod::lemma_add_mod_noop;
use crate::fixed::{
    div_trunc, isqrt, pick, pick_spec, quotient, sat, saturate, sqrt_spec, wrap, LIMIT, ONE, PI, TAU,
};
use crate::random::draw;
use crate::trig::{atan, atan_spec, cos, cos_spec, sin, sin_spec};

verus! {

/// An (x, y) value such as a position, a velocity or a polygon vertex.
#[derive(Clone, Copy, Debug, PartialEq, Eq, Structural)]
pub struct Vector {
    pub x: i64,
    pub y: i64,
}

/// Width and height of the toroidal play-field.
#[derive(Clone, Copy, Debug, PartialEq, Eq, Structural)]
pub struct Size {
    pub width: i64,
    pub height: i64,
}

impl Size {
    /// Both extents are positive and within the coordinate range.
    pub open spec fn wf(self) -> bool {
        &&& 0 < self.width <= LIMIT
        &&& 0 < self.height <= LIMIT
    }

    /// A field of the given extents, if both are positive and within the
    /// coordinate range.
    pub fn new(width: i64, height: i64) -> (r: Option<Size>)
        ensures
            r.is_some() <==> (Size { width, height }).wf(),
            r.is_some() ==> r.unwrap() == (Size { width, height }),
    {
        if 0 < width && width <= LIMIT && 0 < height && height <= LIMIT {
            Some(Size { width, height })
        } else {
            None
        }
    }

    /// The larger of the two extents.
    pub open spec fn longest(self) -> int {
        if self.width >= self.height {
            self.width as int
        } else {
            self.height as int
        }
    }
}

impl Vector {
    /// Both components are within the coordinate range.
    pub open spec fn wf(self) -> bool {
        &&& -LIMIT <= self.x <= LIMIT
        &&& -LIMIT <= self.y <= LIMIT
    }

    /// The vector whose components are `x` and `y` confined to the
    /// coordinate range.
    pub open spec fn clamped(x: int, y: int) -> Vector {
        Vector { x: sat(x) as i64, y: sat(y) as i64 }
    }

    /// The origin.
    pub open spec fn zero() -> Vector {
        Vector { x: 0, y: 0 }
    }

    /// Component-wise sum, saturating.
    pub open spec fn plus(self, other: Vector) -> Vector {
        Vector::clamped(self.x + other.x, self.y + other.y)
    }

    /// Component-wise difference, saturating.
    pub open spec fn minus(self, other: Vector) -> Vector {
        Vector::clamped(self.x - other.x, self.y - other.y)
    }

    /// Both components multiplied by `factor`, saturating.
    pub open spec fn times(self, factor: int) -> Vector {
        Vector::clamped(self.x * factor, self.y * factor)
    }

    /// Both components divided by `divisor`, rounding toward zero; the zero
    /// vector where `divisor` is zero.
    pub open spec fn over(self, divisor: int) -> Vector {
        if divisor == 0 {
            Vector::zero()
        } else if divisor > 0 {
            Vector::clamped(div_trunc(self.x as int, divisor), div_trunc(self.y as int, divisor))
        } else {
            Vector::clamped(div_trunc(-self.x, -divisor), div_trunc(-self.y, -divisor))
        }
    }

    /// Component-wise product, saturating.
    pub open spec fn product(self, other: Vector) -> Vector {
        Vector::clamped(self.x * other.x, self.y * other.y)
    }

    /// Component-wise quotient, rounding toward zero and saturating; the
    /// zero vector where either component of `other` is zero.
    pub open spec fn ratio(self, other: Vector) -> Vector {
        if other.x == 0 || other.y == 0 {
            Vector::zero()
        } else {
            Vector { x: self.over(other.x as int).x, y: self.over(other.y as int).y }
        }
    }

    /// Both components multiplied by the fraction `num / den`, rounding
    /// toward zero and saturating.
    pub open spec fn scaled(self, num: int, den: int) -> Vector {
        Vector::clamped(div_trunc(self.x * num, den), div_trunc(self.y * num, den))
    }

    /// Component-wise toroidal modulus: each component reduced into
    /// `[0, extent)`.
    pub open spec fn modulo(self, extent: Vector) -> Vector {
        Vector {
            x: ((self.x as int) % (extent.x as int)) as i64,
            y: ((self.y as int) % (extent.y as int)) as i64,
        }
    }

    /// One toroidal step: `(self + step + extent) % extent` per component.
    pub open spec fn advanced(self, step: Vector, size: Size) -> Vector {
        Vector {
            x: ((self.x + step.x + size.width) % (size.width as int)) as i64,
            y: ((self.y + step.y + size.height) % (size.height as int)) as i64,
        }
    }

    /// Squared Euclidean length.
    pub open spec fn norm_squared(self) -> int {
        self.x * self.x + self.y * self.y
    }

    /// Euclidean length, rounded down.
    pub open spec fn length(self) -> int {
        sqrt_spec(self.norm_squared())
    }

    /// Squared Euclidean distance to `other`.
    pub open spec fn distance_squared(self, other: Vector) -> int {
        (self.x - other.x) * (self.x - other.x) + (self.y - other.y) * (self.y - other.y)
    }

    /// Euclidean distance to `other`, rounded down.
    pub open spec fn distance_spec(self, other: Vector) -> int {
        sqrt_spec(self.distance_squared(other))
    }

    /// Direction from `self` to `other` in `[0, TAU)`, for a y-down screen:
    /// the arctangent of `Δy / Δx`, plus half a turn where `Δy < 0`, plus
    /// another half where also `Δx > 0`, or plus half a turn where
    /// `Δy >= 0` and `Δx < 0`. Where `Δx == 0` no quotient exists, and the
    /// direction is a quarter turn for `Δy > 0` (straight down the screen),
    /// three quarters for `Δy < 0` (straight up), and 0 for two equal
    /// points.
    pub open spec fn angle_to(self, other: Vector) -> int {
        let dx = other.x - self.x;
        let dy = other.y - self.y;
        let base = atan_spec(dy, dx);
        let turned = if dx == 0 {
            base
        } else if dy < 0 {
            if dx > 0 {
                base + TAU
            } else {
                base + PI
            }
        } else if dx < 0 {
            base + PI
        } else {
            base
        };
        turned % (TAU as int)
    }

    /// Polar angle of `self`: half a turn past the direction from `self` to
    /// the origin.
    pub open spec fn heading(self) -> int {
        (self.angle_to(Vector::zero()) + PI) % (TAU as int)
    }

    /// `self` turned by `angle`: the vector of the same length at polar
    /// angle `heading + angle`, saturating.
    pub open spec fn rotated(self, angle: int) -> Vector {
        let turned = (angle + self.heading()) % (TAU as int);
        let m = self.length();
        Vector::clamped(div_trunc(m * cos_spec(turned), ONE as int), div_trunc(m * sin_spec(turned), ONE as int))
    }

    /// The point whose components lie the fractions `draw_x / 2^32` and
    /// `draw_y / 2^32` of the way across the given box.
    pub open spec fn picked(draw_x: u32, draw_y: u32, x_min: i64, y_min: i64, x_max: i64, y_max: i64) -> Vector {
        Vector {
            x: pick_spec(draw_x as int, x_min as int, x_max as int) as i64,
            y: pick_spec(draw_y as int, y_min as int, y_max as int) as i64,
        }
    }

    /// Builds a vector from wide components, confining each to the
    /// coordinate range.
    pub fn saturating(x: i128, y: i128) -> (r: Vector)
        ensures
            r == Vector::clamped(x as int, y as int),
            r.wf(),
    {
        Vector { x: saturate(x), y: saturate(y) }
    }

    /// The point of the box `[x_min, x_max) x [y_min, y_max)` that the two
    /// draws select.
    pub fn from_draws(draw_x: u32, draw_y: u32, x_min: i64, y_min: i64, x_max: i64, y_max: i64) -> (r: Vector)
        ensures
            r == Vector::picked(draw_x, draw_y, x_min, y_min, x_max, y_max),
    {
        Vector { x: pick(draw_x, x_min, x_max), y: pick(draw_y, y_min, y_max) }
    }

    /// A random point of the box `[x_min, x_max) x [y_min, y_max)`.
    pub fn new_rand(x_min: i64, y_min: i64, x_max: i64, y_max: i64) -> (r: Vector)
        ensures
            exists|draw_x: u32, draw_y: u32|
                r == Vector::picked(draw_x, draw_y, x_min, y_min, x_max, y_max),
    {
        let draw_x = draw();
        let draw_y = draw();
        Vector::from_draws(draw_x, draw_y, x_min, y_min, x_max, y_max)
    }

    /// Direction from `self` to `other`, in microradians within `[0, TAU)`.
    pub fn angle_to_vector(self, other: Vector) -> (r: i64)
        requires
            self.wf(),
            other.wf(),
        ensures
            r == self.angle_to(other),
            0 <= r < TAU,
    {
        let dx = other.x - self.x;
        let dy = other.y - self.y;
        let base = atan(dy, dx);
        let turned = if dx == 0 {
            base
        } else if dy < 0 {
            if dx > 0 {
                base + TAU
            } else {
                base + PI
            }
        } else if dx < 0 {
            base + PI
        } else {
            base
        };
        wrap(turned, TAU)
    }

    /// Euclidean length, rounded down.
    pub fn magnitude(self) -> (r: i64)
        requires
            self.wf(),
        ensures
            r == self.length(),
            0 <= r <= 1_414_213_563,
    {
        let x: i64 = self.x;
        let y: i64 = self.y;
        assert(0 <= x * x <= 1_000_000_000_000_000_000) by (nonlinear_arith)
            requires
                -1_000_000_000 <= x <= 1_000_000_000,
        ;
        assert(0 <= y * y <= 1_000_000_000_000_000_000) by (nonlinear_arith)
            requires
                -1_000_000_000 <= y <= 1_000_000_000,
        ;
        let n: u64 = (x * x + y * y) as u64;
        let r = isqrt(n);
        assert(r <= 1_414_213_563) by (nonlinear_arith)
            requires
                r * r <= n,
                n <= 2_000_000_000_000_000_000,
                r >= 0,
        ;
        r as i64
    }

    /// Euclidean distance to `other`, rounded down.
    pub fn distance(self, other: Vector) -> (r: i64)
        requires
            self.wf(),
            other.wf(),
        ensures
            r == self.distance_spec(other),
            0 <= r <= 2_828_427_125,
    {
        let dx: i64 = self.x - other.x;
        let dy: i64 = self.y - other.y;
        assert(0 <= dx * dx <= 4_000_000_000_000_000_000) by (nonlinear_arith)
            requires
                -2_000_000_000 <= dx <= 2_000_000_000,
        ;
        assert(0 <= dy * dy <= 4_000_000_000_000_000_000) by (nonlinear_arith)
            requires
                -2_000_000_000 <= dy <= 2_000_000_000,
        ;
        let n: u64 = (dx * dx + dy * dy) as u64;
        let r = isqrt(n);
        assert(r <= 2_828_427_125) by (nonlinear_arith)
            requires
                r * r <= n,
                n <= 8_000_000_000_000_000_000,
                r >= 0,
        ;
        r as i64
    }

    /// `self` turned by `angle` microradians about the origin.
    pub fn rotate(self, angle: i64) -> (r: Vector)
        requires
            self.wf(),
        ensures
            r == self.rotated(angle as int),
            r.wf(),
    {
        let origin = Vector { x: 0, y: 0 };
        let heading = wrap(self.angle_to_vector(origin) + PI, TAU);
        let turn = wrap(angle, TAU);
        let turned = wrap(turn + heading, TAU);
        proof {
            lemma_add_mod_noop(angle as int, heading as int, TAU as int);
            vstd::arithmetic::div_mod::lemma_small_mod(heading as nat, TAU as nat);
        }
        let m = self.magnitude();
        let c = cos(turned);
        let s = sin(turned);
        assert(-1_414_213_563_000_000 <= m * c <= 1_414_213_563_000_000) by (nonlinear_arith)
            requires
                0 <= m <= 1_414_213_563,
                -1_000_000 <= c <= 1_000_000,
        ;
        assert(-1_414_213_563_000_000 <= m * s <= 1_414_213_563_000_000) by (nonlinear_arith)
            requires
                0 <= m <= 1_414_213_563,
                -1_000_000 <= s <= 1_000_000,
        ;
        Vector::saturating(quotient((m * c) as i128, ONE as i128), quotient((m * s) as i128, ONE as i128))
    }

    /// Both components multiplied by the fraction `num / den`.
    pub fn scale(self, num: i64, den: i64) -> (r: Vector)
        requires
            den > 0,
        ensures
            r == self.scaled(num as int, den as int),
            r.wf(),
    {
        let x: i64 = self.x;
        let y: i64 = self.y;
        assert(-0x4000_0000_0000_0000_0000_0000_0000_0000 <= x * num <= 0x4000_0000_0000_0000_0000_0000_0000_0000)
            by (nonlinear_arith)
            requires
                -0x8000_0000_0000_0000 <= x <= 0x8000_0000_0000_0000,
                -0x8000_0000_0000_0000 <= num <= 0x8000_0000_0000_0000,
        ;
        assert(-0x4000_0000_0000_0000_0000_0000_0000_0000 <= y * num <= 0x4000_0000_0000_0000_0000_0000_0000_0000)
            by (nonlinear_arith)
            requires
                -0x8000_0000_0000_0000 <= y <= 0x8000_0000_0000_0000,
                -0x8000_0000_0000_0000 <= num <= 0x8000_0000_0000_0000,
        ;
        Vector::saturating(
            quotient(x as i128 * num as i128, den as i128),
            quotient(y as i128 * num as i128, den as i128),
        )
    }

    /// One toroidal step across a field of the given size.
    pub fn advance(self, step: Vector, size: Size) -> (r: Vector)
        requires
            self.wf(),
            step.wf(),
            size.wf(),
        ensures
            r == self.advanced(step, size),
            0 <= r.x < size.width,
            0 <= r.y < size.height,
            r.wf(),
    {
        Vector {
            x: wrap(self.x + step.x + size.width, size.width),
            y: wrap(self.y + step.y + size.height, size.height),
        }
    }
}

impl core::ops::Add for Vector {
    type Output = Vector;

    /// Component-wise sum, saturating.
    fn add(self, other: Vector) -> (r: Vector) {
        Vector::saturating(self.x as i128 + other.x as i128, self.y as i128 + other.y as i128)
    }
}

impl vstd::std_specs::ops::AddSpecImpl for Vector {
    open spec fn obeys_add_spec() -> bool {
        true
    }

    open spec fn add_req(self, other: Vector) -> bool {
        true
    }

    open spec fn add_spec(self, other: Vector) -> Vector {
        self.plus(other)
    }
}

impl core::ops::AddAssign for Vector {
    /// Adds `other` to this vector, saturating.
    fn add_assign(&mut self, other: Vector)
        ensures
            *final(self) == old(self).plus(other),
    {
        *self = *self + other;
    }
}

impl core::ops::Sub for Vector {
    type Output = Vector;

    /// Component-wise difference, saturating.
    fn sub(self, other: Vector) -> (r: Vector) {
        Vector::saturating(self.x as i128 - other.x as i128, self.y as i128 - other.y as i128)
    }
}

impl vstd::std_specs::ops::SubSpecImpl for Vector {
    open spec fn obeys_sub_spec() -> bool {
        true
    }

    open spec fn sub_req(self, other: Vector) -> bool {
        true
    }

    open spec fn sub_spec(self, other: Vector) -> Vector {
        self.minus(other)
    }
}

impl core::ops::Mul<i64> for Vector {
    type Output = Vector;

    /// Both components multiplied by `factor`, saturating.
    fn mul(self, factor: i64) -> (r: Vector) {
        let x: i64 = self.x;
        let y: i64 = self.y;
        assert(-0x4000_0000_0000_0000_0000_0000_0000_0000 <= x * factor <= 0x4000_0000_0000_0000_0000_0000_0000_0000)
            by (nonlinear_arith)
            requires
                -0x8000_0000_0000_0000 <= x <= 0x8000_0000_0000_0000,
                -0x8000_0000_0000_0000 <= factor <= 0x8000_0000_0000_0000,
        ;
        assert(-0x4000_0000_0000_0000_0000_0000_0000_0000 <= y * factor <= 0x4000_0000_0000_0000_0000_0000_0000_0000)
            by (nonlinear_arith)
            requires
                -0x8000_0000_0000_0000 <= y <= 0x8000_0000_0000_0000,
                -0x8000_0000_0000_0000 <= factor <= 0x8000_0000_0000_0000,
        ;
        Vector::saturating(x as i128 * factor as i128, y as i128 * factor as i128)
    }
}

impl vstd::std_specs::ops::MulSpecImpl<i64> for Vector {
    open spec fn obeys_mul_spec() -> bool {
        true
    }

    open spec fn mul_req(self, factor: i64) -> bool {
        true
    }

    open spec fn mul_spec(self, factor: i64) -> Vector {
        self.times(factor as int)
    }
}

impl core::ops::Mul<Vector> for Vector {
    type Output = Vector;

    /// Component-wise product, saturating.
    fn mul(self, other: Vector) -> (r: Vector) {
        Vector { x: (self * other.x).x, y: (self * other.y).y }
    }
}

impl vstd::std_specs::ops::MulSpecImpl<Vector> for Vector {
    open spec fn obeys_mul_spec() -> bool {
        true
    }

    open spec fn mul_req(self, other: Vector) -> bool {
        true
    }

    open spec fn mul_spec(self, other: Vector) -> Vector {
        self.product(other)
    }
}

impl core::ops::Div<Vector> for Vector {
    type Output = Vector;

    /// Component-wise quotient; the zero vector where either component of
    /// `other` is zero.
    fn div(self, other: Vector) -> (r: Vector) {
        if other.x == 0 || other.y == 0 {
            Vector { x: 0, y: 0 }
        } else {
            Vector { x: (self / other.x).x, y: (self / other.y).y }
        }
    }
}

impl vstd::std_specs::ops::DivSpecImpl<Vector> for Vector {
    open spec fn obeys_div_spec() -> bool {
        true
    }

    open spec fn div_req(self, other: Vector) -> bool {
        true
    }

    open spec fn div_spec(self, other: Vector) -> Vector {
        self.ratio(other)
    }
}

impl core::ops::Div<i64> for Vector {
    type Output = Vector;

    /// Both components divided by `divisor`, rounding toward zero; the zero
    /// vector where `divisor` is zero.
    fn div(self, divisor: i64) -> (r: Vector) {
        if divisor == 0 {
            Vector { x: 0, y: 0 }
        } else if divisor > 0 {
            Vector::saturating(
                quotient(self.x as i128, divisor as i128),
                quotient(self.y as i128, divisor as i128),
            )
        } else {
            Vector::saturating(
                quotient(-(self.x as i128), -(divisor as i128)),
                quotient(-(self.y as i128), -(divisor as i128)),
            )
        }
    }
}

impl vstd::std_specs::ops::DivSpecImpl<i64> for Vector {
    open spec fn obeys_div_spec() -> bool {
        true
    }

    open spec fn div_req(self, divisor: i64) -> bool {
        true
    }

    open spec fn div_spec(self, divisor: i64) -> Vector {
        self.over(divisor as int)
    }
}

impl core::ops::Rem for Vector {
    type Output = Vector;

    /// Component-wise toroidal modulus.
    fn rem(self, extent: Vector) -> (r: Vector) {
        Vector { x: wrap(self.x, extent.x), y: wrap(self.y, extent.y) }
    }
}

impl vstd::std_specs::ops::RemSpecImpl for Vector {
    open spec fn obeys_rem_spec() -> bool {
        true
    }

    open spec fn rem_req(self, extent: Vector) -> bool {
        extent.x > 0 && extent.y > 0
    }

    open spec fn rem_spec(self, extent: Vector) -> Vector {
        self.modulo(extent)
    }
}

impl vstd::std_specs::convert::FromSpecImpl<Size> for Vector {
    open spec fn obeys_from_spec() -> bool {
        true
    }

    open spec fn from_spec(size: Size) -> Vector {
        Vector { x: size.width, y: size.height }
    }
}

impl From<Size> for Vector {
    /// The field's extent as a vector: width as x, height as y.
    fn from(size: Size) -> (r: Vector) {
        Vector { x: size.width, y: size.height }
    }
}

impl vstd::std_specs::convert::FromSpecImpl<[i64; 2]> for Vector {
    open spec fn obeys_from_spec() -> bool {
        true
    }

    open spec fn from_spec(list: [i64; 2]) -> Vector {
        Vector { x: list[0], y: list[1] }
    }
}

impl From<[i64; 2]> for Vector {
    /// The vector whose components are the two entries, x first.
    fn from(list: [i64; 2]) -> (r: Vector) {
        Vector { x: list[0], y: list[1] }
    }
}

impl core::ops::SubAssign for Vector {
    /// Subtracts `other` from this vector, saturating.
    fn sub_assign(&mut self, other: Vector)
        ensures
            *final(self) == old(self).minus(other),
    {
        *self = *self - other;
    }
}

impl core::ops::MulAssign<i64> for Vector {
    /// Multiplies both components by `factor`, saturating.
    fn mul_assign(&mut self, factor: i64)
        ensures
            *final(self) == old(self).times(factor as int),
    {
        *self = *self * factor;
    }
}

impl core::ops::MulAssign<Vector> for Vector {
    /// Multiplies component by component, saturating.
    fn mul_assign(&mut self, other: Vector)
        ensures
            *final(self) == old(self).product(other),
    {
        *self = *self * other;
    }
}

impl core::ops::DivAssign<i64> for Vector {
    /// Divides both components by `divisor`.
    fn div_assign(&mut self, divisor: i64)
        ensures
            *final(self) == old(self).over(divisor as int),
    {
        *self = *self / divisor;
    }
}

impl core::ops::DivAssign<Vector> for Vector {
    /// Divides component by component.
    fn div_assign(&mut self, other: Vector)
        ensures
            *final(self) == old(self).ratio(other),
    {
        *self = *self / other;
    }
}

impl core::ops::RemAssign for Vector {
    /// Reduces each component into `[0, extent)`.
    fn rem_assign(&mut self, extent: Vector)
        requires
            extent.x > 0,
            extent.y > 0,
        ensures
            *final(self) == old(self).modulo(extent),
    {
        *self = *self % extent;
    }
}

impl Default for Vector {
    fn default() -> (r: Vector)
        ensures
            r == Vector::zero(),
    {
        Vector { x: 0, y: 0 }
    }
}

} // verus!

