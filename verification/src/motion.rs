//! Motion shared by the drifting models: entry onto the field, the spawn
//! circle, and a velocity aimed at a target.

use vstd::prelude::*;
use crate::fixed::{div_trunc, lemma_div_trunc_bound, quotient, LIMIT, ONE};
use crate::trig::{
    cos, cos_spec, lemma_cos_range, lemma_sin_or_cos_large, lemma_sin_range, sin, sin_spec, DIAGONAL,
};
use crate::vector::{Size, Vector};

verus! {

/// The whole circle at `pos` lies on the field: the centre is within
/// `[radius, width - radius] x [radius, height - radius]`.
pub open spec fn fully_inside(pos: Vector, radius: int, size: Size) -> bool {
    &&& radius <= pos.x <= size.width - radius
    &&& radius <= pos.y <= size.height - radius
}

/// Position after one tick. Once on screen a model wraps around the field;
/// before that it moves in a straight line.
pub open spec fn drifted(pos: Vector, vel: Vector, size: Size, on_screen: bool) -> Vector {
    if on_screen {
        pos.advanced(vel, size)
    } else {
        pos.plus(vel)
    }
}

/// The on-screen latch after a tick that ends at `pos`: it sets once the
/// whole circle is on the field, and never clears.
pub open spec fn latched(on_screen: bool, pos: Vector, radius: int, size: Size) -> bool {
    on_screen || fully_inside(pos, radius, size)
}

/// The point of the spawn circle at `angle`: `spawn_radius` away from the
/// centre of the field.
pub open spec fn spawn_point(size: Size, spawn_radius: int, angle: int) -> Vector {
    Vector::clamped(
        size.width / 2 + div_trunc(spawn_radius * cos_spec(angle), ONE as int),
        size.height / 2 + div_trunc(spawn_radius * sin_spec(angle), ONE as int),
    )
}

/// The velocity of the given speed that points from `from` to `target`.
pub open spec fn aimed(from: Vector, target: Vector, speed: int) -> Vector {
    let heading = from.angle_to(target);
    Vector::clamped(
        div_trunc(cos_spec(heading) * speed, ONE as int),
        div_trunc(sin_spec(heading) * speed, ONE as int),
    )
}

/// The point lies on the field: within `[0, width) x [0, height)`.
pub open spec fn on_field(pos: Vector, size: Size) -> bool {
    &&& 0 <= pos.x < size.width
    &&& 0 <= pos.y < size.height
}

/// A model that is on screen is on the field after every tick, whatever
/// its velocity; and so is one that the tick brings on screen.
pub proof fn lemma_on_screen_stays_on_field(pos: Vector, vel: Vector, radius: int, size: Size, on_screen: bool)
    requires
        size.wf(),
        radius > 0,
    ensures
        on_screen ==> on_field(drifted(pos, vel, size, on_screen), size),
        latched(on_screen, drifted(pos, vel, size, on_screen), radius, size) ==> on_field(
            drifted(pos, vel, size, on_screen),
            size,
        ),
{
    lemma_advanced_on_field(pos, vel, size);
}

/// A toroidal step ends on the field, whatever the step.
pub proof fn lemma_advanced_on_field(pos: Vector, step: Vector, size: Size)
    requires
        size.wf(),
    ensures
        on_field(pos.advanced(step, size), size),
{
    vstd::arithmetic::div_mod::lemma_mod_bound(pos.x + step.x + size.width, size.width as int);
    vstd::arithmetic::div_mod::lemma_mod_bound(pos.y + step.y + size.height, size.height as int);
}

/// From this length of its longer side on, a field is long enough for
/// everything that spawns to start wholly off it.
pub const CLEAR_SPAWN_FROM: i64 = 110_000;

/// Up to this length of its longer side, a field is short enough for the
/// spawn circle to stay within the coordinate range.
pub const CLEAR_SPAWN_UP_TO: i64 = 650_000_000;

/// The field has a size for which spawn points are known to lie clear of
/// it.
pub open spec fn spawns_clear(size: Size) -> bool {
    CLEAR_SPAWN_FROM <= size.longest() <= CLEAR_SPAWN_UP_TO
}

/// The circle of the given radius at `pos` lies wholly off the field.
pub open spec fn clear_of_field(pos: Vector, radius: int, size: Size) -> bool {
    ||| pos.x + radius < 0
    ||| pos.x - radius > size.width
    ||| pos.y + radius < 0
    ||| pos.y - radius > size.height
}

/// A length multiplied by a sine or cosine of at least `DIAGONAL` in
/// magnitude keeps more than seven tenths of itself, less one unit.
pub proof fn lemma_component_reach(length: int, factor: int)
    requires
        length >= 0,
        -ONE <= factor <= ONE,
    ensures
        -length <= div_trunc(length * factor, ONE as int) <= length,
        factor >= DIAGONAL ==> 10 * div_trunc(length * factor, ONE as int) > 7 * length - 10,
        factor <= -DIAGONAL ==> 10 * div_trunc(length * factor, ONE as int) < 10 - 7 * length,
{
    let product = length * factor;
    assert(-(length * 1_000_000) <= product <= length * 1_000_000) by (nonlinear_arith)
        requires
            product == length * factor,
            length >= 0,
            -1_000_000 <= factor <= 1_000_000,
    ;
    lemma_div_trunc_bound(product, ONE as int, length);
    if factor >= DIAGONAL {
        assert(product >= length * 705_882) by (nonlinear_arith)
            requires
                product == length * factor,
                length >= 0,
                factor >= 705_882,
        ;
        vstd::arithmetic::div_mod::lemma_fundamental_div_mod(product, ONE as int);
        vstd::arithmetic::div_mod::lemma_mod_bound(product, ONE as int);
    } else if factor <= -DIAGONAL {
        let size = -product;
        assert(size >= length * 705_882) by (nonlinear_arith)
            requires
                size == -(length * factor),
                length >= 0,
                factor <= -705_882,
        ;
        vstd::arithmetic::div_mod::lemma_fundamental_div_mod(size, ONE as int);
        vstd::arithmetic::div_mod::lemma_mod_bound(size, ONE as int);
    }
}

/// A circle at a point of the spawn circle lies wholly off the field, if
/// the spawn circle is wide enough for it: seven tenths of its radius must
/// exceed half the longer side of the field plus the radius of the circle.
/// The point must also be within the coordinate range without saturating.
pub proof fn lemma_spawn_point_clear(size: Size, spawn_radius: int, angle: int, radius: int)
    requires
        size.wf(),
        radius >= 0,
        spawn_radius >= 0,
        size.longest() + 2 * spawn_radius <= 2 * LIMIT,
        7 * spawn_radius > 5 * size.longest() + 10 * radius + 20,
    ensures
        clear_of_field(spawn_point(size, spawn_radius, angle), radius, size),
{
    lemma_sin_or_cos_large(angle);
    lemma_sin_range(angle);
    lemma_cos_range(angle);
    lemma_component_reach(spawn_radius, cos_spec(angle));
    lemma_component_reach(spawn_radius, sin_spec(angle));
}

/// Whether the whole circle at `pos` lies on the field.
pub fn is_fully_inside(pos: Vector, radius: i64, size: Size) -> (r: bool)
    requires
        pos.wf(),
        size.wf(),
        0 <= radius <= crate::fixed::RADIUS_LIMIT,
    ensures
        r == fully_inside(pos, radius as int, size),
{
    radius <= pos.x && pos.x <= size.width - radius && radius <= pos.y && pos.y <= size.height
        - radius
}

/// Moves `pos` by `vel` for one tick.
pub fn drift(pos: Vector, vel: Vector, size: Size, on_screen: bool) -> (r: Vector)
    requires
        pos.wf(),
        vel.wf(),
        size.wf(),
    ensures
        r == drifted(pos, vel, size, on_screen),
        r.wf(),
        on_screen ==> 0 <= r.x < size.width && 0 <= r.y < size.height,
{
    if on_screen {
        pos.advance(vel, size)
    } else {
        Vector::saturating(pos.x as i128 + vel.x as i128, pos.y as i128 + vel.y as i128)
    }
}

/// The point of the spawn circle at `angle`.
pub fn spawn_position(size: Size, spawn_radius: i64, angle: i64) -> (r: Vector)
    requires
        size.wf(),
        0 <= spawn_radius <= 2_000_000_000,
    ensures
        r == spawn_point(size, spawn_radius as int, angle as int),
        r.wf(),
{
    let c = cos(angle);
    let s = sin(angle);
    assert(-2_000_000_000_000_000 <= spawn_radius * c <= 2_000_000_000_000_000) by (nonlinear_arith)
        requires
            0 <= spawn_radius <= 2_000_000_000,
            -1_000_000 <= c <= 1_000_000,
    ;
    assert(-2_000_000_000_000_000 <= spawn_radius * s <= 2_000_000_000_000_000) by (nonlinear_arith)
        requires
            0 <= spawn_radius <= 2_000_000_000,
            -1_000_000 <= s <= 1_000_000,
    ;
    Vector::saturating(
        (size.width / 2) as i128 + quotient((spawn_radius * c) as i128, ONE as i128),
        (size.height / 2) as i128 + quotient((spawn_radius * s) as i128, ONE as i128),
    )
}

/// The velocity of the given speed that points from `from` to `target`.
pub fn aim(from: Vector, target: Vector, speed: i64) -> (r: Vector)
    requires
        from.wf(),
        target.wf(),
        -2_000_000_000 <= speed <= 2_000_000_000,
    ensures
        r == aimed(from, target, speed as int),
        r.wf(),
{
    let heading = from.angle_to_vector(target);
    let c = cos(heading);
    let s = sin(heading);
    assert(-2_000_000_000_000_000 <= c * speed <= 2_000_000_000_000_000) by (nonlinear_arith)
        requires
            -2_000_000_000 <= speed <= 2_000_000_000,
            -1_000_000 <= c <= 1_000_000,
    ;
    assert(-2_000_000_000_000_000 <= s * speed <= 2_000_000_000_000_000) by (nonlinear_arith)
        requires
            -2_000_000_000 <= speed <= 2_000_000_000,
            -1_000_000 <= s <= 1_000_000,
    ;
    Vector::saturating(
        quotient((c * speed) as i128, ONE as i128),
        quotient((s * speed) as i128, ONE as i128),
    )
}

} // verus!
