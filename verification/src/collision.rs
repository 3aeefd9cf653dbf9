//! Positions, collision radii and the circular overlap test.

use vstd::prelude::*;
use crate::fixed::RADIUS_LIMIT;
use crate::vector::Vector;

verus! {

/// Two circles overlap: the distance between the centres is strictly less
/// than the sum of the radii. Stated on squares, which is the same
/// comparison without rounding a square root.
pub open spec fn overlap(pa: Vector, ra: int, pb: Vector, rb: int) -> bool {
    &&& ra + rb > 0
    &&& pa.distance_squared(pb) < (ra + rb) * (ra + rb)
}

/// A centre and radius that the overlap test accepts.
pub open spec fn collidable(p: Vector, r: int) -> bool {
    &&& p.wf()
    &&& 0 <= r <= RADIUS_LIMIT
}

/// Whether the circle at `pa` of radius `ra` overlaps the one at `pb` of
/// radius `rb`.
pub fn circles_overlap(pa: Vector, ra: i64, pb: Vector, rb: i64) -> (r: bool)
    requires
        collidable(pa, ra as int),
        collidable(pb, rb as int),
    ensures
        r == overlap(pa, ra as int, pb, rb as int),
{
    let dx: i64 = pa.x - pb.x;
    let dy: i64 = pa.y - pb.y;
    let reach: i64 = ra + rb;
    assert(0 <= dx * dx <= 4_000_000_000_000_000_000) by (nonlinear_arith)
        requires
            -2_000_000_000 <= dx <= 2_000_000_000,
    ;
    assert(0 <= dy * dy <= 4_000_000_000_000_000_000) by (nonlinear_arith)
        requires
            -2_000_000_000 <= dy <= 2_000_000_000,
    ;
    assert(0 <= reach * reach <= 9_000_000_000_000_000_000) by (nonlinear_arith)
        requires
            0 <= reach <= 3_000_000_000,
    ;
    reach > 0 && dx * dx + dy * dy < reach * reach
}

/// The overlap test does not depend on the order of the two circles.
pub proof fn lemma_overlap_symmetric(pa: Vector, ra: int, pb: Vector, rb: int)
    ensures
        overlap(pa, ra, pb, rb) == overlap(pb, rb, pa, ra),
{
    let dx = pa.x - pb.x;
    let dy = pa.y - pb.y;
    assert(dx * dx == (-dx) * (-dx)) by (nonlinear_arith);
    assert(dy * dy == (-dy) * (-dy)) by (nonlinear_arith);
    assert(pa.distance_squared(pb) == pb.distance_squared(pa));
    assert(ra + rb == rb + ra);
}

/// Circles whose centres are exactly the sum of their radii apart do not
/// overlap; any closer, with a positive sum of radii, and they do.
pub proof fn lemma_overlap_threshold(pa: Vector, ra: int, pb: Vector, rb: int)
    ensures
        pa.distance_squared(pb) == (ra + rb) * (ra + rb) ==> !overlap(pa, ra, pb, rb),
        ra + rb > 0 && pa.distance_squared(pb) < (ra + rb) * (ra + rb) ==> overlap(pa, ra, pb, rb),
        pa.distance_squared(pb) >= (ra + rb) * (ra + rb) ==> !overlap(pa, ra, pb, rb),
{
}

/// Something with a position on the field.
pub trait Positioned {
    /// The position, as contracts speak of it.
    spec fn position(&self) -> Vector;

    /// The position.
    fn pos(&self) -> (r: Vector)
        ensures
            r == self.position(),
    ;

    /// The x coordinate.
    fn x(&self) -> (r: i64)
        ensures
            r == self.position().x,
    {
        self.pos().x
    }

    /// The y coordinate.
    fn y(&self) -> (r: i64)
        ensures
            r == self.position().y,
    {
        self.pos().y
    }
}

/// Something positioned that occupies a circle.
pub trait Collidable: Positioned {
    /// The collision radius, as contracts speak of it.
    spec fn reach(&self) -> int;

    /// The collision radius.
    fn radius(&self) -> (r: i64)
        ensures
            r == self.reach(),
    ;
}

/// Whether the circles of `a` and `b` overlap.
pub fn collides_with<A: Collidable, B: Collidable>(a: &A, b: &B) -> (r: bool)
    requires
        collidable(a.position(), a.reach()),
        collidable(b.position(), b.reach()),
    ensures
        r == overlap(a.position(), a.reach(), b.position(), b.reach()),
{
    circles_overlap(a.pos(), a.radius(), b.pos(), b.radius())
}

} // verus!
