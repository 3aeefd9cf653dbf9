//! Polygon outlines: the jagged circle an asteroid is born with, and the
//! centring and radius of an arbitrary outline.
//!
//! An outline is an ordered list of vertices relative to its own centre.

use vstd::prelude::*;
use crate::fixed::{div_trunc, lemma_div_trunc_bound, quotient, ONE, TAU};
use crate::random::draw;
use crate::trig::{cos, cos_spec, sin, sin_spec};
use crate::vector::Vector;

verus! {

/// Largest random displacement of a vertex, as a divisor of the radius.
pub const MAX_MUT_FACTOR: i64 = 4;

/// Every vertex is within the coordinate range.
pub open spec fn all_wf(shape: Seq<Vector>) -> bool {
    forall|i: int| 0 <= i < shape.len() ==> (#[trigger] shape[i]).wf()
}

/// Sum of the x components.
pub open spec fn sum_x(shape: Seq<Vector>) -> int
    decreases shape.len(),
{
    if shape.len() == 0 {
        0
    } else {
        sum_x(shape.drop_last()) + shape.last().x
    }
}

/// Sum of the y components.
pub open spec fn sum_y(shape: Seq<Vector>) -> int
    decreases shape.len(),
{
    if shape.len() == 0 {
        0
    } else {
        sum_y(shape.drop_last()) + shape.last().y
    }
}

/// Sum of the vertices' lengths.
pub open spec fn sum_lengths(shape: Seq<Vector>) -> int
    decreases shape.len(),
{
    if shape.len() == 0 {
        0
    } else {
        sum_lengths(shape.drop_last()) + shape.last().length()
    }
}

/// Arithmetic mean of the vertices; the origin for an empty outline.
pub open spec fn centroid(shape: Seq<Vector>) -> Vector {
    if shape.len() == 0 {
        Vector::zero()
    } else {
        Vector::clamped(
            div_trunc(sum_x(shape), shape.len() as int),
            div_trunc(sum_y(shape), shape.len() as int),
        )
    }
}

/// The outline moved so that its centroid sits at the origin: same vertex
/// count, same order.
pub open spec fn recentered(shape: Seq<Vector>) -> Seq<Vector> {
    Seq::new(shape.len(), |i: int| shape[i].minus(centroid(shape)))
}

/// Mean length of the vertices, rounded down; 0 for an empty outline.
pub open spec fn mean_length(shape: Seq<Vector>) -> int {
    if shape.len() == 0 {
        0
    } else {
        sum_lengths(shape) / (shape.len() as int)
    }
}

/// Vertex `i` of the regular `n`-gon of the given radius: at angle
/// `i * TAU / n`.
pub open spec fn circle_vertex(radius: int, i: int, n: int) -> Vector {
    let angle = (i * TAU) / n;
    Vector::clamped(
        div_trunc(radius * cos_spec(angle), ONE as int),
        div_trunc(radius * sin_spec(angle), ONE as int),
    )
}

/// The regular `n`-gon of the given radius, starting on the positive x axis.
pub open spec fn circle(radius: int, n: nat) -> Seq<Vector> {
    Seq::new(n, |i: int| circle_vertex(radius, i, n as int))
}

/// The pair of draws for vertex `i`; vertices beyond the list get none.
pub open spec fn draw_at(draws: Seq<(u32, u32)>, i: int) -> (u32, u32) {
    if 0 <= i < draws.len() {
        draws[i]
    } else {
        (0u32, 0u32)
    }
}

/// Each vertex displaced by the offset in `[0, max)` per axis that its pair
/// of draws selects.
pub open spec fn jittered(shape: Seq<Vector>, max: int, draws: Seq<(u32, u32)>) -> Seq<Vector> {
    Seq::new(
        shape.len(),
        |i: int|
            shape[i].plus(
                Vector::picked(draw_at(draws, i).0, draw_at(draws, i).1, 0, 0, max as i64, max as i64),
            ),
    )
}

/// The outline jittered, then recentred.
pub open spec fn randomized(shape: Seq<Vector>, max: int, draws: Seq<(u32, u32)>) -> Seq<Vector> {
    recentered(jittered(shape, max, draws))
}

/// The jagged circle: a regular polygon jittered by up to a quarter of its
/// radius, then recentred.
pub open spec fn jagged(radius: int, n: nat, draws: Seq<(u32, u32)>) -> Seq<Vector> {
    randomized(circle(radius, n), div_trunc(radius, MAX_MUT_FACTOR as int), draws)
}

/// The length of a vector within the coordinate range.
pub proof fn lemma_length_range(v: Vector)
    requires
        v.wf(),
    ensures
        0 <= v.length() <= 1_414_213_563,
        crate::fixed::is_sqrt(v.norm_squared(), v.length()),
{
    let x = v.x as int;
    let y = v.y as int;
    let n = v.norm_squared();
    assert(0 <= x * x <= 1_000_000_000_000_000_000) by (nonlinear_arith)
        requires
            -1_000_000_000 <= x <= 1_000_000_000,
    ;
    assert(0 <= y * y <= 1_000_000_000_000_000_000) by (nonlinear_arith)
        requires
            -1_000_000_000 <= y <= 1_000_000_000,
    ;
    crate::fixed::lemma_sqrt_exists(n);
    let r = v.length();
    assert(r <= 1_414_213_563) by (nonlinear_arith)
        requires
            r * r <= n,
            n <= 2_000_000_000_000_000_000,
            r >= 0,
    ;
}

/// The sum of the lengths of vertices within the coordinate range.
pub proof fn lemma_sum_lengths_range(shape: Seq<Vector>)
    requires
        all_wf(shape),
    ensures
        0 <= sum_lengths(shape) <= 1_414_213_563 * shape.len(),
    decreases shape.len(),
{
    if shape.len() > 0 {
        assert(all_wf(shape.drop_last()));
        lemma_sum_lengths_range(shape.drop_last());
        assert(shape.last().wf());
        lemma_length_range(shape.last());
    }
}

/// The mean length of vertices within the coordinate range.
pub proof fn lemma_mean_length_range(shape: Seq<Vector>)
    requires
        all_wf(shape),
    ensures
        0 <= mean_length(shape) <= 1_414_213_563,
{
    if shape.len() > 0 {
        lemma_sum_lengths_range(shape);
        let total = sum_lengths(shape);
        let n = shape.len() as int;
        assert(0 <= total / n <= 1_414_213_563) by (nonlinear_arith)
            requires
                0 <= total <= 1_414_213_563 * n,
                n > 0,
        ;
    }
}

/// Sums over a prefix extended by one vertex.
pub proof fn lemma_sums_step(shape: Seq<Vector>, i: int)
    requires
        0 <= i < shape.len(),
    ensures
        sum_x(shape.take(i + 1)) == sum_x(shape.take(i)) + shape[i].x,
        sum_y(shape.take(i + 1)) == sum_y(shape.take(i)) + shape[i].y,
        sum_lengths(shape.take(i + 1)) == sum_lengths(shape.take(i)) + shape[i].length(),
{
    assert(shape.take(i + 1).drop_last() == shape.take(i));
}

/// An `n`-gon of the given radius.
pub fn generate_circle(radius: i64, num_segments: usize) -> (r: Vec<Vector>)
    ensures
        r@ == circle(radius as int, num_segments as nat),
        r@.len() == num_segments,
        all_wf(r@),
{
    let mut shape: Vec<Vector> = Vec::new();
    let mut i: usize = 0;
    while i < num_segments
        invariant
            i <= num_segments,
            shape@.len() == i,
            forall|j: int| 0 <= j < i ==> shape@[j] == circle_vertex(radius as int, j, num_segments as int),
            all_wf(shape@),
        decreases num_segments - i,
    {
        let turn: i128 = i as i128 * 6_283_184;
        let n: i128 = num_segments as i128;
        assert(0 <= turn / n < 6_283_184) by (nonlinear_arith)
            requires
                0 <= turn < n * 6_283_184,
                n > 0,
        ;
        let angle: i64 = (turn / n) as i64;
        let c = cos(angle);
        let s = sin(angle);
        assert(-0x8000_0000_0000_0000 * 1_000_000 <= radius * c <= 0x8000_0000_0000_0000 * 1_000_000)
            by (nonlinear_arith)
            requires
                -0x8000_0000_0000_0000 <= radius <= 0x8000_0000_0000_0000,
                -1_000_000 <= c <= 1_000_000,
        ;
        assert(-0x8000_0000_0000_0000 * 1_000_000 <= radius * s <= 0x8000_0000_0000_0000 * 1_000_000)
            by (nonlinear_arith)
            requires
                -0x8000_0000_0000_0000 <= radius <= 0x8000_0000_0000_0000,
                -1_000_000 <= s <= 1_000_000,
        ;
        let vertex = Vector::saturating(
            quotient(radius as i128 * c as i128, ONE as i128),
            quotient(radius as i128 * s as i128, ONE as i128),
        );
        shape.push(vertex);
        i += 1;
    }
    shape
}

/// Displaces each vertex by what its pair of draws selects, then recentres
/// the outline. Vertices beyond the end of `draws` are not displaced.
pub fn jitter_shape(shape: Vec<Vector>, max: i64, draws: &Vec<(u32, u32)>) -> (r: Vec<Vector>)
    ensures
        r@ == randomized(shape@, max as int, draws@),
        r@.len() == shape@.len(),
        all_wf(r@),
{
    let mut shape = shape;
    let ghost start = shape@;
    let n = shape.len();
    let mut i: usize = 0;
    while i < n
        invariant
            i <= n,
            shape@.len() == n,
            start.len() == n,
            forall|j: int| 0 <= j < i ==> shape@[j] == jittered(start, max as int, draws@)[j],
            forall|j: int| i <= j < n ==> shape@[j] == start[j],
        decreases n - i,
    {
        let pair: (u32, u32) = if i < draws.len() { draws[i] } else { (0u32, 0u32) };
        let offset = Vector::from_draws(pair.0, pair.1, 0, 0, max, max);
        let vertex = shape[i];
        let moved = Vector::saturating(
            vertex.x as i128 + offset.x as i128,
            vertex.y as i128 + offset.y as i128,
        );
        shape.set(i, moved);
        i += 1;
    }
    assert(shape@ == jittered(start, max as int, draws@));
    let _ = center_mass(&mut shape);
    shape
}

/// Draws one pair of random numbers per vertex.
pub fn draw_pairs(count: usize) -> (r: Vec<(u32, u32)>)
    ensures
        r@.len() == count,
{
    let mut pairs: Vec<(u32, u32)> = Vec::new();
    let mut i: usize = 0;
    while i < count
        invariant
            i <= count,
            pairs@.len() == i,
        decreases count - i,
    {
        let first = draw();
        let second = draw();
        pairs.push((first, second));
        i += 1;
    }
    pairs
}

/// Displaces each vertex by a random offset in `[0, max)` on each axis, then
/// recentres the outline.
pub fn randomize_shape(shape: Vec<Vector>, max: i64) -> (r: Vec<Vector>)
    ensures
        exists|draws: Seq<(u32, u32)>|
            draws.len() == shape@.len() && r@ == randomized(shape@, max as int, draws),
        r@.len() == shape@.len(),
        all_wf(r@),
{
    let draws = draw_pairs(shape.len());
    jitter_shape(shape, max, &draws)
}

/// A jagged circle of `num_segments` vertices shaped by the given draws.
pub fn jagged_shape(radius: i64, num_segments: usize, draws: &Vec<(u32, u32)>) -> (r: Vec<Vector>)
    ensures
        r@ == jagged(radius as int, num_segments as nat, draws@),
        r@.len() == num_segments,
        all_wf(r@),
{
    let circle = generate_circle(radius, num_segments);
    let max_mut = radius / MAX_MUT_FACTOR;
    jitter_shape(circle, max_mut, draws)
}

/// A random jagged circle of `num_segments` vertices.
pub fn generate_jagged_shape(radius: i64, num_segments: usize) -> (r: Vec<Vector>)
    ensures
        exists|draws: Seq<(u32, u32)>|
            draws.len() == num_segments && r@ == jagged(radius as int, num_segments as nat, draws),
        r@.len() == num_segments,
        all_wf(r@),
{
    let draws = draw_pairs(num_segments);
    jagged_shape(radius, num_segments, &draws)
}

/// Moves the outline so that its centroid sits at the origin, and returns
/// the centroid it had.
pub fn center_mass(shape: &mut Vec<Vector>) -> (average: Vector)
    ensures
        average == centroid(old(shape)@),
        final(shape)@ == recentered(old(shape)@),
        final(shape)@.len() == old(shape)@.len(),
        all_wf(final(shape)@),
        average.wf(),
{
    let n = shape.len();
    if n == 0 {
        assert(shape@ == recentered(shape@));
        return Vector { x: 0, y: 0 };
    }
    let ghost start = shape@;
    let mut total_x: i128 = 0;
    let mut total_y: i128 = 0;
    let mut i: usize = 0;
    while i < n
        invariant
            i <= n,
            shape@ == start,
            start.len() == n,
            total_x == sum_x(start.take(i as int)),
            total_y == sum_y(start.take(i as int)),
            -0x8000_0000_0000_0000 * i <= total_x <= 0x8000_0000_0000_0000 * i,
            -0x8000_0000_0000_0000 * i <= total_y <= 0x8000_0000_0000_0000 * i,
        decreases n - i,
    {
        proof {
            lemma_sums_step(start, i as int);
        }
        let vertex = shape[i];
        total_x = total_x + vertex.x as i128;
        total_y = total_y + vertex.y as i128;
        i += 1;
    }
    assert(start.take(n as int) == start);
    proof {
        lemma_div_trunc_bound(total_x as int, n as int, 0x8000_0000_0000_0000);
        lemma_div_trunc_bound(total_y as int, n as int, 0x8000_0000_0000_0000);
    }
    let average = Vector::saturating(quotient(total_x, n as i128), quotient(total_y, n as i128));
    let mut k: usize = 0;
    while k < n
        invariant
            k <= n,
            shape@.len() == n,
            start.len() == n,
            average == centroid(start),
            forall|j: int| 0 <= j < k ==> shape@[j] == start[j].minus(average),
            forall|j: int| k <= j < n ==> shape@[j] == start[j],
        decreases n - k,
    {
        let vertex = shape[k];
        let moved = Vector::saturating(
            vertex.x as i128 - average.x as i128,
            vertex.y as i128 - average.y as i128,
        );
        shape.set(k, moved);
        k += 1;
    }
    assert(shape@ == recentered(start));
    average
}

/// Mean distance of the vertices from the origin.
pub fn calculate_radius(shape: &Vec<Vector>) -> (r: i64)
    requires
        all_wf(shape@),
    ensures
        r == mean_length(shape@),
        0 <= r <= 1_414_213_563,
{
    let n = shape.len();
    if n == 0 {
        return 0;
    }
    let mut total: u128 = 0;
    let mut i: usize = 0;
    while i < n
        invariant
            i <= n,
            shape@.len() == n,
            all_wf(shape@),
            total == sum_lengths(shape@.take(i as int)),
            0 <= total <= 1_414_213_563 * i,
        decreases n - i,
    {
        proof {
            lemma_sums_step(shape@, i as int);
        }
        let m = shape[i].magnitude();
        total = total + m as u128;
        i += 1;
    }
    assert(shape@.take(n as int) == shape@);
    assert(total / (n as u128) <= 1_414_213_563) by (nonlinear_arith)
        requires
            0 <= total <= 1_414_213_563 * n,
            n > 0,
    ;
    (total / (n as u128)) as i64
}

} // verus!
