//! The asteroid model: spawning, drifting, spinning, and splitting into
//! pieces where a bullet strikes.

use vstd::prelude::*;
use crate::collision::{Collidable, Positioned};
use crate::fixed::{
    div_trunc, lemma_pick_range, pick, pick_spec, wrap, HALF_PI, LIMIT, ONE, RADIUS_LIMIT, TAU, UNIT,
};
use crate::motion::{
    aim, aimed, clear_of_field, drift, drifted, is_fully_inside, latched, lemma_spawn_point_clear,
    spawn_point, spawn_position, spawns_clear,
};
use crate::powerup::{DRIFT_SPEED_MAX, DRIFT_SPEED_MIN};
use crate::random::draw;
use crate::shape::{
    all_wf, calculate_radius, center_mass, centroid, draw_pairs, jagged, jagged_shape, mean_length,
    recentered,
};
use crate::vector::{Size, Vector};

verus! {

/// Smallest radius of a fresh asteroid, in length units.
pub const RADIUS_MIN: i64 = 15_000;

/// Upper bound of the radius of a fresh asteroid.
pub const RADIUS_MAX: i64 = 70_000;

/// Vertex count of a fresh asteroid.
pub const DEFAULT_NUM_VERTS: usize = 20;

/// An asteroid splits only if it has more vertices than this.
pub const SPLIT_THRESHOLD: usize = 10;

/// Number of pieces a split aims for.
pub const NUM_PIECES: usize = 3;

/// Bound of the spin of a fresh asteroid: half a degree per tick, in
/// microradians.
pub const SPIN_MAX: i64 = 8_727;

/// Outward drift of a piece, in thousandths of its offset from the parent.
pub const DRIFT_PER_MILLE: i64 = 5;

/// A rock that floats across the field.
///
/// * `pos`, `vel`: position and velocity;
/// * `rot`, `spin`: current rotation and angular velocity per tick;
/// * `radius`: mean radius, used for collisions;
/// * `shape`: the outline, relative to `pos`;
/// * `window_size`: the field, for wrapping;
/// * `on_screen`: whether the asteroid has been fully on the field.
pub struct Asteroid {
    pos: Vector,
    vel: Vector,
    rot: i64,
    spin: i64,
    radius: i64,
    shape: Vec<Vector>,
    window_size: Size,
    on_screen: bool,
}

/// What an asteroid is, as contracts speak of it.
pub struct AsteroidModel {
    pub pos: Vector,
    pub vel: Vector,
    pub rot: i64,
    pub spin: i64,
    pub radius: i64,
    pub shape: Seq<Vector>,
    pub window_size: Size,
    pub on_screen: bool,
}

/// The random numbers that make a new asteroid.
pub struct AsteroidDraws {
    /// Selects the radius.
    pub radius: u32,
    /// Selects the point of the spawn circle.
    pub angle: u32,
    /// Selects the x coordinate of the on-field target.
    pub target_x: u32,
    /// Selects the y coordinate of the on-field target.
    pub target_y: u32,
    /// Selects the speed.
    pub speed: u32,
    /// Selects the spin.
    pub spin: u32,
    /// One pair per vertex, selecting its displacement.
    pub jitter: Vec<(u32, u32)>,
}

/// The draws for an asteroid, as contracts speak of them.
pub struct SpawnDraws {
    pub radius: u32,
    pub angle: u32,
    pub target_x: u32,
    pub target_y: u32,
    pub speed: u32,
    pub spin: u32,
    pub jitter: Seq<(u32, u32)>,
}

impl View for AsteroidDraws {
    type V = SpawnDraws;

    open spec fn view(&self) -> SpawnDraws {
        SpawnDraws {
            radius: self.radius,
            angle: self.angle,
            target_x: self.target_x,
            target_y: self.target_y,
            speed: self.speed,
            spin: self.spin,
            jitter: self.jitter@,
        }
    }
}

impl View for Asteroid {
    type V = AsteroidModel;

    closed spec fn view(&self) -> AsteroidModel {
        AsteroidModel {
            pos: self.pos,
            vel: self.vel,
            rot: self.rot,
            spin: self.spin,
            radius: self.radius,
            shape: self.shape@,
            window_size: self.window_size,
            on_screen: self.on_screen,
        }
    }
}

/// Where vertex `i` of an outline lies on the field, given the centre and
/// the rotation of the outline: the vertex turned by `rot`, then moved to
/// `center`.
pub open spec fn world_vertex(shape: Seq<Vector>, center: Vector, rot: int, i: int) -> Vector {
    shape[i].rotated(rot).plus(center)
}

/// The whole-pixel distance from `point` to where vertex `i` of the outline
/// lies on the field.
pub open spec fn vertex_key(shape: Seq<Vector>, center: Vector, rot: int, point: Vector, i: int) -> int {
    point.distance_spec(world_vertex(shape, center, rot, i)) / (UNIT as int)
}

/// Among the first `count` vertices, the index of the first one nearest to
/// `point` on the field, by whole-pixel distance.
pub open spec fn nearest_among(shape: Seq<Vector>, center: Vector, rot: int, point: Vector, count: int) -> int
    decreases count,
{
    if count <= 1 {
        0
    } else {
        let best = nearest_among(shape, center, rot, point, count - 1);
        if vertex_key(shape, center, rot, point, count - 1) < vertex_key(shape, center, rot, point, best) {
            count - 1
        } else {
            best
        }
    }
}

/// The outline cut open at vertex `seam`: the vertices in cyclic order
/// starting there, with the last one repeated in front and the first one
/// repeated at the end, so that pieces cut from it leave no gap.
pub open spec fn seam_ring(shape: Seq<Vector>, seam: int) -> Seq<Vector> {
    let turned = shape.subrange(seam, shape.len() as int) + shape.subrange(0, seam);
    seq![turned.last()] + turned + seq![turned[0]]
}

/// Where piece `i` starts in the ring of an outline of `n` vertices.
pub open spec fn chunk_start(n: int, i: int) -> int {
    i * (n / 3 + 1)
}

/// Where piece `i` ends in the ring of an outline of `n` vertices: pieces
/// hold `n / 3 + 2` vertices and overlap their neighbours by one; the last
/// one stops at the end of the ring.
pub open spec fn chunk_end(n: int, i: int) -> int {
    if chunk_start(n, i) + n / 3 + 2 <= n + 2 {
        chunk_start(n, i) + n / 3 + 2
    } else {
        n + 2
    }
}

/// The outline of piece `i` before it is centred: its stretch of the ring,
/// closed through the parent's centre.
pub open spec fn chunk(ring: Seq<Vector>, i: int) -> Seq<Vector> {
    let n = ring.len() - 2;
    ring.subrange(chunk_start(n, i), chunk_end(n, i)).push(Vector::zero())
}

/// The pieces that are kept: those with a positive radius.
pub open spec fn kept(piece: AsteroidModel) -> Seq<AsteroidModel> {
    if piece.radius > 0 {
        seq![piece]
    } else {
        Seq::empty()
    }
}

impl AsteroidModel {
    /// Position, velocity, spin and field are within range, the rotation is
    /// normalised, the radius is positive and the outline has vertices.
    pub open spec fn wf(self) -> bool {
        &&& self.pos.wf()
        &&& self.vel.wf()
        &&& 0 <= self.rot < TAU
        &&& -LIMIT <= self.spin <= LIMIT
        &&& 0 < self.radius <= RADIUS_LIMIT
        &&& self.shape.len() > 0
        &&& all_wf(self.shape)
        &&& self.window_size.wf()
    }

    /// The point on the field that a new asteroid is aimed at: at least the
    /// largest radius away from every edge.
    pub open spec fn spawn_target(window_size: Size, draws: SpawnDraws) -> Vector {
        Vector::picked(
            draws.target_x,
            draws.target_y,
            RADIUS_MAX,
            RADIUS_MAX,
            (window_size.width - RADIUS_MAX) as i64,
            (window_size.height - RADIUS_MAX) as i64,
        )
    }

    /// The speed of a new asteroid, in length units per tick.
    pub open spec fn spawn_speed(draws: SpawnDraws) -> int {
        pick_spec(draws.speed as int, DRIFT_SPEED_MIN as int, DRIFT_SPEED_MAX as int)
    }

    /// The asteroid that the draws make: off the field on the spawn circle,
    /// which clears the longer side of the field by the largest radius,
    /// moving toward a target at least that far inside the field, with a
    /// jagged outline and not yet on screen.
    pub open spec fn spawned(window_size: Size, draws: SpawnDraws) -> AsteroidModel {
        let radius = pick_spec(draws.radius as int, RADIUS_MIN as int, RADIUS_MAX as int);
        let angle = pick_spec(draws.angle as int, 0, TAU as int);
        let target = AsteroidModel::spawn_target(window_size, draws);
        let speed = AsteroidModel::spawn_speed(draws);
        let pos = spawn_point(window_size, window_size.longest() + RADIUS_MAX, angle);
        AsteroidModel {
            pos,
            vel: aimed(pos, target, speed),
            rot: 0,
            spin: pick_spec(draws.spin as int, -SPIN_MAX, SPIN_MAX as int) as i64,
            radius: radius as i64,
            shape: jagged(radius, DEFAULT_NUM_VERTS as nat, draws.jitter),
            window_size,
            on_screen: false,
        }
    }

    /// The asteroid one tick later: drifted, spun, and latched on screen
    /// once it is fully on the field.
    pub open spec fn updated(self) -> AsteroidModel {
        let pos = drifted(self.pos, self.vel, self.window_size, self.on_screen);
        AsteroidModel {
            pos,
            rot: ((self.rot + self.spin) % (TAU as int)) as i64,
            on_screen: latched(self.on_screen, pos, self.radius as int, self.window_size),
            ..self
        }
    }

    /// The asteroid `ticks` ticks later.
    pub open spec fn updated_times(self, ticks: nat) -> AsteroidModel
        decreases ticks,
    {
        if ticks == 0 {
            self
        } else {
            self.updated_times((ticks - 1) as nat).updated()
        }
    }

    /// The asteroid has enough vertices to split.
    pub open spec fn splittable(self) -> bool {
        self.shape.len() > SPLIT_THRESHOLD
    }

    /// The same asteroid with its rotation baked into the outline: every
    /// vertex turned by `rot`, and the rotation back at zero.
    pub open spec fn normalized(self) -> AsteroidModel {
        AsteroidModel {
            rot: 0,
            shape: Seq::new(self.shape.len(), |i: int| self.shape[i].rotated(self.rot as int)),
            ..self
        }
    }

    /// Index of the vertex that lies nearest to `point` on the field, with
    /// the asteroid turned as it is; the first of those that tie.
    pub open spec fn nearest(self, point: Vector) -> int {
        nearest_among(self.shape, self.pos, self.rot as int, point, self.shape.len() as int)
    }

    /// The asteroid made of the outline `outline`, given relative to this
    /// one's centre: centred on its own centroid, with the mean vertex
    /// distance as radius, pushed sideways by the parent's spin and slightly
    /// outward, spinning half as fast, and on screen at once.
    pub open spec fn piece(self, outline: Seq<Vector>) -> AsteroidModel {
        let offset = centroid(outline);
        let shape = recentered(outline);
        AsteroidModel {
            pos: self.pos.plus(offset),
            vel: self.vel.plus(offset.rotated(HALF_PI as int).scaled(self.spin as int, ONE as int)).plus(
                offset.scaled(DRIFT_PER_MILLE as int, 1000),
            ),
            rot: 0,
            spin: div_trunc(self.spin as int, 2) as i64,
            radius: mean_length(shape) as i64,
            shape,
            window_size: self.window_size,
            on_screen: true,
        }
    }

    /// Piece `i` of this asteroid struck at `point`, degenerate or not.
    pub open spec fn fragment(self, point: Vector, i: int) -> AsteroidModel {
        let base = self.normalized();
        base.piece(chunk(seam_ring(base.shape, base.nearest(point)), i))
    }

    /// The children of this asteroid struck at `point`. One with enough
    /// vertices to split leaves its three pieces in order, without those
    /// whose radius would be zero; any other leaves none.
    pub open spec fn split_at(self, point: Vector) -> Seq<AsteroidModel> {
        if self.splittable() {
            kept(self.fragment(point, 0)) + kept(self.fragment(point, 1)) + kept(
                self.fragment(point, 2),
            )
        } else {
            Seq::empty()
        }
    }

    /// The asteroid itself after it has been struck: one that splits has
    /// its rotation baked into the outline, any other is as it was.
    pub open spec fn broken(self) -> AsteroidModel {
        if self.splittable() {
            self.normalized()
        } else {
            self
        }
    }

    /// Where the outline has to be drawn a second time because the asteroid
    /// straddles an edge of the field: one copy a field-width away for the
    /// left or right edge, one a field-height away for the top or bottom
    /// edge, and none before the asteroid is on screen.
    pub open spec fn seam_copies(self) -> Seq<Vector> {
        let w = self.window_size.width;
        let h = self.window_size.height;
        let across = if self.pos.x + self.radius > w {
            seq![Vector::clamped(self.pos.x - w, self.pos.y as int)]
        } else if self.pos.x < self.radius {
            seq![Vector::clamped(self.pos.x + w, self.pos.y as int)]
        } else {
            Seq::empty()
        };
        let along = if self.pos.y + self.radius > h {
            seq![Vector::clamped(self.pos.x as int, self.pos.y - h)]
        } else if self.pos.y < self.radius {
            seq![Vector::clamped(self.pos.x as int, self.pos.y + h)]
        } else {
            Seq::empty()
        };
        if self.on_screen {
            across + along
        } else {
            Seq::empty()
        }
    }
}

/// A new asteroid starts off screen, with a radius and a spin within their
/// ranges, moving at a speed within its range toward its target. On a
/// field wider and higher than two largest radii the target lies at least
/// the largest radius inside every edge. On a field of a size for which
/// spawn points lie clear, the whole asteroid starts off the field.
pub proof fn lemma_spawned_off_field(window_size: Size, draws: SpawnDraws)
    requires
        window_size.wf(),
    ensures
        ({
            let rock = AsteroidModel::spawned(window_size, draws);
            let target = AsteroidModel::spawn_target(window_size, draws);
            &&& !rock.on_screen
            &&& RADIUS_MIN <= rock.radius < RADIUS_MAX
            &&& -SPIN_MAX <= rock.spin < SPIN_MAX
            &&& rock.vel == aimed(rock.pos, target, AsteroidModel::spawn_speed(draws))
            &&& DRIFT_SPEED_MIN <= AsteroidModel::spawn_speed(draws) < DRIFT_SPEED_MAX
            &&& window_size.width > 2 * RADIUS_MAX ==> RADIUS_MAX <= target.x < window_size.width
                - RADIUS_MAX
            &&& window_size.height > 2 * RADIUS_MAX ==> RADIUS_MAX <= target.y < window_size.height
                - RADIUS_MAX
            &&& spawns_clear(window_size) ==> clear_of_field(rock.pos, rock.radius as int, window_size)
        }),
{
    lemma_pick_range(draws.radius as int, RADIUS_MIN as int, RADIUS_MAX as int);
    lemma_pick_range(draws.speed as int, DRIFT_SPEED_MIN as int, DRIFT_SPEED_MAX as int);
    lemma_pick_range(draws.spin as int, -SPIN_MAX, SPIN_MAX as int);
    lemma_pick_range(draws.target_x as int, RADIUS_MAX as int, window_size.width - RADIUS_MAX);
    lemma_pick_range(draws.target_y as int, RADIUS_MAX as int, window_size.height - RADIUS_MAX);
    if spawns_clear(window_size) {
        lemma_spawn_point_clear(
            window_size,
            window_size.longest() + RADIUS_MAX,
            pick_spec(draws.angle as int, 0, TAU as int),
            pick_spec(draws.radius as int, RADIUS_MIN as int, RADIUS_MAX as int),
        );
    }
}

/// The on-screen flag changes at most once: an asteroid that is on screen
/// after some number of ticks is on screen after every larger number.
pub proof fn lemma_on_screen_latches(rock: AsteroidModel, sooner: nat, later: nat)
    requires
        sooner <= later,
        rock.updated_times(sooner).on_screen,
    ensures
        rock.updated_times(later).on_screen,
    decreases later,
{
    if sooner < later {
        lemma_on_screen_latches(rock, sooner, (later - 1) as nat);
    }
}

/// A tick leaves the rotation of an asteroid within one turn, never takes
/// it off screen again, and leaves it on the field if it is on screen.
pub proof fn lemma_updated_is_normalised(rock: AsteroidModel)
    requires
        rock.wf(),
    ensures
        0 <= rock.updated().rot < TAU,
        rock.on_screen ==> rock.updated().on_screen,
        rock.updated().on_screen ==> crate::motion::on_field(rock.updated().pos, rock.window_size),
{
    vstd::arithmetic::div_mod::lemma_mod_bound(rock.rot + rock.spin, TAU as int);
    crate::motion::lemma_on_screen_stays_on_field(
        rock.pos,
        rock.vel,
        rock.radius as int,
        rock.window_size,
        rock.on_screen,
    );
}

/// The nearest vertex is one of the vertices.
pub proof fn lemma_nearest_in_range(shape: Seq<Vector>, center: Vector, rot: int, point: Vector, count: int)
    requires
        count >= 1,
    ensures
        0 <= nearest_among(shape, center, rot, point, count) < count,
    decreases count,
{
    if count > 1 {
        lemma_nearest_in_range(shape, center, rot, point, count - 1);
    }
}

/// The nearest vertex is no farther from the point, on the field, than any
/// other, and strictly nearer than every vertex before it.
pub proof fn lemma_nearest_is_first_minimum(
    shape: Seq<Vector>,
    center: Vector,
    rot: int,
    point: Vector,
    count: int,
    j: int,
)
    requires
        count >= 1,
        0 <= j < count,
    ensures
        vertex_key(shape, center, rot, point, nearest_among(shape, center, rot, point, count))
            <= vertex_key(shape, center, rot, point, j),
        j < nearest_among(shape, center, rot, point, count) ==> vertex_key(
            shape,
            center,
            rot,
            point,
            nearest_among(shape, center, rot, point, count),
        ) < vertex_key(shape, center, rot, point, j),
    decreases count,
{
    if count > 1 {
        lemma_nearest_in_range(shape, center, rot, point, count - 1);
        if j < count - 1 {
            lemma_nearest_is_first_minimum(shape, center, rot, point, count - 1, j);
        }
    }
}

/// A piece is cut from within the ring and holds at most a third of the
/// parent's vertices plus two.
pub proof fn lemma_chunk_bounds(n: int, i: int)
    requires
        n >= 1,
        0 <= i < NUM_PIECES,
    ensures
        0 <= chunk_start(n, i) <= chunk_end(n, i) <= n + 2,
        chunk_end(n, i) - chunk_start(n, i) <= n / 3 + 2,
{
    let c = n / 3;
    assert(i * (c + 1) == if i == 0 {
        0
    } else if i == 1 {
        c + 1
    } else {
        2 * c + 2
    }) by (nonlinear_arith)
        requires
            0 <= i < 3,
    ;
}

/// Splitting conserves the outline. An asteroid with no more vertices than
/// the threshold leaves no children. One with more breaks into at most
/// three, and into exactly three unless a piece is degenerate. Every child
/// is on screen at once, has a positive radius, and has at most a third of
/// the parent's vertices plus three, which is fewer than the parent has.
pub proof fn lemma_split_conserves(rock: AsteroidModel, point: Vector)
    requires
        rock.wf(),
    ensures
        !rock.splittable() ==> rock.split_at(point).len() == 0,
        rock.split_at(point).len() <= NUM_PIECES,
        rock.splittable() && (forall|i: int|
            0 <= i < NUM_PIECES ==> (#[trigger] rock.fragment(point, i)).radius > 0)
            ==> rock.split_at(point).len() == NUM_PIECES,
        forall|k: int|
            0 <= k < rock.split_at(point).len() ==> {
                let child = #[trigger] rock.split_at(point)[k];
                &&& child.on_screen
                &&& child.radius > 0
                &&& 1 <= child.shape.len() <= rock.shape.len() / 3 + 3
                &&& child.shape.len() < rock.shape.len()
            },
{
    if !rock.splittable() {
        return ;
    }
    let n = rock.shape.len() as int;
    let base = rock.normalized();
    lemma_nearest_in_range(base.shape, base.pos, base.rot as int, point, n);
    let seam = base.nearest(point);
    let ring = seam_ring(base.shape, seam);
    assert(ring.len() == n + 2);
    assert forall|i: int| 0 <= i < NUM_PIECES implies {
        let piece = #[trigger] rock.fragment(point, i);
        &&& piece.on_screen
        &&& 1 <= piece.shape.len() <= n / 3 + 3
    } by {
        lemma_chunk_bounds(n, i);
    }
    let f0 = rock.fragment(point, 0);
    let f1 = rock.fragment(point, 1);
    let f2 = rock.fragment(point, 2);
    let children = rock.split_at(point);
    assert(children == kept(f0) + kept(f1) + kept(f2));
    assert forall|k: int| 0 <= k < children.len() implies {
        let child = #[trigger] children[k];
        &&& child.on_screen
        &&& child.radius > 0
        &&& 1 <= child.shape.len() <= n / 3 + 3
        &&& child.shape.len() < n
    } by {
        let child = children[k];
        assert(child == f0 || child == f1 || child == f2);
    }
}

/// The children of a well-formed asteroid are well formed.
pub proof fn lemma_split_wf(rock: AsteroidModel, point: Vector)
    requires
        rock.wf(),
    ensures
        all_rocks_wf(rock.split_at(point)),
{
    if !rock.splittable() {
        return ;
    }
    let n = rock.shape.len() as int;
    let base = rock.normalized();
    lemma_nearest_in_range(base.shape, base.pos, base.rot as int, point, n);
    let ring = seam_ring(base.shape, base.nearest(point));
    assert forall|i: int| 0 <= i < NUM_PIECES implies {
        let piece = #[trigger] rock.fragment(point, i);
        piece.radius > 0 ==> piece.wf()
    } by {
        lemma_chunk_bounds(n, i);
        lemma_piece_wf(base, chunk(ring, i));
    }
    let f0 = rock.fragment(point, 0);
    let f1 = rock.fragment(point, 1);
    let f2 = rock.fragment(point, 2);
    let children = rock.split_at(point);
    assert forall|k: int| 0 <= k < children.len() implies (#[trigger] children[k]).wf() by {
        let child = children[k];
        assert(child == f0 || child == f1 || child == f2);
    }
}

/// A piece with a positive radius is well formed.
pub proof fn lemma_piece_wf(parent: AsteroidModel, outline: Seq<Vector>)
    requires
        parent.pos.wf(),
        parent.vel.wf(),
        -LIMIT <= parent.spin <= LIMIT,
        parent.window_size.wf(),
        outline.len() > 0,
    ensures
        parent.piece(outline).radius > 0 ==> parent.piece(outline).wf(),
{
    let shape = recentered(outline);
    assert(all_wf(shape));
    crate::shape::lemma_mean_length_range(shape);
}

/// The models of a list of asteroids, in order.
pub open spec fn models(asteroids: Seq<Asteroid>) -> Seq<AsteroidModel> {
    asteroids.map_values(|a: Asteroid| a@)
}

/// Every asteroid of the list is well formed.
pub open spec fn all_rocks_wf(asteroids: Seq<AsteroidModel>) -> bool {
    forall|i: int| 0 <= i < asteroids.len() ==> (#[trigger] asteroids[i]).wf()
}

/// Whether every vertex is within the coordinate range.
fn vertices_in_range(shape: &Vec<Vector>) -> (r: bool)
    ensures
        r == all_wf(shape@),
{
    let mut i: usize = 0;
    while i < shape.len()
        invariant
            i <= shape.len(),
            forall|j: int| 0 <= j < i ==> (#[trigger] shape@[j]).wf(),
        decreases shape.len() - i,
    {
        let v = shape[i];
        if !(-LIMIT <= v.x && v.x <= LIMIT && -LIMIT <= v.y && v.y <= LIMIT) {
            return false;
        }
        i += 1;
    }
    true
}

/// A copy of the stretch `[start, end)` of `ring`.
fn stretch(ring: &Vec<Vector>, start: usize, end: usize) -> (r: Vec<Vector>)
    requires
        start <= end <= ring.len(),
    ensures
        r@ == ring@.subrange(start as int, end as int),
{
    let mut out: Vec<Vector> = Vec::new();
    let mut i: usize = start;
    while i < end
        invariant
            start <= i <= end <= ring.len(),
            out@ == ring@.subrange(start as int, i as int),
        decreases end - i,
    {
        out.push(ring[i]);
        i += 1;
    }
    out
}

/// The outline cut open at vertex `seam`.
fn open_ring(shape: &Vec<Vector>, seam: usize) -> (ring: Vec<Vector>)
    requires
        seam < shape.len(),
    ensures
        ring@ == seam_ring(shape@, seam as int),
        ring@.len() == shape@.len() + 2,
        all_wf(shape@) ==> all_wf(ring@),
{
    let n = shape.len();
    let ghost turned = shape@.subrange(seam as int, n as int) + shape@.subrange(0, seam as int);
    let before: usize = if seam == 0 { n - 1 } else { seam - 1 };
    assert(turned.last() == shape@[before as int]);
    assert(turned[0] == shape@[seam as int]);
    let mut ring: Vec<Vector> = Vec::new();
    ring.push(shape[before]);
    let mut i: usize = seam;
    while i < n
        invariant
            seam <= i <= n,
            n == shape.len(),
            ring@ == seq![shape@[before as int]] + shape@.subrange(seam as int, i as int),
        decreases n - i,
    {
        ring.push(shape[i]);
        i += 1;
    }
    let mut k: usize = 0;
    while k < seam
        invariant
            k <= seam < n,
            n == shape.len(),
            ring@ == seq![shape@[before as int]] + shape@.subrange(seam as int, n as int)
                + shape@.subrange(0, k as int),
        decreases seam - k,
    {
        ring.push(shape[k]);
        k += 1;
    }
    ring.push(shape[seam]);
    assert(ring@ == seq![turned.last()] + turned + seq![turned[0]]);
    proof {
        if all_wf(shape@) {
            assert forall|j: int| 0 <= j < ring@.len() implies (#[trigger] ring@[j]).wf() by {
                if j == 0 {
                } else if j <= n - seam {
                    assert(ring@[j] == shape@[seam + j - 1]);
                } else if j <= n {
                    assert(ring@[j] == shape@[j - 1 - (n - seam)]);
                } else {
                }
            }
        }
    }
    ring
}

impl AsteroidDraws {
    /// Fresh random numbers for one asteroid of the default vertex count.
    pub fn random() -> (r: AsteroidDraws)
        ensures
            r@.jitter.len() == DEFAULT_NUM_VERTS,
    {
        AsteroidDraws {
            radius: draw(),
            angle: draw(),
            target_x: draw(),
            target_y: draw(),
            speed: draw(),
            spin: draw(),
            jitter: draw_pairs(DEFAULT_NUM_VERTS),
        }
    }
}

impl Asteroid {
    /// An asteroid with exactly the given state, if that state is well
    /// formed.
    pub fn from_parts(
        pos: Vector,
        vel: Vector,
        rot: i64,
        spin: i64,
        radius: i64,
        shape: Vec<Vector>,
        window_size: Size,
        on_screen: bool,
    ) -> (r: Option<Asteroid>)
        ensures
            r.is_some() <==> (AsteroidModel {
                pos,
                vel,
                rot,
                spin,
                radius,
                shape: shape@,
                window_size,
                on_screen,
            }).wf(),
            r.is_some() ==> r.unwrap()@ == (AsteroidModel {
                pos,
                vel,
                rot,
                spin,
                radius,
                shape: shape@,
                window_size,
                on_screen,
            }),
    {
        let in_range = -LIMIT <= pos.x && pos.x <= LIMIT && -LIMIT <= pos.y && pos.y <= LIMIT
            && -LIMIT <= vel.x && vel.x <= LIMIT && -LIMIT <= vel.y && vel.y <= LIMIT && 0 <= rot
            && rot < TAU && -LIMIT <= spin && spin <= LIMIT && 0 < radius && radius <= RADIUS_LIMIT
            && 0 < window_size.width && window_size.width <= LIMIT && 0 < window_size.height
            && window_size.height <= LIMIT && shape.len() > 0;
        if in_range && vertices_in_range(&shape) {
            Some(Asteroid { pos, vel, rot, spin, radius, shape, window_size, on_screen })
        } else {
            None
        }
    }

    /// Makes the asteroid that the draws say.
    pub fn from_draws(window_size: Size, draws: &AsteroidDraws) -> (r: Asteroid)
        requires
            window_size.wf(),
        ensures
            r@ == AsteroidModel::spawned(window_size, draws@),
            r@.wf(),
            !r@.on_screen,
            r@.shape.len() == DEFAULT_NUM_VERTS,
            spawns_clear(window_size) ==> clear_of_field(r@.pos, r@.radius as int, window_size),
    {
        proof {
            lemma_spawned_off_field(window_size, draws@);
            lemma_pick_range(draws.radius as int, RADIUS_MIN as int, RADIUS_MAX as int);
            lemma_pick_range(draws.angle as int, 0, TAU as int);
            lemma_pick_range(draws.speed as int, DRIFT_SPEED_MIN as int, DRIFT_SPEED_MAX as int);
            lemma_pick_range(draws.spin as int, -SPIN_MAX, SPIN_MAX as int);
            lemma_pick_range(draws.target_x as int, RADIUS_MAX as int, window_size.width - RADIUS_MAX);
            lemma_pick_range(draws.target_y as int, RADIUS_MAX as int, window_size.height - RADIUS_MAX);
        }
        let radius = pick(draws.radius, RADIUS_MIN, RADIUS_MAX);
        let longest = if window_size.width >= window_size.height {
            window_size.width
        } else {
            window_size.height
        };
        let spawn_radius = longest + RADIUS_MAX;
        let angle = pick(draws.angle, 0, TAU);
        let target = Vector::from_draws(
            draws.target_x,
            draws.target_y,
            RADIUS_MAX,
            RADIUS_MAX,
            window_size.width - RADIUS_MAX,
            window_size.height - RADIUS_MAX,
        );
        let speed = pick(draws.speed, DRIFT_SPEED_MIN, DRIFT_SPEED_MAX);
        let pos = spawn_position(window_size, spawn_radius, angle);
        Asteroid {
            pos,
            vel: aim(pos, target, speed),
            rot: 0,
            spin: pick(draws.spin, -SPIN_MAX, SPIN_MAX),
            radius,
            shape: jagged_shape(radius, DEFAULT_NUM_VERTS, &draws.jitter),
            window_size,
            on_screen: false,
        }
    }

    /// Makes a random asteroid.
    pub fn new(window_size: Size) -> (r: Asteroid)
        requires
            window_size.wf(),
        ensures
            exists|draws: SpawnDraws|
                draws.jitter.len() == DEFAULT_NUM_VERTS && r@ == AsteroidModel::spawned(
                    window_size,
                    draws,
                ),
            r@.wf(),
            !r@.on_screen,
            r@.shape.len() == DEFAULT_NUM_VERTS,
            spawns_clear(window_size) ==> clear_of_field(r@.pos, r@.radius as int, window_size),
    {
        let draws = AsteroidDraws::random();
        Asteroid::from_draws(window_size, &draws)
    }

    /// Whether a hit splits the asteroid rather than destroying it outright.
    pub fn can_split(&self) -> (r: bool)
        ensures
            r == self@.splittable(),
    {
        self.shape.len() > SPLIT_THRESHOLD
    }

    /// Bakes the rotation into the outline and resets it to zero.
    pub fn normalize_rotation(&mut self)
        requires
            old(self)@.wf(),
        ensures
            final(self)@ == old(self)@.normalized(),
            final(self)@.wf(),
    {
        let n = self.shape.len();
        let ghost start = self.shape@;
        let rot = self.rot;
        let mut i: usize = 0;
        while i < n
            invariant
                i <= n,
                n == start.len(),
                self.shape@.len() == n,
                all_wf(start),
                self.pos == old(self).pos,
                self.vel == old(self).vel,
                self.rot == old(self).rot,
                self.spin == old(self).spin,
                self.radius == old(self).radius,
                self.window_size == old(self).window_size,
                self.on_screen == old(self).on_screen,
                rot == self.rot,
                forall|j: int| 0 <= j < i ==> self.shape@[j] == start[j].rotated(rot as int),
                forall|j: int| 0 <= j < i ==> (#[trigger] self.shape@[j]).wf(),
                forall|j: int| i <= j < n ==> self.shape@[j] == start[j],
            decreases n - i,
        {
            assert(start[i as int].wf());
            let turned = self.shape[i].rotate(rot);
            self.shape.set(i, turned);
            i += 1;
        }
        self.rot = 0;
        assert(self.shape@ == old(self)@.normalized().shape);
    }

    /// Index of the vertex that lies nearest to `other` on the field, with
    /// the asteroid turned as it is. Distances are compared in whole
    /// pixels, and of vertices that tie the first is taken.
    pub fn index_nearest_point<P: Positioned>(&self, other: &P) -> (r: usize)
        requires
            self@.wf(),
            other.position().wf(),
        ensures
            r == self@.nearest(other.position()),
            r < self@.shape.len(),
    {
        let point = other.pos();
        let n = self.shape.len();
        let mut best: usize = 0;
        let mut best_key: i64 = point.distance(self.shape[0].rotate(self.rot) + self.pos) / UNIT;
        let mut i: usize = 1;
        while i < n
            invariant
                1 <= i <= n,
                n == self.shape@.len(),
                self@.wf(),
                point.wf(),
                best < i,
                best == nearest_among(self.shape@, self.pos, self.rot as int, point, i as int),
                best_key == vertex_key(self.shape@, self.pos, self.rot as int, point, best as int),
            decreases n - i,
        {
            let key: i64 = point.distance(self.shape[i].rotate(self.rot) + self.pos) / UNIT;
            if key < best_key {
                best = i;
                best_key = key;
            }
            i += 1;
        }
        best
    }

    /// The asteroid made of `outline`, given relative to this one's centre.
    fn make_piece(&self, outline: Vec<Vector>) -> (r: Asteroid)
        requires
            self@.wf(),
            outline@.len() > 0,
        ensures
            r@ == self@.piece(outline@),
            r@.radius > 0 ==> r@.wf(),
            r@.shape.len() == outline@.len(),
    {
        let mut shape = outline;
        let offset = center_mass(&mut shape);
        let radius = calculate_radius(&shape);
        let kick = offset.rotate(HALF_PI).scale(self.spin, ONE);
        let outward = offset.scale(DRIFT_PER_MILLE, 1000);
        Asteroid {
            pos: self.pos + offset,
            vel: self.vel + kick + outward,
            rot: 0,
            spin: self.spin / 2,
            radius,
            shape,
            window_size: self.window_size,
            on_screen: true,
        }
    }

    /// Cuts piece `i` from the ring and keeps it unless it is degenerate.
    fn collect_piece(&self, ring: &Vec<Vector>, i: usize, chunks: &mut Vec<Asteroid>)
        requires
            self@.wf(),
            ring@.len() == self@.shape.len() + 2,
            i < NUM_PIECES,
            all_rocks_wf(models(old(chunks)@)),
        ensures
            models(final(chunks)@) == models(old(chunks)@) + kept(self@.piece(chunk(ring@, i as int))),
            all_rocks_wf(models(final(chunks)@)),
    {
        let n = self.shape.len();
        let chunk_size = n / NUM_PIECES;
        let start = i * (chunk_size + 1);
        let end = if ring.len() - start >= chunk_size + 2 {
            start + chunk_size + 2
        } else {
            ring.len()
        };
        assert(start == chunk_start(n as int, i as int));
        assert(end == chunk_end(n as int, i as int));
        let mut outline = stretch(ring, start, end);
        outline.push(Vector { x: 0, y: 0 });
        assert(outline@ == chunk(ring@, i as int));
        let piece = self.make_piece(outline);
        if piece.radius > 0 {
            let ghost before = chunks@;
            chunks.push(piece);
            assert(models(chunks@) == models(before) + seq![piece@]);
        }
    }

    /// Breaks the asteroid where `other` struck it. An asteroid without
    /// enough vertices to split yields no pieces and stays as it is. For
    /// any other the rotation is baked into the outline, the outline is cut
    /// open at the vertex nearest to `other`, and up to three pieces are
    /// returned; the asteroid itself is left normalised, for its owner to
    /// discard.
    pub fn split<P: Positioned>(&mut self, other: &P) -> (chunks: Vec<Asteroid>)
        requires
            old(self)@.wf(),
            other.position().wf(),
        ensures
            models(chunks@) == old(self)@.split_at(other.position()),
            !old(self)@.splittable() ==> chunks@.len() == 0,
            all_rocks_wf(models(chunks@)),
            final(self)@ == old(self)@.broken(),
            final(self)@.wf(),
    {
        if !self.can_split() {
            let none: Vec<Asteroid> = Vec::new();
            assert(models(none@) == Seq::<AsteroidModel>::empty());
            return none;
        }
        self.normalize_rotation();
        let seam = self.index_nearest_point(other);
        let ring = open_ring(&self.shape, seam);
        let mut chunks: Vec<Asteroid> = Vec::new();
        assert(models(chunks@) == Seq::<AsteroidModel>::empty());
        self.collect_piece(&ring, 0, &mut chunks);
        self.collect_piece(&ring, 1, &mut chunks);
        self.collect_piece(&ring, 2, &mut chunks);
        chunks
    }

    /// Advances the asteroid by one tick.
    pub fn update(&mut self)
        requires
            old(self)@.wf(),
        ensures
            final(self)@ == old(self)@.updated(),
            final(self)@.wf(),
            0 <= final(self)@.rot < TAU,
            old(self)@.on_screen ==> final(self)@.on_screen,
            final(self)@.on_screen ==> 0 <= final(self)@.pos.x < final(self)@.window_size.width,
            final(self)@.on_screen ==> 0 <= final(self)@.pos.y < final(self)@.window_size.height,
    {
        self.pos = drift(self.pos, self.vel, self.window_size, self.on_screen);
        self.rot = wrap(self.rot + self.spin, TAU);
        if !self.on_screen && is_fully_inside(self.pos, self.radius, self.window_size) {
            self.on_screen = true;
        }
    }

    /// Where the outline has to be drawn again because the asteroid
    /// straddles an edge of the field.
    pub fn seam_positions(&self) -> (r: Vec<Vector>)
        requires
            self@.wf(),
        ensures
            r@ == self@.seam_copies(),
    {
        let mut copies: Vec<Vector> = Vec::new();
        if self.on_screen {
            let w = self.window_size.width;
            let h = self.window_size.height;
            if self.pos.x + self.radius > w {
                copies.push(Vector::saturating(self.pos.x as i128 - w as i128, self.pos.y as i128));
            } else if self.pos.x < self.radius {
                copies.push(Vector::saturating(self.pos.x as i128 + w as i128, self.pos.y as i128));
            }
            if self.pos.y + self.radius > h {
                copies.push(Vector::saturating(self.pos.x as i128, self.pos.y as i128 - h as i128));
            } else if self.pos.y < self.radius {
                copies.push(Vector::saturating(self.pos.x as i128, self.pos.y as i128 + h as i128));
            }
        }
        copies
    }

    /// The velocity.
    pub fn vel(&self) -> (r: Vector)
        ensures
            r == self@.vel,
    {
        self.vel
    }

    /// The rotation, in microradians.
    pub fn rot(&self) -> (r: i64)
        ensures
            r == self@.rot,
    {
        self.rot
    }

    /// The angular velocity, in microradians per tick.
    pub fn spin(&self) -> (r: i64)
        ensures
            r == self@.spin,
    {
        self.spin
    }

    /// The outline, relative to the position.
    pub fn shape(&self) -> (r: &Vec<Vector>)
        ensures
            r@ == self@.shape,
    {
        &self.shape
    }

    /// The field the asteroid wraps around.
    pub fn window_size(&self) -> (r: Size)
        ensures
            r == self@.window_size,
    {
        self.window_size
    }

    /// Whether the asteroid has been fully on the field.
    pub fn on_screen(&self) -> (r: bool)
        ensures
            r == self@.on_screen,
    {
        self.on_screen
    }
}

impl Positioned for Asteroid {
    open spec fn position(&self) -> Vector {
        self@.pos
    }

    fn pos(&self) -> (r: Vector) {
        self.pos
    }
}

impl Collidable for Asteroid {
    open spec fn reach(&self) -> int {
        self@.radius as int
    }

    fn radius(&self) -> (r: i64) {
        self.radius
    }
}

} // verus!
