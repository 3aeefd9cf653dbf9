//! The power-up model: a pickup that drifts onto the field and changes the
//! ship's weapon for a while.

use vstd::prelude::*;
use crate::collision::{Collidable, Positioned};
use crate::fixed::{pick, pick_spec, RADIUS_LIMIT, TAU};
use crate::motion::{
    aim, aimed, clear_of_field, drift, drifted, is_fully_inside, latched, lemma_spawn_point_clear,
    spawn_point, spawn_position, spawns_clear,
};
use crate::random::draw;
use crate::vector::{Size, Vector};

verus! {

/// Collision radius of a power-up, in length units.
pub const POWERUP_RADIUS: i64 = 20_000;

/// Slowest speed of a fresh power-up or asteroid, in length units per tick.
pub const DRIFT_SPEED_MIN: i64 = 500;

/// Upper bound of the speed of a fresh power-up or asteroid.
pub const DRIFT_SPEED_MAX: i64 = 1_200;

/// What a power-up does to the ship.
#[derive(Clone, Copy, Debug, PartialEq, Eq, Structural)]
pub enum PowerUpType {
    /// No effect.
    Nothing,
    /// Shortens the weapon's cooldown.
    FastShoot,
}

/// A pickup drifting across the field.
#[derive(Clone, Copy, Debug, PartialEq, Eq, Structural)]
pub struct PowerUp {
    pub pos: Vector,
    pub vel: Vector,
    pub radius: i64,
    pub powerup_type: PowerUpType,
    pub window_size: Size,
    pub on_screen: bool,
}

/// The random numbers that place a new power-up.
#[derive(Clone, Copy, Debug, PartialEq, Eq, Structural)]
pub struct PowerUpDraws {
    /// Selects the point of the spawn circle.
    pub angle: u32,
    /// Selects the x coordinate of the on-field target.
    pub target_x: u32,
    /// Selects the y coordinate of the on-field target.
    pub target_y: u32,
    /// Selects the speed.
    pub speed: u32,
}

impl PowerUp {
    /// Position, velocity, radius and field are within range.
    pub open spec fn wf(self) -> bool {
        &&& self.pos.wf()
        &&& self.vel.wf()
        &&& 0 < self.radius <= RADIUS_LIMIT
        &&& self.window_size.wf()
    }

    /// The power-up that the draws place: off the field on the spawn circle,
    /// whose radius is the longer side of the field, moving toward a target
    /// at least one radius inside the field.
    pub open spec fn spawned(window_size: Size, draws: PowerUpDraws) -> PowerUp {
        let angle = pick_spec(draws.angle as int, 0, TAU as int);
        let target = Vector::picked(
            draws.target_x,
            draws.target_y,
            POWERUP_RADIUS,
            POWERUP_RADIUS,
            (window_size.width - POWERUP_RADIUS) as i64,
            (window_size.height - POWERUP_RADIUS) as i64,
        );
        let speed = pick_spec(draws.speed as int, DRIFT_SPEED_MIN as int, DRIFT_SPEED_MAX as int);
        let pos = spawn_point(window_size, window_size.longest(), angle);
        PowerUp {
            pos,
            vel: aimed(pos, target, speed),
            radius: POWERUP_RADIUS,
            powerup_type: PowerUpType::FastShoot,
            window_size,
            on_screen: false,
        }
    }

    /// The power-up one tick later.
    pub open spec fn updated(self) -> PowerUp {
        let pos = drifted(self.pos, self.vel, self.window_size, self.on_screen);
        PowerUp {
            pos,
            vel: self.vel,
            radius: self.radius,
            powerup_type: self.powerup_type,
            window_size: self.window_size,
            on_screen: latched(self.on_screen, pos, self.radius as int, self.window_size),
        }
    }

    /// Places a power-up as the draws say.
    pub fn from_draws(window_size: Size, draws: PowerUpDraws) -> (r: PowerUp)
        requires
            window_size.wf(),
        ensures
            r == PowerUp::spawned(window_size, draws),
            r.wf(),
            !r.on_screen,
            spawns_clear(window_size) ==> clear_of_field(r.pos, r.radius as int, window_size),
    {
        proof {
            if spawns_clear(window_size) {
                lemma_spawn_point_clear(
                    window_size,
                    window_size.longest(),
                    pick_spec(draws.angle as int, 0, TAU as int),
                    POWERUP_RADIUS as int,
                );
            }
            crate::fixed::lemma_pick_range(draws.angle as int, 0, TAU as int);
            crate::fixed::lemma_pick_range(
                draws.speed as int,
                DRIFT_SPEED_MIN as int,
                DRIFT_SPEED_MAX as int,
            );
            crate::fixed::lemma_pick_range(
                draws.target_x as int,
                POWERUP_RADIUS as int,
                window_size.width - POWERUP_RADIUS,
            );
            crate::fixed::lemma_pick_range(
                draws.target_y as int,
                POWERUP_RADIUS as int,
                window_size.height - POWERUP_RADIUS,
            );
        }
        let spawn_radius = if window_size.width >= window_size.height {
            window_size.width
        } else {
            window_size.height
        };
        let angle = pick(draws.angle, 0, TAU);
        let target = Vector::from_draws(
            draws.target_x,
            draws.target_y,
            POWERUP_RADIUS,
            POWERUP_RADIUS,
            window_size.width - POWERUP_RADIUS,
            window_size.height - POWERUP_RADIUS,
        );
        let speed = pick(draws.speed, DRIFT_SPEED_MIN, DRIFT_SPEED_MAX);
        let pos = spawn_position(window_size, spawn_radius, angle);
        PowerUp {
            pos,
            vel: aim(pos, target, speed),
            radius: POWERUP_RADIUS,
            powerup_type: PowerUpType::FastShoot,
            window_size,
            on_screen: false,
        }
    }

    /// Places a power-up at random.
    pub fn new(window_size: Size) -> (r: PowerUp)
        requires
            window_size.wf(),
        ensures
            exists|draws: PowerUpDraws| r == PowerUp::spawned(window_size, draws),
            r.wf(),
            !r.on_screen,
            spawns_clear(window_size) ==> clear_of_field(r.pos, r.radius as int, window_size),
    {
        let draws = PowerUpDraws::random();
        PowerUp::from_draws(window_size, draws)
    }

    /// Advances the power-up by one tick.
    pub fn update(&mut self)
        requires
            old(self).wf(),
        ensures
            *final(self) == old(self).updated(),
            final(self).wf(),
            old(self).on_screen ==> final(self).on_screen,
            final(self).on_screen ==> 0 <= final(self).pos.x < final(self).window_size.width,
            final(self).on_screen ==> 0 <= final(self).pos.y < final(self).window_size.height,
    {
        self.pos = drift(self.pos, self.vel, self.window_size, self.on_screen);
        if !self.on_screen && is_fully_inside(self.pos, self.radius, self.window_size) {
            self.on_screen = true;
        }
    }
}

impl PowerUpDraws {
    /// Fresh random numbers for one power-up.
    pub fn random() -> (r: PowerUpDraws) {
        PowerUpDraws { angle: draw(), target_x: draw(), target_y: draw(), speed: draw() }
    }
}

impl Positioned for PowerUp {
    open spec fn position(&self) -> Vector {
        self.pos
    }

    fn pos(&self) -> (r: Vector) {
        self.pos
    }
}

impl Collidable for PowerUp {
    open spec fn reach(&self) -> int {
        self.radius as int
    }

    fn radius(&self) -> (r: i64) {
        self.radius
    }
}

} // verus!
