//! The player's ship.
//!
//! The ship is the only model that reacts to input. It holds the state of
//! the player; it does not resolve its own collisions.

use vstd::prelude::*;
use crate::collision::{Collidable, Positioned};
use crate::fixed::{div_trunc, quotient, wrap, TAU};
use crate::powerup::PowerUpType;
use crate::trig::{cos, cos_spec, sin, sin_spec};
use crate::vector::{Size, Vector};

verus! {

/// Turning rate, in microradians per microsecond.
pub const ROTATION_INCREMENT: i64 = 5;

/// Thrust, in pixels per tick gained per second of burn.
pub const THRUST_INCREMENT: i64 = 5;

/// Divides `cosine * THRUST_INCREMENT * dt` down to length units per tick.
pub const THRUST_DIVISOR: i64 = 1_000_000_000;

/// Width of the ship, in length units.
pub const SHIP_WIDTH: i64 = 20_000;

/// Cooldown between shots without a power-up, in microseconds.
pub const DEFAULT_COOLDOWN: u32 = 250_000;

/// Cooldown between shots under `FastShoot`.
pub const FAST_COOLDOWN: u32 = 80_000;

/// How long a power-up lasts, in microseconds.
pub const POWERUP_DURATION: u32 = 5_000_000;

/// Currently active user actions.
#[derive(Clone, Copy, Debug, PartialEq, Eq, Structural)]
pub struct Actions {
    pub rotate_cw: bool,
    pub rotate_ccw: bool,
    pub fire_boosters: bool,
    pub fire_rev_boosters: bool,
    pub is_shooting: bool,
}

/// Which way the boosters push.
#[derive(Clone, Copy, Debug, PartialEq, Eq, Structural)]
pub enum Direction {
    Forward,
    Backward,
}

/// The ship.
#[derive(Clone, Copy, Debug, PartialEq, Eq, Structural)]
pub struct Player {
    pub pos: Vector,
    pub vel: Vector,
    pub rot: i64,
    pub actions: Actions,
    pub powerup_timer: u32,
    pub powerup_type: PowerUpType,
    pub weapon_cooldown: u32,
    pub weapon_cooldown_reset: u32,
    pub window_size: Size,
}

impl Actions {
    /// No action is active.
    pub open spec fn idle() -> Actions {
        Actions {
            rotate_cw: false,
            rotate_ccw: false,
            fire_boosters: false,
            fire_rev_boosters: false,
            is_shooting: false,
        }
    }
}

impl Default for Actions {
    fn default() -> (r: Actions)
        ensures
            r == Actions::idle(),
    {
        Actions {
            rotate_cw: false,
            rotate_ccw: false,
            fire_boosters: false,
            fire_rev_boosters: false,
            is_shooting: false,
        }
    }
}

/// A timer after `dt` more microseconds: counted down, and held at zero.
pub open spec fn counted_down(timer: u32, dt: u32) -> u32 {
    if timer > dt {
        (timer - dt) as u32
    } else {
        0
    }
}

/// Counts a timer down by `dt`, stopping at zero.
pub fn count_down(timer: u32, dt: u32) -> (r: u32)
    ensures
        r == counted_down(timer, dt),
        r <= timer,
{
    if timer > dt {
        timer - dt
    } else {
        0
    }
}

impl Player {
    /// Position, velocity and field are within range, and the rotation is
    /// normalised.
    pub open spec fn wf(self) -> bool {
        &&& self.pos.wf()
        &&& self.vel.wf()
        &&& 0 <= self.rot < TAU
        &&& self.window_size.wf()
    }

    /// The ship at the start of a session: at rest in the centre of the
    /// field, pointing along the x axis, weapon ready, no power-up.
    pub open spec fn initial(window_size: Size) -> Player {
        Player {
            pos: Vector { x: (window_size.width / 2) as i64, y: (window_size.height / 2) as i64 },
            vel: Vector::zero(),
            rot: 0,
            actions: Actions::idle(),
            powerup_timer: 0,
            powerup_type: PowerUpType::Nothing,
            weapon_cooldown: 0,
            weapon_cooldown_reset: DEFAULT_COOLDOWN,
            window_size,
        }
    }

    /// The ship turned by `delta` microradians, the rotation taken modulo a
    /// full turn.
    pub open spec fn turned(self, delta: int) -> Player {
        Player { rot: ((self.rot + delta) % (TAU as int)) as i64, ..self }
    }

    /// The velocity gained from `dt` microseconds of thrust along `rot`.
    pub open spec fn thrust(rot: int, dt: u32) -> Vector {
        Vector {
            x: div_trunc(cos_spec(rot) * THRUST_INCREMENT * dt, THRUST_DIVISOR as int) as i64,
            y: div_trunc(sin_spec(rot) * THRUST_INCREMENT * dt, THRUST_DIVISOR as int) as i64,
        }
    }

    /// The ship after `dt` microseconds of thrust in the given direction.
    pub open spec fn accelerated(self, dt: u32, direction: Direction) -> Player {
        let gain = Player::thrust(self.rot as int, dt);
        match direction {
            Direction::Forward => Player { vel: self.vel.plus(gain), ..self },
            Direction::Backward => Player { vel: self.vel.minus(gain), ..self },
        }
    }

    /// The ship moved one tick along its velocity, wrapping around the field.
    pub open spec fn moved(self) -> Player {
        Player { pos: self.pos.advanced(self.vel, self.window_size), ..self }
    }

    /// The ship after its active actions have been applied for `dt`
    /// microseconds: every active action applies, turns before thrust.
    pub open spec fn steered(self, dt: u32) -> Player {
        let a = if self.actions.rotate_cw {
            self.turned(ROTATION_INCREMENT * dt)
        } else {
            self
        };
        let b = if self.actions.rotate_ccw {
            a.turned(-(ROTATION_INCREMENT * dt))
        } else {
            a
        };
        let c = if self.actions.fire_rev_boosters {
            b.accelerated(dt, Direction::Backward)
        } else {
            b
        };
        if self.actions.fire_boosters {
            c.accelerated(dt, Direction::Forward)
        } else {
            c
        }
    }

    /// The ship after its timers have run for `dt` microseconds: both count
    /// down to zero, and the power-up's effect ends exactly when its timer
    /// is at zero.
    pub open spec fn cooled(self, dt: u32) -> Player {
        let timer = counted_down(self.powerup_timer, dt);
        let over = timer == 0 && self.powerup_type == PowerUpType::FastShoot;
        Player {
            weapon_cooldown: counted_down(self.weapon_cooldown, dt),
            powerup_timer: timer,
            powerup_type: if over {
                PowerUpType::Nothing
            } else {
                self.powerup_type
            },
            weapon_cooldown_reset: if over {
                DEFAULT_COOLDOWN
            } else {
                self.weapon_cooldown_reset
            },
            ..self
        }
    }

    /// The ship one tick of `dt` microseconds later: moved, steered, cooled.
    pub open spec fn updated(self, dt: u32) -> Player {
        self.moved().steered(dt).cooled(dt)
    }

    /// The ship after picking up a power-up of the given kind.
    pub open spec fn powered(self, powerup: PowerUpType) -> Player {
        match powerup {
            PowerUpType::FastShoot => Player {
                powerup_type: powerup,
                weapon_cooldown_reset: FAST_COOLDOWN,
                powerup_timer: POWERUP_DURATION,
                ..self
            },
            PowerUpType::Nothing => Player { powerup_type: powerup, ..self },
        }
    }

    /// The weapon is ready and the trigger is held.
    pub open spec fn shooting(self) -> bool {
        self.weapon_cooldown == 0 && self.actions.is_shooting
    }

    /// The ship with its weapon just fired: the cooldown back at its
    /// current baseline.
    pub open spec fn rearmed(self) -> Player {
        Player { weapon_cooldown: self.weapon_cooldown_reset, ..self }
    }

    /// A ship at the centre of the field.
    pub fn new(window_size: Size) -> (r: Player)
        requires
            window_size.wf(),
        ensures
            r == Player::initial(window_size),
            r.wf(),
    {
        Player {
            pos: Vector { x: window_size.width / 2, y: window_size.height / 2 },
            vel: Vector { x: 0, y: 0 },
            rot: 0,
            actions: Actions::default(),
            powerup_timer: 0,
            powerup_type: PowerUpType::Nothing,
            weapon_cooldown: 0,
            weapon_cooldown_reset: DEFAULT_COOLDOWN,
            window_size,
        }
    }

    /// Turns the ship by `rot` microradians, clockwise for a positive
    /// `rot`. The new rotation is the old one plus `rot`, taken modulo a
    /// full turn; nothing else changes.
    pub fn rotate(&mut self, rot: i64)
        requires
            old(self).wf(),
        ensures
            *final(self) == old(self).turned(rot as int),
            0 <= final(self).rot < TAU,
            final(self).rot == (old(self).rot + rot) % (TAU as int),
            final(self).pos == old(self).pos,
            final(self).vel == old(self).vel,
            final(self).wf(),
    {
        let turn = wrap(rot, TAU);
        proof {
            vstd::arithmetic::div_mod::lemma_add_mod_noop_right(self.rot as int, rot as int, TAU as int);
        }
        self.rot = wrap(self.rot + turn, TAU);
    }

    /// Turns the ship clockwise for `delta` microseconds.
    pub fn rotate_cw(&mut self, delta: u32)
        requires
            old(self).wf(),
        ensures
            *final(self) == old(self).turned(ROTATION_INCREMENT * delta),
            0 <= final(self).rot < TAU,
            final(self).wf(),
    {
        self.rotate(ROTATION_INCREMENT * (delta as i64))
    }

    /// Turns the ship counter-clockwise for `delta` microseconds.
    pub fn rotate_ccw(&mut self, delta: u32)
        requires
            old(self).wf(),
        ensures
            *final(self) == old(self).turned(-(ROTATION_INCREMENT * delta)),
            0 <= final(self).rot < TAU,
            final(self).wf(),
    {
        self.rotate(-(ROTATION_INCREMENT * (delta as i64)))
    }

    /// Burns the boosters for `delta` microseconds in the given direction.
    pub fn accelerate(&mut self, delta: u32, direction: Direction)
        requires
            old(self).wf(),
        ensures
            *final(self) == old(self).accelerated(delta, direction),
            final(self).wf(),
    {
        let c = cos(self.rot);
        let s = sin(self.rot);
        let burn: i64 = THRUST_INCREMENT * (delta as i64);
        assert(-21_474_836_475_000_000 <= c * burn <= 21_474_836_475_000_000) by (nonlinear_arith)
            requires
                -1_000_000 <= c <= 1_000_000,
                0 <= burn <= 21_474_836_475,
        ;
        assert(-21_474_836_475_000_000 <= s * burn <= 21_474_836_475_000_000) by (nonlinear_arith)
            requires
                -1_000_000 <= s <= 1_000_000,
                0 <= burn <= 21_474_836_475,
        ;
        assert(c * burn == c * THRUST_INCREMENT * delta) by (nonlinear_arith)
            requires
                burn == THRUST_INCREMENT * delta,
        ;
        assert(s * burn == s * THRUST_INCREMENT * delta) by (nonlinear_arith)
            requires
                burn == THRUST_INCREMENT * delta,
        ;
        let gain_x: i128 = quotient((c * burn) as i128, THRUST_DIVISOR as i128);
        let gain_y: i128 = quotient((s * burn) as i128, THRUST_DIVISOR as i128);
        proof {
            crate::fixed::lemma_div_trunc_bound(
                (c * burn) as int,
                THRUST_DIVISOR as int,
                21_474_837,
            );
            crate::fixed::lemma_div_trunc_bound(
                (s * burn) as int,
                THRUST_DIVISOR as int,
                21_474_837,
            );
        }
        match direction {
            Direction::Forward => {
                self.vel = Vector::saturating(self.vel.x as i128 + gain_x, self.vel.y as i128 + gain_y);
            },
            Direction::Backward => {
                self.vel = Vector::saturating(self.vel.x as i128 - gain_x, self.vel.y as i128 - gain_y);
            },
        }
    }

    /// Burns the forward boosters for `delta` microseconds.
    pub fn fire_forward_boosters(&mut self, delta: u32)
        requires
            old(self).wf(),
        ensures
            *final(self) == old(self).accelerated(delta, Direction::Forward),
            final(self).wf(),
    {
        self.accelerate(delta, Direction::Forward);
    }

    /// Burns the reverse boosters for `delta` microseconds.
    pub fn fire_rev_boosters(&mut self, delta: u32)
        requires
            old(self).wf(),
        ensures
            *final(self) == old(self).accelerated(delta, Direction::Backward),
            final(self).wf(),
    {
        self.accelerate(delta, Direction::Backward);
    }

    /// Starts the weapon's cooldown at its current baseline.
    pub fn reset_weapon_cooldown(&mut self)
        ensures
            *final(self) == old(self).rearmed(),
    {
        self.weapon_cooldown = self.weapon_cooldown_reset;
    }

    /// Applies a power-up to the ship.
    pub fn set_powerup(&mut self, powerup: PowerUpType)
        ensures
            *final(self) == old(self).powered(powerup),
    {
        self.powerup_type = powerup;
        match powerup {
            PowerUpType::FastShoot => {
                self.weapon_cooldown_reset = FAST_COOLDOWN;
                self.powerup_timer = POWERUP_DURATION;
            },
            PowerUpType::Nothing => {},
        }
    }

    /// Whether the ship fires this tick.
    pub fn should_shoot(&self) -> (r: bool)
        ensures
            r == self.shooting(),
    {
        self.weapon_cooldown == 0 && self.actions.is_shooting
    }

    /// Advances the ship by one tick of `dt` microseconds.
    pub fn update(&mut self, dt: u32)
        requires
            old(self).wf(),
        ensures
            *final(self) == old(self).updated(dt),
            final(self).wf(),
            0 <= final(self).rot < TAU,
            0 <= final(self).pos.x < old(self).window_size.width,
            0 <= final(self).pos.y < old(self).window_size.height,
    {
        self.pos = self.pos.advance(self.vel, self.window_size);
        if self.actions.rotate_cw {
            self.rotate_cw(dt);
        }
        if self.actions.rotate_ccw {
            self.rotate_ccw(dt);
        }
        if self.actions.fire_rev_boosters {
            self.fire_rev_boosters(dt);
        }
        if self.actions.fire_boosters {
            self.fire_forward_boosters(dt);
        }
        self.weapon_cooldown = count_down(self.weapon_cooldown, dt);
        self.powerup_timer = count_down(self.powerup_timer, dt);
        if self.powerup_timer == 0 {
            match self.powerup_type {
                PowerUpType::FastShoot => {
                    self.powerup_type = PowerUpType::Nothing;
                    self.weapon_cooldown_reset = DEFAULT_COOLDOWN;
                },
                PowerUpType::Nothing => {},
            }
        }
    }
}

/// However far the ship turns, and whichever way, its rotation stays
/// within one turn, and differs from the old rotation plus the turn by
/// whole turns only. Position and velocity are as they were.
pub proof fn lemma_turned_is_normalised(player: Player, delta: int)
    ensures
        0 <= player.turned(delta).rot < TAU,
        (player.rot + delta - player.turned(delta).rot) % (TAU as int) == 0,
        player.turned(delta).pos == player.pos,
        player.turned(delta).vel == player.vel,
{
    let sum = player.rot + delta;
    vstd::arithmetic::div_mod::lemma_mod_bound(sum, TAU as int);
    vstd::arithmetic::div_mod::lemma_fundamental_div_mod(sum, TAU as int);
    vstd::arithmetic::div_mod::lemma_mod_multiples_basic(sum / (TAU as int), TAU as int);
    assert(sum - sum % (TAU as int) == (sum / (TAU as int)) * TAU) by (nonlinear_arith)
        requires
            sum == TAU * (sum / (TAU as int)) + sum % (TAU as int),
    ;
}

/// The weapon does not fire while it cools down: after a tick the ship is
/// ready to fire if and only if the trigger is held and the tick was at
/// least as long as the cooldown that was left.
pub proof fn lemma_cooldown_blocks_fire(player: Player, dt: u32)
    ensures
        player.updated(dt).weapon_cooldown == counted_down(player.weapon_cooldown, dt),
        player.updated(dt).shooting() <==> player.actions.is_shooting && player.weapon_cooldown <= dt,
        player.rearmed().weapon_cooldown == player.weapon_cooldown_reset,
{
}

/// A tick leaves the ship on the field with its rotation within one turn.
pub proof fn lemma_updated_is_normalised(player: Player, dt: u32)
    requires
        player.wf(),
    ensures
        0 <= player.updated(dt).rot < TAU,
        0 <= player.updated(dt).pos.x < player.window_size.width,
        0 <= player.updated(dt).pos.y < player.window_size.height,
{
    crate::motion::lemma_advanced_on_field(player.pos, player.vel, player.window_size);
    let moved = player.moved();
    let delta = ROTATION_INCREMENT * dt;
    lemma_turned_is_normalised(moved, delta);
    let a = if moved.actions.rotate_cw {
        moved.turned(delta)
    } else {
        moved
    };
    lemma_turned_is_normalised(a, -delta);
}

impl Positioned for Player {
    open spec fn position(&self) -> Vector {
        self.pos
    }

    fn pos(&self) -> (r: Vector) {
        self.pos
    }
}

impl Collidable for Player {
    open spec fn reach(&self) -> int {
        SHIP_WIDTH / 2
    }

    fn radius(&self) -> (r: i64) {
        SHIP_WIDTH / 2
    }
}

} // verus!
