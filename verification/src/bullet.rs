//! The bullet model.
//!
//! A bullet is created with a position and a velocity and flies until its
//! time to live runs out. It neither removes itself nor resolves collisions.

use vstd::prelude::*;
use crate::collision::{Collidable, Positioned};
use crate::fixed::{div_trunc, quotient, ONE};
use crate::trig::{cos, cos_spec, sin, sin_spec};
use crate::vector::{Size, Vector};

verus! {

/// Muzzle speed, in length units per tick.
pub const BULLET_SPEED: i64 = 4_000;

/// Lifetime of a bullet, in microseconds.
pub const BULLET_TTL: u32 = 1_000_000;

/// Diameter of a bullet, in length units.
pub const BULLET_DIAMETER: i64 = 3_000;

/// A projectile in flight.
#[derive(Clone, Copy, Debug, PartialEq, Eq, Structural)]
pub struct Bullet {
    pub pos: Vector,
    pub vel: Vector,
    pub ttl: u32,
    pub window_size: Size,
}

impl Bullet {
    /// Position, velocity and field are within range.
    pub open spec fn wf(self) -> bool {
        &&& self.pos.wf()
        &&& self.vel.wf()
        &&& self.window_size.wf()
    }

    /// The bullet fired from `position` by a ship moving at `velocity` and
    /// pointing in `direction`: the ship's velocity plus the muzzle velocity
    /// along the firing direction, with a full time to live.
    pub open spec fn fired(position: Vector, velocity: Vector, direction: int, window_size: Size) -> Bullet {
        Bullet {
            pos: position,
            vel: Vector::clamped(
                div_trunc(BULLET_SPEED * cos_spec(direction), ONE as int) + velocity.x,
                div_trunc(BULLET_SPEED * sin_spec(direction), ONE as int) + velocity.y,
            ),
            ttl: BULLET_TTL,
            window_size,
        }
    }

    /// The time to live after `dt` more microseconds: counted down, and
    /// held at zero.
    pub open spec fn remaining(ttl: u32, dt: u32) -> u32 {
        if ttl > dt {
            (ttl - dt) as u32
        } else {
            0
        }
    }

    /// The bullet one tick of `dt` microseconds later.
    pub open spec fn updated(self, dt: u32) -> Bullet {
        Bullet {
            pos: self.pos.advanced(self.vel, self.window_size),
            vel: self.vel,
            ttl: Bullet::remaining(self.ttl, dt),
            window_size: self.window_size,
        }
    }

    /// The bullet after `ticks` ticks of `dt` microseconds each.
    pub open spec fn updated_times(self, dt: u32, ticks: nat) -> Bullet
        decreases ticks,
    {
        if ticks == 0 {
            self
        } else {
            self.updated_times(dt, (ticks - 1) as nat).updated(dt)
        }
    }

    /// The time to live has run out.
    pub open spec fn expired(self) -> bool {
        self.ttl == 0
    }

    /// Fires a bullet.
    pub fn new(position: Vector, velocity: Vector, direction: i64, window_size: Size) -> (r: Bullet)
        requires
            position.wf(),
            velocity.wf(),
            window_size.wf(),
        ensures
            r == Bullet::fired(position, velocity, direction as int, window_size),
            r.wf(),
    {
        let c = cos(direction);
        let s = sin(direction);
        Bullet {
            pos: position,
            vel: Vector::saturating(
                quotient((BULLET_SPEED * c) as i128, ONE as i128) + velocity.x as i128,
                quotient((BULLET_SPEED * s) as i128, ONE as i128) + velocity.y as i128,
            ),
            ttl: BULLET_TTL,
            window_size,
        }
    }

    /// Remaining time to live, in microseconds.
    pub fn ttl(&self) -> (r: u32)
        ensures
            r == self.ttl,
    {
        self.ttl
    }

    /// Advances the bullet by one tick of `dt` microseconds.
    pub fn update(&mut self, dt: u32)
        requires
            old(self).wf(),
        ensures
            *final(self) == old(self).updated(dt),
            final(self).wf(),
            0 <= final(self).pos.x < old(self).window_size.width,
            0 <= final(self).pos.y < old(self).window_size.height,
    {
        self.pos = self.pos.advance(self.vel, self.window_size);
        self.ttl = if self.ttl > dt { self.ttl - dt } else { 0 };
    }
}

/// A bullet lives for exactly its time to live: after any number of ticks
/// its time to live is what the ticks have left of it, and it has run out
/// if and only if the ticks add up to at least the time it had.
pub proof fn lemma_time_to_live(bullet: Bullet, dt: u32, ticks: nat)
    ensures
        bullet.updated_times(dt, ticks).ttl == if bullet.ttl > ticks * dt {
            bullet.ttl - ticks * dt
        } else {
            0
        },
        bullet.updated_times(dt, ticks).expired() <==> ticks * dt >= bullet.ttl,
    decreases ticks,
{
    if ticks > 0 {
        lemma_time_to_live(bullet, dt, (ticks - 1) as nat);
        assert(ticks * dt == (ticks - 1) * dt + dt) by (nonlinear_arith);
        assert((ticks - 1) * dt >= 0) by (nonlinear_arith)
            requires
                ticks >= 1,
                dt >= 0,
        ;
    } else {
        assert(ticks * dt == 0) by (nonlinear_arith)
            requires
                ticks == 0,
        ;
    }
}

impl Positioned for Bullet {
    open spec fn position(&self) -> Vector {
        self.pos
    }

    fn pos(&self) -> (r: Vector) {
        self.pos
    }
}

impl Collidable for Bullet {
    open spec fn reach(&self) -> int {
        BULLET_DIAMETER / 2
    }

    fn radius(&self) -> (r: i64) {
        BULLET_DIAMETER / 2
    }
}

} // verus!
