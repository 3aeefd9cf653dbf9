//! Simulation core of an asteroids-style arcade game.
//!
//! All quantities are fixed-point integers: lengths in thousandths of a
//! pixel, angles in microradians, times in microseconds. See [`fixed`].

pub mod fixed;
pub mod trig;
pub mod random;
pub mod vector;
pub mod shape;
pub mod collision;
pub mod motion;
pub mod bullet;
pub mod powerup;
pub mod player;
pub mod asteroid;
pub mod menu;
pub mod game;
