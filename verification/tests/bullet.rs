use rust_belt::bullet::Bullet;
use rust_belt::collision::{Collidable, Positioned};
use rust_belt::fixed::PI;
use rust_belt::vector::{Size, Vector};

fn arena() -> Size {
    Size { width: 1_024_000, height: 768_000 }
}

#[test]
fn bullet_leaves_with_the_ship_velocity_plus_the_muzzle_velocity() {
    let at = Vector { x: 512_000, y: 384_000 };
    let b = Bullet::new(at, Vector { x: 0, y: 0 }, 0, arena());
    assert_eq!(b.pos, at);
    assert_eq!(b.vel, Vector { x: 4_000, y: 0 });
    assert_eq!(b.ttl(), 1_000_000);
    let c = Bullet::new(at, Vector { x: 100, y: -50 }, PI / 2, arena());
    assert_eq!(c.vel, Vector { x: 100, y: 3_950 });
    let d = Bullet::new(at, Vector { x: -160, y: 640 }, 1_000_000, arena());
    assert_eq!(d.vel, Vector { x: 2_000, y: 4_000 });
}

#[test]
fn bullet_position_and_radius() {
    let at = Vector { x: 1_000, y: 2_000 };
    let b = Bullet::new(at, Vector { x: 0, y: 0 }, 0, arena());
    assert_eq!(b.pos(), at);
    assert_eq!(b.x(), 1_000);
    assert_eq!(b.y(), 2_000);
    assert_eq!(b.radius(), 1_500);
}

#[test]
fn bullet_update_moves_and_wraps() {
    let mut b = Bullet::new(Vector { x: 1_022_000, y: 100 }, Vector { x: 0, y: -200 }, 0, arena());
    b.update(10_000);
    assert_eq!(b.pos, Vector { x: 2_000, y: 767_900 });
    assert_eq!(b.ttl(), 990_000);
}

#[test]
fn bullet_ttl_runs_out_after_exactly_ten_tenths() {
    let mut b = Bullet::new(Vector { x: 0, y: 0 }, Vector { x: 0, y: 0 }, 0, arena());
    for tick in 1..=9u32 {
        b.update(100_000);
        assert_eq!(b.ttl(), 1_000_000 - tick * 100_000);
        assert!(b.ttl() > 0);
    }
    b.update(100_000);
    assert_eq!(b.ttl(), 0);
}

#[test]
fn bullet_ttl_is_held_at_zero() {
    let mut b = Bullet::new(Vector { x: 0, y: 0 }, Vector { x: 0, y: 0 }, 0, arena());
    b.update(u32::MAX);
    assert_eq!(b.ttl(), 0);
    b.update(1);
    assert_eq!(b.ttl(), 0);
}
