use rust_belt::asteroid::Asteroid;
use rust_belt::bullet::Bullet;
use rust_belt::collision::{circles_overlap, collides_with};
use rust_belt::player::Player;
use rust_belt::shape::generate_circle;
use rust_belt::vector::{Size, Vector};

fn court() -> Size {
    Size { width: 1_024_000, height: 768_000 }
}

fn at(x: i64, y: i64) -> Vector {
    Vector { x, y }
}

fn rock_at(pos: Vector, radius: i64) -> Asteroid {
    Asteroid::from_parts(pos, at(0, 0), 0, 0, radius, generate_circle(radius, 8), court(), true).unwrap()
}

#[test]
fn circles_closer_than_their_radii_overlap() {
    assert!(circles_overlap(at(0, 0), 3_000, at(3_000, 4_000), 2_001));
    assert!(circles_overlap(at(0, 0), 1, at(0, 0), 0));
}

#[test]
fn circles_exactly_touching_do_not_overlap() {
    // The centres are 5000 apart.
    assert!(!circles_overlap(at(0, 0), 3_000, at(3_000, 4_000), 2_000));
    assert!(!circles_overlap(at(0, 0), 5_000, at(3_000, 4_000), 0));
    assert!(circles_overlap(at(0, 0), 5_001, at(3_000, 4_000), 0));
}

#[test]
fn circles_farther_apart_do_not_overlap() {
    assert!(!circles_overlap(at(0, 0), 3_000, at(3_000, 4_000), 1_999));
    assert!(!circles_overlap(at(-1_000_000_000, -1_000_000_000), 10, at(1_000_000_000, 1_000_000_000), 10));
}

#[test]
fn circles_without_radius_never_overlap() {
    assert!(!circles_overlap(at(7, 7), 0, at(7, 7), 0));
}

#[test]
fn largest_circles_overlap_across_the_whole_range() {
    assert!(circles_overlap(
        at(-1_000_000_000, -1_000_000_000),
        1_500_000_000,
        at(1_000_000_000, 1_000_000_000),
        1_500_000_000
    ));
}

#[test]
fn overlap_is_symmetric() {
    let points = [at(0, 0), at(3_000, 4_000), at(-7_000, 2_000), at(1_000_000_000, -1_000_000_000)];
    let radii = [0i64, 1, 2_000, 3_000, 5_000, 1_500_000_000];
    for &pa in points.iter() {
        for &pb in points.iter() {
            for &ra in radii.iter() {
                for &rb in radii.iter() {
                    assert_eq!(circles_overlap(pa, ra, pb, rb), circles_overlap(pb, rb, pa, ra));
                }
            }
        }
    }
}

#[test]
fn collides_with_compares_positions_and_radii() {
    let rock = rock_at(at(600_000, 384_000), 30_000);
    let near = Bullet::new(at(570_000, 384_000), at(0, 0), 0, court());
    let touching = Bullet::new(at(568_500, 384_000), at(0, 0), 0, court());
    let far = Bullet::new(at(568_499, 384_000), at(0, 0), 0, court());
    assert!(collides_with(&rock, &near));
    assert!(!collides_with(&rock, &touching));
    assert!(!collides_with(&rock, &far));
    assert_eq!(collides_with(&near, &rock), collides_with(&rock, &near));
    assert_eq!(collides_with(&far, &rock), collides_with(&rock, &far));
}

#[test]
fn ship_and_asteroid_collide_within_their_radii() {
    let ship = Player::new(court());
    assert!(collides_with(&rock_at(at(512_000 + 39_999, 384_000), 30_000), &ship));
    assert!(!collides_with(&rock_at(at(512_000 + 40_000, 384_000), 30_000), &ship));
    assert!(collides_with(&ship, &rock_at(at(512_000, 384_000 - 39_999), 30_000)));
}
