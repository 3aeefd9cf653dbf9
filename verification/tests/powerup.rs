use rust_belt::collision::{Collidable, Positioned};
use rust_belt::powerup::{PowerUp, PowerUpDraws, PowerUpType};
use rust_belt::vector::{Size, Vector};

fn pitch() -> Size {
    Size { width: 1_024_000, height: 768_000 }
}

#[test]
fn powerup_from_draws_starts_on_the_spawn_circle() {
    let draws = PowerUpDraws { angle: 1 << 31, target_x: 1 << 30, target_y: 3 << 30, speed: u32::MAX };
    let p = PowerUp::from_draws(pitch(), draws);
    assert_eq!(p.pos, Vector { x: -512_000, y: 384_000 });
    assert_eq!(p.vel, Vector { x: 1_166, y: 278 });
    assert_eq!(p.radius, 20_000);
    assert_eq!(p.powerup_type, PowerUpType::FastShoot);
    assert_eq!(p.window_size, pitch());
    assert!(!p.on_screen);
    assert_eq!(p.pos(), p.pos);
    assert_eq!(p.radius(), 20_000);
}

#[test]
fn powerup_with_the_lowest_draws() {
    let draws = PowerUpDraws { angle: 0, target_x: 1 << 31, target_y: 1 << 31, speed: 0 };
    let p = PowerUp::from_draws(pitch(), draws);
    assert_eq!(p.pos, Vector { x: 1_536_000, y: 384_000 });
    assert_eq!(p.vel, Vector { x: -500, y: 0 });
}

#[test]
fn powerup_floats_in_and_latches_on_screen() {
    let draws = PowerUpDraws { angle: 1 << 31, target_x: 1 << 30, target_y: 3 << 30, speed: u32::MAX };
    let mut p = PowerUp::from_draws(pitch(), draws);
    for _ in 0..456 {
        p.update();
        assert!(!p.on_screen);
    }
    p.update();
    assert!(p.on_screen);
    assert_eq!(p.pos, Vector { x: 20_862, y: 511_046 });
    for _ in 0..5_000 {
        p.update();
        assert!(p.on_screen);
        assert!(0 <= p.pos.x && p.pos.x < 1_024_000);
        assert!(0 <= p.pos.y && p.pos.y < 768_000);
    }
}

#[test]
fn powerup_new_is_off_screen_and_aimed_at_the_field() {
    for _ in 0..50 {
        let p = PowerUp::new(pitch());
        assert!(!p.on_screen);
        assert_eq!(p.radius, 20_000);
        let dx = p.pos.x - 512_000;
        let dy = p.pos.y - 384_000;
        let d = Vector { x: dx, y: dy }.magnitude();
        assert!(1_015_000 <= d && d <= 1_030_000);
        let out = p.pos.x + p.radius < 0
            || p.pos.x - p.radius > 1_024_000
            || p.pos.y + p.radius < 0
            || p.pos.y - p.radius > 768_000;
        assert!(out);
        let speed = p.vel.magnitude();
        assert!(490 <= speed && speed <= 1_210);
    }
}

#[test]
fn powerup_draws_are_random() {
    let a = PowerUpDraws::random();
    let b = PowerUpDraws::random();
    let c = PowerUpDraws::random();
    assert!(a != b || b != c);
}
