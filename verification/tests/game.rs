use rust_belt::asteroid::{Asteroid, AsteroidDraws};
use rust_belt::collision::{Collidable, Positioned};
use rust_belt::game::{Game, TickDraws};
use rust_belt::menu::Sound;
use rust_belt::player::Actions;
use rust_belt::powerup::{PowerUp, PowerUpDraws, PowerUpType};
use rust_belt::shape::generate_circle;
use rust_belt::vector::{Size, Vector};

fn board() -> Size {
    Size::new(1_024_000, 768_000).unwrap()
}

fn w(x: i64, y: i64) -> Vector {
    Vector { x, y }
}

fn resting() -> Actions {
    Actions::default()
}

fn shooting() -> Actions {
    Actions { is_shooting: true, ..Actions::default() }
}

/// Draws that spawn everything to the right of the field, aimed at its
/// upper left corner: well clear of the ship in the centre.
fn corner_draws() -> TickDraws {
    TickDraws {
        asteroid: AsteroidDraws {
            radius: 0,
            angle: 0,
            target_x: 0,
            target_y: 0,
            speed: 0,
            spin: 0,
            jitter: vec![(0u32, 0u32); 20],
        },
        powerup: PowerUpDraws { angle: 0, target_x: 1 << 31, target_y: 0, speed: 0 },
    }
}

fn rock(pos: Vector, radius: i64, vertices: usize) -> Asteroid {
    Asteroid::from_parts(pos, w(0, 0), 0, 0, radius, generate_circle(radius, vertices), board(), true).unwrap()
}

fn step(game: &mut Game, dt: u32, actions: Actions) -> Vec<Sound> {
    game.set_actions(actions);
    game.advance(dt, &corner_draws())
}

#[test]
fn new_game_is_running_and_empty() {
    let game = Game::new(board());
    assert!(!game.game_over());
    assert_eq!(game.score(), 0);
    assert_eq!(game.bullets().len(), 0);
    assert_eq!(game.asteroids().len(), 0);
    assert_eq!(game.powerups().len(), 0);
    assert_eq!(game.window_size(), board());
    assert_eq!(game.asteroid_timer_max(), 4_000_000);
    assert_eq!(game.player().pos, w(512_000, 384_000));
    assert_eq!(game.player().actions, resting());
}

#[test]
fn set_actions_reaches_the_ship() {
    let mut game = Game::new(board());
    let actions = Actions { rotate_cw: true, fire_boosters: true, ..Actions::default() };
    game.set_actions(actions);
    assert_eq!(game.player().actions, actions);
    let _ = game.advance(10_000, &corner_draws());
    assert_eq!(game.player().rot, 50_000);
    assert_eq!(game.player().vel, w(49, 2));
}

#[test]
fn quiet_tick_gives_no_cue() {
    let mut game = Game::new(board());
    assert_eq!(step(&mut game, 10_000, resting()), Vec::<Sound>::new());
    assert_eq!(game.score(), 0);
    assert!(!game.game_over());
}

#[test]
fn first_asteroid_spawns_after_a_tenth_of_a_second() {
    let mut game = Game::new(board());
    for _ in 0..9 {
        let _ = step(&mut game, 10_000, resting());
        assert_eq!(game.asteroids().len(), 0);
    }
    let _ = step(&mut game, 10_000, resting());
    assert_eq!(game.asteroids().len(), 1);
    assert_eq!(game.asteroids()[0].pos(), w(1_606_000, 384_000));
    assert!(!game.asteroids()[0].on_screen());
    assert_eq!(game.asteroid_timer_max(), 3_925_000);
    // The next one follows a whole interval later.
    for _ in 0..392 {
        let _ = step(&mut game, 10_000, resting());
        assert_eq!(game.asteroids().len(), 1);
    }
    let _ = step(&mut game, 2_500, resting());
    assert_eq!(game.asteroids().len(), 1);
    let _ = step(&mut game, 2_500, resting());
    assert_eq!(game.asteroids().len(), 2);
    assert_eq!(game.asteroid_timer_max(), 3_850_000);
}

#[test]
fn spawn_interval_ramps_down_to_its_floor_and_stays() {
    let mut game = Game::new(board());
    let mut last = game.asteroid_timer_max();
    for spawned in 1..=60usize {
        let _ = step(&mut game, 4_000_000, resting());
        let now = game.asteroid_timer_max();
        assert!(now >= 500_000);
        assert!(now <= last);
        if last - 75_000 >= 500_000 {
            assert_eq!(now, last - 75_000);
        } else {
            assert_eq!(now, 500_000);
        }
        assert_eq!(game.asteroids().len(), spawned);
        assert!(!game.game_over());
        last = now;
    }
    assert_eq!(game.asteroid_timer_max(), 500_000);
}

#[test]
fn powerup_spawns_every_fifteen_seconds() {
    let mut game = Game::new(board());
    for _ in 0..14 {
        let _ = step(&mut game, 1_000_000, resting());
        assert_eq!(game.powerups().len(), 0);
    }
    let _ = step(&mut game, 1_000_000, resting());
    assert_eq!(game.powerups().len(), 1);
    assert_eq!(game.powerups()[0].pos, w(1_536_000, 384_000));
    assert_eq!(game.powerups()[0].powerup_type, PowerUpType::FastShoot);
    assert!(!game.powerups()[0].on_screen);
}

#[test]
fn bullet_is_removed_after_exactly_ten_ticks() {
    let mut game = Game::new(board());
    assert_eq!(step(&mut game, 100_000, shooting()), vec![Sound::WeaponShoot]);
    assert_eq!(game.bullets().len(), 1);
    assert_eq!(game.bullets()[0].ttl(), 900_000);
    assert_eq!(game.bullets()[0].pos(), w(516_000, 384_000));
    for tick in 2..=9u32 {
        assert_eq!(step(&mut game, 100_000, resting()), Vec::<Sound>::new());
        assert_eq!(game.bullets().len(), 1);
        assert_eq!(game.bullets()[0].ttl(), 1_000_000 - tick * 100_000);
    }
    let _ = step(&mut game, 100_000, resting());
    assert_eq!(game.bullets().len(), 0);
}

#[test]
fn firing_twice_within_the_cooldown_gives_one_bullet() {
    let mut game = Game::new(board());
    assert_eq!(step(&mut game, 100_000, shooting()), vec![Sound::WeaponShoot]);
    assert_eq!(game.bullets().len(), 1);
    assert_eq!(game.player().weapon_cooldown, 250_000);
    assert_eq!(step(&mut game, 100_000, shooting()), Vec::<Sound>::new());
    assert_eq!(game.bullets().len(), 1);
    assert_eq!(game.player().weapon_cooldown, 150_000);
    assert_eq!(step(&mut game, 100_000, shooting()), Vec::<Sound>::new());
    assert_eq!(game.bullets().len(), 1);
    // The cooldown has run out: the weapon fires again.
    assert_eq!(step(&mut game, 100_000, shooting()), vec![Sound::WeaponShoot]);
    assert_eq!(game.bullets().len(), 2);
}

#[test]
fn fast_shoot_lets_the_weapon_fire_sooner() {
    let mut game = Game::new(board());
    game.add_powerup(PowerUp {
        pos: w(512_000, 384_000),
        vel: w(0, 0),
        radius: 20_000,
        powerup_type: PowerUpType::FastShoot,
        window_size: board(),
        on_screen: true,
    });
    let _ = step(&mut game, 40_000, resting());
    assert_eq!(game.powerups().len(), 0);
    assert_eq!(game.player().powerup_type, PowerUpType::FastShoot);
    assert_eq!(game.player().weapon_cooldown_reset, 80_000);
    assert_eq!(game.player().powerup_timer, 5_000_000);
    assert_eq!(step(&mut game, 40_000, shooting()), vec![Sound::WeaponShoot]);
    assert_eq!(step(&mut game, 40_000, shooting()), Vec::<Sound>::new());
    assert_eq!(step(&mut game, 40_000, shooting()), vec![Sound::WeaponShoot]);
    assert_eq!(game.bullets().len(), 2);
}

#[test]
fn powerup_out_of_reach_is_left_alone() {
    let mut game = Game::new(board());
    let far = PowerUp {
        pos: w(542_000, 384_000),
        vel: w(0, 0),
        radius: 20_000,
        powerup_type: PowerUpType::FastShoot,
        window_size: board(),
        on_screen: true,
    };
    game.add_powerup(far);
    let _ = step(&mut game, 10_000, resting());
    // The centres are exactly the sum of the radii apart.
    assert_eq!(game.powerups().len(), 1);
    assert_eq!(game.powerups()[0], far);
    assert_eq!(game.player().powerup_type, PowerUpType::Nothing);
}

#[test]
fn destroying_a_large_asteroid_scores_ten_and_leaves_three_children() {
    let mut game = Game::new(board());
    game.add_asteroid(rock(w(612_000, 384_000), 30_000, 20));
    assert_eq!(step(&mut game, 1_000, shooting()), vec![Sound::WeaponShoot]);
    for tick in 2..=17i64 {
        assert_eq!(step(&mut game, 1_000, resting()), Vec::<Sound>::new());
        assert_eq!(game.score(), 0);
        assert_eq!(game.asteroids().len(), 1);
        assert_eq!(game.bullets().len(), 1);
        assert_eq!(game.bullets()[0].pos(), w(512_000 + 4_000 * tick, 384_000));
    }
    assert_eq!(step(&mut game, 1_000, resting()), vec![Sound::AsteroidExplosion]);
    assert_eq!(game.score(), 10);
    assert_eq!(game.bullets().len(), 0);
    assert_eq!(game.asteroids().len(), 3);
    let pos = [w(597_696, 369_696), w(631_985, 380_835), w(602_807, 402_040)];
    let vel = [w(-71, -71), w(99, -15), w(-45, 90)];
    let radius = [18_759, 18_744, 18_737];
    for i in 0..3 {
        let child = &game.asteroids()[i];
        assert_eq!(child.pos(), pos[i]);
        assert_eq!(child.vel(), vel[i]);
        assert_eq!(child.radius(), radius[i]);
        assert_eq!(child.shape().len(), 9);
        assert!(child.on_screen());
    }
    assert!(!game.game_over());
}

#[test]
fn one_strike_among_several_bullets_takes_one_bullet_and_one_asteroid() {
    let mut game = Game::new(board());
    game.add_asteroid(rock(w(712_000, 384_000), 30_000, 20));
    // With the trigger held the weapon fires in ticks 1, 14, 27 and 40.
    for tick in 1..=42i64 {
        let cues = step(&mut game, 20_000, shooting());
        let fired = tick == 1 || tick == 14 || tick == 27 || tick == 40;
        assert_eq!(cues, if fired { vec![Sound::WeaponShoot] } else { Vec::new() });
        assert_eq!(game.score(), 0);
    }
    assert_eq!(game.bullets().len(), 4);
    // The first asteroid has spawned meanwhile, far off the field.
    assert_eq!(game.asteroids().len(), 2);
    let spawned = game.asteroids()[1].pos();
    assert_eq!(step(&mut game, 20_000, shooting()), vec![Sound::AsteroidExplosion]);
    assert_eq!(game.score(), 10);
    // The bullet that struck is gone, the others fly on in their order.
    assert_eq!(game.bullets().len(), 3);
    assert_eq!(game.bullets()[0].pos(), w(512_000 + 30 * 4_000, 384_000));
    assert_eq!(game.bullets()[1].pos(), w(512_000 + 17 * 4_000, 384_000));
    assert_eq!(game.bullets()[2].pos(), w(512_000 + 4 * 4_000, 384_000));
    // The struck asteroid is gone, the other has kept its place, and the
    // three children have joined the end.
    assert_eq!(game.asteroids().len(), 4);
    assert_eq!(game.asteroids()[0].shape().len(), 20);
    assert_eq!(game.asteroids()[0].pos(), w(spawned.x - 489, spawned.y - 102));
    let pos = [w(697_696, 369_696), w(731_985, 380_835), w(702_807, 402_040)];
    for i in 0..3 {
        assert_eq!(game.asteroids()[i + 1].pos(), pos[i]);
        assert_eq!(game.asteroids()[i + 1].shape().len(), 9);
        assert!(game.asteroids()[i + 1].on_screen());
    }
}

#[test]
fn destroying_a_small_asteroid_scores_ten_and_leaves_nothing() {
    let mut game = Game::new(board());
    game.add_asteroid(rock(w(612_000, 384_000), 30_000, 10));
    let _ = step(&mut game, 1_000, shooting());
    for _ in 2..=17 {
        let _ = step(&mut game, 1_000, resting());
    }
    assert_eq!(game.score(), 0);
    assert_eq!(game.asteroids().len(), 1);
    assert_eq!(step(&mut game, 1_000, resting()), vec![Sound::AsteroidExplosion]);
    assert_eq!(game.score(), 10);
    assert_eq!(game.bullets().len(), 0);
    assert_eq!(game.asteroids().len(), 0);
}

#[test]
fn bullet_destroys_the_first_asteroid_in_order_not_the_nearest() {
    let mut game = Game::new(board());
    game.add_asteroid(rock(w(612_500, 384_000), 30_000, 10));
    game.add_asteroid(rock(w(612_000, 384_000), 30_000, 20));
    let _ = step(&mut game, 1_000, shooting());
    for _ in 2..=17 {
        let _ = step(&mut game, 1_000, resting());
    }
    assert_eq!(game.asteroids().len(), 2);
    assert_eq!(step(&mut game, 1_000, resting()), vec![Sound::AsteroidExplosion]);
    assert_eq!(game.score(), 10);
    assert_eq!(game.bullets().len(), 0);
    assert_eq!(game.asteroids().len(), 1);
    assert_eq!(game.asteroids()[0].pos(), w(612_000, 384_000));
    assert_eq!(game.asteroids()[0].shape().len(), 20);
}

#[test]
fn each_bullet_destroys_one_asteroid() {
    let mut game = Game::new(board());
    game.add_asteroid(rock(w(612_000, 384_000), 30_000, 10));
    game.add_asteroid(rock(w(612_000, 384_000), 30_000, 10));
    game.add_asteroid(rock(w(612_000, 384_000), 30_000, 10));
    let mut explosions = 0;
    let _ = step(&mut game, 1_000, shooting());
    for _ in 2..=18 {
        explosions += step(&mut game, 1_000, resting()).len();
    }
    assert_eq!(explosions, 1);
    assert_eq!(game.score(), 10);
    assert_eq!(game.asteroids().len(), 2);
    assert_eq!(game.bullets().len(), 0);
    // Waiting out the cooldown also lets the first asteroid spawn.
    let _ = step(&mut game, 250_000, resting());
    assert_eq!(game.asteroids().len(), 3);
    assert_eq!(step(&mut game, 1_000, shooting()), vec![Sound::WeaponShoot]);
    for _ in 2..=18 {
        explosions += step(&mut game, 1_000, resting()).len();
    }
    assert_eq!(explosions, 2);
    assert_eq!(game.score(), 20);
    assert_eq!(game.asteroids().len(), 2);
    assert_eq!(game.asteroids()[0].pos(), w(612_000, 384_000));
    assert!(!game.asteroids()[1].on_screen());
    assert_eq!(game.bullets().len(), 0);
}

#[test]
fn ship_hitting_an_asteroid_ends_the_game() {
    let mut game = Game::new(board());
    game.add_asteroid(rock(w(512_000 + 39_999, 384_000), 30_000, 12));
    assert!(!game.game_over());
    let _ = step(&mut game, 10_000, resting());
    assert!(game.game_over());
}

#[test]
fn asteroid_just_touching_the_ship_does_not_end_the_game() {
    let mut game = Game::new(board());
    game.add_asteroid(rock(w(512_000 + 40_000, 384_000), 30_000, 12));
    let _ = step(&mut game, 10_000, resting());
    assert!(!game.game_over());
}

#[test]
fn game_over_latches() {
    let mut game = Game::new(board());
    game.add_asteroid(rock(w(520_000, 384_000), 30_000, 12));
    let thrust = Actions { fire_boosters: true, rotate_cw: true, is_shooting: true, ..Actions::default() };
    let _ = step(&mut game, 10_000, thrust);
    assert!(game.game_over());
    let score = game.score();
    let player = game.player();
    let bullets = game.bullets().clone();
    let rocks = game.asteroids().len();
    let rock_pos = game.asteroids()[0].pos();
    let interval = game.asteroid_timer_max();
    for _ in 0..50 {
        let other = Actions { rotate_ccw: true, fire_rev_boosters: true, ..Actions::default() };
        assert_eq!(step(&mut game, 4_000_000, other), Vec::<Sound>::new());
        assert_eq!(game.tick(4_000_000, other), Vec::<Sound>::new());
        assert_eq!(game.update(4_000_000), Vec::<Sound>::new());
        assert!(game.game_over());
        assert_eq!(game.score(), score);
        assert_eq!(game.player(), player);
        assert_eq!(game.bullets(), &bullets);
        assert_eq!(game.asteroids().len(), rocks);
        assert_eq!(game.asteroids()[0].pos(), rock_pos);
        assert_eq!(game.asteroid_timer_max(), interval);
        assert_eq!(game.powerups().len(), 0);
    }
}

#[test]
fn spawned_asteroid_comes_on_screen_once_and_stays() {
    let mut game = Game::new(board());
    let mut flips = 0;
    let mut on_screen = false;
    for tick in 1..=3_000usize {
        let _ = step(&mut game, 10_000, resting());
        assert!(!game.game_over());
        if tick < 10 {
            assert_eq!(game.asteroids().len(), 0);
            continue;
        }
        let now = game.asteroids()[0].on_screen();
        if now != on_screen {
            flips += 1;
            // Spawned in tick 10, on the field 1221 updates later.
            assert_eq!(tick, 1_231);
            assert_eq!(game.asteroids()[0].pos(), w(1_008_931, 259_458));
        }
        on_screen = now;
        if now {
            let pos = game.asteroids()[0].pos();
            assert!(0 <= pos.x && pos.x < 1_024_000);
            assert!(0 <= pos.y && pos.y < 768_000);
        }
    }
    assert!(on_screen);
    assert_eq!(flips, 1);
}

#[test]
fn random_ticks_keep_the_ship_on_the_field() {
    let mut game = Game::new(board());
    let actions = Actions { rotate_cw: true, fire_boosters: true, is_shooting: true, ..Actions::default() };
    for _ in 0..2_000 {
        let _ = game.tick(16_667, actions);
        let player = game.player();
        assert!(0 <= player.pos.x && player.pos.x < 1_024_000);
        assert!(0 <= player.pos.y && player.pos.y < 768_000);
        assert!(0 <= player.rot && player.rot < 6_283_184);
        assert!(game.asteroid_timer_max() >= 500_000);
        assert!(game.score() % 10 == 0);
        for bullet in game.bullets().iter() {
            assert!(bullet.ttl() > 0);
            assert!(0 <= bullet.pos.x && bullet.pos.x < 1_024_000);
        }
    }
}

#[test]
fn update_spawns_a_random_asteroid_when_the_timer_runs_out() {
    let mut game = Game::new(board());
    assert_eq!(game.update(100_000), Vec::<Sound>::new());
    assert_eq!(game.asteroids().len(), 1);
    let first = &game.asteroids()[0];
    assert!(!first.on_screen());
    assert_eq!(first.shape().len(), 20);
    assert!(15_000 <= first.radius() && first.radius() < 70_000);
}

#[test]
fn tick_draws_are_random() {
    let draws = TickDraws::random();
    assert_eq!(draws.asteroid.jitter.len(), 20);
}
