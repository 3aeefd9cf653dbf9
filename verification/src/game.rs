//! The game: every live model, and the pipeline that advances them by one
//! tick.
//!
//! A tick updates the ship, fires its weapon, flies and culls the bullets,
//! drifts the asteroids and power-ups, resolves bullets against asteroids,
//! the ship against asteroids and the ship against power-ups, and finally
//! runs the spawn timers. Once the ship has hit an asteroid the game is
//! over and further ticks change nothing.

use vstd::prelude::*;
use crate::asteroid::{
    all_rocks_wf, models, Asteroid, AsteroidDraws, AsteroidModel, SpawnDraws, DEFAULT_NUM_VERTS,
};
use crate::bullet::{Bullet, BULLET_DIAMETER};
use crate::collision::{collides_with, overlap};
use crate::menu::Sound;
use crate::player::{count_down, counted_down, Actions, Player, SHIP_WIDTH};
use crate::powerup::{PowerUp, PowerUpDraws};
use crate::vector::{Size, Vector};

verus! {

/// Points awarded for each asteroid destroyed.
pub const SCORE_PER_ASTEROID: i64 = 10;

/// Delay before the first asteroid, in microseconds.
pub const FIRST_SPAWN_DELAY: u32 = 100_000;

/// Interval between asteroids at the start of a session.
pub const SPAWN_INTERVAL_START: u32 = 4_000_000;

/// How much the interval between asteroids shrinks with each spawn.
pub const SPAWN_INTERVAL_STEP: u32 = 75_000;

/// The interval between asteroids never shrinks below this.
pub const SPAWN_INTERVAL_FLOOR: u32 = 500_000;

/// Interval between power-ups.
pub const POWERUP_INTERVAL: u32 = 15_000_000;

/// The random numbers one tick may consume.
pub struct TickDraws {
    /// For the asteroid spawned if the asteroid timer runs out.
    pub asteroid: AsteroidDraws,
    /// For the power-up spawned if the power-up timer runs out.
    pub powerup: PowerUpDraws,
}

/// The draws for one tick, as contracts speak of them.
pub struct TickDrawsModel {
    pub asteroid: SpawnDraws,
    pub powerup: PowerUpDraws,
}

impl View for TickDraws {
    type V = TickDrawsModel;

    open spec fn view(&self) -> TickDrawsModel {
        TickDrawsModel { asteroid: self.asteroid@, powerup: self.powerup }
    }
}

/// Game state and all live models.
pub struct Game {
    player: Player,
    bullets: Vec<Bullet>,
    asteroids: Vec<Asteroid>,
    powerups: Vec<PowerUp>,
    score: i64,
    window_size: Size,
    asteroid_timer: u32,
    asteroid_timer_max: u32,
    powerup_timer: u32,
    game_over: bool,
}

/// What a game is, as contracts speak of it.
pub struct GameModel {
    pub player: Player,
    pub bullets: Seq<Bullet>,
    pub asteroids: Seq<AsteroidModel>,
    pub powerups: Seq<PowerUp>,
    pub score: i64,
    pub window_size: Size,
    pub asteroid_timer: u32,
    pub asteroid_timer_max: u32,
    pub powerup_timer: u32,
    pub game_over: bool,
}

impl View for Game {
    type V = GameModel;

    closed spec fn view(&self) -> GameModel {
        GameModel {
            player: self.player,
            bullets: self.bullets@,
            asteroids: models(self.asteroids@),
            powerups: self.powerups@,
            score: self.score,
            window_size: self.window_size,
            asteroid_timer: self.asteroid_timer,
            asteroid_timer_max: self.asteroid_timer_max,
            powerup_timer: self.powerup_timer,
            game_over: self.game_over,
        }
    }
}

/// Every bullet of the list is well formed.
pub open spec fn all_bullets_wf(bullets: Seq<Bullet>) -> bool {
    forall|i: int| 0 <= i < bullets.len() ==> (#[trigger] bullets[i]).wf()
}

/// Every power-up of the list is well formed.
pub open spec fn all_powerups_wf(powerups: Seq<PowerUp>) -> bool {
    forall|i: int| 0 <= i < powerups.len() ==> (#[trigger] powerups[i]).wf()
}

/// The bullet strikes the asteroid.
pub open spec fn strikes(bullet: Bullet, rock: AsteroidModel) -> bool {
    overlap(rock.pos, rock.radius as int, bullet.pos, BULLET_DIAMETER / 2)
}

/// The asteroid touches the ship.
pub open spec fn rams(rock: AsteroidModel, player: Player) -> bool {
    overlap(rock.pos, rock.radius as int, player.pos, SHIP_WIDTH / 2)
}

/// The power-up touches the ship.
pub open spec fn reaches(powerup: PowerUp, player: Player) -> bool {
    overlap(powerup.pos, powerup.radius as int, player.pos, SHIP_WIDTH / 2)
}

/// Asteroid `i` is the first in the list that the bullet strikes.
pub open spec fn is_first_hit(rocks: Seq<AsteroidModel>, bullet: Bullet, i: int) -> bool {
    &&& 0 <= i < rocks.len()
    &&& strikes(bullet, rocks[i])
    &&& forall|j: int| 0 <= j < i ==> !strikes(bullet, #[trigger] rocks[j])
}

/// Index of the first asteroid that the bullet strikes, or the length of
/// the list if it strikes none.
pub open spec fn first_hit(rocks: Seq<AsteroidModel>, bullet: Bullet) -> int {
    if exists|i: int| is_first_hit(rocks, bullet, i) {
        choose|i: int| is_first_hit(rocks, bullet, i)
    } else {
        rocks.len() as int
    }
}

/// The asteroids after asteroid `i` has been destroyed by a hit at `point`:
/// it is removed, and if it had enough vertices its pieces join the end of
/// the list.
pub open spec fn struck(rocks: Seq<AsteroidModel>, i: int, point: Vector) -> Seq<AsteroidModel> {
    rocks.remove(i) + rocks[i].split_at(point)
}

/// The score after one more asteroid has been destroyed.
pub open spec fn awarded(score: i64) -> i64 {
    if score + SCORE_PER_ASTEROID <= i64::MAX {
        (score + SCORE_PER_ASTEROID) as i64
    } else {
        i64::MAX
    }
}

/// Bullets and asteroids while the bullets are resolved one by one.
pub struct Barrage {
    /// The bullets tried so far that struck nothing.
    pub bullets: Seq<Bullet>,
    /// The asteroids that are left, with the pieces of those that split.
    pub rocks: Seq<AsteroidModel>,
    /// The score.
    pub score: i64,
}

/// The state after the first `count` bullets have been resolved in order.
/// A bullet that strikes an asteroid destroys the first one it strikes,
/// scores, and is consumed; the others stay.
pub open spec fn barrage(bullets: Seq<Bullet>, rocks: Seq<AsteroidModel>, score: i64, count: int) -> Barrage
    decreases count,
{
    if count <= 0 {
        Barrage { bullets: Seq::empty(), rocks, score }
    } else {
        let before = barrage(bullets, rocks, score, count - 1);
        let bullet = bullets[count - 1];
        let hit = first_hit(before.rocks, bullet);
        if hit < before.rocks.len() {
            Barrage {
                bullets: before.bullets,
                rocks: struck(before.rocks, hit, bullet.pos),
                score: awarded(before.score),
            }
        } else {
            Barrage { bullets: before.bullets.push(bullet), rocks: before.rocks, score: before.score }
        }
    }
}

/// The ship after it has picked up, in order, those of the first `count`
/// power-ups that touch it.
pub open spec fn pickups(player: Player, powerups: Seq<PowerUp>, count: int) -> Player
    decreases count,
{
    if count <= 0 {
        player
    } else {
        let before = pickups(player, powerups, count - 1);
        if reaches(powerups[count - 1], player) {
            before.powered(powerups[count - 1].powerup_type)
        } else {
            before
        }
    }
}

/// The bullets one tick of `dt` microseconds later, none removed.
pub open spec fn flight(bullets: Seq<Bullet>, dt: u32) -> Seq<Bullet> {
    bullets.map_values(|b: Bullet| b.updated(dt))
}

/// The bullets that still have time to live.
pub open spec fn alive() -> spec_fn(Bullet) -> bool {
    |b: Bullet| !b.expired()
}

/// The power-ups that do not touch the ship.
pub open spec fn out_of_reach(player: Player) -> spec_fn(PowerUp) -> bool {
    |p: PowerUp| !reaches(p, player)
}

/// The interval between asteroids after one more spawn: shorter by a step,
/// but never below the floor.
pub open spec fn lowered(interval: u32) -> u32 {
    if interval - SPAWN_INTERVAL_STEP >= SPAWN_INTERVAL_FLOOR {
        (interval - SPAWN_INTERVAL_STEP) as u32
    } else {
        SPAWN_INTERVAL_FLOOR
    }
}

/// A bullet has at most one first hit, and `first_hit` names it.
pub proof fn lemma_first_hit_found(rocks: Seq<AsteroidModel>, bullet: Bullet, i: int)
    requires
        is_first_hit(rocks, bullet, i),
    ensures
        first_hit(rocks, bullet) == i,
{
    let c = choose|c: int| is_first_hit(rocks, bullet, c);
    if c < i {
        assert(!strikes(bullet, rocks[c]));
    } else if i < c {
        assert(!strikes(bullet, rocks[i]));
    }
}

/// A bullet that strikes nothing has no first hit.
pub proof fn lemma_first_hit_none(rocks: Seq<AsteroidModel>, bullet: Bullet)
    requires
        forall|j: int| 0 <= j < rocks.len() ==> !strikes(bullet, #[trigger] rocks[j]),
    ensures
        first_hit(rocks, bullet) == rocks.len(),
{
    if exists|i: int| is_first_hit(rocks, bullet, i) {
        let c = choose|c: int| is_first_hit(rocks, bullet, c);
        assert(!strikes(bullet, rocks[c]));
    }
}

/// `first_hit` is either a struck asteroid with none struck before it, or
/// the length of the list with none struck at all.
pub proof fn lemma_first_hit_range(rocks: Seq<AsteroidModel>, bullet: Bullet)
    ensures
        0 <= first_hit(rocks, bullet) <= rocks.len(),
        first_hit(rocks, bullet) < rocks.len() ==> is_first_hit(rocks, bullet, first_hit(rocks, bullet)),
        first_hit(rocks, bullet) == rocks.len() ==> forall|j: int|
            0 <= j < rocks.len() ==> !strikes(bullet, #[trigger] rocks[j]),
{
    if exists|i: int| is_first_hit(rocks, bullet, i) {
    } else {
        assert forall|j: int| 0 <= j < rocks.len() implies !strikes(bullet, #[trigger] rocks[j]) by {
            if strikes(bullet, rocks[j]) {
                lemma_some_first_hit(rocks, bullet, j);
            }
        }
    }
}

/// If the bullet strikes asteroid `j`, it has a first hit at or before `j`.
pub proof fn lemma_some_first_hit(rocks: Seq<AsteroidModel>, bullet: Bullet, j: int)
    requires
        0 <= j < rocks.len(),
        strikes(bullet, rocks[j]),
    ensures
        exists|i: int| is_first_hit(rocks, bullet, i),
    decreases j,
{
    if forall|k: int| 0 <= k < j ==> !strikes(bullet, #[trigger] rocks[k]) {
        assert(is_first_hit(rocks, bullet, j));
    } else {
        let k = choose|k: int| 0 <= k < j && strikes(bullet, #[trigger] rocks[k]);
        lemma_some_first_hit(rocks, bullet, k);
    }
}

/// A hit removes the asteroid it destroys. One with more vertices than the
/// splitting threshold is replaced by its children, which join the end of
/// the list; any other leaves no children.
pub proof fn lemma_struck_replaces(rocks: Seq<AsteroidModel>, i: int, point: Vector)
    requires
        0 <= i < rocks.len(),
    ensures
        struck(rocks, i, point).subrange(0, rocks.len() - 1) == rocks.remove(i),
        struck(rocks, i, point).subrange(rocks.len() - 1, struck(rocks, i, point).len() as int)
            == rocks[i].split_at(point),
        struck(rocks, i, point).len() == rocks.len() - 1 + rocks[i].split_at(point).len(),
        !rocks[i].splittable() ==> struck(rocks, i, point) == rocks.remove(i),
{
}

/// Resolving bullets keeps every asteroid well formed, consumes exactly
/// the bullets that struck, and scores the fixed award once per asteroid
/// destroyed, however many children the asteroid left.
pub proof fn lemma_barrage_accounts(bullets: Seq<Bullet>, rocks: Seq<AsteroidModel>, score: i64, count: int)
    requires
        0 <= count <= bullets.len(),
        all_rocks_wf(rocks),
    ensures
        all_rocks_wf(barrage(bullets, rocks, score, count).rocks),
        barrage(bullets, rocks, score, count).bullets.len() <= count,
        score + SCORE_PER_ASTEROID * count <= i64::MAX ==> barrage(bullets, rocks, score, count).score
            == score + SCORE_PER_ASTEROID * (count - barrage(bullets, rocks, score, count).bullets.len()),
    decreases count,
{
    if count > 0 {
        lemma_barrage_accounts(bullets, rocks, score, count - 1);
        let before = barrage(bullets, rocks, score, count - 1);
        let bullet = bullets[count - 1];
        lemma_first_hit_range(before.rocks, bullet);
        let hit = first_hit(before.rocks, bullet);
        if hit < before.rocks.len() {
            let parent = before.rocks[hit];
            assert(parent.wf());
            crate::asteroid::lemma_split_wf(parent, bullet.pos);
            let after = struck(before.rocks, hit, bullet.pos);
            assert forall|k: int| 0 <= k < after.len() implies (#[trigger] after[k]).wf() by {
                if k < before.rocks.len() - 1 {
                    assert(after[k] == before.rocks.remove(hit)[k]);
                    if k < hit {
                        assert(after[k] == before.rocks[k]);
                    } else {
                        assert(after[k] == before.rocks[k + 1]);
                    }
                } else {
                    assert(after[k] == parent.split_at(bullet.pos)[k - (before.rocks.len() - 1)]);
                }
            }
        }
    }
}

/// None of the bullets from index `from` up to `count` strikes any of the
/// asteroids.
pub open spec fn all_miss(bullets: Seq<Bullet>, from: int, count: int, rocks: Seq<AsteroidModel>) -> bool {
    forall|j: int, i: int|
        from <= j < count && 0 <= i < rocks.len() ==> !strikes(#[trigger] bullets[j], #[trigger] rocks[i])
}

/// Bullets that strike nothing change nothing: however many there are,
/// they all stay, and so do the asteroids and the score.
pub proof fn lemma_barrage_misses(bullets: Seq<Bullet>, rocks: Seq<AsteroidModel>, score: i64, count: int)
    requires
        0 <= count <= bullets.len(),
        all_miss(bullets, 0, count, rocks),
    ensures
        barrage(bullets, rocks, score, count) == (Barrage { bullets: bullets.take(count), rocks, score }),
    decreases count,
{
    if count > 0 {
        lemma_barrage_misses(bullets, rocks, score, count - 1);
        let bullet = bullets[count - 1];
        assert forall|i: int| 0 <= i < rocks.len() implies !strikes(bullet, #[trigger] rocks[i]) by {}
        lemma_first_hit_none(rocks, bullet);
        assert(bullets.take(count - 1).push(bullet) == bullets.take(count));
    } else {
        assert(bullets.take(0) == Seq::<Bullet>::empty());
    }
}

/// One strike among any number of bullets. If bullet `k` is the only one
/// that strikes, which is to say that the bullets before it strike none of
/// the asteroids and the bullets after it none of those left after its
/// strike, then exactly that bullet is consumed, exactly the first asteroid
/// it strikes is destroyed and replaced by its children, every other
/// asteroid stays in its place, and the score rises by one award: the same
/// whether the asteroid split or not.
pub proof fn lemma_barrage_one_strike(
    bullets: Seq<Bullet>,
    rocks: Seq<AsteroidModel>,
    score: i64,
    count: int,
    k: int,
)
    requires
        0 <= k < count <= bullets.len(),
        all_miss(bullets, 0, k, rocks),
        first_hit(rocks, bullets[k]) < rocks.len(),
        all_miss(bullets, k + 1, count, struck(rocks, first_hit(rocks, bullets[k]), bullets[k].pos)),
    ensures
        barrage(bullets, rocks, score, count) == (Barrage {
            bullets: bullets.take(count).remove(k),
            rocks: struck(rocks, first_hit(rocks, bullets[k]), bullets[k].pos),
            score: awarded(score),
        }),
        barrage(bullets, rocks, score, count).bullets.len() == count - 1,
        barrage(bullets, rocks, score, count).rocks.len() == rocks.len() - 1 + rocks[first_hit(
            rocks,
            bullets[k],
        )].split_at(bullets[k].pos).len(),
        score + SCORE_PER_ASTEROID <= i64::MAX ==> barrage(bullets, rocks, score, count).score == score
            + SCORE_PER_ASTEROID,
    decreases count,
{
    let hit = first_hit(rocks, bullets[k]);
    let after = struck(rocks, hit, bullets[k].pos);
    lemma_first_hit_range(rocks, bullets[k]);
    if count == k + 1 {
        lemma_barrage_misses(bullets, rocks, score, k);
        assert(bullets.take(k + 1).remove(k) == bullets.take(k));
    } else {
        lemma_barrage_one_strike(bullets, rocks, score, count - 1, k);
        let bullet = bullets[count - 1];
        assert forall|i: int| 0 <= i < after.len() implies !strikes(bullet, #[trigger] after[i]) by {}
        lemma_first_hit_none(after, bullet);
        assert(bullets.take(count - 1).remove(k).push(bullet) == bullets.take(count).remove(k));
    }
}

/// What a tick does to the bullets, the asteroids and the score when the
/// asteroid timer does not run out in it: they are as the resolution of
/// the bullets left them. With `lemma_barrage_one_strike` this gives the
/// outcome of a tick in which exactly one bullet strikes.
pub proof fn lemma_tick_resolves_bullets(game: GameModel, dt: u32, draws: TickDrawsModel)
    requires
        !game.game_over,
        counted_down(game.asteroid_timer, dt) != 0,
    ensures
        ({
            let aloft = game.piloted(dt).fired().flown(dt).drifted();
            let end = barrage(aloft.bullets, aloft.asteroids, game.score, aloft.bullets.len() as int);
            &&& game.stepped(dt, draws).bullets == end.bullets
            &&& game.stepped(dt, draws).asteroids == end.rocks
            &&& game.stepped(dt, draws).score == end.score
        }),
{
}

/// How many asteroids a strike leaves. One asteroid goes; a struck asteroid
/// with no more vertices than the threshold leaves no children, and one
/// with more leaves three unless a piece is degenerate.
pub proof fn lemma_struck_counts(rocks: Seq<AsteroidModel>, i: int, point: Vector)
    requires
        0 <= i < rocks.len(),
        rocks[i].wf(),
    ensures
        !rocks[i].splittable() ==> struck(rocks, i, point).len() == rocks.len() - 1,
        rocks[i].splittable() && (forall|k: int|
            0 <= k < 3 ==> (#[trigger] rocks[i].fragment(point, k)).radius > 0) ==> struck(
            rocks,
            i,
            point,
        ).len() == rocks.len() + 2,
        rocks.len() - 1 <= struck(rocks, i, point).len() <= rocks.len() + 2,
{
    crate::asteroid::lemma_split_conserves(rocks[i], point);
}

/// One asteroid destroyed is worth exactly the fixed award.
pub proof fn lemma_award(score: i64)
    requires
        score + SCORE_PER_ASTEROID <= i64::MAX,
    ensures
        awarded(score) == score + SCORE_PER_ASTEROID,
{
}

/// The interval between asteroids only shrinks, and never below its floor.
pub proof fn lemma_lowered_floor(interval: u32)
    requires
        interval >= SPAWN_INTERVAL_FLOOR,
    ensures
        SPAWN_INTERVAL_FLOOR <= lowered(interval) <= interval,
{
}

/// Whatever happens in a tick, the interval between asteroids stays at or
/// above its floor and does not grow.
pub proof fn lemma_spawn_interval_floor(game: GameModel, dt: u32, draws: TickDrawsModel)
    requires
        game.asteroid_timer_max >= SPAWN_INTERVAL_FLOOR,
    ensures
        SPAWN_INTERVAL_FLOOR <= game.stepped(dt, draws).asteroid_timer_max <= game.asteroid_timer_max,
{
}

/// Once the game is over a tick changes nothing: not the score, not the
/// ship, and the game stays over. It gives no sound cue either, and input
/// is not admitted.
pub proof fn lemma_game_over_latch(game: GameModel, dt: u32, draws: TickDrawsModel, actions: Actions)
    requires
        game.game_over,
    ensures
        game.stepped(dt, draws) == game,
        game.commanded(actions) == game,
        game.cues(dt) == Seq::<Sound>::empty(),
{
}

/// A tick never revives a game: the only transition is into game over.
pub proof fn lemma_game_over_is_final(game: GameModel, dt: u32, draws: TickDrawsModel)
    ensures
        game.game_over ==> game.stepped(dt, draws).game_over,
{
}

impl GameModel {
    /// Every model is well formed and the spawn interval is within its
    /// bounds.
    pub open spec fn wf(self) -> bool {
        &&& self.window_size.wf()
        &&& self.player.wf()
        &&& all_bullets_wf(self.bullets)
        &&& all_rocks_wf(self.asteroids)
        &&& all_powerups_wf(self.powerups)
        &&& SPAWN_INTERVAL_FLOOR <= self.asteroid_timer_max <= SPAWN_INTERVAL_START
    }

    /// A fresh session on a field of the given size.
    pub open spec fn initial(window_size: Size) -> GameModel {
        GameModel {
            player: Player::initial(window_size),
            bullets: Seq::empty(),
            asteroids: Seq::empty(),
            powerups: Seq::empty(),
            score: 0,
            window_size,
            asteroid_timer: FIRST_SPAWN_DELAY,
            asteroid_timer_max: SPAWN_INTERVAL_START,
            powerup_timer: POWERUP_INTERVAL,
            game_over: false,
        }
    }

    /// The game after the player's input has been taken. A game that is
    /// over admits none.
    pub open spec fn commanded(self, actions: Actions) -> GameModel {
        if self.game_over {
            self
        } else {
            GameModel { player: Player { actions, ..self.player }, ..self }
        }
    }

    /// The ship is updated.
    pub open spec fn piloted(self, dt: u32) -> GameModel {
        GameModel { player: self.player.updated(dt), ..self }
    }

    /// If the ship is ready to fire, a bullet leaves it and the
    /// weapon's cooldown starts over.
    pub open spec fn fired(self) -> GameModel {
        if self.player.shooting() {
            GameModel {
                player: self.player.rearmed(),
                bullets: self.bullets.push(
                    Bullet::fired(self.player.pos, self.player.vel, self.player.rot as int, self.window_size),
                ),
                ..self
            }
        } else {
            self
        }
    }

    /// Every bullet is updated, and those whose time has run out
    /// are removed.
    pub open spec fn flown(self, dt: u32) -> GameModel {
        GameModel { bullets: flight(self.bullets, dt).filter(alive()), ..self }
    }

    /// Every asteroid and every power-up is updated.
    pub open spec fn drifted(self) -> GameModel {
        GameModel {
            asteroids: self.asteroids.map_values(|a: AsteroidModel| a.updated()),
            powerups: self.powerups.map_values(|p: PowerUp| p.updated()),
            ..self
        }
    }

    /// The bullets are resolved against the asteroids, in order.
    pub open spec fn shot(self) -> GameModel {
        let end = barrage(self.bullets, self.asteroids, self.score, self.bullets.len() as int);
        GameModel { bullets: end.bullets, asteroids: end.rocks, score: end.score, ..self }
    }

    /// Some asteroid touches the ship.
    pub open spec fn rammed(self) -> bool {
        exists|i: int| 0 <= i < self.asteroids.len() && rams(#[trigger] self.asteroids[i], self.player)
    }

    /// The game is over if an asteroid touches the ship.
    pub open spec fn crashed(self) -> GameModel {
        GameModel { game_over: self.game_over || self.rammed(), ..self }
    }

    /// The ship picks up every power-up that touches it.
    pub open spec fn collected(self) -> GameModel {
        GameModel {
            player: pickups(self.player, self.powerups, self.powerups.len() as int),
            powerups: self.powerups.filter(out_of_reach(self.player)),
            ..self
        }
    }

    /// The asteroid timer counts down; when it runs out an asteroid spawns,
    /// the interval shrinks and the timer restarts.
    pub open spec fn seeded(self, dt: u32, draws: SpawnDraws) -> GameModel {
        let left = counted_down(self.asteroid_timer, dt);
        if left == 0 {
            GameModel {
                asteroids: self.asteroids.push(AsteroidModel::spawned(self.window_size, draws)),
                asteroid_timer_max: lowered(self.asteroid_timer_max),
                asteroid_timer: lowered(self.asteroid_timer_max),
                ..self
            }
        } else {
            GameModel { asteroid_timer: left, ..self }
        }
    }

    /// The power-up timer counts down; when it runs out a power-up spawns
    /// and the timer restarts.
    pub open spec fn supplied(self, dt: u32, draws: PowerUpDraws) -> GameModel {
        let left = counted_down(self.powerup_timer, dt);
        if left == 0 {
            GameModel {
                powerups: self.powerups.push(PowerUp::spawned(self.window_size, draws)),
                powerup_timer: POWERUP_INTERVAL,
                ..self
            }
        } else {
            GameModel { powerup_timer: left, ..self }
        }
    }

    /// The game one tick of `dt` microseconds later. In this order: the
    /// ship is updated and fires if it is ready; the bullets fly and the
    /// spent ones go; the asteroids and power-ups drift; the bullets are
    /// resolved against the asteroids; the ship is tested against the
    /// asteroids, then against the power-ups; last, the spawn timers run.
    /// A game that is over stays as it is.
    pub open spec fn stepped(self, dt: u32, draws: TickDrawsModel) -> GameModel {
        if self.game_over {
            self
        } else {
            self.piloted(dt).fired().flown(dt).drifted().shot().crashed().collected().seeded(
                dt,
                draws.asteroid,
            ).supplied(dt, draws.powerup)
        }
    }

    /// The sound cues of the tick that `stepped` describes: one shot if the
    /// weapon fired, then one explosion for each asteroid destroyed.
    pub open spec fn cues(self, dt: u32) -> Seq<Sound> {
        if self.game_over {
            Seq::empty()
        } else {
            let armed = self.piloted(dt);
            let aloft = armed.fired().flown(dt).drifted();
            let shots = if armed.player.shooting() {
                seq![Sound::WeaponShoot]
            } else {
                Seq::empty()
            };
            shots + Seq::new(
                (aloft.bullets.len() - aloft.shot().bullets.len()) as nat,
                |i: int| Sound::AsteroidExplosion,
            )
        }
    }
}

impl TickDraws {
    /// Fresh random numbers for one tick.
    pub fn random() -> (r: TickDraws)
        ensures
            r@.asteroid.jitter.len() == DEFAULT_NUM_VERTS,
    {
        TickDraws { asteroid: AsteroidDraws::random(), powerup: PowerUpDraws::random() }
    }
}

impl Game {
    /// The state is well formed.
    pub open spec fn wf(&self) -> bool {
        self@.wf()
    }

    /// Starts a session on a field of the given size.
    pub fn new(window_size: Size) -> (r: Game)
        requires
            window_size.wf(),
        ensures
            r@ == GameModel::initial(window_size),
            r.wf(),
    {
        let game = Game {
            player: Player::new(window_size),
            bullets: Vec::new(),
            asteroids: Vec::new(),
            powerups: Vec::new(),
            score: 0,
            window_size,
            asteroid_timer: FIRST_SPAWN_DELAY,
            asteroid_timer_max: SPAWN_INTERVAL_START,
            powerup_timer: POWERUP_INTERVAL,
            game_over: false,
        };
        assert(game@.asteroids == Seq::<AsteroidModel>::empty());
        game
    }

    /// Whether the ship has hit an asteroid.
    pub fn game_over(&self) -> (r: bool)
        ensures
            r == self@.game_over,
    {
        self.game_over
    }

    /// The score.
    pub fn score(&self) -> (r: i64)
        ensures
            r == self@.score,
    {
        self.score
    }

    /// The ship.
    pub fn player(&self) -> (r: Player)
        ensures
            r == self@.player,
    {
        self.player
    }

    /// The live bullets.
    pub fn bullets(&self) -> (r: &Vec<Bullet>)
        ensures
            r@ == self@.bullets,
    {
        &self.bullets
    }

    /// The live asteroids.
    pub fn asteroids(&self) -> (r: &Vec<Asteroid>)
        ensures
            models(r@) == self@.asteroids,
    {
        &self.asteroids
    }

    /// The live power-ups.
    pub fn powerups(&self) -> (r: &Vec<PowerUp>)
        ensures
            r@ == self@.powerups,
    {
        &self.powerups
    }

    /// The field.
    pub fn window_size(&self) -> (r: Size)
        ensures
            r == self@.window_size,
    {
        self.window_size
    }

    /// The current interval between asteroids, in microseconds.
    pub fn asteroid_timer_max(&self) -> (r: u32)
        ensures
            r == self@.asteroid_timer_max,
    {
        self.asteroid_timer_max
    }

    /// Sets the ship's active actions. A game that is over admits no input.
    pub fn set_actions(&mut self, actions: Actions)
        ensures
            final(self)@ == old(self)@.commanded(actions),
            old(self).wf() ==> final(self).wf(),
    {
        if !self.game_over {
            self.player.actions = actions;
        }
    }

    /// Puts an asteroid on the field.
    pub fn add_asteroid(&mut self, asteroid: Asteroid)
        requires
            old(self).wf(),
            asteroid@.wf(),
        ensures
            final(self)@ == (GameModel {
                asteroids: old(self)@.asteroids.push(asteroid@),
                ..old(self)@
            }),
            final(self).wf(),
    {
        let ghost before = self.asteroids@;
        self.asteroids.push(asteroid);
        assert(models(self.asteroids@) == models(before).push(asteroid@));
    }

    /// Puts a power-up on the field.
    pub fn add_powerup(&mut self, powerup: PowerUp)
        requires
            old(self).wf(),
            powerup.wf(),
        ensures
            final(self)@ == (GameModel {
                powerups: old(self)@.powerups.push(powerup),
                ..old(self)@
            }),
            final(self).wf(),
    {
        self.powerups.push(powerup);
    }

    /// Updates the ship.
    fn pilot(&mut self, dt: u32)
        requires
            old(self).wf(),
        ensures
            final(self)@ == old(self)@.piloted(dt),
            final(self).wf(),
    {
        self.player.update(dt);
    }

    /// Fires the weapon if it is ready. Returns whether it fired.
    fn fire(&mut self) -> (shot: bool)
        requires
            old(self).wf(),
        ensures
            final(self)@ == old(self)@.fired(),
            final(self).wf(),
            shot == old(self)@.player.shooting(),
    {
        if self.player.should_shoot() {
            let bullet = Bullet::new(self.player.pos, self.player.vel, self.player.rot, self.window_size);
            self.bullets.push(bullet);
            self.player.reset_weapon_cooldown();
            true
        } else {
            false
        }
    }

    /// Updates the bullets and removes the spent ones.
    fn fly(&mut self, dt: u32)
        requires
            old(self).wf(),
        ensures
            final(self)@ == old(self)@.flown(dt),
            final(self).wf(),
    {
        let ghost moved = flight(self.bullets@, dt);
        let mut kept: Vec<Bullet> = Vec::new();
        let n = self.bullets.len();
        let mut i: usize = 0;
        assert(moved.take(0).filter(alive()) == Seq::<Bullet>::empty()) by {
            reveal(Seq::filter);
        }
        while i < n
            invariant
                i <= n,
                n == self.bullets@.len(),
                *self == *old(self),
                self.wf(),
                moved == flight(self.bullets@, dt),
                kept@ == moved.take(i as int).filter(alive()),
                all_bullets_wf(kept@),
            decreases n - i,
        {
            let mut bullet = self.bullets[i];
            assert(self.bullets@[i as int].wf());
            bullet.update(dt);
            proof {
                assert(moved.take(i + 1) == moved.take(i as int).push(moved[i as int]));
                moved.take(i as int).lemma_filter_push(moved[i as int], alive());
            }
            if bullet.ttl() > 0 {
                kept.push(bullet);
            }
            i += 1;
        }
        assert(moved.take(n as int) == moved);
        self.bullets = kept;
    }

    /// Updates the asteroids and the power-ups.
    fn drift(&mut self)
        requires
            old(self).wf(),
        ensures
            final(self)@ == old(self)@.drifted(),
            final(self).wf(),
    {
        let n = self.asteroids.len();
        let ghost rocks = models(self.asteroids@);
        let mut i: usize = 0;
        while i < n
            invariant
                i <= n,
                n == self.asteroids@.len(),
                n == rocks.len(),
                all_rocks_wf(rocks),
                self.player == old(self).player,
                self.bullets == old(self).bullets,
                self.powerups == old(self).powerups,
                self.score == old(self).score,
                self.window_size == old(self).window_size,
                self.asteroid_timer == old(self).asteroid_timer,
                self.asteroid_timer_max == old(self).asteroid_timer_max,
                self.powerup_timer == old(self).powerup_timer,
                self.game_over == old(self).game_over,
                forall|j: int| 0 <= j < i ==> (#[trigger] self.asteroids@[j])@ == rocks[j].updated(),
                forall|j: int| 0 <= j < i ==> (#[trigger] self.asteroids@[j])@.wf(),
                forall|j: int| i <= j < n ==> (#[trigger] self.asteroids@[j])@ == rocks[j],
            decreases n - i,
        {
            assert(rocks[i as int].wf());
            self.asteroids[i].update();
            i += 1;
        }
        assert(models(self.asteroids@) == rocks.map_values(|a: AsteroidModel| a.updated()));
        let m = self.powerups.len();
        let ghost pickups = self.powerups@;
        let mut k: usize = 0;
        while k < m
            invariant
                k <= m,
                m == self.powerups@.len(),
                m == pickups.len(),
                all_powerups_wf(pickups),
                self.player == old(self).player,
                self.bullets == old(self).bullets,
                models(self.asteroids@) == rocks.map_values(|a: AsteroidModel| a.updated()),
                all_rocks_wf(models(self.asteroids@)),
                self.score == old(self).score,
                self.window_size == old(self).window_size,
                self.asteroid_timer == old(self).asteroid_timer,
                self.asteroid_timer_max == old(self).asteroid_timer_max,
                self.powerup_timer == old(self).powerup_timer,
                self.game_over == old(self).game_over,
                forall|j: int| 0 <= j < k ==> #[trigger] self.powerups@[j] == pickups[j].updated(),
                forall|j: int| 0 <= j < k ==> (#[trigger] self.powerups@[j]).wf(),
                forall|j: int| k <= j < m ==> #[trigger] self.powerups@[j] == pickups[j],
            decreases m - k,
        {
            assert(pickups[k as int].wf());
            let mut powerup = self.powerups[k];
            powerup.update();
            self.powerups.set(k, powerup);
            k += 1;
        }
        assert(self.powerups@ == pickups.map_values(|p: PowerUp| p.updated()));
    }

    /// Index of the first asteroid that `bullet` strikes, or the number of
    /// asteroids if it strikes none.
    fn find_hit(&self, bullet: &Bullet) -> (r: usize)
        requires
            self.wf(),
            bullet.wf(),
        ensures
            r == first_hit(self@.asteroids, *bullet),
            r <= self.asteroids@.len(),
    {
        let n = self.asteroids.len();
        let ghost rocks = models(self.asteroids@);
        let mut i: usize = 0;
        while i < n
            invariant
                i <= n,
                n == self.asteroids@.len(),
                rocks == models(self.asteroids@),
                all_rocks_wf(rocks),
                bullet.wf(),
                forall|j: int| 0 <= j < i ==> !strikes(*bullet, #[trigger] rocks[j]),
            decreases n - i,
        {
            assert(rocks[i as int].wf());
            if collides_with(&self.asteroids[i], bullet) {
                proof {
                    assert(is_first_hit(rocks, *bullet, i as int));
                    lemma_first_hit_found(rocks, *bullet, i as int);
                }
                return i;
            }
            i += 1;
        }
        proof {
            lemma_first_hit_none(rocks, *bullet);
        }
        n
    }

    /// Resolves the bullets against the asteroids. Returns the number of
    /// asteroids destroyed.
    fn shoot(&mut self) -> (hits: usize)
        requires
            old(self).wf(),
        ensures
            final(self)@ == old(self)@.shot(),
            final(self).wf(),
            hits == old(self)@.bullets.len() - final(self)@.bullets.len(),
    {
        let ghost start = self@;
        let mut kept: Vec<Bullet> = Vec::new();
        let n = self.bullets.len();
        let mut hits: usize = 0;
        let mut i: usize = 0;
        while i < n
            invariant
                i <= n,
                n == start.bullets.len(),
                start == old(self)@,
                self.wf(),
                self.bullets@ == start.bullets,
                self.player == start.player,
                self.powerups@ == start.powerups,
                self.window_size == start.window_size,
                self.asteroid_timer == start.asteroid_timer,
                self.asteroid_timer_max == start.asteroid_timer_max,
                self.powerup_timer == start.powerup_timer,
                self.game_over == start.game_over,
                kept@ == barrage(start.bullets, start.asteroids, start.score, i as int).bullets,
                models(self.asteroids@) == barrage(
                    start.bullets,
                    start.asteroids,
                    start.score,
                    i as int,
                ).rocks,
                self.score == barrage(start.bullets, start.asteroids, start.score, i as int).score,
                all_bullets_wf(kept@),
                hits + kept@.len() == i,
            decreases n - i,
        {
            let bullet = self.bullets[i];
            assert(self.bullets@[i as int].wf());
            let hit = self.find_hit(&bullet);
            if hit < self.asteroids.len() {
                let ghost before = self.asteroids@;
                let mut rock = self.asteroids.remove(hit);
                assert(models(self.asteroids@) == models(before).remove(hit as int));
                assert(models(before)[hit as int].wf());
                if rock.can_split() {
                    let mut children = rock.split(&bullet);
                    let ghost rest = self.asteroids@;
                    let ghost pieces = children@;
                    self.asteroids.append(&mut children);
                    assert(models(self.asteroids@) == models(rest) + models(pieces)) by {
                        assert(self.asteroids@ == rest + pieces);
                    }
                }
                self.score = if self.score <= i64::MAX - SCORE_PER_ASTEROID {
                    self.score + SCORE_PER_ASTEROID
                } else {
                    i64::MAX
                };
                hits += 1;
            } else {
                kept.push(bullet);
            }
            i += 1;
        }
        self.bullets = kept;
        hits
    }

    /// Ends the game if an asteroid touches the ship.
    fn crash(&mut self)
        requires
            old(self).wf(),
        ensures
            final(self)@ == old(self)@.crashed(),
            final(self).wf(),
    {
        let n = self.asteroids.len();
        let ghost rocks = models(self.asteroids@);
        let mut found = false;
        let mut i: usize = 0;
        while i < n
            invariant
                i <= n,
                n == self.asteroids@.len(),
                rocks == models(self.asteroids@),
                *self == *old(self),
                self.wf(),
                found == (exists|j: int| 0 <= j < i && rams(#[trigger] rocks[j], self.player)),
            decreases n - i,
        {
            assert(rocks[i as int].wf());
            if collides_with(&self.asteroids[i], &self.player) {
                found = true;
            }
            i += 1;
        }
        if found {
            self.game_over = true;
        }
    }

    /// Lets the ship pick up the power-ups that touch it.
    fn collect(&mut self)
        requires
            old(self).wf(),
        ensures
            final(self)@ == old(self)@.collected(),
            final(self).wf(),
    {
        let ghost start = self@;
        let ghost far = out_of_reach(start.player);
        let mut kept: Vec<PowerUp> = Vec::new();
        let n = self.powerups.len();
        let mut i: usize = 0;
        assert(start.powerups.take(0).filter(far) == Seq::<PowerUp>::empty()) by {
            reveal(Seq::filter);
        }
        while i < n
            invariant
                i <= n,
                n == start.powerups.len(),
                start == old(self)@,
                far == out_of_reach(start.player),
                self.wf(),
                self.powerups@ == start.powerups,
                self.bullets@ == start.bullets,
                models(self.asteroids@) == start.asteroids,
                self.score == start.score,
                self.window_size == start.window_size,
                self.asteroid_timer == start.asteroid_timer,
                self.asteroid_timer_max == start.asteroid_timer_max,
                self.powerup_timer == start.powerup_timer,
                self.game_over == start.game_over,
                self.player == pickups(start.player, start.powerups, i as int),
                self.player.pos == start.player.pos,
                kept@ == start.powerups.take(i as int).filter(far),
                all_powerups_wf(kept@),
            decreases n - i,
        {
            let powerup = self.powerups[i];
            assert(self.powerups@[i as int].wf());
            proof {
                assert(start.powerups.take(i + 1) == start.powerups.take(i as int).push(
                    start.powerups[i as int],
                ));
                start.powerups.take(i as int).lemma_filter_push(start.powerups[i as int], far);
            }
            if collides_with(&powerup, &self.player) {
                self.player.set_powerup(powerup.powerup_type);
            } else {
                kept.push(powerup);
            }
            i += 1;
        }
        assert(start.powerups.take(n as int) == start.powerups);
        self.powerups = kept;
    }

    /// Runs the asteroid timer, spawning with `draws` when it runs out.
    fn seed(&mut self, dt: u32, draws: &AsteroidDraws)
        requires
            old(self).wf(),
        ensures
            final(self)@ == old(self)@.seeded(dt, draws@),
            final(self).wf(),
    {
        let left = count_down(self.asteroid_timer, dt);
        if left == 0 {
            let ghost before = self.asteroids@;
            let rock = Asteroid::from_draws(self.window_size, draws);
            self.asteroids.push(rock);
            assert(models(self.asteroids@) == models(before).push(rock@));
            let next = if self.asteroid_timer_max - SPAWN_INTERVAL_STEP >= SPAWN_INTERVAL_FLOOR {
                self.asteroid_timer_max - SPAWN_INTERVAL_STEP
            } else {
                SPAWN_INTERVAL_FLOOR
            };
            self.asteroid_timer_max = next;
            self.asteroid_timer = next;
        } else {
            self.asteroid_timer = left;
        }
    }

    /// Runs the power-up timer, spawning with `draws` when it runs out.
    fn supply(&mut self, dt: u32, draws: PowerUpDraws)
        requires
            old(self).wf(),
        ensures
            final(self)@ == old(self)@.supplied(dt, draws),
            final(self).wf(),
    {
        let left = count_down(self.powerup_timer, dt);
        if left == 0 {
            self.powerups.push(PowerUp::from_draws(self.window_size, draws));
            self.powerup_timer = POWERUP_INTERVAL;
        } else {
            self.powerup_timer = left;
        }
    }

    /// Advances the game by one tick of `dt` microseconds, spawning with
    /// the given draws, and returns the tick's sound cues.
    pub fn advance(&mut self, dt: u32, draws: &TickDraws) -> (cues: Vec<Sound>)
        requires
            old(self).wf(),
        ensures
            final(self)@ == old(self)@.stepped(dt, draws@),
            cues@ == old(self)@.cues(dt),
            final(self).wf(),
    {
        let mut cues: Vec<Sound> = Vec::new();
        if self.game_over {
            return cues;
        }
        self.pilot(dt);
        if self.fire() {
            cues.push(Sound::WeaponShoot);
        }
        self.fly(dt);
        self.drift();
        let hits = self.shoot();
        let ghost shots = cues@;
        let mut i: usize = 0;
        while i < hits
            invariant
                i <= hits,
                cues@ == shots + Seq::new(i as nat, |k: int| Sound::AsteroidExplosion),
            decreases hits - i,
        {
            cues.push(Sound::AsteroidExplosion);
            i += 1;
        }
        self.crash();
        self.collect();
        self.seed(dt, &draws.asteroid);
        self.supply(dt, draws.powerup);
        cues
    }

    /// Advances the game by one tick of `dt` microseconds, spawning at
    /// random, and returns the tick's sound cues.
    pub fn update(&mut self, dt: u32) -> (cues: Vec<Sound>)
        requires
            old(self).wf(),
        ensures
            exists|draws: TickDrawsModel|
                draws.asteroid.jitter.len() == DEFAULT_NUM_VERTS && final(self)@
                    == #[trigger] old(self)@.stepped(dt, draws),
            cues@ == old(self)@.cues(dt),
            old(self)@.game_over ==> final(self)@ == old(self)@ && cues@.len() == 0,
            final(self).wf(),
    {
        let draws = TickDraws::random();
        self.advance(dt, &draws)
    }

    /// Takes the player's input, then advances the game by one tick.
    pub fn tick(&mut self, dt: u32, actions: Actions) -> (cues: Vec<Sound>)
        requires
            old(self).wf(),
        ensures
            exists|draws: TickDrawsModel|
                draws.asteroid.jitter.len() == DEFAULT_NUM_VERTS && final(self)@
                    == #[trigger] old(self)@.commanded(actions).stepped(dt, draws),
            cues@ == old(self)@.commanded(actions).cues(dt),
            old(self)@.game_over ==> final(self)@ == old(self)@ && cues@.len() == 0,
            final(self).wf(),
    {
        self.set_actions(actions);
        self.update(dt)
    }
}

} // verus!
