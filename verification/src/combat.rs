//! What a frame's hits do: which enemy a shot strikes, what a laser does
//! to every enemy it crosses, and how pirates fall to cannonballs and to
//! piercing bullets. Which shapes touch is measured by the caller and
//! handed in, one flag per target.

use vstd::prelude::*;
use crate::bullet::Bullet;
use crate::enemy::Enemy;
use crate::ship::{Ship, HitOutcome, bullet_hit, ram_hit};
use crate::config::GameConfig;
use crate::rng::thread_random_below;

verus! {

/// The first enemy at or after `from` that is alive and touched.
pub open spec fn first_struck(enemies: Seq<Enemy>, touching: Seq<bool>, from: int) -> Option<int>
    decreases enemies.len() - from,
{
    if from < 0 || from >= enemies.len() {
        None
    } else if touching[from] && !enemies[from].is_dead {
        Some(from)
    } else {
        first_struck(enemies, touching, from + 1)
    }
}

proof fn lemma_first_struck(enemies: Seq<Enemy>, touching: Seq<bool>, from: int)
    requires
        0 <= from <= enemies.len(),
    ensures
        first_struck(enemies, touching, from) matches Some(k) ==> from <= k < enemies.len()
            && touching[k] && !enemies[k].is_dead,
    decreases enemies.len() - from,
{
    if from < enemies.len() && !(touching[from] && !enemies[from].is_dead) {
        lemma_first_struck(enemies, touching, from + 1);
    }
}

/// A shot strikes the first live enemy it touches (in the order of the
/// enemies) and no other. Returns that enemy's index and whether the hit
/// killed it; `None` when it touches no live enemy.
pub fn strike_first(enemies: &mut Vec<Enemy>, touching: &Vec<bool>, damage: i32) -> (struck: Option<
    (usize, bool),
>)
    requires
        old(enemies)@.len() == touching@.len(),
        first_struck(old(enemies)@, touching@, 0) matches Some(k) ==> old(
            enemies,
        )@[k].damage_fits(damage as int),
    ensures
        match first_struck(old(enemies)@, touching@, 0) {
            Some(k) => struck == Some((k as usize, old(enemies)@[k].damage_kills(damage as int)))
                && final(enemies)@ == old(enemies)@.update(
                k,
                old(enemies)@[k].after_damage(damage as int),
            ),
            None => struck is None && final(enemies)@ == old(enemies)@,
        },
{
    proof {
        lemma_first_struck(enemies@, touching@, 0);
    }
    let mut i: usize = 0;
    while i < enemies.len()
        invariant
            enemies@ == old(enemies)@,
            enemies@.len() == touching@.len(),
            i <= enemies@.len(),
            first_struck(enemies@, touching@, 0) == first_struck(enemies@, touching@, i as int),
            first_struck(enemies@, touching@, 0) matches Some(k) ==> enemies@[k].damage_fits(
                damage as int,
            ),
        decreases enemies@.len() - i,
    {
        if touching[i] && !enemies[i].is_dead {
            let killed = enemies[i].take_damage(damage);
            return Some((i, killed));
        }
        i = i + 1;
    }
    None
}

/// Whether `strike_first` can work out its hit in `i32`.
pub fn can_strike_first(enemies: &Vec<Enemy>, touching: &Vec<bool>, damage: i32) -> (r: bool)
    requires
        enemies@.len() == touching@.len(),
    ensures
        r == (first_struck(enemies@, touching@, 0) matches Some(k) ==> enemies@[k].damage_fits(
            damage as int,
        )),
{
    let mut i: usize = 0;
    while i < enemies.len()
        invariant
            enemies@.len() == touching@.len(),
            i <= enemies@.len(),
            first_struck(enemies@, touching@, 0) == first_struck(enemies@, touching@, i as int),
        decreases enemies@.len() - i,
    {
        if touching[i] && !enemies[i].is_dead {
            return enemies[i].can_take_damage(damage);
        }
        i = i + 1;
    }
    true
}

/// Whether `strike_all` can work out its hits in `i32`.
pub fn can_strike_all(enemies: &Vec<Enemy>, touching: &Vec<bool>, damage: i32) -> (r: bool)
    requires
        enemies@.len() == touching@.len(),
    ensures
        r == (forall|i: int|
            0 <= i < touching@.len() && crossed(enemies@, touching@, i) ==> (#[trigger] enemies@[i]).damage_fits(
                damage as int,
            )),
{
    let mut i: usize = 0;
    while i < enemies.len()
        invariant
            enemies@.len() == touching@.len(),
            i <= enemies@.len(),
            forall|k: int|
                0 <= k < i && crossed(enemies@, touching@, k) ==> (#[trigger] enemies@[k]).damage_fits(
                    damage as int,
                ),
        decreases enemies@.len() - i,
    {
        if touching[i] && !enemies[i].is_dead {
            if !enemies[i].can_take_damage(damage) {
                assert(crossed(enemies@, touching@, i as int));
                return false;
            }
        }
        i = i + 1;
    }
    true
}

/// Whether enemy `i` is alive and touched.
pub open spec fn crossed(enemies: Seq<Enemy>, touching: Seq<bool>, i: int) -> bool {
    touching[i] && !enemies[i].is_dead
}

/// A laser strikes every live enemy it touches. Returns, for each enemy,
/// whether the laser killed it.
pub fn strike_all(enemies: &mut Vec<Enemy>, touching: &Vec<bool>, damage: i32) -> (killed: Vec<bool>)
    requires
        old(enemies)@.len() == touching@.len(),
        forall|i: int|
            0 <= i < touching@.len() && crossed(old(enemies)@, touching@, i) ==> (#[trigger] old(
                enemies,
            )@[i]).damage_fits(damage as int),
    ensures
        final(enemies)@.len() == old(enemies)@.len(),
        killed@.len() == old(enemies)@.len(),
        forall|i: int|
            0 <= i < old(enemies)@.len() ==> {
                &&& (#[trigger] final(enemies)@[i]) == if crossed(old(enemies)@, touching@, i) {
                    old(enemies)@[i].after_damage(damage as int)
                } else {
                    old(enemies)@[i]
                }
                &&& killed@[i] == (crossed(old(enemies)@, touching@, i) && old(
                    enemies,
                )@[i].damage_kills(damage as int))
            },
{
    let ghost start = enemies@;
    let mut killed: Vec<bool> = Vec::new();
    let mut i: usize = 0;
    while i < enemies.len()
        invariant
            enemies@.len() == start.len(),
            start == old(enemies)@,
            start.len() == touching@.len(),
            i <= start.len(),
            killed@.len() == i,
            forall|k: int|
                0 <= k < start.len() && crossed(start, touching@, k) ==> (#[trigger] start[k]).damage_fits(
                    damage as int,
                ),
            forall|k: int|
                0 <= k < i ==> {
                    &&& (#[trigger] enemies@[k]) == if crossed(start, touching@, k) {
                        start[k].after_damage(damage as int)
                    } else {
                        start[k]
                    }
                    &&& killed@[k] == (crossed(start, touching@, k) && start[k].damage_kills(
                        damage as int,
                    ))
                },
            forall|k: int| i <= k < start.len() ==> (#[trigger] enemies@[k]) == start[k],
        decreases start.len() - i,
    {
        if touching[i] && !enemies[i].is_dead {
            assert(crossed(start, touching@, i as int));
            let k = enemies[i].take_damage(damage);
            killed.push(k);
        } else {
            killed.push(false);
        }
        i = i + 1;
    }
    killed
}

/// How many pirates are alive and touched.
pub open spec fn pirates_struck(dead: Seq<bool>, touching: Seq<bool>) -> int
    decreases dead.len(),
{
    if dead.len() == 0 || touching.len() == 0 {
        0
    } else {
        pirates_struck(dead.drop_last(), touching.drop_last()) + if !dead.last()
            && touching.last() {
            1int
        } else {
            0
        }
    }
}

/// The first pirate that is alive and touched.
pub open spec fn first_pirate(dead: Seq<bool>, touching: Seq<bool>, from: int) -> Option<int>
    decreases dead.len() - from,
{
    if from < 0 || from >= dead.len() {
        None
    } else if touching[from] && !dead[from] {
        Some(from)
    } else {
        first_pirate(dead, touching, from + 1)
    }
}

/// A cannonball takes down the first live pirate it touches and no other.
pub fn strike_first_pirate(dead: &mut Vec<bool>, touching: &Vec<bool>) -> (struck: Option<usize>)
    requires
        old(dead)@.len() == touching@.len(),
    ensures
        match first_pirate(old(dead)@, touching@, 0) {
            Some(k) => struck == Some(k as usize) && final(dead)@ == old(dead)@.update(k, true),
            None => struck is None && final(dead)@ == old(dead)@,
        },
{
    let mut i: usize = 0;
    while i < dead.len()
        invariant
            dead@ == old(dead)@,
            dead@.len() == touching@.len(),
            i <= dead@.len(),
            first_pirate(dead@, touching@, 0) == first_pirate(dead@, touching@, i as int),
        decreases dead@.len() - i,
    {
        if touching[i] && !dead[i] {
            dead.set(i, true);
            return Some(i);
        }
        i = i + 1;
    }
    None
}

/// A bullet takes down every live pirate it touches, using up one pierce
/// for each; once its pierces are spent it is dead, though it still takes
/// down the rest it touches this frame. Returns how many fell.
pub fn strike_pirates(dead: &mut Vec<bool>, touching: &Vec<bool>, bullet: &mut Bullet) -> (fallen: u32)
    requires
        old(dead)@.len() == touching@.len(),
        old(dead)@.len() <= u32::MAX,
    ensures
        final(dead)@.len() == old(dead)@.len(),
        forall|i: int|
            0 <= i < old(dead)@.len() ==> (#[trigger] final(dead)@[i]) == (old(dead)@[i]
                || touching@[i]),
        fallen == pirates_struck(old(dead)@, touching@),
        final(bullet).pierce_remaining == if old(bullet).pierce_remaining > 0 {
            if old(bullet).pierce_remaining - fallen >= 0 {
                old(bullet).pierce_remaining - fallen
            } else {
                0
            }
        } else {
            old(bullet).pierce_remaining as int
        },
        final(bullet).is_dead == (old(bullet).is_dead || fallen > if old(bullet).pierce_remaining
            > 0 {
            old(bullet).pierce_remaining as int
        } else {
            0
        }),
        final(bullet).bullet_type == old(bullet).bullet_type,
        final(bullet).damage == old(bullet).damage,
        final(bullet).is_laser == old(bullet).is_laser,
{
    let ghost d0 = dead@;
    let ghost b0 = *bullet;
    let mut fallen: u32 = 0;
    let mut i: usize = 0;
    assert(d0.take(0) =~= Seq::<bool>::empty());
    while i < dead.len()
        invariant
            d0 == old(dead)@,
            b0 == *old(bullet),
            dead@.len() == d0.len(),
            d0.len() == touching@.len(),
            d0.len() <= u32::MAX,
            i <= d0.len(),
            fallen <= i,
            fallen == pirates_struck(d0.take(i as int), touching@.take(i as int)),
            forall|k: int| 0 <= k < i ==> (#[trigger] dead@[k]) == (d0[k] || touching@[k]),
            forall|k: int| i <= k < d0.len() ==> (#[trigger] dead@[k]) == d0[k],
            bullet.pierce_remaining == if b0.pierce_remaining > 0 {
                if b0.pierce_remaining - fallen >= 0 {
                    b0.pierce_remaining - fallen
                } else {
                    0
                }
            } else {
                b0.pierce_remaining as int
            },
            bullet.is_dead == (b0.is_dead || fallen > if b0.pierce_remaining > 0 {
                b0.pierce_remaining as int
            } else {
                0
            }),
            bullet.bullet_type == b0.bullet_type,
            bullet.damage == b0.damage,
            bullet.is_laser == b0.is_laser,
        decreases d0.len() - i,
    {
        assert(d0.take(i + 1).drop_last() =~= d0.take(i as int));
        assert(touching@.take(i + 1).drop_last() =~= touching@.take(i as int));
        if !dead[i] && touching[i] {
            dead.set(i, true);
            fallen = fallen + 1;
            if !bullet.pierce() {
                bullet.is_dead = true;
            }
        }
        i = i + 1;
    }
    assert(d0.take(d0.len() as int) =~= d0);
    assert(touching@.take(d0.len() as int) =~= touching@);
    fallen
}

/// The ship, its lives and whether it is invulnerable, after the enemy
/// bullets that touch it: while it is vulnerable each touching bullet hits
/// it (a shield takes the hit; otherwise a life is lost and the ship turns
/// invulnerable; with no life left the game is over); while it is
/// invulnerable, touching bullets pass.
pub open spec fn bullets_on_ship(ship: Ship, lives: int, invulnerable: bool, touching: Seq<bool>) -> (
    Ship,
    int,
    bool,
)
    decreases touching.len(),
{
    if touching.len() == 0 {
        (ship, lives, invulnerable)
    } else {
        let (s, l, inv) = bullets_on_ship(ship, lives, invulnerable, touching.drop_last());
        if !touching.last() || inv {
            (s, l, inv)
        } else if s.has_shield {
            (Ship { has_shield: false, ..s }, l, inv)
        } else if l > 0 {
            (s, l - 1, true)
        } else {
            (Ship { gameover: true, ..s }, l, inv)
        }
    }
}

/// The ship and its lives after the pirates that touch it ram it, one by
/// one: a life is lost if any is left, otherwise the game is over.
pub open spec fn rams_on_ship(ship: Ship, lives: int, touching: Seq<bool>) -> (Ship, int)
    decreases touching.len(),
{
    if touching.len() == 0 {
        (ship, lives)
    } else {
        let (s, l) = rams_on_ship(ship, lives, touching.drop_last());
        if !touching.last() {
            (s, l)
        } else if l > 0 {
            (s, l - 1)
        } else {
            (Ship { gameover: true, ..s }, l)
        }
    }
}

/// A frame's hits on the ship: first the bullets, then the rams.
pub open spec fn ship_frame_spec(
    ship: Ship,
    lives: int,
    invulnerable: bool,
    bullets: Seq<bool>,
    rams: Seq<bool>,
) -> (Ship, int) {
    let (s, l, _) = bullets_on_ship(ship, lives, invulnerable, bullets);
    rams_on_ship(s, l, rams)
}

proof fn lemma_bullets_on_ship(ship: Ship, lives: int, invulnerable: bool, touching: Seq<bool>)
    ensures
        ({
            let (s, l, inv) = bullets_on_ship(ship, lives, invulnerable, touching);
            &&& l <= lives
            &&& lives >= 0 ==> l >= 0
            &&& ship.gameover ==> s.gameover
            &&& invulnerable ==> inv
            &&& s.gameover && !ship.gameover ==> l <= 0
        }),
    decreases touching.len(),
{
    if touching.len() > 0 {
        lemma_bullets_on_ship(ship, lives, invulnerable, touching.drop_last());
    }
}

proof fn lemma_rams_on_ship(ship: Ship, lives: int, touching: Seq<bool>)
    ensures
        ({
            let (s, l) = rams_on_ship(ship, lives, touching);
            &&& l <= lives
            &&& lives >= 0 ==> l >= 0
            &&& ship.gameover ==> s.gameover
            &&& s.has_shield == ship.has_shield
            &&& s.gameover && !ship.gameover ==> l <= 0
        }),
    decreases touching.len(),
{
    if touching.len() > 0 {
        lemma_rams_on_ship(ship, lives, touching.drop_last());
    }
}

/// The hits the ship takes in one frame. `bullets` flags each enemy bullet
/// that is alive and touches the ship, `rams` each live pirate that touches
/// it. Returns, for each bullet, whether it was spent on the ship, and
/// whether the ship lost a life (and so turned invulnerable).
pub fn ship_frame(
    ship: &mut Ship,
    lives: &mut i32,
    invulnerable: bool,
    bullets: &Vec<bool>,
    rams: &Vec<bool>,
) -> (r: (Vec<bool>, bool))
    ensures
        (*final(ship), *final(lives) as int) == ship_frame_spec(
            *old(ship),
            *old(lives) as int,
            invulnerable,
            bullets@,
            rams@,
        ),
        r.0@.len() == bullets@.len(),
        forall|k: int|
            0 <= k < bullets@.len() ==> (#[trigger] r.0@[k]) == (bullets@[k] && !bullets_on_ship(
                *old(ship),
                *old(lives) as int,
                invulnerable,
                bullets@.take(k),
            ).2),
        r.1 == (!invulnerable && bullets_on_ship(
            *old(ship),
            *old(lives) as int,
            invulnerable,
            bullets@,
        ).2),
{
    let ghost s0 = *ship;
    let ghost l0 = *lives as int;
    let mut inv = invulnerable;
    let mut spent: Vec<bool> = Vec::new();
    let mut i: usize = 0;
    assert(bullets@.take(0) =~= Seq::<bool>::empty());
    while i < bullets.len()
        invariant
            s0 == *old(ship),
            l0 == *old(lives) as int,
            i <= bullets@.len(),
            spent@.len() == i,
            bullets_on_ship(s0, l0, invulnerable, bullets@.take(i as int)) == (
                *ship,
                *lives as int,
                inv,
            ),
            forall|k: int|
                0 <= k < i ==> (#[trigger] spent@[k]) == (bullets@[k] && !bullets_on_ship(
                    s0,
                    l0,
                    invulnerable,
                    bullets@.take(k),
                ).2),
        decreases bullets@.len() - i,
    {
        assert(bullets@.take(i + 1).drop_last() =~= bullets@.take(i as int));
        if bullets[i] && !inv {
            spent.push(true);
            if bullet_hit(ship, lives) == HitOutcome::LifeLost {
                inv = true;
            }
        } else {
            spent.push(false);
        }
        i = i + 1;
    }
    assert(bullets@.take(bullets@.len() as int) =~= bullets@);
    proof {
        lemma_bullets_on_ship(s0, l0, invulnerable, bullets@);
    }
    let ghost s1 = *ship;
    let ghost l1 = *lives as int;
    let mut j: usize = 0;
    assert(rams@.take(0) =~= Seq::<bool>::empty());
    while j < rams.len()
        invariant
            j <= rams@.len(),
            rams_on_ship(s1, l1, rams@.take(j as int)) == (*ship, *lives as int),
        decreases rams@.len() - j,
    {
        assert(rams@.take(j + 1).drop_last() =~= rams@.take(j as int));
        if rams[j] {
            ram_hit(ship, lives);
        }
        j = j + 1;
    }
    assert(rams@.take(rams@.len() as int) =~= rams@);
    (spent, inv && !invulnerable)
}

/// The points of a frame's kills: each killed enemy is worth its score value.
pub open spec fn kill_points(enemies: Seq<Enemy>, killed: Seq<bool>) -> int
    decreases killed.len(),
{
    if killed.len() == 0 {
        0
    } else {
        kill_points(enemies, killed.drop_last()) + if killed.last() {
            enemies[killed.len() - 1].score_value as int
        } else {
            0
        }
    }
}

/// The score after a frame: each killed enemy adds its score value and each
/// fallen pirate one point; `None` when that score leaves `i32`.
pub fn frame_score(score: i32, enemies: &Vec<Enemy>, killed: &Vec<bool>, fallen_pirates: u32) -> (r:
    Option<i32>)
    requires
        enemies@.len() == killed@.len(),
    ensures
        ({
            let total = score + kill_points(enemies@, killed@) + fallen_pirates;
            r == if i32::MIN <= total <= i32::MAX {
                Some(total as i32)
            } else {
                None::<i32>
            }
        }),
{
    let mut acc: i128 = 0;
    let mut i: usize = 0;
    assert(killed@.take(0) =~= Seq::<bool>::empty());
    while i < killed.len()
        invariant
            enemies@.len() == killed@.len(),
            i <= killed@.len(),
            acc == kill_points(enemies@, killed@.take(i as int)),
            -(i as int) * 0x8000_0000 <= acc <= (i as int) * 0x8000_0000,
        decreases killed@.len() - i,
    {
        assert(killed@.take(i + 1).drop_last() =~= killed@.take(i as int));
        if killed[i] {
            acc = acc + enemies[i].score_value as i128;
        }
        i = i + 1;
    }
    assert(killed@.take(killed@.len() as int) =~= killed@);
    let total: i128 = score as i128 + acc + fallen_pirates as i128;
    if total < i32::MIN as i128 || total > i32::MAX as i128 {
        None
    } else {
        Some(total as i32)
    }
}

/// A frame of collisions takes nothing from the player: with lives that are
/// not negative and kills worth no negative score, lives never rise nor
/// drop below zero, the score never falls (when it stays in range), and the
/// game ends only with no life left.
pub proof fn lemma_collision_frame(
    ship: Ship,
    lives: int,
    invulnerable: bool,
    bullets: Seq<bool>,
    rams: Seq<bool>,
    score: int,
    enemies: Seq<Enemy>,
    killed: Seq<bool>,
    fallen_pirates: nat,
)
    requires
        lives >= 0,
        forall|k: int| 0 <= k < killed.len() && killed[k] ==> (#[trigger] enemies[k]).score_value
            >= 0,
        killed.len() == enemies.len(),
    ensures
        ({
            let (s, l) = ship_frame_spec(ship, lives, invulnerable, bullets, rams);
            &&& 0 <= l <= lives
            &&& s.gameover && !ship.gameover ==> l == 0
        }),
        score + kill_points(enemies, killed) + fallen_pirates >= score,
{
    let (s, l, inv) = bullets_on_ship(ship, lives, invulnerable, bullets);
    lemma_bullets_on_ship(ship, lives, invulnerable, bullets);
    lemma_rams_on_ship(s, l, rams);
    lemma_kill_points_nonneg(enemies, killed);
}

proof fn lemma_kill_points_nonneg(enemies: Seq<Enemy>, killed: Seq<bool>)
    requires
        killed.len() <= enemies.len(),
        forall|k: int| 0 <= k < killed.len() && killed[k] ==> (#[trigger] enemies[k]).score_value
            >= 0,
    ensures
        kill_points(enemies, killed) >= 0,
    decreases killed.len(),
{
    if killed.len() > 0 {
        lemma_kill_points_nonneg(enemies, killed.drop_last());
    }
}

/// Whether a pirate round sends a pirate, given the draw: only a draw of
/// zero does, and only while the round has sent more pirates than are on
/// screen.
pub open spec fn pirate_spawn_spec(roll: int, pirate_count: i32, on_screen: nat) -> bool {
    roll == 0 && pirate_count > on_screen
}

/// Decides a pirate round's spawn from a draw.
pub fn pirate_spawn_with_roll(roll: u32, pirate_count: i32, on_screen: usize) -> (spawn: bool)
    ensures
        spawn == pirate_spawn_spec(roll as int, pirate_count, on_screen as nat),
{
    roll == 0 && pirate_count > 0 && on_screen < pirate_count as usize
}

/// Whether a pirate round sends a pirate this frame: one chance in the
/// configured spawn chance, taken at random, and only while the round has
/// sent more pirates than are on screen. The caller places and counts it.
pub fn pirate_spawn(pirate_count: i32, on_screen: usize) -> (spawn: bool)
    ensures
        exists|roll: int|
            0 <= roll < 25 && spawn == pirate_spawn_spec(roll, pirate_count, on_screen as nat),
{
    let cfg = GameConfig::new();
    let roll = thread_random_below(cfg.pirate_spawn_chance);
    pirate_spawn_with_roll(roll, pirate_count, on_screen)
}

/// The score after a pirate round's frame: a point for each pirate a
/// cannonball hits and fifty for each cannonball that kills the boss;
/// `None` when that score leaves `i32`.
pub fn round_score(score: i32, pirates_hit: u32, boss_kills: u32) -> (r: Option<i32>)
    ensures
        ({
            let total = score + pirates_hit + 50 * boss_kills;
            &&& r == if total <= i32::MAX {
                Some(total as i32)
            } else {
                None::<i32>
            }
            &&& r matches Some(s) ==> s >= score
        }),
{
    let total: i64 = score as i64 + pirates_hit as i64 + 50 * boss_kills as i64;
    if total > i32::MAX as i64 {
        None
    } else {
        Some(total as i32)
    }
}

} // verus!
