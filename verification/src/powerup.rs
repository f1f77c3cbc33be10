//! Power-ups: what picking one up does, and the shield the power-up system
//! keeps.

use vstd::prelude::*;
use crate::config::{PowerupType, PowerupConfig, powerup_config, powerup_table};
use crate::ship::Ship;
use crate::rng::thread_random_below;

verus! {

/// The effect a picked-up power-up has; timed effects carry their duration
/// in whole seconds.
#[derive(Clone, Copy, Debug, PartialEq, Eq, Structural)]
pub enum PowerupEffect {
    RapidFire(u32),
    SpreadShot(u32),
    Pierce(u32),
    Shield,
    Bomb,
    Life,
    Score,
}

/// The duration the table gives a power-up type (10 seconds if it had no row).
pub open spec fn duration_of(t: PowerupType) -> u32 {
    first_duration(powerup_table(), t)
}

pub open spec fn first_duration(rows: Seq<PowerupConfig>, t: PowerupType) -> u32
    decreases rows.len(),
{
    if rows.len() == 0 {
        10
    } else if rows[0].powerup_type == t {
        rows[0].duration
    } else {
        first_duration(rows.drop_first(), t)
    }
}

/// The timed power-ups (rapid fire, spread shot, pierce) last ten seconds;
/// every other one acts at once and has no duration.
pub proof fn lemma_durations(t: PowerupType)
    ensures
        (duration_of(t) > 0) <==> (t == PowerupType::RapidFire || t == PowerupType::SpreadShot
            || t == PowerupType::Pierce),
        duration_of(t) > 0 ==> duration_of(t) == 10,
{
    reveal_with_fuel(first_duration, 8);
}

/// The drop table lists every power-up type once, commoner ones first: each
/// weight is positive, no later row outweighs an earlier one, and the
/// weights make up a hundred.
pub proof fn lemma_drop_table(i: int, j: int, t: PowerupType)
    ensures
        total_drop_weight(powerup_table()) == 100,
        0 <= i < powerup_table().len() ==> powerup_table()[i].weight > 0,
        0 <= i < j < powerup_table().len() ==> powerup_table()[i].weight >= powerup_table()[j].weight,
        0 <= i < j < powerup_table().len() ==> powerup_table()[i].powerup_type
            != powerup_table()[j].powerup_type,
        exists|k: int| 0 <= k < powerup_table().len() && (#[trigger] powerup_table()[k]).powerup_type == t,
{
    reveal_with_fuel(total_drop_weight, 8);
    let tb = powerup_table();
    match t {
        PowerupType::RapidFire => assert(tb[0].powerup_type == t),
        PowerupType::SpreadShot => assert(tb[1].powerup_type == t),
        PowerupType::Pierce => assert(tb[2].powerup_type == t),
        PowerupType::Shield => assert(tb[3].powerup_type == t),
        PowerupType::Bomb => assert(tb[4].powerup_type == t),
        PowerupType::Life => assert(tb[5].powerup_type == t),
        PowerupType::Score => assert(tb[6].powerup_type == t),
    }
}

/// Looks the duration of a power-up type up in the table.
pub fn powerup_duration(t: PowerupType) -> (d: u32)
    ensures
        d == duration_of(t),
{
    let rows = powerup_config();
    let mut i: usize = 0;
    assert(rows@.skip(0) =~= rows@);
    while i < rows.len()
        invariant
            i <= rows@.len(),
            rows@ == powerup_table(),
            first_duration(rows@, t) == first_duration(rows@.skip(i as int), t),
        decreases rows@.len() - i,
    {
        assert(rows@.skip(i as int).drop_first() =~= rows@.skip(i + 1));
        assert(rows@.skip(i as int)[0] == rows@[i as int]);
        if rows[i].powerup_type == t {
            return rows[i].duration;
        }
        i = i + 1;
    }
    10
}

/// What picking up a power-up of type `t` does: a shield raises the ship's
/// shield, a life adds one life up to nine, the score bonus adds 500
/// points; timed effects carry their duration from the table. Clearing the
/// screen for a bomb is left to the caller.
pub fn apply_effect(t: PowerupType, ship: &mut Ship, game_score: &mut i32, lives: &mut i32) -> (e:
    PowerupEffect)
    requires
        t == PowerupType::Life ==> *old(lives) < i32::MAX,
        t == PowerupType::Score ==> *old(game_score) <= i32::MAX - 500,
    ensures
        e == match t {
            PowerupType::RapidFire => PowerupEffect::RapidFire(duration_of(t)),
            PowerupType::SpreadShot => PowerupEffect::SpreadShot(duration_of(t)),
            PowerupType::Pierce => PowerupEffect::Pierce(duration_of(t)),
            PowerupType::Shield => PowerupEffect::Shield,
            PowerupType::Bomb => PowerupEffect::Bomb,
            PowerupType::Life => PowerupEffect::Life,
            PowerupType::Score => PowerupEffect::Score,
        },
        final(ship).has_shield == (old(ship).has_shield || t == PowerupType::Shield),
        final(ship).gameover == old(ship).gameover,
        *final(lives) == if t == PowerupType::Life {
            if *old(lives) + 1 <= 9 {
                *old(lives) + 1
            } else {
                9
            }
        } else {
            *old(lives) as int
        },
        *final(game_score) == if t == PowerupType::Score {
            *old(game_score) + 500
        } else {
            *old(game_score) as int
        },
{
    let duration = powerup_duration(t);
    match t {
        PowerupType::RapidFire => PowerupEffect::RapidFire(duration),
        PowerupType::SpreadShot => PowerupEffect::SpreadShot(duration),
        PowerupType::Pierce => PowerupEffect::Pierce(duration),
        PowerupType::Shield => {
            ship.has_shield = true;
            PowerupEffect::Shield
        },
        PowerupType::Bomb => PowerupEffect::Bomb,
        PowerupType::Life => {
            *lives = if *lives + 1 <= 9 {
                *lives + 1
            } else {
                9
            };
            PowerupEffect::Life
        },
        PowerupType::Score => {
            *game_score = *game_score + 500;
            PowerupEffect::Score
        },
    }
}

/// The shield the power-up system holds.
pub struct PowerUpManager {
    pub has_shield: bool,
}

impl PowerUpManager {
    /// No shield.
    pub fn new() -> (m: PowerUpManager)
        ensures
            !m.has_shield,
    {
        PowerUpManager { has_shield: false }
    }

    /// Records an effect: a shield effect raises the shield.
    pub fn apply_effect(&mut self, effect: PowerupEffect)
        ensures
            final(self).has_shield == (old(self).has_shield || effect == PowerupEffect::Shield),
    {
        if let PowerupEffect::Shield = effect {
            self.has_shield = true;
        }
    }

    /// Whether a shield is up.
    pub fn has_shield(&self) -> (r: bool)
        ensures
            r == self.has_shield,
    {
        self.has_shield
    }

    /// Drops the shield; returns whether there was one.
    pub fn consume_shield(&mut self) -> (had: bool)
        ensures
            had == old(self).has_shield,
            !final(self).has_shield,
    {
        if self.has_shield {
            self.has_shield = false;
            true
        } else {
            false
        }
    }
}

/// Sum of the drop weights of a table.
pub open spec fn total_drop_weight(rows: Seq<PowerupConfig>) -> int
    decreases rows.len(),
{
    if rows.len() == 0 {
        0
    } else {
        rows[0].weight + total_drop_weight(rows.drop_first())
    }
}

/// The type a roll lands on: walking the table, the first row whose weight
/// is at least what is left of the roll; the last row's type when none is.
pub open spec fn drop_spec(rows: Seq<PowerupConfig>, roll: int) -> PowerupType
    decreases rows.len(),
{
    if rows.len() <= 1 {
        if rows.len() == 0 {
            PowerupType::Score
        } else {
            rows[0].powerup_type
        }
    } else if roll <= rows[0].weight {
        rows[0].powerup_type
    } else {
        drop_spec(rows.drop_first(), roll - rows[0].weight)
    }
}

/// The power-up type a drop roll lands on in the table.
pub fn powerup_with_roll(roll: u32) -> (t: PowerupType)
    ensures
        t == drop_spec(powerup_table(), roll as int),
{
    let rows = powerup_config();
    let mut r: u32 = roll;
    let mut i: usize = 0;
    assert(rows@.skip(0) =~= rows@);
    while i + 1 < rows.len()
        invariant
            rows@ == powerup_table(),
            i < rows@.len(),
            drop_spec(rows@, roll as int) == drop_spec(rows@.skip(i as int), r as int),
        decreases rows@.len() - i,
    {
        assert(rows@.skip(i as int).drop_first() =~= rows@.skip(i + 1));
        assert(rows@.skip(i as int)[0] == rows@[i as int]);
        if r <= rows[i].weight {
            return rows[i].powerup_type;
        }
        r = r - rows[i].weight;
        i = i + 1;
    }
    assert(rows@.skip(i as int).len() == 1);
    assert(rows@.skip(i as int)[0] == rows@[i as int]);
    rows[i].powerup_type
}

/// The type of a dropped power-up: a roll from 1 up to the total weight,
/// taken at random, walked down the table, so each type drops in
/// proportion to its weight.
pub fn random_powerup_type() -> (t: PowerupType)
    ensures
        exists|roll: int|
            1 <= roll <= total_drop_weight(powerup_table()) && t == drop_spec(powerup_table(), roll),
{
    proof {
        reveal_with_fuel(total_drop_weight, 8);
    }
    assert(total_drop_weight(powerup_table()) == 100);
    let roll = thread_random_below(100) + 1;
    powerup_with_roll(roll)
}

} // verus!
