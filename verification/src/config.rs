//! Game balance constants the rules depend on, and the power-up table.

use vstd::prelude::*;

verus! {

/// Score at which the bonus boss is announced.
pub open spec fn bonus_score_threshold() -> i32 {
    50000
}

/// The whole-number settings of the game.
pub struct GameConfig {
    pub pirate_spawn_chance: u32,
    pub pirate_max_count: i32,
    pub starting_lives: i32,
    pub starting_pirate_count: i32,
    pub waves_per_chapter: u32,
    pub boss_waves: Vec<u32>,
    pub bonus_score_threshold: i32,
}

impl GameConfig {
    /// The shipped settings: three lives, ten pirates, boss waves 5, 10 and
    /// 15, bonus boss at 50000 points.
    pub fn new() -> (c: GameConfig)
        ensures
            c.pirate_spawn_chance == 25,
            c.pirate_max_count == 10,
            c.starting_lives == 3,
            c.starting_pirate_count == 10,
            c.waves_per_chapter == 3,
            c.boss_waves@ == seq![5u32, 10, 15],
            c.bonus_score_threshold == bonus_score_threshold(),
    {
        let boss_waves = vec![5u32, 10, 15];
        assert(boss_waves@ =~= seq![5u32, 10, 15]);
        GameConfig {
            pirate_spawn_chance: 25,
            pirate_max_count: 10,
            starting_lives: 3,
            starting_pirate_count: 10,
            waves_per_chapter: 3,
            boss_waves,
            bonus_score_threshold: 50000,
        }
    }
}

/// The kinds of power-up.
#[derive(Clone, Copy, Debug, PartialEq, Eq, Hash, Structural)]
pub enum PowerupType {
    RapidFire,
    SpreadShot,
    Pierce,
    Shield,
    Bomb,
    Life,
    Score,
}

/// Sprite name of a power-up.
pub open spec fn powerup_sprite(t: PowerupType) -> Seq<char> {
    match t {
        PowerupType::RapidFire => "powerup_rapid_fire"@,
        PowerupType::SpreadShot => "powerup_spread_shot"@,
        PowerupType::Pierce => "powerup_pierce"@,
        PowerupType::Shield => "powerup_shield"@,
        PowerupType::Bomb => "powerup_bomb"@,
        PowerupType::Life => "powerup_life"@,
        PowerupType::Score => "powerup_score"@,
    }
}

impl PowerupType {
    pub fn sprite_name(&self) -> (s: &'static str)
        ensures
            s@ == powerup_sprite(*self),
    {
        match self {
            PowerupType::RapidFire => "powerup_rapid_fire",
            PowerupType::SpreadShot => "powerup_spread_shot",
            PowerupType::Pierce => "powerup_pierce",
            PowerupType::Shield => "powerup_shield",
            PowerupType::Bomb => "powerup_bomb",
            PowerupType::Life => "powerup_life",
            PowerupType::Score => "powerup_score",
        }
    }
}

/// One row of the power-up table: how long the effect lasts (whole seconds;
/// 0 for instant effects) and its drop weight.
#[derive(Clone, Copy, Debug, PartialEq, Eq, Structural)]
pub struct PowerupConfig {
    pub powerup_type: PowerupType,
    pub duration: u32,
    pub weight: u32,
}

/// The power-up table.
pub open spec fn powerup_table() -> Seq<PowerupConfig> {
    seq![
        PowerupConfig { powerup_type: PowerupType::RapidFire, duration: 10, weight: 25 },
        PowerupConfig { powerup_type: PowerupType::SpreadShot, duration: 10, weight: 20 },
        PowerupConfig { powerup_type: PowerupType::Pierce, duration: 10, weight: 15 },
        PowerupConfig { powerup_type: PowerupType::Shield, duration: 0, weight: 15 },
        PowerupConfig { powerup_type: PowerupType::Bomb, duration: 0, weight: 10 },
        PowerupConfig { powerup_type: PowerupType::Life, duration: 0, weight: 10 },
        PowerupConfig { powerup_type: PowerupType::Score, duration: 0, weight: 5 },
    ]
}

/// The power-up table, one row per type.
pub fn powerup_config() -> (t: Vec<PowerupConfig>)
    ensures
        t@ == powerup_table(),
{
    let t = vec![
        PowerupConfig { powerup_type: PowerupType::RapidFire, duration: 10, weight: 25 },
        PowerupConfig { powerup_type: PowerupType::SpreadShot, duration: 10, weight: 20 },
        PowerupConfig { powerup_type: PowerupType::Pierce, duration: 10, weight: 15 },
        PowerupConfig { powerup_type: PowerupType::Shield, duration: 0, weight: 15 },
        PowerupConfig { powerup_type: PowerupType::Bomb, duration: 0, weight: 10 },
        PowerupConfig { powerup_type: PowerupType::Life, duration: 0, weight: 10 },
        PowerupConfig { powerup_type: PowerupType::Score, duration: 0, weight: 5 },
    ];
    assert(t@ =~= powerup_table());
    t
}

} // verus!
