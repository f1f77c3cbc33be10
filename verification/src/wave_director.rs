//! The wave lifecycle: which waves are boss waves, how many enemies a wave
//! sends, and how a wave moves from spawning to complete.

use vstd::prelude::*;
use crate::boss::{Boss, BossType, boss_max_health};
use crate::enemy::{Enemy, select_enemy_type, select_spec, spawn_weights_spec, total_weight};

verus! {

/// Where a wave stands.
#[derive(Clone, Copy, Debug, PartialEq, Eq, Structural)]
pub enum WaveState {
    Inactive,
    Spawning,
    Active,
    Clearing,
    Complete,
    BossIntro,
    BossFight,
    BossDefeated,
}

/// Waves 5, 10 and 15 are boss waves.
pub open spec fn is_boss_wave_number(wave: u32) -> bool {
    wave == 5 || wave == 10 || wave == 15
}

/// How many enemies a regular wave sends; boss waves send none, and waves
/// past the table send 24.
pub open spec fn max_enemies_spec(wave: u32) -> u32 {
    if wave == 1 {
        6
    } else if wave == 2 {
        8
    } else if wave == 3 {
        10
    } else if wave == 4 {
        12
    } else if wave == 5 {
        0
    } else if wave == 6 {
        14
    } else if wave == 7 {
        16
    } else if wave == 8 {
        14
    } else if wave == 9 {
        16
    } else if wave == 10 {
        0
    } else if wave == 11 {
        18
    } else if wave == 12 {
        20
    } else if wave == 13 {
        22
    } else if wave == 14 {
        24
    } else if wave == 15 {
        0
    } else {
        24
    }
}

/// How many enemies the waves send, wave against wave: a boss wave sends
/// none and every other wave some. The first wave sends six; each regular
/// wave sends two more than the regular wave before it, except that waves
/// eight and nine repeat six and seven; past the last boss every wave sends
/// what wave fourteen does, the most of any wave.
pub proof fn lemma_wave_sizes(w: u32, v: u32)
    ensures
        is_boss_wave_number(w) <==> max_enemies_spec(w) == 0,
        max_enemies_spec(1) == 6,
        (w == 2 || w == 3 || w == 4 || w == 7 || w == 12 || w == 13 || w == 14) ==> max_enemies_spec(
            w,
        ) == max_enemies_spec((w - 1) as u32) + 2,
        (w == 6 || w == 11) ==> max_enemies_spec(w) == max_enemies_spec((w - 2) as u32) + 2,
        (w == 8 || w == 9) ==> max_enemies_spec(w) == max_enemies_spec((w - 2) as u32),
        w > 15 ==> max_enemies_spec(w) == max_enemies_spec(14),
        max_enemies_spec(v) <= max_enemies_spec(14),
{
}

/// Order of the states of a regular wave.
pub open spec fn regular_rank(s: WaveState) -> int {
    match s {
        WaveState::Spawning => 1,
        WaveState::Active => 2,
        WaveState::Clearing => 3,
        WaveState::Complete => 4,
        _ => 0,
    }
}

/// The integer side of the wave director.
pub struct WaveDirector {
    pub current_wave: u32,
    pub wave_state: WaveState,
    pub max_enemies: u32,
    pub enemies_spawned: u32,
    pub current_boss: Option<Boss>,
    pub is_boss_wave: bool,
}

impl WaveDirector {
    /// No more enemies spawned than the wave sends.
    pub open spec fn wf(&self) -> bool {
        self.enemies_spawned <= self.max_enemies
    }

    /// A director that has not started any wave.
    pub fn new() -> (d: WaveDirector)
        ensures
            d.current_wave == 0,
            d.wave_state == WaveState::Inactive,
            d.max_enemies == 0,
            d.enemies_spawned == 0,
            d.current_boss is None,
            !d.is_boss_wave,
            d.wf(),
    {
        WaveDirector {
            current_wave: 0,
            wave_state: WaveState::Inactive,
            max_enemies: 0,
            enemies_spawned: 0,
            current_boss: None,
            is_boss_wave: false,
        }
    }

    /// Starts `wave`: a boss wave waits for its boss intro, any other wave
    /// starts spawning.
    pub fn start_wave(&mut self, wave: u32)
        ensures
            final(self).current_wave == wave,
            final(self).is_boss_wave == is_boss_wave_number(wave),
            final(self).wave_state == if is_boss_wave_number(wave) {
                WaveState::BossIntro
            } else {
                WaveState::Spawning
            },
            final(self).max_enemies == max_enemies_spec(wave),
            final(self).enemies_spawned == 0,
            final(self).current_boss is None,
            final(self).wf(),
    {
        self.current_wave = wave;
        self.is_boss_wave = wave == 5 || wave == 10 || wave == 15;
        self.wave_state = if self.is_boss_wave {
            WaveState::BossIntro
        } else {
            WaveState::Spawning
        };
        self.max_enemies = self.get_max_enemies_for_wave(wave);
        self.enemies_spawned = 0;
        self.current_boss = None;
    }

    /// How many enemies `wave` sends.
    pub fn get_max_enemies_for_wave(&self, wave: u32) -> (n: u32)
        ensures
            n == max_enemies_spec(wave),
    {
        match wave {
            1 => 6,
            2 => 8,
            3 => 10,
            4 => 12,
            5 => 0,
            6 => 14,
            7 => 16,
            8 => 14,
            9 => 16,
            10 => 0,
            11 => 18,
            12 => 20,
            13 => 22,
            14 => 24,
            15 => 0,
            _ => 24,
        }
    }

    /// One frame of a regular wave. While spawning, an enemy is spawned
    /// whenever `spawn_ready` (the spawn timer ran out) until the wave's
    /// count is reached, then the wave turns active. An active wave starts
    /// clearing once `duration_elapsed` and nothing is alive; a clearing
    /// wave completes once nothing is alive. Returns the enemy to spawn.
    pub fn update_regular_wave(
        &mut self,
        spawn_ready: bool,
        duration_elapsed: bool,
        alive_enemies: u32,
        alive_pirates: u32,
    ) -> (spawn: Option<Enemy>)
        ensures
            old(self).wf() ==> final(self).wf(),
            final(self).current_wave == old(self).current_wave,
            final(self).max_enemies == old(self).max_enemies,
            final(self).is_boss_wave == old(self).is_boss_wave,
            final(self).current_boss == old(self).current_boss,
            final(self).enemies_spawned == old(self).enemies_spawned + if spawn is Some {
                1int
            } else {
                0
            },
            spawn matches Some(e) ==> {
                &&& old(self).wave_state == WaveState::Spawning
                &&& spawn_ready
                &&& old(self).enemies_spawned < old(self).max_enemies
                &&& e == Enemy::new_spec(e.enemy_type, old(self).current_wave)
                &&& exists|roll: int|
                    1 <= roll <= total_weight(spawn_weights_spec(old(self).current_wave))
                        && e.enemy_type == select_spec(
                        spawn_weights_spec(old(self).current_wave),
                        roll,
                    )
            },
            final(self).wave_state == match old(self).wave_state {
                WaveState::Spawning => if old(self).enemies_spawned < old(self).max_enemies {
                    WaveState::Spawning
                } else {
                    WaveState::Active
                },
                WaveState::Active => if duration_elapsed && alive_enemies == 0 && alive_pirates
                    == 0 {
                    WaveState::Clearing
                } else {
                    WaveState::Active
                },
                WaveState::Clearing => if alive_enemies == 0 && alive_pirates == 0 {
                    WaveState::Complete
                } else {
                    WaveState::Clearing
                },
                other => other,
            },
            spawn is None && old(self).wave_state == WaveState::Spawning && old(
                self,
            ).enemies_spawned < old(self).max_enemies ==> !spawn_ready,
            regular_rank(old(self).wave_state) > 0 ==> regular_rank(final(self).wave_state)
                >= regular_rank(old(self).wave_state),
            final(self).wave_state == WaveState::Complete && old(self).wave_state
                != WaveState::Complete ==> alive_enemies == 0 && alive_pirates == 0,
    {
        match self.wave_state {
            WaveState::Spawning => {
                if self.enemies_spawned < self.max_enemies {
                    if spawn_ready {
                        let t = select_enemy_type(self.current_wave);
                        let e = Enemy::new(t, self.current_wave);
                        self.enemies_spawned = self.enemies_spawned + 1;
                        return Some(e);
                    }
                } else {
                    self.wave_state = WaveState::Active;
                }
                None
            },
            WaveState::Active => {
                if duration_elapsed && alive_enemies == 0 && alive_pirates == 0 {
                    self.wave_state = WaveState::Clearing;
                }
                None
            },
            WaveState::Clearing => {
                if alive_enemies == 0 && alive_pirates == 0 {
                    self.wave_state = WaveState::Complete;
                }
                None
            },
            _ => None,
        }
    }

    /// The boss of this wave arrives: the fight begins with a fresh boss.
    pub fn engage_boss(&mut self, boss_type: BossType)
        ensures
            final(self).wave_state == WaveState::BossFight,
            final(self).current_boss matches Some(b) && b == Boss::new_spec(boss_type),
            final(self).current_wave == old(self).current_wave,
            final(self).is_boss_wave == old(self).is_boss_wave,
            final(self).max_enemies == old(self).max_enemies,
            final(self).enemies_spawned == old(self).enemies_spawned,
    {
        self.current_boss = Some(Boss::new(boss_type));
        self.wave_state = WaveState::BossFight;
    }

    /// A player shot of `damage` reaches the boss during the fight. Returns
    /// the score it earns: 1000 when it defeats the boss, which ends the
    /// wave as `BossDefeated`; 0 otherwise.
    pub fn hit_boss(&mut self, damage: i32) -> (score: i32)
        requires
            old(self).current_boss matches Some(b) ==> i32::MIN <= b.health - damage <= i32::MAX,
        ensures
            score == 0 || score == 1000,
            score == 1000 ==> final(self).wave_state == WaveState::BossDefeated,
            score == 0 ==> final(self).wave_state == old(self).wave_state,
            old(self).current_boss is None ==> score == 0 && *final(self) == *old(self),
            final(self).current_boss is Some == old(self).current_boss is Some,
            final(self).current_wave == old(self).current_wave,
            final(self).is_boss_wave == old(self).is_boss_wave,
            final(self).max_enemies == old(self).max_enemies,
            final(self).enemies_spawned == old(self).enemies_spawned,
            old(self).current_boss matches Some(b) ==> (score == 1000) == (!b.invulnerable
                && !b.entry_anim && b.health - damage <= 0),
            old(self).current_boss matches Some(b) ==> final(self).current_boss == Some(
                b.after_hit(damage as int),
            ) && (score == 1000) == b.hit_kills(damage as int),
    {
        match &mut self.current_boss {
            Some(b) => {
                if b.take_damage(damage) {
                    self.wave_state = WaveState::BossDefeated;
                    1000
                } else {
                    0
                }
            },
            None => 0,
        }
    }

    /// A dead boss ends the fight.
    pub fn check_boss_dead(&mut self)
        ensures
            (old(self).current_boss matches Some(b) && b.is_dead) ==> final(self).wave_state
                == WaveState::BossDefeated,
            !(old(self).current_boss matches Some(b) && b.is_dead) ==> *final(self) == *old(
                self,
            ),
            final(self).current_boss == old(self).current_boss,
            final(self).current_wave == old(self).current_wave,
            final(self).is_boss_wave == old(self).is_boss_wave,
            final(self).max_enemies == old(self).max_enemies,
            final(self).enemies_spawned == old(self).enemies_spawned,
    {
        let dead = match &self.current_boss {
            Some(b) => b.is_dead,
            None => false,
        };
        if dead {
            self.wave_state = WaveState::BossDefeated;
        }
    }

    /// Whether the wave is over (regular or boss).
    pub fn is_wave_complete(&self) -> (r: bool)
        ensures
            r == (self.wave_state == WaveState::Complete || self.wave_state
                == WaveState::BossDefeated),
    {
        match self.wave_state {
            WaveState::Complete | WaveState::BossDefeated => true,
            _ => false,
        }
    }

    /// Whether a boss is arriving or being fought.
    pub fn is_boss_active(&self) -> (r: bool)
        ensures
            r == (self.wave_state == WaveState::BossIntro || self.wave_state
                == WaveState::BossFight),
    {
        match self.wave_state {
            WaveState::BossIntro | WaveState::BossFight => true,
            _ => false,
        }
    }

    /// The boss being fought, if any.
    pub fn get_current_boss(&self) -> (r: Option<&Boss>)
        ensures
            r == match self.current_boss {
                Some(b) => Some(&b),
                None => None::<&Boss>,
            },
    {
        self.current_boss.as_ref()
    }

    /// The boss being fought, if any, to change it.
    pub fn get_current_boss_mut(&mut self) -> (r: Option<&mut Boss>)
        ensures
            old(self).current_boss is None ==> r is None && *final(self) == *old(self),
            old(self).current_boss matches Some(b) ==> r matches Some(rb) && *rb == b
                && final(self).current_boss == Some(*final(rb)),
    {
        self.current_boss.as_mut()
    }
}

impl Boss {
    /// A fresh boss, as `Boss::new` builds it.
    pub open spec fn new_spec(boss_type: BossType) -> Boss {
        Boss {
            boss_type,
            health: boss_max_health(boss_type),
            max_health: boss_max_health(boss_type),
            phase: crate::boss::BossPhase::Phase1,
            is_dead: false,
            invulnerable: false,
            invuln_timer_ms: 0,
            entry_anim: true,
            reverse_zone: 0,
            revive_signal: false,
            spawn_minions_signal: false,
        }
    }
}

} // verus!
