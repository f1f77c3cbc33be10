//! Save games: what a save records, when saving is refused, and how a save
//! is restored.

use vstd::prelude::*;
use crate::menu::{Game, NarrativeProgress};
use crate::powerup::PowerUpManager;
use crate::ship::Ship;
use crate::wave_director::{WaveDirector, WaveState, is_boss_wave_number};

verus! {

/// The wave part of a save.
pub struct WaveStateSave {
    pub current_wave: u32,
    pub wave_state: WaveState,
    pub enemies_spawned: u32,
    pub powerup_has_shield: bool,
}

/// The rules' part of a save file.
pub struct GameSave {
    pub score: i32,
    pub lives: i32,
    pub current_wave: u32,
    pub wave_state_save: WaveStateSave,
    pub ship_has_shield: bool,
    pub narrative: NarrativeProgress,
}

/// Why a save was refused.
#[derive(Clone, Copy, Debug, PartialEq, Eq, Structural)]
pub enum SaveError {
    /// Saving is not allowed while a boss is being fought.
    DuringBossFight,
}

/// The save `save_game` builds from these values.
pub open spec fn saved(
    score: i32,
    lives: i32,
    current_wave: u32,
    wave_state: WaveState,
    ship_has_shield: bool,
    narrative: NarrativeProgress,
    enemies_spawned: u32,
    powerup_has_shield: bool,
) -> GameSave {
    GameSave {
        score,
        lives,
        current_wave,
        wave_state_save: WaveStateSave {
            current_wave,
            wave_state,
            enemies_spawned,
            powerup_has_shield,
        },
        ship_has_shield,
        narrative,
    }
}

/// Builds the save of the current game; refused during a boss fight.
pub fn save_game(
    score: i32,
    lives: i32,
    current_wave: u32,
    wave_state: WaveState,
    ship_has_shield: bool,
    narrative: NarrativeProgress,
    enemies_spawned: u32,
    powerup_has_shield: bool,
) -> (r: Result<GameSave, SaveError>)
    ensures
        wave_state == WaveState::BossFight <==> r is Err,
        r matches Err(e) ==> e == SaveError::DuringBossFight,
        r matches Ok(s) ==> s == saved(
            score,
            lives,
            current_wave,
            wave_state,
            ship_has_shield,
            narrative,
            enemies_spawned,
            powerup_has_shield,
        ),
{
    if let WaveState::BossFight = wave_state {
        return Err(SaveError::DuringBossFight);
    }
    Ok(GameSave {
        score,
        lives,
        current_wave,
        wave_state_save: WaveStateSave {
            current_wave,
            wave_state,
            enemies_spawned,
            powerup_has_shield,
        },
        ship_has_shield,
        narrative,
    })
}

/// Whether a restored wave is a boss wave: a save taken during a boss
/// intro is one; otherwise the wave number decides.
pub open spec fn restored_boss_wave(w: WaveStateSave) -> bool {
    w.wave_state == WaveState::BossIntro || is_boss_wave_number(w.current_wave)
}

/// Restores a save into the running game.
pub fn apply_save(
    save: GameSave,
    ship: &mut Ship,
    wave_director: &mut WaveDirector,
    game: &mut Game,
    powerups: &mut PowerUpManager,
    score: &mut i32,
    lives: &mut i32,
)
    ensures
        *final(score) == save.score,
        *final(lives) == save.lives,
        final(ship).has_shield == save.ship_has_shield,
        final(ship).gameover == old(ship).gameover,
        final(game).narrative == save.narrative,
        final(game).state == old(game).state,
        final(game).selected_menu_item == old(game).selected_menu_item,
        final(game).debug_hitbox_visible == old(game).debug_hitbox_visible,
        final(wave_director).current_wave == save.wave_state_save.current_wave,
        final(wave_director).wave_state == save.wave_state_save.wave_state,
        final(wave_director).enemies_spawned == save.wave_state_save.enemies_spawned,
        final(wave_director).is_boss_wave == restored_boss_wave(save.wave_state_save),
        final(wave_director).max_enemies == old(wave_director).max_enemies,
        final(wave_director).current_boss == old(wave_director).current_boss,
        final(powerups).has_shield == save.wave_state_save.powerup_has_shield,
{
    *score = save.score;
    *lives = save.lives;
    ship.has_shield = save.ship_has_shield;
    game.narrative = save.narrative;
    let w = save.wave_state_save;
    wave_director.current_wave = w.current_wave;
    wave_director.wave_state = w.wave_state;
    wave_director.enemies_spawned = w.enemies_spawned;
    powerups.has_shield = w.powerup_has_shield;
    wave_director.is_boss_wave = if let WaveState::BossIntro = w.wave_state {
        true
    } else {
        w.current_wave == 5 || w.current_wave == 10 || w.current_wave == 15
    };
}

/// Saving and restoring gives the game back: the save of a director
/// outside a boss fight restores its wave, wave state, spawn count and
/// boss-wave flag (for a director whose flag agrees with its wave, as
/// `start_wave` leaves it), along with the score, lives, shields and story.
pub proof fn lemma_save_restore_round_trip(
    d: WaveDirector,
    score: i32,
    lives: i32,
    ship_has_shield: bool,
    narrative: NarrativeProgress,
    powerup_has_shield: bool,
)
    requires
        d.wave_state != WaveState::BossFight,
        d.is_boss_wave == (d.wave_state == WaveState::BossIntro || is_boss_wave_number(
            d.current_wave,
        )),
    ensures
        ({
            let s = saved(
                score,
                lives,
                d.current_wave,
                d.wave_state,
                ship_has_shield,
                narrative,
                d.enemies_spawned,
                powerup_has_shield,
            );
            &&& s.score == score
            &&& s.lives == lives
            &&& s.ship_has_shield == ship_has_shield
            &&& s.narrative == narrative
            &&& s.wave_state_save.current_wave == d.current_wave
            &&& s.wave_state_save.wave_state == d.wave_state
            &&& s.wave_state_save.enemies_spawned == d.enemies_spawned
            &&& s.wave_state_save.powerup_has_shield == powerup_has_shield
            &&& restored_boss_wave(s.wave_state_save) == d.is_boss_wave
        }),
{
}

} // verus!
