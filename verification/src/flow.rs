//! The flow between screens: what follows a finished wave or a finished
//! dialogue, and which boss a wave table entry calls up.

use vstd::prelude::*;
use crate::boss::{BossType, boss_sprite};
use crate::content::{Content, boss_for_wave, table_boss};
use crate::menu::{DialogueCallback, DialogueContext, Game, GameState};
use crate::narrative::{
    announces_bonus, boss_id_name, check_triggers, deadbeef_flag, dialogue_is, NarrativeTrigger,
};
use crate::config::{bonus_score_threshold, GameConfig};
use crate::ship::Ship;
use crate::wave_director::{WaveDirector, WaveState, is_boss_wave_number, max_enemies_spec};

verus! {

/// The boss a content key names; Blowfish for a key that names none.
pub open spec fn boss_of_key(k: Seq<char>) -> BossType {
    if k == boss_sprite(BossType::Blowfish) {
        BossType::Blowfish
    } else if k == boss_sprite(BossType::Twofish) {
        BossType::Twofish
    } else if k == boss_sprite(BossType::RufusReverse) {
        BossType::RufusReverse
    } else if k == boss_sprite(BossType::MollyHashpass) {
        BossType::MollyHashpass
    } else if k == boss_sprite(BossType::CaptainDavey) {
        BossType::CaptainDavey
    } else if k == boss_sprite(BossType::Deadbeef) {
        BossType::Deadbeef
    } else {
        BossType::Blowfish
    }
}

/// The boss wave `n` calls up: the one its table entry names, Blowfish when
/// the entry names none or an unknown one.
pub open spec fn wave_boss_type(c: Content, n: nat) -> BossType {
    match table_boss(c, n) {
        Some(k) => boss_of_key(k@),
        None => BossType::Blowfish,
    }
}

proof fn lemma_boss_key_round_trip(b: BossType)
    ensures
        boss_of_key(boss_sprite(b)) == b,
{
    reveal_strlit("blowfish");
    reveal_strlit("twofish");
    reveal_strlit("rufus_reverse");
    reveal_strlit("molly_hashpass");
    reveal_strlit("captain_davey");
    reveal_strlit("deadbeef");
    assert("blowfish"@[0] == 'b' && "twofish"@[0] == 't' && "rufus_reverse"@[0] == 'r');
    assert("molly_hashpass"@[0] == 'm' && "captain_davey"@[0] == 'c' && "deadbeef"@[0] == 'd');
}

/// The boss the wave table calls up for `wave`.
pub fn boss_type_for_wave(c: &Content, wave: u32) -> (b: BossType)
    ensures
        b == wave_boss_type(*c, wave as nat),
{
    match boss_for_wave(c, wave) {
        Some(k) => match BossType::from_key(k.as_str()) {
            Some(b) => {
                proof {
                    lemma_boss_key_round_trip(b);
                }
                b
            },
            None => BossType::Blowfish,
        },
        None => BossType::Blowfish,
    }
}

fn copy_context(ctx: &DialogueContext) -> (r: DialogueContext)
    ensures
        r == *ctx,
{
    DialogueContext { dialogue_id: ctx.dialogue_id.clone(), on_complete: ctx.on_complete }
}

/// The director after `start_wave(n)`.
pub open spec fn director_started(n: u32) -> WaveDirector {
    WaveDirector {
        current_wave: n,
        wave_state: if is_boss_wave_number(n) {
            WaveState::BossIntro
        } else {
            WaveState::Spawning
        },
        max_enemies: max_enemies_spec(n),
        enemies_spawned: 0,
        current_boss: None,
        is_boss_wave: is_boss_wave_number(n),
    }
}

/// What follows a finished dialogue: back to play, a boss intro, the next
/// chapter (which opens a chapter and starts the next wave) or victory.
pub fn finish_dialogue(cb: DialogueCallback, game: &mut Game, director: &mut WaveDirector)
    requires
        cb == DialogueCallback::NextChapter ==> old(game).narrative.current_chapter < 255
            && old(director).current_wave < u32::MAX,
    ensures
        final(game).selected_menu_item == old(game).selected_menu_item,
        final(game).debug_hitbox_visible == old(game).debug_hitbox_visible,
        final(game).narrative.defeated_bosses == old(game).narrative.defeated_bosses,
        final(game).narrative.flags == old(game).narrative.flags,
        final(game).narrative.current_wave == old(game).narrative.current_wave,
        final(game).narrative.score_at_chapter_start == old(game).narrative.score_at_chapter_start,
        match cb {
            DialogueCallback::ResumeGame => final(game).state == GameState::Playing
                && final(game).narrative.current_chapter == old(game).narrative.current_chapter
                && *final(director) == *old(director),
            DialogueCallback::SpawnBoss(b) => final(game).state == GameState::BossIntro(b)
                && final(game).narrative.current_chapter == old(game).narrative.current_chapter
                && *final(director) == *old(director),
            DialogueCallback::NextChapter => final(game).state == GameState::Playing
                && final(game).narrative.current_chapter == old(game).narrative.current_chapter + 1
                && *final(director) == director_started((old(director).current_wave + 1) as u32),
            DialogueCallback::GameComplete => final(game).state == GameState::Victory
                && final(game).narrative.current_chapter == old(game).narrative.current_chapter
                && *final(director) == *old(director),
        },
{
    match cb {
        DialogueCallback::ResumeGame => {
            game.state = GameState::Playing;
        },
        DialogueCallback::SpawnBoss(b) => {
            game.state = GameState::BossIntro(b);
        },
        DialogueCallback::NextChapter => {
            game.state = GameState::Playing;
            game.narrative.current_chapter = game.narrative.current_chapter + 1;
            let next = director.current_wave + 1;
            director.start_wave(next);
        },
        DialogueCallback::GameComplete => {
            game.state = GameState::Victory;
        },
    }
}

/// What follows a wave that has just been completed. After a boss wave the
/// story records the defeat of the boss the table names and its defeat
/// dialogue is shown (and returned, to be loaded). After any other wave the
/// next wave starts, and a boss wave opens with its boss intro.
pub fn complete_wave(c: &Content, game: &mut Game, director: &mut WaveDirector) -> (d: Option<
    DialogueContext,
>)
    requires
        old(director).is_boss_wave ==> old(game).narrative.current_chapter < 255,
        !old(director).is_boss_wave ==> old(director).current_wave < u32::MAX,
    ensures
        final(game).selected_menu_item == old(game).selected_menu_item,
        final(game).debug_hitbox_visible == old(game).debug_hitbox_visible,
        old(director).is_boss_wave ==> {
            let b = wave_boss_type(*c, old(director).current_wave as nat);
            &&& *final(director) == *old(director)
            &&& d matches Some(ctx) && dialogue_is(
                ctx,
                "boss_defeat_"@ + boss_id_name(b),
                DialogueCallback::NextChapter,
            ) && final(game).state == GameState::Dialogue(ctx)
            &&& final(game).narrative.current_chapter == old(game).narrative.current_chapter + 1
            &&& final(game).narrative.defeated_bosses@ == if old(
                game,
            ).narrative.defeated_bosses@.contains(b) {
                old(game).narrative.defeated_bosses@
            } else {
                old(game).narrative.defeated_bosses@.push(b)
            }
            &&& final(game).narrative.flags@ == old(game).narrative.flags@
        },
        !old(director).is_boss_wave ==> {
            let n = (old(director).current_wave + 1) as u32;
            &&& d is None
            &&& *final(director) == director_started(n)
            &&& final(game).narrative == old(game).narrative
            &&& final(game).state == if is_boss_wave_number(n) {
                GameState::BossIntro(wave_boss_type(*c, n as nat))
            } else {
                old(game).state
            }
        },
{
    if director.is_boss_wave {
        let b = boss_type_for_wave(c, director.current_wave);
        let r = check_triggers(&mut game.narrative, NarrativeTrigger::BossDefeated(b));
        match r {
            Some(ctx) => {
                game.state = GameState::Dialogue(copy_context(&ctx));
                Some(ctx)
            },
            None => None,
        }
    } else {
        let next = director.current_wave + 1;
        director.start_wave(next);
        if director.is_boss_wave {
            game.state = GameState::BossIntro(boss_type_for_wave(c, next));
        }
        None
    }
}

/// The bonus boss check at the end of a frame: when a wave has just been
/// completed outside a boss fight and the score has reached the bonus
/// threshold, the story may announce the bonus boss (only once); its
/// dialogue is then shown and returned, to be loaded.
pub fn check_bonus_boss(
    game: &mut Game,
    director: &WaveDirector,
    score: i32,
    wave_just_completed: bool,
) -> (d: Option<DialogueContext>)
    ensures
        final(game).selected_menu_item == old(game).selected_menu_item,
        final(game).debug_hitbox_visible == old(game).debug_hitbox_visible,
        final(game).narrative.current_chapter == old(game).narrative.current_chapter,
        final(game).narrative.defeated_bosses@ == old(game).narrative.defeated_bosses@,
        final(game).narrative.current_wave == old(game).narrative.current_wave,
        final(game).narrative.score_at_chapter_start == old(game).narrative.score_at_chapter_start,
        ({
            let asked = score >= bonus_score_threshold() && !(director.wave_state
                == WaveState::BossIntro || director.wave_state == WaveState::BossFight)
                && wave_just_completed;
            &&& (d is Some) == (asked && announces_bonus(old(game).narrative, score))
            &&& d matches Some(ctx) ==> {
                &&& dialogue_is(ctx, "bonus_boss_deadbeef"@, DialogueCallback::SpawnBoss(BossType::Deadbeef))
                &&& final(game).state == GameState::Dialogue(ctx)
                &&& final(game).narrative.flags@.drop_last() == old(game).narrative.flags@
                &&& final(game).narrative.flags@.last()@ == deadbeef_flag()
            }
            &&& d is None ==> final(game).state == old(game).state && final(game).narrative.flags@
                == old(game).narrative.flags@
        }),
{
    if score >= 50000 && !director.is_boss_active() && wave_just_completed {
        match check_triggers(&mut game.narrative, NarrativeTrigger::ScoreThreshold(score)) {
            Some(ctx) => {
                game.state = GameState::Dialogue(copy_context(&ctx));
                Some(ctx)
            },
            None => None,
        }
    } else {
        None
    }
}

/// A new game: the ship is back in play with the starting lives and
/// pirates, and the score is zero (its shield is kept).
pub fn reset_game(ship: &mut Ship, pirate_count: &mut i32, game_score: &mut i32, lives: &mut i32)
    ensures
        !final(ship).gameover,
        final(ship).has_shield == old(ship).has_shield,
        *final(pirate_count) == 10,
        *final(game_score) == 0,
        *final(lives) == 3,
{
    let cfg = GameConfig::new();
    ship.gameover = false;
    *pirate_count = cfg.starting_pirate_count;
    *game_score = 0;
    *lives = cfg.starting_lives;
}

} // verus!
