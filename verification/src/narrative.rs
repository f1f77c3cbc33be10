//! Story triggers: which dialogue a game event starts and how it moves the
//! story along.

use vstd::prelude::*;
use crate::boss::BossType;
use crate::menu::{NarrativeProgress, DialogueContext, DialogueCallback};
use crate::config::bonus_score_threshold;
use crate::text::str_eq;
use crate::wave_director::is_boss_wave_number;

verus! {

/// Game events the story reacts to.
#[derive(Clone, Copy, Debug, PartialEq, Eq, Structural)]
pub enum NarrativeTrigger {
    GameStart,
    WaveCleared(u32),
    BossDefeated(BossType),
    ScoreThreshold(i32),
    AllBossesDefeated,
}

/// The boss each boss wave introduces: the first, second and third boss
/// waves bring Blowfish, Twofish and, last, Captain Davey.
pub open spec fn boss_for_boss_wave(wave: u32) -> Option<BossType> {
    if wave == 5 {
        Some(BossType::Blowfish)
    } else if wave == 10 {
        Some(BossType::Twofish)
    } else if wave == 15 {
        Some(BossType::CaptainDavey)
    } else {
        None
    }
}

/// The boss waves introduce their bosses one each: exactly the boss waves
/// introduce a boss, no boss twice, and the last boss wave brings the final
/// boss, Captain Davey, while the first brings Blowfish.
pub proof fn lemma_boss_waves_bring_distinct_bosses(w: u32, v: u32)
    ensures
        (boss_for_boss_wave(w) is Some) <==> is_boss_wave_number(w),
        boss_for_boss_wave(w) is Some && boss_for_boss_wave(w) == boss_for_boss_wave(v) ==> w == v,
        w == 15 ==> boss_for_boss_wave(w) == Some(BossType::CaptainDavey),
        w == 5 ==> boss_for_boss_wave(w) == Some(BossType::Blowfish),
        boss_for_boss_wave(w) != Some(BossType::Deadbeef),
{
}

/// Lowercase variant name of a boss, used in dialogue ids.
pub open spec fn boss_id_name(b: BossType) -> Seq<char> {
    match b {
        BossType::Blowfish => "blowfish"@,
        BossType::Twofish => "twofish"@,
        BossType::RufusReverse => "rufusreverse"@,
        BossType::MollyHashpass => "mollyhashpass"@,
        BossType::CaptainDavey => "captaindavey"@,
        BossType::Deadbeef => "deadbeef"@,
    }
}

/// The flag set once the bonus boss has been announced.
pub open spec fn deadbeef_flag() -> Seq<char> {
    "deadbeef_spawned"@
}

/// Whether a flag is set.
pub open spec fn has_flag(p: NarrativeProgress, f: Seq<char>) -> bool {
    exists|i: int| 0 <= i < p.flags@.len() && (#[trigger] p.flags@[i])@ == f
}

/// Whether a score of `score` makes the story announce the bonus boss: the
/// score reaches the bonus threshold, Deadbeef is undefeated and has not
/// been announced before.
pub open spec fn announces_bonus(p: NarrativeProgress, score: i32) -> bool {
    score >= bonus_score_threshold() && !p.defeated_bosses@.contains(BossType::Deadbeef)
        && !has_flag(p, deadbeef_flag())
}

/// The bonus boss is announced at most once: once a score threshold
/// announced it (recording its flag and changing no defeat), no later score
/// announces it again.
pub proof fn lemma_bonus_boss_announced_once(
    before: NarrativeProgress,
    after: NarrativeProgress,
    score: i32,
    later_score: i32,
)
    requires
        announces_bonus(before, score),
        after.defeated_bosses@ == before.defeated_bosses@,
        after.flags@.len() == before.flags@.len() + 1,
        after.flags@.drop_last() == before.flags@,
        after.flags@.last()@ == deadbeef_flag(),
    ensures
        !announces_bonus(after, later_score),
{
    let i = after.flags@.len() - 1;
    assert(0 <= i < after.flags@.len() && (after.flags@[i])@ == deadbeef_flag());
}

/// The defeated bosses never repeat: recording a defeat keeps the list free
/// of duplicates.
pub proof fn lemma_defeats_stay_distinct(defeated: Seq<BossType>, b: BossType)
    requires
        defeated.no_duplicates(),
    ensures
        (if defeated.contains(b) {
            defeated
        } else {
            defeated.push(b)
        }).no_duplicates(),
{
    if !defeated.contains(b) {
        let d = defeated.push(b);
        assert forall|i: int, j: int| 0 <= i < d.len() && 0 <= j < d.len() && i != j implies d[i]
            != d[j] by {
            if i < defeated.len() && j < defeated.len() {
            } else if i == defeated.len() {
                assert(defeated[j] == d[j]);
            } else {
                assert(defeated[i] == d[i]);
            }
        }
    }
}

/// A dialogue as the story asks for it: its id and what follows it.
pub open spec fn dialogue_is(d: DialogueContext, id: Seq<char>, cb: DialogueCallback) -> bool {
    d.dialogue_id@ == id && d.on_complete == cb
}

fn boss_id_str(b: BossType) -> (s: &'static str)
    ensures
        s@ == boss_id_name(b),
{
    match b {
        BossType::Blowfish => "blowfish",
        BossType::Twofish => "twofish",
        BossType::RufusReverse => "rufusreverse",
        BossType::MollyHashpass => "mollyhashpass",
        BossType::CaptainDavey => "captaindavey",
        BossType::Deadbeef => "deadbeef",
    }
}

fn make_context(prefix: &str, name: &str, cb: DialogueCallback) -> (d: DialogueContext)
    ensures
        d.dialogue_id@ == prefix@ + name@,
        d.on_complete == cb,
{
    let mut id = prefix.to_owned();
    let tail = crate::text::chars_of(name);
    let mut v = crate::text::chars_of(id.as_str());
    let ghost v0 = v@;
    let mut i: usize = 0;
    while i < tail.len()
        invariant
            i <= tail@.len(),
            v@ == v0 + tail@.take(i as int),
        decreases tail@.len() - i,
    {
        v.push(tail[i]);
        i = i + 1;
        assert(v@ =~= v0 + tail@.take(i as int));
    }
    assert(tail@.take(tail@.len() as int) =~= tail@);
    id = crate::text::string_from_chars(v.as_slice());
    DialogueContext { dialogue_id: id, on_complete: cb }
}

fn intro_dialogue() -> (d: DialogueContext)
    ensures
        dialogue_is(d, "intro"@, DialogueCallback::ResumeGame),
{
    DialogueContext { dialogue_id: "intro".to_owned(), on_complete: DialogueCallback::ResumeGame }
}

fn boss_intro_dialogue(boss: BossType) -> (d: DialogueContext)
    ensures
        dialogue_is(d, "boss_intro_"@ + boss_id_name(boss), DialogueCallback::SpawnBoss(boss)),
{
    make_context("boss_intro_", boss_id_str(boss), DialogueCallback::SpawnBoss(boss))
}

fn boss_defeat_dialogue(boss: BossType) -> (d: DialogueContext)
    ensures
        dialogue_is(d, "boss_defeat_"@ + boss_id_name(boss), DialogueCallback::NextChapter),
{
    make_context("boss_defeat_", boss_id_str(boss), DialogueCallback::NextChapter)
}

fn bonus_boss_dialogue() -> (d: DialogueContext)
    ensures
        dialogue_is(d, "bonus_boss_deadbeef"@, DialogueCallback::SpawnBoss(BossType::Deadbeef)),
{
    DialogueContext {
        dialogue_id: "bonus_boss_deadbeef".to_owned(),
        on_complete: DialogueCallback::SpawnBoss(BossType::Deadbeef),
    }
}

fn victory_dialogue() -> (d: DialogueContext)
    ensures
        dialogue_is(d, "victory"@, DialogueCallback::GameComplete),
{
    DialogueContext { dialogue_id: "victory".to_owned(), on_complete: DialogueCallback::GameComplete }
}

fn contains_boss(v: &Vec<BossType>, b: BossType) -> (r: bool)
    ensures
        r == v@.contains(b),
{
    let mut i: usize = 0;
    while i < v.len()
        invariant
            i <= v@.len(),
            forall|j: int| 0 <= j < i ==> v@[j] != b,
        decreases v@.len() - i,
    {
        if v[i] == b {
            assert(v@[i as int] == b);
            return true;
        }
        i = i + 1;
    }
    false
}

fn contains_flag(p: &NarrativeProgress, f: &str) -> (r: bool)
    ensures
        r == has_flag(*p, f@),
{
    let mut i: usize = 0;
    while i < p.flags.len()
        invariant
            i <= p.flags@.len(),
            forall|j: int| 0 <= j < i ==> (#[trigger] p.flags@[j])@ != f@,
        decreases p.flags@.len() - i,
    {
        if str_eq(p.flags[i].as_str(), f) {
            return true;
        }
        i = i + 1;
    }
    false
}

fn check_boss_trigger(wave: u32, progress: &NarrativeProgress) -> (r: Option<DialogueContext>)
    ensures
        match boss_for_boss_wave(wave) {
            Some(b) => if progress.defeated_bosses@.contains(b) {
                r is None
            } else {
                r matches Some(d) && dialogue_is(
                    d,
                    "boss_intro_"@ + boss_id_name(b),
                    DialogueCallback::SpawnBoss(b),
                )
            },
            None => r is None,
        },
{
    let boss = if wave == 5 {
        BossType::Blowfish
    } else if wave == 10 {
        BossType::Twofish
    } else if wave == 15 {
        BossType::CaptainDavey
    } else {
        return None;
    };
    if !contains_boss(&progress.defeated_bosses, boss) {
        Some(boss_intro_dialogue(boss))
    } else {
        None
    }
}

/// Reacts to a game event, returning the dialogue it starts, if any.
///
/// - `GameStart` plays the intro on a fresh story only.
/// - `WaveCleared(w)` records the wave and, on a boss wave whose boss is
///   still undefeated, introduces that boss.
/// - `BossDefeated(b)` records the defeat, opens the next chapter and plays
///   the defeat dialogue.
/// - `ScoreThreshold(s)` announces the bonus boss once, when the score
///   reaches the bonus threshold and Deadbeef is still undefeated.
/// - `AllBossesDefeated` plays the victory dialogue once five bosses fell.
pub fn check_triggers(progress: &mut NarrativeProgress, trigger: NarrativeTrigger) -> (r: Option<
    DialogueContext,
>)
    requires
        trigger matches NarrativeTrigger::BossDefeated(_) ==> old(progress).current_chapter < 255,
    ensures
        final(progress).score_at_chapter_start == old(progress).score_at_chapter_start,
        match trigger {
            NarrativeTrigger::GameStart => {
                &&& *final(progress) == *old(progress)
                &&& if old(progress).current_chapter == 0 && old(progress).flags@.len() == 0 {
                    r matches Some(d) && dialogue_is(d, "intro"@, DialogueCallback::ResumeGame)
                } else {
                    r is None
                }
            },
            NarrativeTrigger::WaveCleared(w) => {
                &&& final(progress).current_wave == w
                &&& final(progress).current_chapter == old(progress).current_chapter
                &&& final(progress).defeated_bosses@ == old(progress).defeated_bosses@
                &&& final(progress).flags@ == old(progress).flags@
                &&& match boss_for_boss_wave(w) {
                    Some(b) => if old(progress).defeated_bosses@.contains(b) {
                        r is None
                    } else {
                        r matches Some(d) && dialogue_is(
                            d,
                            "boss_intro_"@ + boss_id_name(b),
                            DialogueCallback::SpawnBoss(b),
                        )
                    },
                    None => r is None,
                }
            },
            NarrativeTrigger::BossDefeated(b) => {
                &&& final(progress).current_chapter == old(progress).current_chapter + 1
                &&& final(progress).defeated_bosses@ == if old(progress).defeated_bosses@.contains(
                    b,
                ) {
                    old(progress).defeated_bosses@
                } else {
                    old(progress).defeated_bosses@.push(b)
                }
                &&& final(progress).flags@ == old(progress).flags@
                &&& final(progress).current_wave == old(progress).current_wave
                &&& r matches Some(d) && dialogue_is(
                    d,
                    "boss_defeat_"@ + boss_id_name(b),
                    DialogueCallback::NextChapter,
                )
            },
            NarrativeTrigger::ScoreThreshold(score) => {
                &&& final(progress).current_chapter == old(progress).current_chapter
                &&& final(progress).defeated_bosses@ == old(progress).defeated_bosses@
                &&& final(progress).current_wave == old(progress).current_wave
                &&& if announces_bonus(*old(progress), score) {
                    &&& r matches Some(d) && dialogue_is(
                        d,
                        "bonus_boss_deadbeef"@,
                        DialogueCallback::SpawnBoss(BossType::Deadbeef),
                    )
                    &&& final(progress).flags@.len() == old(progress).flags@.len() + 1
                    &&& final(progress).flags@.drop_last() == old(progress).flags@
                    &&& final(progress).flags@.last()@ == deadbeef_flag()
                } else {
                    r is None && final(progress).flags@ == old(progress).flags@
                }
            },
            NarrativeTrigger::AllBossesDefeated => {
                &&& *final(progress) == *old(progress)
                &&& if old(progress).defeated_bosses@.len() >= 5 {
                    r matches Some(d) && dialogue_is(d, "victory"@, DialogueCallback::GameComplete)
                } else {
                    r is None
                }
            },
        },
{
    match trigger {
        NarrativeTrigger::GameStart => {
            if progress.current_chapter == 0 && progress.flags.len() == 0 {
                Some(intro_dialogue())
            } else {
                None
            }
        },
        NarrativeTrigger::WaveCleared(wave) => {
            progress.current_wave = wave;
            check_boss_trigger(wave, progress)
        },
        NarrativeTrigger::BossDefeated(boss_type) => {
            if !contains_boss(&progress.defeated_bosses, boss_type) {
                progress.defeated_bosses.push(boss_type);
            }
            progress.current_chapter = progress.current_chapter + 1;
            Some(boss_defeat_dialogue(boss_type))
        },
        NarrativeTrigger::ScoreThreshold(score) => {
            if score >= 50000 && !contains_boss(&progress.defeated_bosses, BossType::Deadbeef)
                && !contains_flag(progress, "deadbeef_spawned") {
                progress.flags.push("deadbeef_spawned".to_owned());
                assert(progress.flags@.drop_last() =~= old(progress).flags@);
                Some(bonus_boss_dialogue())
            } else {
                None
            }
        },
        NarrativeTrigger::AllBossesDefeated => {
            if progress.defeated_bosses.len() >= 5 {
                Some(victory_dialogue())
            } else {
                None
            }
        },
    }
}

/// Title of a chapter.
pub open spec fn chapter_name(chapter: u8) -> Seq<char> {
    match chapter {
        0 => "Prologue: Portscan Protocol"@,
        1 => "Chapter 1: Blowfish's Burst"@,
        2 => "Chapter 2: Twofish's Twin Terrors"@,
        3 => "Chapter 3: Rufus Reverse's Ruse"@,
        4 => "Chapter 4: Molly Hashpass's Healing"@,
        5 => "Chapter 5: Captain Davey's Portscan"@,
        6 => "Epilogue: Deadbeef's Kitchen"@,
        _ => "Unknown Chapter"@,
    }
}

/// Title of a chapter; chapters past the epilogue are unknown.
pub fn get_chapter_name(chapter: u8) -> (s: &'static str)
    ensures
        s@ == chapter_name(chapter),
{
    match chapter {
        0 => "Prologue: Portscan Protocol",
        1 => "Chapter 1: Blowfish's Burst",
        2 => "Chapter 2: Twofish's Twin Terrors",
        3 => "Chapter 3: Rufus Reverse's Ruse",
        4 => "Chapter 4: Molly Hashpass's Healing",
        5 => "Chapter 5: Captain Davey's Portscan",
        6 => "Epilogue: Deadbeef's Kitchen",
        _ => "Unknown Chapter",
    }
}

} // verus!
