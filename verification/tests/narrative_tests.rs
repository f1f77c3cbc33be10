use rusty_ship::boss::BossType;
use rusty_ship::menu::{DialogueCallback, NarrativeProgress};
use rusty_ship::narrative::{check_triggers, get_chapter_name, NarrativeTrigger};

#[test]
fn intro_plays_only_on_a_fresh_story() {
    let mut p = NarrativeProgress::new();
    let d = check_triggers(&mut p, NarrativeTrigger::GameStart).unwrap();
    assert_eq!(d.dialogue_id, "intro");
    assert_eq!(d.on_complete, DialogueCallback::ResumeGame);
    p.current_chapter = 1;
    assert!(check_triggers(&mut p, NarrativeTrigger::GameStart).is_none());
}

#[test]
fn boss_waves_introduce_their_boss_until_it_is_defeated() {
    let mut p = NarrativeProgress::new();
    let d = check_triggers(&mut p, NarrativeTrigger::WaveCleared(5)).unwrap();
    assert_eq!(d.dialogue_id, "boss_intro_blowfish");
    assert_eq!(d.on_complete, DialogueCallback::SpawnBoss(BossType::Blowfish));
    assert_eq!(p.current_wave, 5);
    let d = check_triggers(&mut p, NarrativeTrigger::WaveCleared(15)).unwrap();
    assert_eq!(d.dialogue_id, "boss_intro_captaindavey");
    assert_eq!(d.on_complete, DialogueCallback::SpawnBoss(BossType::CaptainDavey));
    assert_eq!(p.current_wave, 15);
    assert!(check_triggers(&mut p, NarrativeTrigger::WaveCleared(4)).is_none());
    assert_eq!(p.current_wave, 4);
    check_triggers(&mut p, NarrativeTrigger::BossDefeated(BossType::Blowfish));
    assert!(check_triggers(&mut p, NarrativeTrigger::WaveCleared(5)).is_none());
    let d = check_triggers(&mut p, NarrativeTrigger::WaveCleared(10)).unwrap();
    assert_eq!(d.dialogue_id, "boss_intro_twofish");
}

#[test]
fn each_defeat_opens_the_next_chapter_and_is_recorded_once() {
    let mut p = NarrativeProgress::new();
    let d = check_triggers(&mut p, NarrativeTrigger::BossDefeated(BossType::Twofish)).unwrap();
    assert_eq!(d.dialogue_id, "boss_defeat_twofish");
    assert_eq!(d.on_complete, DialogueCallback::NextChapter);
    assert_eq!(p.current_chapter, 1);
    check_triggers(&mut p, NarrativeTrigger::BossDefeated(BossType::Twofish));
    assert_eq!(p.current_chapter, 2);
    assert_eq!(p.defeated_bosses, vec![BossType::Twofish]);
}

#[test]
fn bonus_boss_is_announced_once() {
    let mut p = NarrativeProgress::new();
    assert!(check_triggers(&mut p, NarrativeTrigger::ScoreThreshold(49_999)).is_none());
    let d = check_triggers(&mut p, NarrativeTrigger::ScoreThreshold(50_000)).unwrap();
    assert_eq!(d.dialogue_id, "bonus_boss_deadbeef");
    assert_eq!(d.on_complete, DialogueCallback::SpawnBoss(BossType::Deadbeef));
    assert_eq!(p.flags, vec!["deadbeef_spawned".to_string()]);
    assert!(check_triggers(&mut p, NarrativeTrigger::ScoreThreshold(90_000)).is_none());
    assert_eq!(p.flags.len(), 1);
}

#[test]
fn bonus_boss_is_not_announced_once_defeated() {
    let mut p = NarrativeProgress::new();
    p.defeated_bosses.push(BossType::Deadbeef);
    assert!(check_triggers(&mut p, NarrativeTrigger::ScoreThreshold(60_000)).is_none());
    assert!(p.flags.is_empty());
}

#[test]
fn victory_needs_five_defeated_bosses() {
    let mut p = NarrativeProgress::new();
    for b in [BossType::Blowfish, BossType::Twofish, BossType::RufusReverse, BossType::MollyHashpass] {
        check_triggers(&mut p, NarrativeTrigger::BossDefeated(b));
    }
    assert!(check_triggers(&mut p, NarrativeTrigger::AllBossesDefeated).is_none());
    check_triggers(&mut p, NarrativeTrigger::BossDefeated(BossType::CaptainDavey));
    let d = check_triggers(&mut p, NarrativeTrigger::AllBossesDefeated).unwrap();
    assert_eq!(d.dialogue_id, "victory");
    assert_eq!(d.on_complete, DialogueCallback::GameComplete);
    assert_eq!(p.current_chapter, 5);
}

#[test]
fn chapter_names() {
    assert_eq!(get_chapter_name(0), "Prologue: Portscan Protocol");
    assert_eq!(get_chapter_name(3), "Chapter 3: Rufus Reverse's Ruse");
    assert_eq!(get_chapter_name(6), "Epilogue: Deadbeef's Kitchen");
    assert_eq!(get_chapter_name(7), "Unknown Chapter");
    assert_eq!(get_chapter_name(255), "Unknown Chapter");
}
