use rusty_ship::boss::BossType;
use rusty_ship::wave_director::{WaveDirector, WaveState};
use rusty_ship::enemy::EnemyType;

#[test]
fn test_new_wave_director() {
    let wd = WaveDirector::new();
    assert_eq!(wd.current_wave, 0);
    assert_eq!(wd.wave_state, WaveState::Inactive);
    assert!(!wd.is_boss_wave);
    assert!(wd.current_boss.is_none());
    assert!(!wd.is_wave_complete());
    assert!(!wd.is_boss_active());
}

#[test]
fn test_boss_wave_detection() {
    let mut wd = WaveDirector::new();
    wd.start_wave(5);
    assert!(wd.is_boss_wave);
    assert_eq!(wd.current_wave, 5);
    assert_eq!(wd.wave_state, WaveState::BossIntro);
}

#[test]
fn test_regular_wave_detection() {
    let mut wd = WaveDirector::new();
    wd.start_wave(1);
    assert!(!wd.is_boss_wave);
    assert_eq!(wd.current_wave, 1);
    assert_eq!(wd.wave_state, WaveState::Spawning);
}

#[test]
fn test_wave_10_is_boss() {
    let mut wd = WaveDirector::new();
    wd.start_wave(10);
    assert!(wd.is_boss_wave);
}

#[test]
fn test_wave_15_is_boss() {
    let mut wd = WaveDirector::new();
    wd.start_wave(15);
    assert!(wd.is_boss_wave);
}

#[test]
fn test_get_max_enemies() {
    let wd = WaveDirector::new();
    assert_eq!(wd.get_max_enemies_for_wave(1), 6);
    assert_eq!(wd.get_max_enemies_for_wave(5), 0);
    assert_eq!(wd.get_max_enemies_for_wave(6), 14);
    assert_eq!(wd.get_max_enemies_for_wave(15), 0);
}

#[test]
fn test_boss_active_check() {
    let mut wd = WaveDirector::new();
    assert!(!wd.is_boss_active());
    wd.wave_state = WaveState::BossIntro;
    assert!(wd.is_boss_active());
    wd.wave_state = WaveState::BossFight;
    assert!(wd.is_boss_active());
    wd.wave_state = WaveState::BossDefeated;
    assert!(!wd.is_boss_active());
}

#[test]
fn test_wave_complete_check() {
    let mut wd = WaveDirector::new();
    assert!(!wd.is_wave_complete());
    wd.wave_state = WaveState::Complete;
    assert!(wd.is_wave_complete());
    wd.wave_state = WaveState::BossDefeated;
    assert!(wd.is_wave_complete());
}

#[test]
fn max_enemies_past_the_table_is_24() {
    let wd = WaveDirector::new();
    assert_eq!(wd.get_max_enemies_for_wave(0), 24);
    assert_eq!(wd.get_max_enemies_for_wave(14), 24);
    assert_eq!(wd.get_max_enemies_for_wave(16), 24);
    assert_eq!(wd.get_max_enemies_for_wave(999), 24);
}

#[test]
fn regular_wave_runs_spawning_active_clearing_complete() {
    let mut wd = WaveDirector::new();
    wd.start_wave(1);
    let mut spawned = 0;
    // the timer has not run out: nothing spawns
    assert!(wd.update_regular_wave(false, false, 0, 0).is_none());
    for _ in 0..6 {
        let e = wd.update_regular_wave(true, false, 0, 0).unwrap();
        // the first waves send fresh scouts only
        assert_eq!(e.enemy_type, EnemyType::Scout);
        assert!(!e.is_dead && e.entry_anim && !e.is_elite);
        assert_eq!(e.score_value, EnemyType::Scout.score_value());
        spawned += 1;
    }
    assert_eq!(wd.enemies_spawned, 6);
    assert_eq!(spawned, 6);
    assert_eq!(wd.wave_state, WaveState::Spawning);
    // the count is reached: the wave turns active, nothing more spawns
    assert!(wd.update_regular_wave(true, false, 6, 0).is_none());
    assert_eq!(wd.wave_state, WaveState::Active);
    assert_eq!(wd.enemies_spawned, 6);
    // enemies still alive keep it active even after the duration
    wd.update_regular_wave(true, true, 2, 0);
    assert_eq!(wd.wave_state, WaveState::Active);
    wd.update_regular_wave(true, true, 0, 1);
    assert_eq!(wd.wave_state, WaveState::Active);
    wd.update_regular_wave(true, true, 0, 0);
    assert_eq!(wd.wave_state, WaveState::Clearing);
    wd.update_regular_wave(true, true, 0, 0);
    assert_eq!(wd.wave_state, WaveState::Complete);
    assert!(wd.is_wave_complete());
}

#[test]
fn spawned_enemies_scale_with_the_wave() {
    let mut wd = WaveDirector::new();
    wd.start_wave(7);
    let e = wd.update_regular_wave(true, false, 0, 0).unwrap();
    assert_eq!(e.hp, e.enemy_type.base_hp() + 2);
    assert_eq!(e.armor, e.enemy_type.base_armor() + 1);
}

#[test]
fn boss_fight_ends_when_the_boss_falls() {
    let mut wd = WaveDirector::new();
    wd.start_wave(5);
    wd.engage_boss(BossType::Blowfish);
    assert_eq!(wd.wave_state, WaveState::BossFight);
    assert!(wd.is_boss_active());
    // still flying in: the hit is ignored
    assert_eq!(wd.hit_boss(1000), 0);
    wd.get_current_boss_mut().unwrap().finish_entry();
    assert_eq!(wd.hit_boss(10), 0);
    assert_eq!(wd.get_current_boss().unwrap().health, 140);
    wd.get_current_boss_mut().unwrap().end_invulnerability();
    assert_eq!(wd.hit_boss(140), 1000);
    assert_eq!(wd.wave_state, WaveState::BossDefeated);
    assert!(wd.is_wave_complete());
}

#[test]
fn a_dead_boss_ends_the_fight() {
    let mut wd = WaveDirector::new();
    wd.start_wave(10);
    wd.check_boss_dead();
    assert_eq!(wd.wave_state, WaveState::BossIntro);
    wd.engage_boss(BossType::Twofish);
    wd.current_boss.as_mut().unwrap().is_dead = true;
    wd.check_boss_dead();
    assert_eq!(wd.wave_state, WaveState::BossDefeated);
}

#[test]
fn hitting_without_a_boss_scores_nothing() {
    let mut wd = WaveDirector::new();
    wd.start_wave(3);
    assert_eq!(wd.hit_boss(50), 0);
    assert_eq!(wd.wave_state, WaveState::Spawning);
}
