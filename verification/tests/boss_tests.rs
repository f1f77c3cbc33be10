use rusty_ship::boss::{Boss, BossPhase, BossType};

fn make_boss(health: i32, max_health: i32) -> Boss {
    Boss {
        boss_type: BossType::Blowfish,
        health,
        max_health,
        phase: BossPhase::Phase1,
        is_dead: false,
        invulnerable: false,
        invuln_timer_ms: 0,
        entry_anim: false,
        reverse_zone: 0,
        revive_signal: false,
        spawn_minions_signal: false,
    }
}

#[test]
fn test_take_damage_reduces_health() {
    let mut boss = make_boss(150, 150);
    boss.take_damage(10);
    assert_eq!(boss.health, 140);
    assert!(!boss.is_dead);
}

#[test]
fn test_take_damage_kills_boss() {
    let mut boss = make_boss(150, 150);
    let dead = boss.take_damage(150);
    assert!(dead);
    assert_eq!(boss.health, 0);
    assert!(boss.is_dead);
}

#[test]
fn test_invulnerable_prevents_damage() {
    let mut boss = make_boss(150, 150);
    boss.invulnerable = true;
    let result = boss.take_damage(10);
    assert!(!result);
    assert_eq!(boss.health, 150);
}

#[test]
fn test_entry_anim_prevents_damage() {
    let mut boss = make_boss(150, 150);
    boss.entry_anim = true;
    let result = boss.take_damage(10);
    assert!(!result);
    assert_eq!(boss.health, 150);
}

#[test]
fn test_invulnerable_sets_after_damage() {
    let mut boss = make_boss(150, 150);
    boss.take_damage(10);
    assert!(boss.invulnerable);
    assert_eq!(boss.invuln_timer_ms, 100);
}

#[test]
fn test_phase_transition_to_phase2() {
    let mut boss = make_boss(75, 150);
    boss.update_phase();
    assert_eq!(boss.phase, BossPhase::Phase2);
}

#[test]
fn test_phase_transition_to_phase3() {
    let mut boss = make_boss(30, 150);
    boss.update_phase();
    assert_eq!(boss.phase, BossPhase::Phase3);
}

#[test]
fn test_phase_remains_phase1_above_half() {
    let mut boss = make_boss(100, 150);
    boss.update_phase();
    assert_eq!(boss.phase, BossPhase::Phase1);
}

#[test]
fn test_boss_phase_defaults_to_phase1() {
    let boss = make_boss(150, 150);
    assert_eq!(boss.phase, BossPhase::Phase1);
    assert!(!boss.is_dead);
}

#[test]
fn second_hit_inside_invulnerability_is_ignored() {
    let mut boss = make_boss(150, 150);
    assert!(!boss.take_damage(10));
    assert!(!boss.take_damage(200));
    assert_eq!(boss.health, 140);
    assert!(!boss.is_dead);
}

#[test]
fn invulnerability_ends_and_hits_land_again() {
    let mut boss = make_boss(150, 150);
    boss.take_damage(10);
    boss.end_invulnerability();
    assert!(!boss.invulnerable);
    assert_eq!(boss.invuln_timer_ms, 0);
    assert!(boss.take_damage(140));
    assert_eq!(boss.health, 0);
}

#[test]
fn overkill_clamps_health_to_zero() {
    let mut boss = make_boss(20, 150);
    assert!(boss.take_damage(500));
    assert_eq!(boss.health, 0);
    assert!(boss.is_dead);
}

#[test]
fn phase_boundaries_are_inclusive() {
    let mut boss = make_boss(76, 150);
    assert!(!boss.update_phase());
    assert_eq!(boss.phase, BossPhase::Phase1);
    boss.health = 75;
    assert!(boss.update_phase());
    assert_eq!(boss.phase, BossPhase::Phase2);
    boss.health = 31;
    assert!(!boss.update_phase());
    boss.health = 30;
    assert!(boss.update_phase());
    assert_eq!(boss.phase, BossPhase::Phase3);
}

#[test]
fn new_boss_flies_in_at_full_health() {
    let boss = Boss::new(BossType::CaptainDavey);
    assert_eq!(boss.boss_type, BossType::CaptainDavey);
    assert_eq!(boss.health, boss.max_health);
    assert_eq!(boss.max_health, BossType::CaptainDavey.max_health());
    assert!(boss.entry_anim);
    assert!(!boss.is_dead);
    assert_eq!(boss.phase, BossPhase::Phase1);
}

#[test]
fn boss_variant_names_parse_back() {
    for (text, b) in [
        ("Blowfish", BossType::Blowfish),
        ("Twofish", BossType::Twofish),
        ("RufusReverse", BossType::RufusReverse),
        ("MollyHashpass", BossType::MollyHashpass),
        ("CaptainDavey", BossType::CaptainDavey),
        ("Deadbeef", BossType::Deadbeef),
    ] {
        assert_eq!(BossType::from_str(text), Ok(b));
    }
    assert!(BossType::from_str("Rufus Reverse").is_err());
    assert!(BossType::from_str("blowfish").is_err());
    assert_eq!(BossType::from_key("captain_davey"), Some(BossType::CaptainDavey));
    assert_eq!(BossType::from_key("kraken"), None);
}

#[test]
fn dialogue_ids_follow_the_boss_name() {
    assert_eq!(BossType::RufusReverse.dialogue_intro_id(), "boss_intro_rufus_reverse");
    assert_eq!(BossType::Blowfish.dialogue_defeat_id(), "boss_defeat_blowfish");
}
