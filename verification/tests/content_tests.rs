use rusty_ship::content::{
    boss, boss_for_wave, default_bullet_pattern, enemy, reload, validate, wave, BossDef, Content,
    DetailedFormation, EnemyArchetype, FormationSpec, WaveDef,
};

fn archetype(base_hp: i32, base_armor: i32, pattern: &str, score: i32, sprite: &str) -> EnemyArchetype {
    EnemyArchetype {
        base_hp,
        base_armor,
        shoot_pattern: pattern.to_string(),
        score_value: score,
        color: "white".to_string(),
        sprite: sprite.to_string(),
    }
}

fn wave_def(max_enemies: u32, boss: Option<&str>, weights: &[&str], formations: Vec<FormationSpec>) -> WaveDef {
    WaveDef {
        max_enemies,
        formations,
        boss: boss.map(|b| b.to_string()),
        enemy_weights: weights.iter().map(|w| w.to_string()).collect(),
    }
}

fn boss_def(name: &str, max_health: i32) -> BossDef {
    BossDef {
        name: name.to_string(),
        max_health,
        sprite: name.to_lowercase(),
        portrait: name.to_lowercase(),
    }
}

/// The content tables as the game ships them: five enemy archetypes, the
/// fifteen-wave table (boss waves 5, 10 and 15) and the boss roster.
fn committed_content() -> Content {
    let enemies = vec![
        ("bomber".to_string(), archetype(3, 1, "spread", 50, "enemy_bomber")),
        ("elite".to_string(), archetype(10, 2, "burst", 100, "enemy_elite")),
        ("fighter".to_string(), archetype(2, 0, "aimed", 20, "enemy_fighter")),
        ("interceptor".to_string(), archetype(2, 0, "straight", 30, "enemy_interceptor")),
        ("scout".to_string(), archetype(1, 0, "none", 10, "enemy_scout")),
    ];
    let maxes = [6u32, 8, 10, 12, 0, 14, 16, 14, 16, 0, 18, 20, 22, 24, 0];
    let mut waves = Vec::new();
    for (i, m) in maxes.iter().enumerate() {
        let n = i + 1;
        let boss = match n {
            5 => Some("blowfish"),
            10 => Some("twofish"),
            15 => Some("captain_davey"),
            _ => None,
        };
        let weights: &[&str] = if boss.is_some() {
            &[]
        } else if n < 4 {
            &["fighter", "scout"]
        } else {
            &["bomber", "elite", "fighter", "interceptor", "scout"]
        };
        let formations = if n >= 6 && boss.is_none() {
            vec![
                FormationSpec::Simple("vee".to_string()),
                FormationSpec::Detailed(DetailedFormation::Escort {
                    leader: "bomber".to_string(),
                    followers: 4,
                }),
            ]
        } else {
            vec![]
        };
        waves.push((n.to_string(), wave_def(*m, boss, weights, formations)));
    }
    waves.sort_by(|a, b| a.0.cmp(&b.0));
    let bosses = vec![
        ("blowfish".to_string(), boss_def("Blowfish", 150)),
        ("captain_davey".to_string(), boss_def("Captain Davey", 500)),
        ("deadbeef".to_string(), boss_def("Deadbeef", 600)),
        ("molly_hashpass".to_string(), boss_def("Molly Hashpass", 350)),
        ("rufus_reverse".to_string(), boss_def("Rufus Reverse", 250)),
        ("twofish".to_string(), boss_def("Twofish", 200)),
    ];
    Content {
        enemies,
        waves,
        default_wave: WaveDef::default(),
        bosses,
    }
}

#[test]
fn test_validate_passes_on_committed_content() {
    let c = committed_content();
    assert!(validate(&c).is_ok(), "validate() should pass: {}", validate(&c).unwrap_err());
}

#[test]
fn test_wave_default_fallback() {
    let c = committed_content();
    assert_eq!(wave(&c, 1).max_enemies, 6);
    assert_eq!(wave(&c, 5).boss.as_deref(), Some("blowfish"));
    assert_eq!(wave(&c, 999).max_enemies, 24);
    assert_eq!(boss_for_wave(&c, 10).as_deref(), Some("twofish"));
    assert_eq!(boss_for_wave(&c, 4), None);
}

#[test]
fn test_reload_reparses_disk_content() {
    let mut store = Content {
        enemies: vec![],
        waves: vec![],
        default_wave: WaveDef::default(),
        bosses: vec![],
    };
    let r = reload(&mut store, Ok(committed_content()));
    assert!(r.is_ok(), "reload() should succeed: {}", r.clone().unwrap_err());
    assert_eq!(wave(&store, 1).max_enemies, 6);
    assert_eq!(boss(&store, "blowfish").unwrap().max_health, 150);
    assert!(boss(&store, "captain_davey").is_some());
}

#[test]
fn failed_reload_keeps_the_old_content() {
    let mut store = committed_content();
    let r = reload(&mut store, Err("assets/content/waves.json: expected value".to_string()));
    assert_eq!(r, Err("assets/content/waves.json: expected value".to_string()));
    assert_eq!(wave(&store, 1).max_enemies, 6);
    assert_eq!(store.bosses.len(), 6);
}

#[test]
fn lookups_find_entries_by_key() {
    let c = committed_content();
    assert_eq!(enemy(&c, "scout").unwrap().base_hp, 1);
    assert_eq!(enemy(&c, "bomber").unwrap().score_value, 50);
    assert!(enemy(&c, "kraken").is_none());
    assert_eq!(boss(&c, "captain_davey").unwrap().max_health, 500);
    assert!(boss(&c, "Blowfish").is_none());
    assert_eq!(boss_for_wave(&c, 15).as_deref(), Some("captain_davey"));
    assert_eq!(boss_for_wave(&c, 16), None);
}

#[test]
fn validate_reports_each_broken_reference() {
    let mut c = committed_content();
    c.waves[0].1.boss = Some("kraken".to_string());
    c.waves[0].1.enemy_weights.push("ghost".to_string());
    c.waves[0].1.formations.push(FormationSpec::Detailed(DetailedFormation::Escort {
        leader: "admiral".to_string(),
        followers: 2,
    }));
    let key = c.waves[0].0.clone();
    let err = validate(&c).unwrap_err();
    let expected = format!(
        "wave {key}: boss \"kraken\" is not defined in bosses.json\n\
         wave {key}: enemy weight \"ghost\" is not defined in enemies.json\n\
         wave {key}: formation leader \"admiral\" is not defined in enemies.json"
    );
    assert_eq!(err, expected);
}

#[test]
fn validate_lists_problems_wave_by_wave() {
    let mut c = committed_content();
    c.waves[0].1.boss = Some("a".to_string());
    c.waves[2].1.boss = Some("b".to_string());
    let err = validate(&c).unwrap_err();
    let lines: Vec<&str> = err.lines().collect();
    assert_eq!(lines.len(), 2);
    assert!(lines[0].contains("\"a\""));
    assert!(lines[1].contains("\"b\""));
}

#[test]
fn bullets_fly_straight_by_default() {
    assert_eq!(default_bullet_pattern(), "straight");
}
