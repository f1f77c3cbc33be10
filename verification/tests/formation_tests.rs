use rusty_ship::content::{Content, DetailedFormation, FormationSpec, WaveDef};
use rusty_ship::enemy::EnemyType;
use rusty_ship::enemy::EnemyType::{Bomber, Elite, Fighter, Interceptor, Scout};
use rusty_ship::formation::{create_random_formation, get_wave_formations, FormationManager, FormationType};

fn simple(name: &str) -> FormationSpec {
    FormationSpec::Simple(name.to_string())
}

#[test]
fn named_formations_get_their_standard_size() {
    assert_eq!(FormationType::from_spec(&simple("vee")), FormationType::Vee { count: 5 });
    assert_eq!(FormationType::from_spec(&simple("line")), FormationType::Line { count: 6 });
    assert_eq!(FormationType::from_spec(&simple("circle")), FormationType::Circle { count: 8 });
    assert_eq!(
        FormationType::from_spec(&simple("escort")),
        FormationType::Escort { leader_type: Bomber, follower_count: 4 }
    );
    assert_eq!(FormationType::from_spec(&simple("grid")), FormationType::Grid { rows: 3, cols: 5 });
    assert_eq!(FormationType::from_spec(&simple("chaos")), FormationType::Chaos);
    assert_eq!(FormationType::from_spec(&simple("swirl")), FormationType::Random);
}

#[test]
fn detailed_formations_keep_their_numbers() {
    let d = FormationSpec::Detailed(DetailedFormation::Grid { rows: 2, cols: 4 });
    assert_eq!(FormationType::from_spec(&d), FormationType::Grid { rows: 2, cols: 4 });
    let d = FormationSpec::Detailed(DetailedFormation::Escort { leader: "elite".to_string(), followers: 2 });
    assert_eq!(FormationType::from_spec(&d), FormationType::Escort { leader_type: Elite, follower_count: 2 });
    let d = FormationSpec::Detailed(DetailedFormation::Escort { leader: "admiral".to_string(), followers: 2 });
    assert_eq!(FormationType::from_spec(&d), FormationType::Escort { leader_type: Bomber, follower_count: 2 });
}

#[test]
fn default_params_reset_the_size() {
    assert_eq!(FormationType::Vee { count: 11 }.default_params(), FormationType::Vee { count: 5 });
    assert_eq!(FormationType::Grid { rows: 9, cols: 9 }.default_params(), FormationType::Grid { rows: 3, cols: 5 });
    assert_eq!(FormationType::Random.default_params(), FormationType::Random);
}

#[test]
fn slot_types_follow_each_shape() {
    assert_eq!(FormationType::Vee { count: 5 }.slot_types(), vec![Fighter, Fighter, Interceptor, Interceptor, Scout]);
    assert_eq!(FormationType::Line { count: 6 }.slot_types(), vec![Bomber, Scout, Fighter, Bomber, Fighter, Scout]);
    assert_eq!(
        FormationType::Circle { count: 5 }.slot_types(),
        vec![Interceptor, Fighter, Bomber, Scout, Interceptor]
    );
    assert_eq!(
        FormationType::Escort { leader_type: Elite, follower_count: 2 }.slot_types(),
        vec![Elite, Fighter, Fighter]
    );
    assert_eq!(
        FormationType::Grid { rows: 3, cols: 2 }.slot_types(),
        vec![Bomber, Bomber, Fighter, Fighter, Scout, Scout]
    );
    assert!(FormationType::Random.slot_types().is_empty());
    assert!(FormationType::Chaos.slot_types().is_empty());
    assert!(FormationType::Grid { rows: 0, cols: 7 }.slot_types().is_empty());
}

#[test]
fn wave_formations_come_from_the_table() {
    let c = Content {
        enemies: vec![],
        waves: vec![(
            "6".to_string(),
            WaveDef { max_enemies: 14, formations: vec![simple("vee"), simple("grid")], boss: None, enemy_weights: vec![] },
        )],
        default_wave: WaveDef::default(),
        bosses: vec![],
    };
    assert_eq!(
        get_wave_formations(&c, 6),
        vec![FormationType::Vee { count: 5 }, FormationType::Grid { rows: 3, cols: 5 }]
    );
    assert!(get_wave_formations(&c, 7).is_empty());
    let fs = get_wave_formations(&c, 6);
    for _ in 0..20 {
        assert!(fs.contains(&create_random_formation(&fs)));
    }
    assert_eq!(create_random_formation(&vec![]), FormationType::Random);
}

#[test]
fn formation_manager_spawns_everything_once_ready() {
    let mut m = FormationManager::new();
    let t = m.update(true);
    assert!(t.done);
    m.start_formation(FormationType::Line { count: 4 });
    assert!(m.is_active);
    assert_eq!(m.enemies_to_spawn.len(), 4);
    let t = m.update(false);
    assert!(!t.done);
    assert_eq!((t.spawn_from, t.spawn_to), (0, 0));
    let t = m.update(true);
    assert!(t.done);
    assert_eq!((t.spawn_from, t.spawn_to), (0, 4));
    assert!(!m.is_active);
    assert_eq!(m.current_index, 4);
    let t = m.update(true);
    assert!(t.done);
    assert_eq!(t.spawn_from, t.spawn_to);
    let _ = EnemyType::Scout;
}
