use rusty_ship::bullet::{Bullet, BulletType};
use rusty_ship::config::{powerup_config, GameConfig, PowerupType};
use rusty_ship::enemy::{get_spawn_weights, select_enemy_type, select_with_roll, Enemy, EnemyType, ShootPattern};
use rusty_ship::portrait::Character;
use rusty_ship::powerup::{
    apply_effect, powerup_duration, powerup_with_roll, random_powerup_type, PowerUpManager, PowerupEffect,
};
use rusty_ship::ship::{boss_projectile_hit, bullet_hit, ram_hit, HitOutcome, PowerupEffectType, Ship};

fn ship(shield: bool) -> Ship {
    Ship { has_shield: shield, gameover: false }
}

#[test]
fn enemies_scale_with_the_wave() {
    let e = Enemy::new(EnemyType::Bomber, 10);
    assert_eq!(e.hp, 3 + 3);
    assert_eq!(e.max_hp, e.hp);
    assert_eq!(e.armor, 1 + 2);
    assert_eq!(e.score_value, 50);
    assert_eq!(e.shoot_pattern, ShootPattern::Bomb);
    assert!(!e.is_dead && !e.is_elite && e.entry_anim);
    let s = Enemy::new(EnemyType::Scout, 0);
    assert_eq!(s.hp, 1);
    assert_eq!(s.shoot_pattern, ShootPattern::NoShot);
}

#[test]
fn elites_are_tougher() {
    let e = Enemy::new_elite(EnemyType::Fighter, 3);
    assert_eq!(e.hp, 2 + 1 + 2);
    assert_eq!(e.max_hp, e.hp);
    assert_eq!(e.armor, 0 + 0 + 2);
    assert_eq!(e.score_value, 50);
    assert_eq!(e.shoot_pattern, ShootPattern::Spread);
    assert!(e.is_elite);
    let fresh = Enemy::new_elite(EnemyType::Fighter, 0);
    assert_eq!(fresh.hp, 4);
    assert_eq!(fresh.armor, 2);
    let huge = Enemy::new_elite(EnemyType::Elite, u32::MAX);
    assert_eq!(huge.hp, 4 + (u32::MAX / 3) as i32 + 2);
}

#[test]
fn armor_absorbs_but_one_point_gets_through() {
    let mut e = Enemy::new(EnemyType::Bomber, 5); // hp 4, armor 2
    assert!(!e.take_damage(1));
    assert_eq!(e.hp, 3);
    assert!(!e.take_damage(4));
    assert_eq!(e.hp, 1);
    assert!(e.take_damage(10));
    assert_eq!(e.hp, 0);
    assert!(e.is_dead);
}

#[test]
fn spawn_weights_per_wave() {
    for wave in [1, 2] {
        let w = get_spawn_weights(wave);
        assert_eq!(
            w,
            vec![
                (EnemyType::Scout, 100),
                (EnemyType::Fighter, 0),
                (EnemyType::Bomber, 0),
                (EnemyType::Interceptor, 0),
                (EnemyType::Elite, 0),
            ]
        );
    }
    let w = get_spawn_weights(3);
    assert_eq!(w[1], (EnemyType::Fighter, 80));
    let w = get_spawn_weights(12);
    assert_eq!(w[0], (EnemyType::Scout, 50));
    assert_eq!(w[4], (EnemyType::Elite, 15));
    let w = get_spawn_weights(40);
    assert_eq!(w[3], (EnemyType::Interceptor, 100));
    assert_eq!(w[4], (EnemyType::Elite, 25));
}

#[test]
fn rolls_walk_down_the_table() {
    let w = get_spawn_weights(7); // 100, 100, 80, 60, 5
    assert_eq!(select_with_roll(&w, 1), EnemyType::Scout);
    assert_eq!(select_with_roll(&w, 100), EnemyType::Scout);
    assert_eq!(select_with_roll(&w, 101), EnemyType::Fighter);
    assert_eq!(select_with_roll(&w, 200), EnemyType::Fighter);
    assert_eq!(select_with_roll(&w, 201), EnemyType::Bomber);
    assert_eq!(select_with_roll(&w, 281), EnemyType::Interceptor);
    assert_eq!(select_with_roll(&w, 341), EnemyType::Elite);
    assert_eq!(select_with_roll(&w, 345), EnemyType::Elite);
    assert_eq!(select_with_roll(&w, 500), EnemyType::Scout);
    // zero weights are never landed on by a roll of at least one
    let w1 = get_spawn_weights(1);
    assert_eq!(select_with_roll(&w1, 100), EnemyType::Scout);
    for _ in 0..50 {
        assert_eq!(select_enemy_type(1), EnemyType::Scout);
        assert_eq!(select_enemy_type(2), EnemyType::Scout);
    }
}

#[test]
fn powerups_from_the_table() {
    assert_eq!(powerup_duration(PowerupType::RapidFire), 10);
    assert_eq!(powerup_duration(PowerupType::Shield), 0);
    assert_eq!(powerup_config().len(), 7);
    let table: Vec<PowerupType> = powerup_config().iter().map(|r| r.powerup_type).collect();
    for _ in 0..30 {
        assert!(table.contains(&random_powerup_type()));
    }
}

#[test]
fn picking_up_powerups() {
    let mut s = ship(false);
    let (mut score, mut lives) = (100, 3);
    assert_eq!(apply_effect(PowerupType::Shield, &mut s, &mut score, &mut lives), PowerupEffect::Shield);
    assert!(s.has_shield);
    assert_eq!(apply_effect(PowerupType::Score, &mut s, &mut score, &mut lives), PowerupEffect::Score);
    assert_eq!(score, 600);
    assert_eq!(apply_effect(PowerupType::Life, &mut s, &mut score, &mut lives), PowerupEffect::Life);
    assert_eq!(lives, 4);
    lives = 9;
    apply_effect(PowerupType::Life, &mut s, &mut score, &mut lives);
    assert_eq!(lives, 9);
    assert_eq!(
        apply_effect(PowerupType::Pierce, &mut s, &mut score, &mut lives),
        PowerupEffect::Pierce(10)
    );
    let mut m = PowerUpManager::new();
    assert!(!m.has_shield());
    m.apply_effect(PowerupEffect::Bomb);
    assert!(!m.has_shield());
    m.apply_effect(PowerupEffect::Shield);
    assert!(m.consume_shield());
    assert!(!m.consume_shield());
}

#[test]
fn hits_on_the_ship() {
    let mut s = ship(true);
    let mut lives = 2;
    assert_eq!(bullet_hit(&mut s, &mut lives), HitOutcome::ShieldAbsorbed);
    assert_eq!(lives, 2);
    assert_eq!(bullet_hit(&mut s, &mut lives), HitOutcome::LifeLost);
    assert_eq!(lives, 1);
    assert_eq!(bullet_hit(&mut s, &mut lives), HitOutcome::LifeLost);
    assert_eq!(lives, 0);
    assert!(!s.gameover);
    assert_eq!(bullet_hit(&mut s, &mut lives), HitOutcome::GameOver);
    assert!(s.gameover);

    let mut s = ship(false);
    let mut lives = 1;
    assert_eq!(boss_projectile_hit(&mut s, &mut lives), HitOutcome::GameOver);
    assert_eq!(lives, 0);
    assert!(s.gameover);

    let mut s = ship(true);
    let mut lives = 1;
    assert_eq!(ram_hit(&mut s, &mut lives), HitOutcome::LifeLost);
    assert!(s.has_shield);
    assert_eq!(ram_hit(&mut s, &mut lives), HitOutcome::GameOver);
    assert!(s.gameover);

    let mut s = ship(false);
    s.apply_powerup(PowerupEffectType::RapidFire);
    assert!(!s.has_shield);
    s.apply_powerup(PowerupEffectType::Shield);
    assert!(s.has_shield());
}

#[test]
fn bullets_pierce_then_stop() {
    let mut b = Bullet::new(BulletType::PlayerPierce);
    assert_eq!(b.damage, 1);
    assert!(b.pierce());
    assert!(b.pierce());
    assert!(b.pierce());
    assert!(!b.pierce());
    assert_eq!(b.pierce_remaining, 0);
    let mut s = Bullet::new(BulletType::PlayerStandard);
    assert!(!s.pierce());
    let l = Bullet::new_laser(BulletType::PlayerLaser);
    assert!(l.is_laser);
    assert_eq!(l.damage, 2);
    assert_eq!(BulletType::EnemyBomb.sprite_name(), "bullet_bomb");
    assert!(!BulletType::EnemyAimed.is_player());
}

#[test]
fn characters_read_in_any_case() {
    assert_eq!(Character::from_str("Captain_Davey"), Some(Character::CaptainDavey));
    assert_eq!(Character::from_str("NARRATOR"), Some(Character::Narrator));
    assert_eq!(Character::from_str("rufusreverse"), Some(Character::RufusReverse));
    assert_eq!(Character::from_str("kraken"), None);
    assert_eq!(Character::CaptainDavey.portrait_filename(), "captain_davey_portscan");
    assert_eq!(Character::MollyHashpass.name(), "Molly Hashpass");
}

#[test]
fn shipped_settings() {
    let c = GameConfig::new();
    assert_eq!(c.starting_lives, 3);
    assert_eq!(c.starting_pirate_count, 10);
    assert_eq!(c.boss_waves, vec![5, 10, 15]);
    assert_eq!(c.bonus_score_threshold, 50000);
    assert_eq!(PowerupType::Life.sprite_name(), PowerupType::Life.sprite_name());
}

#[test]
fn power_ups_drop_by_their_weights() {
    let expect = [
        (1, PowerupType::RapidFire),
        (25, PowerupType::RapidFire),
        (26, PowerupType::SpreadShot),
        (45, PowerupType::SpreadShot),
        (46, PowerupType::Pierce),
        (60, PowerupType::Pierce),
        (61, PowerupType::Shield),
        (75, PowerupType::Shield),
        (76, PowerupType::Bomb),
        (85, PowerupType::Bomb),
        (86, PowerupType::Life),
        (95, PowerupType::Life),
        (96, PowerupType::Score),
        (100, PowerupType::Score),
    ];
    for (roll, t) in expect {
        assert_eq!(powerup_with_roll(roll), t, "roll {}", roll);
    }
    let mut counts = [0u32; 7];
    for roll in 1..=100u32 {
        let t = powerup_with_roll(roll);
        let i = powerup_config().iter().position(|r| r.powerup_type == t).unwrap();
        counts[i] += 1;
    }
    assert_eq!(counts, [25, 20, 15, 15, 10, 10, 5]);
}
