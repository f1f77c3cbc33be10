use rusty_ship::bullet::{Bullet, BulletType};
use rusty_ship::combat::{
    can_strike_all, can_strike_first, frame_score, pirate_spawn, pirate_spawn_with_roll, round_score, ship_frame,
    strike_all, strike_first, strike_first_pirate, strike_pirates,
};
use rusty_ship::ship::Ship;
use rusty_ship::enemy::{Enemy, EnemyType};

#[test]
fn a_shot_strikes_the_first_live_enemy_it_touches() {
    let mut dead = Enemy::new(EnemyType::Scout, 0);
    dead.is_dead = true;
    let mut enemies = vec![
        dead,
        Enemy::new(EnemyType::Fighter, 0),
        Enemy::new(EnemyType::Scout, 0),
    ];
    let touching = vec![true, true, true];
    assert!(can_strike_first(&enemies, &touching, 1));
    let struck = strike_first(&mut enemies, &touching, 1);
    assert_eq!(struck, Some((1, false)));
    assert_eq!(enemies[1].hp, 1);
    assert!(!enemies[1].is_dead);
    // the scout behind it is untouched
    assert_eq!(enemies[2].hp, 1);
    assert!(!enemies[2].is_dead);
}

#[test]
fn a_shot_that_kills_reports_it() {
    let mut enemies = vec![Enemy::new(EnemyType::Scout, 0), Enemy::new(EnemyType::Scout, 0)];
    let touching = vec![false, true];
    let struck = strike_first(&mut enemies, &touching, 2);
    assert_eq!(struck, Some((1, true)));
    assert!(enemies[1].is_dead);
    assert_eq!(enemies[1].hp, 0);
    assert!(!enemies[0].is_dead);
}

#[test]
fn a_shot_that_touches_nothing_changes_nothing() {
    let mut enemies = vec![Enemy::new(EnemyType::Bomber, 5)];
    let touching = vec![false];
    assert_eq!(strike_first(&mut enemies, &touching, 10), None);
    assert_eq!(enemies[0].hp, 4);
}

#[test]
fn armor_still_lets_one_point_through_a_shot() {
    let mut enemies = vec![Enemy::new(EnemyType::Elite, 0)]; // hp 4, armor 2
    let touching = vec![true];
    assert_eq!(strike_first(&mut enemies, &touching, 1), Some((0, false)));
    assert_eq!(enemies[0].hp, 3);
}

#[test]
fn a_laser_strikes_every_live_enemy_it_touches() {
    let mut dead = Enemy::new(EnemyType::Scout, 0);
    dead.is_dead = true;
    let mut enemies = vec![
        Enemy::new(EnemyType::Scout, 0),
        Enemy::new(EnemyType::Bomber, 0),
        dead,
        Enemy::new(EnemyType::Fighter, 0),
    ];
    let touching = vec![true, true, true, false];
    assert!(can_strike_all(&enemies, &touching, 2));
    let killed = strike_all(&mut enemies, &touching, 2);
    assert_eq!(killed, vec![true, false, false, false]);
    assert_eq!(enemies[0].hp, 0);
    // bomber: hp 3, armor 1, one point through
    assert_eq!(enemies[1].hp, 2);
    assert_eq!(enemies[2].hp, 1);
    assert_eq!(enemies[3].hp, 2);
}

#[test]
fn hits_that_would_overflow_are_refused() {
    let mut e = Enemy::new(EnemyType::Bomber, 0);
    e.hp = i32::MIN + 1;
    let enemies = vec![e];
    let touching = vec![true];
    assert!(!can_strike_first(&enemies, &touching, 5));
    assert!(!can_strike_all(&enemies, &touching, 5));
    assert!(!enemies[0].can_take_damage(5));
    let shielded = Enemy::new(EnemyType::Bomber, 0);
    assert!(!shielded.can_take_damage(i32::MIN));
    assert!(shielded.can_take_damage(i32::MAX));
    // an untouched enemy is no obstacle
    let untouched = vec![false];
    assert!(can_strike_first(&enemies, &untouched, 5));
}

#[test]
fn a_cannonball_takes_down_the_first_live_pirate() {
    let mut dead = vec![true, false, false];
    let touching = vec![true, true, true];
    assert_eq!(strike_first_pirate(&mut dead, &touching), Some(1));
    assert_eq!(dead, vec![true, true, false]);
    let mut none_hit = vec![false, false];
    assert_eq!(strike_first_pirate(&mut none_hit, &vec![false, false]), None);
    assert_eq!(none_hit, vec![false, false]);
}

#[test]
fn a_piercing_bullet_uses_a_pierce_per_pirate() {
    let mut bullet = Bullet::new(BulletType::PlayerPierce);
    assert_eq!(bullet.pierce_remaining, 3);
    let mut dead = vec![false, true, false];
    let touching = vec![true, true, true];
    let fallen = strike_pirates(&mut dead, &touching, &mut bullet);
    assert_eq!(fallen, 2);
    assert_eq!(dead, vec![true, true, true]);
    assert_eq!(bullet.pierce_remaining, 1);
    assert!(!bullet.is_dead);
}

#[test]
fn a_bullet_without_pierces_dies_on_its_first_pirate() {
    let mut bullet = Bullet::new(BulletType::PlayerStandard);
    let mut dead = vec![false, false, false];
    let touching = vec![true, false, true];
    let fallen = strike_pirates(&mut dead, &touching, &mut bullet);
    assert_eq!(fallen, 2);
    assert_eq!(dead, vec![true, false, true]);
    assert!(bullet.is_dead);
    assert_eq!(bullet.pierce_remaining, 0);
}

#[test]
fn a_piercing_bullet_dies_once_its_pierces_are_spent() {
    let mut bullet = Bullet::new(BulletType::PlayerPierce);
    let mut dead = vec![false; 5];
    let touching = vec![true; 5];
    assert_eq!(strike_pirates(&mut dead, &touching, &mut bullet), 5);
    assert_eq!(bullet.pierce_remaining, 0);
    assert!(bullet.is_dead);
}

#[test]
fn the_shield_takes_the_first_bullet_then_a_life_goes_and_the_ship_is_safe() {
    let mut ship = Ship { has_shield: true, gameover: false };
    let mut lives = 3;
    let (spent, lost) = ship_frame(&mut ship, &mut lives, false, &vec![true, false, true, true], &vec![]);
    assert_eq!(spent, vec![true, false, true, false]);
    assert!(lost);
    assert_eq!(lives, 2);
    assert!(!ship.has_shield);
    assert!(!ship.gameover);
}

#[test]
fn an_invulnerable_ship_lets_bullets_pass_but_not_rams() {
    let mut ship = Ship { has_shield: false, gameover: false };
    let mut lives = 2;
    let (spent, lost) = ship_frame(&mut ship, &mut lives, true, &vec![true, true], &vec![true, false, true]);
    assert_eq!(spent, vec![false, false]);
    assert!(!lost);
    assert_eq!(lives, 0);
    assert!(!ship.gameover);
    let (_, _) = ship_frame(&mut ship, &mut lives, true, &vec![], &vec![true]);
    assert_eq!(lives, 0);
    assert!(ship.gameover);
}

#[test]
fn a_bullet_with_no_life_left_ends_the_game() {
    let mut ship = Ship { has_shield: false, gameover: false };
    let mut lives = 0;
    let (spent, lost) = ship_frame(&mut ship, &mut lives, false, &vec![true], &vec![]);
    assert_eq!(spent, vec![true]);
    assert!(!lost);
    assert!(ship.gameover);
    assert_eq!(lives, 0);
}

#[test]
fn a_frame_scores_its_kills_and_fallen_pirates() {
    let enemies = vec![Enemy::new(EnemyType::Bomber, 0), Enemy::new(EnemyType::Scout, 0), Enemy::new(EnemyType::Elite, 0)];
    let bomber = enemies[0].score_value;
    let elite = enemies[2].score_value;
    assert_eq!(frame_score(100, &enemies, &vec![true, false, true], 3), Some(100 + bomber + elite + 3));
    assert_eq!(frame_score(100, &enemies, &vec![false, false, false], 0), Some(100));
    assert_eq!(frame_score(i32::MAX, &enemies, &vec![true, false, false], 0), None);
}

#[test]
fn pirate_rounds_score_and_spawn() {
    assert_eq!(round_score(10, 3, 2), Some(10 + 3 + 100));
    assert_eq!(round_score(i32::MAX - 1, 2, 0), None);
    assert!(pirate_spawn_with_roll(0, 3, 2));
    assert!(!pirate_spawn_with_roll(1, 3, 2));
    assert!(!pirate_spawn_with_roll(0, 2, 2));
    assert!(!pirate_spawn_with_roll(0, -1, 0));
    for _ in 0..50 {
        assert!(!pirate_spawn(2, 2));
    }
}
