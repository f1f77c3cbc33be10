use rusty_ship::boss::{BossPhase, BossType};
use rusty_ship::console::{
    execute_console_command, prepare_console_command, read_console_command, ConsoleCommand,
    ConsoleReply, ConsoleSession, NumArg, PowerupArg, SpawnArg, TimerRefresh, WaveArg,
    submit_console_input,
};
use rusty_ship::enemy::{EnemyType, ShootPattern};
use rusty_ship::menu::GameState;
use rusty_ship::powerup::PowerUpManager;
use rusty_ship::ship::{PowerupEffectType, Ship};
use rusty_ship::wave_director::{WaveDirector, WaveState};

fn session() -> ConsoleSession {
    let mut wd = WaveDirector::new();
    wd.start_wave(3);
    ConsoleSession {
        hitbox_visible: false,
        ship: Ship { has_shield: false, gameover: false },
        wave_director: wd,
        powerups: PowerUpManager::new(),
        score: 1234,
        lives: 3,
        pirate_count: 4,
    }
}

fn run(s: &mut ConsoleSession, text: &str) -> rusty_ship::console::ConsoleOutcome {
    let cmd = read_console_command(&prepare_console_command(text));
    assert!(s.can_execute(&cmd));
    execute_console_command(&cmd, s)
}

#[test]
fn reading_splits_at_whitespace() {
    assert!(matches!(read_console_command(""), ConsoleCommand::Empty));
    assert!(matches!(read_console_command("   \t "), ConsoleCommand::Empty));
    assert!(matches!(read_console_command("help"), ConsoleCommand::Help));
    assert!(matches!(read_console_command("  god  "), ConsoleCommand::God));
    assert!(matches!(read_console_command("wave 7"), ConsoleCommand::Wave(WaveArg::Jump(7))));
    assert!(matches!(read_console_command("wave   12 extra"), ConsoleCommand::Wave(WaveArg::Jump(12))));
    assert!(matches!(read_console_command("wave 0"), ConsoleCommand::Wave(WaveArg::OutOfRange)));
    assert!(matches!(read_console_command("wave 16"), ConsoleCommand::Wave(WaveArg::OutOfRange)));
    assert!(matches!(read_console_command("wave -1"), ConsoleCommand::Wave(WaveArg::Invalid)));
    assert!(matches!(read_console_command("wave x"), ConsoleCommand::Wave(WaveArg::Invalid)));
    assert!(matches!(read_console_command("wave"), ConsoleCommand::Wave(WaveArg::Missing)));
    assert!(matches!(read_console_command("score -40"), ConsoleCommand::Score(NumArg::Value(-40))));
    assert!(matches!(read_console_command("score +40"), ConsoleCommand::Score(NumArg::Value(40))));
    assert!(matches!(read_console_command("score 99999999999"), ConsoleCommand::Score(NumArg::Invalid)));
    assert!(matches!(read_console_command("lives 42"), ConsoleCommand::Lives(NumArg::Value(42))));
    assert!(matches!(read_console_command("lives"), ConsoleCommand::Lives(NumArg::Missing)));
    assert!(matches!(read_console_command("damage 25"), ConsoleCommand::Damage(NumArg::Value(25))));
    assert!(matches!(
        read_console_command("damage blowfish 25"),
        ConsoleCommand::Damage(NumArg::Value(25))
    ));
    assert!(matches!(read_console_command("damage blowfish"), ConsoleCommand::Damage(NumArg::Invalid)));
    assert!(matches!(read_console_command("killall"), ConsoleCommand::KillAll));
    assert!(matches!(read_console_command("hitbox"), ConsoleCommand::Hitbox));
    assert!(matches!(read_console_command("state"), ConsoleCommand::State));
    assert!(matches!(read_console_command("fps"), ConsoleCommand::Fps));
    assert!(matches!(read_console_command("reload"), ConsoleCommand::Reload));
    assert!(matches!(read_console_command("quit"), ConsoleCommand::Quit));
    assert!(matches!(read_console_command("dance"), ConsoleCommand::Unknown));
    match read_console_command("time 0.5") {
        ConsoleCommand::Time(Some(s)) => assert_eq!(s, "0.5"),
        _ => panic!("time with an argument"),
    }
    assert!(matches!(read_console_command("time"), ConsoleCommand::Time(None)));
}

#[test]
fn spawn_and_powerup_names_ignore_case() {
    assert!(matches!(read_console_command("spawn SCOUT"), ConsoleCommand::Spawn(SpawnArg::Enemy(EnemyType::Scout))));
    assert!(matches!(read_console_command("spawn Elite"), ConsoleCommand::Spawn(SpawnArg::Enemy(EnemyType::Elite))));
    assert!(matches!(read_console_command("spawn rufus"), ConsoleCommand::Spawn(SpawnArg::Boss(BossType::RufusReverse))));
    assert!(matches!(read_console_command("spawn CaptainDavey"), ConsoleCommand::Spawn(SpawnArg::Boss(BossType::CaptainDavey))));
    assert!(matches!(read_console_command("spawn kraken"), ConsoleCommand::Spawn(SpawnArg::Unknown)));
    assert!(matches!(read_console_command("spawn"), ConsoleCommand::Spawn(SpawnArg::Missing)));
    assert!(matches!(read_console_command("powerup Shield"), ConsoleCommand::Powerup(PowerupArg::Give(PowerupEffectType::Shield))));
    assert!(matches!(read_console_command("powerup rapid"), ConsoleCommand::Powerup(PowerupArg::Give(PowerupEffectType::RapidFire))));
    assert!(matches!(read_console_command("powerup laser"), ConsoleCommand::Powerup(PowerupArg::Unknown)));
    // the command word itself is matched as typed
    assert!(matches!(read_console_command("HELP"), ConsoleCommand::Unknown));
}

#[test]
fn typed_text_is_trimmed_and_lowercased() {
    assert_eq!(prepare_console_command("  Wave 5 \n"), "wave 5");
    assert_eq!(prepare_console_command("GOD"), "god");
    assert_eq!(prepare_console_command(""), "");
}

#[test]
fn god_toggles_the_shield() {
    let mut s = session();
    let o = run(&mut s, "god");
    assert_eq!(o.reply, ConsoleReply::GodMode(true));
    assert!(s.ship.has_shield);
    let o = run(&mut s, "god");
    assert_eq!(o.reply, ConsoleReply::GodMode(false));
    assert!(!s.ship.has_shield);
}

#[test]
fn heal_raises_both_shields_and_fills_the_clocks() {
    let mut s = session();
    let o = run(&mut s, "heal");
    assert_eq!(o.reply, ConsoleReply::Healed);
    assert_eq!(o.timers, TimerRefresh::All);
    assert!(s.ship.has_shield);
    assert!(s.powerups.has_shield);
}

#[test]
fn wave_jump_restarts_the_field() {
    let mut s = session();
    let o = run(&mut s, "wave 10");
    assert_eq!(o.reply, ConsoleReply::JumpedToWave(10));
    assert!(o.clear_field);
    assert_eq!(s.wave_director.current_wave, 10);
    assert_eq!(s.wave_director.wave_state, WaveState::BossIntro);
    assert!(s.wave_director.is_boss_wave);
    assert_eq!(s.score, 10000);
    assert_eq!(s.pirate_count, 10);
}

#[test]
fn bad_wave_arguments_change_nothing() {
    let mut s = session();
    for (text, reply) in [
        ("wave 16", ConsoleReply::WaveOutOfRange),
        ("wave zz", ConsoleReply::InvalidWave),
        ("wave", ConsoleReply::WaveUsage),
    ] {
        let o = run(&mut s, text);
        assert_eq!(o.reply, reply);
        assert!(!o.clear_field);
        assert_eq!(s.wave_director.current_wave, 3);
        assert_eq!(s.score, 1234);
    }
    // a hand-built jump outside the table is refused too
    let o = execute_console_command(&ConsoleCommand::Wave(WaveArg::Jump(40)), &mut s);
    assert_eq!(o.reply, ConsoleReply::WaveOutOfRange);
    assert_eq!(s.wave_director.current_wave, 3);
}

#[test]
fn score_and_lives() {
    let mut s = session();
    assert_eq!(run(&mut s, "score 777").reply, ConsoleReply::ScoreSet(777));
    assert_eq!(s.score, 777);
    assert_eq!(run(&mut s, "score lots").reply, ConsoleReply::InvalidScore);
    assert_eq!(run(&mut s, "score").reply, ConsoleReply::ScoreUsage);
    assert_eq!(s.score, 777);
    assert_eq!(run(&mut s, "lives 42").reply, ConsoleReply::LivesSet(9));
    assert_eq!(s.lives, 9);
    assert_eq!(run(&mut s, "lives -3").reply, ConsoleReply::LivesSet(0));
    assert_eq!(s.lives, 0);
    assert_eq!(run(&mut s, "lives 5").reply, ConsoleReply::LivesSet(5));
    assert_eq!(s.lives, 5);
    assert_eq!(run(&mut s, "lives many").reply, ConsoleReply::InvalidLives);
    assert_eq!(run(&mut s, "lives").reply, ConsoleReply::LivesUsage);
    assert_eq!(s.lives, 5);
}

#[test]
fn spawning_an_enemy_uses_the_current_wave() {
    let mut s = session();
    let o = run(&mut s, "spawn bomber");
    assert_eq!(o.reply, ConsoleReply::SpawnedEnemy(EnemyType::Bomber));
    let e = o.spawn.unwrap();
    assert_eq!(e.enemy_type, EnemyType::Bomber);
    assert_eq!(e.hp, EnemyType::Bomber.base_hp() + 1);
    assert_eq!(e.shoot_pattern, ShootPattern::Bomb);
    assert!(!o.clear_field);
    assert_eq!(run(&mut s, "spawn kraken").reply, ConsoleReply::UnknownEntity);
    assert_eq!(run(&mut s, "spawn").reply, ConsoleReply::SpawnUsage);
}

#[test]
fn spawning_a_boss_starts_a_fight() {
    let mut s = session();
    let o = run(&mut s, "spawn molly");
    assert_eq!(o.reply, ConsoleReply::SpawnedBoss(BossType::MollyHashpass));
    assert!(o.clear_field);
    assert_eq!(o.next_state, Some(GameState::Playing));
    assert_eq!(s.pirate_count, 0);
    assert_eq!(s.wave_director.current_wave, 99);
    assert_eq!(s.wave_director.wave_state, WaveState::BossFight);
    assert!(s.wave_director.is_boss_wave);
    let b = s.wave_director.current_boss.as_ref().unwrap();
    assert_eq!(b.boss_type, BossType::MollyHashpass);
    assert_eq!(b.health, b.max_health);
    assert_eq!(b.phase, BossPhase::Phase1);
}

#[test]
fn damage_needs_a_boss_and_can_defeat_it() {
    let mut s = session();
    assert_eq!(run(&mut s, "damage 10").reply, ConsoleReply::NoBoss);
    run(&mut s, "spawn blowfish");
    // still flying in: no damage
    assert_eq!(run(&mut s, "damage 10").reply, ConsoleReply::BossDamaged(10));
    assert_eq!(s.wave_director.current_boss.as_ref().unwrap().health, 150);
    s.wave_director.current_boss.as_mut().unwrap().finish_entry();
    assert_eq!(run(&mut s, "damage 10").reply, ConsoleReply::BossDamaged(10));
    assert_eq!(s.wave_director.current_boss.as_ref().unwrap().health, 140);
    assert_eq!(run(&mut s, "damage x").reply, ConsoleReply::InvalidDamage);
    assert_eq!(run(&mut s, "damage").reply, ConsoleReply::DamageUsage);
    s.wave_director.current_boss.as_mut().unwrap().end_invulnerability();
    let score = s.score;
    assert_eq!(run(&mut s, "damage 500").reply, ConsoleReply::BossDefeated);
    assert_eq!(s.score, score + 1000);
    assert_eq!(s.wave_director.wave_state, WaveState::BossDefeated);
    assert!(s.wave_director.current_boss.as_ref().unwrap().is_dead);
}

#[test]
fn overflowing_damage_is_refused_before_it_runs() {
    let mut s = session();
    run(&mut s, "spawn blowfish");
    let cmd = read_console_command("damage -2147483648");
    assert!(!s.can_execute(&cmd));
    let cmd = read_console_command("damage -2000000000");
    assert!(s.can_execute(&cmd));
}

#[test]
fn powerups_hitbox_and_the_rest() {
    let mut s = session();
    let o = run(&mut s, "powerup spread");
    assert_eq!(o.reply, ConsoleReply::GavePowerup(PowerupEffectType::SpreadShot));
    assert_eq!(o.timers, TimerRefresh::One(PowerupEffectType::SpreadShot));
    assert!(!s.ship.has_shield);
    let o = run(&mut s, "powerup shield");
    assert_eq!(o.reply, ConsoleReply::GavePowerup(PowerupEffectType::Shield));
    assert!(s.ship.has_shield && s.powerups.has_shield);
    assert_eq!(run(&mut s, "powerup laser").reply, ConsoleReply::UnknownPowerup);
    assert_eq!(run(&mut s, "powerup").reply, ConsoleReply::PowerupUsage);
    assert_eq!(run(&mut s, "hitbox").reply, ConsoleReply::HitboxOverlay(true));
    assert!(s.hitbox_visible);
    assert_eq!(run(&mut s, "hitbox").reply, ConsoleReply::HitboxOverlay(false));
    let o = run(&mut s, "killall");
    assert_eq!(o.reply, ConsoleReply::AllKilled);
    assert!(o.kill_all);
    assert_eq!(run(&mut s, "help").reply, ConsoleReply::Help);
    assert_eq!(run(&mut s, "state").reply, ConsoleReply::StateReport);
    assert_eq!(run(&mut s, "fps").reply, ConsoleReply::FpsUnavailable);
    assert_eq!(run(&mut s, "reload").reply, ConsoleReply::ReloadRequested);
    assert_eq!(run(&mut s, "time 2").reply, ConsoleReply::TimeScale);
    assert_eq!(run(&mut s, "jump").reply, ConsoleReply::UnknownCommand);
    assert_eq!(run(&mut s, "").reply, ConsoleReply::Silent);
    let o = run(&mut s, "quit");
    assert_eq!(o.reply, ConsoleReply::ReturningToMenu);
    assert_eq!(o.next_state, Some(GameState::MainMenu));
}

#[test]
fn the_input_line_clears_after_every_command() {
    let mut input = String::from("  GOD ");
    let mut cursor: usize = 4;
    assert_eq!(submit_console_input(&mut input, &mut cursor), Some(String::from("god")));
    assert_eq!(input, "");
    assert_eq!(cursor, 0);
    let mut unknown = String::from("Frobnicate");
    let mut c: usize = 3;
    assert_eq!(submit_console_input(&mut unknown, &mut c), Some(String::from("frobnicate")));
    assert_eq!(unknown, "");
    assert_eq!(c, 0);
}

#[test]
fn a_blank_console_line_is_left_alone() {
    let mut input = String::from("   ");
    let mut cursor: usize = 2;
    assert_eq!(submit_console_input(&mut input, &mut cursor), None);
    assert_eq!(input, "   ");
    assert_eq!(cursor, 2);
}

#[test]
fn damage_takes_the_boss_name_then_the_amount() {
    let mut s = session();
    run(&mut s, "spawn blowfish");
    s.wave_director.current_boss.as_mut().unwrap().finish_entry();
    let before = s.wave_director.wave_state;
    assert_eq!(run(&mut s, "damage blowfish 10").reply, ConsoleReply::BossDamaged(10));
    let b = s.wave_director.current_boss.as_ref().unwrap();
    assert_eq!((b.health, b.max_health), (140, 150));
    assert_eq!(s.wave_director.wave_state, before);
    assert_eq!(run(&mut s, "damage blowfish").reply, ConsoleReply::InvalidDamage);
}
