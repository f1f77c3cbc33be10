use rusty_ship::boss::{
    attack_interval_ms, attack_plan, broadside_pattern, broadside_row, Boss, BossAttack, BossPhase, BossType,
};

fn fighting(boss_type: BossType, health: i32, phase: BossPhase) -> Boss {
    let mut b = Boss::new(boss_type);
    b.finish_entry();
    b.health = health;
    b.phase = phase;
    b
}

#[test]
fn volleys_per_boss_and_phase() {
    assert_eq!(attack_plan(BossType::Blowfish, BossPhase::Phase1, false), vec![BossAttack::Burst(8)]);
    assert_eq!(
        attack_plan(BossType::Blowfish, BossPhase::Phase2, true),
        vec![BossAttack::Burst(16), BossAttack::Charge]
    );
    assert_eq!(attack_plan(BossType::Blowfish, BossPhase::Phase2, false), vec![BossAttack::Burst(16)]);
    assert_eq!(
        attack_plan(BossType::Twofish, BossPhase::Phase3, false),
        vec![BossAttack::MirrorShot, BossAttack::HomingMissiles(4)]
    );
    assert_eq!(
        attack_plan(BossType::CaptainDavey, BossPhase::Phase3, false),
        vec![BossAttack::Broadside, BossAttack::ScanningBeam]
    );
    assert_eq!(attack_plan(BossType::Deadbeef, BossPhase::Phase3, false), vec![BossAttack::FeastMode]);
}

#[test]
fn volleys_come_faster_in_later_phases() {
    assert_eq!(attack_interval_ms(BossType::Blowfish, BossPhase::Phase1), 2500);
    assert_eq!(attack_interval_ms(BossType::Blowfish, BossPhase::Phase3), 1200);
    assert_eq!(attack_interval_ms(BossType::Deadbeef, BossPhase::Phase3), 800);
    for b in [BossType::Twofish, BossType::RufusReverse, BossType::MollyHashpass, BossType::CaptainDavey] {
        assert!(attack_interval_ms(b, BossPhase::Phase1) > attack_interval_ms(b, BossPhase::Phase2));
        assert!(attack_interval_ms(b, BossPhase::Phase2) > attack_interval_ms(b, BossPhase::Phase3));
    }
}

#[test]
fn a_broadside_row_leaves_a_gap() {
    let row = broadside_row(5, BossPhase::Phase1);
    assert_eq!(row, vec![0, 1, 2, 3, 4, 8, 9, 10, 11, 12, 13, 14, 15, 16, 17, 18, 19]);
    let row = broadside_row(2, BossPhase::Phase3);
    assert_eq!(row.len(), 15);
    assert!(!row.contains(&2) && !row.contains(&6) && row.contains(&7));
}

#[test]
fn a_broadside_has_five_gapped_rows() {
    for phase in [BossPhase::Phase1, BossPhase::Phase2, BossPhase::Phase3] {
        let gap = match phase {
            BossPhase::Phase1 => 3,
            BossPhase::Phase2 => 4,
            BossPhase::Phase3 => 5,
        };
        for _ in 0..10 {
            let rows = broadside_pattern(phase);
            assert_eq!(rows.len(), 5);
            for row in rows {
                let first_gap = (0..20u32).find(|c| !row.contains(c)).unwrap();
                assert!((2..18).contains(&first_gap));
                let cut = gap.min(20 - first_gap as usize);
                assert_eq!(row.len(), 20 - cut);
                assert!((first_gap..first_gap + cut as u32).all(|c| !row.contains(&c)));
            }
        }
    }
}

#[test]
fn a_volley_applies_its_effects() {
    let mut b = fighting(BossType::MollyHashpass, 100, BossPhase::Phase1);
    let v = b.update_attacks();
    assert_eq!(v, vec![BossAttack::PoisonShot, BossAttack::HealNearby]);
    assert_eq!(b.health, 105);
    let mut b = fighting(BossType::MollyHashpass, 218, BossPhase::Phase3);
    b.update_attacks();
    assert_eq!(b.health, 220);
    assert!(b.invulnerable);
    assert_eq!(b.invuln_timer_ms, 3000);
    let mut b = fighting(BossType::MollyHashpass, 50, BossPhase::Phase2);
    assert!(!b.check_revive_signal());
    b.update_attacks();
    assert!(b.check_revive_signal());
    b.clear_revive_signal();
    assert!(!b.check_revive_signal());
    let mut b = fighting(BossType::CaptainDavey, 200, BossPhase::Phase2);
    b.update_attacks();
    assert!(b.check_spawn_minions());
    b.clear_spawn_minions();
    assert!(!b.check_spawn_minions());
    let mut b = fighting(BossType::RufusReverse, 100, BossPhase::Phase1);
    assert!(!b.is_reverse_zone_active());
    b.update_attacks();
    assert!(b.is_reverse_zone_active());
    assert_eq!(b.reverse_zone, 5);
}

#[test]
fn blowfish_sometimes_charges_in_its_second_phase() {
    let mut charged = false;
    let mut held = false;
    for _ in 0..200 {
        let mut b = fighting(BossType::Blowfish, 60, BossPhase::Phase2);
        let v = b.update_attacks();
        assert_eq!(v[0], BossAttack::Burst(16));
        if v.len() == 2 {
            assert_eq!(v[1], BossAttack::Charge);
            assert!(b.invulnerable);
            assert_eq!(b.invuln_timer_ms, 1000);
            charged = true;
        } else {
            assert_eq!(v.len(), 1);
            assert!(!b.invulnerable);
            held = true;
        }
    }
    assert!(charged && held);
}

#[test]
fn heals_are_capped() {
    let mut b = fighting(BossType::Blowfish, 148, BossPhase::Phase1);
    b.heal_nearby();
    assert_eq!(b.health, 150);
    b.health = 10;
    b.heal_beam();
    assert_eq!(b.health, 40);
    b.apply_attack(BossAttack::Burst(8));
    assert_eq!(b.health, 40);
}
