//! Bullets: per-type damage and piercing, and what a hit does to a bullet.

use vstd::prelude::*;

verus! {

/// The kinds of bullet, player and enemy.
#[derive(Clone, Copy, Debug, PartialEq, Eq, Hash, Structural)]
pub enum BulletType {
    PlayerStandard,
    PlayerRapid,
    PlayerSpread,
    PlayerPierce,
    PlayerLaser,
    EnemyStraight,
    EnemyAimed,
    EnemyBomb,
    EnemySpread,
    EnemyFast,
    EnemyLaser,
}

pub open spec fn damage_spec(t: BulletType) -> i32 {
    match t {
        BulletType::PlayerLaser => 2,
        BulletType::EnemyBomb => 2,
        BulletType::EnemyLaser => 3,
        _ => 1,
    }
}

pub open spec fn is_player_spec(t: BulletType) -> bool {
    match t {
        BulletType::PlayerStandard | BulletType::PlayerRapid | BulletType::PlayerSpread
        | BulletType::PlayerPierce | BulletType::PlayerLaser => true,
        _ => false,
    }
}

pub open spec fn is_laser_spec(t: BulletType) -> bool {
    t == BulletType::PlayerLaser || t == BulletType::EnemyLaser
}

pub open spec fn pierce_count_spec(t: BulletType) -> i32 {
    match t {
        BulletType::PlayerPierce => 3,
        BulletType::PlayerLaser => 999,
        BulletType::EnemyLaser => 999,
        _ => 0,
    }
}

/// What the bullet types do: every bullet deals damage; lasers go through
/// everything (and only lasers pierce without end); among the others only
/// the piercing shot goes through anything, three enemies' worth; the
/// player's laser hits harder than the player's other shots, and the enemy
/// laser hits hardest of all.
pub proof fn lemma_bullet_kinds(t: BulletType)
    ensures
        damage_spec(t) >= 1,
        is_laser_spec(t) <==> pierce_count_spec(t) == 999,
        !is_laser_spec(t) ==> (pierce_count_spec(t) > 0 <==> t == BulletType::PlayerPierce),
        pierce_count_spec(BulletType::PlayerPierce) == 3,
        is_player_spec(t) && t != BulletType::PlayerLaser ==> damage_spec(t) < damage_spec(
            BulletType::PlayerLaser,
        ),
        damage_spec(t) <= damage_spec(BulletType::EnemyLaser),
        is_laser_spec(t) ==> (is_player_spec(t) <==> t == BulletType::PlayerLaser),
{
}

pub open spec fn bullet_sprite(t: BulletType) -> Seq<char> {
    match t {
        BulletType::PlayerStandard => "bullet_player_1"@,
        BulletType::PlayerRapid => "bullet_player_1"@,
        BulletType::PlayerSpread => "bullet_player_2"@,
        BulletType::PlayerPierce => "bullet_player_3"@,
        BulletType::PlayerLaser => "bullet_laser"@,
        BulletType::EnemyStraight => "bullet_enemy_1"@,
        BulletType::EnemyAimed => "bullet_enemy_2"@,
        BulletType::EnemyBomb => "bullet_bomb"@,
        BulletType::EnemySpread => "bullet_enemy_3"@,
        BulletType::EnemyFast => "bullet_enemy_4"@,
        BulletType::EnemyLaser => "bullet_laser_enemy"@,
    }
}

impl BulletType {
    pub fn damage(&self) -> (r: i32)
        ensures
            r == damage_spec(*self),
    {
        match self {
            BulletType::PlayerLaser => 2,
            BulletType::EnemyBomb => 2,
            BulletType::EnemyLaser => 3,
            _ => 1,
        }
    }

    pub fn is_player(&self) -> (r: bool)
        ensures
            r == is_player_spec(*self),
    {
        match self {
            BulletType::PlayerStandard | BulletType::PlayerRapid | BulletType::PlayerSpread
            | BulletType::PlayerPierce | BulletType::PlayerLaser => true,
            _ => false,
        }
    }

    pub fn is_laser(&self) -> (r: bool)
        ensures
            r == is_laser_spec(*self),
    {
        match self {
            BulletType::PlayerLaser | BulletType::EnemyLaser => true,
            _ => false,
        }
    }

    pub fn pierce_count(&self) -> (r: i32)
        ensures
            r == pierce_count_spec(*self),
    {
        match self {
            BulletType::PlayerPierce => 3,
            BulletType::PlayerLaser => 999,
            BulletType::EnemyLaser => 999,
            _ => 0,
        }
    }

    pub fn sprite_name(&self) -> (r: &'static str)
        ensures
            r@ == bullet_sprite(*self),
    {
        match self {
            BulletType::PlayerStandard => "bullet_player_1",
            BulletType::PlayerRapid => "bullet_player_1",
            BulletType::PlayerSpread => "bullet_player_2",
            BulletType::PlayerPierce => "bullet_player_3",
            BulletType::PlayerLaser => "bullet_laser",
            BulletType::EnemyStraight => "bullet_enemy_1",
            BulletType::EnemyAimed => "bullet_enemy_2",
            BulletType::EnemyBomb => "bullet_bomb",
            BulletType::EnemySpread => "bullet_enemy_3",
            BulletType::EnemyFast => "bullet_enemy_4",
            BulletType::EnemyLaser => "bullet_laser_enemy",
        }
    }
}

/// The integer side of a bullet.
pub struct Bullet {
    pub bullet_type: BulletType,
    pub damage: i32,
    pub pierce_remaining: i32,
    pub is_dead: bool,
    pub is_laser: bool,
}

impl Bullet {
    /// A fresh bullet of `bullet_type`.
    pub fn new(bullet_type: BulletType) -> (b: Bullet)
        ensures
            b.bullet_type == bullet_type,
            b.damage == damage_spec(bullet_type),
            b.pierce_remaining == pierce_count_spec(bullet_type),
            !b.is_dead,
            b.is_laser == is_laser_spec(bullet_type),
    {
        Bullet {
            bullet_type,
            damage: bullet_type.damage(),
            pierce_remaining: bullet_type.pierce_count(),
            is_dead: false,
            is_laser: bullet_type.is_laser(),
        }
    }

    /// A fresh laser beam of `bullet_type`.
    pub fn new_laser(bullet_type: BulletType) -> (b: Bullet)
        ensures
            b.bullet_type == bullet_type,
            b.damage == damage_spec(bullet_type),
            b.pierce_remaining == pierce_count_spec(bullet_type),
            !b.is_dead,
            b.is_laser,
    {
        Bullet {
            bullet_type,
            damage: bullet_type.damage(),
            pierce_remaining: bullet_type.pierce_count(),
            is_dead: false,
            is_laser: true,
        }
    }

    /// Uses up one pierce on a hit; returns whether the bullet flies on.
    pub fn pierce(&mut self) -> (goes_on: bool)
        ensures
            goes_on == (old(self).pierce_remaining > 0),
            final(self).pierce_remaining == if old(self).pierce_remaining > 0 {
                old(self).pierce_remaining - 1
            } else {
                old(self).pierce_remaining as int
            },
            final(self).bullet_type == old(self).bullet_type,
            final(self).damage == old(self).damage,
            final(self).is_dead == old(self).is_dead,
            final(self).is_laser == old(self).is_laser,
    {
        if self.pierce_remaining > 0 {
            self.pierce_remaining = self.pierce_remaining - 1;
            return self.pierce_remaining >= 0;
        }
        false
    }
}

} // verus!
