//! Regular enemies: per-type statistics, wave scaling, elite variants,
//! damage with armor, and the weighted choice of which type spawns.

use vstd::prelude::*;
use crate::text::str_eq;
use crate::rng::thread_random_below;

verus! {

/// The kinds of regular enemy.
#[derive(Clone, Copy, Debug, PartialEq, Eq, Hash, Structural)]
pub enum EnemyType {
    Scout,
    Fighter,
    Bomber,
    Interceptor,
    Elite,
}

/// How an enemy shoots.
#[derive(Clone, Copy, Debug, PartialEq, Eq, Structural)]
pub enum ShootPattern {
    NoShot,
    Straight,
    Aimed,
    Bomb,
    Spread,
}

/// What an enemy is doing.
#[derive(Clone, Copy, Debug, PartialEq, Eq, Structural)]
pub enum BehaviorState {
    Entering,
    Formation,
    Diving,
    Returning,
    Idle,
}

pub open spec fn base_hp_spec(t: EnemyType) -> i32 {
    match t {
        EnemyType::Scout => 1,
        EnemyType::Fighter => 2,
        EnemyType::Bomber => 3,
        EnemyType::Interceptor => 2,
        EnemyType::Elite => 4,
    }
}

pub open spec fn base_armor_spec(t: EnemyType) -> i32 {
    match t {
        EnemyType::Scout => 0,
        EnemyType::Fighter => 0,
        EnemyType::Bomber => 1,
        EnemyType::Interceptor => 0,
        EnemyType::Elite => 2,
    }
}

pub open spec fn shoot_pattern_spec(t: EnemyType) -> ShootPattern {
    match t {
        EnemyType::Scout => ShootPattern::NoShot,
        EnemyType::Fighter => ShootPattern::Straight,
        EnemyType::Bomber => ShootPattern::Bomb,
        EnemyType::Interceptor => ShootPattern::Aimed,
        EnemyType::Elite => ShootPattern::Spread,
    }
}

/// How the enemy types compare: every type has health and no negative
/// armor; scouts are the weakest and bombers the toughest of the four
/// baseline types; interceptors are built like fighters; the elite type is a
/// fighter with two more health and two more armor. Tougher types are worth
/// more: scout, fighter, interceptor, bomber and elite, in rising order of
/// score.
pub proof fn lemma_enemy_stats(t: EnemyType)
    ensures
        base_hp_spec(t) >= 1 && base_armor_spec(t) >= 0,
        base_hp_spec(EnemyType::Scout) <= base_hp_spec(t),
        base_armor_spec(EnemyType::Scout) <= base_armor_spec(t),
        t != EnemyType::Elite ==> base_hp_spec(t) <= base_hp_spec(EnemyType::Bomber)
            && base_armor_spec(t) <= base_armor_spec(EnemyType::Bomber),
        base_hp_spec(EnemyType::Interceptor) == base_hp_spec(EnemyType::Fighter),
        base_armor_spec(EnemyType::Interceptor) == base_armor_spec(EnemyType::Fighter),
        base_hp_spec(EnemyType::Elite) == base_hp_spec(EnemyType::Fighter) + 2,
        base_armor_spec(EnemyType::Elite) == base_armor_spec(EnemyType::Fighter) + 2,
        score_value_spec(EnemyType::Scout) < score_value_spec(EnemyType::Fighter)
            < score_value_spec(EnemyType::Interceptor) < score_value_spec(EnemyType::Bomber)
            < score_value_spec(EnemyType::Elite),
{
}

/// How enemies grow with the waves: in wave zero an enemy has its type's
/// base health and armor; every three waves add one health and every five
/// one armor; a fresh enemy is alive and at full health.
pub proof fn lemma_enemies_grow_with_the_waves(t: EnemyType, w: u32)
    ensures
        Enemy::new_spec(t, 0).hp == base_hp_spec(t),
        Enemy::new_spec(t, 0).armor == base_armor_spec(t),
        w <= u32::MAX - 3 ==> Enemy::new_spec(t, (w + 3) as u32).hp == Enemy::new_spec(t, w).hp + 1,
        w <= u32::MAX - 5 ==> Enemy::new_spec(t, (w + 5) as u32).armor == Enemy::new_spec(t, w).armor
            + 1,
        Enemy::new_spec(t, w).hp == Enemy::new_spec(t, w).max_hp,
        !Enemy::new_spec(t, w).is_dead,
{
}

/// The enemy type that fires each pattern, pattern by pattern: scouts hold
/// fire, fighters fire straight, interceptors aim, bombers drop bombs and
/// elites spread.
pub open spec fn shooter_of(p: ShootPattern) -> EnemyType {
    match p {
        ShootPattern::NoShot => EnemyType::Scout,
        ShootPattern::Straight => EnemyType::Fighter,
        ShootPattern::Aimed => EnemyType::Interceptor,
        ShootPattern::Bomb => EnemyType::Bomber,
        ShootPattern::Spread => EnemyType::Elite,
    }
}

/// The pattern an elite variant of a type fires.
pub open spec fn elite_pattern_spec(t: EnemyType) -> ShootPattern {
    match t {
        EnemyType::Fighter => ShootPattern::Spread,
        EnemyType::Interceptor => ShootPattern::Aimed,
        EnemyType::Bomber => ShootPattern::Bomb,
        _ => ShootPattern::Straight,
    }
}

/// How the enemy types shoot: each pattern belongs to exactly one type (the
/// one `shooter_of` names), so no two types shoot alike; only scouts do not
/// shoot; elite bombers and interceptors keep their type's pattern, an
/// elite fighter spreads like the elite type, and every elite shoots.
pub proof fn lemma_shooting_patterns(t: EnemyType, u: EnemyType, p: ShootPattern, wave: u32)
    ensures
        shooter_of(shoot_pattern_spec(t)) == t,
        shoot_pattern_spec(shooter_of(p)) == p,
        shoot_pattern_spec(t) == shoot_pattern_spec(u) ==> t == u,
        (shoot_pattern_spec(t) == ShootPattern::NoShot) <==> t == EnemyType::Scout,
        Enemy::new_spec(t, wave).shoot_pattern == shoot_pattern_spec(t),
        (t == EnemyType::Bomber || t == EnemyType::Interceptor) ==> elite_pattern_spec(t)
            == shoot_pattern_spec(t),
        elite_pattern_spec(EnemyType::Fighter) == shoot_pattern_spec(EnemyType::Elite),
        elite_pattern_spec(t) != ShootPattern::NoShot,
{
}

pub open spec fn score_value_spec(t: EnemyType) -> i32 {
    match t {
        EnemyType::Scout => 10,
        EnemyType::Fighter => 25,
        EnemyType::Bomber => 50,
        EnemyType::Interceptor => 40,
        EnemyType::Elite => 100,
    }
}

pub open spec fn enemy_sprite(t: EnemyType) -> Seq<char> {
    match t {
        EnemyType::Scout => "scout"@,
        EnemyType::Fighter => "fighter"@,
        EnemyType::Bomber => "bomber"@,
        EnemyType::Interceptor => "interceptor"@,
        EnemyType::Elite => "fighter"@,
    }
}

/// Content key of an enemy type.
pub open spec fn enemy_key(t: EnemyType) -> Seq<char> {
    match t {
        EnemyType::Scout => "scout"@,
        EnemyType::Fighter => "fighter"@,
        EnemyType::Bomber => "bomber"@,
        EnemyType::Interceptor => "interceptor"@,
        EnemyType::Elite => "elite"@,
    }
}

impl EnemyType {
    pub fn base_hp(&self) -> (r: i32)
        ensures
            r == base_hp_spec(*self),
    {
        match self {
            EnemyType::Scout => 1,
            EnemyType::Fighter => 2,
            EnemyType::Bomber => 3,
            EnemyType::Interceptor => 2,
            EnemyType::Elite => 4,
        }
    }

    pub fn base_armor(&self) -> (r: i32)
        ensures
            r == base_armor_spec(*self),
    {
        match self {
            EnemyType::Scout => 0,
            EnemyType::Fighter => 0,
            EnemyType::Bomber => 1,
            EnemyType::Interceptor => 0,
            EnemyType::Elite => 2,
        }
    }

    pub fn shoot_pattern(&self) -> (r: ShootPattern)
        ensures
            r == shoot_pattern_spec(*self),
    {
        match self {
            EnemyType::Scout => ShootPattern::NoShot,
            EnemyType::Fighter => ShootPattern::Straight,
            EnemyType::Bomber => ShootPattern::Bomb,
            EnemyType::Interceptor => ShootPattern::Aimed,
            EnemyType::Elite => ShootPattern::Spread,
        }
    }

    pub fn score_value(&self) -> (r: i32)
        ensures
            r == score_value_spec(*self),
    {
        match self {
            EnemyType::Scout => 10,
            EnemyType::Fighter => 25,
            EnemyType::Bomber => 50,
            EnemyType::Interceptor => 40,
            EnemyType::Elite => 100,
        }
    }

    pub fn sprite_name(&self) -> (r: &'static str)
        ensures
            r@ == enemy_sprite(*self),
    {
        match self {
            EnemyType::Scout => "scout",
            EnemyType::Fighter => "fighter",
            EnemyType::Bomber => "bomber",
            EnemyType::Interceptor => "interceptor",
            EnemyType::Elite => "fighter",
        }
    }

    pub fn is_elite(&self) -> (r: bool)
        ensures
            r == (*self == EnemyType::Elite),
    {
        match self {
            EnemyType::Elite => true,
            _ => false,
        }
    }

    /// Looks a type up by its content key (`scout`, `fighter`, ...).
    pub fn from_key(key: &str) -> (r: Option<EnemyType>)
        ensures
            match r {
                Some(t) => key@ == enemy_key(t),
                None => forall|t: EnemyType| key@ != #[trigger] enemy_key(t),
            },
    {
        if str_eq(key, "scout") {
            Some(EnemyType::Scout)
        } else if str_eq(key, "fighter") {
            Some(EnemyType::Fighter)
        } else if str_eq(key, "bomber") {
            Some(EnemyType::Bomber)
        } else if str_eq(key, "interceptor") {
            Some(EnemyType::Interceptor)
        } else if str_eq(key, "elite") {
            Some(EnemyType::Elite)
        } else {
            assert forall|t: EnemyType| key@ != #[trigger] enemy_key(t) by {
                match t {
                    EnemyType::Scout => {},
                    EnemyType::Fighter => {},
                    EnemyType::Bomber => {},
                    EnemyType::Interceptor => {},
                    EnemyType::Elite => {},
                }
            }
            None
        }
    }
}

/// The integer side of an enemy: its type, health, armor and what it is worth.
pub struct Enemy {
    pub enemy_type: EnemyType,
    pub hp: i32,
    pub max_hp: i32,
    pub armor: i32,
    pub is_dead: bool,
    pub shoot_pattern: ShootPattern,
    pub score_value: i32,
    pub is_elite: bool,
    pub entry_anim: bool,
    pub behavior_state: BehaviorState,
}

impl Enemy {
    /// The enemy `Enemy::new` builds.
    pub open spec fn new_spec(enemy_type: EnemyType, wave: u32) -> Enemy {
        Enemy {
            enemy_type,
            hp: (base_hp_spec(enemy_type) + wave / 3) as i32,
            max_hp: (base_hp_spec(enemy_type) + wave / 3) as i32,
            armor: (base_armor_spec(enemy_type) + wave / 5) as i32,
            is_dead: false,
            shoot_pattern: shoot_pattern_spec(enemy_type),
            score_value: score_value_spec(enemy_type),
            is_elite: enemy_type == EnemyType::Elite,
            entry_anim: true,
            behavior_state: BehaviorState::Entering,
        }
    }

    /// A fresh enemy of `enemy_type` spawned in `wave`: one extra health per
    /// three waves and one extra armor per five.
    pub fn new(enemy_type: EnemyType, wave: u32) -> (e: Enemy)
        ensures
            e.enemy_type == enemy_type,
            e.hp == base_hp_spec(enemy_type) + wave / 3,
            e.max_hp == e.hp,
            e.armor == base_armor_spec(enemy_type) + wave / 5,
            !e.is_dead,
            e.shoot_pattern == shoot_pattern_spec(enemy_type),
            e.score_value == score_value_spec(enemy_type),
            e.is_elite == (enemy_type == EnemyType::Elite),
            e.entry_anim,
            e.behavior_state == BehaviorState::Entering,
            e == Enemy::new_spec(enemy_type, wave),
    {
        let hp = enemy_type.base_hp() + (wave / 3) as i32;
        let armor = enemy_type.base_armor() + (wave / 5) as i32;
        Enemy {
            enemy_type,
            hp,
            max_hp: hp,
            armor,
            is_dead: false,
            shoot_pattern: enemy_type.shoot_pattern(),
            score_value: enemy_type.score_value(),
            is_elite: enemy_type.is_elite(),
            entry_anim: true,
            behavior_state: BehaviorState::Entering,
        }
    }

    /// An elite variant: two more health and two more armor than the plain
    /// enemy of its wave, twice the score, and a stronger shooting pattern.
    pub fn new_elite(enemy_type: EnemyType, wave: u32) -> (e: Enemy)
        ensures
            e.enemy_type == enemy_type,
            e.hp == base_hp_spec(enemy_type) + wave / 3 + 2,
            e.max_hp == e.hp,
            e.armor == base_armor_spec(enemy_type) + wave / 5 + 2,
            !e.is_dead,
            e.shoot_pattern == elite_pattern_spec(enemy_type),
            e.score_value == score_value_spec(enemy_type) * 2,
            e.is_elite,
            e.entry_anim,
            e.behavior_state == BehaviorState::Entering,
    {
        let mut e = Enemy::new(enemy_type, wave);
        e.is_elite = true;
        e.hp = e.hp + 2;
        e.max_hp = e.hp;
        e.armor = e.armor + 2;
        e.score_value = e.score_value * 2;
        e.shoot_pattern = match enemy_type {
            EnemyType::Fighter => ShootPattern::Spread,
            EnemyType::Interceptor => ShootPattern::Aimed,
            EnemyType::Bomber => ShootPattern::Bomb,
            _ => ShootPattern::Straight,
        };
        e
    }

    /// The damage a hit of `damage` does through the armor: at least one.
    pub open spec fn through(self, damage: int) -> int {
        if damage - self.armor >= 1 {
            damage - self.armor
        } else {
            1
        }
    }

    /// Whether a hit of `damage` can be worked out in `i32`.
    pub open spec fn damage_fits(self, damage: int) -> bool {
        &&& i32::MIN <= damage - self.armor <= i32::MAX
        &&& i32::MIN <= self.hp - self.through(damage)
    }

    /// Whether a hit of `damage` leaves the enemy with no health.
    pub open spec fn damage_kills(self, damage: int) -> bool {
        self.hp - self.through(damage) <= 0
    }

    /// The enemy after a hit of `damage`.
    pub open spec fn after_damage(self, damage: int) -> Enemy {
        if self.damage_kills(damage) {
            Enemy { hp: 0, is_dead: true, ..self }
        } else {
            Enemy { hp: (self.hp - self.through(damage)) as i32, ..self }
        }
    }

    /// Whether a hit of `damage` can be worked out in `i32`, that is whether
    /// `take_damage` accepts it.
    pub fn can_take_damage(&self, damage: i32) -> (r: bool)
        ensures
            r == self.damage_fits(damage as int),
    {
        let d = damage as i64 - self.armor as i64;
        if d < i32::MIN as i64 || d > i32::MAX as i64 {
            return false;
        }
        let through = if d >= 1 {
            d
        } else {
            1
        };
        self.hp as i64 - through >= i32::MIN as i64
    }

    /// Applies a hit: armor absorbs part of it but at least one point gets
    /// through. Returns `true` when this hit leaves the enemy with no health;
    /// health is then clamped to zero and the enemy is dead.
    pub fn take_damage(&mut self, damage: i32) -> (killed: bool)
        requires
            old(self).damage_fits(damage as int),
        ensures
            killed == old(self).damage_kills(damage as int),
            *final(self) == old(self).after_damage(damage as int),
            ({
                let actual = if damage - old(self).armor >= 1 {
                    damage - old(self).armor
                } else {
                    1
                };
                &&& killed == (old(self).hp - actual <= 0)
                &&& final(self).hp == if killed {
                    0
                } else {
                    old(self).hp - actual
                }
                &&& final(self).is_dead == (killed || old(self).is_dead)
            }),
            final(self).enemy_type == old(self).enemy_type,
            final(self).max_hp == old(self).max_hp,
            final(self).armor == old(self).armor,
            final(self).shoot_pattern == old(self).shoot_pattern,
            final(self).score_value == old(self).score_value,
            final(self).is_elite == old(self).is_elite,
            final(self).entry_anim == old(self).entry_anim,
            final(self).behavior_state == old(self).behavior_state,
    {
        let d = damage - self.armor;
        let actual = if d >= 1 {
            d
        } else {
            1
        };
        self.hp = self.hp - actual;
        if self.hp <= 0 {
            self.hp = 0;
            self.is_dead = true;
            return true;
        }
        false
    }
}

/// Spawn weights of each type in a wave, in hundredths; the first two waves
/// send scouts only.
pub open spec fn spawn_weights_spec(wave: u32) -> Seq<(EnemyType, u32)> {
    let (s, f, b, i, e) = if 1 <= wave <= 2 {
        (100u32, 0u32, 0u32, 0u32, 0u32)
    } else if 3 <= wave <= 4 {
        (100, 80, 30, 10, 0)
    } else if 5 <= wave <= 6 {
        (100, 100, 50, 40, 0)
    } else if 7 <= wave <= 9 {
        (100, 100, 80, 60, 5)
    } else if 10 <= wave <= 14 {
        (50, 100, 100, 80, 15)
    } else {
        (30, 100, 100, 100, 25)
    };
    seq![
        (EnemyType::Scout, s),
        (EnemyType::Fighter, f),
        (EnemyType::Bomber, b),
        (EnemyType::Interceptor, i),
        (EnemyType::Elite, e),
    ]
}

/// How the spawn weights move through the game: the first two waves send
/// scouts only; elites turn up from wave seven (and in the endless waves);
/// from one wave to a later one, scouts never get commoner and no other
/// type gets rarer; every wave sends something, and the table always lists
/// scout, fighter, bomber, interceptor and elite in that order.
pub proof fn lemma_spawn_weights_over_the_waves(w1: u32, w2: u32, k: int)
    ensures
        spawn_weights_spec(w1).len() == 5,
        spawn_weights_spec(w1)[0].0 == EnemyType::Scout && spawn_weights_spec(w1)[1].0
            == EnemyType::Fighter && spawn_weights_spec(w1)[2].0 == EnemyType::Bomber
            && spawn_weights_spec(w1)[3].0 == EnemyType::Interceptor && spawn_weights_spec(w1)[4].0
            == EnemyType::Elite,
        (1 <= w1 <= 2 && 1 <= k < 5) ==> spawn_weights_spec(w1)[k].1 == 0,
        spawn_weights_spec(w1)[0].1 > 0,
        (spawn_weights_spec(w1)[4].1 > 0) <==> (w1 == 0 || w1 >= 7),
        1 <= w1 <= w2 ==> spawn_weights_spec(w1)[0].1 >= spawn_weights_spec(w2)[0].1,
        (1 <= w1 <= w2 && 1 <= k < 5) ==> spawn_weights_spec(w1)[k].1 <= spawn_weights_spec(
            w2,
        )[k].1,
{
}

/// Spawn weights of each type in `wave`, in hundredths, in the order
/// Scout, Fighter, Bomber, Interceptor, Elite.
pub fn get_spawn_weights(wave: u32) -> (w: Vec<(EnemyType, u32)>)
    ensures
        w@ == spawn_weights_spec(wave),
{
    let (s, f, b, i, e) = if 1 <= wave && wave <= 2 {
        (100u32, 0u32, 0u32, 0u32, 0u32)
    } else if 3 <= wave && wave <= 4 {
        (100, 80, 30, 10, 0)
    } else if 5 <= wave && wave <= 6 {
        (100, 100, 50, 40, 0)
    } else if 7 <= wave && wave <= 9 {
        (100, 100, 80, 60, 5)
    } else if 10 <= wave && wave <= 14 {
        (50, 100, 100, 80, 15)
    } else {
        (30, 100, 100, 100, 25)
    };
    let w = vec![
        (EnemyType::Scout, s),
        (EnemyType::Fighter, f),
        (EnemyType::Bomber, b),
        (EnemyType::Interceptor, i),
        (EnemyType::Elite, e),
    ];
    assert(w@ =~= spawn_weights_spec(wave));
    w
}

/// Sum of the weights.
pub open spec fn total_weight(ws: Seq<(EnemyType, u32)>) -> int
    decreases ws.len(),
{
    if ws.len() == 0 {
        0
    } else {
        ws[0].1 + total_weight(ws.drop_first())
    }
}

/// The type a roll lands on: walking the table, the first entry whose weight
/// is at least what is left of the roll; Scout when none is.
pub open spec fn select_spec(ws: Seq<(EnemyType, u32)>, roll: int) -> EnemyType
    decreases ws.len(),
{
    if ws.len() == 0 {
        EnemyType::Scout
    } else if roll <= ws[0].1 {
        ws[0].0
    } else {
        select_spec(ws.drop_first(), roll - ws[0].1)
    }
}

/// The type a roll lands on in a weight table.
pub fn select_with_roll(ws: &Vec<(EnemyType, u32)>, roll: u32) -> (t: EnemyType)
    ensures
        t == select_spec(ws@, roll as int),
{
    let mut r: u32 = roll;
    let mut i: usize = 0;
    assert(ws@.skip(0) =~= ws@);
    while i < ws.len()
        invariant
            i <= ws@.len(),
            select_spec(ws@, roll as int) == select_spec(ws@.skip(i as int), r as int),
        decreases ws@.len() - i,
    {
        let (t, w) = ws[i];
        assert(ws@.skip(i as int).drop_first() =~= ws@.skip(i + 1));
        assert(ws@.skip(i as int)[0] == ws@[i as int]);
        if r <= w {
            return t;
        }
        r = r - w;
        i = i + 1;
    }
    assert(ws@.skip(i as int).len() == 0);
    EnemyType::Scout
}

/// Picks the type of the next enemy of `wave`: a roll from 1 up to the
/// total weight, taken at random, walked down the wave's weight table, so
/// each type is picked in proportion to its weight.
pub fn select_enemy_type(wave: u32) -> (t: EnemyType)
    ensures
        exists|roll: int|
            1 <= roll <= total_weight(spawn_weights_spec(wave)) && t == select_spec(
                spawn_weights_spec(wave),
                roll,
            ),
{
    let ws = get_spawn_weights(wave);
    let total = ws[0].1 + ws[1].1 + ws[2].1 + ws[3].1 + ws[4].1;
    proof {
        reveal_with_fuel(total_weight, 6);
    }
    let roll = thread_random_below(total) + 1;
    select_with_roll(&ws, roll)
}

} // verus!
