//! Bosses: identity tables, combat state (health, phases, invulnerability,
//! signals to the rest of the game) and the attack schedule of each phase.

use vstd::prelude::*;
use crate::text::{str_eq, string_from_chars, chars_of};
use crate::rng::quad_random_range;

verus! {

/// The six bosses of the campaign.
#[derive(Clone, Copy, Debug, PartialEq, Eq, Hash, Structural)]
pub enum BossType {
    Blowfish,
    Twofish,
    RufusReverse,
    MollyHashpass,
    CaptainDavey,
    Deadbeef,
}

/// Display name of a boss.
pub open spec fn boss_name(b: BossType) -> Seq<char> {
    match b {
        BossType::Blowfish => "Blowfish"@,
        BossType::Twofish => "Twofish"@,
        BossType::RufusReverse => "Rufus Reverse"@,
        BossType::MollyHashpass => "Molly Hashpass"@,
        BossType::CaptainDavey => "Captain Davey Portscan"@,
        BossType::Deadbeef => "Deadbeef"@,
    }
}

/// Starting (and maximum) health of a boss.
pub open spec fn boss_max_health(b: BossType) -> i32 {
    match b {
        BossType::Blowfish => 150,
        BossType::Twofish => 200,
        BossType::RufusReverse => 180,
        BossType::MollyHashpass => 220,
        BossType::CaptainDavey => 500,
        BossType::Deadbeef => 300,
    }
}

/// Portrait file stem of a boss.
pub open spec fn boss_portrait(b: BossType) -> Seq<char> {
    match b {
        BossType::Blowfish => "blowfish"@,
        BossType::Twofish => "twofish"@,
        BossType::RufusReverse => "rufus_reverse"@,
        BossType::MollyHashpass => "molly_hashpass"@,
        BossType::CaptainDavey => "captain_davey_portscan"@,
        BossType::Deadbeef => "deadbeef"@,
    }
}

/// Sprite file stem of a boss, which is also its key in the content files.
pub open spec fn boss_sprite(b: BossType) -> Seq<char> {
    match b {
        BossType::Blowfish => "blowfish"@,
        BossType::Twofish => "twofish"@,
        BossType::RufusReverse => "rufus_reverse"@,
        BossType::MollyHashpass => "molly_hashpass"@,
        BossType::CaptainDavey => "captain_davey"@,
        BossType::Deadbeef => "deadbeef"@,
    }
}

/// The variant name of a boss, as it is written in dialogue files.
pub open spec fn boss_variant(b: BossType) -> Seq<char> {
    match b {
        BossType::Blowfish => "Blowfish"@,
        BossType::Twofish => "Twofish"@,
        BossType::RufusReverse => "RufusReverse"@,
        BossType::MollyHashpass => "MollyHashpass"@,
        BossType::CaptainDavey => "CaptainDavey"@,
        BossType::Deadbeef => "Deadbeef"@,
    }
}

/// ASCII lowercasing with spaces turned into underscores.
pub open spec fn slug(s: Seq<char>) -> Seq<char> {
    s.map_values(
        |c: char|
            if 'A' <= c <= 'Z' {
                ((c as u32) + 32) as char
            } else if c == ' ' {
                '_'
            } else {
                c
            },
    )
}

/// The slug of a boss's display name.
pub open spec fn boss_slug(b: BossType) -> Seq<char> {
    match b {
        BossType::Blowfish => "blowfish"@,
        BossType::Twofish => "twofish"@,
        BossType::RufusReverse => "rufus_reverse"@,
        BossType::MollyHashpass => "molly_hashpass"@,
        BossType::CaptainDavey => "captain_davey_portscan"@,
        BossType::Deadbeef => "deadbeef"@,
    }
}

/// The slug table is the slug of the display names.
pub proof fn lemma_boss_slug_is_slug_of_name(b: BossType)
    ensures
        boss_slug(b) == slug(boss_name(b)),
{
    reveal_strlit("Blowfish");
    reveal_strlit("blowfish");
    reveal_strlit("Twofish");
    reveal_strlit("twofish");
    reveal_strlit("Rufus Reverse");
    reveal_strlit("rufus_reverse");
    reveal_strlit("Molly Hashpass");
    reveal_strlit("molly_hashpass");
    reveal_strlit("Captain Davey Portscan");
    reveal_strlit("captain_davey_portscan");
    reveal_strlit("Deadbeef");
    reveal_strlit("deadbeef");
    assert(boss_slug(b) =~= slug(boss_name(b)));
}

fn slug_str(b: BossType) -> (s: &'static str)
    ensures
        s@ == boss_slug(b),
{
    match b {
        BossType::Blowfish => "blowfish",
        BossType::Twofish => "twofish",
        BossType::RufusReverse => "rufus_reverse",
        BossType::MollyHashpass => "molly_hashpass",
        BossType::CaptainDavey => "captain_davey_portscan",
        BossType::Deadbeef => "deadbeef",
    }
}

fn concat_strs(a: &str, b: &str) -> (r: String)
    ensures
        r@ == a@ + b@,
{
    let mut v = chars_of(a);
    let w = chars_of(b);
    let mut i: usize = 0;
    let ghost v0 = v@;
    while i < w.len()
        invariant
            i <= w@.len(),
            v@ == v0 + w@.take(i as int),
        decreases w@.len() - i,
    {
        v.push(w[i]);
        i = i + 1;
        assert(v@ =~= v0 + w@.take(i as int));
    }
    assert(w@.take(w@.len() as int) =~= w@);
    string_from_chars(v.as_slice())
}

impl BossType {
    /// Display name.
    pub fn name(&self) -> (r: &'static str)
        ensures
            r@ == boss_name(*self),
    {
        match self {
            BossType::Blowfish => "Blowfish",
            BossType::Twofish => "Twofish",
            BossType::RufusReverse => "Rufus Reverse",
            BossType::MollyHashpass => "Molly Hashpass",
            BossType::CaptainDavey => "Captain Davey Portscan",
            BossType::Deadbeef => "Deadbeef",
        }
    }

    /// Starting health.
    pub fn max_health(&self) -> (r: i32)
        ensures
            r == boss_max_health(*self),
    {
        match self {
            BossType::Blowfish => 150,
            BossType::Twofish => 200,
            BossType::RufusReverse => 180,
            BossType::MollyHashpass => 220,
            BossType::CaptainDavey => 500,
            BossType::Deadbeef => 300,
        }
    }

    /// Portrait file stem.
    pub fn portrait_filename(&self) -> (r: &'static str)
        ensures
            r@ == boss_portrait(*self),
    {
        match self {
            BossType::Blowfish => "blowfish",
            BossType::Twofish => "twofish",
            BossType::RufusReverse => "rufus_reverse",
            BossType::MollyHashpass => "molly_hashpass",
            BossType::CaptainDavey => "captain_davey_portscan",
            BossType::Deadbeef => "deadbeef",
        }
    }

    /// Sprite file stem.
    pub fn sprite_filename(&self) -> (r: &'static str)
        ensures
            r@ == boss_sprite(*self),
    {
        match self {
            BossType::Blowfish => "blowfish",
            BossType::Twofish => "twofish",
            BossType::RufusReverse => "rufus_reverse",
            BossType::MollyHashpass => "molly_hashpass",
            BossType::CaptainDavey => "captain_davey",
            BossType::Deadbeef => "deadbeef",
        }
    }

    /// Id of the boss's intro dialogue: `boss_intro_` and the slug of its name.
    pub fn dialogue_intro_id(&self) -> (r: String)
        ensures
            r@ == "boss_intro_"@ + slug(boss_name(*self)),
    {
        proof {
            lemma_boss_slug_is_slug_of_name(*self);
        }
        concat_strs("boss_intro_", slug_str(*self))
    }

    /// Id of the boss's defeat dialogue: `boss_defeat_` and the slug of its name.
    pub fn dialogue_defeat_id(&self) -> (r: String)
        ensures
            r@ == "boss_defeat_"@ + slug(boss_name(*self)),
    {
        proof {
            lemma_boss_slug_is_slug_of_name(*self);
        }
        concat_strs("boss_defeat_", slug_str(*self))
    }

    /// Parses a variant name such as `RufusReverse`.
    pub fn from_str(s: &str) -> (r: Result<BossType, ()>)
        ensures
            match r {
                Ok(b) => s@ == boss_variant(b),
                Err(_) => forall|b: BossType| s@ != #[trigger] boss_variant(b),
            },
    {
        if str_eq(s, "Blowfish") {
            Ok(BossType::Blowfish)
        } else if str_eq(s, "Twofish") {
            Ok(BossType::Twofish)
        } else if str_eq(s, "RufusReverse") {
            Ok(BossType::RufusReverse)
        } else if str_eq(s, "MollyHashpass") {
            Ok(BossType::MollyHashpass)
        } else if str_eq(s, "CaptainDavey") {
            Ok(BossType::CaptainDavey)
        } else if str_eq(s, "Deadbeef") {
            Ok(BossType::Deadbeef)
        } else {
            assert forall|b: BossType| s@ != #[trigger] boss_variant(b) by {
                match b {
                    BossType::Blowfish => {},
                    BossType::Twofish => {},
                    BossType::RufusReverse => {},
                    BossType::MollyHashpass => {},
                    BossType::CaptainDavey => {},
                    BossType::Deadbeef => {},
                }
            }
            Err(())
        }
    }

    /// Looks a boss up by its content key (its sprite stem, such as `captain_davey`).
    pub fn from_key(key: &str) -> (r: Option<BossType>)
        ensures
            match r {
                Some(b) => key@ == boss_sprite(b),
                None => forall|b: BossType| key@ != #[trigger] boss_sprite(b),
            },
    {
        if str_eq(key, "blowfish") {
            Some(BossType::Blowfish)
        } else if str_eq(key, "twofish") {
            Some(BossType::Twofish)
        } else if str_eq(key, "rufus_reverse") {
            Some(BossType::RufusReverse)
        } else if str_eq(key, "molly_hashpass") {
            Some(BossType::MollyHashpass)
        } else if str_eq(key, "captain_davey") {
            Some(BossType::CaptainDavey)
        } else if str_eq(key, "deadbeef") {
            Some(BossType::Deadbeef)
        } else {
            assert forall|b: BossType| key@ != #[trigger] boss_sprite(b) by {
                match b {
                    BossType::Blowfish => {},
                    BossType::Twofish => {},
                    BossType::RufusReverse => {},
                    BossType::MollyHashpass => {},
                    BossType::CaptainDavey => {},
                    BossType::Deadbeef => {},
                }
            }
            None
        }
    }
}

/// Variant names and content keys each name one boss: parsing a boss's own
/// name gives that boss back.
pub proof fn lemma_boss_names_round_trip(b: BossType, c: BossType)
    ensures
        boss_variant(b) == boss_variant(c) ==> b == c,
        boss_sprite(b) == boss_sprite(c) ==> b == c,
{
    reveal_strlit("Blowfish");
    reveal_strlit("Twofish");
    reveal_strlit("RufusReverse");
    reveal_strlit("MollyHashpass");
    reveal_strlit("CaptainDavey");
    reveal_strlit("Deadbeef");
    reveal_strlit("blowfish");
    reveal_strlit("twofish");
    reveal_strlit("rufus_reverse");
    reveal_strlit("molly_hashpass");
    reveal_strlit("captain_davey");
    reveal_strlit("deadbeef");
    if b != c {
        assert(boss_variant(b)[0] != boss_variant(c)[0] || boss_variant(b).len() != boss_variant(
            c,
        ).len());
        assert(boss_sprite(b)[0] != boss_sprite(c)[0] || boss_sprite(b).len() != boss_sprite(
            c,
        ).len());
    }
}


/// The three stages of a boss fight, entered as health drops.
#[derive(Clone, Copy, Debug, PartialEq, Eq, Structural)]
pub enum BossPhase {
    Phase1,
    Phase2,
    Phase3,
}

/// Position of a phase: 0, 1 or 2.
pub open spec fn phase_rank(p: BossPhase) -> int {
    match p {
        BossPhase::Phase1 => 0,
        BossPhase::Phase2 => 1,
        BossPhase::Phase3 => 2,
    }
}

/// The phase for a health level: at most a fifth of the maximum is phase 3,
/// at most half is phase 2, anything above is phase 1.
pub open spec fn phase_for(health: int, max_health: int) -> BossPhase {
    if 5 * health <= max_health {
        BossPhase::Phase3
    } else if 2 * health <= max_health {
        BossPhase::Phase2
    } else {
        BossPhase::Phase1
    }
}

/// Less health never means an earlier phase.
pub proof fn lemma_phase_monotone(h1: int, h2: int, max_health: int)
    requires
        h1 <= h2,
        max_health > 0,
    ensures
        phase_rank(phase_for(h1, max_health)) >= phase_rank(phase_for(h2, max_health)),
{
}

/// A hit keeps a valid boss valid: its health stays between zero and its
/// maximum, never rises, and a boss at zero health is dead.
pub proof fn lemma_hit_keeps_boss_valid(b: Boss, damage: int)
    requires
        b.wf(),
        damage >= 0,
    ensures
        b.after_hit(damage).wf(),
        b.after_hit(damage).health <= b.health,
        b.after_hit(damage).max_health == b.max_health,
{
}

/// Hits do not stack: right after a hit (landed or ignored) a second hit,
/// before the invulnerability ends, changes nothing and cannot kill.
pub proof fn lemma_second_hit_is_ignored(b: Boss, first: int, second: int)
    ensures
        b.after_hit(first).after_hit(second) == b.after_hit(first),
        !b.after_hit(first).hit_kills(second),
{
}

/// An attack a boss can launch.
#[derive(Clone, Copy, Debug, PartialEq, Eq, Structural)]
pub enum BossAttack {
    Burst(u32),
    Charge,
    MirrorShot,
    SplitAttack,
    HomingMissiles(u32),
    ReverseZone,
    ScatterShot,
    FullReverse,
    PoisonShot,
    HealNearby,
    PoisonCloud,
    ReviveMinions,
    HealBeam,
    ScanningBeam,
    SpawnMinions,
    Broadside,
    ThrowFood,
    SpicySauce,
    FeastMode,
}

/// Milliseconds between two volleys of a boss in a phase.
pub open spec fn attack_interval_spec(b: BossType, p: BossPhase) -> u32 {
    match (b, p) {
        (BossType::Blowfish, BossPhase::Phase1) => 2500,
        (BossType::Blowfish, BossPhase::Phase2) => 1800,
        (BossType::Blowfish, BossPhase::Phase3) => 1200,
        (BossType::Twofish, BossPhase::Phase1) => 2000,
        (BossType::Twofish, BossPhase::Phase2) => 1500,
        (BossType::Twofish, BossPhase::Phase3) => 1000,
        (BossType::RufusReverse, BossPhase::Phase1) => 3000,
        (BossType::RufusReverse, BossPhase::Phase2) => 2000,
        (BossType::RufusReverse, BossPhase::Phase3) => 1500,
        (BossType::MollyHashpass, BossPhase::Phase1) => 2500,
        (BossType::MollyHashpass, BossPhase::Phase2) => 2000,
        (BossType::MollyHashpass, BossPhase::Phase3) => 1500,
        (BossType::CaptainDavey, BossPhase::Phase1) => 3000,
        (BossType::CaptainDavey, BossPhase::Phase2) => 2500,
        (BossType::CaptainDavey, BossPhase::Phase3) => 2000,
        (BossType::Deadbeef, BossPhase::Phase1) => 1500,
        (BossType::Deadbeef, BossPhase::Phase2) => 1200,
        (BossType::Deadbeef, BossPhase::Phase3) => 800,
    }
}

/// The volley a boss fires in a phase; `coin` is the random draw that
/// decides whether Blowfish also charges in its second phase.
pub open spec fn attack_plan_spec(b: BossType, p: BossPhase, coin: bool) -> Seq<BossAttack> {
    match (b, p) {
        (BossType::Blowfish, BossPhase::Phase1) => seq![BossAttack::Burst(8)],
        (BossType::Blowfish, BossPhase::Phase2) => if coin {
            seq![BossAttack::Burst(16), BossAttack::Charge]
        } else {
            seq![BossAttack::Burst(16)]
        },
        (BossType::Blowfish, BossPhase::Phase3) => seq![BossAttack::Burst(24), BossAttack::Charge],
        (BossType::Twofish, BossPhase::Phase1) => seq![BossAttack::MirrorShot],
        (BossType::Twofish, BossPhase::Phase2) => seq![BossAttack::SplitAttack],
        (BossType::Twofish, BossPhase::Phase3) => seq![
            BossAttack::MirrorShot,
            BossAttack::HomingMissiles(4),
        ],
        (BossType::RufusReverse, BossPhase::Phase1) => seq![
            BossAttack::ReverseZone,
            BossAttack::ScatterShot,
        ],
        (BossType::RufusReverse, BossPhase::Phase2) => seq![
            BossAttack::ReverseZone,
            BossAttack::MirrorShot,
        ],
        (BossType::RufusReverse, BossPhase::Phase3) => seq![
            BossAttack::FullReverse,
            BossAttack::ScatterShot,
            BossAttack::HomingMissiles(3),
        ],
        (BossType::MollyHashpass, BossPhase::Phase1) => seq![
            BossAttack::PoisonShot,
            BossAttack::HealNearby,
        ],
        (BossType::MollyHashpass, BossPhase::Phase2) => seq![
            BossAttack::PoisonCloud,
            BossAttack::ReviveMinions,
        ],
        (BossType::MollyHashpass, BossPhase::Phase3) => seq![
            BossAttack::HealBeam,
            BossAttack::PoisonShot,
            BossAttack::PoisonCloud,
        ],
        (BossType::CaptainDavey, BossPhase::Phase1) => seq![BossAttack::ScanningBeam],
        (BossType::CaptainDavey, BossPhase::Phase2) => seq![
            BossAttack::ScanningBeam,
            BossAttack::SpawnMinions,
        ],
        (BossType::CaptainDavey, BossPhase::Phase3) => seq![
            BossAttack::Broadside,
            BossAttack::ScanningBeam,
        ],
        (BossType::Deadbeef, BossPhase::Phase1) => seq![BossAttack::ThrowFood],
        (BossType::Deadbeef, BossPhase::Phase2) => seq![
            BossAttack::ThrowFood,
            BossAttack::SpicySauce,
        ],
        (BossType::Deadbeef, BossPhase::Phase3) => seq![BossAttack::FeastMode],
    }
}

/// Every boss attacks faster as it weakens: the pause between volleys
/// shrinks from phase to phase and never reaches zero.
pub proof fn lemma_attacks_speed_up(b: BossType)
    ensures
        attack_interval_spec(b, BossPhase::Phase1) > attack_interval_spec(b, BossPhase::Phase2),
        attack_interval_spec(b, BossPhase::Phase2) > attack_interval_spec(b, BossPhase::Phase3),
        attack_interval_spec(b, BossPhase::Phase3) > 0,
{
}

/// The bosses' health: the final boss is the toughest of all, every boss
/// has at least the first boss's health, and each of the first two boss
/// waves' bosses is weaker than the bonus boss.
pub proof fn lemma_boss_health_order(b: BossType)
    ensures
        boss_max_health(b) <= boss_max_health(BossType::CaptainDavey),
        boss_max_health(BossType::Blowfish) <= boss_max_health(b),
        boss_max_health(BossType::Blowfish) > 0,
        boss_max_health(BossType::Blowfish) < boss_max_health(BossType::Deadbeef),
        boss_max_health(BossType::Twofish) < boss_max_health(BossType::Deadbeef),
{
}

/// Who fires each attack, attack by attack: the bosses and phases whose
/// volley holds it (and, for Blowfish's charge in phase 2, the coin).
pub open spec fn fired_by(a: BossAttack, b: BossType, p: BossPhase, coin: bool) -> bool {
    match a {
        BossAttack::Burst(n) => b == BossType::Blowfish && (p == BossPhase::Phase1 && n == 8
            || p == BossPhase::Phase2 && n == 16 || p == BossPhase::Phase3 && n == 24),
        BossAttack::Charge => b == BossType::Blowfish && (p == BossPhase::Phase3 || p
            == BossPhase::Phase2 && coin),
        BossAttack::MirrorShot => b == BossType::Twofish && p != BossPhase::Phase2 || b
            == BossType::RufusReverse && p == BossPhase::Phase2,
        BossAttack::SplitAttack => b == BossType::Twofish && p == BossPhase::Phase2,
        BossAttack::HomingMissiles(n) => p == BossPhase::Phase3 && (b == BossType::Twofish && n
            == 4 || b == BossType::RufusReverse && n == 3),
        BossAttack::ReverseZone => b == BossType::RufusReverse && p != BossPhase::Phase3,
        BossAttack::ScatterShot => b == BossType::RufusReverse && p != BossPhase::Phase2,
        BossAttack::FullReverse => b == BossType::RufusReverse && p == BossPhase::Phase3,
        BossAttack::PoisonShot => b == BossType::MollyHashpass && p != BossPhase::Phase2,
        BossAttack::HealNearby => b == BossType::MollyHashpass && p == BossPhase::Phase1,
        BossAttack::PoisonCloud => b == BossType::MollyHashpass && p != BossPhase::Phase1,
        BossAttack::ReviveMinions => b == BossType::MollyHashpass && p == BossPhase::Phase2,
        BossAttack::HealBeam => b == BossType::MollyHashpass && p == BossPhase::Phase3,
        BossAttack::ScanningBeam => b == BossType::CaptainDavey,
        BossAttack::SpawnMinions => b == BossType::CaptainDavey && p == BossPhase::Phase2,
        BossAttack::Broadside => b == BossType::CaptainDavey && p == BossPhase::Phase3,
        BossAttack::ThrowFood => b == BossType::Deadbeef && p != BossPhase::Phase3,
        BossAttack::SpicySauce => b == BossType::Deadbeef && p == BossPhase::Phase2,
        BossAttack::FeastMode => b == BossType::Deadbeef && p == BossPhase::Phase3,
    }
}

proof fn lemma_contains_small(s: Seq<BossAttack>, a: BossAttack)
    requires
        s.len() <= 3,
    ensures
        s.contains(a) <==> (s.len() > 0 && s[0] == a || s.len() > 1 && s[1] == a || s.len() > 2
            && s[2] == a),
{
    if s.len() > 0 && s[0] == a {
        assert(s.contains(a));
    }
    if s.len() > 1 && s[1] == a {
        assert(s.contains(a));
    }
    if s.len() > 2 && s[2] == a {
        assert(s.contains(a));
    }
}

/// Each volley is what the bosses' attack lists give: a boss fires an
/// attack in a phase exactly when that attack is listed for it there, every
/// volley fires something, and no attack twice.
pub proof fn lemma_volleys_follow_the_attack_lists(b: BossType, p: BossPhase, coin: bool, a: BossAttack)
    ensures
        attack_plan_spec(b, p, coin).contains(a) <==> fired_by(a, b, p, coin),
        attack_plan_spec(b, p, coin).len() > 0,
        attack_plan_spec(b, p, coin).no_duplicates(),
{
    let s = attack_plan_spec(b, p, coin);
    assert(s.len() <= 3);
    lemma_contains_small(s, a);
}

/// Milliseconds between two volleys of `b` in phase `p`.
pub fn attack_interval_ms(b: BossType, p: BossPhase) -> (r: u32)
    ensures
        r == attack_interval_spec(b, p),
{
    match (b, p) {
        (BossType::Blowfish, BossPhase::Phase1) => 2500,
        (BossType::Blowfish, BossPhase::Phase2) => 1800,
        (BossType::Blowfish, BossPhase::Phase3) => 1200,
        (BossType::Twofish, BossPhase::Phase1) => 2000,
        (BossType::Twofish, BossPhase::Phase2) => 1500,
        (BossType::Twofish, BossPhase::Phase3) => 1000,
        (BossType::RufusReverse, BossPhase::Phase1) => 3000,
        (BossType::RufusReverse, BossPhase::Phase2) => 2000,
        (BossType::RufusReverse, BossPhase::Phase3) => 1500,
        (BossType::MollyHashpass, BossPhase::Phase1) => 2500,
        (BossType::MollyHashpass, BossPhase::Phase2) => 2000,
        (BossType::MollyHashpass, BossPhase::Phase3) => 1500,
        (BossType::CaptainDavey, BossPhase::Phase1) => 3000,
        (BossType::CaptainDavey, BossPhase::Phase2) => 2500,
        (BossType::CaptainDavey, BossPhase::Phase3) => 2000,
        (BossType::Deadbeef, BossPhase::Phase1) => 1500,
        (BossType::Deadbeef, BossPhase::Phase2) => 1200,
        (BossType::Deadbeef, BossPhase::Phase3) => 800,
    }
}

/// The volley `b` fires in phase `p`, given the charge coin.
pub fn attack_plan(b: BossType, p: BossPhase, coin: bool) -> (r: Vec<BossAttack>)
    ensures
        r@ == attack_plan_spec(b, p, coin),
{
    let r = match (b, p) {
        (BossType::Blowfish, BossPhase::Phase1) => vec![BossAttack::Burst(8)],
        (BossType::Blowfish, BossPhase::Phase2) => if coin {
            vec![BossAttack::Burst(16), BossAttack::Charge]
        } else {
            vec![BossAttack::Burst(16)]
        },
        (BossType::Blowfish, BossPhase::Phase3) => vec![BossAttack::Burst(24), BossAttack::Charge],
        (BossType::Twofish, BossPhase::Phase1) => vec![BossAttack::MirrorShot],
        (BossType::Twofish, BossPhase::Phase2) => vec![BossAttack::SplitAttack],
        (BossType::Twofish, BossPhase::Phase3) => vec![
            BossAttack::MirrorShot,
            BossAttack::HomingMissiles(4),
        ],
        (BossType::RufusReverse, BossPhase::Phase1) => vec![
            BossAttack::ReverseZone,
            BossAttack::ScatterShot,
        ],
        (BossType::RufusReverse, BossPhase::Phase2) => vec![
            BossAttack::ReverseZone,
            BossAttack::MirrorShot,
        ],
        (BossType::RufusReverse, BossPhase::Phase3) => vec![
            BossAttack::FullReverse,
            BossAttack::ScatterShot,
            BossAttack::HomingMissiles(3),
        ],
        (BossType::MollyHashpass, BossPhase::Phase1) => vec![
            BossAttack::PoisonShot,
            BossAttack::HealNearby,
        ],
        (BossType::MollyHashpass, BossPhase::Phase2) => vec![
            BossAttack::PoisonCloud,
            BossAttack::ReviveMinions,
        ],
        (BossType::MollyHashpass, BossPhase::Phase3) => vec![
            BossAttack::HealBeam,
            BossAttack::PoisonShot,
            BossAttack::PoisonCloud,
        ],
        (BossType::CaptainDavey, BossPhase::Phase1) => vec![BossAttack::ScanningBeam],
        (BossType::CaptainDavey, BossPhase::Phase2) => vec![
            BossAttack::ScanningBeam,
            BossAttack::SpawnMinions,
        ],
        (BossType::CaptainDavey, BossPhase::Phase3) => vec![
            BossAttack::Broadside,
            BossAttack::ScanningBeam,
        ],
        (BossType::Deadbeef, BossPhase::Phase1) => vec![BossAttack::ThrowFood],
        (BossType::Deadbeef, BossPhase::Phase2) => vec![
            BossAttack::ThrowFood,
            BossAttack::SpicySauce,
        ],
        (BossType::Deadbeef, BossPhase::Phase3) => vec![BossAttack::FeastMode],
    };
    assert(r@ =~= attack_plan_spec(b, p, coin));
    r
}

/// Whether the volley of `b` in `p` needs the charge coin.
pub open spec fn needs_coin(b: BossType, p: BossPhase) -> bool {
    b == BossType::Blowfish && p == BossPhase::Phase2
}

/// Columns of one broadside row: every column of the wall except the gap of
/// `3 + phase` columns that starts at `gap_start`.
pub open spec fn broadside_row_spec(gap_start: int, p: BossPhase) -> Seq<u32> {
    Seq::new(20, |c: int| c as u32).filter(
        |c: u32| (c as int) < gap_start || (c as int) >= gap_start + 3 + phase_rank(p),
    )
}

/// Columns of one broadside row with its gap at `gap_start`.
pub fn broadside_row(gap_start: u32, p: BossPhase) -> (r: Vec<u32>)
    requires
        gap_start < 20,
    ensures
        r@ == broadside_row_spec(gap_start as int, p),
        forall|i: int| 0 <= i < r@.len() ==> (#[trigger] r@[i]) < 20,
{
    let gap: u32 = match p {
        BossPhase::Phase1 => 3,
        BossPhase::Phase2 => 4,
        BossPhase::Phase3 => 5,
    };
    let ghost all = Seq::new(20, |c: int| c as u32);
    let ghost keep = |c: u32| (c as int) < gap_start || (c as int) >= gap_start + 3 + phase_rank(p);
    let mut r: Vec<u32> = Vec::new();
    let mut col: u32 = 0;
    while col < 20
        invariant
            col <= 20,
            gap == 3 + phase_rank(p),
            gap_start < 20,
            all == Seq::new(20, |c: int| c as u32),
            keep == (|c: u32| (c as int) < gap_start || (c as int) >= gap_start + 3 + phase_rank(p)),
            r@ == all.take(col as int).filter(keep),
            forall|i: int| 0 <= i < r@.len() ==> (#[trigger] r@[i]) < col,
        decreases 20 - col,
    {
        assert(all.take(col + 1).drop_last() =~= all.take(col as int));
        assert(all.take(col + 1).last() == col);
        reveal_with_fuel(Seq::filter, 1);
        if col < gap_start || col >= gap_start + gap {
            r.push(col);
        }
        col = col + 1;
    }
    assert(all.take(20) =~= all);
    r
}

/// One broadside row with its gap at some column in `2..18`.
pub open spec fn broadside_row_ok(r: Seq<u32>, p: BossPhase) -> bool {
    exists|g: int| 2 <= g < 18 && r == broadside_row_spec(g, p)
}

/// The five rows of a broadside volley, each with a gap at a random column.
pub fn broadside_pattern(p: BossPhase) -> (rows: Vec<Vec<u32>>)
    ensures
        rows@.len() == 5,
        forall|i: int| 0 <= i < 5 ==> broadside_row_ok(#[trigger] rows@[i]@, p),
{
    let mut rows: Vec<Vec<u32>> = Vec::new();
    let mut row: u32 = 0;
    while row < 5
        invariant
            row <= 5,
            rows@.len() == row,
            forall|i: int| 0 <= i < row ==> broadside_row_ok(#[trigger] rows@[i]@, p),
        decreases 5 - row,
    {
        let g = quad_random_range(2, 18);
        let r = broadside_row(g, p);
        assert(broadside_row_ok(r@, p));
        rows.push(r);
        row = row + 1;
    }
    rows
}

/// What the rest of the game reads of a boss fight: health, phase, whether
/// it can be hit, and the signals it raises for other systems.
pub struct Boss {
    pub boss_type: BossType,
    pub health: i32,
    pub max_health: i32,
    pub phase: BossPhase,
    pub is_dead: bool,
    pub invulnerable: bool,
    /// Milliseconds of invulnerability granted by the last hit or ability.
    pub invuln_timer_ms: u32,
    pub entry_anim: bool,
    /// Seconds the reverse zone was last opened for; 0 while it never opened.
    pub reverse_zone: u32,
    pub revive_signal: bool,
    pub spawn_minions_signal: bool,
}

impl Boss {
    /// Health within `0..=max_health`, and a dead boss has no health left.
    pub open spec fn wf(&self) -> bool {
        &&& 0 < self.max_health
        &&& 0 <= self.health <= self.max_health
        &&& self.is_dead ==> self.health == 0
    }

    /// A fresh boss of type `boss_type`, still flying in.
    pub fn new(boss_type: BossType) -> (r: Boss)
        ensures
            r.boss_type == boss_type,
            r.health == boss_max_health(boss_type),
            r.max_health == boss_max_health(boss_type),
            r.phase == BossPhase::Phase1,
            !r.is_dead,
            !r.invulnerable,
            r.invuln_timer_ms == 0,
            r.entry_anim,
            r.reverse_zone == 0,
            !r.revive_signal,
            !r.spawn_minions_signal,
            r.wf(),
    {
        let h = boss_type.max_health();
        Boss {
            boss_type,
            health: h,
            max_health: h,
            phase: BossPhase::Phase1,
            is_dead: false,
            invulnerable: false,
            invuln_timer_ms: 0,
            entry_anim: true,
            reverse_zone: 0,
            revive_signal: false,
            spawn_minions_signal: false,
        }
    }

    /// Whether a hit of `damage` kills the boss: it must be open to hits
    /// and have no more health than the hit takes.
    pub open spec fn hit_kills(self, damage: int) -> bool {
        !(self.invulnerable || self.entry_anim) && self.health - damage <= 0
    }

    /// The boss after a hit of `damage`.
    pub open spec fn after_hit(self, damage: int) -> Boss {
        if self.invulnerable || self.entry_anim {
            self
        } else if self.health - damage <= 0 {
            Boss { health: 0, is_dead: true, invulnerable: true, invuln_timer_ms: 100, ..self }
        } else {
            Boss {
                health: (self.health - damage) as i32,
                invulnerable: true,
                invuln_timer_ms: 100,
                ..self
            }
        }
    }

    /// Applies a hit of `damage`. A boss that is invulnerable or still
    /// flying in ignores it. Otherwise it loses `damage` health and turns
    /// invulnerable for 100 ms; when health reaches zero it is clamped to
    /// zero, the boss dies, and the call returns `true`.
    pub fn take_damage(&mut self, damage: i32) -> (killed: bool)
        requires
            i32::MIN <= old(self).health - damage <= i32::MAX,
        ensures
            old(self).invulnerable || old(self).entry_anim ==> !killed && *final(self) == *old(
                self,
            ),
            !(old(self).invulnerable || old(self).entry_anim) ==> {
                &&& final(self).invulnerable
                &&& final(self).invuln_timer_ms == 100
                &&& killed == (old(self).health - damage <= 0)
                &&& final(self).health == if killed {
                    0
                } else {
                    old(self).health - damage
                }
                &&& final(self).is_dead == (killed || old(self).is_dead)
                &&& final(self).boss_type == old(self).boss_type
                &&& final(self).max_health == old(self).max_health
                &&& final(self).phase == old(self).phase
                &&& final(self).entry_anim == old(self).entry_anim
                &&& final(self).reverse_zone == old(self).reverse_zone
                &&& final(self).revive_signal == old(self).revive_signal
                &&& final(self).spawn_minions_signal == old(self).spawn_minions_signal
            },
            *final(self) == old(self).after_hit(damage as int),
            killed == old(self).hit_kills(damage as int),
    {
        if self.invulnerable || self.entry_anim {
            return false;
        }
        self.health = self.health - damage;
        self.invulnerable = true;
        self.invuln_timer_ms = 100;
        if self.health <= 0 {
            self.health = 0;
            self.is_dead = true;
            return true;
        }
        false
    }

    /// Moves the boss into the phase its health calls for; returns whether
    /// the phase changed.
    pub fn update_phase(&mut self) -> (changed: bool)
        requires
            old(self).max_health > 0,
            0 <= old(self).health <= old(self).max_health,
        ensures
            final(self).phase == phase_for(old(self).health as int, old(self).max_health as int),
            changed == (final(self).phase != old(self).phase),
            final(self).health == old(self).health,
            final(self).max_health == old(self).max_health,
            final(self).boss_type == old(self).boss_type,
            final(self).is_dead == old(self).is_dead,
            final(self).invulnerable == old(self).invulnerable,
            final(self).invuln_timer_ms == old(self).invuln_timer_ms,
            final(self).entry_anim == old(self).entry_anim,
            final(self).reverse_zone == old(self).reverse_zone,
            final(self).revive_signal == old(self).revive_signal,
            final(self).spawn_minions_signal == old(self).spawn_minions_signal,
    {
        let h = self.health as i64;
        let m = self.max_health as i64;
        let new_phase = if 5 * h <= m {
            BossPhase::Phase3
        } else if 2 * h <= m {
            BossPhase::Phase2
        } else {
            BossPhase::Phase1
        };
        let changed = new_phase != self.phase;
        self.phase = new_phase;
        changed
    }

    /// Ends the flight in: from now on the boss can be hit.
    pub fn finish_entry(&mut self)
        ensures
            *final(self) == (Boss { entry_anim: false, ..*old(self) }),
    {
        self.entry_anim = false;
    }

    /// Ends the current invulnerability.
    pub fn end_invulnerability(&mut self)
        ensures
            *final(self) == (Boss { invulnerable: false, invuln_timer_ms: 0, ..*old(self) }),
    {
        self.invulnerable = false;
        self.invuln_timer_ms = 0;
    }

    /// Heals `amount`, never past the maximum.
    fn heal(&mut self, amount: i32)
        requires
            0 <= amount <= 1000,
            old(self).health <= old(self).max_health,
        ensures
            *final(self) == (Boss {
                health: if old(self).health + amount <= old(self).max_health {
                    (old(self).health + amount) as i32
                } else {
                    old(self).max_health
                },
                ..*old(self)
            }),
    {
        let h = self.health as i64 + amount as i64;
        if h <= self.max_health as i64 {
            self.health = h as i32;
        } else {
            self.health = self.max_health;
        }
    }

    /// Molly's small heal: five health, capped at the maximum.
    pub fn heal_nearby(&mut self)
        requires
            old(self).health <= old(self).max_health,
        ensures
            *final(self) == (Boss {
                health: if old(self).health + 5 <= old(self).max_health {
                    (old(self).health + 5) as i32
                } else {
                    old(self).max_health
                },
                ..*old(self)
            }),
    {
        self.heal(5);
    }

    /// Molly's heal beam: three seconds of invulnerability and thirty health,
    /// capped at the maximum.
    pub fn heal_beam(&mut self)
        requires
            old(self).health <= old(self).max_health,
        ensures
            *final(self) == (Boss {
                invulnerable: true,
                invuln_timer_ms: 3000,
                health: if old(self).health + 30 <= old(self).max_health {
                    (old(self).health + 30) as i32
                } else {
                    old(self).max_health
                },
                ..*old(self)
            }),
    {
        self.invulnerable = true;
        self.invuln_timer_ms = 3000;
        self.heal(30);
    }

    /// Applies what one attack changes in the fight itself (charges, heals,
    /// zones, signals); projectiles are spawned by the caller.
    pub fn apply_attack(&mut self, a: BossAttack)
        requires
            old(self).health <= old(self).max_health,
        ensures
            final(self).health <= final(self).max_health,
            *final(self) == attack_effect(*old(self), a),
    {
        match a {
            BossAttack::Charge => {
                self.invulnerable = true;
                self.invuln_timer_ms = 1000;
            },
            BossAttack::ReverseZone => {
                self.reverse_zone = 5;
            },
            BossAttack::FullReverse => {
                self.reverse_zone = 10;
            },
            BossAttack::HealNearby => {
                self.heal_nearby();
            },
            BossAttack::ReviveMinions => {
                self.revive_signal = true;
            },
            BossAttack::HealBeam => {
                self.heal_beam();
            },
            BossAttack::SpawnMinions => {
                self.spawn_minions_signal = true;
            },
            _ => {},
        }
    }

    /// Fires the volley of the current phase: draws the charge coin when
    /// the volley needs it, applies the volley's effects to the fight and
    /// returns the attacks for the caller to spawn projectiles for.
    pub fn update_attacks(&mut self) -> (attacks: Vec<BossAttack>)
        requires
            old(self).health <= old(self).max_health,
        ensures
            exists|coin: bool|
                (!needs_coin(old(self).boss_type, old(self).phase) ==> !coin) && attacks@
                    == attack_plan_spec(old(self).boss_type, old(self).phase, coin) && *final(self)
                    == attack_effects(*old(self), attacks@),
            final(self).health <= final(self).max_health,
    {
        let coin = if self.boss_type == BossType::Blowfish && self.phase == BossPhase::Phase2 {
            quad_random_range(0, 2) == 0
        } else {
            false
        };
        let attacks = attack_plan(self.boss_type, self.phase, coin);
        let ghost start = *self;
        let mut i: usize = 0;
        while i < attacks.len()
            invariant
                i <= attacks@.len(),
                self.health <= self.max_health,
                *self == attack_effects(start, attacks@.take(i as int)),
            decreases attacks@.len() - i,
        {
            proof {
                lemma_attack_effects_push(start, attacks@.take(i as int), attacks@[i as int]);
                assert(attacks@.take(i + 1) =~= attacks@.take(i as int).push(attacks@[i as int]));
            }
            self.apply_attack(attacks[i]);
            i = i + 1;
        }
        assert(attacks@.take(attacks@.len() as int) =~= attacks@);
        attacks
    }

    /// Clears the revive signal.
    pub fn clear_revive_signal(&mut self)
        ensures
            *final(self) == (Boss { revive_signal: false, ..*old(self) }),
    {
        self.revive_signal = false;
    }

    /// Whether the boss asked for dead minions to be revived.
    pub fn check_revive_signal(&self) -> (r: bool)
        ensures
            r == self.revive_signal,
    {
        self.revive_signal
    }

    /// Whether the boss asked for minions to be spawned.
    pub fn check_spawn_minions(&self) -> (r: bool)
        ensures
            r == self.spawn_minions_signal,
    {
        self.spawn_minions_signal
    }

    /// Clears the minion spawn signal.
    pub fn clear_spawn_minions(&mut self)
        ensures
            *final(self) == (Boss { spawn_minions_signal: false, ..*old(self) }),
    {
        self.spawn_minions_signal = false;
    }

    /// Whether a reverse zone has been opened.
    pub fn is_reverse_zone_active(&self) -> (r: bool)
        ensures
            r == (self.reverse_zone > 0),
    {
        self.reverse_zone > 0
    }
}

/// Health after healing `amount`, capped at the maximum.
pub open spec fn healed(b: Boss, amount: int) -> i32 {
    if b.health + amount <= b.max_health {
        (b.health + amount) as i32
    } else {
        b.max_health
    }
}

/// What one attack changes in the fight.
pub open spec fn attack_effect(b: Boss, a: BossAttack) -> Boss {
    match a {
        BossAttack::Charge => Boss { invulnerable: true, invuln_timer_ms: 1000, ..b },
        BossAttack::ReverseZone => Boss { reverse_zone: 5, ..b },
        BossAttack::FullReverse => Boss { reverse_zone: 10, ..b },
        BossAttack::HealNearby => Boss { health: healed(b, 5), ..b },
        BossAttack::ReviveMinions => Boss { revive_signal: true, ..b },
        BossAttack::HealBeam => Boss {
            invulnerable: true,
            invuln_timer_ms: 3000,
            health: healed(b, 30),
            ..b
        },
        BossAttack::SpawnMinions => Boss { spawn_minions_signal: true, ..b },
        _ => b,
    }
}

/// What a volley changes in the fight: its attacks' effects, in order.
pub open spec fn attack_effects(b: Boss, attacks: Seq<BossAttack>) -> Boss
    decreases attacks.len(),
{
    if attacks.len() == 0 {
        b
    } else {
        attack_effect(attack_effects(b, attacks.drop_last()), attacks.last())
    }
}

proof fn lemma_attack_effects_push(b: Boss, attacks: Seq<BossAttack>, a: BossAttack)
    ensures
        attack_effects(b, attacks.push(a)) == attack_effect(attack_effects(b, attacks), a),
{
    assert(attacks.push(a).drop_last() =~= attacks);
}

} // verus!
