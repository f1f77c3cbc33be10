//! The player's ship as the rules see it: its shield and whether the game is
//! over, and what a hit does to lives.

use vstd::prelude::*;

verus! {

/// Timed power-ups a ship can hold.
#[derive(Clone, Copy, Debug, PartialEq, Eq, Structural)]
pub enum PowerupEffectType {
    RapidFire,
    SpreadShot,
    Pierce,
    Shield,
}

/// The integer side of the player's ship.
pub struct Ship {
    pub has_shield: bool,
    pub gameover: bool,
}

/// What a hit on the ship did.
#[derive(Clone, Copy, Debug, PartialEq, Eq, Structural)]
pub enum HitOutcome {
    /// The shield took the hit and is gone.
    ShieldAbsorbed,
    /// A life was lost; the ship turns invulnerable for a moment.
    LifeLost,
    /// No life was left to lose: the game is over.
    GameOver,
}

impl Ship {
    /// Whether a shield is up.
    pub fn has_shield(&self) -> (r: bool)
        ensures
            r == self.has_shield,
    {
        self.has_shield
    }

    /// Takes a timed power-up; a shield goes up at once, the timed effects
    /// run on the ship's clocks.
    pub fn apply_powerup(&mut self, effect: PowerupEffectType)
        ensures
            final(self).has_shield == (old(self).has_shield || effect == PowerupEffectType::Shield),
            final(self).gameover == old(self).gameover,
    {
        if let PowerupEffectType::Shield = effect {
            self.has_shield = true;
        }
    }

    /// Drops the shield; returns whether there was one.
    pub fn consume_shield(&mut self) -> (had: bool)
        ensures
            had == old(self).has_shield,
            !final(self).has_shield,
            final(self).gameover == old(self).gameover,
    {
        if self.has_shield {
            self.has_shield = false;
            true
        } else {
            false
        }
    }
}

/// An enemy bullet reaches the (vulnerable) ship: the shield takes it if
/// there is one; otherwise a life is lost if any is left, and the game is
/// over if none is.
pub fn bullet_hit(ship: &mut Ship, lives: &mut i32) -> (o: HitOutcome)
    ensures
        old(ship).has_shield ==> o == HitOutcome::ShieldAbsorbed && *final(lives) == *old(lives)
            && final(ship).gameover == old(ship).gameover,
        !old(ship).has_shield && *old(lives) > 0 ==> o == HitOutcome::LifeLost && *final(lives)
            == *old(lives) - 1 && final(ship).gameover == old(ship).gameover,
        !old(ship).has_shield && *old(lives) <= 0 ==> o == HitOutcome::GameOver && *final(lives)
            == *old(lives) && final(ship).gameover,
        !final(ship).has_shield,
{
    if ship.consume_shield() {
        HitOutcome::ShieldAbsorbed
    } else if *lives > 0 {
        *lives = *lives - 1;
        HitOutcome::LifeLost
    } else {
        ship.gameover = true;
        HitOutcome::GameOver
    }
}

/// A boss projectile reaches the (vulnerable) ship: the shield takes it if
/// there is one; otherwise one life is taken (saturating at `i32::MIN`) and
/// the game is over when exactly none is left.
pub fn boss_projectile_hit(ship: &mut Ship, lives: &mut i32) -> (o: HitOutcome)
    ensures
        old(ship).has_shield ==> o == HitOutcome::ShieldAbsorbed && *final(lives) == *old(lives)
            && final(ship).gameover == old(ship).gameover,
        !old(ship).has_shield ==> *final(lives) == if *old(lives) == i32::MIN {
            i32::MIN
        } else {
            (*old(lives) - 1) as i32
        },
        !old(ship).has_shield && *final(lives) == 0 ==> o == HitOutcome::GameOver
            && final(ship).gameover,
        !old(ship).has_shield && *final(lives) != 0 ==> o == HitOutcome::LifeLost
            && final(ship).gameover == old(ship).gameover,
        !final(ship).has_shield,
{
    if ship.consume_shield() {
        HitOutcome::ShieldAbsorbed
    } else {
        *lives = if *lives == i32::MIN {
            i32::MIN
        } else {
            *lives - 1
        };
        if *lives == 0 {
            ship.gameover = true;
            HitOutcome::GameOver
        } else {
            HitOutcome::LifeLost
        }
    }
}

/// A pirate rams the ship (shields do not help): a life is lost if any is
/// left, otherwise the game is over.
pub fn ram_hit(ship: &mut Ship, lives: &mut i32) -> (o: HitOutcome)
    ensures
        *old(lives) > 0 ==> o == HitOutcome::LifeLost && *final(lives) == *old(lives) - 1
            && final(ship).gameover == old(ship).gameover,
        *old(lives) <= 0 ==> o == HitOutcome::GameOver && *final(lives) == *old(lives)
            && final(ship).gameover,
        final(ship).has_shield == old(ship).has_shield,
{
    if *lives > 0 {
        *lives = *lives - 1;
        HitOutcome::LifeLost
    } else {
        ship.gameover = true;
        HitOutcome::GameOver
    }
}

} // verus!
