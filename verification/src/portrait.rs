//! The speaking characters and their portraits.

use vstd::prelude::*;
use crate::text::{str_eq, to_lowercase, lowercase};

verus! {

/// Characters that speak in dialogues.
#[derive(Clone, Copy, Debug, PartialEq, Eq, Hash, Structural)]
pub enum Character {
    CaptainDavey,
    Blowfish,
    Twofish,
    RufusReverse,
    MollyHashpass,
    Deadbeef,
    Narrator,
}

/// The spellings (after lowercasing) that name a character.
pub open spec fn character_spelling(s: Seq<char>) -> Option<Character> {
    if s == "captain_davey"@ || s == "captaindavey"@ || s == "davey"@ {
        Some(Character::CaptainDavey)
    } else if s == "blowfish"@ {
        Some(Character::Blowfish)
    } else if s == "twofish"@ {
        Some(Character::Twofish)
    } else if s == "rufus_reverse"@ || s == "rufusreverse"@ {
        Some(Character::RufusReverse)
    } else if s == "molly_hashpass"@ || s == "mollyhashpass"@ {
        Some(Character::MollyHashpass)
    } else if s == "deadbeef"@ {
        Some(Character::Deadbeef)
    } else if s == "narrator"@ {
        Some(Character::Narrator)
    } else {
        None
    }
}

pub open spec fn character_portrait(c: Character) -> Seq<char> {
    match c {
        Character::CaptainDavey => "captain_davey_portscan"@,
        Character::Blowfish => "blowfish"@,
        Character::Twofish => "twofish"@,
        Character::RufusReverse => "rufus_reverse"@,
        Character::MollyHashpass => "molly_hashpass"@,
        Character::Deadbeef => "deadbeef"@,
        Character::Narrator => "narrator"@,
    }
}

pub open spec fn character_name(c: Character) -> Seq<char> {
    match c {
        Character::CaptainDavey => "Captain Davey Portscan"@,
        Character::Blowfish => "Blowfish"@,
        Character::Twofish => "Twofish"@,
        Character::RufusReverse => "Rufus Reverse"@,
        Character::MollyHashpass => "Molly Hashpass"@,
        Character::Deadbeef => "Deadbeef"@,
        Character::Narrator => "Narrator"@,
    }
}

impl Character {
    /// Reads a character name, ignoring case.
    pub fn from_str(s: &str) -> (r: Option<Character>)
        ensures
            r == character_spelling(lowercase(s@)),
    {
        let low = to_lowercase(s);
        let l = low.as_str();
        if str_eq(l, "captain_davey") || str_eq(l, "captaindavey") || str_eq(l, "davey") {
            Some(Character::CaptainDavey)
        } else if str_eq(l, "blowfish") {
            Some(Character::Blowfish)
        } else if str_eq(l, "twofish") {
            Some(Character::Twofish)
        } else if str_eq(l, "rufus_reverse") || str_eq(l, "rufusreverse") {
            Some(Character::RufusReverse)
        } else if str_eq(l, "molly_hashpass") || str_eq(l, "mollyhashpass") {
            Some(Character::MollyHashpass)
        } else if str_eq(l, "deadbeef") {
            Some(Character::Deadbeef)
        } else if str_eq(l, "narrator") {
            Some(Character::Narrator)
        } else {
            None
        }
    }

    /// Portrait file stem.
    pub fn portrait_filename(&self) -> (r: &'static str)
        ensures
            r@ == character_portrait(*self),
    {
        match self {
            Character::CaptainDavey => "captain_davey_portscan",
            Character::Blowfish => "blowfish",
            Character::Twofish => "twofish",
            Character::RufusReverse => "rufus_reverse",
            Character::MollyHashpass => "molly_hashpass",
            Character::Deadbeef => "deadbeef",
            Character::Narrator => "narrator",
        }
    }

    /// Display name.
    pub fn name(&self) -> (r: &'static str)
        ensures
            r@ == character_name(*self),
    {
        match self {
            Character::CaptainDavey => "Captain Davey Portscan",
            Character::Blowfish => "Blowfish",
            Character::Twofish => "Twofish",
            Character::RufusReverse => "Rufus Reverse",
            Character::MollyHashpass => "Molly Hashpass",
            Character::Deadbeef => "Deadbeef",
            Character::Narrator => "Narrator",
        }
    }
}

/// The portraits the game loads, in loading order.
pub open spec fn portrait_files() -> Seq<Seq<char>> {
    seq![
        "captain_davey_portscan"@,
        "blowfish"@,
        "twofish"@,
        "rufus_reverse"@,
        "molly_hashpass"@,
        "deadbeef"@,
        "narrator"@,
    ]
}

/// Every character's portrait is among the files the game loads.
pub proof fn lemma_every_portrait_is_loaded(c: Character)
    ensures
        portrait_files().contains(character_portrait(c)),
{
    match c {
        Character::CaptainDavey => assert(portrait_files()[0] == character_portrait(c)),
        Character::Blowfish => assert(portrait_files()[1] == character_portrait(c)),
        Character::Twofish => assert(portrait_files()[2] == character_portrait(c)),
        Character::RufusReverse => assert(portrait_files()[3] == character_portrait(c)),
        Character::MollyHashpass => assert(portrait_files()[4] == character_portrait(c)),
        Character::Deadbeef => assert(portrait_files()[5] == character_portrait(c)),
        Character::Narrator => assert(portrait_files()[6] == character_portrait(c)),
    }
}

} // verus!
