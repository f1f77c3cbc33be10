//! The developer console: reading a typed command into what it asks for,
//! and carrying it out on the game session.

use vstd::prelude::*;
use crate::boss::{Boss, BossType};
use crate::config::GameConfig;
use crate::enemy::{Enemy, EnemyType, enemy_key};
use crate::narrative::boss_id_name;
use crate::menu::GameState;
use crate::powerup::PowerUpManager;
use crate::ship::{PowerupEffectType, Ship};
use crate::wave_director::{WaveDirector, WaveState, is_boss_wave_number, max_enemies_spec};
use crate::text::{
    chars_of, chars_eq_str, split_whitespace, words, parse_u32, parse_i32, parse_u32_spec,
    parse_i32_spec, string_from_chars, to_lowercase, lowercase, trim, trim_chars, all_ascii, ascii_lower,
};

verus! {

/// What `wave <n>` asks for.
#[derive(Clone, Copy, Debug, PartialEq, Eq, Structural)]
pub enum WaveArg {
    /// Jump to this wave (1 to 15).
    Jump(u32),
    OutOfRange,
    Invalid,
    Missing,
}

/// A whole-number argument.
#[derive(Clone, Copy, Debug, PartialEq, Eq, Structural)]
pub enum NumArg {
    Value(i32),
    Invalid,
    Missing,
}

/// What `spawn <name>` asks for.
#[derive(Clone, Copy, Debug, PartialEq, Eq, Structural)]
pub enum SpawnArg {
    Enemy(EnemyType),
    Boss(BossType),
    Unknown,
    Missing,
}

/// What `powerup <name>` asks for.
#[derive(Clone, Copy, Debug, PartialEq, Eq, Structural)]
pub enum PowerupArg {
    Give(PowerupEffectType),
    Unknown,
    Missing,
}

/// A console command, read.
pub enum ConsoleCommand {
    /// Nothing was typed.
    Empty,
    Help,
    God,
    Heal,
    Wave(WaveArg),
    Score(NumArg),
    /// `lives <n>`; the value is clamped to `0..=9` when carried out.
    Lives(NumArg),
    Spawn(SpawnArg),
    KillAll,
    Powerup(PowerupArg),
    Hitbox,
    /// `time [scale]`, with the scale as typed.
    Time(Option<String>),
    State,
    Damage(NumArg),
    Fps,
    Reload,
    Quit,
    Unknown,
}

/// A console command as the rules see it.
pub enum CommandModel {
    Empty,
    Help,
    God,
    Heal,
    Wave(WaveArg),
    Score(NumArg),
    Lives(NumArg),
    Spawn(SpawnArg),
    KillAll,
    Powerup(PowerupArg),
    Hitbox,
    Time(Option<Seq<char>>),
    State,
    Damage(NumArg),
    Fps,
    Reload,
    Quit,
    Unknown,
}

impl ConsoleCommand {
    pub open spec fn view(&self) -> CommandModel {
        match self {
            ConsoleCommand::Empty => CommandModel::Empty,
            ConsoleCommand::Help => CommandModel::Help,
            ConsoleCommand::God => CommandModel::God,
            ConsoleCommand::Heal => CommandModel::Heal,
            ConsoleCommand::Wave(a) => CommandModel::Wave(*a),
            ConsoleCommand::Score(a) => CommandModel::Score(*a),
            ConsoleCommand::Lives(a) => CommandModel::Lives(*a),
            ConsoleCommand::Spawn(a) => CommandModel::Spawn(*a),
            ConsoleCommand::KillAll => CommandModel::KillAll,
            ConsoleCommand::Powerup(a) => CommandModel::Powerup(*a),
            ConsoleCommand::Hitbox => CommandModel::Hitbox,
            ConsoleCommand::Time(a) => CommandModel::Time(
                match a {
                    Some(s) => Some(s@),
                    None => None,
                },
            ),
            ConsoleCommand::State => CommandModel::State,
            ConsoleCommand::Damage(a) => CommandModel::Damage(*a),
            ConsoleCommand::Fps => CommandModel::Fps,
            ConsoleCommand::Reload => CommandModel::Reload,
            ConsoleCommand::Quit => CommandModel::Quit,
            ConsoleCommand::Unknown => CommandModel::Unknown,
        }
    }
}

/// The entity a (lowercased) spawn name stands for.
pub open spec fn spawn_target(name: Seq<char>) -> SpawnArg {
    if name == "scout"@ {
        SpawnArg::Enemy(EnemyType::Scout)
    } else if name == "fighter"@ {
        SpawnArg::Enemy(EnemyType::Fighter)
    } else if name == "bomber"@ {
        SpawnArg::Enemy(EnemyType::Bomber)
    } else if name == "interceptor"@ {
        SpawnArg::Enemy(EnemyType::Interceptor)
    } else if name == "elite"@ {
        SpawnArg::Enemy(EnemyType::Elite)
    } else if name == "blowfish"@ {
        SpawnArg::Boss(BossType::Blowfish)
    } else if name == "twofish"@ {
        SpawnArg::Boss(BossType::Twofish)
    } else if name == "rufus"@ || name == "rufusreverse"@ {
        SpawnArg::Boss(BossType::RufusReverse)
    } else if name == "molly"@ || name == "mollyhashpass"@ {
        SpawnArg::Boss(BossType::MollyHashpass)
    } else if name == "davey"@ || name == "captaindavey"@ {
        SpawnArg::Boss(BossType::CaptainDavey)
    } else if name == "deadbeef"@ {
        SpawnArg::Boss(BossType::Deadbeef)
    } else {
        SpawnArg::Unknown
    }
}

proof fn lemma_lowercase_of_lowercase(s: Seq<char>)
    requires
        forall|i: int| 0 <= i < s.len() ==> 'a' <= #[trigger] s[i] <= 'z',
    ensures
        lowercase(s) == s,
{
    assert(all_ascii(s));
    assert(s.map_values(|c: char| ascii_lower(c)) =~= s);
}

proof fn lemma_boss_spawn_name(b: BossType)
    ensures
        spawn_target(boss_id_name(b)) == SpawnArg::Boss(b),
        lowercase(boss_id_name(b)) == boss_id_name(b),
{
    reveal_strlit("scout");
    assert("scout"@.len() == 5 && "scout"@[0] == 's' && "scout"@[1] == 'c');
    reveal_strlit("fighter");
    assert("fighter"@.len() == 7 && "fighter"@[0] == 'f' && "fighter"@[1] == 'i');
    reveal_strlit("bomber");
    assert("bomber"@.len() == 6 && "bomber"@[0] == 'b' && "bomber"@[1] == 'o');
    reveal_strlit("interceptor");
    assert("interceptor"@.len() == 11 && "interceptor"@[0] == 'i' && "interceptor"@[1] == 'n');
    reveal_strlit("elite");
    assert("elite"@.len() == 5 && "elite"@[0] == 'e' && "elite"@[1] == 'l');
    reveal_strlit("blowfish");
    assert("blowfish"@.len() == 8 && "blowfish"@[0] == 'b' && "blowfish"@[1] == 'l');
    reveal_strlit("twofish");
    assert("twofish"@.len() == 7 && "twofish"@[0] == 't' && "twofish"@[1] == 'w');
    reveal_strlit("rufus");
    assert("rufus"@.len() == 5 && "rufus"@[0] == 'r' && "rufus"@[1] == 'u');
    reveal_strlit("rufusreverse");
    assert("rufusreverse"@.len() == 12 && "rufusreverse"@[0] == 'r' && "rufusreverse"@[1] == 'u');
    reveal_strlit("molly");
    assert("molly"@.len() == 5 && "molly"@[0] == 'm' && "molly"@[1] == 'o');
    reveal_strlit("mollyhashpass");
    assert("mollyhashpass"@.len() == 13 && "mollyhashpass"@[0] == 'm' && "mollyhashpass"@[1] == 'o');
    reveal_strlit("davey");
    assert("davey"@.len() == 5 && "davey"@[0] == 'd' && "davey"@[1] == 'a');
    reveal_strlit("captaindavey");
    assert("captaindavey"@.len() == 12 && "captaindavey"@[0] == 'c' && "captaindavey"@[1] == 'a');
    reveal_strlit("deadbeef");
    assert("deadbeef"@.len() == 8 && "deadbeef"@[0] == 'd' && "deadbeef"@[1] == 'e');
    match b {
        BossType::Blowfish => lemma_lowercase_of_lowercase("blowfish"@),
        BossType::Twofish => lemma_lowercase_of_lowercase("twofish"@),
        BossType::RufusReverse => lemma_lowercase_of_lowercase("rufusreverse"@),
        BossType::MollyHashpass => lemma_lowercase_of_lowercase("mollyhashpass"@),
        BossType::CaptainDavey => lemma_lowercase_of_lowercase("captaindavey"@),
        BossType::Deadbeef => lemma_lowercase_of_lowercase("deadbeef"@),
    }
}

proof fn lemma_enemy_spawn_name(t: EnemyType)
    ensures
        spawn_target(enemy_key(t)) == SpawnArg::Enemy(t),
        lowercase(enemy_key(t)) == enemy_key(t),
{
    reveal_strlit("scout");
    assert("scout"@.len() == 5 && "scout"@[0] == 's' && "scout"@[1] == 'c');
    reveal_strlit("fighter");
    assert("fighter"@.len() == 7 && "fighter"@[0] == 'f' && "fighter"@[1] == 'i');
    reveal_strlit("bomber");
    assert("bomber"@.len() == 6 && "bomber"@[0] == 'b' && "bomber"@[1] == 'o');
    reveal_strlit("interceptor");
    assert("interceptor"@.len() == 11 && "interceptor"@[0] == 'i' && "interceptor"@[1] == 'n');
    reveal_strlit("elite");
    assert("elite"@.len() == 5 && "elite"@[0] == 'e' && "elite"@[1] == 'l');
    reveal_strlit("blowfish");
    assert("blowfish"@.len() == 8 && "blowfish"@[0] == 'b' && "blowfish"@[1] == 'l');
    reveal_strlit("twofish");
    assert("twofish"@.len() == 7 && "twofish"@[0] == 't' && "twofish"@[1] == 'w');
    reveal_strlit("rufus");
    assert("rufus"@.len() == 5 && "rufus"@[0] == 'r' && "rufus"@[1] == 'u');
    reveal_strlit("rufusreverse");
    assert("rufusreverse"@.len() == 12 && "rufusreverse"@[0] == 'r' && "rufusreverse"@[1] == 'u');
    reveal_strlit("molly");
    assert("molly"@.len() == 5 && "molly"@[0] == 'm' && "molly"@[1] == 'o');
    reveal_strlit("mollyhashpass");
    assert("mollyhashpass"@.len() == 13 && "mollyhashpass"@[0] == 'm' && "mollyhashpass"@[1] == 'o');
    reveal_strlit("davey");
    assert("davey"@.len() == 5 && "davey"@[0] == 'd' && "davey"@[1] == 'a');
    reveal_strlit("captaindavey");
    assert("captaindavey"@.len() == 12 && "captaindavey"@[0] == 'c' && "captaindavey"@[1] == 'a');
    reveal_strlit("deadbeef");
    assert("deadbeef"@.len() == 8 && "deadbeef"@[0] == 'd' && "deadbeef"@[1] == 'e');
    match t {
        EnemyType::Scout => lemma_lowercase_of_lowercase("scout"@),
        EnemyType::Fighter => lemma_lowercase_of_lowercase("fighter"@),
        EnemyType::Bomber => lemma_lowercase_of_lowercase("bomber"@),
        EnemyType::Interceptor => lemma_lowercase_of_lowercase("interceptor"@),
        EnemyType::Elite => lemma_lowercase_of_lowercase("elite"@),
    }
}

/// The first word of a spawn command.
proof fn lemma_spawn_word(ws: Seq<Seq<char>>)
    requires
        ws.len() >= 2,
        ws[0] == "spawn"@,
    ensures
        command_spec(ws) == CommandModel::Spawn(spawn_target(lowercase(ws[1]))),
{
    reveal_strlit("spawn");
    assert("spawn"@.len() == 5 && "spawn"@[0] == 's' && "spawn"@[1] == 'p');
    reveal_strlit("help");
    assert("help"@.len() == 4 && "help"@[0] == 'h' && "help"@[1] == 'e');
    reveal_strlit("god");
    assert("god"@.len() == 3 && "god"@[0] == 'g' && "god"@[1] == 'o');
    reveal_strlit("heal");
    assert("heal"@.len() == 4 && "heal"@[0] == 'h' && "heal"@[1] == 'e');
    reveal_strlit("wave");
    assert("wave"@.len() == 4 && "wave"@[0] == 'w' && "wave"@[1] == 'a');
    reveal_strlit("score");
    assert("score"@.len() == 5 && "score"@[0] == 's' && "score"@[1] == 'c');
    reveal_strlit("lives");
    assert("lives"@.len() == 5 && "lives"@[0] == 'l' && "lives"@[1] == 'i');
}

/// Every boss and every enemy type answers to its own name in the spawn
/// command: a boss to its lowercase variant name (the one its dialogue ids
/// use), an enemy to its content key. Different names thus spawn different
/// bosses.
pub proof fn lemma_spawn_names(b: BossType, t: EnemyType, ws: Seq<Seq<char>>)
    requires
        ws.len() >= 2,
        ws[0] == "spawn"@,
    ensures
        spawn_target(boss_id_name(b)) == SpawnArg::Boss(b),
        spawn_target(enemy_key(t)) == SpawnArg::Enemy(t),
        ws[1] == boss_id_name(b) ==> command_spec(ws) == CommandModel::Spawn(SpawnArg::Boss(b)),
        ws[1] == enemy_key(t) ==> command_spec(ws) == CommandModel::Spawn(SpawnArg::Enemy(t)),
{
    lemma_boss_spawn_name(b);
    lemma_enemy_spawn_name(t);
    lemma_spawn_word(ws);
}

/// The power-up a (lowercased) name stands for.
pub open spec fn powerup_target(name: Seq<char>) -> PowerupArg {
    if name == "rapid"@ {
        PowerupArg::Give(PowerupEffectType::RapidFire)
    } else if name == "spread"@ {
        PowerupArg::Give(PowerupEffectType::SpreadShot)
    } else if name == "pierce"@ {
        PowerupArg::Give(PowerupEffectType::Pierce)
    } else if name == "shield"@ {
        PowerupArg::Give(PowerupEffectType::Shield)
    } else {
        PowerupArg::Unknown
    }
}

/// The amount of `damage <boss> <n>`: the last word, read with
/// `i32::from_str`; the boss named before it is the current boss, whatever
/// the word says, so `damage <n>` works too.
pub open spec fn last_num_arg(ws: Seq<Seq<char>>) -> NumArg {
    if ws.len() > 1 {
        match parse_i32_spec(ws.last()) {
            Some(n) => NumArg::Value(n),
            None => NumArg::Invalid,
        }
    } else {
        NumArg::Missing
    }
}

/// The word that names each command (nothing for an empty or unknown one).
pub open spec fn command_word(m: CommandModel) -> Seq<char> {
    match m {
        CommandModel::Help => "help"@,
        CommandModel::God => "god"@,
        CommandModel::Heal => "heal"@,
        CommandModel::Wave(_) => "wave"@,
        CommandModel::Score(_) => "score"@,
        CommandModel::Lives(_) => "lives"@,
        CommandModel::Spawn(_) => "spawn"@,
        CommandModel::KillAll => "killall"@,
        CommandModel::Powerup(_) => "powerup"@,
        CommandModel::Hitbox => "hitbox"@,
        CommandModel::Time(_) => "time"@,
        CommandModel::State => "state"@,
        CommandModel::Damage(_) => "damage"@,
        CommandModel::Fps => "fps"@,
        CommandModel::Reload => "reload"@,
        CommandModel::Quit => "quit"@,
        _ => Seq::empty(),
    }
}

/// A command is read by its first word: when that word names a command,
/// the command read is the one with that name (whatever follows), and a
/// command that takes no argument is read as exactly that command.
pub proof fn lemma_commands_read_by_name(m: CommandModel, ws: Seq<Seq<char>>)
    requires
        ws.len() >= 1,
        command_word(m).len() > 0,
        ws[0] == command_word(m),
    ensures
        command_word(command_spec(ws)) == ws[0],
        (m is Help || m is God || m is Heal || m is KillAll || m is Hitbox || m is State || m is Fps
            || m is Reload || m is Quit) ==> command_spec(ws) == m,
{
    reveal_strlit("help");
    assert("help"@.len() == 4 && "help"@[0] == 'h' && "help"@[1] == 'e' && "help"@[2] == 'l');
    reveal_strlit("god");
    assert("god"@.len() == 3 && "god"@[0] == 'g' && "god"@[1] == 'o' && "god"@[2] == 'd');
    reveal_strlit("heal");
    assert("heal"@.len() == 4 && "heal"@[0] == 'h' && "heal"@[1] == 'e' && "heal"@[2] == 'a');
    reveal_strlit("wave");
    assert("wave"@.len() == 4 && "wave"@[0] == 'w' && "wave"@[1] == 'a' && "wave"@[2] == 'v');
    reveal_strlit("score");
    assert("score"@.len() == 5 && "score"@[0] == 's' && "score"@[1] == 'c' && "score"@[2] == 'o');
    reveal_strlit("lives");
    assert("lives"@.len() == 5 && "lives"@[0] == 'l' && "lives"@[1] == 'i' && "lives"@[2] == 'v');
    reveal_strlit("spawn");
    assert("spawn"@.len() == 5 && "spawn"@[0] == 's' && "spawn"@[1] == 'p' && "spawn"@[2] == 'a');
    reveal_strlit("killall");
    assert("killall"@.len() == 7 && "killall"@[0] == 'k' && "killall"@[1] == 'i' && "killall"@[2] == 'l');
    reveal_strlit("powerup");
    assert("powerup"@.len() == 7 && "powerup"@[0] == 'p' && "powerup"@[1] == 'o' && "powerup"@[2] == 'w');
    reveal_strlit("hitbox");
    assert("hitbox"@.len() == 6 && "hitbox"@[0] == 'h' && "hitbox"@[1] == 'i' && "hitbox"@[2] == 't');
    reveal_strlit("time");
    assert("time"@.len() == 4 && "time"@[0] == 't' && "time"@[1] == 'i' && "time"@[2] == 'm');
    reveal_strlit("state");
    assert("state"@.len() == 5 && "state"@[0] == 's' && "state"@[1] == 't' && "state"@[2] == 'a');
    reveal_strlit("damage");
    assert("damage"@.len() == 6 && "damage"@[0] == 'd' && "damage"@[1] == 'a' && "damage"@[2] == 'm');
    reveal_strlit("fps");
    assert("fps"@.len() == 3 && "fps"@[0] == 'f' && "fps"@[1] == 'p' && "fps"@[2] == 's');
    reveal_strlit("reload");
    assert("reload"@.len() == 6 && "reload"@[0] == 'r' && "reload"@[1] == 'e' && "reload"@[2] == 'l');
    reveal_strlit("quit");
    assert("quit"@.len() == 4 && "quit"@[0] == 'q' && "quit"@[1] == 'u' && "quit"@[2] == 'i');
}

/// The console's name of each timed power-up and the shield.
pub open spec fn powerup_word(e: PowerupEffectType) -> Seq<char> {
    match e {
        PowerupEffectType::RapidFire => "rapid"@,
        PowerupEffectType::SpreadShot => "spread"@,
        PowerupEffectType::Pierce => "pierce"@,
        PowerupEffectType::Shield => "shield"@,
    }
}

/// Each power-up the console can give answers to its own name, so
/// different names give different power-ups.
pub proof fn lemma_powerup_names(e: PowerupEffectType)
    ensures
        powerup_target(powerup_word(e)) == PowerupArg::Give(e),
{
    reveal_strlit("rapid");
    assert("rapid"@.len() == 5 && "rapid"@[0] == 'r');
    reveal_strlit("spread");
    assert("spread"@.len() == 6 && "spread"@[0] == 's');
    reveal_strlit("pierce");
    assert("pierce"@.len() == 6 && "pierce"@[0] == 'p');
    reveal_strlit("shield");
    assert("shield"@.len() == 6 && "shield"@[0] == 's' && "shield"@[1] == 'h');
    assert("spread"@[1] == 'p');
}

/// A signed argument read with `i32::from_str`.
pub open spec fn num_arg(ws: Seq<Seq<char>>) -> NumArg {
    if ws.len() > 1 {
        match parse_i32_spec(ws[1]) {
            Some(n) => NumArg::Value(n),
            None => NumArg::Invalid,
        }
    } else {
        NumArg::Missing
    }
}

/// `x` clamped to `lo..=hi`.
pub open spec fn clamp(x: i32, lo: i32, hi: i32) -> i32 {
    if x < lo {
        lo
    } else if x > hi {
        hi
    } else {
        x
    }
}

/// What the words of a command ask for; the first word names the command.
pub open spec fn command_spec(ws: Seq<Seq<char>>) -> CommandModel {
    if ws.len() == 0 {
        CommandModel::Empty
    } else {
        let w = ws[0];
        if w == "help"@ {
            CommandModel::Help
        } else if w == "god"@ {
            CommandModel::God
        } else if w == "heal"@ {
            CommandModel::Heal
        } else if w == "wave"@ {
            CommandModel::Wave(
                if ws.len() > 1 {
                    match parse_u32_spec(ws[1]) {
                        Some(n) => if 1 <= n <= 15 {
                            WaveArg::Jump(n)
                        } else {
                            WaveArg::OutOfRange
                        },
                        None => WaveArg::Invalid,
                    }
                } else {
                    WaveArg::Missing
                },
            )
        } else if w == "score"@ {
            CommandModel::Score(num_arg(ws))
        } else if w == "lives"@ {
            CommandModel::Lives(num_arg(ws))
        } else if w == "spawn"@ {
            CommandModel::Spawn(
                if ws.len() > 1 {
                    spawn_target(lowercase(ws[1]))
                } else {
                    SpawnArg::Missing
                },
            )
        } else if w == "killall"@ {
            CommandModel::KillAll
        } else if w == "powerup"@ {
            CommandModel::Powerup(
                if ws.len() > 1 {
                    powerup_target(lowercase(ws[1]))
                } else {
                    PowerupArg::Missing
                },
            )
        } else if w == "hitbox"@ {
            CommandModel::Hitbox
        } else if w == "time"@ {
            CommandModel::Time(
                if ws.len() > 1 {
                    Some(ws[1])
                } else {
                    None
                },
            )
        } else if w == "state"@ {
            CommandModel::State
        } else if w == "damage"@ {
            CommandModel::Damage(last_num_arg(ws))
        } else if w == "fps"@ {
            CommandModel::Fps
        } else if w == "reload"@ {
            CommandModel::Reload
        } else if w == "quit"@ {
            CommandModel::Quit
        } else {
            CommandModel::Unknown
        }
    }
}

fn read_num_arg(ws: &Vec<Vec<char>>) -> (r: NumArg)
    ensures
        r == num_arg(ws.deep_view()),
{
    if ws.len() > 1 {
        assert(ws.deep_view()[1] == ws@[1]@);
        match parse_i32(ws[1].as_slice()) {
            Some(n) => NumArg::Value(n),
            None => NumArg::Invalid,
        }
    } else {
        NumArg::Missing
    }
}

fn read_last_num_arg(ws: &Vec<Vec<char>>) -> (r: NumArg)
    ensures
        r == last_num_arg(ws.deep_view()),
{
    if ws.len() > 1 {
        let k = ws.len() - 1;
        assert(ws.deep_view().last() == ws@[k as int]@);
        match parse_i32(ws[k].as_slice()) {
            Some(n) => NumArg::Value(n),
            None => NumArg::Invalid,
        }
    } else {
        NumArg::Missing
    }
}

fn read_spawn_target(word: &Vec<char>) -> (r: SpawnArg)
    ensures
        r == spawn_target(lowercase(word@)),
{
    let s = string_from_chars(word.as_slice());
    let low = to_lowercase(s.as_str());
    let l = chars_of(low.as_str());
    let l = l.as_slice();
    if chars_eq_str(l, "scout") {
        SpawnArg::Enemy(EnemyType::Scout)
    } else if chars_eq_str(l, "fighter") {
        SpawnArg::Enemy(EnemyType::Fighter)
    } else if chars_eq_str(l, "bomber") {
        SpawnArg::Enemy(EnemyType::Bomber)
    } else if chars_eq_str(l, "interceptor") {
        SpawnArg::Enemy(EnemyType::Interceptor)
    } else if chars_eq_str(l, "elite") {
        SpawnArg::Enemy(EnemyType::Elite)
    } else if chars_eq_str(l, "blowfish") {
        SpawnArg::Boss(BossType::Blowfish)
    } else if chars_eq_str(l, "twofish") {
        SpawnArg::Boss(BossType::Twofish)
    } else if chars_eq_str(l, "rufus") || chars_eq_str(l, "rufusreverse") {
        SpawnArg::Boss(BossType::RufusReverse)
    } else if chars_eq_str(l, "molly") || chars_eq_str(l, "mollyhashpass") {
        SpawnArg::Boss(BossType::MollyHashpass)
    } else if chars_eq_str(l, "davey") || chars_eq_str(l, "captaindavey") {
        SpawnArg::Boss(BossType::CaptainDavey)
    } else if chars_eq_str(l, "deadbeef") {
        SpawnArg::Boss(BossType::Deadbeef)
    } else {
        SpawnArg::Unknown
    }
}

fn read_powerup_target(word: &Vec<char>) -> (r: PowerupArg)
    ensures
        r == powerup_target(lowercase(word@)),
{
    let s = string_from_chars(word.as_slice());
    let low = to_lowercase(s.as_str());
    let l = chars_of(low.as_str());
    let l = l.as_slice();
    if chars_eq_str(l, "rapid") {
        PowerupArg::Give(PowerupEffectType::RapidFire)
    } else if chars_eq_str(l, "spread") {
        PowerupArg::Give(PowerupEffectType::SpreadShot)
    } else if chars_eq_str(l, "pierce") {
        PowerupArg::Give(PowerupEffectType::Pierce)
    } else if chars_eq_str(l, "shield") {
        PowerupArg::Give(PowerupEffectType::Shield)
    } else {
        PowerupArg::Unknown
    }
}

/// Reads a console command: its words are split at whitespace and the first
/// one names the command. `wave` takes a wave number from 1 to 15, `score`,
/// `lives` a signed number, `damage` a signed number as its last word
/// (after the boss's name), `spawn`
/// and `powerup` a name in any case; `time` keeps its argument as typed.
pub fn read_console_command(cmd: &str) -> (r: ConsoleCommand)
    ensures
        r@ == command_spec(words(cmd@)),
{
    let v = chars_of(cmd);
    let ws = split_whitespace(v.as_slice());
    if ws.len() == 0 {
        return ConsoleCommand::Empty;
    }
    assert(ws.deep_view()[0] == ws@[0]@);
    let w = ws[0].as_slice();
    if chars_eq_str(w, "help") {
        ConsoleCommand::Help
    } else if chars_eq_str(w, "god") {
        ConsoleCommand::God
    } else if chars_eq_str(w, "heal") {
        ConsoleCommand::Heal
    } else if chars_eq_str(w, "wave") {
        if ws.len() > 1 {
            assert(ws.deep_view()[1] == ws@[1]@);
            match parse_u32(ws[1].as_slice()) {
                Some(n) => if 1 <= n && n <= 15 {
                    ConsoleCommand::Wave(WaveArg::Jump(n))
                } else {
                    ConsoleCommand::Wave(WaveArg::OutOfRange)
                },
                None => ConsoleCommand::Wave(WaveArg::Invalid),
            }
        } else {
            ConsoleCommand::Wave(WaveArg::Missing)
        }
    } else if chars_eq_str(w, "score") {
        ConsoleCommand::Score(read_num_arg(&ws))
    } else if chars_eq_str(w, "lives") {
        ConsoleCommand::Lives(read_num_arg(&ws))
    } else if chars_eq_str(w, "spawn") {
        if ws.len() > 1 {
            assert(ws.deep_view()[1] == ws@[1]@);
            ConsoleCommand::Spawn(read_spawn_target(&ws[1]))
        } else {
            ConsoleCommand::Spawn(SpawnArg::Missing)
        }
    } else if chars_eq_str(w, "killall") {
        ConsoleCommand::KillAll
    } else if chars_eq_str(w, "powerup") {
        if ws.len() > 1 {
            assert(ws.deep_view()[1] == ws@[1]@);
            ConsoleCommand::Powerup(read_powerup_target(&ws[1]))
        } else {
            ConsoleCommand::Powerup(PowerupArg::Missing)
        }
    } else if chars_eq_str(w, "hitbox") {
        ConsoleCommand::Hitbox
    } else if chars_eq_str(w, "time") {
        if ws.len() > 1 {
            assert(ws.deep_view()[1] == ws@[1]@);
            ConsoleCommand::Time(Some(string_from_chars(ws[1].as_slice())))
        } else {
            ConsoleCommand::Time(None)
        }
    } else if chars_eq_str(w, "state") {
        ConsoleCommand::State
    } else if chars_eq_str(w, "damage") {
        ConsoleCommand::Damage(read_last_num_arg(&ws))
    } else if chars_eq_str(w, "fps") {
        ConsoleCommand::Fps
    } else if chars_eq_str(w, "reload") {
        ConsoleCommand::Reload
    } else if chars_eq_str(w, "quit") {
        ConsoleCommand::Quit
    } else {
        ConsoleCommand::Unknown
    }
}

/// The command text the console runs for what was typed: trimmed, then
/// lowercased.
pub fn prepare_console_command(input: &str) -> (cmd: String)
    ensures
        cmd@ == lowercase(trim(input@)),
{
    let v = chars_of(input);
    let t = trim_chars(v.as_slice());
    let s = string_from_chars(t.as_slice());
    to_lowercase(s.as_str())
}

/// What pressing Enter in the console does to the line being typed: when
/// the trimmed, lowercased line is a command, it is handed back to be run
/// and the line and its cursor are cleared; a blank line is left alone.
pub fn submit_console_input(input: &mut String, cursor: &mut usize) -> (cmd: Option<String>)
    ensures
        lowercase(trim(old(input)@)).len() > 0 ==> {
            &&& cmd matches Some(c) && c@ == lowercase(trim(old(input)@))
            &&& final(input)@.len() == 0
            &&& *final(cursor) == 0
        },
        lowercase(trim(old(input)@)).len() == 0 ==> {
            &&& cmd is None
            &&& final(input)@ == old(input)@
            &&& *final(cursor) == *old(cursor)
        },
{
    let c = prepare_console_command(input.as_str());
    if c.as_str().unicode_len() == 0 {
        return None;
    }
    *input = String::new();
    *cursor = 0;
    Some(c)
}

/// The part of a game session the console can change.
pub struct ConsoleSession {
    pub hitbox_visible: bool,
    pub ship: Ship,
    pub wave_director: WaveDirector,
    pub powerups: PowerUpManager,
    pub score: i32,
    pub lives: i32,
    pub pirate_count: i32,
}

/// What the console answers to a command.
#[derive(Clone, Copy, Debug, PartialEq, Eq, Structural)]
pub enum ConsoleReply {
    /// Nothing was typed: no answer.
    Silent,
    Help,
    /// God mode is now on (`true`) or off.
    GodMode(bool),
    Healed,
    JumpedToWave(u32),
    WaveOutOfRange,
    InvalidWave,
    WaveUsage,
    ScoreSet(i32),
    InvalidScore,
    ScoreUsage,
    LivesSet(i32),
    InvalidLives,
    LivesUsage,
    SpawnedEnemy(EnemyType),
    SpawnedBoss(BossType),
    UnknownEntity,
    SpawnUsage,
    AllKilled,
    GavePowerup(PowerupEffectType),
    UnknownPowerup,
    PowerupUsage,
    /// The hitbox overlay is now on (`true`) or off.
    HitboxOverlay(bool),
    /// The time scale is read and set by the caller, who keeps the clock.
    TimeScale,
    StateReport,
    BossDefeated,
    /// The boss took this much damage and lives on.
    BossDamaged(i32),
    InvalidDamage,
    DamageUsage,
    NoBoss,
    FpsUnavailable,
    /// The content is read again by the caller, who owns the files.
    ReloadRequested,
    ReturningToMenu,
    UnknownCommand,
}

/// Which power-up clocks a command fills to thirty seconds.
#[derive(Clone, Copy, Debug, PartialEq, Eq, Structural)]
pub enum TimerRefresh {
    Unchanged,
    /// Rapid fire, spread shot and pierce.
    All,
    One(PowerupEffectType),
}

/// What a command asks of the rest of the game besides the session.
pub struct ConsoleOutcome {
    pub reply: ConsoleReply,
    /// Enemies, pirates, bullets and cannonballs are removed.
    pub clear_field: bool,
    /// Every enemy and pirate dies; bullets and cannonballs are removed.
    pub kill_all: bool,
    /// An enemy to put on the field.
    pub spawn: Option<Enemy>,
    pub timers: TimerRefresh,
    /// The screen to switch to, if any.
    pub next_state: Option<GameState>,
}

/// An outcome that only answers.
pub open spec fn answer(reply: ConsoleReply) -> ConsoleOutcome {
    ConsoleOutcome {
        reply,
        clear_field: false,
        kill_all: false,
        spawn: None,
        timers: TimerRefresh::Unchanged,
        next_state: None,
    }
}

/// The wave director after `start_wave(n)`.
pub open spec fn started(d: WaveDirector, n: u32) -> WaveDirector {
    WaveDirector {
        current_wave: n,
        wave_state: if is_boss_wave_number(n) {
            WaveState::BossIntro
        } else {
            WaveState::Spawning
        },
        max_enemies: max_enemies_spec(n),
        enemies_spawned: 0,
        current_boss: None,
        is_boss_wave: is_boss_wave_number(n),
    }
}

/// Whether a command can be carried out without overflowing: a `damage`
/// hit must leave the boss's health and, when it kills, the score within
/// `i32`.
pub open spec fn console_step_defined(c: CommandModel, s: ConsoleSession) -> bool {
    match c {
        CommandModel::Damage(NumArg::Value(d)) => match s.wave_director.current_boss {
            Some(b) => i32::MIN <= b.health - d <= i32::MAX && (b.hit_kills(d as int) ==> s.score
                + 1000 <= i32::MAX),
            None => true,
        },
        _ => true,
    }
}

/// The session after a command, and what the command asks of the rest of
/// the game.
pub open spec fn console_step(c: CommandModel, s: ConsoleSession) -> (ConsoleSession, ConsoleOutcome) {
    match c {
        CommandModel::Empty => (s, answer(ConsoleReply::Silent)),
        CommandModel::Help => (s, answer(ConsoleReply::Help)),
        CommandModel::God => (
            ConsoleSession { ship: Ship { has_shield: !s.ship.has_shield, ..s.ship }, ..s },
            answer(ConsoleReply::GodMode(!s.ship.has_shield)),
        ),
        CommandModel::Heal => (
            ConsoleSession {
                ship: Ship { has_shield: true, ..s.ship },
                powerups: PowerUpManager { has_shield: true },
                ..s
            },
            ConsoleOutcome { timers: TimerRefresh::All, ..answer(ConsoleReply::Healed) },
        ),
        CommandModel::Wave(a) => match a {
            WaveArg::Jump(n) => if 1 <= n <= 15 { (
                ConsoleSession {
                    wave_director: started(s.wave_director, n),
                    score: (n * 1000) as i32,
                    pirate_count: 10,
                    ..s
                },
                ConsoleOutcome { clear_field: true, ..answer(ConsoleReply::JumpedToWave(n)) },
            ) } else {
                (s, answer(ConsoleReply::WaveOutOfRange))
            },
            WaveArg::OutOfRange => (s, answer(ConsoleReply::WaveOutOfRange)),
            WaveArg::Invalid => (s, answer(ConsoleReply::InvalidWave)),
            WaveArg::Missing => (s, answer(ConsoleReply::WaveUsage)),
        },
        CommandModel::Score(a) => match a {
            NumArg::Value(n) => (ConsoleSession { score: n, ..s }, answer(ConsoleReply::ScoreSet(n))),
            NumArg::Invalid => (s, answer(ConsoleReply::InvalidScore)),
            NumArg::Missing => (s, answer(ConsoleReply::ScoreUsage)),
        },
        CommandModel::Lives(a) => match a {
            NumArg::Value(n) => (
                ConsoleSession { lives: clamp(n, 0, 9), ..s },
                answer(ConsoleReply::LivesSet(clamp(n, 0, 9))),
            ),
            NumArg::Invalid => (s, answer(ConsoleReply::InvalidLives)),
            NumArg::Missing => (s, answer(ConsoleReply::LivesUsage)),
        },
        CommandModel::Spawn(a) => match a {
            SpawnArg::Enemy(t) => (
                s,
                ConsoleOutcome {
                    spawn: Some(Enemy::new_spec(t, s.wave_director.current_wave)),
                    ..answer(ConsoleReply::SpawnedEnemy(t))
                },
            ),
            SpawnArg::Boss(bt) => (
                ConsoleSession {
                    pirate_count: 0,
                    wave_director: WaveDirector {
                        current_boss: Some(Boss::new_spec(bt)),
                        wave_state: WaveState::BossFight,
                        is_boss_wave: true,
                        current_wave: 99,
                        ..s.wave_director
                    },
                    ..s
                },
                ConsoleOutcome {
                    clear_field: true,
                    next_state: Some(GameState::Playing),
                    ..answer(ConsoleReply::SpawnedBoss(bt))
                },
            ),
            SpawnArg::Unknown => (s, answer(ConsoleReply::UnknownEntity)),
            SpawnArg::Missing => (s, answer(ConsoleReply::SpawnUsage)),
        },
        CommandModel::KillAll => (s, ConsoleOutcome { kill_all: true, ..answer(ConsoleReply::AllKilled) }),
        CommandModel::Powerup(a) => match a {
            PowerupArg::Give(e) => (
                ConsoleSession {
                    ship: Ship {
                        has_shield: s.ship.has_shield || e == PowerupEffectType::Shield,
                        ..s.ship
                    },
                    powerups: PowerUpManager {
                        has_shield: s.powerups.has_shield || e == PowerupEffectType::Shield,
                    },
                    ..s
                },
                ConsoleOutcome { timers: TimerRefresh::One(e), ..answer(ConsoleReply::GavePowerup(e)) },
            ),
            PowerupArg::Unknown => (s, answer(ConsoleReply::UnknownPowerup)),
            PowerupArg::Missing => (s, answer(ConsoleReply::PowerupUsage)),
        },
        CommandModel::Hitbox => (
            ConsoleSession { hitbox_visible: !s.hitbox_visible, ..s },
            answer(ConsoleReply::HitboxOverlay(!s.hitbox_visible)),
        ),
        CommandModel::Time(_) => (s, answer(ConsoleReply::TimeScale)),
        CommandModel::State => (s, answer(ConsoleReply::StateReport)),
        CommandModel::Damage(a) => match s.wave_director.current_boss {
            None => (s, answer(ConsoleReply::NoBoss)),
            Some(b) => match a {
                NumArg::Value(d) => if b.hit_kills(d as int) {
                    (
                        ConsoleSession {
                            score: (s.score + 1000) as i32,
                            wave_director: WaveDirector {
                                current_boss: Some(b.after_hit(d as int)),
                                wave_state: WaveState::BossDefeated,
                                ..s.wave_director
                            },
                            ..s
                        },
                        answer(ConsoleReply::BossDefeated),
                    )
                } else {
                    (
                        ConsoleSession {
                            wave_director: WaveDirector {
                                current_boss: Some(b.after_hit(d as int)),
                                ..s.wave_director
                            },
                            ..s
                        },
                        answer(ConsoleReply::BossDamaged(d)),
                    )
                },
                NumArg::Invalid => (s, answer(ConsoleReply::InvalidDamage)),
                NumArg::Missing => (s, answer(ConsoleReply::DamageUsage)),
            },
        },
        CommandModel::Fps => (s, answer(ConsoleReply::FpsUnavailable)),
        CommandModel::Reload => (s, answer(ConsoleReply::ReloadRequested)),
        CommandModel::Quit => (
            s,
            ConsoleOutcome { next_state: Some(GameState::MainMenu), ..answer(ConsoleReply::ReturningToMenu) },
        ),
        CommandModel::Unknown => (s, answer(ConsoleReply::UnknownCommand)),
    }
}

fn reply(r: ConsoleReply) -> (o: ConsoleOutcome)
    ensures
        o == answer(r),
{
    ConsoleOutcome {
        reply: r,
        clear_field: false,
        kill_all: false,
        spawn: None,
        timers: TimerRefresh::Unchanged,
        next_state: None,
    }
}

impl ConsoleSession {
    /// Whether `cmd` can be carried out on this session without overflow.
    pub fn can_execute(&self, cmd: &ConsoleCommand) -> (r: bool)
        ensures
            r == console_step_defined(cmd@, *self),
    {
        match cmd {
            ConsoleCommand::Damage(NumArg::Value(d)) => match &self.wave_director.current_boss {
                Some(b) => {
                    let h = b.health as i64 - *d as i64;
                    if h < i32::MIN as i64 || h > i32::MAX as i64 {
                        false
                    } else if !(b.invulnerable || b.entry_anim) && h <= 0 {
                        self.score <= i32::MAX - 1000
                    } else {
                        true
                    }
                },
                None => true,
            },
            _ => true,
        }
    }
}

/// Carries out a console command on the session. The answer, and what the
/// rest of the game must do (clear or kill the field, spawn an enemy, fill
/// power-up clocks, switch screens), come back in the outcome.
#[verifier::rlimit(50)]
#[verifier::spinoff_prover]
pub fn execute_console_command(cmd: &ConsoleCommand, s: &mut ConsoleSession) -> (o: ConsoleOutcome)
    requires
        console_step_defined(cmd@, *old(s)),
    ensures
        *final(s) == console_step(cmd@, *old(s)).0,
        o == console_step(cmd@, *old(s)).1,
{
    match cmd {
        ConsoleCommand::Help => reply(ConsoleReply::Help),
        ConsoleCommand::Empty => reply(ConsoleReply::Silent),
        ConsoleCommand::God => {
            s.ship.has_shield = !s.ship.has_shield;
            reply(ConsoleReply::GodMode(s.ship.has_shield))
        },
        ConsoleCommand::Heal => {
            s.ship.has_shield = true;
            s.powerups.has_shield = true;
            let mut o = reply(ConsoleReply::Healed);
            o.timers = TimerRefresh::All;
            o
        },
        ConsoleCommand::Wave(a) => match a {
            WaveArg::Jump(n) => {
                if *n < 1 || *n > 15 {
                    return reply(ConsoleReply::WaveOutOfRange);
                }
                let cfg = GameConfig::new();
                s.pirate_count = cfg.starting_pirate_count;
                s.wave_director.start_wave(*n);
                proof {
                    assert(s.wave_director.current_wave <= 15);
                }
                s.score = s.wave_director.current_wave as i32 * 1000;
                let mut o = reply(ConsoleReply::JumpedToWave(*n));
                o.clear_field = true;
                o
            },
            WaveArg::OutOfRange => reply(ConsoleReply::WaveOutOfRange),
            WaveArg::Invalid => reply(ConsoleReply::InvalidWave),
            WaveArg::Missing => reply(ConsoleReply::WaveUsage),
        },
        ConsoleCommand::Score(a) => match a {
            NumArg::Value(n) => {
                s.score = *n;
                reply(ConsoleReply::ScoreSet(*n))
            },
            NumArg::Invalid => reply(ConsoleReply::InvalidScore),
            NumArg::Missing => reply(ConsoleReply::ScoreUsage),
        },
        ConsoleCommand::Lives(a) => match a {
            NumArg::Value(n) => {
                s.lives = if *n < 0 {
                    0
                } else if *n > 9 {
                    9
                } else {
                    *n
                };
                reply(ConsoleReply::LivesSet(s.lives))
            },
            NumArg::Invalid => reply(ConsoleReply::InvalidLives),
            NumArg::Missing => reply(ConsoleReply::LivesUsage),
        },
        ConsoleCommand::Spawn(a) => match a {
            SpawnArg::Enemy(t) => {
                let e = Enemy::new(*t, s.wave_director.current_wave);
                let mut o = reply(ConsoleReply::SpawnedEnemy(*t));
                o.spawn = Some(e);
                o
            },
            SpawnArg::Boss(bt) => {
                s.pirate_count = 0;
                s.wave_director.current_boss = Some(Boss::new(*bt));
                s.wave_director.wave_state = WaveState::BossFight;
                s.wave_director.is_boss_wave = true;
                s.wave_director.current_wave = 99;
                let mut o = reply(ConsoleReply::SpawnedBoss(*bt));
                o.clear_field = true;
                o.next_state = Some(GameState::Playing);
                o
            },
            SpawnArg::Unknown => reply(ConsoleReply::UnknownEntity),
            SpawnArg::Missing => reply(ConsoleReply::SpawnUsage),
        },
        ConsoleCommand::KillAll => {
            let mut o = reply(ConsoleReply::AllKilled);
            o.kill_all = true;
            o
        },
        ConsoleCommand::Powerup(a) => match a {
            PowerupArg::Give(e) => {
                s.ship.apply_powerup(*e);
                if let PowerupEffectType::Shield = e {
                    s.powerups.has_shield = true;
                }
                let mut o = reply(ConsoleReply::GavePowerup(*e));
                o.timers = TimerRefresh::One(*e);
                o
            },
            PowerupArg::Unknown => reply(ConsoleReply::UnknownPowerup),
            PowerupArg::Missing => reply(ConsoleReply::PowerupUsage),
        },
        ConsoleCommand::Hitbox => {
            s.hitbox_visible = !s.hitbox_visible;
            reply(ConsoleReply::HitboxOverlay(s.hitbox_visible))
        },
        ConsoleCommand::Time(_) => reply(ConsoleReply::TimeScale),
        ConsoleCommand::State => reply(ConsoleReply::StateReport),
        ConsoleCommand::Damage(a) => {
            if s.wave_director.current_boss.is_none() {
                return reply(ConsoleReply::NoBoss);
            }
            match a {
                NumArg::Value(d) => {
                    let killed = s.wave_director.hit_boss(*d);
                    if killed == 1000 {
                        s.score = s.score + 1000;
                        reply(ConsoleReply::BossDefeated)
                    } else {
                        reply(ConsoleReply::BossDamaged(*d))
                    }
                },
                NumArg::Invalid => reply(ConsoleReply::InvalidDamage),
                NumArg::Missing => reply(ConsoleReply::DamageUsage),
            }
        },
        ConsoleCommand::Fps => reply(ConsoleReply::FpsUnavailable),
        ConsoleCommand::Reload => reply(ConsoleReply::ReloadRequested),
        ConsoleCommand::Quit => {
            let mut o = reply(ConsoleReply::ReturningToMenu);
            o.next_state = Some(GameState::MainMenu);
            o
        },
        ConsoleCommand::Unknown => reply(ConsoleReply::UnknownCommand),
    }
}

} // verus!
