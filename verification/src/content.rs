//! Game content loaded from data files: enemy archetypes, wave tables and
//! boss definitions, keyed by name; lookups, cross-file validation and
//! reloading.

use vstd::prelude::*;
use crate::text::{chars_of, string_from_chars, str_eq, chars_eq, decimal_chars, decimal};

verus! {

/// The whole-number side of an enemy archetype.
pub struct EnemyArchetype {
    pub base_hp: i32,
    pub base_armor: i32,
    pub shoot_pattern: String,
    pub score_value: i32,
    pub color: String,
    pub sprite: String,
}

/// A formation named in a wave table, by name or spelled out.
pub enum FormationSpec {
    Simple(String),
    Detailed(DetailedFormation),
}

/// A spelled-out formation (the whole-number part of it).
pub enum DetailedFormation {
    Vee { count: u32 },
    Line { count: u32 },
    Circle { count: u32 },
    Escort { leader: String, followers: u32 },
    Grid { rows: u32, cols: u32 },
    Chaos,
}

/// What the rules read of a wave definition.
pub struct WaveDef {
    pub max_enemies: u32,
    pub formations: Vec<FormationSpec>,
    pub boss: Option<String>,
    /// The enemy keys the wave gives spawn weights to, in key order.
    pub enemy_weights: Vec<String>,
}

impl WaveDef {
    /// The wave used past the table: 24 enemies, no formations, no boss.
    pub fn default() -> (w: WaveDef)
        ensures
            w.max_enemies == 24,
            w.formations@.len() == 0,
            w.boss is None,
            w.enemy_weights@.len() == 0,
    {
        WaveDef { max_enemies: 24, formations: Vec::new(), boss: None, enemy_weights: Vec::new() }
    }
}

/// What the rules read of a boss definition.
pub struct BossDef {
    pub name: String,
    pub max_health: i32,
    pub sprite: String,
    pub portrait: String,
}

/// All loaded content; each table lists its entries in key order, each key once.
pub struct Content {
    pub enemies: Vec<(String, EnemyArchetype)>,
    pub waves: Vec<(String, WaveDef)>,
    pub default_wave: WaveDef,
    pub bosses: Vec<(String, BossDef)>,
}

/// No key occurs twice in a table.
pub open spec fn keys_distinct<T>(table: Seq<(String, T)>) -> bool {
    forall|i: int, j: int|
        0 <= i < j < table.len() ==> (#[trigger] table[i]).0@ != (#[trigger] table[j]).0@
}

impl Content {
    /// Each table holds each key once.
    pub open spec fn wf(&self) -> bool {
        &&& keys_distinct(self.enemies@)
        &&& keys_distinct(self.waves@)
        &&& keys_distinct(self.bosses@)
    }
}

/// Whether a table has an entry under `key`.
pub open spec fn has_key<T>(table: Seq<(String, T)>, key: Seq<char>) -> bool {
    exists|i: int| 0 <= i < table.len() && (#[trigger] table[i]).0@ == key
}

/// Position of the first entry under `key`, if any.
pub open spec fn key_index<T>(table: Seq<(String, T)>, key: Seq<char>) -> int
    decreases table.len(),
{
    if table.len() == 0 {
        -1
    } else if table[0].0@ == key {
        0
    } else {
        let r = key_index(table.drop_first(), key);
        if r < 0 {
            -1
        } else {
            r + 1
        }
    }
}

proof fn lemma_key_index<T>(table: Seq<(String, T)>, key: Seq<char>)
    ensures
        -1 <= key_index(table, key) < table.len(),
        key_index(table, key) >= 0 ==> table[key_index(table, key)].0@ == key,
        key_index(table, key) >= 0 ==> forall|j: int|
            0 <= j < key_index(table, key) ==> (#[trigger] table[j]).0@ != key,
        key_index(table, key) < 0 <==> !has_key(table, key),
    decreases table.len(),
{
    if table.len() > 0 {
        lemma_key_index(table.drop_first(), key);
        if table[0].0@ != key {
            if has_key(table, key) {
                let i = choose|i: int| 0 <= i < table.len() && (#[trigger] table[i]).0@ == key;
                assert(table.drop_first()[i - 1] == table[i]);
            }
            if has_key(table.drop_first(), key) {
                let i = choose|i: int|
                    0 <= i < table.drop_first().len() && (#[trigger] table.drop_first()[i]).0@
                        == key;
                assert(table[i + 1] == table.drop_first()[i]);
            }
            assert forall|j: int|
                0 < j < key_index(table, key) implies (#[trigger] table[j]).0@ != key by {
                assert(table[j] == table.drop_first()[j - 1]);
            }
        } else {
            assert(table[0].0@ == key);
        }
    }
}

/// In a table that holds each key once, a lookup finds the one entry under
/// its key.
pub proof fn lemma_lookup_finds_the_only_entry<T>(table: Seq<(String, T)>, i: int)
    requires
        keys_distinct(table),
        0 <= i < table.len(),
    ensures
        key_index(table, table[i].0@) == i,
{
    lemma_key_index(table, table[i].0@);
    let k = key_index(table, table[i].0@);
    assert(has_key(table, table[i].0@));
    if k < i {
        assert(table[k].0@ != table[i].0@);
    }
}

/// Finds the first entry under `key`.
fn find_key<T>(table: &Vec<(String, T)>, key: &str) -> (r: Option<usize>)
    ensures
        match r {
            Some(i) => i == key_index(table@, key@),
            None => key_index(table@, key@) < 0,
        },
{
    proof {
        lemma_key_index(table@, key@);
    }
    let mut i: usize = 0;
    while i < table.len()
        invariant
            i <= table@.len(),
            -1 <= key_index(table@, key@) < table@.len(),
            key_index(table@, key@) >= 0 ==> table@[key_index(table@, key@)].0@ == key@,
            key_index(table@, key@) < 0 <==> !has_key(table@, key@),
            forall|j: int| 0 <= j < i ==> (#[trigger] table@[j]).0@ != key@,
            key_index(table@, key@) >= 0 ==> forall|j: int|
                0 <= j < key_index(table@, key@) ==> (#[trigger] table@[j]).0@ != key@,
        decreases table@.len() - i,
    {
        if str_eq(table[i].0.as_str(), key) {
            return Some(i);
        }
        i = i + 1;
    }
    None
}

/// Whether `table` has an entry under `key`.
fn contains_key<T>(table: &Vec<(String, T)>, key: &str) -> (r: bool)
    ensures
        r == has_key(table@, key@),
{
    proof {
        lemma_key_index(table@, key@);
    }
    find_key(table, key).is_some()
}

/// The archetype under `key`.
pub fn enemy<'a>(c: &'a Content, key: &str) -> (r: Option<&'a EnemyArchetype>)
    ensures
        match r {
            Some(a) => has_key(c.enemies@, key@) && *a == c.enemies@[key_index(
                c.enemies@,
                key@,
            )].1,
            None => !has_key(c.enemies@, key@),
        },
{
    proof {
        lemma_key_index(c.enemies@, key@);
    }
    match find_key(&c.enemies, key) {
        Some(i) => Some(&c.enemies[i].1),
        None => None,
    }
}

/// The boss definition under `key`.
pub fn boss<'a>(c: &'a Content, key: &str) -> (r: Option<&'a BossDef>)
    ensures
        match r {
            Some(b) => has_key(c.bosses@, key@) && *b == c.bosses@[key_index(c.bosses@, key@)].1,
            None => !has_key(c.bosses@, key@),
        },
{
    proof {
        lemma_key_index(c.bosses@, key@);
    }
    match find_key(&c.bosses, key) {
        Some(i) => Some(&c.bosses[i].1),
        None => None,
    }
}

fn find_wave(c: &Content, wave: u32) -> (r: Option<usize>)
    ensures
        match r {
            Some(i) => i == key_index(c.waves@, decimal(wave as nat)),
            None => key_index(c.waves@, decimal(wave as nat)) < 0,
        },
{
    let key = string_from_chars(decimal_chars(wave).as_slice());
    find_key(&c.waves, key.as_str())
}

/// The wave definition that governs wave `n`: the table entry keyed by the
/// decimal numeral of `n`, or the default wave when the table has none.
pub open spec fn wave_def(c: Content, n: nat) -> WaveDef {
    if has_key(c.waves@, decimal(n)) {
        c.waves@[key_index(c.waves@, decimal(n))].1
    } else {
        c.default_wave
    }
}

/// The wave table entry of `wave` (keyed by its decimal numeral), or the
/// default wave when the table has none.
pub fn wave(c: &Content, wave_number: u32) -> (r: &WaveDef)
    ensures
        *r == wave_def(*c, wave_number as nat),
{
    proof {
        lemma_key_index(c.waves@, decimal(wave_number as nat));
    }
    match find_wave(c, wave_number) {
        Some(i) => &c.waves[i].1,
        None => &c.default_wave,
    }
}

/// The boss key the wave table gives wave `n`, if any.
pub open spec fn table_boss(c: Content, n: nat) -> Option<String> {
    if has_key(c.waves@, decimal(n)) {
        c.waves@[key_index(c.waves@, decimal(n))].1.boss
    } else {
        None::<String>
    }
}

/// The boss key of `wave`, if the table makes it a boss wave.
pub fn boss_for_wave(c: &Content, wave: u32) -> (r: Option<String>)
    ensures
        r == table_boss(*c, wave as nat),
{
    proof {
        lemma_key_index(c.waves@, decimal(wave as nat));
    }
    match find_wave(c, wave) {
        Some(i) => match &c.waves[i].1.boss {
            Some(b) => Some(b.clone()),
            None => None,
        },
        None => None,
    }
}

/// Replaces the content with freshly read content; when reading failed the
/// content is left as it was and the error is passed on.
pub fn reload(store: &mut Content, fresh: Result<Content, String>) -> (r: Result<(), String>)
    ensures
        match fresh {
            Ok(c) => r is Ok && *final(store) == c,
            Err(e) => r == Err::<(), String>(e) && *final(store) == *old(store),
        },
        old(store).wf() && (fresh matches Ok(c) ==> c.wf()) ==> final(store).wf(),
{
    match fresh {
        Ok(c) => {
            *store = c;
            Ok(())
        },
        Err(e) => Err(e),
    }
}

/// The pattern a boss bullet flies in when its definition names none.
pub fn default_bullet_pattern() -> (s: String)
    ensures
        s@ == "straight"@,
{
    "straight".to_owned()
}

// ---- validation -----------------------------------------------------------

/// `wave <key>: boss "<boss>" is not defined in bosses.json`
pub open spec fn missing_boss_msg(wave_key: Seq<char>, boss_key: Seq<char>) -> Seq<char> {
    "wave "@ + wave_key + ": boss \""@ + boss_key + "\" is not defined in bosses.json"@
}

/// `wave <key>: enemy weight "<enemy>" is not defined in enemies.json`
pub open spec fn missing_weight_msg(wave_key: Seq<char>, enemy_key: Seq<char>) -> Seq<char> {
    "wave "@ + wave_key + ": enemy weight \""@ + enemy_key + "\" is not defined in enemies.json"@
}

/// `wave <key>: formation leader "<enemy>" is not defined in enemies.json`
pub open spec fn missing_leader_msg(wave_key: Seq<char>, leader: Seq<char>) -> Seq<char> {
    "wave "@ + wave_key + ": formation leader \""@ + leader
        + "\" is not defined in enemies.json"@
}

/// Problems with the boss a wave names.
pub open spec fn boss_issues(wave_key: Seq<char>, w: WaveDef, c: Content) -> Seq<Seq<char>> {
    match w.boss {
        Some(b) => if has_key(c.bosses@, b@) {
            seq![]
        } else {
            seq![missing_boss_msg(wave_key, b@)]
        },
        None => seq![],
    }
}

/// Problems with the enemy keys a wave weights, in order.
pub open spec fn weight_issues(wave_key: Seq<char>, keys: Seq<String>, c: Content) -> Seq<Seq<char>>
    decreases keys.len(),
{
    if keys.len() == 0 {
        seq![]
    } else {
        weight_issues(wave_key, keys.drop_last(), c) + if has_key(c.enemies@, keys.last()@) {
            Seq::<Seq<char>>::empty()
        } else {
            seq![missing_weight_msg(wave_key, keys.last()@)]
        }
    }
}

/// Problems with escort leaders in a wave's formations, in order.
pub open spec fn leader_issues(wave_key: Seq<char>, fs: Seq<FormationSpec>, c: Content) -> Seq<
    Seq<char>,
>
    decreases fs.len(),
{
    if fs.len() == 0 {
        seq![]
    } else {
        leader_issues(wave_key, fs.drop_last(), c) + match fs.last() {
            FormationSpec::Detailed(DetailedFormation::Escort { leader, .. }) => if has_key(
                c.enemies@,
                leader@,
            ) {
                Seq::<Seq<char>>::empty()
            } else {
                seq![missing_leader_msg(wave_key, leader@)]
            },
            _ => Seq::<Seq<char>>::empty(),
        }
    }
}

/// Problems with one wave: its boss, then its weights, then its leaders.
pub open spec fn wave_issues(key: Seq<char>, w: WaveDef, c: Content) -> Seq<Seq<char>> {
    boss_issues(key, w, c) + weight_issues(key, w.enemy_weights@, c) + leader_issues(
        key,
        w.formations@,
        c,
    )
}

/// Problems with a list of waves, wave by wave.
pub open spec fn waves_issues(waves: Seq<(String, WaveDef)>, c: Content) -> Seq<Seq<char>>
    decreases waves.len(),
{
    if waves.len() == 0 {
        seq![]
    } else {
        waves_issues(waves.drop_last(), c) + wave_issues(waves.last().0@, waves.last().1, c)
    }
}

/// All cross-file reference problems of the content.
pub open spec fn content_issues(c: Content) -> Seq<Seq<char>> {
    waves_issues(c.waves@, c)
}

/// Lines joined with newlines.
pub open spec fn join_lines(lines: Seq<Seq<char>>) -> Seq<char>
    decreases lines.len(),
{
    if lines.len() == 0 {
        seq![]
    } else if lines.len() == 1 {
        lines[0]
    } else {
        join_lines(lines.drop_last()) + "\n"@ + lines.last()
    }
}

fn push_str(v: &mut Vec<char>, s: &str)
    ensures
        final(v)@ == old(v)@ + s@,
{
    let w = chars_of(s);
    push_chars(v, &w);
}

fn push_chars(v: &mut Vec<char>, w: &Vec<char>)
    ensures
        final(v)@ == old(v)@ + w@,
{
    let mut i: usize = 0;
    while i < w.len()
        invariant
            i <= w@.len(),
            v@ == old(v)@ + w@.take(i as int),
        decreases w@.len() - i,
    {
        v.push(w[i]);
        i = i + 1;
        assert(v@ =~= old(v)@ + w@.take(i as int));
    }
    assert(w@.take(w@.len() as int) =~= w@);
}

fn message(prefix: &str, wave_key: &str, middle: &str, key: &str, suffix: &str) -> (m: Vec<char>)
    ensures
        m@ == prefix@ + wave_key@ + middle@ + key@ + suffix@,
{
    let mut m: Vec<char> = Vec::new();
    push_str(&mut m, prefix);
    push_str(&mut m, wave_key);
    push_str(&mut m, middle);
    push_str(&mut m, key);
    push_str(&mut m, suffix);
    assert(m@ =~= prefix@ + wave_key@ + middle@ + key@ + suffix@);
    m
}

fn wave_problems(c: &Content, key: &String, w: &WaveDef, out: &mut Vec<Vec<char>>)
    ensures
        final(out).deep_view() == old(out).deep_view() + wave_issues(key@, *w, *c),
{
    let ghost start = out.deep_view();
    match &w.boss {
        Some(b) => {
            if !contains_key(&c.bosses, b.as_str()) {
                let m = message("wave ", key.as_str(), ": boss \"", b.as_str(), "\" is not defined in bosses.json");
                let ghost before = out.deep_view();
                assert(m.deep_view() =~= m@);
                out.push(m);
                assert(out.deep_view() =~= before.push(missing_boss_msg(key@, b@)));
            }
        },
        None => {},
    }
    assert(out.deep_view() =~= start + boss_issues(key@, *w, *c));
    let ghost after_boss = out.deep_view();
    let mut i: usize = 0;
    assert(w.enemy_weights@.take(0) =~= Seq::<String>::empty());
    while i < w.enemy_weights.len()
        invariant
            i <= w.enemy_weights@.len(),
            out.deep_view() == after_boss + weight_issues(key@, w.enemy_weights@.take(i as int), *c),
        decreases w.enemy_weights@.len() - i,
    {
        let k = &w.enemy_weights[i];
        let ghost before = out.deep_view();
        assert(w.enemy_weights@.take(i + 1).drop_last() =~= w.enemy_weights@.take(i as int));
        assert(w.enemy_weights@.take(i + 1).last() == *k);
        if !contains_key(&c.enemies, k.as_str()) {
            let m = message("wave ", key.as_str(), ": enemy weight \"", k.as_str(), "\" is not defined in enemies.json");
            assert(m.deep_view() =~= m@);
            out.push(m);
            assert(out.deep_view() =~= before.push(missing_weight_msg(key@, k@)));
        }
        i = i + 1;
        assert(out.deep_view() =~= after_boss + weight_issues(key@, w.enemy_weights@.take(i as int), *c));
    }
    assert(w.enemy_weights@.take(w.enemy_weights@.len() as int) =~= w.enemy_weights@);
    let ghost after_weights = out.deep_view();
    let mut j: usize = 0;
    assert(w.formations@.take(0) =~= Seq::<FormationSpec>::empty());
    while j < w.formations.len()
        invariant
            j <= w.formations@.len(),
            out.deep_view() == after_weights + leader_issues(key@, w.formations@.take(j as int), *c),
        decreases w.formations@.len() - j,
    {
        let ghost before = out.deep_view();
        assert(w.formations@.take(j + 1).drop_last() =~= w.formations@.take(j as int));
        assert(w.formations@.take(j + 1).last() == w.formations@[j as int]);
        match &w.formations[j] {
            FormationSpec::Detailed(DetailedFormation::Escort { leader, .. }) => {
                if !contains_key(&c.enemies, leader.as_str()) {
                    let m = message("wave ", key.as_str(), ": formation leader \"", leader.as_str(), "\" is not defined in enemies.json");
                    assert(m.deep_view() =~= m@);
                    out.push(m);
                    assert(out.deep_view() =~= before.push(missing_leader_msg(key@, leader@)));
                }
            },
            _ => {},
        }
        j = j + 1;
        assert(out.deep_view() =~= after_weights + leader_issues(key@, w.formations@.take(j as int), *c));
    }
    assert(w.formations@.take(w.formations@.len() as int) =~= w.formations@);
    assert(out.deep_view() =~= start + wave_issues(key@, *w, *c));
}

/// Checks the references between the content files: every boss a wave
/// names, every enemy a wave weights and every escort leader must be
/// defined. On failure the error lists one line per problem, wave by wave.
pub fn validate(c: &Content) -> (r: Result<(), String>)
    ensures
        match r {
            Ok(()) => content_issues(*c).len() == 0,
            Err(msg) => content_issues(*c).len() > 0 && msg@ == join_lines(content_issues(*c)),
        },
{
    let mut problems: Vec<Vec<char>> = Vec::new();
    let mut i: usize = 0;
    assert(c.waves@.take(0) =~= Seq::<(String, WaveDef)>::empty());
    assert(problems.deep_view() =~= Seq::<Seq<char>>::empty());
    while i < c.waves.len()
        invariant
            i <= c.waves@.len(),
            problems.deep_view() == waves_issues(c.waves@.take(i as int), *c),
        decreases c.waves@.len() - i,
    {
        assert(c.waves@.take(i + 1).drop_last() =~= c.waves@.take(i as int));
        assert(c.waves@.take(i + 1).last() == c.waves@[i as int]);
        wave_problems(c, &c.waves[i].0, &c.waves[i].1, &mut problems);
        i = i + 1;
    }
    assert(c.waves@.take(c.waves@.len() as int) =~= c.waves@);
    if problems.len() == 0 {
        return Ok(());
    }
    let mut out: Vec<char> = Vec::new();
    let mut k: usize = 0;
    while k < problems.len()
        invariant
            k <= problems@.len(),
            problems@.len() > 0,
            problems.deep_view() == content_issues(*c),
            out@ == join_lines(problems.deep_view().take(k as int)),
        decreases problems@.len() - k,
    {
        let ghost lines = problems.deep_view();
        assert(lines.take(k + 1).drop_last() =~= lines.take(k as int));
        assert(lines.take(k + 1).last() == problems@[k as int]@);
        assert(problems@[k as int].deep_view() =~= problems@[k as int]@);
        if k > 0 {
            push_str(&mut out, "\n");
        }
        push_chars(&mut out, &problems[k]);
        k = k + 1;
        if k == 1 {
            assert(out@ =~= join_lines(lines.take(1)));
        } else {
            assert(out@ =~= join_lines(lines.take(k as int)));
        }
    }
    assert(problems.deep_view().take(problems@.len() as int) =~= problems.deep_view());
    Err(string_from_chars(out.as_slice()))
}

} // verus!
