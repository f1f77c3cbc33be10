//! Game-wide state: the screen the game is on, the narrative progress, the
//! menus, and editing of the developer console's input line.

use vstd::prelude::*;
use vstd::utf8::encode_utf8;
use crate::boss::BossType;
use crate::text::{chars_of, string_from_chars};

verus! {

/// The screen the game is on.
#[derive(Clone, Debug, PartialEq)]
pub enum GameState {
    MainMenu,
    Playing,
    Paused { selected_item: usize },
    Console { input: String, history: Vec<String>, cursor_pos: usize },
    GameOver,
    Dialogue(DialogueContext),
    BossIntro(BossType),
    Victory,
}

/// A dialogue to show and what to do once it ends.
#[derive(Clone, Debug, PartialEq)]
pub struct DialogueContext {
    pub dialogue_id: String,
    pub on_complete: DialogueCallback,
}

/// What happens when a dialogue ends.
#[derive(Clone, Copy, Debug, PartialEq, Eq, Structural)]
pub enum DialogueCallback {
    ResumeGame,
    SpawnBoss(BossType),
    NextChapter,
    GameComplete,
}

/// Story progress, kept across waves and in save files.
#[derive(Clone, Debug)]
pub struct NarrativeProgress {
    pub current_chapter: u8,
    /// Each defeated boss once, in the order of their defeat.
    pub defeated_bosses: Vec<BossType>,
    /// Story flags, each once.
    pub flags: Vec<String>,
    pub score_at_chapter_start: i32,
    pub current_wave: u32,
}

impl NarrativeProgress {
    /// Start of the story: prologue, nothing defeated, no flags.
    pub fn new() -> (p: NarrativeProgress)
        ensures
            p.current_chapter == 0,
            p.defeated_bosses@.len() == 0,
            p.flags@.len() == 0,
            p.score_at_chapter_start == 0,
            p.current_wave == 0,
    {
        NarrativeProgress {
            current_chapter: 0,
            defeated_bosses: Vec::new(),
            flags: Vec::new(),
            score_at_chapter_start: 0,
            current_wave: 0,
        }
    }
}

/// The game as a whole, apart from what moves on screen.
pub struct Game {
    pub state: GameState,
    pub selected_menu_item: usize,
    pub narrative: NarrativeProgress,
    pub debug_hitbox_visible: bool,
}

impl Game {
    /// A game on its main menu with fresh story progress.
    pub fn new() -> (g: Game)
        ensures
            g.state == GameState::MainMenu,
            g.selected_menu_item == 0,
            g.narrative.current_chapter == 0,
            g.narrative.defeated_bosses@.len() == 0,
            g.narrative.flags@.len() == 0,
            g.narrative.score_at_chapter_start == 0,
            g.narrative.current_wave == 0,
            !g.debug_hitbox_visible,
    {
        Game {
            state: GameState::MainMenu,
            selected_menu_item: 0,
            narrative: NarrativeProgress::new(),
            debug_hitbox_visible: false,
        }
    }
}

/// An entry of the main menu.
#[derive(Clone, Copy, Debug, PartialEq, Eq, Structural)]
pub enum MenuItem {
    StartGame,
    LoadGame,
    Settings,
    Quit,
}

/// The main menu: "Load Game" is offered only when a save file exists.
pub open spec fn main_menu_spec(has_save: bool) -> Seq<MenuItem> {
    if has_save {
        seq![MenuItem::StartGame, MenuItem::LoadGame, MenuItem::Settings, MenuItem::Quit]
    } else {
        seq![MenuItem::StartGame, MenuItem::Settings, MenuItem::Quit]
    }
}

/// The entries of the main menu, top to bottom.
pub fn main_menu_items(has_save: bool) -> (items: Vec<MenuItem>)
    ensures
        items@ == main_menu_spec(has_save),
{
    let v = if has_save {
        vec![MenuItem::StartGame, MenuItem::LoadGame, MenuItem::Settings, MenuItem::Quit]
    } else {
        vec![MenuItem::StartGame, MenuItem::Settings, MenuItem::Quit]
    };
    assert(v@ =~= main_menu_spec(has_save));
    v
}

/// Label of a main menu entry.
pub fn menu_item_label(item: MenuItem) -> (s: &'static str)
    ensures
        s@ == match item {
            MenuItem::StartGame => "Start Game"@,
            MenuItem::LoadGame => "Load Game"@,
            MenuItem::Settings => "Settings"@,
            MenuItem::Quit => "Quit"@,
        },
{
    match item {
        MenuItem::StartGame => "Start Game",
        MenuItem::LoadGame => "Load Game",
        MenuItem::Settings => "Settings",
        MenuItem::Quit => "Quit",
    }
}

/// Moves a menu selection up one entry, wrapping from the top to the bottom.
pub fn menu_up(selected: usize, count: usize) -> (r: usize)
    requires
        count > 0,
        selected + count <= usize::MAX,
    ensures
        r == (selected + count - 1) % (count as int),
        r < count,
{
    (selected + count - 1) % count
}

/// Moves a menu selection down one entry, wrapping from the bottom to the top.
pub fn menu_down(selected: usize, count: usize) -> (r: usize)
    requires
        count > 0,
        selected < usize::MAX,
    ensures
        r == (selected + 1) % (count as int),
        r < count,
{
    (selected + 1) % count
}

/// Wrapping a valid selection up then down gives it back.
pub proof fn lemma_menu_up_down(selected: int, count: int)
    requires
        0 <= selected < count,
    ensures
        ((selected + count - 1) % count + 1) % count == selected,
        ((selected + 1) % count + count - 1) % count == selected,
{
    if selected == 0 {
        assert((count - 1) % count == count - 1) by (nonlinear_arith)
            requires
                count > 0,
        ;
        assert((count - 1 + 1) % count == 0) by (nonlinear_arith)
            requires
                count > 0,
        ;
    } else {
        assert((selected + count - 1) % count == selected - 1) by (nonlinear_arith)
            requires
                0 < selected < count,
        ;
        assert((selected - 1 + 1) % count == selected) by (nonlinear_arith)
            requires
                0 < selected < count,
        ;
    }
    if selected == count - 1 {
        assert((selected + 1) % count == 0) by (nonlinear_arith)
            requires
                selected == count - 1,
                count > 0,
        ;
        assert((0 + count - 1) % count == count - 1) by (nonlinear_arith)
            requires
                count > 0,
        ;
    } else {
        assert((selected + 1) % count == selected + 1) by (nonlinear_arith)
            requires
                0 <= selected < count - 1,
        ;
        assert((selected + 1 + count - 1) % count == selected) by (nonlinear_arith)
            requires
                0 <= selected < count,
        ;
    }
}

/// An entry of the pause menu.
#[derive(Clone, Copy, Debug, PartialEq, Eq, Structural)]
pub enum PauseItem {
    Resume,
    SaveGame,
    Console,
    QuitToMenu,
    QuitGame,
}

/// The pause menu entry at `selected`, if there is one.
pub fn pause_item(selected: usize) -> (r: Option<PauseItem>)
    ensures
        r == match selected {
            0 => Some(PauseItem::Resume),
            1 => Some(PauseItem::SaveGame),
            2 => Some(PauseItem::Console),
            3 => Some(PauseItem::QuitToMenu),
            4 => Some(PauseItem::QuitGame),
            _ => None::<PauseItem>,
        },
{
    match selected {
        0 => Some(PauseItem::Resume),
        1 => Some(PauseItem::SaveGame),
        2 => Some(PauseItem::Console),
        3 => Some(PauseItem::QuitToMenu),
        4 => Some(PauseItem::QuitGame),
        _ => None,
    }
}

/// The UTF-8 byte offset where character `char_idx` of `input` starts, or
/// the byte length of `input` when there is no such character.
pub fn char_to_byte(input: &str, char_idx: usize) -> (b: usize)
    requires
        encode_utf8(input@).len() <= usize::MAX,
    ensures
        b == encode_utf8(input@.take(if char_idx < input@.len() {
            char_idx as int
        } else {
            input@.len() as int
        })).len(),
{
    crate::text::char_to_byte(input, char_idx)
}

/// Types `ch` at the cursor (a character index) and moves the cursor past it.
pub fn console_insert(input: &mut String, cursor_pos: &mut usize, ch: char)
    requires
        *old(cursor_pos) <= old(input)@.len(),
    ensures
        final(input)@ == old(input)@.take(*old(cursor_pos) as int).push(ch) + old(input)@.skip(
            *old(cursor_pos) as int,
        ),
        *final(cursor_pos) == *old(cursor_pos) + 1,
        *final(cursor_pos) <= final(input)@.len(),
{
    let v = chars_of(input.as_str());
    let mut w: Vec<char> = Vec::new();
    let k = *cursor_pos;
    let mut i: usize = 0;
    while i < v.len()
        invariant
            i <= v@.len(),
            k <= v@.len(),
            w@ == if i <= k {
                v@.take(i as int)
            } else {
                v@.take(k as int).push(ch) + v@.subrange(k as int, i as int)
            },
        decreases v@.len() - i,
    {
        if i == k {
            w.push(ch);
            assert(v@.take(k as int).push(ch) + v@.subrange(k as int, k as int) =~= v@.take(
                k as int,
            ).push(ch));
        }
        w.push(v[i]);
        i = i + 1;
        if i <= k {
            assert(w@ =~= v@.take(i as int));
        } else {
            assert(w@ =~= v@.take(k as int).push(ch) + v@.subrange(k as int, i as int));
        }
    }
    if k == v.len() {
        w.push(ch);
    }
    assert(w@ =~= v@.take(k as int).push(ch) + v@.skip(k as int));
    let typed = w.len();
    assert(k < typed);
    *input = string_from_chars(w.as_slice());
    *cursor_pos = k + 1;
}

/// Deletes the character before the cursor and moves the cursor back; does
/// nothing at the start of the line.
pub fn console_backspace(input: &mut String, cursor_pos: &mut usize)
    requires
        *old(cursor_pos) <= old(input)@.len(),
    ensures
        *old(cursor_pos) == 0 ==> final(input)@ == old(input)@ && *final(cursor_pos) == 0,
        *old(cursor_pos) > 0 ==> final(input)@ == old(input)@.remove(*old(cursor_pos) - 1)
            && *final(cursor_pos) == *old(cursor_pos) - 1,
        *final(cursor_pos) <= final(input)@.len(),
{
    let k = *cursor_pos;
    if k == 0 {
        return;
    }
    let v = chars_of(input.as_str());
    let mut w: Vec<char> = Vec::new();
    let mut i: usize = 0;
    while i < v.len()
        invariant
            i <= v@.len(),
            0 < k <= v@.len(),
            w@ == if i < k {
                v@.take(i as int)
            } else {
                v@.take(k - 1) + v@.subrange(k as int, i as int)
            },
        decreases v@.len() - i,
    {
        if i + 1 != k {
            w.push(v[i]);
        }
        i = i + 1;
        if i < k {
            assert(w@ =~= v@.take(i as int));
        } else {
            assert(w@ =~= v@.take(k - 1) + v@.subrange(k as int, i as int));
        }
    }
    assert(w@ =~= v@.remove(k - 1));
    *input = string_from_chars(w.as_slice());
    *cursor_pos = k - 1;
}

/// Backspace undoes typing: typing a character at the cursor and then
/// deleting the character before the cursor that typing moved on gives the
/// line back.
pub proof fn lemma_backspace_undoes_typing(line: Seq<char>, cursor: int, ch: char)
    requires
        0 <= cursor <= line.len(),
    ensures
        (line.take(cursor).push(ch) + line.skip(cursor)).remove(cursor) == line,
{
    assert((line.take(cursor).push(ch) + line.skip(cursor)).remove(cursor) =~= line);
}

/// Moves the cursor one character left, if it can.
pub fn cursor_left(cursor_pos: usize) -> (r: usize)
    ensures
        r == if cursor_pos > 0 {
            cursor_pos - 1
        } else {
            0
        },
{
    if cursor_pos > 0 {
        cursor_pos - 1
    } else {
        0
    }
}

/// Moves the cursor one character right, if it is not at the end of `input`.
pub fn cursor_right(input: &str, cursor_pos: usize) -> (r: usize)
    ensures
        r == if cursor_pos < input@.len() {
            cursor_pos + 1
        } else {
            cursor_pos as int
        },
{
    if cursor_pos < input.unicode_len() {
        cursor_pos + 1
    } else {
        cursor_pos
    }
}

/// The cursor position at the end of `input`.
pub fn cursor_end(input: &str) -> (r: usize)
    ensures
        r == input@.len(),
{
    input.unicode_len()
}

} // verus!
