//! The dialogue engine: typewriter lines, waiting for the player, choices,
//! and what a dialogue asks the game to do when it ends.

use vstd::prelude::*;
use crate::boss::{BossType, boss_variant};
use crate::menu::DialogueCallback;
use crate::portrait::Character;
use crate::text::{chars_of, string_from_chars, str_eq};

verus! {

/// One line of a dialogue.
pub struct DialogueLine {
    pub text: String,
    pub character: Option<Character>,
    pub portrait: Option<String>,
    pub emotion: Option<String>,
}

/// An answer the player can pick.
pub struct DialogueChoice {
    pub text: String,
    pub next_dialogue_id: Option<String>,
    pub callback: Option<DialogueCallbackType>,
}

/// What a dialogue file asks for when it ends; bosses are named by variant.
pub enum DialogueCallbackType {
    ResumeGame,
    SpawnBoss(String),
    NextChapter,
    GameComplete,
}

/// The callback a file's callback stands for: an unknown boss name resumes
/// the game instead.
pub open spec fn callback_of(t: DialogueCallbackType) -> DialogueCallback {
    match t {
        DialogueCallbackType::ResumeGame => DialogueCallback::ResumeGame,
        DialogueCallbackType::SpawnBoss(name) => if exists|b: BossType| name@ == boss_variant(b) {
            DialogueCallback::SpawnBoss(choose|b: BossType| name@ == boss_variant(b))
        } else {
            DialogueCallback::ResumeGame
        },
        DialogueCallbackType::NextChapter => DialogueCallback::NextChapter,
        DialogueCallbackType::GameComplete => DialogueCallback::GameComplete,
    }
}

impl DialogueCallbackType {
    /// The game callback this stands for.
    pub fn to_callback(&self) -> (r: DialogueCallback)
        ensures
            r == callback_of(*self),
    {
        match self {
            DialogueCallbackType::ResumeGame => DialogueCallback::ResumeGame,
            DialogueCallbackType::SpawnBoss(name) => {
                match BossType::from_str(name.as_str()) {
                    Ok(b) => {
                        proof {
                            let c = choose|c: BossType| name@ == boss_variant(c);
                            crate::boss::lemma_boss_names_round_trip(b, c);
                        }
                        DialogueCallback::SpawnBoss(b)
                    },
                    Err(_) => DialogueCallback::ResumeGame,
                }
            },
            DialogueCallbackType::NextChapter => DialogueCallback::NextChapter,
            DialogueCallbackType::GameComplete => DialogueCallback::GameComplete,
        }
    }
}

/// A whole dialogue file.
pub struct DialogueData {
    pub id: String,
    pub character: Character,
    pub portrait: String,
    pub background_music: Option<String>,
    pub lines: Vec<DialogueLine>,
    pub choices: Option<Vec<DialogueChoice>>,
    pub on_complete: Option<DialogueCallbackType>,
}

/// Where the engine stands in the current dialogue.
#[derive(Clone, Copy, Debug, PartialEq, Eq, Structural)]
pub enum DialogueState {
    Typing { line_idx: usize, char_idx: usize },
    WaitingForInput { line_idx: usize },
    Choosing { line_idx: usize, selected: usize },
    Complete,
}

/// The player's input in one frame, and how many characters the typewriter
/// has reached by now.
#[derive(Clone, Copy, Debug, PartialEq, Eq)]
pub struct DialogueInput {
    pub target_chars: usize,
    pub confirm: bool,
    pub up: bool,
    pub down: bool,
}

/// What one frame of the engine asks of the game.
pub struct DialogueStep {
    /// The dialogue has ended (or a choice was taken) with this callback.
    pub callback: Option<DialogueCallback>,
    /// A choice leads to this dialogue, which must be loaded next.
    pub load_next: Option<String>,
    /// Play the dialogue blip.
    pub blip: bool,
    /// Restart the typewriter timer.
    pub reset_timer: bool,
}

/// The dialogue engine: a cache of loaded dialogues, the one being shown
/// (by its index in the cache) and where it stands.
pub struct DialogueEngine {
    pub dialogue_cache: Vec<(String, DialogueData)>,
    pub current: Option<usize>,
    pub state: DialogueState,
    pub skip_typing: bool,
}

/// The state after the current line, given the dialogue's line count and
/// whether it ends in a choice.
pub open spec fn after_line(line_idx: int, n_lines: int, has_choices: bool) -> DialogueState {
    if line_idx + 1 < n_lines {
        DialogueState::Typing { line_idx: (line_idx + 1) as usize, char_idx: 0 }
    } else if has_choices {
        DialogueState::Choosing { line_idx: line_idx as usize, selected: 0 }
    } else {
        DialogueState::Complete
    }
}

/// No dialogue id is cached twice.
pub open spec fn ids_distinct(cache: Seq<(String, DialogueData)>) -> bool {
    forall|i: int, j: int|
        0 <= i < j < cache.len() ==> (#[trigger] cache[i]).0@ != (#[trigger] cache[j]).0@
}

/// Where `id` is cached, if it is.
pub open spec fn cached_at(cache: Seq<(String, DialogueData)>, id: Seq<char>) -> Option<int> {
    if exists|i: int| 0 <= i < cache.len() && (#[trigger] cache[i]).0@ == id {
        Some(choose|i: int| 0 <= i < cache.len() && (#[trigger] cache[i]).0@ == id)
    } else {
        None
    }
}

impl DialogueEngine {
    /// The shown dialogue, if any, is in the cache, and no id is cached twice.
    pub open spec fn wf(&self) -> bool {
        &&& self.current matches Some(i) ==> i < self.dialogue_cache@.len()
        &&& ids_distinct(self.dialogue_cache@)
    }

    /// The dialogue being shown.
    pub open spec fn shown(&self) -> DialogueData {
        self.dialogue_cache@[self.current->0 as int].1
    }

    /// An engine with nothing loaded.
    pub fn new() -> (e: DialogueEngine)
        ensures
            e.dialogue_cache@.len() == 0,
            e.current is None,
            e.state == DialogueState::Complete,
            !e.skip_typing,
            e.wf(),
    {
        DialogueEngine {
            dialogue_cache: Vec::new(),
            current: None,
            state: DialogueState::Complete,
            skip_typing: false,
        }
    }

    /// Back to the first character of the first line.
    pub fn reset_state(&mut self)
        ensures
            final(self).state == (DialogueState::Typing { line_idx: 0, char_idx: 0 }),
            !final(self).skip_typing,
            final(self).current == old(self).current,
            final(self).dialogue_cache@ == old(self).dialogue_cache@,
    {
        self.state = DialogueState::Typing { line_idx: 0, char_idx: 0 };
        self.skip_typing = false;
    }

    /// Shows the cached dialogue `dialogue_id` from its start; returns
    /// `false` (changing nothing) when it is not cached.
    pub fn load_cached(&mut self, dialogue_id: &str) -> (found: bool)
        requires
            old(self).wf(),
        ensures
            final(self).wf(),
            final(self).dialogue_cache@ == old(self).dialogue_cache@,
            found == exists|i: int|
                0 <= i < old(self).dialogue_cache@.len() && (#[trigger] old(
                    self,
                ).dialogue_cache@[i]).0@ == dialogue_id@,
            found ==> (final(self).current matches Some(i) && final(self).dialogue_cache@[i as int].0@
                == dialogue_id@),
            found ==> final(self).state == (DialogueState::Typing { line_idx: 0, char_idx: 0 }),
            found ==> !final(self).skip_typing,
            !found ==> final(self).current == old(self).current && final(self).state == old(
                self,
            ).state && final(self).skip_typing == old(self).skip_typing,
    {
        let mut i: usize = 0;
        while i < self.dialogue_cache.len()
            invariant
                *self == *old(self),
                self.wf(),
                i <= self.dialogue_cache@.len(),
                forall|j: int|
                    0 <= j < i ==> (#[trigger] self.dialogue_cache@[j]).0@ != dialogue_id@,
            decreases self.dialogue_cache@.len() - i,
        {
            if str_eq(self.dialogue_cache[i].0.as_str(), dialogue_id) {
                self.current = Some(i);
                self.reset_state();
                return true;
            }
            i = i + 1;
        }
        false
    }

    /// Caches a freshly read dialogue under `dialogue_id`, in place of what
    /// was cached under that id before, and shows it from its start.
    pub fn install_dialogue(&mut self, dialogue_id: String, data: DialogueData)
        requires
            old(self).wf(),
        ensures
            final(self).wf(),
            match cached_at(old(self).dialogue_cache@, dialogue_id@) {
                Some(k) => final(self).dialogue_cache@ == old(self).dialogue_cache@.update(
                    k,
                    (dialogue_id, data),
                ) && final(self).current == Some(k as usize),
                None => final(self).dialogue_cache@ == old(self).dialogue_cache@.push(
                    (dialogue_id, data),
                ) && final(self).current == Some(old(self).dialogue_cache@.len() as usize),
            },
            final(self).state == (DialogueState::Typing { line_idx: 0, char_idx: 0 }),
            !final(self).skip_typing,
    {
        let ghost c0 = self.dialogue_cache@;
        let mut i: usize = 0;
        while i < self.dialogue_cache.len()
            invariant
                *self == *old(self),
                c0 == old(self).dialogue_cache@,
                ids_distinct(c0),
                i <= c0.len(),
                forall|j: int| 0 <= j < i ==> (#[trigger] c0[j]).0@ != dialogue_id@,
            decreases c0.len() - i,
        {
            if str_eq(self.dialogue_cache[i].0.as_str(), dialogue_id.as_str()) {
                proof {
                    assert(c0[i as int].0@ == dialogue_id@);
                    let k = cached_at(c0, dialogue_id@)->0;
                    assert(0 <= k < c0.len() && c0[k].0@ == dialogue_id@);
                    assert(k == i as int) by {
                        if k < i as int {
                            assert(c0[k].0@ != c0[i as int].0@);
                        } else if k > i as int {
                            assert(c0[i as int].0@ != c0[k].0@);
                        }
                    }
                }
                self.dialogue_cache.set(i, (dialogue_id, data));
                proof {
                    assert forall|a: int, b: int|
                        0 <= a < b < self.dialogue_cache@.len() implies (#[trigger] self.dialogue_cache@[a]).0@
                            != (#[trigger] self.dialogue_cache@[b]).0@ by {
                        assert(c0[a].0@ != c0[b].0@);
                    }
                }
                self.current = Some(i);
                self.reset_state();
                return;
            }
            i = i + 1;
        }
        assert(cached_at(c0, dialogue_id@) is None);
        self.dialogue_cache.push((dialogue_id, data));
        proof {
            assert forall|a: int, b: int|
                0 <= a < b < self.dialogue_cache@.len() implies (#[trigger] self.dialogue_cache@[a]).0@
                    != (#[trigger] self.dialogue_cache@[b]).0@ by {
                if b < c0.len() {
                    assert(c0[a].0@ != c0[b].0@);
                } else {
                    assert(self.dialogue_cache@[a] == c0[a]);
                }
            }
        }
        self.current = Some(self.dialogue_cache.len() - 1);
        self.reset_state();
    }

    /// Asks the typewriter to finish the current line at the next frame.
    pub fn skip(&mut self)
        ensures
            final(self).skip_typing,
            final(self).state == old(self).state,
            final(self).current == old(self).current,
            final(self).dialogue_cache@ == old(self).dialogue_cache@,
    {
        self.skip_typing = true;
    }

    /// Leaves the current line: on to the next line, to the choices after
    /// the last line, or to the end.
    fn advance_line(&mut self)
        requires
            old(self).wf(),
            old(self).current is Some,
        ensures
            final(self).wf(),
            final(self).current == old(self).current,
            final(self).dialogue_cache@ == old(self).dialogue_cache@,
            final(self).skip_typing == old(self).skip_typing,
            final(self).state == match old(self).state {
                DialogueState::Typing { line_idx, .. } => after_line(
                    line_idx as int,
                    old(self).shown().lines@.len() as int,
                    old(self).shown().choices is Some,
                ),
                DialogueState::WaitingForInput { line_idx } => after_line(
                    line_idx as int,
                    old(self).shown().lines@.len() as int,
                    old(self).shown().choices is Some,
                ),
                other => other,
            },
    {
        let ci = self.current.unwrap();
        let n_lines = self.dialogue_cache[ci].1.lines.len();
        let has_choices = self.dialogue_cache[ci].1.choices.is_some();
        let line = match self.state {
            DialogueState::Typing { line_idx, .. } => line_idx,
            DialogueState::WaitingForInput { line_idx } => line_idx,
            _ => {
                return;
            },
        };
        if line < n_lines && line + 1 < n_lines {
            self.state = DialogueState::Typing { line_idx: line + 1, char_idx: 0 };
        } else if has_choices {
            self.state = DialogueState::Choosing { line_idx: line, selected: 0 };
        } else {
            self.state = DialogueState::Complete;
        }
    }

    /// Takes the choice `choice_idx`: a choice that leads to another
    /// dialogue asks for it to be loaded; otherwise its callback, if any,
    /// restarts the engine and is returned.
    fn select_choice(&mut self, choice_idx: usize) -> (step: DialogueStep)
        requires
            old(self).wf(),
            old(self).current is Some,
        ensures
            final(self).wf(),
            final(self).current == old(self).current,
            final(self).dialogue_cache@ == old(self).dialogue_cache@,
            ({
                let d = old(self).shown();
                match d.choices {
                    Some(cs) => if choice_idx < cs@.len() {
                        let c = cs@[choice_idx as int];
                        match c.next_dialogue_id {
                            Some(next) => step.load_next == Some(next) && step.callback is None
                                && step.blip && step.reset_timer && *final(self) == *old(self),
                            None => match c.callback {
                                Some(cb) => step.callback == Some(callback_of(cb))
                                    && step.load_next is None && step.blip && step.reset_timer
                                    && final(self).state == (DialogueState::Typing {
                                    line_idx: 0,
                                    char_idx: 0,
                                }) && !final(self).skip_typing,
                                None => step.callback is None && step.load_next is None
                                    && !step.blip && !step.reset_timer && *final(self) == *old(
                                    self,
                                ),
                            },
                        }
                    } else {
                        step.callback is None && step.load_next is None && !step.blip
                            && !step.reset_timer && *final(self) == *old(self)
                    },
                    None => step.callback is None && step.load_next is None && !step.blip
                        && !step.reset_timer && *final(self) == *old(self),
                }
            }),
    {
        let ci = self.current.unwrap();
        let nothing = DialogueStep { callback: None, load_next: None, blip: false, reset_timer: false };
        match &self.dialogue_cache[ci].1.choices {
            Some(cs) => {
                if choice_idx < cs.len() {
                    let c = &cs[choice_idx];
                    match &c.next_dialogue_id {
                        Some(next) => {
                            let n = next.clone();
                            DialogueStep { callback: None, load_next: Some(n), blip: true, reset_timer: true }
                        },
                        None => match &c.callback {
                            Some(cb) => {
                                let r = cb.to_callback();
                                self.reset_state();
                                DialogueStep { callback: Some(r), load_next: None, blip: true, reset_timer: true }
                            },
                            None => nothing,
                        },
                    }
                } else {
                    nothing
                }
            },
            None => nothing,
        }
    }

    /// One frame of the engine.
    ///
    /// - Typing: a pending skip finishes the line at once; otherwise the
    ///   line waits for the player once the typewriter has reached its end.
    /// - Waiting: confirming moves on to the next line.
    /// - Choosing: up and down move the selection (wrapping); confirming
    ///   takes the choice that was selected when the frame began.
    /// - Complete: the dialogue's end callback, every frame, if it has one.
    pub fn update(&mut self, input: DialogueInput) -> (step: DialogueStep)
        requires
            old(self).wf(),
            old(self).current is Some ==> (old(self).shown().choices matches Some(cs) ==> (old(
                self,
            ).state matches DialogueState::Choosing { selected, .. } ==> {
                &&& input.down ==> cs@.len() > 0 && selected < usize::MAX
                &&& input.up && selected == 0 ==> cs@.len() > 0
            })),
        ensures
            final(self).wf(),
            final(self).current == old(self).current,
            final(self).dialogue_cache@ == old(self).dialogue_cache@,
            old(self).current is None ==> step.callback is None && step.load_next is None
                && !step.blip && *final(self) == *old(self),
            old(self).current is Some ==> match old(self).state {
                DialogueState::Typing { line_idx, char_idx } => step.callback is None
                    && step.load_next is None && if old(self).skip_typing {
                    &&& final(self).state == after_line(
                        line_idx as int,
                        old(self).shown().lines@.len() as int,
                        old(self).shown().choices is Some,
                    )
                    &&& !final(self).skip_typing
                    &&& step.reset_timer
                    &&& !step.blip
                } else if line_idx < old(self).shown().lines@.len() && input.target_chars
                    >= old(self).shown().lines@[line_idx as int].text@.len() {
                    final(self).state == (DialogueState::WaitingForInput { line_idx })
                        && step.blip && !step.reset_timer
                } else {
                    *final(self) == *old(self) && !step.blip && !step.reset_timer
                },
                DialogueState::WaitingForInput { line_idx } => step.callback is None
                    && step.load_next is None && !step.blip && if input.confirm {
                    final(self).state == after_line(
                        line_idx as int,
                        old(self).shown().lines@.len() as int,
                        old(self).shown().choices is Some,
                    ) && step.reset_timer
                } else {
                    *final(self) == *old(self) && !step.reset_timer
                },
                DialogueState::Choosing { line_idx, selected } => match old(self).shown().choices {
                    None => step.callback is None && step.load_next is None && !step.blip
                        && *final(self) == *old(self),
                    Some(cs) => {
                        let n = cs@.len() as int;
                        let moved = if input.down {
                            DialogueState::Choosing {
                                line_idx,
                                selected: ((selected + 1) % n) as usize,
                            }
                        } else if input.up {
                            DialogueState::Choosing {
                                line_idx,
                                selected: if selected > 0 {
                                    (selected - 1) as usize
                                } else {
                                    (n - 1) as usize
                                },
                            }
                        } else {
                            old(self).state
                        };
                        let only_moved = step.callback is None && step.load_next is None
                            && final(self).state == moved && final(self).skip_typing == old(
                            self,
                        ).skip_typing && step.blip == (input.up || input.down)
                            && !step.reset_timer;
                        if input.confirm && selected < n {
                            match cs@[selected as int].next_dialogue_id {
                                Some(next) => step.load_next == Some(next) && step.callback is None
                                    && final(self).state == moved && final(self).skip_typing
                                    == old(self).skip_typing && step.blip && step.reset_timer,
                                None => match cs@[selected as int].callback {
                                    Some(cb) => step.callback == Some(callback_of(cb))
                                        && step.load_next is None && final(self).state == (
                                    DialogueState::Typing { line_idx: 0, char_idx: 0 })
                                        && !final(self).skip_typing && step.blip
                                        && step.reset_timer,
                                    None => only_moved,
                                },
                            }
                        } else {
                            only_moved
                        }
                    },
                },
                DialogueState::Complete => step.load_next is None && !step.blip
                    && *final(self) == *old(self) && step.callback == match old(
                    self,
                ).shown().on_complete {
                    Some(cb) => Some(callback_of(cb)),
                    None => None::<DialogueCallback>,
                },
            },
    {
        let nothing = DialogueStep { callback: None, load_next: None, blip: false, reset_timer: false };
        if self.current.is_none() {
            return nothing;
        }
        let ci = self.current.unwrap();
        match self.state {
            DialogueState::Typing { line_idx, char_idx } => {
                if self.skip_typing {
                    self.advance_line();
                    self.skip_typing = false;
                    DialogueStep { callback: None, load_next: None, blip: false, reset_timer: true }
                } else {
                    let lines = &self.dialogue_cache[ci].1.lines;
                    if line_idx < lines.len() {
                        let count = lines[line_idx].text.as_str().unicode_len();
                        if input.target_chars >= count {
                            self.state = DialogueState::WaitingForInput { line_idx };
                            return DialogueStep {
                                callback: None,
                                load_next: None,
                                blip: true,
                                reset_timer: false,
                            };
                        }
                    }
                    nothing
                }
            },
            DialogueState::WaitingForInput { line_idx } => {
                if input.confirm {
                    self.advance_line();
                    DialogueStep { callback: None, load_next: None, blip: false, reset_timer: true }
                } else {
                    nothing
                }
            },
            DialogueState::Choosing { line_idx, selected } => {
                let n_opt: Option<usize> = match &self.dialogue_cache[ci].1.choices {
                    Some(cs) => Some(cs.len()),
                    None => None,
                };
                match n_opt {
                    None => nothing,
                    Some(n) => {
                        let mut blip = false;
                        if input.up {
                            let s = if selected > 0 {
                                selected - 1
                            } else {
                                n - 1
                            };
                            self.state = DialogueState::Choosing { line_idx, selected: s };
                            blip = true;
                        }
                        if input.down {
                            let s = (selected + 1) % n;
                            self.state = DialogueState::Choosing { line_idx, selected: s };
                            blip = true;
                        }
                        if input.confirm {
                            let taken = self.select_choice(selected);
                            return DialogueStep {
                                callback: taken.callback,
                                load_next: taken.load_next,
                                blip: taken.blip || blip,
                                reset_timer: taken.reset_timer,
                            };
                        }
                        DialogueStep { callback: None, load_next: None, blip, reset_timer: false }
                    },
                }
            },
            DialogueState::Complete => {
                match &self.dialogue_cache[ci].1.on_complete {
                    Some(cb) => DialogueStep {
                        callback: Some(cb.to_callback()),
                        load_next: None,
                        blip: false,
                        reset_timer: false,
                    },
                    None => nothing,
                }
            },
        }
    }

    /// The text the dialogue box shows: the typed part of the line being
    /// typed, the whole line while waiting or choosing (the last line if the
    /// index is past the end), nothing once complete.
    pub fn get_current_display_text(&self) -> (s: String)
        requires
            self.wf(),
            self.current is Some,
        ensures
            s@ == match self.state {
                DialogueState::Typing { line_idx, char_idx } => if line_idx
                    < self.shown().lines@.len() {
                    let t = self.shown().lines@[line_idx as int].text@;
                    t.take(if char_idx < t.len() {
                        char_idx as int
                    } else {
                        t.len() as int
                    })
                } else {
                    Seq::<char>::empty()
                },
                DialogueState::WaitingForInput { line_idx } => shown_line(self.shown(), line_idx),
                DialogueState::Choosing { line_idx, .. } => shown_line(self.shown(), line_idx),
                DialogueState::Complete => Seq::<char>::empty(),
            },
    {
        let ci = self.current.unwrap();
        let lines = &self.dialogue_cache[ci].1.lines;
        match self.state {
            DialogueState::Typing { line_idx, char_idx } => {
                if line_idx < lines.len() {
                    let v = chars_of(lines[line_idx].text.as_str());
                    let k = if char_idx < v.len() {
                        char_idx
                    } else {
                        v.len()
                    };
                    let mut w: Vec<char> = Vec::new();
                    let mut i: usize = 0;
                    while i < k
                        invariant
                            i <= k <= v@.len(),
                            w@ == v@.take(i as int),
                        decreases k - i,
                    {
                        w.push(v[i]);
                        i = i + 1;
                        assert(w@ =~= v@.take(i as int));
                    }
                    string_from_chars(w.as_slice())
                } else {
                    String::new()
                }
            },
            DialogueState::WaitingForInput { line_idx } | DialogueState::Choosing {
                line_idx,
                ..
            } => {
                if line_idx < lines.len() {
                    lines[line_idx].text.clone()
                } else if lines.len() > 0 {
                    lines[lines.len() - 1].text.clone()
                } else {
                    String::new()
                }
            },
            DialogueState::Complete => String::new(),
        }
    }
}

/// The whole of a line, or of the last line when the index is past the end.
pub open spec fn shown_line(d: DialogueData, line_idx: usize) -> Seq<char> {
    if line_idx < d.lines@.len() {
        d.lines@[line_idx as int].text@
    } else if d.lines@.len() > 0 {
        d.lines@.last().text@
    } else {
        Seq::<char>::empty()
    }
}

} // verus!
