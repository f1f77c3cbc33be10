use rusty_ship::boss::BossType;
use rusty_ship::dialogue::{
    DialogueCallbackType, DialogueChoice, DialogueData, DialogueEngine, DialogueInput, DialogueLine,
    DialogueState,
};
use rusty_ship::menu::DialogueCallback;
use rusty_ship::portrait::Character;

fn line(text: &str) -> DialogueLine {
    DialogueLine { text: text.to_string(), character: Some(Character::Narrator), portrait: None, emotion: None }
}

fn data(lines: &[&str], choices: Option<Vec<DialogueChoice>>, on_complete: Option<DialogueCallbackType>) -> DialogueData {
    DialogueData {
        id: "test".to_string(),
        character: Character::Narrator,
        portrait: "narrator".to_string(),
        background_music: None,
        lines: lines.iter().map(|l| line(l)).collect(),
        choices,
        on_complete,
    }
}

fn input(target_chars: usize, confirm: bool) -> DialogueInput {
    DialogueInput { target_chars, confirm, up: false, down: false }
}

#[test]
fn lines_type_out_wait_and_complete() {
    let mut e = DialogueEngine::new();
    assert!(e.update(input(100, true)).callback.is_none());
    e.install_dialogue("intro".to_string(), data(&["Ahoy", "Sail on"], None, Some(DialogueCallbackType::NextChapter)));
    assert_eq!(e.state, DialogueState::Typing { line_idx: 0, char_idx: 0 });
    let s = e.update(input(2, false));
    assert!(!s.blip);
    assert_eq!(e.state, DialogueState::Typing { line_idx: 0, char_idx: 0 });
    let s = e.update(input(4, false));
    assert!(s.blip);
    assert_eq!(e.state, DialogueState::WaitingForInput { line_idx: 0 });
    assert_eq!(e.get_current_display_text(), "Ahoy");
    e.update(input(0, false));
    assert_eq!(e.state, DialogueState::WaitingForInput { line_idx: 0 });
    let s = e.update(input(0, true));
    assert!(s.reset_timer);
    assert_eq!(e.state, DialogueState::Typing { line_idx: 1, char_idx: 0 });
    e.skip();
    let s = e.update(input(0, false));
    assert!(s.reset_timer);
    assert_eq!(e.state, DialogueState::Complete);
    assert_eq!(e.get_current_display_text(), "");
    for _ in 0..2 {
        assert_eq!(e.update(input(0, false)).callback, Some(DialogueCallback::NextChapter));
    }
}

#[test]
fn choices_wrap_and_lead_on() {
    let choices = vec![
        DialogueChoice { text: "Fight".to_string(), next_dialogue_id: None, callback: Some(DialogueCallbackType::SpawnBoss("Twofish".to_string())) },
        DialogueChoice { text: "Talk".to_string(), next_dialogue_id: Some("parley".to_string()), callback: None },
    ];
    let mut e = DialogueEngine::new();
    e.install_dialogue("choose".to_string(), data(&["Well?"], Some(choices), None));
    e.update(input(10, false));
    e.update(input(0, true));
    assert_eq!(e.state, DialogueState::Choosing { line_idx: 0, selected: 0 });
    assert_eq!(e.get_current_display_text(), "Well?");
    let s = e.update(DialogueInput { target_chars: 0, confirm: false, up: true, down: false });
    assert!(s.blip);
    assert_eq!(e.state, DialogueState::Choosing { line_idx: 0, selected: 1 });
    let s = e.update(DialogueInput { target_chars: 0, confirm: false, up: false, down: true });
    assert!(s.blip);
    assert_eq!(e.state, DialogueState::Choosing { line_idx: 0, selected: 0 });
    e.update(DialogueInput { target_chars: 0, confirm: false, up: false, down: true });
    let s = e.update(input(0, true));
    assert_eq!(s.load_next, Some("parley".to_string()));
    e.state = DialogueState::Choosing { line_idx: 0, selected: 0 };
    let s = e.update(input(0, true));
    assert_eq!(s.callback, Some(DialogueCallback::SpawnBoss(BossType::Twofish)));
    assert_eq!(e.state, DialogueState::Typing { line_idx: 0, char_idx: 0 });
}

#[test]
fn cached_dialogues_load_by_id() {
    let mut e = DialogueEngine::new();
    e.install_dialogue("a".to_string(), data(&["one"], None, None));
    e.install_dialogue("b".to_string(), data(&["two"], None, None));
    assert!(e.load_cached("a"));
    assert_eq!(e.current, Some(0));
    assert!(!e.load_cached("zzz"));
    assert_eq!(e.current, Some(0));
    e.state = DialogueState::WaitingForInput { line_idx: 7 };
    assert_eq!(e.get_current_display_text(), "one");
}

#[test]
fn file_callbacks_name_bosses_by_variant() {
    assert_eq!(DialogueCallbackType::ResumeGame.to_callback(), DialogueCallback::ResumeGame);
    assert_eq!(
        DialogueCallbackType::SpawnBoss("CaptainDavey".to_string()).to_callback(),
        DialogueCallback::SpawnBoss(BossType::CaptainDavey)
    );
    assert_eq!(DialogueCallbackType::SpawnBoss("Kraken".to_string()).to_callback(), DialogueCallback::ResumeGame);
    assert_eq!(DialogueCallbackType::GameComplete.to_callback(), DialogueCallback::GameComplete);
}

#[test]
fn confirming_a_missing_choice_only_moves_the_selection() {
    let mut e = DialogueEngine::new();
    e.install_dialogue("empty_choice".to_string(), data(&["Well?"], Some(Vec::new()), Some(DialogueCallbackType::GameComplete)));
    e.state = DialogueState::Choosing { line_idx: 0, selected: 0 };
    let s = e.update(input(0, true));
    assert!(s.callback.is_none());
    assert!(s.load_next.is_none());
    assert!(!s.blip);
    assert!(!s.reset_timer);
    assert_eq!(e.state, DialogueState::Choosing { line_idx: 0, selected: 0 });
    let choices = vec![DialogueChoice { text: "Stay".to_string(), next_dialogue_id: None, callback: None }];
    e.install_dialogue("one_choice".to_string(), data(&["Hm"], Some(choices), None));
    e.state = DialogueState::Choosing { line_idx: 0, selected: 5 };
    let s = e.update(DialogueInput { target_chars: 0, confirm: true, up: true, down: false });
    assert!(s.callback.is_none());
    assert!(s.blip);
    assert!(!s.reset_timer);
    assert_eq!(e.state, DialogueState::Choosing { line_idx: 0, selected: 4 });
}

#[test]
fn installing_an_id_again_replaces_its_entry() {
    let mut e = DialogueEngine::new();
    e.install_dialogue("a".to_string(), data(&["One"], None, None));
    e.install_dialogue("b".to_string(), data(&["Two"], None, None));
    e.install_dialogue("a".to_string(), data(&["Three"], None, None));
    assert_eq!(e.dialogue_cache.len(), 2);
    assert_eq!(e.current, Some(0));
    assert_eq!(e.dialogue_cache[0].1.lines[0].text, "Three");
    assert!(e.load_cached("b"));
    assert_eq!(e.current, Some(1));
}
