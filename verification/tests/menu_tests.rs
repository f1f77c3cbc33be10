use rusty_ship::menu::{
    char_to_byte, console_backspace, console_insert, cursor_end, cursor_left, cursor_right,
    main_menu_items, menu_down, menu_item_label, menu_up, pause_item, MenuItem, PauseItem,
};

#[test]
fn test_char_to_byte_maps_char_indices() {
    let s = "r\u{e9}load"; // 'é' is 2 bytes in UTF-8
    assert_eq!(s.chars().count(), 6);
    assert_eq!(char_to_byte(s, 0), 0);
    assert_eq!(char_to_byte(s, 1), 1); // start of 'é'
    assert_eq!(char_to_byte(s, 2), 3); // past 'é'
    assert_eq!(char_to_byte(s, 5), 6); // start of last char 'd'
    assert_eq!(char_to_byte(s, 6), 7); // out of range -> len
    assert_eq!(char_to_byte(s, 99), 7);
}

#[test]
fn test_insert_remove_at_char_boundary() {
    let mut input = String::from("r\u{e9}load");
    let byte_idx = char_to_byte(&input, 6);
    input.insert(byte_idx, '!');
    assert_eq!(input, "r\u{e9}load!");

    let byte_idx = char_to_byte(&input, 6);
    input.remove(byte_idx);
    assert_eq!(input, "r\u{e9}load");

    let byte_idx = char_to_byte(&input, 5);
    input.remove(byte_idx);
    assert_eq!(input, "r\u{e9}loa");
}

#[test]
fn test_cursor_slice_is_char_safe() {
    let s = "r\u{e9}load";
    let n = s.chars().count();
    for pos in 0..=n {
        let text = &s[..char_to_byte(s, pos)];
        assert_eq!(text.chars().count(), pos);
    }
}

#[test]
fn console_typing_works_by_character() {
    let mut input = String::from("r\u{e9}load");
    let mut cursor = 1;
    console_insert(&mut input, &mut cursor, '\u{e8}');
    assert_eq!(input, "r\u{e8}\u{e9}load");
    assert_eq!(cursor, 2);
    console_backspace(&mut input, &mut cursor);
    assert_eq!(input, "r\u{e9}load");
    assert_eq!(cursor, 1);
    console_backspace(&mut input, &mut cursor);
    assert_eq!(input, "\u{e9}load");
    assert_eq!(cursor, 0);
    console_backspace(&mut input, &mut cursor);
    assert_eq!(input, "\u{e9}load");
    assert_eq!(cursor, 0);
}

#[test]
fn cursor_moves_within_the_characters() {
    let s = "r\u{e9}load";
    assert_eq!(cursor_left(0), 0);
    assert_eq!(cursor_left(3), 2);
    assert_eq!(cursor_right(s, 5), 6);
    assert_eq!(cursor_right(s, 6), 6);
    assert_eq!(cursor_end(s), 6);
}

#[test]
fn main_menu_offers_loading_only_with_a_save() {
    let with = main_menu_items(true);
    let without = main_menu_items(false);
    assert_eq!(with.len(), without.len() + 1);
    assert!(with.contains(&MenuItem::LoadGame));
    assert!(!without.contains(&MenuItem::LoadGame));
    assert_eq!(menu_item_label(MenuItem::StartGame), "Start Game");
}

#[test]
fn menu_selection_wraps_around() {
    assert_eq!(menu_up(0, 3), 2);
    assert_eq!(menu_down(2, 3), 0);
    for i in 0..4 {
        assert_eq!(menu_down(menu_up(i, 4), 4), i);
        assert_eq!(menu_up(menu_down(i, 4), 4), i);
    }
}

#[test]
fn pause_menu_items() {
    assert_eq!(pause_item(0), Some(PauseItem::Resume));
    assert_eq!(pause_item(99), None);
}
