use azul_frame::text_input::{
    KeyboardState, Selection, TextInputState, UpdateScreen, VirtualKeyCode,
};

fn keys() -> KeyboardState {
    KeyboardState {
        shift_down: false,
        ctrl_down: false,
        alt_down: false,
        super_down: false,
        current_char: None,
        current_virtual_keycode: None,
    }
}

fn typed(c: char) -> KeyboardState {
    KeyboardState { current_char: Some(c), ..keys() }
}

fn pressed(key: VirtualKeyCode) -> KeyboardState {
    KeyboardState { current_virtual_keycode: Some(key), ..keys() }
}

fn state(text: &str, selection: Option<Selection>, cursor_pos: usize) -> TextInputState {
    TextInputState::new(text).with_selection(selection).with_cursor_pos(cursor_pos)
}

#[test]
fn a_new_state_has_no_selection_and_the_cursor_at_the_start() {
    let s = TextInputState::new("hello");
    assert_eq!(s.text, "hello");
    assert_eq!(s.selection, None);
    assert_eq!(s.cursor_pos, 0);
    assert_eq!(TextInputState::new(String::from("owned").as_str()).text, "owned");
    assert_eq!(TextInputState::default(), TextInputState::new(""));
}

#[test]
fn builders_change_only_their_field() {
    let s = TextInputState::new("hello").with_cursor_pos(3);
    assert_eq!(s, TextInputState { text: "hello".to_string(), selection: None, cursor_pos: 3 });
    let s = s.with_selection(Some(Selection::FromTo(1..2)));
    assert_eq!(
        s,
        TextInputState {
            text: "hello".to_string(),
            selection: Some(Selection::FromTo(1..2)),
            cursor_pos: 3
        }
    );
    assert_eq!(s.clone(), s);
}

#[test]
fn deleting_an_inner_range_inserts_the_new_character() {
    let mut s = TextInputState::new("hello world");
    s.delete_selection(2..5, Some('X'));
    assert_eq!(s.text, "heX world");
    assert_eq!(s.cursor_pos, 3);

    let mut s = TextInputState::new("hello world");
    s.delete_selection(2..5, None);
    assert_eq!(s.text, "he world");
    assert_eq!(s.cursor_pos, 2);
}

#[test]
fn deleting_up_to_the_end_cuts_the_text_and_inserts_nothing() {
    let mut s = TextInputState::new("hello");
    s.delete_selection(2..5, Some('X'));
    assert_eq!(s.text, "he");
    assert_eq!(s.cursor_pos, 2);

    let mut s = TextInputState::new("hello");
    s.delete_selection(1..100, None);
    assert_eq!(s.text, "h");
    assert_eq!(s.cursor_pos, 1);

    let mut s = TextInputState::new("hello");
    s.delete_selection(9..100, None);
    assert_eq!(s.text, "hello");
    assert_eq!(s.cursor_pos, 9);
}

#[test]
fn deleting_counts_characters_inside_and_bytes_at_the_end() {
    // 4 characters, 6 bytes
    let mut s = TextInputState::new("äbcö");
    s.delete_selection(1..3, Some('x'));
    assert_eq!(s.text, "äxö");
    assert_eq!(s.cursor_pos, 2);

    let mut s = TextInputState::new("äbcö");
    s.delete_selection(2..6, None);
    assert_eq!(s.text, "ä");
    assert_eq!(s.cursor_pos, 2);
}

#[test]
fn a_range_that_splits_a_character_cannot_be_deleted() {
    // 4 characters, 6 bytes
    let s = state("äbcö", Some(Selection::FromTo(1..6)), 0);
    assert!(!s.can_delete_range(1, 6, false));
    assert!(!s.can_delete_selection(false));
    assert!(s.can_delete_range(2, 6, false));
    assert!(s.can_delete_range(0, 100, true));
    assert!(s.can_delete_range(6, 6, true));
    assert!(s.can_delete_range(60, 70, true));
    // a range that ends inside the text counts characters
    assert!(s.can_delete_range(1, 3, true));
    assert!(s.can_delete_range(usize::MAX, 3, false));
    assert!(!s.can_delete_range(usize::MAX, 3, true));
    assert!(state("abc", Some(Selection::All), 0).can_delete_selection(true));
    assert!(state("abc", None, 0).can_delete_selection(true));
}

#[test]
fn typing_appends_replaces_or_fills_the_selection() {
    let mut s = state("ab", None, 2);
    assert_eq!(s.handle_on_text_input(&typed('c')), UpdateScreen::Redraw);
    assert_eq!(s, state("abc", None, 3));

    let mut s = state("ab", Some(Selection::All), 2);
    assert_eq!(s.handle_on_text_input(&typed('c')), UpdateScreen::Redraw);
    assert_eq!(s, state("c", None, 1));

    let mut s = state("hello world", Some(Selection::FromTo(0..5)), 0);
    assert_eq!(s.handle_on_text_input(&typed('J')), UpdateScreen::Redraw);
    assert_eq!(s, state("J world", Some(Selection::FromTo(0..5)), 1));
}

#[test]
fn an_event_without_character_or_key_changes_nothing() {
    let mut s = state("ab", Some(Selection::All), 1);
    assert_eq!(s.handle_on_text_input(&keys()), UpdateScreen::DontRedraw);
    assert_eq!(s.handle_on_virtual_key_down(&keys()), UpdateScreen::DontRedraw);
    assert_eq!(s, state("ab", Some(Selection::All), 1));
}

#[test]
fn the_cursor_saturates() {
    let mut s = state("ab", None, usize::MAX);
    s.handle_on_text_input(&typed('c'));
    assert_eq!(s, state("abc", None, usize::MAX));
    let mut s = state("ab", None, 0);
    s.handle_on_virtual_key_down(&pressed(VirtualKeyCode::Left));
    assert_eq!(s.cursor_pos, 0);
}

#[test]
fn backspace_removes_a_character() {
    let mut s = state("abc", None, 3);
    assert_eq!(s.handle_on_virtual_key_down(&pressed(VirtualKeyCode::Back)), UpdateScreen::Redraw);
    assert_eq!(s, state("ab", None, 2));

    let mut s = state("abc", None, 1);
    s.handle_on_virtual_key_down(&pressed(VirtualKeyCode::Back));
    assert_eq!(s, state("ac", None, 0));

    let mut s = state("", None, 0);
    s.handle_on_virtual_key_down(&pressed(VirtualKeyCode::Back));
    assert_eq!(s, state("", None, 0));

    let mut s = state("abc", Some(Selection::All), 2);
    s.handle_on_virtual_key_down(&pressed(VirtualKeyCode::Back));
    assert_eq!(s, state("", None, 0));

    let mut s = state("hello world", Some(Selection::FromTo(5..8)), 0);
    s.handle_on_virtual_key_down(&pressed(VirtualKeyCode::Back));
    assert_eq!(s, state("hellorld", Some(Selection::FromTo(5..8)), 5));
}

#[test]
fn keys_move_the_cursor_and_change_the_selection() {
    let mut s = state("abc", Some(Selection::All), 1);
    s.handle_on_virtual_key_down(&pressed(VirtualKeyCode::Return));
    assert_eq!(s, state("abc\n", Some(Selection::All), 2));

    let mut s = state("abc", Some(Selection::All), 2);
    s.handle_on_virtual_key_down(&pressed(VirtualKeyCode::Home));
    assert_eq!(s, state("abc", None, 0));

    let mut s = state("abc", Some(Selection::All), 1);
    s.handle_on_virtual_key_down(&pressed(VirtualKeyCode::End));
    assert_eq!(s, state("abc", None, 3));

    let mut s = state("abc", Some(Selection::All), 1);
    s.handle_on_virtual_key_down(&pressed(VirtualKeyCode::Escape));
    assert_eq!(s, state("abc", None, 1));

    let mut s = state("abc", None, 2);
    s.handle_on_virtual_key_down(&pressed(VirtualKeyCode::Right));
    assert_eq!(s.cursor_pos, 3);
    s.handle_on_virtual_key_down(&pressed(VirtualKeyCode::Right));
    assert_eq!(s.cursor_pos, 3);
    s.handle_on_virtual_key_down(&pressed(VirtualKeyCode::Left));
    assert_eq!(s.cursor_pos, 2);
}

#[test]
fn control_a_selects_everything() {
    let mut s = state("abc", None, 1);
    s.handle_on_virtual_key_down(&pressed(VirtualKeyCode::A));
    assert_eq!(s, state("abc", None, 1));
    let with_ctrl = KeyboardState { ctrl_down: true, ..pressed(VirtualKeyCode::A) };
    assert_eq!(s.handle_on_virtual_key_down(&with_ctrl), UpdateScreen::Redraw);
    assert_eq!(s, state("abc", Some(Selection::All), 1));
    for key in [VirtualKeyCode::C, VirtualKeyCode::V, VirtualKeyCode::F5] {
        let mut s = state("abc", None, 1);
        s.handle_on_virtual_key_down(&KeyboardState { ctrl_down: true, ..pressed(key) });
        assert_eq!(s, state("abc", None, 1));
    }
}
