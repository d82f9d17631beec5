use grim::edit::on_soft_input;
use grim::keyboard::{bottom_row, key_rows, Key, KeyboardContent, KeyboardEvent, KeyboardLayout, KeyboardState};

#[test]
fn keyboard_starts_with_text_layout() {
    let c = KeyboardContent::default();
    assert!(c.state.last_event.is_none());
    assert!(c.state.layout == KeyboardLayout::TEXT);
    assert!(!c.state.shift);
}

#[test]
fn shifted_input_is_upper_case_and_releases_shift() {
    let mut c = KeyboardContent::default();
    c.press_shift();
    assert!(c.state.shift);
    assert_eq!(c.button_label("q"), "Q");
    c.press_input("q");
    assert!(matches!(&c.state.last_event, Some(KeyboardEvent::TEXT(t)) if t == "Q"));
    assert!(!c.state.shift);
    c.press_input("q");
    assert!(matches!(&c.state.last_event, Some(KeyboardEvent::TEXT(t)) if t == "q"));
}

#[test]
fn space_keeps_shift() {
    let mut c = KeyboardContent::default();
    c.press_shift();
    c.press_space();
    assert!(matches!(&c.state.last_event, Some(KeyboardEvent::TEXT(t)) if t == " "));
    assert!(c.state.shift);
}

#[test]
fn law_event_taken_once_example() {
    let mut c = KeyboardContent::default();
    c.press_backspace();
    let first = KeyboardContent::consume_event(&mut c.state);
    assert!(matches!(first, Some(KeyboardEvent::CLEAR)));
    let second = KeyboardContent::consume_event(&mut c.state);
    assert!(second.is_none());
    c.press_enter();
    assert!(matches!(KeyboardContent::consume_event(&mut c.state), Some(KeyboardEvent::ENTER)));
}

#[test]
fn layouts() {
    let mut c = KeyboardContent::default();
    c.setup_layout(true);
    assert!(c.state.layout == KeyboardLayout::NUMBERS);
    c.setup_layout(false);
    assert!(c.state.layout == KeyboardLayout::TEXT);
    c.switch_layout(KeyboardLayout::SYMBOLS);
    c.setup_layout(false);
    assert!(c.state.layout == KeyboardLayout::SYMBOLS);
    KeyboardContent::reset_window_state(&mut c.state);
    assert!(c.state.layout == KeyboardLayout::TEXT);
}

#[test]
fn unshift_releases() {
    let mut s = KeyboardState::default();
    s.shift = true;
    KeyboardContent::unshift(&mut s);
    assert!(!s.shift);
}

#[test]
fn input_locale_choice() {
    assert_eq!(KeyboardContent::input_locale(true, Some("de".to_string())), "en");
    assert_eq!(KeyboardContent::input_locale(false, Some("de".to_string())), "de");
    assert_eq!(KeyboardContent::input_locale(false, None), "en");
}

#[test]
fn insert_text_at_cursor() {
    let mut v = String::from("grn");
    let r = on_soft_input(&mut v, KeyboardEvent::TEXT("i".to_string()), 2, 2, false);
    assert_eq!(v, "grin");
    assert_eq!(r, (3, false));
}

#[test]
fn insert_past_end_appends() {
    let mut v = String::from("ab");
    let r = on_soft_input(&mut v, KeyboardEvent::TEXT("c".to_string()), 7, 7, false);
    assert_eq!(v, "abc");
    assert_eq!(r, (8, false));
}

#[test]
fn replace_selection() {
    let mut v = String::from("hello world");
    let r = on_soft_input(&mut v, KeyboardEvent::TEXT("X".to_string()), 6, 0, false);
    assert_eq!(v, "Xworld");
    assert_eq!(r, (1, false));
}

#[test]
fn clear_selection_and_char() {
    let mut v = String::from("abcdef");
    let r = on_soft_input(&mut v, KeyboardEvent::CLEAR, 1, 4, false);
    assert_eq!(v, "aef");
    assert_eq!(r, (1, false));
    let r = on_soft_input(&mut v, KeyboardEvent::CLEAR, 0, 0, false);
    assert_eq!(v, "aef");
    assert_eq!(r, (0, false));
    let r = on_soft_input(&mut v, KeyboardEvent::CLEAR, 3, 3, false);
    assert_eq!(v, "ae");
    assert_eq!(r, (2, false));
}

#[test]
fn enter_single_and_multi_line() {
    let mut v = String::from("ab");
    let r = on_soft_input(&mut v, KeyboardEvent::ENTER, 1, 1, false);
    assert_eq!(v, "ab");
    assert_eq!(r, (1, true));
    let r = on_soft_input(&mut v, KeyboardEvent::ENTER, 1, 1, true);
    assert_eq!(v, "a\nb");
    assert_eq!(r, (2, false));
}

#[test]
fn law_type_then_erase_example() {
    let mut v = String::from("wallet");
    let (cursor, _) = on_soft_input(&mut v, KeyboardEvent::TEXT("ツ".to_string()), 3, 3, false);
    assert_eq!(v, "walツlet");
    assert_eq!(cursor, 4);
    let (back, _) = on_soft_input(&mut v, KeyboardEvent::CLEAR, cursor, cursor, false);
    assert_eq!(v, "wallet");
    assert_eq!(back, 3);
}

#[test]
fn key_rows_of_layouts() {
    let rows = key_rows(&KeyboardLayout::TEXT);
    assert_eq!(rows.len(), 4);
    assert!(rows.iter().all(|r| r.len() == 11));
    assert!(matches!(rows[1][0], Key::Input("q", true)));
    assert!(matches!(rows[3][0], Key::Shift));
    assert!(matches!(rows[3][10], Key::Backspace));
    let rows = key_rows(&KeyboardLayout::SYMBOLS);
    assert!(matches!(rows[1][1], Key::Input("\\", false)));
    let rows = key_rows(&KeyboardLayout::NUMBERS);
    assert_eq!(rows.len(), 3);
    assert!(matches!(rows[0][3], Key::Input("+", false)));
    let bottom = bottom_row(&KeyboardLayout::TEXT);
    assert!(matches!(bottom[0], Key::Enter));
    assert!(matches!(bottom[4], Key::Layout(KeyboardLayout::SYMBOLS)));
    assert_eq!(bottom_row(&KeyboardLayout::NUMBERS).len(), 3);
    assert_eq!(KeyboardContent::localization_key("q"), "keyboard.q");
}

#[test]
fn law_cursor_within_text_example() {
    let cases: Vec<(KeyboardEvent, usize, usize)> = vec![
        (KeyboardEvent::TEXT("ab".to_string()), 2, 2),
        (KeyboardEvent::TEXT("x".to_string()), 0, 5),
        (KeyboardEvent::CLEAR, 5, 5),
        (KeyboardEvent::CLEAR, 1, 3),
        (KeyboardEvent::ENTER, 4, 4),
    ];
    for (event, p, s) in cases {
        let mut v = String::from("hello");
        let (cursor, _) = on_soft_input(&mut v, event, p, s, true);
        assert!(cursor <= v.chars().count());
    }
}
