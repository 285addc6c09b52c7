use music_player::event::{KeyCode, Modifiers};
use music_player::input::Input;

fn typed(text: &str) -> Input {
    let mut input = Input::new();
    for c in text.chars() {
        input.enter_char(c);
    }
    input
}

#[test]
fn new_input_is_empty() {
    let input = Input::new();
    assert_eq!(input.text(), "");
    assert_eq!(input.cursor(), 0);
    assert_eq!(input.path(), "");
}

#[test]
fn typing_inserts_at_cursor() {
    let mut input = typed("ab");
    assert_eq!(input.cursor(), 2);
    input.move_cursor_left();
    input.enter_char('x');
    assert_eq!(input.text(), "axb");
    assert_eq!(input.cursor(), 2);
}

#[test]
fn cursor_stays_on_text() {
    let mut input = typed("abc");
    input.move_cursor_right();
    assert_eq!(input.cursor(), 3);
    input.move_cursor_begin();
    assert_eq!(input.cursor(), 0);
    input.move_cursor_left();
    assert_eq!(input.cursor(), 0);
    input.move_cursor_end();
    assert_eq!(input.cursor(), 3);
    assert_eq!(input.clamp_cursor(10), 3);
    assert_eq!(input.clamp_cursor(2), 2);
}

#[test]
fn delete_removes_char_before_cursor() {
    let mut input = typed("abc");
    input.move_cursor_left();
    input.delete_char();
    assert_eq!(input.text(), "ac");
    assert_eq!(input.cursor(), 1);
    input.move_cursor_begin();
    input.delete_char();
    assert_eq!(input.text(), "ac");
    assert_eq!(input.cursor(), 0);
}

#[test]
fn byte_index_counts_utf8_bytes() {
    let mut input = typed("a\u{E9}\u{4F60}b");
    assert_eq!(input.byte_index(), 7);
    input.move_cursor_left();
    assert_eq!(input.byte_index(), 6);
    input.move_cursor_left();
    assert_eq!(input.byte_index(), 3);
    input.move_cursor_begin();
    assert_eq!(input.byte_index(), 0);
}

#[test]
fn multibyte_characters_edit_as_characters() {
    let mut input = typed("\u{4F60}\u{597D}");
    input.move_cursor_left();
    input.enter_char('!');
    assert_eq!(input.text(), "\u{4F60}!\u{597D}");
    input.delete_char();
    assert_eq!(input.text(), "\u{4F60}\u{597D}");
}

#[test]
fn submit_moves_text_to_path() {
    let mut input = typed("~/music");
    input.submit();
    assert_eq!(input.path(), "~/music");
    assert_eq!(input.text(), "");
    assert_eq!(input.cursor(), 0);
}

#[test]
fn keys_edit_and_end() {
    let mut input = Input::new();
    assert!(!input.handle_key(KeyCode::Char('a'), Modifiers::Plain));
    assert!(!input.handle_key(KeyCode::Char('C'), Modifiers::Other));
    assert!(!input.handle_key(KeyCode::Char('b'), Modifiers::Control));
    assert_eq!(input.cursor(), 1);
    assert!(!input.handle_key(KeyCode::Char('e'), Modifiers::Control));
    assert_eq!(input.cursor(), 2);
    assert!(!input.handle_key(KeyCode::Char('a'), Modifiers::Control));
    assert_eq!(input.cursor(), 0);
    assert!(!input.handle_key(KeyCode::Char('f'), Modifiers::Control));
    assert_eq!(input.cursor(), 1);
    assert!(!input.handle_key(KeyCode::Char('x'), Modifiers::Control));
    assert_eq!(input.text(), "axC");
    assert!(!input.handle_key(KeyCode::Backspace, Modifiers::Plain));
    assert_eq!(input.text(), "aC");
    assert!(!input.handle_key(KeyCode::Backspace, Modifiers::Control));
    assert!(!input.handle_key(KeyCode::Other, Modifiers::Plain));
    assert_eq!(input.text(), "aC");
    assert!(input.handle_key(KeyCode::Enter, Modifiers::Plain));
    assert_eq!(input.path(), "aC");
    assert_eq!(input.text(), "");
}

#[test]
fn escape_ends_without_submitting() {
    let mut input = typed("abc");
    assert!(input.handle_key(KeyCode::Esc, Modifiers::Plain));
    assert_eq!(input.text(), "abc");
    assert_eq!(input.path(), "");
}

#[test]
fn cursor_column_counts_display_width() {
    let mut input = typed("a\u{4F60}b");
    assert_eq!(input.cursor_column(), 4);
    input.move_cursor_left();
    assert_eq!(input.cursor_column(), 3);
    input.move_cursor_begin();
    assert_eq!(input.cursor_column(), 0);
}

#[test]
fn cursor_column_skips_control_characters() {
    let input = typed("a\tb");
    assert_eq!(input.cursor_column(), 2);
}
