use line_editor::editor::App;

fn char_count(app: &App) -> usize {
    app.input().chars().count()
}

#[test]
fn insert_sequence_counts() {
    let mut app = App::new();
    app.enter_char('h');
    app.enter_char('i');
    app.enter_char('!');
    assert_eq!(char_count(&app), 3);
    assert_eq!(app.character_index(), 3);
    assert_eq!(app.input().as_str(), "hi!");
}

#[test]
fn insert_multibyte_keeps_order() {
    let mut app = App::new();
    app.enter_char('a');
    app.enter_char('b');
    app.move_cursor_left();
    app.enter_char('\u{e9}');
    assert_eq!(app.input().as_str(), "a\u{e9}b");
    assert_eq!(char_count(&app), 3);
    assert_eq!(app.character_index(), 2);
}

#[test]
fn insert_four_byte_char_in_middle() {
    let mut app = App::new();
    app.enter_char('x');
    app.enter_char('y');
    app.move_cursor_left();
    app.enter_char('\u{1F600}');
    assert_eq!(app.input().as_str(), "x\u{1F600}y");
    assert_eq!(char_count(&app), 3);
}

#[test]
fn move_left_right_roundtrip() {
    let mut app = App::new();
    app.enter_char('a');
    app.enter_char('b');
    app.move_cursor_left();
    assert_eq!(app.character_index(), 1);
    app.move_cursor_right();
    assert_eq!(app.character_index(), 2);
    // at the right boundary the inverse operation is the identity
    app.move_cursor_right();
    assert_eq!(app.character_index(), 2);
    // at the left boundary too
    app.move_cursor_left();
    app.move_cursor_left();
    app.move_cursor_left();
    assert_eq!(app.character_index(), 0);
}

#[test]
fn delete_at_start_is_noop() {
    let mut app = App::new();
    app.enter_char('a');
    app.enter_char('b');
    app.move_cursor_left();
    app.move_cursor_left();
    assert_eq!(app.character_index(), 0);
    app.delete_char();
    assert_eq!(app.input().as_str(), "ab");
    assert_eq!(app.character_index(), 0);
}

#[test]
fn delete_ascii_after_multibyte() {
    // a 3-byte character followed by an ASCII one; deleting at the end
    // removes only the ASCII character
    let mut app = App::new();
    app.enter_char('\u{2713}');
    app.enter_char('a');
    assert_eq!(app.character_index(), 2);
    app.delete_char();
    assert_eq!(app.input().as_str(), "\u{2713}");
    assert_eq!(app.character_index(), 1);
}

#[test]
fn delete_multibyte_in_middle() {
    let mut app = App::new();
    app.enter_char('a');
    app.enter_char('\u{e9}');
    app.enter_char('b');
    app.move_cursor_left();
    assert_eq!(app.character_index(), 2);
    app.delete_char();
    assert_eq!(app.input().as_str(), "ab");
    assert_eq!(app.character_index(), 1);
}

#[test]
fn submit_empty_appends_empty_line() {
    let mut app = App::new();
    app.submit_message();
    assert_eq!(app.messages().len(), 1);
    assert_eq!(app.messages()[0].as_str(), "");
    assert_eq!(app.character_index(), 0);
    assert_eq!(app.input().as_str(), "");
}

#[test]
fn submit_records_in_order() {
    let mut app = App::new();
    app.enter_char('a');
    app.submit_message();
    app.enter_char('b');
    app.submit_message();
    assert_eq!(app.messages().len(), 2);
    assert_eq!(app.messages()[0].as_str(), "a");
    assert_eq!(app.messages()[1].as_str(), "b");
    assert_eq!(app.input().as_str(), "");
    assert_eq!(app.character_index(), 0);
}

#[test]
fn byte_index_on_empty_is_zero() {
    let app = App::new();
    assert_eq!(app.byte_index(), 0);
}

#[test]
fn byte_index_counts_bytes_not_chars() {
    let mut app = App::new();
    app.enter_char('\u{e9}');
    app.enter_char('a');
    // cursor at the end: the total byte length
    assert_eq!(app.character_index(), 2);
    assert_eq!(app.byte_index(), 3);
    app.move_cursor_left();
    assert_eq!(app.byte_index(), 2);
    app.move_cursor_left();
    assert_eq!(app.byte_index(), 0);
}

#[test]
fn byte_index_wide_chars() {
    let mut app = App::new();
    app.enter_char('\u{2713}');
    app.enter_char('\u{1F600}');
    assert_eq!(app.byte_index(), 7);
    app.move_cursor_left();
    assert_eq!(app.byte_index(), 3);
}

#[test]
fn clamp_cursor_limits() {
    let mut app = App::new();
    app.enter_char('a');
    app.enter_char('b');
    assert_eq!(app.clamp_cursor(0), 0);
    assert_eq!(app.clamp_cursor(1), 1);
    assert_eq!(app.clamp_cursor(2), 2);
    assert_eq!(app.clamp_cursor(100), 2);
}

#[test]
fn reset_cursor_zeroes() {
    let mut app = App::new();
    app.enter_char('a');
    app.enter_char('b');
    app.reset_cursor();
    assert_eq!(app.character_index(), 0);
    assert_eq!(app.input().as_str(), "ab");
}
