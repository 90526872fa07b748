use triginta::text_input::{
    delete_input_char_at_cursor, delete_input_char_before_cursor, insert_input_char,
    move_input_cursor_end, move_input_cursor_home, move_input_cursor_left,
    move_input_cursor_right, TextInput,
};

fn chars(s: &str) -> Vec<char> {
    s.chars().collect()
}

#[test]
fn input_popup_home_and_end_edit_at_cursor_position() {
    let mut input = TextInput::new();
    for c in "World".chars() {
        insert_input_char(&mut input, c);
    }
    move_input_cursor_home(&mut input);
    for c in "Hello ".chars() {
        insert_input_char(&mut input, c);
    }
    move_input_cursor_end(&mut input);
    insert_input_char(&mut input, '!');
    assert_eq!(input.text(), "Hello World!");
}

#[test]
fn input_popup_delete_key_edits_at_cursor_position() {
    let mut input = TextInput::with_text(&chars("abxd"));
    move_input_cursor_left(&mut input);
    move_input_cursor_left(&mut input);
    delete_input_char_at_cursor(&mut input);
    assert_eq!(input.text(), "abd");
    assert_eq!(input.cursor, 2);
}

#[test]
fn cursor_stays_within_the_text() {
    let mut input = TextInput::with_text(&chars("é漢"));
    assert_eq!(input.cursor, 2);
    move_input_cursor_right(&mut input);
    assert_eq!(input.cursor, 2);
    delete_input_char_at_cursor(&mut input);
    assert_eq!(input.text(), "é漢");
    move_input_cursor_home(&mut input);
    move_input_cursor_left(&mut input);
    assert_eq!(input.cursor, 0);
    delete_input_char_before_cursor(&mut input);
    assert_eq!(input.text(), "é漢");
    move_input_cursor_right(&mut input);
    delete_input_char_before_cursor(&mut input);
    assert_eq!(input.text(), "漢");
    assert_eq!(input.cursor, 0);
}

#[test]
fn typing_then_backspace_restores_the_text() {
    let mut input = TextInput::with_text(&chars("note"));
    move_input_cursor_left(&mut input);
    insert_input_char(&mut input, 'x');
    assert_eq!(input.text(), "notxe");
    delete_input_char_before_cursor(&mut input);
    assert_eq!(input.text(), "note");
    assert_eq!(input.cursor, 3);
}
