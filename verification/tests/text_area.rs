use triginta::text_area::{
    delete_session_note_char_at_cursor, delete_session_note_char_before_cursor,
    description_column, description_cursor_line, description_line_end, description_line_start,
    insert_session_note_char, insert_session_note_newline, move_session_note_cursor_end,
    move_session_note_cursor_home, move_session_note_cursor_left, move_session_note_cursor_right,
    move_session_note_cursor_vertical, scroll_to_line, sync_session_note_scroll,
    vertical_cursor_target, TextArea, DESCRIPTION_VIEWPORT_LINES, SESSION_NOTE_VIEWPORT_LINES,
};

fn chars(s: &str) -> Vec<char> {
    s.chars().collect()
}

fn text(area: &TextArea) -> String {
    area.value.iter().collect()
}

#[test]
fn line_bounds_columns_and_lines_of_the_cursor() {
    let v = chars("ab\ncde\nf");
    assert_eq!(description_line_start(&v, 4), 3);
    assert_eq!(description_line_start(&v, 2), 0);
    assert_eq!(description_line_start(&v, 100), 7);
    assert_eq!(description_line_end(&v, 4), 6);
    assert_eq!(description_line_end(&v, 7), 8);
    assert_eq!(description_line_end(&v, 2), 2);
    assert_eq!(description_column(&v, 5), 2);
    assert_eq!(description_cursor_line(&v, 5), 1);
    assert_eq!(description_cursor_line(&v, 8), 2);
    assert_eq!(description_cursor_line(&v, 0), 0);
}

#[test]
fn vertical_moves_keep_the_column_where_the_line_allows() {
    let v = chars("ab\ncde\nf");
    assert_eq!(vertical_cursor_target(&v, 5, -1), 2);
    assert_eq!(vertical_cursor_target(&v, 1, 1), 4);
    assert_eq!(vertical_cursor_target(&v, 5, 1), 8);
    assert_eq!(vertical_cursor_target(&v, 7, 1), 7);
    assert_eq!(vertical_cursor_target(&v, 1, -1), 1);
}

#[test]
fn scrolling_brings_the_cursor_line_into_view() {
    assert_eq!(scroll_to_line(5, 0, DESCRIPTION_VIEWPORT_LINES), 3);
    assert_eq!(scroll_to_line(1, 2, DESCRIPTION_VIEWPORT_LINES), 1);
    assert_eq!(scroll_to_line(3, 2, DESCRIPTION_VIEWPORT_LINES), 2);
    assert_eq!(scroll_to_line(7, 4, SESSION_NOTE_VIEWPORT_LINES), 4);
}

#[test]
fn note_editor_scrolls_with_typing_and_moves() {
    let vp = SESSION_NOTE_VIEWPORT_LINES;
    let mut area = TextArea { value: Vec::new(), cursor: 0, scroll: 0 };
    for c in ['a', 'b', 'c', 'd'] {
        insert_session_note_char(&mut area, c, vp);
        insert_session_note_newline(&mut area, vp);
    }
    assert_eq!(text(&area), "a\nb\nc\nd\n");
    assert_eq!(area.cursor, 8);
    assert_eq!(area.scroll, 1);

    move_session_note_cursor_vertical(&mut area, -1, vp);
    assert_eq!((area.cursor, area.scroll), (6, 1));
    move_session_note_cursor_vertical(&mut area, -1, vp);
    move_session_note_cursor_vertical(&mut area, -1, vp);
    move_session_note_cursor_vertical(&mut area, -1, vp);
    assert_eq!((area.cursor, area.scroll), (0, 0));

    move_session_note_cursor_end(&mut area, vp);
    assert_eq!(area.cursor, 1);
    move_session_note_cursor_home(&mut area, vp);
    assert_eq!(area.cursor, 0);

    delete_session_note_char_before_cursor(&mut area, vp);
    assert_eq!(text(&area), "a\nb\nc\nd\n");
    move_session_note_cursor_left(&mut area, vp);
    assert_eq!(area.cursor, 0);
    move_session_note_cursor_right(&mut area, vp);
    delete_session_note_char_before_cursor(&mut area, vp);
    assert_eq!((text(&area), area.cursor), ("\nb\nc\nd\n".to_string(), 0));
    delete_session_note_char_at_cursor(&mut area, vp);
    assert_eq!((text(&area), area.cursor), ("b\nc\nd\n".to_string(), 0));

    area.scroll = 5;
    sync_session_note_scroll(&mut area, vp);
    assert_eq!(area.scroll, 0);
}
