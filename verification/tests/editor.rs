use rusteed::editor::handle_backspace;
use rusteed::editor::handle_text_input;
use rusteed::editor::insert_str_in_text;
use rusteed::editor::line_exists;
use rusteed::editor::line_length;
use rusteed::editor::move_to_end;
use rusteed::editor::move_to_start;
use rusteed::editor::remove_char_under_cursor;
use rusteed::editor::set_cursor_line;
use rusteed::editor::set_cursor_position;
use rusteed::editor::Cursor;
use rusteed::layout::get_cursor_axis;
use rusteed::layout::PADDING;

fn buffer(lines: &[&str]) -> Vec<String> {
    lines.iter().map(|l| String::from(*l)).collect()
}

#[test]
fn move_column_is_noop_at_buffer_start() {
    let text = buffer(&["ab", "cd"]);
    let mut cursor = Cursor { line: 0, position: 0 };
    set_cursor_position(&mut cursor, &text, -1);
    assert_eq!(cursor, Cursor { line: 0, position: 0 });
}

#[test]
fn move_column_is_noop_at_buffer_end() {
    let text = buffer(&["ab", "cd"]);
    let mut cursor = Cursor { line: 1, position: 2 };
    set_cursor_position(&mut cursor, &text, 1);
    assert_eq!(cursor, Cursor { line: 1, position: 2 });
}

#[test]
fn move_column_wraps_right_to_next_line_start() {
    let text = buffer(&["ab", "cd"]);
    let mut cursor = Cursor { line: 0, position: 2 };
    set_cursor_position(&mut cursor, &text, 1);
    assert_eq!(cursor, Cursor { line: 1, position: 0 });
}

#[test]
fn move_column_wraps_left_to_previous_line_end() {
    let text = buffer(&["ab", "cd"]);
    let mut cursor = Cursor { line: 1, position: 0 };
    set_cursor_position(&mut cursor, &text, -1);
    assert_eq!(cursor, Cursor { line: 0, position: 2 });
}

#[test]
fn move_column_steps_within_a_line() {
    let text = buffer(&["abc"]);
    let mut cursor = Cursor { line: 0, position: 1 };
    set_cursor_position(&mut cursor, &text, 1);
    assert_eq!(cursor, Cursor { line: 0, position: 2 });
    set_cursor_position(&mut cursor, &text, -1);
    assert_eq!(cursor, Cursor { line: 0, position: 1 });
}

#[test]
fn move_column_right_from_empty_line_wraps() {
    let text = buffer(&["", "x"]);
    let mut cursor = Cursor { line: 0, position: 0 };
    set_cursor_position(&mut cursor, &text, 1);
    assert_eq!(cursor, Cursor { line: 1, position: 0 });
}

#[test]
fn move_line_clamps_to_shorter_line() {
    let text = buffer(&["abcdef", "xy"]);
    let mut cursor = Cursor { line: 0, position: 5 };
    set_cursor_line(&mut cursor, &text, 1);
    assert_eq!(cursor, Cursor { line: 1, position: 2 });
}

#[test]
fn move_line_keeps_column_when_it_fits() {
    let text = buffer(&["ab", "cdef"]);
    let mut cursor = Cursor { line: 0, position: 1 };
    set_cursor_line(&mut cursor, &text, 1);
    assert_eq!(cursor, Cursor { line: 1, position: 1 });
}

#[test]
fn move_line_is_noop_past_first_and_last_line() {
    let text = buffer(&["ab", "cd"]);
    let mut cursor = Cursor { line: 0, position: 1 };
    set_cursor_line(&mut cursor, &text, -1);
    assert_eq!(cursor, Cursor { line: 0, position: 1 });
    let mut cursor = Cursor { line: 1, position: 1 };
    set_cursor_line(&mut cursor, &text, 1);
    assert_eq!(cursor, Cursor { line: 1, position: 1 });
}

#[test]
fn insert_advances_cursor_past_inserted_text() {
    let mut text = buffer(&["ab"]);
    let mut cursor = Cursor { line: 0, position: 1 };
    handle_text_input(String::from("Z"), &mut text, &mut cursor);
    assert_eq!(text, buffer(&["aZb"]));
    assert_eq!(cursor, Cursor { line: 0, position: 2 });
}

#[test]
fn insert_advances_by_the_inserted_character_count() {
    let mut text = buffer(&[""]);
    let mut cursor = Cursor { line: 0, position: 0 };
    handle_text_input(String::from("hello"), &mut text, &mut cursor);
    assert_eq!(text, buffer(&["hello"]));
    assert_eq!(cursor, Cursor { line: 0, position: 5 });
}

#[test]
fn insert_counts_characters_not_bytes() {
    let mut text = buffer(&["ab"]);
    let mut cursor = Cursor { line: 0, position: 1 };
    handle_text_input(String::from("\u{e9}"), &mut text, &mut cursor);
    assert_eq!(text, buffer(&["a\u{e9}b"]));
    assert_eq!(cursor, Cursor { line: 0, position: 2 });
    assert_eq!(line_length(0, &text), Ok(3));
}

#[test]
fn insert_without_advance_leaves_cursor_alone() {
    let mut text = buffer(&["ab", "cd"]);
    let cursor = Cursor { line: 1, position: 1 };
    insert_str_in_text(String::from("xy"), &mut text, &cursor);
    assert_eq!(text, buffer(&["ab", "cxyd"]));
    assert_eq!(cursor, Cursor { line: 1, position: 1 });
}

#[test]
fn backspace_is_noop_at_line_start() {
    let mut text = buffer(&["ab", "cd"]);
    let mut cursor = Cursor { line: 0, position: 0 };
    handle_backspace(&mut text, &mut cursor);
    assert_eq!(text, buffer(&["ab", "cd"]));
    assert_eq!(cursor, Cursor { line: 0, position: 0 });
}

#[test]
fn backspace_removes_the_character_before_the_cursor() {
    let mut text = buffer(&["ab", "cd"]);
    let mut cursor = Cursor { line: 0, position: 1 };
    handle_backspace(&mut text, &mut cursor);
    assert_eq!(text, buffer(&["b", "cd"]));
    assert_eq!(cursor, Cursor { line: 0, position: 0 });
}

#[test]
fn backspace_on_second_line_leaves_first_alone() {
    let mut text = buffer(&["ab", "cd"]);
    let mut cursor = Cursor { line: 1, position: 2 };
    remove_char_under_cursor(&mut text, &mut cursor);
    assert_eq!(text, buffer(&["ab", "c"]));
    assert_eq!(cursor, Cursor { line: 1, position: 2 });
}

#[test]
fn inserts_then_as_many_backspaces_restore_the_state() {
    let mut text = buffer(&["ab", "cd"]);
    let mut cursor = Cursor { line: 1, position: 1 };
    for piece in ["x", "y", "z"] {
        handle_text_input(String::from(piece), &mut text, &mut cursor);
    }
    assert_eq!(text, buffer(&["ab", "cxyzd"]));
    for _ in 0..3 {
        handle_backspace(&mut text, &mut cursor);
    }
    assert_eq!(text, buffer(&["ab", "cd"]));
    assert_eq!(cursor, Cursor { line: 1, position: 1 });
}

#[test]
fn backspaces_matching_the_inserted_length_restore_the_state() {
    let mut text = buffer(&["abcdef", "xy"]);
    let mut cursor = Cursor { line: 0, position: 3 };
    handle_text_input(String::from("hello"), &mut text, &mut cursor);
    handle_text_input(String::from(""), &mut text, &mut cursor);
    handle_text_input(String::from("!?"), &mut text, &mut cursor);
    assert_eq!(text, buffer(&["abchello!?def", "xy"]));
    for _ in 0..7 {
        handle_backspace(&mut text, &mut cursor);
    }
    assert_eq!(text, buffer(&["abcdef", "xy"]));
    assert_eq!(cursor, Cursor { line: 0, position: 3 });
}

#[test]
fn line_length_reports_each_line_and_rejects_bad_indices() {
    let text = buffer(&["ab", ""]);
    assert_eq!(line_length(0, &text), Ok(2));
    assert_eq!(line_length(1, &text), Ok(0));
    assert!(line_length(2, &text).is_err());
}

#[test]
fn line_exists_tracks_the_buffer_bounds() {
    let text = buffer(&["ab", "cd"]);
    assert!(line_exists(&text, 0));
    assert!(line_exists(&text, 1));
    assert!(!line_exists(&text, 2));
}

#[test]
fn move_to_start_and_end_jump_within_the_line() {
    let text = buffer(&["abc", "de"]);
    let mut cursor = Cursor { line: 0, position: 2 };
    move_to_start(&mut cursor);
    assert_eq!(cursor, Cursor { line: 0, position: 0 });
    move_to_end(&mut cursor, &text);
    assert_eq!(cursor, Cursor { line: 0, position: 3 });
}

#[test]
fn cursor_axis_scales_by_font_metrics_and_padding() {
    let (x, y) = get_cursor_axis(16, 8, 2, 3);
    assert_eq!(x, 3 * 8 + PADDING);
    assert_eq!(y, 2 * 16 + PADDING);
    let (x0, y0) = get_cursor_axis(16, 8, 0, 0);
    assert_eq!((x0, y0), (PADDING, PADDING));
}
