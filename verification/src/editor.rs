//! The text buffer and cursor engine: a buffer is an ordered sequence of
//! lines, and the cursor addresses one character position within one line.
//! Navigation clamps or wraps at buffer boundaries instead of failing, and
//! edits keep the cursor inside the addressed line at all times.

use vstd::prelude::*;
use vstd::string::StrSliceExecFns;
use vstd::string::StringExecFns;

verus! {

/// The insertion point: `line` indexes a line of the buffer, `position`
/// counts characters from the start of that line. `position` may equal the
/// line's length, which is the append position just past the last character.
#[derive(Debug, Clone, Copy, PartialEq, Eq, Structural)]
pub struct Cursor {
    pub line: usize,
    pub position: usize,
}

/// The cursor invariant: the line index is inside the buffer and the
/// character position is inside the addressed line (its length included).
pub open spec fn cursor_in_bounds(text: Seq<Seq<char>>, line: int, position: int) -> bool {
    &&& 0 <= line < text.len()
    &&& 0 <= position <= text[line].len()
}

/// The cursor invariant, stated of a `Cursor` value against a buffer.
pub open spec fn cursor_ok(cursor: Cursor, text: Seq<Seq<char>>) -> bool {
    cursor_in_bounds(text, cursor.line as int, cursor.position as int)
}

/// Where a horizontal move by `offset` lands, as a `(line, position)` pair.
/// Horizontal movement runs through the buffer as one linear stream: past
/// the start of a line it wraps to the end of the previous line, past the
/// end it wraps to the start of the next line, and at the very first or
/// very last position of the buffer it stays put.
pub open spec fn move_column_spec(
    text: Seq<Seq<char>>,
    line: int,
    position: int,
    offset: int,
) -> (int, int) {
    let candidate = position + offset;
    if candidate < 0 {
        if line == 0 {
            (line, position)
        } else {
            (line - 1, text[line - 1].len() as int)
        }
    } else if candidate > text[line].len() {
        if line + 1 == text.len() {
            (line, position)
        } else {
            (line + 1, 0)
        }
    } else {
        (line, candidate)
    }
}

/// Where a vertical move by `offset` lands, as a `(line, position)` pair.
/// A move past the first or last line stays put; otherwise the column is
/// kept, clamped down to the target line's length when that line is shorter.
pub open spec fn move_line_spec(
    text: Seq<Seq<char>>,
    line: int,
    position: int,
    offset: int,
) -> (int, int) {
    let candidate = line + offset;
    if candidate < 0 || candidate >= text.len() {
        (line, position)
    } else if position > text[candidate].len() {
        (candidate, text[candidate].len() as int)
    } else {
        (candidate, position)
    }
}

/// The line `line` with `input` spliced in at character offset `position`:
/// every character at and after that offset shifts right by `input.len()`.
pub open spec fn spliced(line: Seq<char>, position: int, input: Seq<char>) -> Seq<char> {
    line.subrange(0, position) + input + line.subrange(position, line.len() as int)
}

/// The line `line` with the single character just before `position` removed.
pub open spec fn without_char_before(line: Seq<char>, position: int) -> Seq<char> {
    line.subrange(0, position - 1) + line.subrange(position, line.len() as int)
}

/// The buffer and cursor after inserting `input` at the cursor, as a
/// `(buffer, line, position)` triple: the addressed line gains `input` at
/// the cursor's column and the cursor advances by the inserted character
/// count. No new line is ever created; a line break in `input` is an
/// ordinary character here.
pub open spec fn insert_spec(
    text: Seq<Seq<char>>,
    line: int,
    position: int,
    input: Seq<char>,
) -> (Seq<Seq<char>>, int, int) {
    (text.update(line, spliced(text[line], position, input)), line, position + input.len())
}

/// The buffer and cursor after one backspace at the cursor, as a
/// `(buffer, line, position)` triple: at column zero nothing happens (no
/// cross-line merge), otherwise the character before the cursor goes away
/// and the cursor steps one column left.
pub open spec fn backspace_spec(text: Seq<Seq<char>>, line: int, position: int) -> (
    Seq<Seq<char>>,
    int,
    int,
) {
    if position == 0 {
        (text, line, position)
    } else {
        (text.update(line, without_char_before(text[line], position)), line, position - 1)
    }
}

/// Whether the buffer has a line at `line_index`.
pub fn line_exists(text: &Vec<String>, line_index: usize) -> (r: bool)
    ensures
        r == (line_index < text@.len()),
{
    line_index < text.len()
}

/// The character count of the line at `line_index`, or an error exactly when
/// the index is outside the buffer. An out-of-range index here means an
/// internal invariant was broken by the caller.
pub fn line_length(line_index: usize, text: &Vec<String>) -> (r: Result<usize, String>)
    ensures
        line_index < text@.len() ==> (r matches Ok(n) && n == text.deep_view()[line_index as int].len()),
        line_index >= text@.len() ==> r is Err,
{
    if line_index < text.len() {
        Ok(text[line_index].as_str().unicode_len())
    } else {
        Err(String::from_str("invalid line index: no such line in the buffer"))
    }
}

/// Puts the cursor at column zero of its current line.
pub fn move_to_start(cursor: &mut Cursor)
    ensures
        final(cursor).line == old(cursor).line,
        final(cursor).position == 0,
{
    cursor.position = 0;
}

/// Puts the cursor just past the last character of its current line.
pub fn move_to_end(cursor: &mut Cursor, text: &Vec<String>)
    requires
        old(cursor).line < text@.len(),
    ensures
        final(cursor).line == old(cursor).line,
        final(cursor).position == text.deep_view()[old(cursor).line as int].len(),
        cursor_ok(*final(cursor), text.deep_view()),
{
    cursor.position = line_length(cursor.line, text).unwrap();
}

/// Moves the cursor horizontally by `offset` columns, wrapping across line
/// boundaries as `move_column_spec` says and staying put at the ends of the
/// buffer. Never fails: boundary moves are no-ops by design.
pub fn set_cursor_position(cursor: &mut Cursor, text: &Vec<String>, offset: i8)
    requires
        cursor_ok(*old(cursor), text.deep_view()),
    ensures
        ({
            let (l, p) = move_column_spec(
                text.deep_view(),
                old(cursor).line as int,
                old(cursor).position as int,
                offset as int,
            );
            final(cursor).line == l && final(cursor).position == p
        }),
        cursor_ok(*final(cursor), text.deep_view()),
{
    let line_len = line_length(cursor.line, text).unwrap();
    if offset < 0 {
        let magnitude = (-(offset as i32)) as usize;
        if magnitude > cursor.position {
            // the candidate column is negative: wrap to the end of the
            // previous line, unless this is already the first line
            if cursor.line > 0 {
                let new_line = cursor.line - 1;
                cursor.position = line_length(new_line, text).unwrap();
                cursor.line = new_line;
            }
        } else {
            cursor.position = cursor.position - magnitude;
        }
    } else {
        let magnitude = offset as usize;
        let buffer_len = text.len();
        if magnitude > line_len - cursor.position {
            // the candidate column is past the end of the line: wrap to the
            // start of the next line, unless this is already the last line
            if cursor.line + 1 < buffer_len {
                cursor.line = cursor.line + 1;
                cursor.position = 0;
            }
        } else {
            cursor.position = cursor.position + magnitude;
        }
    }
}

/// Moves the cursor vertically by `offset` lines. A move past the first or
/// last line is a no-op; otherwise the column is kept, clamped down to the
/// target line's length when that line is shorter (column-sticky movement).
pub fn set_cursor_line(cursor: &mut Cursor, text: &Vec<String>, offset: i8)
    requires
        cursor_ok(*old(cursor), text.deep_view()),
    ensures
        ({
            let (l, p) = move_line_spec(
                text.deep_view(),
                old(cursor).line as int,
                old(cursor).position as int,
                offset as int,
            );
            final(cursor).line == l && final(cursor).position == p
        }),
        cursor_ok(*final(cursor), text.deep_view()),
{
    if offset < 0 {
        let magnitude = (-(offset as i32)) as usize;
        if magnitude <= cursor.line {
            let new_line = cursor.line - magnitude;
            let new_len = line_length(new_line, text).unwrap();
            if cursor.position > new_len {
                cursor.position = new_len;
            }
            cursor.line = new_line;
        }
    } else {
        let magnitude = offset as usize;
        if magnitude < text.len() - cursor.line {
            let new_line = cursor.line + magnitude;
            let new_len = line_length(new_line, text).unwrap();
            if cursor.position > new_len {
                cursor.position = new_len;
            }
            cursor.line = new_line;
        }
    }
}

/// Splices `string_input` into the cursor's line at the cursor's column.
/// The cursor itself is not touched; `handle_text_input` advances it.
pub fn insert_str_in_text(string_input: String, text: &mut Vec<String>, cursor: &Cursor)
    requires
        cursor_ok(*cursor, old(text).deep_view()),
    ensures
        final(text).deep_view() == old(text).deep_view().update(
            cursor.line as int,
            spliced(
                old(text).deep_view()[cursor.line as int],
                cursor.position as int,
                string_input@,
            ),
        ),
        final(text)@.len() == old(text)@.len(),
{
    let old_line = text[cursor.line].clone();
    let n = old_line.as_str().unicode_len();
    let prefix = old_line.as_str().substring_char(0, cursor.position);
    let mut new_line = String::from_str(prefix);
    new_line.append(string_input.as_str());
    let suffix = old_line.as_str().substring_char(cursor.position, n);
    new_line.append(suffix);
    text[cursor.line] = new_line;
    proof {
        assert(final(text).deep_view() =~= old(text).deep_view().update(
            cursor.line as int,
            spliced(
                old(text).deep_view()[cursor.line as int],
                cursor.position as int,
                string_input@,
            ),
        ));
    }
}

/// Applies one text-input event: splices `string_input` in at the cursor
/// and advances the cursor by the number of characters inserted.
pub fn handle_text_input(string_input: String, text: &mut Vec<String>, cursor: &mut Cursor)
    requires
        cursor_ok(*old(cursor), old(text).deep_view()),
    ensures
        ({
            let (t, l, p) = insert_spec(
                old(text).deep_view(),
                old(cursor).line as int,
                old(cursor).position as int,
                string_input@,
            );
            final(text).deep_view() == t && final(cursor).line == l && final(cursor).position == p
        }),
        cursor_ok(*final(cursor), final(text).deep_view()),
{
    let added = string_input.as_str().unicode_len();
    insert_str_in_text(string_input, text, cursor);
    // the spliced line now holds every character the cursor steps over, so
    // its length witnesses that the advanced column fits in a usize
    let new_line_len = line_length(cursor.line, text).unwrap();
    proof {
        assert(cursor.position + added <= new_line_len);
    }
    cursor.position = cursor.position + added;
}

/// Removes the character just before the cursor from the cursor's line.
/// The cursor itself is not touched; `handle_backspace` steps it back.
pub fn remove_char_under_cursor(text: &mut Vec<String>, cursor: &mut Cursor)
    requires
        cursor_ok(*old(cursor), old(text).deep_view()),
        old(cursor).position >= 1,
    ensures
        final(text).deep_view() == old(text).deep_view().update(
            old(cursor).line as int,
            without_char_before(
                old(text).deep_view()[old(cursor).line as int],
                old(cursor).position as int,
            ),
        ),
        final(text)@.len() == old(text)@.len(),
        *final(cursor) == *old(cursor),
{
    let old_line = text[cursor.line].clone();
    let n = old_line.as_str().unicode_len();
    let prefix = old_line.as_str().substring_char(0, cursor.position - 1);
    let mut new_line = String::from_str(prefix);
    let suffix = old_line.as_str().substring_char(cursor.position, n);
    new_line.append(suffix);
    text[cursor.line] = new_line;
    proof {
        assert(final(text).deep_view() =~= old(text).deep_view().update(
            old(cursor).line as int,
            without_char_before(
                old(text).deep_view()[old(cursor).line as int],
                old(cursor).position as int,
            ),
        ));
    }
}

/// Applies one backspace event: at column zero this is a no-op (backspace
/// never merges lines); otherwise the character before the cursor goes away
/// and the cursor steps one column left.
pub fn handle_backspace(text: &mut Vec<String>, cursor: &mut Cursor)
    requires
        cursor_ok(*old(cursor), old(text).deep_view()),
    ensures
        ({
            let (t, l, p) = backspace_spec(
                old(text).deep_view(),
                old(cursor).line as int,
                old(cursor).position as int,
            );
            final(text).deep_view() == t && final(cursor).line == l && final(cursor).position == p
        }),
        cursor_ok(*final(cursor), final(text).deep_view()),
{
    if cursor.position > 0 {
        remove_char_under_cursor(text, cursor);
        cursor.position = cursor.position - 1;
    }
}

} // verus!
