//! Mapping from the cursor's character-cell coordinates to pixel
//! coordinates, given the font metrics the rendering host owns.

use vstd::prelude::*;

verus! {

/// Pixels of space kept between the window border and the text.
pub const PADDING: i32 = 12;

/// Where the cursor is drawn, in pixels: the column scaled by the glyph
/// width and the line scaled by the line height, each shifted by `PADDING`.
pub fn get_cursor_axis(line_height: i32, letter_width: u32, line: u32, position: u32) -> (r: (
    i32,
    i32,
))
    requires
        position <= i32::MAX,
        letter_width <= i32::MAX,
        line <= i32::MAX,
        position * letter_width <= i32::MAX - PADDING,
        i32::MIN <= line * line_height,
        line * line_height <= i32::MAX - PADDING,
    ensures
        r.0 == position * letter_width + PADDING,
        r.1 == line * line_height + PADDING,
{
    let cursor_x = (position as i32) * (letter_width as i32) + PADDING;
    let cursor_y = (line as i32) * line_height + PADDING;

    (cursor_x, cursor_y)
}

} // verus!
