//! Screen geometry: rectangles, the centered popup rule and the SQL editor's
//! text width, and locating columns inside a line of text.
use crate::text::{str_byte_len, char_len_utf8, chars_of, lemma_utf8_prefix_step, utf8};
use vstd::prelude::*;

verus! {

/// A rectangle of terminal cells.
#[derive(Debug, Clone, Copy, PartialEq, Eq, Structural)]
pub struct Rect {
    pub x: u16,
    pub y: u16,
    pub width: u16,
    pub height: u16,
}

/// `a - b`, or 0 when `b` is larger.
pub open spec fn sat_sub(a: int, b: int) -> int {
    if a > b {
        a - b
    } else {
        0
    }
}

/// The popup centered in `area` that is `percent_width` percent of its width
/// and `height` cells high.
pub open spec fn centered_spec(percent_width: u16, height: u16, area: Rect) -> Rect {
    let w = area.width * percent_width / 100;
    Rect {
        x: (area.x + sat_sub(area.width as int, w) / 2) as u16,
        y: (area.y + sat_sub(area.height as int, height as int) / 2) as u16,
        width: w as u16,
        height,
    }
}

/// Returns a centered rectangle with the requested width percentage and height.
pub fn centered_rect(percent_width: u16, height: u16, area: Rect) -> (r: Rect)
    requires
        area.width * percent_width <= u16::MAX,
        area.x + area.width / 2 <= u16::MAX,
        area.y + area.height / 2 <= u16::MAX,
    ensures
        r == centered_spec(percent_width, height, area),
{
    let popup_width = area.width * percent_width / 100;
    let free_w = if area.width > popup_width {
        area.width - popup_width
    } else {
        0
    };
    let free_h = if area.height > height {
        area.height - height
    } else {
        0
    };
    Rect { x: area.x + free_w / 2, y: area.y + free_h / 2, width: popup_width, height }
}

/// How many columns of text the SQL editor popup (70% of the terminal, less
/// borders and the line-number gutter) holds; at least one.
pub open spec fn sql_editor_width_spec(terminal_width: u16) -> int {
    let popup = (if terminal_width * 70 > 65535 {
        65535
    } else {
        terminal_width * 70
    }) / 100;
    let w = sat_sub(popup, 7);
    if w > 1 {
        w
    } else {
        1
    }
}

/// The SQL editor's text width for a terminal `terminal_width` columns wide.
pub fn sql_editor_text_width(terminal_width: u16) -> (r: usize)
    ensures
        r == sql_editor_width_spec(terminal_width),
{
    let scaled: u32 = terminal_width as u32 * 70;
    let popup: u32 = (if scaled > 65535 {
        65535
    } else {
        scaled
    }) / 100;
    let w = if popup > 7 {
        popup - 7
    } else {
        0
    };
    if w > 1 {
        w as usize
    } else {
        1
    }
}

/// The byte offset in `s` of 1-based character column `column` (0 is the
/// start); past the end it is the length of `s`.
pub open spec fn column_byte_index(s: Seq<char>, column: int) -> int {
    if column <= 0 {
        0
    } else if column - 1 < s.len() {
        utf8(s.subrange(0, column - 1)).len() as int
    } else {
        utf8(s).len() as int
    }
}

/// Byte offset of a tokenizer column within a line.
pub fn byte_index_for_column(text: &str, column: u64) -> (r: usize)
    ensures
        r == column_byte_index(text@, column as int),
{
    if column == 0 {
        return 0;
    }
    let cs = chars_of(text);
    let total = str_byte_len(text);
    let n = cs.len();
    let target: u64 = column - 1;
    let mut i: usize = 0;
    let mut bytes: usize = 0;
    while i < n && (i as u64) < target
        invariant
            n == cs@.len(),
            cs@ == text@,
            i <= n,
            i <= target,
            bytes == utf8(text@.subrange(0, i as int)).len(),
            bytes <= utf8(text@).len(),
            total == utf8(text@).len(),
        decreases n - i,
    {
        proof {
            lemma_utf8_prefix_step(text@, i as int);
        }
        bytes = bytes + char_len_utf8(cs[i]);
        i += 1;
    }
    if i < n {
        bytes
    } else {
        proof {
            assert(text@.subrange(0, n as int) =~= text@);
        }
        bytes
    }
}

} // verus!
