//! The SQL editor popup's frame: its title, the line-number gutter and where
//! the terminal cursor goes.
use crate::text::{decimal, owned, push_decimal, push_repeat, push_str, spaces};
use crate::ui::layout::{sat_sub, Rect};
use vstd::prelude::*;

verus! {

/// The editor's title: the driver when connected, else a dash, then the keys.
pub open spec fn sql_editor_title_spec(connected: bool) -> Seq<char> {
    " SQL Editor ─── "@ + (if connected {
        "postgres"@
    } else {
        "—"@
    }) + " ─── Ctrl+E execute · Enter newline · Tab indent · Esc close "@
}

/// The SQL editor popup's title.
pub fn sql_editor_title(connected: bool) -> (r: String)
    ensures
        r@ == sql_editor_title_spec(connected),
{
    let mut r = owned(" SQL Editor ─── ");
    push_str(&mut r, if connected {
        "postgres"
    } else {
        "—"
    });
    push_str(&mut r, " ─── Ctrl+E execute · Enter newline · Tab indent · Esc close ");
    r
}

/// `s` padded on the left with spaces to at least `width` characters (std
/// formatting `{:>width$}`).
pub open spec fn pad_left(s: Seq<char>, width: nat) -> Seq<char> {
    if s.len() >= width {
        s
    } else {
        spaces((width - s.len()) as nat) + s
    }
}

/// The gutter of editor line `index`: its 1-based number right-aligned in
/// three columns, then two spaces.
pub fn line_number_label(index: usize) -> (r: String)
    requires
        index < u64::MAX,
    ensures
        r@ == pad_left(decimal((index + 1) as nat), 3) + "  "@,
{
    let n = (index as u64) + 1;
    let mut digits = String::new();
    push_decimal(&mut digits, n);
    let width = digits.unicode_len();
    let mut r = String::new();
    if width < 3 {
        push_repeat(&mut r, ' ', 3 - width);
        assert(crate::text::repeat_char(' ', (3 - width) as nat) =~= spaces(
            (3 - width) as nat,
        ));
    }
    push_str(&mut r, digits.as_str());
    push_str(&mut r, "  ");
    r
}

/// Where the terminal cursor goes for the editor cursor at `line` and `col`:
/// past the border and the gutter, kept inside the popup's border. The
/// position is taken modulo 2^16, as a `u16` conversion does.
pub open spec fn editor_cursor_spec(popup: Rect, line: usize, col: usize) -> (int, int) {
    let x = popup.x + 6 + col % 65536;
    let max_x = popup.x + sat_sub(popup.width as int, 2);
    let y = popup.y + 1 + line % 65536;
    let max_y = popup.y + sat_sub(popup.height as int, 2);
    (if x < max_x {
        x
    } else {
        max_x
    }, if y < max_y {
        y
    } else {
        max_y
    })
}

/// The terminal cursor position for the editor cursor at `line` and `col`.
pub fn editor_cursor_position(popup: Rect, line: usize, col: usize) -> (r: (u16, u16))
    requires
        popup.x + 6 + col % 65536 <= u16::MAX,
        popup.y + 1 + line % 65536 <= u16::MAX,
        popup.x + popup.width <= u16::MAX,
        popup.y + popup.height <= u16::MAX,
    ensures
        (r.0 as int, r.1 as int) == editor_cursor_spec(popup, line, col),
{
    let c: u16 = (col % 65536) as u16;
    let l: u16 = (line % 65536) as u16;
    let x = popup.x + 6 + c;
    let max_x = popup.x + if popup.width > 2 {
        popup.width - 2
    } else {
        0
    };
    let y = popup.y + 1 + l;
    let max_y = popup.y + if popup.height > 2 {
        popup.height - 2
    } else {
        0
    };
    (if x < max_x {
        x
    } else {
        max_x
    }, if y < max_y {
        y
    } else {
        max_y
    })
}

} // verus!
