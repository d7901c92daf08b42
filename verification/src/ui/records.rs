//! How the Records screen draws its table: the look of each cell around the
//! selection, the title, and the label of a record in the expanded layout.
use crate::text::{decimal, owned, push_decimal, push_str};
use crate::ui::view::Tone;
use vstd::prelude::*;

verus! {

/// How one cell is drawn: its text tone, bold or not, and whether it has the
/// selection background.
#[derive(Debug, Clone, Copy, PartialEq, Eq, Structural)]
pub struct CellLook {
    pub tone: Tone,
    pub bold: bool,
    pub selected_bg: bool,
}

/// The header cell of column `col`: bold, orange on the selected column.
pub open spec fn header_look_spec(col: int, selected_col: int) -> CellLook {
    CellLook {
        tone: if col == selected_col {
            Tone::Orange
        } else {
            Tone::Fg1
        },
        bold: true,
        selected_bg: false,
    }
}

/// The look of the header cell of column `col`.
pub fn header_cell_look(col: usize, selected_col: usize) -> (r: CellLook)
    ensures
        r == header_look_spec(col as int, selected_col as int),
{
    CellLook {
        tone: if col == selected_col {
            Tone::Orange
        } else {
            Tone::Fg1
        },
        bold: true,
        selected_bg: false,
    }
}

/// A data cell: on the selected row it has the selection background, and the
/// selected cell itself is orange.
pub open spec fn data_look_spec(row: int, col: int, selected_row: int, selected_col: int) -> CellLook {
    if row == selected_row && col == selected_col {
        CellLook { tone: Tone::Orange, bold: false, selected_bg: true }
    } else if row == selected_row {
        CellLook { tone: Tone::Fg0, bold: false, selected_bg: true }
    } else {
        CellLook { tone: Tone::Fg1, bold: false, selected_bg: false }
    }
}

/// The look of the data cell at `row`, `col`.
pub fn data_cell_look(row: usize, col: usize, selected_row: usize, selected_col: usize) -> (r: CellLook)
    ensures
        r == data_look_spec(row as int, col as int, selected_row as int, selected_col as int),
{
    if row == selected_row && col == selected_col {
        CellLook { tone: Tone::Orange, bold: false, selected_bg: true }
    } else if row == selected_row {
        CellLook { tone: Tone::Fg0, bold: false, selected_bg: true }
    } else {
        CellLook { tone: Tone::Fg1, bold: false, selected_bg: false }
    }
}

/// In the expanded layout, a field's name and value: the selected field is
/// orange (its name bold), other names dim and values plain.
pub open spec fn field_look_spec(selected: bool) -> (CellLook, CellLook) {
    if selected {
        (
            CellLook { tone: Tone::Orange, bold: true, selected_bg: false },
            CellLook { tone: Tone::Orange, bold: false, selected_bg: false },
        )
    } else {
        (
            CellLook { tone: Tone::Fg2, bold: false, selected_bg: false },
            CellLook { tone: Tone::Fg1, bold: false, selected_bg: false },
        )
    }
}

/// The looks of a field's name and value in the expanded layout.
pub fn field_looks(selected: bool) -> (r: (CellLook, CellLook))
    ensures
        r == field_look_spec(selected),
{
    if selected {
        (
            CellLook { tone: Tone::Orange, bold: true, selected_bg: false },
            CellLook { tone: Tone::Orange, bold: false, selected_bg: false },
        )
    } else {
        (
            CellLook { tone: Tone::Fg2, bold: false, selected_bg: false },
            CellLook { tone: Tone::Fg1, bold: false, selected_bg: false },
        )
    }
}

/// The title of the records table: ` N rows · page x/y `, with ` · expanded`
/// before the last space in the expanded layout.
pub open spec fn records_title_spec(total: nat, page: nat, pages: nat, expanded: bool) -> Seq<char> {
    " "@ + decimal(total) + " rows · page "@ + decimal(page) + "/"@ + decimal(pages) + if expanded {
        " · expanded "@
    } else {
        " "@
    }
}

/// The title of the records table.
pub fn records_title(total: u64, page: u64, pages: u64, expanded: bool) -> (r: String)
    ensures
        r@ == records_title_spec(total as nat, page as nat, pages as nat, expanded),
{
    let mut r = owned(" ");
    push_decimal(&mut r, total);
    push_str(&mut r, " rows · page ");
    push_decimal(&mut r, page);
    push_str(&mut r, "/");
    push_decimal(&mut r, pages);
    if expanded {
        push_str(&mut r, " · expanded ");
    } else {
        push_str(&mut r, " ");
    }
    r
}

/// The label of a record in the expanded layout: `-[ RECORD n ]`, numbered
/// from 1 over all pages.
pub fn record_label(offset: u64, row: u64) -> (r: String)
    requires
        offset + row + 1 <= u64::MAX,
    ensures
        r@ == "-[ RECORD "@ + decimal((offset + row + 1) as nat) + " ]"@,
{
    let mut r = owned("-[ RECORD ");
    push_decimal(&mut r, offset + row + 1);
    push_str(&mut r, " ]");
    r
}

} // verus!
