//! The Database screen's content: the items of the schema and table panes,
//! the panes' borders and titles, and the status context.
use crate::text::{decimal, owned, push_decimal, push_str};
use crate::ui::view::{toned, Segment, Tone};
use vstd::prelude::*;

verus! {

/// The segments of a pane item: the selected item of the active pane is
/// marked and bold; the others are indented, brighter in the active pane.
pub open spec fn pane_item_spec(name: Seq<char>, active: bool, selected: bool) -> Seq<
    (Seq<char>, Tone, bool),
> {
    if active && selected {
        seq![("▶ "@, Tone::Orange, false), (name, Tone::Fg0, true)]
    } else {
        seq![(
            "  "@ + name,
            if active {
                Tone::Fg1
            } else {
                Tone::Fg2
            },
            false,
        )]
    }
}

/// The text, tone and weight of toned segments.
pub open spec fn toned_view(s: Seq<Segment>) -> Seq<(Seq<char>, Tone, bool)> {
    s.map_values(|g: Segment| (g.text@, g.tone->0, g.bold))
}

/// One item of the schema or table pane.
pub fn pane_item(name: &str, active: bool, selected: bool) -> (r: Vec<Segment>)
    ensures
        toned_view(r@) == pane_item_spec(name@, active, selected),
        forall|i: int| 0 <= i < r@.len() ==> (#[trigger] r@[i]).tone is Some,
{
    let mut r: Vec<Segment> = Vec::new();
    if active && selected {
        r.push(toned(owned("▶ "), Tone::Orange));
        r.push(Segment { text: owned(name), tone: Some(Tone::Fg0), bold: true });
    } else {
        let mut t = owned("  ");
        push_str(&mut t, name);
        r.push(toned(t, if active {
            Tone::Fg1
        } else {
            Tone::Fg2
        }));
    }
    assert(toned_view(r@) =~= pane_item_spec(name@, active, selected));
    r
}

/// The border tone of a pane: orange when it has focus.
pub fn pane_border(active: bool) -> (t: Tone)
    ensures
        t == if active {
            Tone::Orange
        } else {
            Tone::Bg2
        },
{
    if active {
        Tone::Orange
    } else {
        Tone::Bg2
    }
}

/// The table pane's title: the schema, then the 1-based selection (0 when the
/// list is empty) over the number of tables.
pub open spec fn tables_title_spec(schema: Seq<char>, selected: usize, count: usize) -> Seq<char> {
    " Tables · "@ + schema + " ─── "@ + decimal(
        if count == 0 {
            0
        } else {
            (selected + 1) as nat
        },
    ) + "/"@ + decimal(count as nat) + " "@
}

/// The table pane's title.
pub fn tables_title(schema: &str, selected: usize, count: usize) -> (r: String)
    requires
        selected < u64::MAX,
    ensures
        r@ == tables_title_spec(schema@, selected, count),
{
    let mut r = owned(" Tables · ");
    push_str(&mut r, schema);
    push_str(&mut r, " ─── ");
    let shown: u64 = if count == 0 {
        0
    } else {
        selected as u64 + 1
    };
    push_decimal(&mut r, shown);
    push_str(&mut r, "/");
    push_decimal(&mut r, count as u64);
    push_str(&mut r, " ");
    r
}

/// The status bar context: the selected schema, if any.
pub fn database_context(schema: Option<&str>) -> (r: String)
    ensures
        r@ == match schema {
            Some(s) => "database › "@ + s@,
            None => "database"@,
        },
{
    match schema {
        Some(s) => {
            let mut r = owned("database › ");
            push_str(&mut r, s);
            r
        },
        None => owned("database"),
    }
}

} // verus!
