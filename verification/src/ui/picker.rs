//! The filterable picker popup: which items fit in its list, which one is
//! marked, the theme picker's footer and its filtered theme names.
use crate::text::{contains_seq, decimal, owned, push_decimal, push_str, str_contains};
use crate::themes::palette::{Theme, ThemeColors};
use crate::ui::view::{toned, Segment, Tone};
use vstd::prelude::*;

verus! {

/// One entry of a picker list.
#[derive(Debug, Clone, Copy)]
pub struct PickerItem<'a> {
    /// The main label of the item, displayed prominently.
    pub label: &'a str,
    /// Optional metadata for the item, displayed in a secondary style.
    pub meta: Option<&'a str>,
}

/// A picker popup: a title, a filter line, a scrolled list and a footer.
#[derive(Debug)]
pub struct PickerView<'a> {
    pub colors: ThemeColors,
    pub empty_message: &'a str,
    pub footer: Vec<Segment>,
    pub items: &'a [PickerItem<'a>],
    pub query: &'a str,
    pub selected: usize,
    pub title: &'a str,
}

/// One drawn line of a picker list.
#[derive(Debug, Clone, Copy, PartialEq, Eq)]
pub struct PickerRow<'a> {
    /// `▶` on the selected item, a space on the others, empty on the
    /// placeholder line of an empty list.
    pub marker: &'a str,
    /// The item's label, or the empty message.
    pub label: &'a str,
    /// The item's metadata, or empty.
    pub meta: &'a str,
    /// Whether this is the selected item.
    pub selected: bool,
}

/// The part of a list of `count` items that a list `height` lines tall shows
/// (at least one line): the selection is limited to the last item, and the
/// list scrolls just far enough to show it. Returns `(start, end, selected)`.
pub open spec fn picker_window(selected: int, count: int, height: int) -> (int, int, int) {
    let h = if height > 1 {
        height
    } else {
        1
    };
    let sel = if selected < count - 1 {
        selected
    } else {
        count - 1
    };
    let start = if sel + 1 > h {
        sel + 1 - h
    } else {
        0
    };
    let end = if start + h < count {
        start + h
    } else {
        count
    };
    (start, end, sel)
}

/// The row that item `i` of `items` is drawn as, when `sel` is selected.
pub open spec fn item_row<'a>(items: Seq<PickerItem<'a>>, i: int, sel: int) -> (Seq<char>, Seq<char>, Seq<char>, bool) {
    (
        if i == sel {
            "▶"@
        } else {
            " "@
        },
        items[i].label@,
        match items[i].meta {
            Some(m) => m@,
            None => Seq::<char>::empty(),
        },
        i == sel,
    )
}

/// The characters of a drawn row.
pub open spec fn row_view<'a>(r: PickerRow<'a>) -> (Seq<char>, Seq<char>, Seq<char>, bool) {
    (r.marker@, r.label@, r.meta@, r.selected)
}

impl<'a> PickerView<'a> {
    /// Computes the rows to display based on the current selection and
    /// available height: the empty message alone when there are no items, else
    /// the items of `picker_window`, the selected one marked.
    pub fn visible_rows(&self, height: usize) -> (r: Vec<PickerRow<'a>>)
        ensures
            self.items@.len() == 0 ==> r@.len() == 1 && row_view(r@[0]) == (
                Seq::<char>::empty(),
                self.empty_message@,
                Seq::<char>::empty(),
                false,
            ),
            self.items@.len() > 0 ==> ({
                let (start, end, sel) = picker_window(
                    self.selected as int,
                    self.items@.len() as int,
                    height as int,
                );
                &&& r@.len() == end - start
                &&& forall|k: int|
                    0 <= k < r@.len() ==> row_view(#[trigger] r@[k]) == item_row(
                        self.items@,
                        start + k,
                        sel,
                    )
            }),
    {
        let count = self.items.len();
        let mut rows: Vec<PickerRow<'a>> = Vec::new();
        if count == 0 {
            rows.push(PickerRow { marker: "", label: self.empty_message, meta: "", selected: false });
            proof {
                reveal_strlit("");
            }
            return rows;
        }
        let h = if height > 1 {
            height
        } else {
            1
        };
        let sel = if self.selected < count - 1 {
            self.selected
        } else {
            count - 1
        };
        let start = if sel + 1 > h {
            sel + 1 - h
        } else {
            0
        };
        let reach = start + h;
        let end = if reach < count {
            reach
        } else {
            count
        };
        assert(start <= end <= count);
        let ghost w = picker_window(self.selected as int, count as int, height as int);
        assert(w == (start as int, end as int, sel as int));
        let mut i = start;
        while i < end
            invariant
                start <= i <= end <= count,
                count == self.items@.len(),
                sel < count,
                rows@.len() == i - start,
                forall|k: int|
                    0 <= k < rows@.len() ==> row_view(#[trigger] rows@[k]) == item_row(
                        self.items@,
                        start + k,
                        sel as int,
                    ),
            decreases end - i,
        {
            let item = self.items[i];
            let marker = if i == sel {
                "▶"
            } else {
                " "
            };
            let meta = match item.meta {
                Some(m) => m,
                None => "",
            };
            proof {
                reveal_strlit("");
            }
            rows.push(PickerRow { marker, label: item.label, meta, selected: i == sel });
            i += 1;
        }
        rows
    }
}

/// The theme picker's footer: the load error, if any, in red with the keys;
/// else the number of matching themes with the keys and the filter hint.
pub open spec fn footer_spec(error: Option<Seq<char>>, filtered_count: nat) -> Seq<(Seq<char>, Option<Tone>, bool)> {
    match error {
        Some(e) => seq![
            (" error: "@, Some(Tone::Red), true),
            (e, Some(Tone::Red), false),
            ("  "@, None, false),
            ("enter:select"@, Some(Tone::Yellow), false),
            ("  "@, None, false),
            ("esc:cancel"@, Some(Tone::Fg1), false),
        ],
        None => seq![
            (" "@ + decimal(filtered_count) + " themes  "@, Some(Tone::Fg2), false),
            ("enter:select"@, Some(Tone::Yellow), false),
            ("  "@, None, false),
            ("esc:cancel"@, Some(Tone::Fg1), false),
            ("  "@, None, false),
            ("type to filter"@, Some(Tone::Fg1), false),
        ],
    }
}

/// The characters, tone and weight of each segment.
pub open spec fn segments_view(s: Seq<Segment>) -> Seq<(Seq<char>, Option<Tone>, bool)> {
    s.map_values(|g: Segment| (g.text@, g.tone, g.bold))
}

/// Unstyled text.
fn plain(text: &str) -> (s: Segment)
    ensures
        s.text@ == text@,
        s.tone.is_none(),
        !s.bold,
{
    Segment { text: owned(text), tone: None, bold: false }
}

/// Generates the footer line for the theme picker, showing either an error
/// message or the count of filtered themes and instructions.
pub fn footer_line(error: Option<&str>, filtered_count: usize) -> (r: Vec<Segment>)
    ensures
        segments_view(r@) == footer_spec(
            match error {
                Some(e) => Some(e@),
                None => None,
            },
            filtered_count as nat,
        ),
{
    let mut r: Vec<Segment> = Vec::new();
    match error {
        Some(e) => {
            r.push(Segment { text: owned(" error: "), tone: Some(Tone::Red), bold: true });
            r.push(toned(owned(e), Tone::Red));
            r.push(plain("  "));
            r.push(toned(owned("enter:select"), Tone::Yellow));
            r.push(plain("  "));
            r.push(toned(owned("esc:cancel"), Tone::Fg1));
        },
        None => {
            let mut count = owned(" ");
            push_decimal(&mut count, filtered_count as u64);
            push_str(&mut count, " themes  ");
            r.push(toned(count, Tone::Fg2));
            r.push(toned(owned("enter:select"), Tone::Yellow));
            r.push(plain("  "));
            r.push(toned(owned("esc:cancel"), Tone::Fg1));
            r.push(plain("  "));
            r.push(toned(owned("type to filter"), Tone::Fg1));
        },
    }
    assert(segments_view(r@) =~= footer_spec(
        match error {
            Some(e) => Some(e@),
            None => None,
        },
        filtered_count as nat,
    ));
    r
}

/// The names of `themes` that contain `query` (case-sensitive), in order.
pub open spec fn names_containing(themes: Seq<Theme>, query: Seq<char>) -> Seq<Seq<char>>
    decreases themes.len(),
{
    if themes.len() == 0 {
        Seq::empty()
    } else if contains_seq(themes.last().name@, query) {
        names_containing(themes.drop_last(), query).push(themes.last().name@)
    } else {
        names_containing(themes.drop_last(), query)
    }
}

/// Filters the list of themes based on the query string, returning the names
/// of matching themes.
pub fn filtered_theme_names<'a>(themes: &'a [Theme], query: &str) -> (r: Vec<&'a str>)
    ensures
        r@.map_values(|s: &str| s@) == names_containing(themes@, query@),
{
    let n = themes.len();
    let mut out: Vec<&'a str> = Vec::new();
    let mut i: usize = 0;
    while i < n
        invariant
            n == themes@.len(),
            i <= n,
            out@.map_values(|s: &str| s@) == names_containing(themes@.subrange(0, i as int), query@),
        decreases n - i,
    {
        assert(themes@.subrange(0, i + 1).drop_last() =~= themes@.subrange(0, i as int));
        let name = themes[i].name.as_str();
        if str_contains(name, query) {
            let ghost before = out@;
            out.push(name);
            assert(out@.map_values(|s: &str| s@) =~= before.map_values(|s: &str| s@).push(
                themes@[i as int].name@,
            ));
        }
        i += 1;
    }
    assert(themes@.subrange(0, n as int) =~= themes@);
    out
}

} // verus!
