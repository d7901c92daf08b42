//! The key help overlay: the sections of key bindings shown for each screen,
//! and the lines drawn for them.
use crate::state::navigation::Screen;
use crate::text::{owned, pad_right, push_padded, push_str};
use crate::ui::view::{toned, Segment, Tone};
use vstd::prelude::*;

verus! {

/// A titled group of key bindings.
#[derive(Debug, Clone)]
pub struct HelpSection {
    pub title: &'static str,
    /// Key and action of each binding.
    pub entries: Vec<(&'static str, &'static str)>,
}

/// The help sections of a screen, as titles with (key, action) pairs.
pub open spec fn help_spec(screen: Screen) -> Seq<(Seq<char>, Seq<(Seq<char>, Seq<char>)>)> {
    match screen {
        Screen::Connect => seq![
            (
                "connections"@,
                seq![
                    ("j/k"@, "navigate"@),
                    ("/"@, "search"@),
                    ("↵/l"@, "connect"@),
                    ("a"@, "add new"@),
                    ("e"@, "edit selected"@),
                    ("d"@, "delete selected"@),
                    ("r"@, "refresh statuses"@),
                    ("q"@, "quit"@),
                ],
            ),
        ],
        Screen::AddConnection => seq![
            (
                "form"@,
                seq![
                    ("Tab/↓"@, "next field"@),
                    ("BackTab/↑"@, "prev field"@),
                    ("↵ / Ctrl+S"@, "save"@),
                    ("Esc"@, "cancel"@),
                ],
            ),
        ],
        Screen::Database => seq![
            (
                "navigate"@,
                seq![
                    ("j/k"@, "move cursor"@),
                    ("tab"@, "switch pane"@),
                    ("h/q/Esc"@, "back"@),
                    ("/"@, "filter"@),
                ],
            ),
            (
                "table"@,
                seq![("↵/l"@, "open / inspect"@), ("r"@, "view rows"@), (":/c"@, "SQL editor"@)],
            ),
            ("SQL editor"@, seq![("Ctrl+E/↵"@, "run query"@), ("Esc"@, "close editor"@)]),
        ],
        Screen::Inspect => seq![
            (
                "inspect"@,
                seq![("r/s"@, "view rows"@), ("/"@, "filter columns"@), ("q/Esc"@, "back"@)],
            ),
        ],
        Screen::Records => seq![
            (
                "navigate"@,
                seq![("j/k"@, "row / field"@), ("h/l"@, "field / row"@), ("n/p"@, "next/prev page"@)],
            ),
            ("actions"@, seq![("q/Esc"@, "close"@)]),
        ],
    }
}

/// `sections` hold what `help_spec` lists.
pub open spec fn sections_match(
    sections: Seq<HelpSection>,
    spec: Seq<(Seq<char>, Seq<(Seq<char>, Seq<char>)>)>,
) -> bool {
    &&& sections.len() == spec.len()
    &&& forall|i: int|
        0 <= i < spec.len() ==> {
            &&& (#[trigger] sections[i]).title@ == spec[i].0
            &&& sections[i].entries@.len() == spec[i].1.len()
            &&& forall|j: int|
                0 <= j < spec[i].1.len() ==> (#[trigger] sections[i].entries@[j]).0@ == spec[i].1[j].0
                    && sections[i].entries@[j].1@ == spec[i].1[j].1
        }
}

/// A section built from a title and its bindings.
fn section(title: &'static str, entries: Vec<(&'static str, &'static str)>) -> (s: HelpSection)
    ensures
        s.title == title,
        s.entries@ == entries@,
{
    HelpSection { title, entries }
}

/// The help sections shown for a screen.
pub fn sections_for(screen: &Screen) -> (r: Vec<HelpSection>)
    ensures
        sections_match(r@, help_spec(*screen)),
{
    let r = match screen {
        Screen::Connect => vec![
            section(
                "connections",
                vec![
                    ("j/k", "navigate"),
                    ("/", "search"),
                    ("↵/l", "connect"),
                    ("a", "add new"),
                    ("e", "edit selected"),
                    ("d", "delete selected"),
                    ("r", "refresh statuses"),
                    ("q", "quit"),
                ],
            ),
        ],
        Screen::AddConnection => vec![
            section(
                "form",
                vec![
                    ("Tab/↓", "next field"),
                    ("BackTab/↑", "prev field"),
                    ("↵ / Ctrl+S", "save"),
                    ("Esc", "cancel"),
                ],
            ),
        ],
        Screen::Database => vec![
            section(
                "navigate",
                vec![("j/k", "move cursor"), ("tab", "switch pane"), ("h/q/Esc", "back"), ("/", "filter")],
            ),
            section("table", vec![("↵/l", "open / inspect"), ("r", "view rows"), (":/c", "SQL editor")]),
            section("SQL editor", vec![("Ctrl+E/↵", "run query"), ("Esc", "close editor")]),
        ],
        Screen::Inspect => vec![
            section("inspect", vec![("r/s", "view rows"), ("/", "filter columns"), ("q/Esc", "back")]),
        ],
        Screen::Records => vec![
            section(
                "navigate",
                vec![("j/k", "row / field"), ("h/l", "field / row"), ("n/p", "next/prev page")],
            ),
            section("actions", vec![("q/Esc", "close")]),
        ],
    };
    assert(sections_match(r@, help_spec(*screen)));
    r
}

} // verus!
