//! The Connect screen's content: the saved-connection rows and counter, the
//! reachability indicator, the connection form panel, the details panel and
//! the driver picker rows.
use crate::state::app::{position_of, AppState};
use crate::state::connection::form::{field_labels, FormState};
use crate::config::ConnectConfig;
use crate::state::connection::{
    config_name, definition_of, ConnectionMeta, ConnectionStatus, DriverDefinition,
};
use crate::text::{
    byte_len, char_count, decimal, owned, pad_right, push_decimal, push_padded, push_repeat,
    push_str, repeat_char, u64_to_string, utf8,
};
use crate::ui::picker::segments_view;
use crate::ui::view::{toned, Segment, Tone};
use vstd::prelude::*;

verus! {

/// The dot drawn before a reachability label.
pub fn status_dot_symbol() -> (r: &'static str)
    ensures
        r@ == "●"@,
{
    "●"
}

/// The tone and label of a reachability status.
pub open spec fn status_indicator_spec(status: ConnectionStatus) -> (Tone, Seq<char>) {
    match status {
        ConnectionStatus::Unknown => (Tone::Fg2, " unknown"@),
        ConnectionStatus::Online => (Tone::Green, " online"@),
        ConnectionStatus::Offline => (Tone::Red, " offline"@),
    }
}

/// The tone and label shown for a reachability status.
pub fn status_indicator(status: ConnectionStatus) -> (r: (Tone, &'static str))
    ensures
        (r.0, r.1@) == status_indicator_spec(status),
{
    match status {
        ConnectionStatus::Unknown => (Tone::Fg2, " unknown"),
        ConnectionStatus::Online => (Tone::Green, " online"),
        ConnectionStatus::Offline => (Tone::Red, " offline"),
    }
}

/// The title of the form panel: editing or new, with the driver's label.
pub open spec fn form_title_spec(form: FormState) -> Seq<char> {
    (if form.editing_index.is_some() {
        " Edit Connection · "@
    } else {
        " New Connection · "@
    }) + definition_of(form.driver).label@ + " "@
}

/// The title of the form panel.
pub fn form_title(form: &FormState) -> (r: String)
    ensures
        r@ == form_title_spec(*form),
{
    let mut r = if form.is_editing() {
        owned(" Edit Connection · ")
    } else {
        owned(" New Connection · ")
    };
    push_str(&mut r, form.driver.label());
    push_str(&mut r, " ");
    r
}

/// The label column of form line `i`: two spaces, then the label padded to 19.
pub open spec fn form_label_spec(i: int) -> Seq<char> {
    "  "@ + pad_right(
        seq!["Name (optional)", "Host", "Port", "User", "Database", "Password (optional)"][i]@,
        19,
    )
}

/// The value shown on form line `i`: the password as one `*` per character.
pub open spec fn form_value_spec(form: FormState, i: int) -> Seq<char> {
    if i == 5 {
        repeat_char('*', form.values@[5]@.len())
    } else {
        form.values@[i]@
    }
}

/// Line `i` (0 to 5) of the form panel: the label in the focus tone (orange
/// when focused) and the value, the password masked.
pub fn form_field_line(form: &FormState, i: usize) -> (r: Vec<Segment>)
    requires
        i < 6,
    ensures
        r@.len() == 2,
        r@[0].text@ == form_label_spec(i as int),
        r@[0].tone == Some(if i == form.focused {
            Tone::Orange
        } else {
            Tone::Fg2
        }),
        r@[1].text@ == form_value_spec(*form, i as int),
        r@[1].tone == Some(Tone::Fg0),
{
    let labels = field_labels();
    let mut label = owned("  ");
    push_padded(&mut label, labels[i], 19);
    let value = if i == 5 {
        let mut v = String::new();
        push_repeat(&mut v, '*', char_count(form.values[5].as_str()));
        v
    } else {
        form.values[i].clone()
    };
    let tone = if i == form.focused {
        Tone::Orange
    } else {
        Tone::Fg2
    };
    let mut r: Vec<Segment> = Vec::new();
    r.push(toned(label, tone));
    r.push(toned(value, Tone::Fg0));
    r
}

/// Where the text cursor goes on the focused form line, counted from the
/// line's start: after the label column and the value's bytes; none on the
/// password line.
pub fn form_cursor_offset(form: &FormState) -> (r: Option<usize>)
    requires
        form.focused < 6,
        utf8(form.values@[form.focused as int]@).len() + 21 <= usize::MAX,
    ensures
        r == if form.focused == 5 {
            None
        } else {
            Some((21 + utf8(form.values@[form.focused as int]@).len()) as usize)
        },
{
    if form.focused == 5 {
        return None;
    }
    Some(21 + byte_len(&form.values[form.focused]))
}

/// The counter in the list's title: the 1-based position of the selection in
/// the visible list over the number visible; `0/n` when nothing is visible
/// out of `n`.
pub open spec fn connection_count_spec(s: AppState) -> Seq<char> {
    let v = s.visible_connections();
    if s.connections_config@.len() == 0 {
        "0/0"@
    } else if v.len() == 0 {
        "0/"@ + decimal(s.connections_config@.len())
    } else {
        decimal(
            match position_of(v, s.connect.selected) {
                Some(p) => (p + 1) as nat,
                None => 0,
            },
        ) + "/"@ + decimal(v.len())
    }
}

/// The counter in the saved-connection list's title.
pub fn connection_count_label(state: &AppState) -> (r: String)
    ensures
        r@ == connection_count_spec(*state),
{
    let total = state.connections_config.len();
    if total == 0 {
        return owned("0/0");
    }
    let visible = state.filtered_connection_indices();
    let mut r = String::new();
    if visible.len() == 0 {
        push_str(&mut r, "0/");
        push_decimal(&mut r, total as u64);
        return r;
    }
    let selected: u64 = match state.selected_filtered_connection_position() {
        Some(p) => (p as u64) + 1,
        None => 0,
    };
    push_decimal(&mut r, selected);
    push_str(&mut r, "/");
    push_decimal(&mut r, visible.len() as u64);
    r
}

/// The cells of one row of the connection list: its 1-based position, name,
/// `host:port`, driver and database.
pub fn connection_row_cells(row_number: usize, m: &ConnectionMeta) -> (r: Vec<String>)
    ensures
        r@.len() == 5,
        r@[0]@ == " "@ + decimal(row_number as nat),
        r@[1]@ == m.name@,
        r@[2]@ == m.host@ + ":"@ + decimal(m.port as nat),
        r@[3]@ == m.driver@,
        r@[4]@ == m.db_name@,
{
    let mut n = owned(" ");
    push_decimal(&mut n, row_number as u64);
    let mut hp = m.host.clone();
    push_str(&mut hp, ":");
    push_decimal(&mut hp, m.port as u64);
    let mut r: Vec<String> = Vec::new();
    r.push(n);
    r.push(m.name.clone());
    r.push(hp);
    r.push(m.driver.clone());
    r.push(m.db_name.clone());
    r
}

/// One row of the driver picker: a marker and the label padded to 12 in the
/// selection tone, then the summary.
pub fn driver_picker_row(driver: &DriverDefinition, selected: bool) -> (r: Vec<Segment>)
    ensures
        r@.len() == 3,
        r@[0].text@ == if selected {
            " ▶ "@
        } else {
            "   "@
        },
        r@[1].text@ == pad_right(driver.label@, 12),
        r@[2].text@ == driver.summary@,
        forall|k: int| 0 <= k < 2 ==> (#[trigger] r@[k]).tone == Some(if selected {
            Tone::Orange
        } else {
            Tone::Fg0
        }) && r@[k].bold == selected,
        r@[2].tone == Some(Tone::Fg2),
{
    let tone = if selected {
        Tone::Orange
    } else {
        Tone::Fg0
    };
    let prefix = if selected {
        owned(" ▶ ")
    } else {
        owned("   ")
    };
    let mut label = String::new();
    push_padded(&mut label, driver.label, 12);
    let mut r: Vec<Segment> = Vec::new();
    r.push(Segment { text: prefix, tone: Some(tone), bold: selected });
    r.push(Segment { text: label, tone: Some(tone), bold: selected });
    r.push(toned(owned(driver.summary), Tone::Fg2));
    r
}

/// The driver picker's footer: how many drivers the filter shows out of all.
pub fn driver_picker_footer(visible: usize, total: usize) -> (r: String)
    ensures
        r@ == "  "@ + decimal(visible as nat) + " of "@ + decimal(total as nat)
            + " drivers · type to filter"@,
{
    let mut r = owned("  ");
    push_decimal(&mut r, visible as u64);
    push_str(&mut r, " of ");
    push_decimal(&mut r, total as u64);
    push_str(&mut r, " drivers · type to filter");
    r
}

/// The text of the connection error popup.
pub fn connect_error_text(err: &str) -> (r: String)
    ensures
        r@ == err@ + "\n\nPress Enter or Esc to dismiss"@,
{
    let mut r = owned(err);
    push_str(&mut r, "\n\nPress Enter or Esc to dismiss");
    r
}

/// Driver label, user, host, port and database of a saved connection.
pub open spec fn connection_fields(c: ConnectConfig) -> (Seq<char>, Seq<char>, Seq<char>, u16, Seq<char>) {
    match c {
        ConnectConfig::Postgres(p) => ("postgres"@, p.user@, p.host@, p.port, p.db_name@),
        ConnectConfig::MySql(p) => ("mysql"@, p.user@, p.host@, p.port, p.db_name@),
    }
}

/// The details panel's title and lines (text and tone of each segment): the
/// selected connection when it is visible, else a placeholder.
pub open spec fn details_spec(state: AppState) -> (Seq<char>, Seq<Seq<(Seq<char>, Tone)>>) {
    let sel = state.connect.selected;
    if position_of(state.visible_connections(), sel).is_some() && sel < state.connections_config@.len() {
        let c = state.connections_config@[sel as int];
        let (driver, user, host, port, db) = connection_fields(c);
        (
            " Details · "@ + config_name(c) + " "@,
            seq![
                seq![("  driver  "@, Tone::Fg2), (driver, Tone::Blue)],
                seq![
                    ("  user    "@, Tone::Fg2),
                    (user + "@"@ + host, Tone::Purple),
                    ("   ·   port  "@, Tone::Fg2),
                    (decimal(port as nat), Tone::Fg0),
                ],
                seq![("  db      "@, Tone::Fg2), (db, Tone::Fg0)],
            ],
        )
    } else {
        (" Details "@, seq![seq![("  No connection selected"@, Tone::Fg2)]])
    }
}

/// The text and tone of each segment of each line.
pub open spec fn texts_and_tones(lines: Seq<Vec<Segment>>) -> Seq<Seq<(Seq<char>, Tone)>> {
    lines.map_values(|l: Vec<Segment>| l@.map_values(|s: Segment| (s.text@, s.tone->0)))
}

/// The details panel of the Connect screen: its title and its lines.
pub fn details_panel(state: &AppState) -> (r: (String, Vec<Vec<Segment>>))
    requires
        state.connections_config@.len() <= usize::MAX,
    ensures
        (r.0@, texts_and_tones(r.1@)) == details_spec(*state),
        forall|i: int, j: int|
            0 <= i < r.1@.len() && 0 <= j < r.1@[i]@.len() ==> (#[trigger] r.1@[i]@[j]).tone is Some
                && !r.1@[i]@[j].bold,
{
    let sel = state.connect.selected;
    let shown = state.selected_filtered_connection_position().is_some();
    if shown && sel < state.connections_config.len() {
        let m = ConnectionMeta::from(&state.connections_config[sel]);
        let mut title = owned(" Details · ");
        push_str(&mut title, m.name.as_str());
        push_str(&mut title, " ");
        let mut who = m.user.clone();
        push_str(&mut who, "@");
        push_str(&mut who, m.host.as_str());
        let mut l1: Vec<Segment> = Vec::new();
        l1.push(toned(owned("  driver  "), Tone::Fg2));
        l1.push(toned(m.driver.clone(), Tone::Blue));
        let mut l2: Vec<Segment> = Vec::new();
        l2.push(toned(owned("  user    "), Tone::Fg2));
        l2.push(toned(who, Tone::Purple));
        l2.push(toned(owned("   ·   port  "), Tone::Fg2));
        l2.push(toned(u64_to_string(m.port as u64), Tone::Fg0));
        let mut l3: Vec<Segment> = Vec::new();
        l3.push(toned(owned("  db      "), Tone::Fg2));
        l3.push(toned(m.db_name.clone(), Tone::Fg0));
        let mut lines: Vec<Vec<Segment>> = Vec::new();
        lines.push(l1);
        lines.push(l2);
        lines.push(l3);
        let ghost want = details_spec(*state);
        assert(texts_and_tones(lines@) =~= want.1) by {
            assert(texts_and_tones(lines@)[0] =~= want.1[0]);
            assert(texts_and_tones(lines@)[1] =~= want.1[1]);
            assert(texts_and_tones(lines@)[2] =~= want.1[2]);
        }
        assert(title@ =~= want.0);
        (title, lines)
    } else {
        let mut l: Vec<Segment> = Vec::new();
        l.push(toned(owned("  No connection selected"), Tone::Fg2));
        let mut lines: Vec<Vec<Segment>> = Vec::new();
        lines.push(l);
        let ghost want = details_spec(*state);
        assert(texts_and_tones(lines@) =~= want.1) by {
            assert(texts_and_tones(lines@)[0] =~= want.1[0]);
        }
        (owned(" Details "), lines)
    }
}

/// Unstyled text.
fn plain_text(text: &str) -> (s: Segment)
    ensures
        s.text@ == text@,
        s.tone.is_none(),
        !s.bold,
{
    Segment { text: owned(text), tone: None, bold: false }
}

/// Text in `tone`, bold.
fn bold_text(text: &str, tone: Tone) -> (s: Segment)
    ensures
        s.text@ == text@,
        s.tone == Some(tone),
        s.bold,
{
    Segment { text: owned(text), tone: Some(tone), bold: true }
}

/// The form's driver line: the driver's label and how to change it.
pub fn form_driver_line(form: &FormState) -> (r: Vec<Segment>)
    ensures
        segments_view(r@) == seq![
            ("  driver             "@, Some(Tone::Fg2), false),
            (definition_of(form.driver).label@, Some(Tone::Blue), false),
            ("  (^d to change)"@, Some(Tone::Fg2), false),
        ],
{
    let mut r: Vec<Segment> = Vec::new();
    r.push(toned(owned("  driver             "), Tone::Fg2));
    r.push(toned(owned(form.driver.label()), Tone::Blue));
    r.push(toned(owned("  (^d to change)"), Tone::Fg2));
    assert(segments_view(r@) =~= seq![
        ("  driver             "@, Some(Tone::Fg2), false),
        (definition_of(form.driver).label@, Some(Tone::Blue), false),
        ("  (^d to change)"@, Some(Tone::Fg2), false),
    ]);
    r
}

/// The form's status line: the draft's reachability, unknown when untested.
pub fn form_status_line(status: Option<ConnectionStatus>) -> (r: Vec<Segment>)
    ensures
        ({
            let (tone, label) = status_indicator_spec(
                match status {
                    Some(s) => s,
                    None => ConnectionStatus::Unknown,
                },
            );
            segments_view(r@) == seq![
                ("  status             "@, Some(Tone::Fg2), false),
                ("●"@, Some(tone), false),
                (label, Some(tone), false),
            ]
        }),
{
    let st = match status {
        Some(s) => s,
        None => ConnectionStatus::Unknown,
    };
    let (tone, label) = status_indicator(st);
    let mut r: Vec<Segment> = Vec::new();
    r.push(toned(owned("  status             "), Tone::Fg2));
    r.push(toned(owned(status_dot_symbol()), tone));
    r.push(toned(owned(label), tone));
    let ghost want = seq![
        ("  status             "@, Some(Tone::Fg2), false),
        ("●"@, Some(tone), false),
        (label@, Some(tone), false),
    ];
    assert(segments_view(r@) =~= want);
    r
}

/// The form's validation error line.
pub fn form_error_line(err: &str) -> (r: Vec<Segment>)
    ensures
        segments_view(r@) == seq![(" ! "@, Some(Tone::Red), true), (err@, Some(Tone::Red), false)],
{
    let mut r: Vec<Segment> = Vec::new();
    r.push(bold_text(" ! ", Tone::Red));
    r.push(toned(owned(err), Tone::Red));
    assert(segments_view(r@) =~= seq![(" ! "@, Some(Tone::Red), true), (err@, Some(Tone::Red), false)]);
    r
}

/// The form's buttons.
pub fn form_buttons() -> (r: Vec<Segment>)
    ensures
        segments_view(r@) == seq![
            ("  "@, None, false),
            ("[ Test ]"@, Some(Tone::Blue), true),
            ("   "@, None, false),
            ("[ Save ]"@, Some(Tone::Green), true),
            ("   "@, None, false),
            ("[ Cancel ]"@, Some(Tone::Red), true),
        ],
{
    let mut r: Vec<Segment> = Vec::new();
    r.push(plain_text("  "));
    r.push(bold_text("[ Test ]", Tone::Blue));
    r.push(plain_text("   "));
    r.push(bold_text("[ Save ]", Tone::Green));
    r.push(plain_text("   "));
    r.push(bold_text("[ Cancel ]", Tone::Red));
    assert(segments_view(r@) =~= seq![
        ("  "@, None, false),
        ("[ Test ]"@, Some(Tone::Blue), true),
        ("   "@, None, false),
        ("[ Save ]"@, Some(Tone::Green), true),
        ("   "@, None, false),
        ("[ Cancel ]"@, Some(Tone::Red), true),
    ]);
    r
}

} // verus!
