use lazysql::text::char_len_utf8;
use lazysql::ui::records::{data_cell_look, field_looks, header_cell_look, record_label, records_title, CellLook};
use lazysql::db::repo::sql_repo::{ConstraintType, FkRef, IndexInfo, TableDetails, TableField};
use lazysql::state::connection::form::FormState;
use lazysql::state::connection::{ConnectionMeta, ConnectionStatus, DriverKind};
use lazysql::state::mode::AppMode;
use lazysql::state::navigation::Screen;
use lazysql::state::search::SearchState;
use lazysql::themes::builtin::fallback_theme;
use lazysql::state::sql_input::SqlResult;
use lazysql::ui::picker::{filtered_theme_names, footer_line, PickerItem, PickerView};
use lazysql::ui::popup::result_popup;
use lazysql::ui::database::{database_context, pane_border, pane_item, tables_title};
use lazysql::ui::editor::{editor_cursor_position, line_number_label, sql_editor_title};
use lazysql::config::{ConnectConfig, MySqlConfig};
use lazysql::state::app::AppState;
use lazysql::themes::palette::Color;
use lazysql::ui::bars::{hint_bar, hint_spans, mode_pill, search_bar_text};
use lazysql::ui::connect::{
    connect_error_text, connection_row_cells, details_panel, form_buttons, form_driver_line,
    form_error_line, form_status_line, driver_picker_footer, form_field_line, form_title,
    status_dot_symbol, status_indicator,
};
use lazysql::ui::help::sections_for;
use lazysql::ui::inspect::{clamped_row, field_cells, fk_list, index_list, inspect_column_widths, inspect_header};
use lazysql::ui::layout::{byte_index_for_column, centered_rect, sql_editor_text_width, Rect};
use lazysql::ui::view::{tone_color, Tone};

#[test]
fn status_dot_uses_filled_circle_symbol() {
    assert_eq!(status_dot_symbol(), "●");
}

#[test]
fn status_indicator_uses_expected_labels_and_colors() {
    assert_eq!(status_indicator(ConnectionStatus::Unknown), (Tone::Fg2, " unknown"));
    assert_eq!(status_indicator(ConnectionStatus::Online), (Tone::Green, " online"));
    assert_eq!(status_indicator(ConnectionStatus::Offline), (Tone::Red, " offline"));
}

#[test]
fn inspect_widths_use_max_visible_text_not_fill_columns() {
    let fields = vec![
        TableField {
            name: "id".into(),
            data_type: "bigint".into(),
            is_nullable: "NO".into(),
            constraint: Some(ConstraintType::PrimaryKey),
            default_value: Some("nextval('bun_migrations_id_seq')".into()),
        },
        TableField {
            name: "migrated_at".into(),
            data_type: "timestamp with time zone".into(),
            is_nullable: "NO".into(),
            constraint: None,
            default_value: Some("CURRENT_TIMESTAMP".into()),
        },
    ];
    let refs: Vec<&TableField> = fields.iter().collect();
    assert_eq!(inspect_column_widths(&refs), [11, 24, 4, 11, 32]);
}

#[test]
fn empty_hints_does_not_panic() {
    let hints: &[(&str, &str)] = &[];
    assert_eq!(hints.len(), 0);
    assert!(hint_bar(hints).is_empty());
}

#[test]
fn single_hint_produces_spans() {
    let hints = [("q", "quit")];
    assert_eq!(hints[0].0, "q");
    assert_eq!(hints[0].1, "quit");
    let segs = hint_bar(&hints);
    let texts: Vec<&str> = segs.iter().map(|s| s.text.as_str()).collect();
    assert_eq!(texts, vec!["q", ":", "quit"]);
    assert_eq!(segs[0].tone, Some(Tone::Yellow));
}

#[test]
fn renders_hint_keys_with_runtime_yellow() {
    let colors = fallback_theme().colors;
    let segs = hint_bar(&[("q", "quit"), ("a", "add")]);
    assert_eq!(segs.len(), 7);
    assert_eq!(segs[3].text, "   ");
    assert_eq!(tone_color(&colors, segs[4].tone.unwrap()), colors.yellow);
}

#[test]
fn status_hints_split_keys_and_actions() {
    let segs = hint_spans("j/k:move  /:search    plain");
    let pairs: Vec<(&str, Tone)> = segs.iter().map(|s| (s.text.as_str(), s.tone.unwrap())).collect();
    assert_eq!(
        pairs,
        vec![
            ("j/k", Tone::Yellow),
            (":", Tone::Fg2),
            ("move", Tone::Fg1),
            ("  ", Tone::Fg2),
            ("/", Tone::Yellow),
            (":", Tone::Fg2),
            ("search", Tone::Fg1),
            ("  ", Tone::Fg2),
            ("plain", Tone::Fg2),
        ]
    );
    let segs = hint_spans("theme:bad: color");
    assert_eq!(segs[0].text, "theme");
    assert_eq!(segs[2].text, "bad: color");
}

#[test]
fn mode_pill_labels() {
    assert_eq!(mode_pill(&AppMode::Normal), (" NORMAL ", Tone::Aqua));
    assert_eq!(mode_pill(&AppMode::Command), (" SQL ", Tone::Yellow));
    assert_eq!(mode_pill(&AppMode::Help), (" HELP ", Tone::Orange));
}

#[test]
fn search_bar_shows_cursor_or_filter() {
    let s = SearchState { query: "pub".into(), active: true };
    assert_eq!(search_bar_text(&s), (" / ", "pub_".to_string()));
    let s = SearchState { query: "pub".into(), active: false };
    assert_eq!(search_bar_text(&s), (" Filter ", "/pub".to_string()));
}

#[test]
fn centered_rect_is_centered() {
    let area = Rect { x: 0, y: 0, width: 100, height: 40 };
    assert_eq!(centered_rect(60, 24, area), Rect { x: 20, y: 8, width: 60, height: 24 });
    let small = Rect { x: 2, y: 1, width: 10, height: 5 };
    assert_eq!(centered_rect(50, 9, small), Rect { x: 4, y: 1, width: 5, height: 9 });
}

#[test]
fn sql_editor_width_leaves_room_for_gutter() {
    assert_eq!(sql_editor_text_width(100), 63);
    assert_eq!(sql_editor_text_width(5), 1);
    assert_eq!(sql_editor_text_width(u16::MAX), 648);
}

#[test]
fn byte_index_for_column_counts_multibyte_chars() {
    assert_eq!(byte_index_for_column("héllo", 0), 0);
    assert_eq!(byte_index_for_column("héllo", 1), 0);
    assert_eq!(byte_index_for_column("héllo", 3), 3);
    assert_eq!(byte_index_for_column("héllo", 99), 6);
}

#[test]
fn help_sections_per_screen() {
    let s = sections_for(&Screen::Database);
    assert_eq!(s.len(), 3);
    assert_eq!(s[0].title, "navigate");
    assert_eq!(s[1].entries[2], (":/c", "SQL editor"));
    assert_eq!(sections_for(&Screen::Connect)[0].entries.len(), 8);
}

#[test]
fn form_panel_masks_password_and_marks_focus() {
    let mut form = FormState::new_for_driver(DriverKind::MySql);
    form.values[5] = "sécret".into();
    form.focused = 5;
    let line = form_field_line(&form, 5);
    assert_eq!(line[0].text, "  Password (optional)");
    assert_eq!(line[0].tone, Some(Tone::Orange));
    assert_eq!(line[1].text, "******");
    let host = form_field_line(&form, 1);
    assert_eq!(host[0].text, "  Host               ");
    assert_eq!(host[0].tone, Some(Tone::Fg2));
    assert_eq!(form_title(&form), " New Connection · mysql ");
    form.editing_index = Some(0);
    assert_eq!(form_title(&form), " Edit Connection · mysql ");
}

#[test]
fn connection_rows_and_popups_text() {
    let m = ConnectionMeta {
        name: "prod".into(),
        host: "db".into(),
        port: 5432,
        db_name: "main".into(),
        user: "app".into(),
        driver: "postgres".into(),
    };
    assert_eq!(connection_row_cells(3, &m), vec![" 3", "prod", "db:5432", "postgres", "main"]);
    assert_eq!(driver_picker_footer(1, 2), "  1 of 2 drivers · type to filter");
    assert_eq!(connect_error_text("boom"), "boom\n\nPress Enter or Esc to dismiss");
}

#[test]
fn inspect_header_rows_and_footer() {
    let details = TableDetails {
        name: "users".into(),
        schema: "public".into(),
        row_count: Some(-1),
        size_pretty: None,
        fields: vec![TableField {
            name: "owner".into(),
            data_type: "int".into(),
            is_nullable: "YES".into(),
            constraint: Some(ConstraintType::ForeignKey("orgs".into())),
            default_value: Some("now()".into()),
        }],
        indexes: vec![IndexInfo { name: "users_pkey".into() }, IndexInfo { name: "users_email".into() }],
        fk_refs: vec![FkRef { from_table: "posts".into(), column: "user_id".into() }],
    };
    assert_eq!(inspect_header(&details), " public.users · -1 rows · ? · 1 columns ");
    let cells = field_cells(&details.fields[0]);
    assert_eq!(cells[2].text, "YES");
    assert_eq!(cells[2].tone, Some(Tone::Green));
    assert_eq!(cells[3].text, "FK → orgs");
    assert_eq!(cells[4].tone, Some(Tone::Aqua));
    assert_eq!(index_list(&details.indexes), "users_pkey  users_email");
    assert_eq!(fk_list(&details.fk_refs), "posts.user_id");
    assert_eq!(index_list(&vec![]), "—");
    assert_eq!(clamped_row(9, 3), 2);
    assert_eq!(clamped_row(9, 0), 0);
}

#[test]
fn tones_map_to_palette_slots() {
    let colors = fallback_theme().colors;
    assert_eq!(tone_color(&colors, Tone::BgSel), colors.bg_sel);
    assert_eq!(tone_color(&colors, Tone::Fg2), Color::Rgb(0x7c, 0x6f, 0x64));
}

#[test]
fn result_popup_describes_each_outcome() {
    let (title, body, tone) = result_popup(&SqlResult::Success { rows_affected: 3 });
    assert_eq!((title, body.as_str(), tone), (" Success ", "Rows Affected: 3\n\nPress Enter to dismiss", Tone::Green));
    let (title, body, _) = result_popup(&SqlResult::Rows { count: 12 });
    assert_eq!((title, body.as_str()), (" Success ", "Rows Returned: 12\n\nPress Enter to dismiss"));
    let (title, body, tone) = result_popup(&SqlResult::Error("SQL error: boom".into()));
    assert_eq!((title, body.as_str(), tone), (" Error ", "SQL error: boom\n\nPress Enter to dismiss", Tone::Red));
}

#[test]
fn picker_rows_scroll_to_keep_the_selection_visible() {
    let items: Vec<PickerItem> = ["a", "b", "c", "d", "e"]
        .iter()
        .map(|l| PickerItem { label: l, meta: None })
        .collect();
    let view = PickerView {
        colors: fallback_theme().colors,
        empty_message: "No themes found",
        footer: vec![],
        items: &items,
        query: "",
        selected: 9,
        title: "Select theme",
    };
    let rows = view.visible_rows(2);
    let labels: Vec<(&str, &str, bool)> = rows.iter().map(|r| (r.marker, r.label, r.selected)).collect();
    assert_eq!(labels, vec![(" ", "d", false), ("▶", "e", true)]);
    let empty = PickerView { items: &[], ..view };
    let rows = empty.visible_rows(0);
    assert_eq!(rows.len(), 1);
    assert_eq!((rows[0].marker, rows[0].label, rows[0].meta), ("", "No themes found", ""));
}

#[test]
fn theme_picker_footer_and_filter() {
    let footer = footer_line(None, 2);
    let texts: Vec<&str> = footer.iter().map(|s| s.text.as_str()).collect();
    assert_eq!(texts, vec![" 2 themes  ", "enter:select", "  ", "esc:cancel", "  ", "type to filter"]);
    let footer = footer_line(Some("unknown theme: x"), 0);
    assert_eq!(footer[0].text, " error: ");
    assert!(footer[0].bold);
    assert_eq!(footer[1].text, "unknown theme: x");
    let mut dracula = fallback_theme();
    dracula.name = "dracula".into();
    let themes = vec![fallback_theme(), dracula];
    assert_eq!(filtered_theme_names(&themes, "ra"), vec!["dracula"]);
    assert_eq!(filtered_theme_names(&themes, "Ra"), Vec::<&str>::new());
}

#[test]
fn details_panel_shows_the_visible_selection() {
    let cfg = ConnectConfig::MySql(MySqlConfig {
        name: Some("shop".into()),
        host: "db.local".into(),
        user: "root".into(),
        db_name: "orders".into(),
        port: 3306,
        password: None,
    });
    let mut state = AppState::new(vec![cfg]);
    let (title, lines) = details_panel(&state);
    assert_eq!(title, " Details · shop ");
    let texts: Vec<Vec<&str>> = lines.iter().map(|l| l.iter().map(|s| s.text.as_str()).collect()).collect();
    assert_eq!(
        texts,
        vec![
            vec!["  driver  ", "mysql"],
            vec!["  user    ", "root@db.local", "   ·   port  ", "3306"],
            vec!["  db      ", "orders"],
        ]
    );
    assert_eq!(lines[1][1].tone, Some(Tone::Purple));
    state.search.query = "nothing".into();
    let (title, lines) = details_panel(&state);
    assert_eq!(title, " Details ");
    assert_eq!(lines.len(), 1);
    assert_eq!(lines[0][0].text, "  No connection selected");
}

#[test]
fn sql_editor_frame_title_gutter_and_cursor() {
    assert_eq!(
        sql_editor_title(true),
        " SQL Editor ─── postgres ─── Ctrl+E execute · Enter newline · Tab indent · Esc close "
    );
    assert!(sql_editor_title(false).starts_with(" SQL Editor ─── — ─── "));
    assert_eq!(line_number_label(0), "  1  ");
    assert_eq!(line_number_label(41), " 42  ");
    assert_eq!(line_number_label(999), "1000  ");
    let popup = Rect { x: 10, y: 5, width: 40, height: 20 };
    assert_eq!(editor_cursor_position(popup, 2, 3), (19, 8));
    assert_eq!(editor_cursor_position(popup, 50, 100), (48, 23));
}

#[test]
fn database_panes_mark_the_focused_selection() {
    let item = pane_item("users", true, true);
    assert_eq!((item[0].text.as_str(), item[0].tone), ("▶ ", Some(Tone::Orange)));
    assert_eq!((item[1].text.as_str(), item[1].bold), ("users", true));
    let item = pane_item("posts", true, false);
    assert_eq!((item[0].text.as_str(), item[0].tone), ("  posts", Some(Tone::Fg1)));
    let item = pane_item("posts", false, true);
    assert_eq!((item[0].text.as_str(), item[0].tone), ("  posts", Some(Tone::Fg2)));
    assert_eq!(pane_border(true), Tone::Orange);
    assert_eq!(pane_border(false), Tone::Bg2);
    assert_eq!(tables_title("public", 1, 3), " Tables · public ─── 2/3 ");
    assert_eq!(tables_title("public", 0, 0), " Tables · public ─── 0/0 ");
    assert_eq!(database_context(Some("auth")), "database › auth");
    assert_eq!(database_context(None), "database");
}

#[test]
fn form_panel_lines() {
    let form = FormState::new_for_driver(DriverKind::MySql);
    let texts = |v: Vec<lazysql::ui::view::Segment>| v.into_iter().map(|s| s.text).collect::<Vec<_>>();
    assert_eq!(texts(form_driver_line(&form)), vec!["  driver             ", "mysql", "  (^d to change)"]);
    assert_eq!(texts(form_status_line(None)), vec!["  status             ", "●", " unknown"]);
    assert_eq!(texts(form_status_line(Some(ConnectionStatus::Online))), vec!["  status             ", "●", " online"]);
    let err = form_error_line("Host is required");
    assert_eq!((err[0].text.as_str(), err[0].bold, err[0].tone), (" ! ", true, Some(Tone::Red)));
    assert_eq!(texts(form_buttons()), vec!["  ", "[ Test ]", "   ", "[ Save ]", "   ", "[ Cancel ]"]);
}

#[test]
fn records_title_and_record_labels() {
    assert_eq!(records_title(42, 2, 5, false), " 42 rows · page 2/5 ");
    assert_eq!(records_title(42, 2, 5, true), " 42 rows · page 2/5 · expanded ");
    assert_eq!(record_label(10, 0), "-[ RECORD 11 ]");
}

#[test]
fn records_cells_follow_the_selection() {
    assert_eq!(header_cell_look(1, 1), CellLook { tone: Tone::Orange, bold: true, selected_bg: false });
    assert_eq!(header_cell_look(0, 1), CellLook { tone: Tone::Fg1, bold: true, selected_bg: false });
    assert_eq!(data_cell_look(2, 1, 2, 1), CellLook { tone: Tone::Orange, bold: false, selected_bg: true });
    assert_eq!(data_cell_look(2, 0, 2, 1), CellLook { tone: Tone::Fg0, bold: false, selected_bg: true });
    assert_eq!(data_cell_look(0, 1, 2, 1), CellLook { tone: Tone::Fg1, bold: false, selected_bg: false });
    assert_eq!(field_looks(true).0.tone, Tone::Orange);
    assert_eq!(field_looks(false).1.tone, Tone::Fg1);
}

#[test]
fn utf8_lengths_of_characters() {
    assert_eq!(char_len_utf8('a'), 1);
    assert_eq!(char_len_utf8('é'), 2);
    assert_eq!(char_len_utf8('€'), 3);
    assert_eq!(char_len_utf8('😀'), 4);
}
