//! What each key does on each screen. The decisions are made here; work that
//! needs the database or the terminal is handed back as an effect for the
//! event loop to perform, which then reports its outcome.
use crate::config::ConnectConfig;
use crate::db::postgres::sql::is_returning_query;
use crate::db::repo::db_repo::{format_sql_error, sql_error_spec, DbError};
use crate::db::repo::sql_repo::{SqlExecuteResult, TableDetails};
use crate::db::statement::{first_statement, returns_rows_spec, SqlDialect};
use crate::order::string_views;
use crate::state::app::{
    lemma_visible_connections_bound, lemma_visible_lists_len, resized, schema_list, AppState,
};
use crate::state::connection::form::{config_matches, form_error, form_shows, FIELD_COUNT};
use crate::state::connection::{ActivePane, ConnectState, ConnectionStatus, FormState};
use crate::state::mode::AppMode;
use crate::state::navigation::{Router, Screen};
use crate::state::records::{
    lemma_current_page_fits, lemma_next_page_bounds, offset_after_prev, RecordsState,
};
use crate::state::search::SearchState;
use crate::themes::picker::{clamped, lemma_visible_len};
use crate::state::sql_input::{
    backspaced, boundary_at_or_after, boundary_at_or_before, law_history_moves,
    lemma_backspace_keeps_boundary, lemma_boundary_after, lemma_boundary_before,
    lemma_delete_keeps_boundary, lemma_insert_keeps_boundary, lemma_newline_utf8, line_end,
    line_start, newer_index, older_index, with_char_at, SqlInputState, SqlResult,
};
use crate::text::{owned, push_char, str_eq, string_pop, trim, trimmed, utf8};
use vstd::utf8::{encode_utf8_valid_utf8, is_char_boundary_start_end_of_seq};
use vstd::prelude::*;

verus! {

/// A key of the keyboard, as the handlers tell them apart.
#[derive(Debug, Clone, Copy, PartialEq, Eq, Structural)]
pub enum KeyCode {
    Char(char),
    Enter,
    Esc,
    Tab,
    BackTab,
    Backspace,
    Delete,
    Left,
    Right,
    Up,
    Down,
    /// Any other key.
    Other,
}

/// A key press with whether Control was held.
#[derive(Debug, Clone, Copy, PartialEq, Eq, Structural)]
pub struct KeyEvent {
    pub code: KeyCode,
    pub ctrl: bool,
}

/// The screen on top of the router, if any.
pub open spec fn top(router: &Router) -> Option<Screen> {
    if router.stack().len() == 0 {
        None
    } else {
        Some(router.stack().last())
    }
}

/// `screen` is `Some(Screen::Connect)`.
pub open spec fn is_connect(screen: Option<Screen>) -> bool {
    screen matches Some(Screen::Connect)
}

/// `screen` is `Some(Screen::Database)`.
pub open spec fn is_database(screen: Option<Screen>) -> bool {
    screen matches Some(Screen::Database)
}

/// The search query after one more character.
pub open spec fn query_pushed(q: Seq<char>, c: char) -> Seq<char> {
    q.push(c)
}

/// The search query after Backspace.
pub open spec fn query_popped(q: Seq<char>) -> Seq<char> {
    if q.len() == 0 {
        q
    } else {
        q.drop_last()
    }
}

/// The current screen is the Connect screen.
fn on_connect(router: &Router) -> (r: bool)
    ensures
        r == is_connect(top(router)),
{
    match router.current() {
        Some(Screen::Connect) => true,
        _ => false,
    }
}

/// The current screen is the Database screen.
fn on_database(router: &Router) -> (r: bool)
    ensures
        r == is_database(top(router)),
{
    match router.current() {
        Some(Screen::Database) => true,
        _ => false,
    }
}

/// Keeps the selections inside the filtered lists after the query changed.
fn clamp_after_query_change(state: &mut AppState, connect: bool)
    ensures
        connect ==> final(state).connect.selected == old(state).clamped_connection(),
        connect ==> final(state).schema_selected == old(state).schema_selected,
        connect ==> final(state).table_selected == old(state).table_selected,
        !connect ==> final(state).schema_selected == old(state).clamped_schema(),
        !connect ==> final(state).table_selected == old(state).clamped_table(),
        !connect ==> final(state).connect.selected == old(state).connect.selected,
        *final(state) == (AppState {
            schema_selected: final(state).schema_selected,
            table_selected: final(state).table_selected,
            connect: (ConnectState { selected: final(state).connect.selected, ..old(state).connect }),
            ..*old(state)
        }),
{
    if connect {
        state.clamp_connection_selection();
    } else {
        state.clamp_search_selections();
    }
}

/// `f` is `o` but for the search, the mode and the three selections.
pub open spec fn only_search_changed(o: AppState, f: AppState) -> bool {
    f == AppState {
        search: f.search,
        mode: f.mode,
        schema_selected: f.schema_selected,
        table_selected: f.table_selected,
        connect: ConnectState { selected: f.connect.selected, ..o.connect },
        ..o
    }
}

/// The three selections are as in `o`.
pub open spec fn same_selections(o: AppState, f: AppState) -> bool {
    f.connect.selected == o.connect.selected && f.schema_selected == o.schema_selected
        && f.table_selected == o.table_selected
}

pub open spec fn search_key(key: KeyEvent, connect: bool, database: bool, o: AppState, f: AppState) -> bool {
    &&& only_search_changed(o, f)
    &&& match key.code {
        KeyCode::Esc => f.search.query@.len() == 0 && !f.search.active && f.mode
            == AppMode::Normal && (if connect {
            f.connect.selected == (AppState { search: f.search, ..o }).first_connection()
                && f.schema_selected == o.schema_selected && f.table_selected == o.table_selected
        } else {
            f.schema_selected == 0 && f.table_selected == 0 && f.connect.selected
                == o.connect.selected
        }),
        KeyCode::Enter => f.search.query == o.search.query && !f.search.active && f.mode
            == AppMode::Normal && same_selections(o, f),
        KeyCode::Backspace => f.search.query@ == query_popped(o.search.query@)
            && f.search.active == o.search.active && f.mode == o.mode && searched_clamp(
            &o,
            &f,
            connect,
        ),
        KeyCode::Char(c) => f.search.query@ == query_pushed(o.search.query@, c)
            && f.search.active == o.search.active && f.mode == o.mode && searched_clamp(
            &o,
            &f,
            connect,
        ),
        KeyCode::Down => f.search == o.search && f.mode == o.mode && (if connect {
            f.connect.selected == o.next_connection() && f.schema_selected == o.schema_selected
                && f.table_selected == o.table_selected
        } else if database {
            moved_down(&o, &f) && f.connect.selected == o.connect.selected
        } else {
            same_selections(o, f)
        }),
        KeyCode::Up => f.search == o.search && f.mode == o.mode && (if connect {
            f.connect.selected == o.prev_connection() && f.schema_selected == o.schema_selected
                && f.table_selected == o.table_selected
        } else if database {
            moved_up(&o, &f) && f.connect.selected == o.connect.selected
        } else {
            same_selections(o, f)
        }),
        _ => f == o,
    }
}

/// Keys typed while the search bar is active: edit the query, move within
/// the filtered list, confirm (Enter) or clear it (Esc).
pub fn handle_search(key: KeyEvent, state: &mut AppState, router: &Router)
    requires
        is_database(top(router)) ==> pane_can_move_down(*old(state)),
    ensures
        search_key(key, is_connect(top(router)), is_database(top(router)), *old(state), *final(state)),
{
    let connect = on_connect(router);
    match key.code {
        KeyCode::Esc => {
            state.search.reset();
            if connect {
                state.select_first_filtered_connection();
            } else {
                state.schema_selected = 0;
                state.table_selected = 0;
            }
            state.mode = AppMode::Normal;
        },
        KeyCode::Enter => {
            state.search.close();
            state.mode = AppMode::Normal;
        },
        KeyCode::Backspace => {
            string_pop(&mut state.search.query);
            clamp_after_query_change(state, connect);
        },
        KeyCode::Char(c) => {
            push_char(&mut state.search.query, c);
            clamp_after_query_change(state, connect);
        },
        KeyCode::Down => {
            if connect {
                state.select_next_filtered_connection();
            } else if on_database(router) {
                move_down_in_pane(state);
            }
        },
        KeyCode::Up => {
            if connect {
                state.select_prev_filtered_connection();
            } else if on_database(router) {
                move_up_in_pane(state);
            }
        },
        _ => {},
    }
}

/// After a query edit from `o` to `f`: the selections are clamped to what the
/// new query shows (the connection selection on the Connect screen, else the
/// schema and table selections).
pub open spec fn searched_clamp(o: &AppState, f: &AppState, connect: bool) -> bool {
    let mid = AppState { search: f.search, ..*o };
    if connect {
        f.connect.selected == mid.clamped_connection() && f.schema_selected == o.schema_selected
            && f.table_selected == o.table_selected
    } else {
        f.schema_selected == mid.clamped_schema() && f.table_selected == mid.clamped_table()
            && f.connect.selected == o.connect.selected
    }
}

/// The visible tables of the selected schema (of none when no schema is
/// selected).
pub open spec fn selected_tables(s: &AppState) -> Seq<Seq<char>> {
    s.visible_tables(
        match s.selected_schema() {
            Some(x) => x,
            None => Seq::empty(),
        },
    )
}

/// Moving down the focused pane of the Database screen, wrapping.
pub open spec fn moved_down(o: &AppState, f: &AppState) -> bool {
    if o.active_pane == ActivePane::Schemas {
        let len = o.visible_schemas().len();
        f.schema_selected == (if len > 0 {
            ((o.schema_selected + 1) % (len as int)) as usize
        } else {
            o.schema_selected
        }) && f.table_selected == o.table_selected
    } else {
        let len = selected_tables(o).len();
        f.table_selected == (if len > 0 {
            ((o.table_selected + 1) % (len as int)) as usize
        } else {
            o.table_selected
        }) && f.schema_selected == o.schema_selected
    }
}

/// Moving up the focused pane of the Database screen, wrapping.
pub open spec fn moved_up(o: &AppState, f: &AppState) -> bool {
    if o.active_pane == ActivePane::Schemas {
        f.schema_selected == o.prev_schema() && f.table_selected == o.table_selected
    } else {
        f.table_selected == o.prev_table(
            match o.selected_schema() {
                Some(x) => x,
                None => Seq::empty(),
            },
        ) && f.schema_selected == o.schema_selected
    }
}

/// The name of the selected schema, or an empty name without one.
fn selected_schema_or_empty(state: &AppState) -> (r: String)
    ensures
        r@ == match state.selected_schema() {
            Some(x) => x,
            None => Seq::empty(),
        },
{
    match state.selected_schema_name() {
        Some(s) => s,
        None => String::new(),
    }
}

/// The selection of the focused pane can move one row down without overflow.
pub open spec fn pane_can_move_down(s: AppState) -> bool {
    if s.active_pane == ActivePane::Schemas {
        s.schema_selected < usize::MAX
    } else {
        s.table_selected < usize::MAX
    }
}

/// Moves the selection of the focused pane down, wrapping.
fn move_down_in_pane(state: &mut AppState)
    requires
        pane_can_move_down(*old(state)),
    ensures
        moved_down(old(state), final(state)),
        *final(state) == old(state).with_selections(final(state).schema_selected, final(state).table_selected),
{
    if state.active_pane == ActivePane::Schemas {
        let len = state.filtered_schema_names().len();
        if len > 0 {
            state.schema_selected = (state.schema_selected + 1) % len;
        }
    } else {
        let schema = selected_schema_or_empty(state);
        let len = state.filtered_table_names(schema.as_str()).len();
        if len > 0 {
            state.table_selected = (state.table_selected + 1) % len;
        }
    }
}

/// Moves the selection of the focused pane up, wrapping.
fn move_up_in_pane(state: &mut AppState)
    ensures
        moved_up(old(state), final(state)),
        *final(state) == old(state).with_selections(final(state).schema_selected, final(state).table_selected),
{
    if state.active_pane == ActivePane::Schemas {
        state.select_prev_filtered_schema();
    } else {
        let schema = selected_schema_or_empty(state);
        state.select_prev_filtered_table(schema.as_str());
    }
}

/// Work a key hands back to the event loop, which performs it and reports
/// the outcome to the matching `after_*` function.
#[derive(Debug, Clone, PartialEq)]
pub enum Effect {
    /// Nothing more to do.
    Done,
    /// Quit the application.
    Quit,
    /// Load the details of `table` in `schema`; on success show the Inspect
    /// screen.
    LoadTableDetails { schema: String, table: String },
    /// Load `table` and the first page of its records; on success show the
    /// Records screen.
    LoadRecords { table: String },
    /// Probe every saved connection.
    RefreshStatuses,
    /// Persist the saved connections.
    SaveConnections,
    /// Connect to the selected connection and load its schemas; on success
    /// show the Database screen.
    Connect,
    /// Persist the saved connections, then probe connection `refresh` when
    /// given.
    SavedForm { refresh: Option<usize> },
    /// Probe the connection the form describes.
    TestFormConnection,
    /// Run the SQL editor's query and show its rows.
    ExecuteSqlForRecords,
    /// Run the SQL editor's statement and show its outcome.
    ExecuteSql,
    /// Fetch the current page of records and select its first row; on failure
    /// go back one page.
    FetchNextPage,
    /// Fetch the current page of records and select its first row; on failure
    /// go forward one page.
    FetchPrevPage,
    /// Fetch the current page of records and select its last row; on failure
    /// go forward one page.
    FetchPrevPageToLastRow,
    /// Save `name` as the selected theme and apply it.
    SaveTheme { name: String },
}

/// The selected table of the filtered table list of the selected schema.
pub open spec fn chosen_table(s: &AppState) -> Option<Seq<char>> {
    if s.table_selected < selected_tables(s).len() {
        Some(selected_tables(s)[s.table_selected as int])
    } else {
        None
    }
}

/// The stack after going back one screen.
pub open spec fn popped(stack: Seq<Screen>) -> Seq<Screen> {
    if stack.len() > 1 {
        stack.drop_last()
    } else {
        stack
    }
}

/// The search is cleared and inactive.
pub open spec fn search_cleared(s: SearchState) -> bool {
    s.query@.len() == 0 && !s.active
}

/// What a key does on the Database screen, from state `o` and stack `os` to
/// state `f`, stack `fs` and effect `e`.
pub open spec fn database_key(
    key: KeyEvent,
    connected: bool,
    o: AppState,
    os: Seq<Screen>,
    f: AppState,
    fs: Seq<Screen>,
    e: Effect,
) -> bool {
    match key.code {
        KeyCode::Esc | KeyCode::Char('q') => search_cleared(f.search) && f == (AppState {
            search: f.search,
            mode: AppMode::Normal,
            ..o
        }) && fs == popped(os) && e == Effect::Done,
        KeyCode::Tab => f == (AppState {
            active_pane: if o.active_pane == ActivePane::Schemas {
                ActivePane::Tables
            } else {
                ActivePane::Schemas
            },
            ..o
        }) && fs == os && e == Effect::Done,
        KeyCode::Char('h') => e == Effect::Done && if o.active_pane == ActivePane::Tables {
            f == (AppState { active_pane: ActivePane::Schemas, ..o }) && fs == os
        } else {
            search_cleared(f.search) && f == (AppState { search: f.search, ..o }) && fs == popped(
                os,
            )
        },
        KeyCode::Down | KeyCode::Char('j') => moved_down(&o, &f) && f == o.with_selections(
            f.schema_selected,
            f.table_selected,
        ) && fs == os && e == Effect::Done,
        KeyCode::Up | KeyCode::Char('k') => moved_up(&o, &f) && f == o.with_selections(
            f.schema_selected,
            f.table_selected,
        ) && fs == os && e == Effect::Done,
        KeyCode::Char('l') | KeyCode::Enter | KeyCode::Right => fs == os && if o.active_pane
            == ActivePane::Schemas {
            &&& search_cleared(f.search)
            &&& f == (AppState {
                search: f.search,
                schema_selected: f.schema_selected,
                table_selected: 0,
                active_pane: ActivePane::Tables,
                ..o
            })
            &&& e == Effect::Done
            &&& match o.selected_schema() {
                Some(chosen) => if schema_list(o.schemas_raw@).contains(chosen) {
                    f.schema_selected < schema_list(o.schemas_raw@).len() && schema_list(
                        o.schemas_raw@,
                    )[f.schema_selected as int] == chosen
                } else {
                    f.schema_selected == 0
                },
                None => f.schema_selected == o.schema_selected,
            }
        } else {
            match chosen_table(&o) {
                Some(t) => search_cleared(f.search) && f == (AppState { search: f.search, ..o }) && (
                e matches Effect::LoadTableDetails { schema, table } && table@ == t && schema@
                    == match o.selected_schema() {
                    Some(x) => x,
                    None => Seq::empty(),
                }),
                None => f == o && e == Effect::Done,
            }
        },
        KeyCode::Char('r') => fs == os && match chosen_table(&o) {
            Some(t) => search_cleared(f.search) && f == (AppState { search: f.search, ..o }) && (
            e matches Effect::LoadRecords { table } && table@ == t),
            None => f == o && e == Effect::Done,
        },
        KeyCode::Char('/') => f == (AppState {
            search: SearchState { active: true, ..o.search },
            mode: AppMode::Search,
            ..o
        }) && fs == os && e == Effect::Done,
        KeyCode::Char(':') | KeyCode::Char('c') => fs == os && e == Effect::Done && if connected {
            f == (AppState {
                sql_input: SqlInputState { active: true, ..o.sql_input },
                mode: AppMode::Command,
                ..o
            })
        } else {
            f == o
        },
        _ => f == o && fs == os && e == Effect::Done,
    }
}

/// Keys of the Database screen: move within and between the schema and table
/// panes, open a schema or a table, view a table's rows, search, or open the
/// SQL editor when `connected`.
pub fn handle_database(
    key: KeyEvent,
    state: &mut AppState,
    router: &mut Router,
    connected: bool,
) -> (e: Effect)
    requires
        pane_can_move_down(*old(state)),
    ensures
        database_key(
            key,
            connected,
            *old(state),
            old(router).stack(),
            *final(state),
            final(router).stack(),
            e,
        ),
{
    match key.code {
        KeyCode::Esc | KeyCode::Char('q') => {
            state.search.reset();
            state.mode = AppMode::Normal;
            router.pop();
            Effect::Done
        },
        KeyCode::Tab => {
            state.active_pane = if state.active_pane == ActivePane::Schemas {
                ActivePane::Tables
            } else {
                ActivePane::Schemas
            };
            Effect::Done
        },
        KeyCode::Char('h') => {
            if state.active_pane == ActivePane::Tables {
                state.active_pane = ActivePane::Schemas;
            } else {
                state.search.reset();
                router.pop();
            }
            Effect::Done
        },
        KeyCode::Down | KeyCode::Char('j') => {
            move_down_in_pane(state);
            Effect::Done
        },
        KeyCode::Up | KeyCode::Char('k') => {
            move_up_in_pane(state);
            Effect::Done
        },
        KeyCode::Char('l') | KeyCode::Enter | KeyCode::Right => {
            if state.active_pane == ActivePane::Schemas {
                open_selected_schema(state);
                Effect::Done
            } else {
                let schema = selected_schema_or_empty(state);
                match selected_table_name(state) {
                    Some(table) => {
                        state.search.reset();
                        Effect::LoadTableDetails { schema, table }
                    },
                    None => Effect::Done,
                }
            }
        },
        KeyCode::Char('r') => match selected_table_name(state) {
            Some(table) => {
                state.search.reset();
                Effect::LoadRecords { table }
            },
            None => Effect::Done,
        },
        KeyCode::Char('/') => {
            state.search.open();
            state.mode = AppMode::Search;
            Effect::Done
        },
        KeyCode::Char(':') | KeyCode::Char('c') => {
            if connected {
                state.sql_input.open();
                state.mode = AppMode::Command;
            }
            Effect::Done
        },
        _ => Effect::Done,
    }
}

/// The name of the selected table of the filtered table list, if any.
fn selected_table_name(state: &AppState) -> (r: Option<String>)
    ensures
        match r {
            Some(t) => chosen_table(state) == Some(t@),
            None => chosen_table(state).is_none(),
        },
{
    let schema = selected_schema_or_empty(state);
    let tables = state.filtered_table_names(schema.as_str());
    if state.table_selected < tables.len() {
        let t = tables[state.table_selected].clone();
        assert(t@ == string_views(tables@)[state.table_selected as int]);
        Some(t)
    } else {
        None
    }
}

/// Opens the selected schema: clears the search, selects it in the full
/// schema list and focuses the table pane.
fn open_selected_schema(state: &mut AppState)
    ensures
        search_cleared(final(state).search),
        final(state).table_selected == 0,
        final(state).active_pane == ActivePane::Tables,
        *final(state) == (AppState {
            search: final(state).search,
            schema_selected: final(state).schema_selected,
            table_selected: final(state).table_selected,
            active_pane: final(state).active_pane,
            ..*old(state)
        }),
        match old(state).selected_schema() {
            Some(chosen) => if schema_list(old(state).schemas_raw@).contains(chosen) {
                final(state).schema_selected < schema_list(old(state).schemas_raw@).len()
                    && schema_list(old(state).schemas_raw@)[final(state).schema_selected as int]
                    == chosen
            } else {
                final(state).schema_selected == 0
            },
            None => final(state).schema_selected == old(state).schema_selected,
        },
{
    let chosen = state.selected_schema_name();
    let names = state.schema_names();
    state.search.reset();
    state.table_selected = 0;
    if let Some(name) = chosen {
        let n = names.len();
        let mut p: usize = 0;
        let mut found = false;
        while p < n && !found
            invariant
                n == names@.len(),
                p <= n,
                found ==> p < n && names@[p as int]@ == name@,
                !found ==> forall|j: int| 0 <= j < p ==> (#[trigger] names@[j])@ != name@,
            decreases n - p + if found {
                0int
            } else {
                1int
            },
        {
            if str_eq(names[p].as_str(), name.as_str()) {
                found = true;
            } else {
                p += 1;
            }
        }
        proof {
            let l = string_views(names@);
            if l.contains(name@) {
                let k = choose|k: int| 0 <= k < l.len() && l[k] == name@;
                assert(names@[k]@ == name@);
            }
            if found {
                assert(l[p as int] == name@);
            }
        }
        state.schema_selected = if found {
            p
        } else {
            0
        };
    }
    state.active_pane = ActivePane::Tables;
}

pub open spec fn picker_key(key: KeyEvent, o: AppState, f: AppState) -> bool {
    let picker_only = f == (AppState {
        connect: ConnectState { driver_picker: f.connect.driver_picker, ..o.connect },
        ..o
    });
    match key.code {
        KeyCode::Esc => f == (AppState {
            connect: ConnectState {
                driver_picker_open: false,
                driver_picker: f.connect.driver_picker,
                ..o.connect
            },
            mode: AppMode::Normal,
            ..o
        }) && f.connect.driver_picker.query@.len() == 0 && f.connect.driver_picker.selected == 0,
        KeyCode::Enter => match o.connect.driver_picker.selected_spec() {
            None => f == o,
            Some(d) => {
                &&& f == (AppState {
                    form: f.form,
                    connect: ConnectState {
                        form_open: true,
                        driver_picker_open: false,
                        draft_status: None,
                        error: None,
                        driver_picker: f.connect.driver_picker,
                        ..o.connect
                    },
                    mode: AppMode::Insert,
                    ..o
                })
                &&& f.connect.driver_picker.query@.len() == 0
                &&& f.connect.driver_picker.selected == 0
                &&& f.form.driver == d.kind
                &&& f.form.is_fresh_for(d.kind)
            },
        },
        KeyCode::Down | KeyCode::Char('j') => picker_only && f.connect.driver_picker.selected
            == o.connect.driver_picker.next_spec() && f.connect.driver_picker.query
            == o.connect.driver_picker.query,
        KeyCode::Up | KeyCode::Char('k') => picker_only && f.connect.driver_picker.selected
            == o.connect.driver_picker.prev_spec() && f.connect.driver_picker.query
            == o.connect.driver_picker.query,
        KeyCode::Backspace => picker_only && f.connect.driver_picker.query@ == query_popped(
            o.connect.driver_picker.query@,
        ) && f.connect.driver_picker.selected == (crate::state::connection::DriverPickerState {
            query: f.connect.driver_picker.query,
            ..o.connect.driver_picker
        }).clamped_spec(),
        KeyCode::Char(c) => picker_only && f.connect.driver_picker.query@
            == o.connect.driver_picker.query@.push(c) && f.connect.driver_picker.selected == (
        crate::state::connection::DriverPickerState {
            query: f.connect.driver_picker.query,
            ..o.connect.driver_picker
        }).clamped_spec(),
        _ => f == o,
    }
}

/// Keys of the driver picker: filter, move, pick a driver (opening the form
/// for it) or close the picker.
pub fn handle_driver_picker(key: KeyEvent, state: &mut AppState)
    ensures
        picker_key(key, *old(state), *final(state)),
{
    match key.code {
        KeyCode::Esc => {
            state.connect.close_driver_picker();
            state.mode = AppMode::Normal;
        },
        KeyCode::Enter => {
            match state.connect.driver_picker.selected_driver() {
                None => {},
                Some(driver) => {
                    state.form = FormState::new_for_driver(driver.kind);
                    state.connect.close_driver_picker();
                    state.connect.open_form();
                    state.mode = AppMode::Insert;
                },
            }
        },
        KeyCode::Down | KeyCode::Char('j') => state.connect.driver_picker.select_next(),
        KeyCode::Up | KeyCode::Char('k') => state.connect.driver_picker.select_prev(),
        KeyCode::Backspace => {
            string_pop(&mut state.connect.driver_picker.query);
            state.connect.driver_picker.clamp_selection();
        },
        KeyCode::Char(c) => {
            push_char(&mut state.connect.driver_picker.query, c);
            state.connect.driver_picker.clamp_selection();
        },
        _ => {},
    }
}

/// The saved connections after saving the form's config `cfg`: it replaces
/// the edited connection, or is appended when not editing.
pub open spec fn saved_configs(o: AppState, cfg: ConnectConfig) -> Seq<ConnectConfig> {
    match o.form.editing_index {
        Some(i) => if i < o.connections_config@.len() {
            o.connections_config@.update(i as int, cfg)
        } else {
            o.connections_config@
        },
        None => o.connections_config@.push(cfg),
    }
}

/// The selected connection after saving the form: the edited or appended one.
pub open spec fn saved_selection(o: AppState) -> usize {
    match o.form.editing_index {
        Some(i) => if i < o.connections_config@.len() {
            i
        } else {
            o.connect.selected
        },
        None => o.connections_config@.len() as usize,
    }
}

/// The statuses after saving the form: aligned with the connections, with the
/// draft's tested status recorded for the saved connection.
pub open spec fn saved_statuses(o: AppState, n: int) -> Seq<ConnectionStatus> {
    let r = resized(o.connection_statuses@, n);
    match o.connect.draft_status {
        Some(st) => if saved_selection(o) < r.len() {
            r.update(saved_selection(o) as int, st)
        } else {
            r
        },
        None => r,
    }
}

/// What saving the form does, from state `o` and stack `os` to state `f`,
/// stack `fs` and effect `e`: a valid config is saved into the connection
/// list and the form closed; an invalid one leaves its message on the form.
pub open spec fn form_saved(o: AppState, os: Seq<Screen>, f: AppState, fs: Seq<Screen>, e: Effect) -> bool {
    match form_error(o.form.values@) {
        Some(msg) => (f.form.error matches Some(m) && m@ == msg) && f == (AppState {
            form: FormState { error: f.form.error, ..o.form },
            ..o
        }) && fs == os && e == Effect::Done,
        None => {
            &&& exists|cfg: ConnectConfig|
                config_matches(o.form.values@, o.form.driver, cfg)
                    && f.connections_config@ == #[trigger] saved_configs(o, cfg)
            &&& f == (AppState {
                connections_config: f.connections_config,
                connection_statuses: f.connection_statuses,
                connect: ConnectState {
                    selected: saved_selection(o),
                    form_open: false,
                    draft_status: None,
                    ..o.connect
                },
                form: f.form,
                mode: AppMode::Normal,
                ..o
            })
            &&& f.connection_statuses@ == saved_statuses(o, f.connections_config@.len() as int)
            &&& f.form.is_blank()
            &&& fs == popped(os)
            &&& e == Effect::SavedForm {
                refresh: if o.connect.draft_status.is_none() {
                    Some(saved_selection(o))
                } else {
                    None
                },
            }
        },
    }
}

/// Validates the form; a valid config is saved into the connection list and
/// the form closed, an invalid one leaves its message on the form.
pub fn save_connection_form(state: &mut AppState, router: &mut Router) -> (e: Effect)
    requires
        old(state).connections_config@.len() < usize::MAX,
    ensures
        form_saved(*old(state), old(router).stack(), *final(state), final(router).stack(), e),
{
    match state.form.to_connect_config() {
        Err(msg) => {
            state.form.error = Some(msg);
            Effect::Done
        },
        Ok(cfg) => {
            let ghost o = *state;
            let ghost c = cfg;
            state.form.error = None;
            match state.form.editing_index {
                Some(i) => {
                    if i < state.connections_config.len() {
                        state.connections_config.set(i, cfg);
                        state.connect.selected = i;
                    }
                },
                None => {
                    state.connections_config.push(cfg);
                    state.connect.selected = state.connections_config.len() - 1;
                },
            }
            assert(state.connections_config@ == saved_configs(o, c));
            state.sync_connection_statuses();
            let ghost n = state.connections_config@.len() as int;
            assert(resized(state.connection_statuses@, n) =~= state.connection_statuses@);
            assert(state.connect.selected == saved_selection(o));
            let draft = state.connect.draft_status;
            match draft {
                Some(status) => state.set_connection_status(state.connect.selected, status),
                None => {},
            }
            let refresh = match draft {
                None => Some(state.connect.selected),
                Some(_) => None,
            };
            state.form.reset();
            state.connect.close_form();
            state.mode = AppMode::Normal;
            router.pop();
            assert(state.connections_config@ == saved_configs(o, c));
            assert(config_matches(o.form.values@, o.form.driver, c));
            Effect::SavedForm { refresh }
        },
    }
}

/// The form can take the key: moving the focus does not overflow, and a key
/// that edits the focused field finds a field there.
pub open spec fn form_key_ok(key: KeyEvent, form: FormState) -> bool {
    match key.code {
        KeyCode::Tab | KeyCode::Down => form.focused < usize::MAX,
        KeyCode::BackTab | KeyCode::Up => form.focused + FIELD_COUNT <= usize::MAX,
        KeyCode::Backspace => form.focused < FIELD_COUNT,
        KeyCode::Char(c) => (key.ctrl && (c == 's' || c == 't' || c == 'd')) || form.focused
            < FIELD_COUNT,
        _ => true,
    }
}

pub open spec fn form_key(key: KeyEvent, o: AppState, os: Seq<Screen>, f: AppState, fs: Seq<Screen>, e: Effect) -> bool {
    let focus_only = f == (AppState { form: FormState { focused: f.form.focused, ..o.form }, ..o });
    let field_edited = f == (AppState {
        form: FormState { values: f.form.values, ..o.form },
        connect: ConnectState { draft_status: None, ..o.connect },
        ..o
    }) && f.form.values@ == o.form.values@.update(
        o.form.focused as int,
        f.form.values@[o.form.focused as int],
    );
    match key.code {
        KeyCode::Esc => f == (AppState {
            form: f.form,
            connect: ConnectState { form_open: false, draft_status: None, ..o.connect },
            mode: AppMode::Normal,
            ..o
        }) && f.form.is_blank() && fs == popped(os) && e == Effect::Done,
        KeyCode::Tab | KeyCode::Down => focus_only && f.form.focused == (o.form.focused + 1) % 6
            && fs == os && e == Effect::Done,
        KeyCode::BackTab | KeyCode::Up => focus_only && f.form.focused == (o.form.focused + 5) % 6
            && fs == os && e == Effect::Done,
        KeyCode::Backspace => field_edited && f.form.values@[o.form.focused as int]@
            == query_popped(o.form.values@[o.form.focused as int]@) && fs == os && e
            == Effect::Done,
        KeyCode::Enter => form_saved(o, os, f, fs, e),
        KeyCode::Char(c) => if key.ctrl && c == 's' {
            form_saved(o, os, f, fs, e)
        } else if key.ctrl && c == 't' {
            f == o && fs == os && e == Effect::TestFormConnection
        } else if key.ctrl && c == 'd' {
            f == (AppState {
                connect: ConnectState {
                    driver_picker_open: true,
                    form_open: false,
                    draft_status: None,
                    error: None,
                    ..o.connect
                },
                ..o
            }) && fs == os && e == Effect::Done
        } else {
            field_edited && f.form.values@[o.form.focused as int]@ == o.form.values@[o.form.focused as int]@.push(c)
                && fs == os && e == Effect::Done
        },
        _ => f == o && fs == os && e == Effect::Done,
    }
}

/// Keys of the connection form: move between fields, edit the focused one,
/// save (Enter or Ctrl+S), test (Ctrl+T), pick another driver (Ctrl+D) or
/// cancel (Esc).
pub fn handle_connection_form(key: KeyEvent, state: &mut AppState, router: &mut Router) -> (e: Effect)
    requires
        form_key_ok(key, old(state).form),
        old(state).connections_config@.len() < usize::MAX,
    ensures
        form_key(key, *old(state), old(router).stack(), *final(state), final(router).stack(), e),
{
    match key.code {
        KeyCode::Esc => {
            state.form.reset();
            state.connect.close_form();
            state.mode = AppMode::Normal;
            router.pop();
            Effect::Done
        },
        KeyCode::Tab | KeyCode::Down => {
            state.form.next_field();
            Effect::Done
        },
        KeyCode::BackTab | KeyCode::Up => {
            state.form.prev_field();
            Effect::Done
        },
        KeyCode::Backspace => {
            string_pop(state.form.current_value_mut());
            state.connect.draft_status = None;
            Effect::Done
        },
        KeyCode::Enter => save_connection_form(state, router),
        KeyCode::Char(c) => {
            if key.ctrl && c == 's' {
                save_connection_form(state, router)
            } else if key.ctrl && c == 't' {
                Effect::TestFormConnection
            } else if key.ctrl && c == 'd' {
                state.connect.open_driver_picker();
                Effect::Done
            } else {
                push_char(state.form.current_value_mut(), c);
                state.connect.draft_status = None;
                Effect::Done
            }
        },
        _ => Effect::Done,
    }
}

/// The connection selection after deleting the selected connection from `o`:
/// kept inside the list that remains, then clamped to the visible connections.
pub open spec fn selection_after_delete(o: AppState, f: AppState) -> bool {
    let n = f.connections_config@.len();
    let sel = if o.connect.selected >= n {
        if n > 0 {
            (n - 1) as usize
        } else {
            0usize
        }
    } else {
        o.connect.selected
    };
    let mid = AppState {
        connections_config: f.connections_config,
        connection_statuses: f.connection_statuses,
        connect: crate::state::connection::ConnectState { selected: sel, ..o.connect },
        ..o
    };
    f.connect.selected == mid.clamped_connection()
}

/// The theme picker opened: shown with an empty query and the first theme
/// selected; nothing else changes.
pub open spec fn picker_opened(o: AppState, f: AppState) -> bool {
    let q = f.theme_picker;
    &&& f == (AppState { theme_picker: q, ..o })
    &&& q.is_open()
    &&& q.query_text().len() == 0
    &&& q.selection() == 0
    &&& q.names() == o.theme_picker.names()
}

/// What a key does while the theme picker is open: filter (typed characters,
/// Backspace), move (Down or j, Up or k, wrapping), choose the highlighted
/// theme (Enter; the effect saves and applies it) or cancel (Esc). Choosing
/// and cancelling close the picker.
pub open spec fn theme_picker_key(key: KeyEvent, o: AppState, f: AppState, e: Effect) -> bool {
    let p = o.theme_picker;
    let q = f.theme_picker;
    let closed = !q.is_open() && q.query_text().len() == 0 && q.selection() == 0 && q.names()
        == p.names();
    let same_filter = q.query_text() == p.query_text() && q.is_open() == p.is_open() && q.names()
        == p.names();
    let refiltered = q.is_open() == p.is_open() && q.names() == p.names() && q.selection()
        == clamped(p.selection(), q.visible().len());
    &&& f == (AppState { theme_picker: q, ..o })
    &&& match key.code {
        KeyCode::Esc => closed && e == Effect::Done,
        KeyCode::Enter => if p.selection() < p.visible().len() {
            closed && (e matches Effect::SaveTheme { name } && name@ == p.visible()[p.selection() as int])
        } else {
            f == o && e == Effect::Done
        },
        KeyCode::Down | KeyCode::Char('j') => same_filter && e == Effect::Done && q.selection() == (
        if p.visible().len() == 0 {
            0
        } else {
            ((p.selection() + 1) % (p.visible().len() as int)) as usize
        }),
        KeyCode::Up | KeyCode::Char('k') => same_filter && e == Effect::Done && q.selection() == (
        if p.visible().len() == 0 {
            0
        } else if p.selection() == 0 {
            (p.visible().len() - 1) as usize
        } else {
            (p.selection() - 1) as usize
        }),
        KeyCode::Backspace => refiltered && e == Effect::Done && q.query_text() == (
        if p.query_text().len() == 0 {
            p.query_text()
        } else {
            p.query_text().drop_last()
        }),
        KeyCode::Char(c) => refiltered && e == Effect::Done && q.query_text() == p.query_text().push(
            c,
        ),
        _ => f == o && e == Effect::Done,
    }
}

/// Keys of the open theme picker.
pub fn handle_theme_picker(key: KeyEvent, state: &mut AppState) -> (e: Effect)
    requires
        key.code == KeyCode::Down || key.code == KeyCode::Char('j') ==> old(
            state,
        ).theme_picker.selection() < usize::MAX,
    ensures
        theme_picker_key(key, *old(state), *final(state), e),
{
    match key.code {
        KeyCode::Esc => {
            state.theme_picker.cancel();
            Effect::Done
        },
        KeyCode::Enter => {
            let chosen = match state.theme_picker.selected_name() {
                Some(n) => Some(owned(n)),
                None => None,
            };
            match chosen {
                Some(name) => {
                    state.theme_picker.cancel();
                    Effect::SaveTheme { name }
                },
                None => Effect::Done,
            }
        },
        KeyCode::Down | KeyCode::Char('j') => {
            state.theme_picker.move_next();
            Effect::Done
        },
        KeyCode::Up | KeyCode::Char('k') => {
            state.theme_picker.move_prev();
            Effect::Done
        },
        KeyCode::Backspace => {
            state.theme_picker.pop_query();
            Effect::Done
        },
        KeyCode::Char(c) => {
            state.theme_picker.push_query(c);
            Effect::Done
        },
        _ => Effect::Done,
    }
}

/// What a key does on the connection list (neither the driver picker nor the
/// form open).
pub open spec fn connect_list_key(key: KeyEvent, o: AppState, f: AppState, e: Effect) -> bool {
    let selection_only = f == (AppState {
        connect: ConnectState { selected: f.connect.selected, ..o.connect },
        ..o
    });
    match key.code {
        KeyCode::Char('t') if key.ctrl => e == Effect::Done && if o.mode == AppMode::Normal {
            picker_opened(o, f)
        } else {
            f == o
        },
        KeyCode::Down | KeyCode::Char('j') => e == Effect::Done && selection_only
            && f.connect.selected == if o.search.query@.len() > 0 {
            o.next_connection()
        } else if o.connections_config@.len() == 0 {
            o.connect.selected
        } else {
            ((o.connect.selected + 1) % (o.connections_config@.len() as int)) as usize
        },
        KeyCode::Up | KeyCode::Char('k') => e == Effect::Done && selection_only
            && f.connect.selected == if o.search.query@.len() > 0 {
            o.prev_connection()
        } else if o.connections_config@.len() == 0 {
            o.connect.selected
        } else if o.connect.selected == 0 {
            (o.connections_config@.len() - 1) as usize
        } else {
            (o.connect.selected - 1) as usize
        },
        KeyCode::Char('/') => e == Effect::Done && f == (AppState {
            search: SearchState { active: true, ..o.search },
            mode: AppMode::Search,
            ..o
        }),
        KeyCode::Char('a') => e == Effect::Done && f == (AppState {
            form: f.form,
            connect: ConnectState {
                driver_picker_open: true,
                form_open: false,
                draft_status: None,
                error: None,
                ..o.connect
            },
            mode: AppMode::Insert,
            ..o
        }) && f.form.is_blank(),
        KeyCode::Char('r') => e == Effect::RefreshStatuses && f == o,
        KeyCode::Char('e') => e == Effect::Done && if o.visible_connections().contains(o.connect.selected)
            && o.connect.selected < o.connections_config@.len() {
            &&& f == (AppState {
                form: f.form,
                connect: ConnectState {
                    form_open: true,
                    driver_picker_open: false,
                    draft_status: None,
                    error: None,
                    ..o.connect
                },
                mode: AppMode::Insert,
                ..o
            })
            &&& f.form.editing_index == Some(o.connect.selected)
            &&& f.form.focused == 0
            &&& f.form.error.is_none()
            &&& form_shows(
                f.form.values@,
                f.form.driver,
                o.connections_config@[o.connect.selected as int],
            )
        } else {
            f == o
        },
        KeyCode::Char('d') => if o.connections_config@.len() > 0 {
            let sel = o.connect.selected;
            &&& e == Effect::SaveConnections
            &&& f == (AppState {
                connections_config: f.connections_config,
                connection_statuses: f.connection_statuses,
                connect: ConnectState { selected: f.connect.selected, ..o.connect },
                ..o
            })
            &&& sel < o.connections_config@.len() ==> {
                &&& f.connections_config@ == o.connections_config@.remove(sel as int)
                &&& f.connection_statuses@ == resized(
                    if sel < o.connection_statuses@.len() {
                        o.connection_statuses@.remove(sel as int)
                    } else {
                        o.connection_statuses@
                    },
                    o.connections_config@.len() - 1,
                )
            }
            &&& sel >= o.connections_config@.len() ==> f.connections_config@
                == o.connections_config@ && f.connection_statuses@ == o.connection_statuses@
            &&& selection_after_delete(o, f)
        } else {
            f == o && e == Effect::Done
        },
        KeyCode::Char('l') | KeyCode::Enter => f == o && e == if o.visible_connections().contains(
            o.connect.selected,
        ) && o.connections_config@.len() > 0 {
            Effect::Connect
        } else {
            Effect::Done
        },
        _ => f == o && e == Effect::Done,
    }
}

/// Keys of the Connect screen: the driver picker's or the form's when one is
/// open, else those of the connection list.
pub fn handle_connect(key: KeyEvent, state: &mut AppState, router: &mut Router) -> (e: Effect)
    requires
        !old(state).connect.driver_picker_open && old(state).connect.form_open ==> form_key_ok(
            key,
            old(state).form,
        ),
        old(state).connections_config@.len() < usize::MAX,
    ensures
        !old(state).connect.driver_picker_open && !old(state).connect.form_open ==> connect_list_key(
            key,
            *old(state),
            *final(state),
            e,
        ) && final(router).stack() == old(router).stack(),
        old(state).connect.driver_picker_open ==> picker_key(key, *old(state), *final(state)) && e
            == Effect::Done && final(router).stack() == old(router).stack(),
        !old(state).connect.driver_picker_open && old(state).connect.form_open ==> form_key(
            key,
            *old(state),
            old(router).stack(),
            *final(state),
            final(router).stack(),
            e,
        ),
{
    if state.connect.driver_picker_open {
        handle_driver_picker(key, state);
        return Effect::Done;
    }
    if state.connect.form_open {
        return handle_connection_form(key, state, router);
    }
    match key.code {
        KeyCode::Char('t') if key.ctrl => {
            if state.mode == AppMode::Normal {
                state.theme_picker.open();
            }
            Effect::Done
        },
        KeyCode::Down | KeyCode::Char('j') => {
            if state.search.query.unicode_len() > 0 {
                state.select_next_filtered_connection();
            } else {
                let n = state.connections_config.len();
                state.connect.select_next(n);
            }
            Effect::Done
        },
        KeyCode::Up | KeyCode::Char('k') => {
            if state.search.query.unicode_len() > 0 {
                state.select_prev_filtered_connection();
            } else {
                let n = state.connections_config.len();
                state.connect.select_prev(n);
            }
            Effect::Done
        },
        KeyCode::Char('/') => {
            state.search.open();
            state.mode = AppMode::Search;
            Effect::Done
        },
        KeyCode::Char('a') => {
            state.form.reset();
            state.connect.open_driver_picker();
            state.mode = AppMode::Insert;
            Effect::Done
        },
        KeyCode::Char('r') => Effect::RefreshStatuses,
        KeyCode::Char('e') => {
            if state.selected_filtered_connection_position().is_none() {
                return Effect::Done;
            }
            let sel = state.connect.selected;
            if sel < state.connections_config.len() {
                state.form = FormState::from_connect_config(&state.connections_config[sel], Some(sel));
                state.connect.open_form();
                state.mode = AppMode::Insert;
            }
            Effect::Done
        },
        KeyCode::Char('d') => {
            if state.connections_config.len() == 0 {
                return Effect::Done;
            }
            let sel = state.connect.selected;
            state.remove_connection_at(sel);
            let n = state.connections_config.len();
            if state.connect.selected >= n {
                state.connect.selected = if n > 0 {
                    n - 1
                } else {
                    0
                };
            }
            state.clamp_connection_selection();
            Effect::SaveConnections
        },
        KeyCode::Char('l') | KeyCode::Enter => {
            if state.selected_filtered_connection_position().is_none() {
                return Effect::Done;
            }
            if state.connections_config.len() > 0 {
                Effect::Connect
            } else {
                Effect::Done
            }
        },
        _ => Effect::Done,
    }
}

/// What running the editor's text does: it closes the editor; blank text
/// clears it and returns to normal mode; text whose first statement returns
/// rows is run for the records viewer; anything else is run as a statement.
pub open spec fn sql_run(o: AppState, f: AppState, e: Effect) -> bool {
    let q = trim(o.sql_input.query@);
    if q.len() == 0 {
        &&& f == (AppState { sql_input: f.sql_input, mode: AppMode::Normal, ..o })
        &&& editor_cleared(f.sql_input)
        &&& e == Effect::Done
    } else {
        f == (AppState { sql_input: SqlInputState { active: false, ..o.sql_input }, ..o }) && e
            == if returns_rows_spec(first_statement(SqlDialect::Postgres, q)) {
            Effect::ExecuteSqlForRecords
        } else {
            Effect::ExecuteSql
        }
    }
}

/// The editor is empty, closed, without result and without history.
pub open spec fn editor_cleared(s: SqlInputState) -> bool {
    &&& s.query@.len() == 0
    &&& s.cursor_pos == 0
    &&& !s.active
    &&& s.result.is_none()
    &&& s.history@.len() == 0
    &&& s.history_idx.is_none()
}

/// The cursor after moving up a line: the same column, or the end of the
/// shorter line above; unchanged on the first line.
pub open spec fn cursor_after_up(s: SqlInputState) -> int {
    let b = s.bytes();
    let ls = line_start(b, s.clamped_cursor());
    let ps = line_start(b, ls - 1);
    let col = s.cursor_col();
    if s.cursor_line() == 0 {
        s.cursor_pos as int
    } else {
        ps + if col < ls - 1 - ps {
            col
        } else {
            ls - 1 - ps
        }
    }
}

/// The cursor after moving down a line: the same column, or the end of the
/// shorter line below; unchanged on the last line.
pub open spec fn cursor_after_down(s: SqlInputState) -> int {
    let b = s.bytes();
    let e = line_end(b, s.clamped_cursor());
    let ne = line_end(b, e + 1);
    let col = s.cursor_col();
    if e >= b.len() {
        s.cursor_pos as int
    } else {
        e + 1 + if col < ne - (e + 1) {
            col
        } else {
            ne - (e + 1)
        }
    }
}

/// Browsing the history one entry back: the text becomes that entry with the
/// cursor at its end; nothing changes without history.
pub open spec fn browsed_older(o: SqlInputState, f: SqlInputState) -> bool {
    &&& f.history@ == o.history@
    &&& f.active == o.active
    &&& f.result == o.result
    &&& if o.history@.len() == 0 {
        f.query == o.query && f.cursor_pos == o.cursor_pos && f.history_idx == o.history_idx
    } else {
        let idx = older_index(o.history_idx, o.history@.len() as int);
        &&& f.history_idx == Some(idx as usize)
        &&& f.query@ == o.history@[idx]@
        &&& f.cursor_pos == utf8(f.query@).len()
    }
}

/// Browsing the history one entry forward: past the newest entry the text is
/// cleared; nothing changes when not browsing.
pub open spec fn browsed_newer(o: SqlInputState, f: SqlInputState) -> bool {
    &&& f.history@ == o.history@
    &&& f.active == o.active
    &&& f.result == o.result
    &&& match o.history_idx {
        None => f.query == o.query && f.cursor_pos == o.cursor_pos && f.history_idx
            == o.history_idx,
        Some(i) => match newer_index(i as int, o.history@.len() as int) {
            None => f.history_idx.is_none() && f.query@.len() == 0 && f.cursor_pos == 0,
            Some(j) => {
                &&& f.history_idx == Some(j as usize)
                &&& f.query@ == o.history@[j]@
                &&& f.cursor_pos == utf8(f.query@).len()
            },
        },
    }
}

/// What an editing key does to the editor, from `a` to `b`.
pub open spec fn edited(key: KeyEvent, a: SqlInputState, b: SqlInputState) -> bool {
    let cp = a.cursor_pos as int;
    let len = a.bytes().len() as int;
    match key.code {
        KeyCode::Enter => b.bytes() == a.bytes().subrange(0, cp) + seq![10u8] + a.bytes().subrange(
            cp,
            len,
        ) && b.cursor_pos == cp + 1 && b.same_meta(&a),
        KeyCode::Backspace => (b.bytes(), b.cursor_pos as int) == backspaced(a.bytes(), cp)
            && b.same_meta(&a),
        KeyCode::Delete => b.cursor_pos == a.cursor_pos && b.same_meta(&a) && if cp < len {
            b.bytes() == a.bytes().subrange(0, cp) + a.bytes().subrange(
                boundary_at_or_after(a.bytes(), cp + 1),
                len,
            )
        } else {
            b.query == a.query
        },
        KeyCode::Left => b.query == a.query && b.same_meta(&a) && b.cursor_pos == if cp == 0 {
            0
        } else {
            boundary_at_or_before(a.bytes(), cp - 1)
        },
        KeyCode::Right => b.query == a.query && b.same_meta(&a) && b.cursor_pos == if cp >= len {
            cp
        } else {
            boundary_at_or_after(a.bytes(), cp + 1)
        },
        KeyCode::Up if key.ctrl => browsed_older(a, b),
        KeyCode::Down if key.ctrl => browsed_newer(a, b),
        KeyCode::Up => b.query == a.query && b.same_meta(&a) && b.cursor_pos == cursor_after_up(a),
        KeyCode::Down => b.query == a.query && b.same_meta(&a) && b.cursor_pos == cursor_after_down(
            a,
        ),
        KeyCode::Char(c) => b.bytes() == a.bytes().subrange(0, cp) + utf8(seq![c])
            + a.bytes().subrange(cp, len) && b.cursor_pos == cp + utf8(seq![c]).len() && b.same_meta(
            &a,
        ),
        _ => b == a,
    }
}

/// Closes the editor and decides how its text runs.
pub fn execute_sql_editor_query(state: &mut AppState) -> (e: Effect)
    ensures
        sql_run(*old(state), *final(state), e),
{
    state.sql_input.close();
    let query = trimmed(state.sql_input.query.as_str());
    if query.unicode_len() == 0 {
        state.sql_input.reset();
        state.mode = AppMode::Normal;
        return Effect::Done;
    }
    if is_returning_query(query.as_str()) {
        Effect::ExecuteSqlForRecords
    } else {
        Effect::ExecuteSql
    }
}

pub open spec fn editor_key(key: KeyEvent, o: AppState, f: AppState, e: Effect) -> bool {
    match key.code {
        KeyCode::Esc => f == (AppState { sql_input: f.sql_input, mode: AppMode::Normal, ..o })
            && editor_cleared(f.sql_input) && e == Effect::Done,
        KeyCode::Char('e') if key.ctrl => sql_run(o, f, e),
        KeyCode::Enter if key.ctrl => sql_run(o, f, e),
        _ => f == (AppState { sql_input: f.sql_input, ..o }) && edited(key, o.sql_input, f.sql_input)
            && e == Effect::Done,
    }
}

/// Keys of the SQL editor: edit the text, move the cursor, browse the history
/// (Ctrl+Up/Down), run the text (Ctrl+E or Ctrl+Enter) or close (Esc).
pub fn handle_sql_editor(key: KeyEvent, state: &mut AppState) -> (e: Effect)
    requires
        old(state).sql_input.editing_ok(),
    ensures
        editor_key(key, *old(state), *final(state), e),
{
    match key.code {
        KeyCode::Esc => {
            state.sql_input.reset();
            state.mode = AppMode::Normal;
            Effect::Done
        },
        KeyCode::Char('e') if key.ctrl => execute_sql_editor_query(state),
        KeyCode::Enter if key.ctrl => execute_sql_editor_query(state),
        KeyCode::Enter => {
            state.sql_input.insert_newline();
            Effect::Done
        },
        KeyCode::Backspace => {
            state.sql_input.delete_before();
            Effect::Done
        },
        KeyCode::Delete => {
            state.sql_input.delete_at();
            Effect::Done
        },
        KeyCode::Left => {
            state.sql_input.move_left();
            Effect::Done
        },
        KeyCode::Right => {
            state.sql_input.move_right();
            Effect::Done
        },
        KeyCode::Up if key.ctrl => {
            state.sql_input.history_prev();
            Effect::Done
        },
        KeyCode::Down if key.ctrl => {
            state.sql_input.history_next();
            Effect::Done
        },
        KeyCode::Up => {
            state.sql_input.move_up();
            Effect::Done
        },
        KeyCode::Down => {
            state.sql_input.move_down();
            Effect::Done
        },
        KeyCode::Char(c) => {
            state.sql_input.insert_char(c);
            Effect::Done
        },
        _ => Effect::Done,
    }
}

pub open spec fn inspect_key(key: KeyEvent, o: AppState, os: Seq<Screen>, f: AppState, fs: Seq<Screen>, e: Effect) -> bool {
    match key.code {
        KeyCode::Esc | KeyCode::Char('q') => search_cleared(f.search) && f == (AppState {
            search: f.search,
            mode: AppMode::Normal,
            ..o
        }) && fs == popped(os) && e == Effect::Done,
        KeyCode::Char('/') => f == (AppState {
            search: SearchState { active: true, ..o.search },
            mode: AppMode::Search,
            ..o
        }) && fs == os && e == Effect::Done,
        KeyCode::Char('r') | KeyCode::Char('s') => f == o && fs == os && match o.table_details {
            Some(d) => e matches Effect::LoadRecords { table } && table@ == d.name@,
            None => e == Effect::Done,
        },
        _ => f == o && fs == os && e == Effect::Done,
    }
}

/// Keys of the Inspect screen: back (Esc or q), search (/), or view the
/// table's rows (r or s).
pub fn handle_inspect(key: KeyEvent, state: &mut AppState, router: &mut Router) -> (e: Effect)
    ensures
        inspect_key(key, *old(state), old(router).stack(), *final(state), final(router).stack(), e),
{
    match key.code {
        KeyCode::Esc | KeyCode::Char('q') => {
            state.search.reset();
            state.mode = AppMode::Normal;
            router.pop();
            Effect::Done
        },
        KeyCode::Char('/') => {
            state.search.open();
            state.mode = AppMode::Search;
            Effect::Done
        },
        KeyCode::Char('r') | KeyCode::Char('s') => match &state.table_details {
            Some(d) => Effect::LoadRecords { table: d.name.clone() },
            None => Effect::Done,
        },
        _ => Effect::Done,
    }
}

/// The connection error popup takes every key while it shows on the Connect
/// screen; Enter or Esc dismisses it. Returns whether it took the key.
pub fn handle_connect_error_popup(key: KeyEvent, state: &mut AppState, router: &Router) -> (taken: bool)
    ensures
        taken == (is_connect(top(router)) && old(state).connect.error.is_some()),
        taken && (key.code == KeyCode::Enter || key.code == KeyCode::Esc) ==> *final(state) == (
        AppState { connect: (ConnectState { error: None, ..old(state).connect }), ..*old(state) }),
        !(taken && (key.code == KeyCode::Enter || key.code == KeyCode::Esc)) ==> *final(state)
            == *old(state),
{
    if !on_connect(router) || state.connect.error.is_none() {
        return false;
    }
    if key.code == KeyCode::Enter || key.code == KeyCode::Esc {
        state.connect.error = None;
    }
    true
}

/// The row selection moved down, stopping at the last row.
pub open spec fn row_below(r: RecordsState) -> usize {
    if r.selected_row + 1 < r.rows@.len() {
        (r.selected_row + 1) as usize
    } else {
        r.selected_row
    }
}

/// The column selection moved right, stopping at the last column.
pub open spec fn col_right(r: RecordsState) -> usize {
    if r.selected_col + 1 < r.columns@.len() {
        (r.selected_col + 1) as usize
    } else {
        r.selected_col
    }
}

/// The column selection moved left, stopping at the first column.
pub open spec fn col_left(r: RecordsState) -> usize {
    if r.selected_col > 0 {
        (r.selected_col - 1) as usize
    } else {
        0
    }
}

/// Moving to the next record: from the last row, on to the next page when
/// there is one (fetched by the effect), else down one row; `reset_col`
/// selects the first field too.
pub open spec fn record_down(o: AppState, f: AppState, e: Effect, reset_col: bool) -> bool {
    let r = o.records;
    let col = if reset_col {
        0
    } else {
        r.selected_col
    };
    if r.selected_row + 1 >= r.rows@.len() && r.spec_has_next_page() {
        f == (AppState {
            records: RecordsState {
                offset: (r.offset + r.rows_per_page) as u64,
                selected_col: col,
                ..r
            },
            ..o
        }) && e == Effect::FetchNextPage
    } else {
        f == (AppState {
            records: RecordsState { selected_row: row_below(r), selected_col: col, ..r },
            ..o
        }) && e == Effect::Done
    }
}

/// Moving to the previous record: from the first row, back to the previous
/// page when there is one (fetched by the effect, ending on its last row),
/// else up one row; `reset_col` selects the first field too.
pub open spec fn record_up(o: AppState, f: AppState, e: Effect, reset_col: bool) -> bool {
    let r = o.records;
    let col = if reset_col {
        0
    } else {
        r.selected_col
    };
    if r.selected_row == 0 && r.offset > 0 {
        f == (AppState {
            records: RecordsState {
                offset: offset_after_prev(r.offset as int, r.rows_per_page as int) as u64,
                selected_col: col,
                ..r
            },
            ..o
        }) && e == Effect::FetchPrevPageToLastRow
    } else {
        f == (AppState {
            records: RecordsState {
                selected_row: if r.selected_row > 0 {
                    (r.selected_row - 1) as usize
                } else {
                    0
                },
                selected_col: col,
                ..r
            },
            ..o
        }) && e == Effect::Done
    }
}

/// What a key does on the Records screen, whose table is `width` columns wide:
/// when the table does not fit it shows one record at a time (the vertical
/// layout), where up and down move between fields and left and right between
/// records; otherwise up and down move between rows and left and right between
/// columns.
pub open spec fn records_key(
    key: KeyEvent,
    width: u16,
    o: AppState,
    os: Seq<Screen>,
    f: AppState,
    fs: Seq<Screen>,
    e: Effect,
) -> bool {
    let offset_only = f == (AppState {
        records: RecordsState { offset: f.records.offset, ..o.records },
        ..o
    });
    let vertical = o.records.min_table_width > width;
    let col_only = |c: usize| f == (AppState { records: RecordsState { selected_col: c, ..o.records }, ..o }) && e == Effect::Done;
    match key.code {
        KeyCode::Esc | KeyCode::Char('q') => f == (AppState {
            records: f.records,
            mode: AppMode::Normal,
            ..o
        }) && f.records.is_empty() && fs == popped(os) && e == Effect::Done,
        KeyCode::Down | KeyCode::Char('j') => fs == os && if vertical {
            col_only(col_right(o.records))
        } else {
            record_down(o, f, e, false)
        },
        KeyCode::Up | KeyCode::Char('k') => fs == os && if vertical {
            col_only(col_left(o.records))
        } else {
            record_up(o, f, e, false)
        },
        KeyCode::Right | KeyCode::Char('l') => fs == os && if vertical {
            record_down(o, f, e, true)
        } else {
            col_only(col_right(o.records))
        },
        KeyCode::Left | KeyCode::Char('h') => fs == os && if vertical {
            record_up(o, f, e, true)
        } else {
            col_only(col_left(o.records))
        },
        KeyCode::Char('n') => fs == os && if o.records.spec_has_next_page() {
            offset_only && f.records.offset == o.records.offset + o.records.rows_per_page && e
                == Effect::FetchNextPage
        } else {
            f == o && e == Effect::Done
        },
        KeyCode::Char('p') => fs == os && if o.records.offset > 0 {
            offset_only && f.records.offset == (if o.records.offset >= o.records.rows_per_page {
                o.records.offset - o.records.rows_per_page
            } else {
                0
            }) && e == Effect::FetchPrevPage
        } else {
            f == o && e == Effect::Done
        },
        _ => f == o && fs == os && e == Effect::Done,
    }
}

/// Moves to the next record (see `record_down`).
fn move_record_down(state: &mut AppState, reset_col: bool) -> (e: Effect)
    requires
        old(state).records.spec_current_page() <= u64::MAX,
        old(state).records.spec_has_next_page() ==> old(state).records.offset
            + old(state).records.rows_per_page <= u64::MAX,
    ensures
        record_down(*old(state), *final(state), e, reset_col),
{
    let n = state.records.rows.len();
    let at_last = n == 0 || state.records.selected_row >= n - 1;
    let e = if at_last && state.records.has_next_page() {
        state.records.next_page();
        Effect::FetchNextPage
    } else {
        state.records.move_row_down();
        Effect::Done
    };
    if reset_col {
        state.records.selected_col = 0;
    }
    e
}

/// Moves to the previous record (see `record_up`).
fn move_record_up(state: &mut AppState, reset_col: bool) -> (e: Effect)
    ensures
        record_up(*old(state), *final(state), e, reset_col),
{
    let e = if state.records.selected_row == 0 && state.records.has_prev_page() {
        state.records.prev_page();
        Effect::FetchPrevPageToLastRow
    } else {
        state.records.move_row_up();
        Effect::Done
    };
    if reset_col {
        state.records.selected_col = 0;
    }
    e
}

/// Keys of the Records screen, whose table is `width` columns wide: close (Esc
/// or q), move between rows and fields (j, k, h, l and the arrows, paging at
/// the ends) or change page (n, p).
pub fn handle_records(key: KeyEvent, state: &mut AppState, router: &mut Router, width: u16) -> (e: Effect)
    requires
        old(state).records.spec_current_page() <= u64::MAX,
        old(state).records.spec_has_next_page() ==> old(state).records.offset
            + old(state).records.rows_per_page <= u64::MAX,
    ensures
        records_key(key, width, *old(state), old(router).stack(), *final(state), final(router).stack(), e),
{
    let vertical = state.records.min_table_width > width;
    match key.code {
        KeyCode::Esc | KeyCode::Char('q') => {
            state.records.reset();
            state.mode = AppMode::Normal;
            router.pop();
            Effect::Done
        },
        KeyCode::Down | KeyCode::Char('j') => {
            if vertical {
                state.records.move_col_right();
                Effect::Done
            } else {
                move_record_down(state, false)
            }
        },
        KeyCode::Up | KeyCode::Char('k') => {
            if vertical {
                state.records.move_col_left();
                Effect::Done
            } else {
                move_record_up(state, false)
            }
        },
        KeyCode::Right | KeyCode::Char('l') => {
            if vertical {
                move_record_down(state, true)
            } else {
                state.records.move_col_right();
                Effect::Done
            }
        },
        KeyCode::Left | KeyCode::Char('h') => {
            if vertical {
                move_record_up(state, true)
            } else {
                state.records.move_col_left();
                Effect::Done
            }
        },
        KeyCode::Char('n') => {
            if state.records.has_next_page() {
                state.records.next_page();
                Effect::FetchNextPage
            } else {
                Effect::Done
            }
        },
        KeyCode::Char('p') => {
            if state.records.has_prev_page() {
                state.records.prev_page();
                Effect::FetchPrevPage
            } else {
                Effect::Done
            }
        },
        _ => Effect::Done,
    }
}

/// What any key needs of the state: one more connection fits, the editor can
/// take an editing key and the records can page forward.
pub open spec fn ready_for_keys(s: AppState) -> bool {
    &&& s.connections_config@.len() < usize::MAX
    &&& s.sql_input.active ==> s.sql_input.editing_ok()
    &&& s.records.spec_current_page() <= u64::MAX
    &&& s.records.spec_has_next_page() ==> s.records.offset + s.records.rows_per_page <= u64::MAX
}

/// The state can take `key` with the screen stack `os`: what any key needs,
/// and where the key reaches them, a pane selection that can move down (the
/// Database screen and its search) and a form that can take the key.
pub open spec fn can_take_key(key: KeyEvent, o: AppState, os: Seq<Screen>) -> bool {
    let screen = if os.len() == 0 {
        None
    } else {
        Some(os.last())
    };
    let popups_free = o.mode != AppMode::Help && o.sql_input.result.is_none() && !(is_connect(
        screen,
    ) && o.connect.error.is_some());
    let layers_free = popups_free && !o.theme_picker.is_open() && !o.sql_input.active;
    &&& ready_for_keys(o)
    &&& popups_free && o.theme_picker.is_open() && (key.code == KeyCode::Down || key.code
        == KeyCode::Char('j')) ==> o.theme_picker.selection() < usize::MAX
    &&& layers_free && is_database(screen) && (o.search.active || key.code != KeyCode::Char('?'))
        ==> pane_can_move_down(o)
    &&& layers_free && !o.search.active && key.code != KeyCode::Char('?') && is_connect(screen)
        && o.connect.form_open && !o.connect.driver_picker_open ==> form_key_ok(key, o.form)
}

/// What a key does, layer by layer: the help overlay, the SQL result popup,
/// the connection error popup, the SQL editor and the search bar take keys
/// first, in that order; then `?` opens the help; else the current screen's
/// keys apply (`q` on the connection list quits; without a screen every key
/// quits).
pub open spec fn app_key(
    key: KeyEvent,
    connected: bool,
    width: u16,
    o: AppState,
    os: Seq<Screen>,
    f: AppState,
    fs: Seq<Screen>,
    e: Effect,
) -> bool {
    let screen = if os.len() == 0 {
        None
    } else {
        Some(os.last())
    };
    if o.mode == AppMode::Help {
        fs == os && e == Effect::Done && if key.code == KeyCode::Char('?') || key.code
            == KeyCode::Esc {
            f == AppState { mode: AppMode::Normal, ..o }
        } else {
            f == o
        }
    } else if o.sql_input.result.is_some() {
        fs == os && e == Effect::Done && if key.code == KeyCode::Enter || key.code == KeyCode::Esc {
            f == (AppState {
                sql_input: SqlInputState { result: None, ..o.sql_input },
                mode: AppMode::Normal,
                ..o
            })
        } else {
            f == o
        }
    } else if is_connect(screen) && o.connect.error.is_some() {
        fs == os && e == Effect::Done && if key.code == KeyCode::Enter || key.code == KeyCode::Esc {
            f == (AppState { connect: ConnectState { error: None, ..o.connect }, ..o })
        } else {
            f == o
        }
    } else if o.theme_picker.is_open() {
        fs == os && theme_picker_key(key, o, f, e)
    } else if o.sql_input.active {
        fs == os && editor_key(key, o, f, e)
    } else if o.search.active {
        fs == os && e == Effect::Done && search_key(key, is_connect(screen), is_database(screen), o, f)
    } else if key.code == KeyCode::Char('?') {
        fs == os && e == Effect::Done && f == AppState { mode: AppMode::Help, ..o }
    } else {
        match screen {
            Some(Screen::Connect) => if key.code == KeyCode::Char('q') && !o.connect.form_open {
                e == Effect::Quit && f == o && fs == os
            } else if o.connect.driver_picker_open {
                picker_key(key, o, f) && e == Effect::Done && fs == os
            } else if o.connect.form_open {
                form_key(key, o, os, f, fs, e)
            } else {
                connect_list_key(key, o, f, e) && fs == os
            },
            Some(Screen::Database) => database_key(key, connected, o, os, f, fs, e),
            Some(Screen::Inspect) => inspect_key(key, o, os, f, fs, e),
            Some(Screen::Records) => records_key(key, width, o, os, f, fs, e),
            Some(Screen::AddConnection) => f == o && fs == os && e == Effect::Done,
            None => f == o && fs == os && e == Effect::Quit,
        }
    }
}

/// Dispatches a key to the layer or screen that takes it; `connected` tells
/// whether a database connection is open. Returns the work left for the event
/// loop; `Effect::Quit` ends the application.
pub fn handle(
    key: KeyEvent,
    state: &mut AppState,
    router: &mut Router,
    connected: bool,
    width: u16,
) -> (e: Effect)
    requires
        can_take_key(key, *old(state), old(router).stack()),
    ensures
        app_key(key, connected, width, *old(state), old(router).stack(), *final(state), final(router).stack(), e),
{
    if state.mode == AppMode::Help {
        if key.code == KeyCode::Char('?') || key.code == KeyCode::Esc {
            state.mode = AppMode::Normal;
        }
        return Effect::Done;
    }
    if state.sql_input.has_result() {
        if key.code == KeyCode::Enter || key.code == KeyCode::Esc {
            state.sql_input.dismiss_result();
            state.mode = AppMode::Normal;
        }
        return Effect::Done;
    }
    if handle_connect_error_popup(key, state, router) {
        return Effect::Done;
    }
    if state.theme_picker.is_visible() {
        return handle_theme_picker(key, state);
    }
    if state.sql_input.active {
        return handle_sql_editor(key, state);
    }
    if state.search.active {
        handle_search(key, state, router);
        return Effect::Done;
    }
    if key.code == KeyCode::Char('?') {
        state.mode = AppMode::Help;
        return Effect::Done;
    }
    match router.current() {
        Some(Screen::Connect) => {
            if key.code == KeyCode::Char('q') && !state.connect.form_open {
                return Effect::Quit;
            }
            handle_connect(key, state, router)
        },
        Some(Screen::Database) => handle_database(key, state, router, connected),
        Some(Screen::Inspect) => handle_inspect(key, state, router),
        Some(Screen::Records) => handle_records(key, state, router, width),
        Some(Screen::AddConnection) => Effect::Done,
        None => Effect::Quit,
    }
}

/// Every history entry fits the editor with room for one more character.
pub open spec fn history_fits(s: SqlInputState) -> bool {
    forall|i: int|
        0 <= i < s.history@.len() ==> utf8(#[trigger] s.history@[i]@).len() + 4 <= isize::MAX
}

/// Editing keys other than moving a line up or down keep the cursor on a
/// character start of the text, short of the text's size limit.
proof fn lemma_edited_keeps_editing_ok(key: KeyEvent, a: SqlInputState, b: SqlInputState)
    requires
        a.editing_ok(),
        edited(key, a, b),
        a.bytes().len() + 8 <= isize::MAX,
        history_fits(a),
        !(!key.ctrl && (key.code == KeyCode::Up || key.code == KeyCode::Down)),
    ensures
        b.editing_ok(),
{
    let ab = a.bytes();
    let bb = b.bytes();
    let p = a.cursor_pos as int;
    encode_utf8_valid_utf8(a.query@);
    encode_utf8_valid_utf8(b.query@);
    match key.code {
        KeyCode::Enter => {
            lemma_newline_utf8();
            lemma_insert_keeps_boundary(ab, p, '\n', bb);
        },
        KeyCode::Char(c) => {
            lemma_insert_keeps_boundary(ab, p, c, bb);
        },
        KeyCode::Backspace => {
            lemma_backspace_keeps_boundary(ab, p, bb, b.cursor_pos as int);
        },
        KeyCode::Delete => {
            if p < ab.len() {
                lemma_delete_keeps_boundary(ab, p, bb);
            }
        },
        KeyCode::Left => {
            if p > 0 {
                lemma_boundary_before(ab, p - 1);
            }
        },
        KeyCode::Right => {
            if p < ab.len() {
                lemma_boundary_after(ab, p + 1);
            }
        },
        KeyCode::Up | KeyCode::Down => {
            is_char_boundary_start_end_of_seq(bb);
            match a.history_idx {
                Some(i) => law_history_moves(i, a.history@.len() as int),
                None => if a.history@.len() > 0 {
                    law_history_moves(0, a.history@.len() as int);
                },
            }
        },
        _ => {},
    }
}

/// On the Database screen, Tab switches the focus to the other pane, so two
/// Tabs give the focus back to the pane that had it, with nothing else
/// changed.
pub proof fn law_tab_switches_panes(
    connected: bool,
    o: AppState,
    os: Seq<Screen>,
    f: AppState,
    fs: Seq<Screen>,
    e1: Effect,
    g: AppState,
    gs: Seq<Screen>,
    e2: Effect,
)
    requires
        database_key(KeyEvent { code: KeyCode::Tab, ctrl: false }, connected, o, os, f, fs, e1),
        database_key(KeyEvent { code: KeyCode::Tab, ctrl: false }, connected, f, fs, g, gs, e2),
    ensures
        f.active_pane != o.active_pane,
        g == o,
        gs == os,
{
}

/// On the Database screen, Down or j moves the selection of the focused pane
/// one row down its visible list, from the last row back to the first; Up or
/// k moves it one row up, from the first row to the last. The other pane's
/// selection and the screens stay.
pub proof fn law_database_moves_wrap(
    key: KeyEvent,
    connected: bool,
    o: AppState,
    os: Seq<Screen>,
    f: AppState,
    fs: Seq<Screen>,
    e: Effect,
)
    requires
        database_key(key, connected, o, os, f, fs, e),
        key.code == KeyCode::Down || key.code == KeyCode::Char('j') || key.code == KeyCode::Up
            || key.code == KeyCode::Char('k'),
    ensures
        fs == os,
        e == Effect::Done,
        ({
            let down = key.code == KeyCode::Down || key.code == KeyCode::Char('j');
            let n = selected_tables(&o).len() as int;
            let t = o.table_selected as int;
            o.active_pane == ActivePane::Tables && n > 0 ==> f.schema_selected == o.schema_selected
                && f.table_selected == if down {
                (t + 1) % n
            } else if t == 0 {
                n - 1
            } else {
                t - 1
            }
        }),
        ({
            let down = key.code == KeyCode::Down || key.code == KeyCode::Char('j');
            let n = o.visible_schemas().len() as int;
            let s = o.schema_selected as int;
            o.active_pane == ActivePane::Schemas && n > 0 ==> f.table_selected == o.table_selected
                && f.schema_selected == if down {
                (s + 1) % n
            } else if s == 0 {
                n - 1
            } else {
                s - 1
            }
        }),
{
    lemma_visible_lists_len(o);
}

/// On the Records screen, j/k and the arrows move the selection inside the
/// page. In the table layout (the table fits the width) Down/j and Up/k move
/// one row and Right/l and Left/h one column; in the vertical layout Down/j
/// and Up/k move one field and Right/l and Left/h one record, back to its
/// first field. Each move inside the page fetches nothing.
pub proof fn law_records_moves_inside_the_page(
    key: KeyEvent,
    width: u16,
    o: AppState,
    os: Seq<Screen>,
    f: AppState,
    fs: Seq<Screen>,
    e: Effect,
)
    requires
        records_key(key, width, o, os, f, fs, e),
    ensures
        ({
            let r = o.records;
            let g = f.records;
            let table = r.min_table_width <= width;
            let down = key.code == KeyCode::Down || key.code == KeyCode::Char('j');
            let up = key.code == KeyCode::Up || key.code == KeyCode::Char('k');
            let right = key.code == KeyCode::Right || key.code == KeyCode::Char('l');
            let left = key.code == KeyCode::Left || key.code == KeyCode::Char('h');
            let rows = r.rows@.len() as int;
            let cols = r.columns@.len() as int;
            &&& (table && down && r.selected_row + 1 < rows) || (!table && right && r.selected_row
                + 1 < rows) ==> g.selected_row == r.selected_row + 1 && g.offset == r.offset && e
                == Effect::Done && fs == os
            &&& (table && up && r.selected_row > 0) || (!table && left && r.selected_row > 0)
                ==> g.selected_row == r.selected_row - 1 && g.offset == r.offset && e
                == Effect::Done && fs == os
            &&& (!table && (right || left)) ==> g.selected_col == 0
            &&& ((table && right) || (!table && down)) && r.selected_col + 1 < cols
                ==> g.selected_col == r.selected_col + 1 && g.selected_row == r.selected_row && e
                == Effect::Done
            &&& ((table && left) || (!table && up)) && r.selected_col > 0 ==> g.selected_col
                == r.selected_col - 1 && g.selected_row == r.selected_row && e == Effect::Done
        }),
{
    assert(o.records.rows.len() == o.records.rows@.len());
    assert(o.records.columns.len() == o.records.columns@.len());
}

/// On the Records screen, moving past the last row of a page asks for the
/// next page (one page further on) when there is one, and moving above the
/// first row asks for the previous page (one page back, at most to the
/// start); without such a page the selection stays and nothing is fetched.
pub proof fn law_records_moves_page_at_the_edges(
    key: KeyEvent,
    width: u16,
    o: AppState,
    os: Seq<Screen>,
    f: AppState,
    fs: Seq<Screen>,
    e: Effect,
)
    requires
        records_key(key, width, o, os, f, fs, e),
        o.records.spec_has_next_page() ==> o.records.offset + o.records.rows_per_page
            <= u64::MAX,
    ensures
        ({
            let r = o.records;
            let g = f.records;
            let table = r.min_table_width <= width;
            let next_record = (table && (key.code == KeyCode::Down || key.code == KeyCode::Char(
                'j',
            ))) || (!table && (key.code == KeyCode::Right || key.code == KeyCode::Char('l')));
            let prev_record = (table && (key.code == KeyCode::Up || key.code == KeyCode::Char('k')))
                || (!table && (key.code == KeyCode::Left || key.code == KeyCode::Char('h')));
            &&& next_record && r.selected_row + 1 >= r.rows@.len() && r.spec_has_next_page()
                ==> e == Effect::FetchNextPage && g.offset == r.offset + r.rows_per_page
                && g.selected_row == r.selected_row && fs == os
            &&& next_record && r.selected_row + 1 >= r.rows@.len() && !r.spec_has_next_page()
                ==> e == Effect::Done && g.offset == r.offset && g.selected_row == r.selected_row
            &&& prev_record && r.selected_row == 0 && r.offset > 0 ==> e
                == Effect::FetchPrevPageToLastRow && g.offset == (if r.offset >= r.rows_per_page {
                r.offset - r.rows_per_page
            } else {
                0
            }) && fs == os
            &&& prev_record && r.selected_row == 0 && r.offset == 0 ==> e == Effect::Done
                && g.offset == 0 && g.selected_row == 0
        }),
{
}

/// In the SQL editor, the editing keys change the text around the cursor:
/// Left moves the cursor back (staying at the start), Right forward (staying
/// at the end), both leaving the text; Backspace removes text before the
/// cursor and moves it back, Delete removes text after it and keeps it; a
/// typed character (or Enter, a newline) is inserted at the cursor, which
/// moves past it.
pub proof fn law_editor_keys_edit_at_the_cursor(key: KeyEvent, o: AppState, f: AppState, e: Effect)
    requires
        editor_key(key, o, f, e),
        o.sql_input.editing_ok(),
        !key.ctrl,
    ensures
        ({
            let a = o.sql_input;
            let b = f.sql_input;
            let p = a.cursor_pos as int;
            let n = a.bytes().len() as int;
            &&& key.code == KeyCode::Left ==> b.query == a.query && (if p > 0 {
                b.cursor_pos < p
            } else {
                b.cursor_pos == 0
            })
            &&& key.code == KeyCode::Right ==> b.query == a.query && (if p < n {
                p < b.cursor_pos <= n
            } else {
                b.cursor_pos == p
            })
            &&& key.code == KeyCode::Backspace ==> if p > 0 {
                b.cursor_pos < p && b.bytes().len() == n - (p - b.cursor_pos) && b.bytes().subrange(
                    0,
                    b.cursor_pos as int,
                ) == a.bytes().subrange(0, b.cursor_pos as int)
            } else {
                b.bytes() == a.bytes() && b.cursor_pos == 0
            }
            &&& key.code == KeyCode::Delete ==> b.cursor_pos == p && (if p < n {
                b.bytes().len() < n && b.bytes().subrange(0, p) == a.bytes().subrange(0, p)
            } else {
                b.bytes() == a.bytes()
            })
            &&& (key.code matches KeyCode::Char(c) ==> {
                let k = utf8(seq![c]).len() as int;
                &&& b.cursor_pos == p + k
                &&& b.bytes().len() == n + k
                &&& b.bytes().subrange(p, p + k) == utf8(seq![c])
                &&& b.bytes().subrange(0, p) == a.bytes().subrange(0, p)
            })
            &&& key.code == KeyCode::Enter ==> b.cursor_pos == p + 1 && b.bytes().len() == n + 1
                && b.bytes()[p] == 10u8
        }),
{
    let a = o.sql_input;
    let p = a.cursor_pos as int;
    encode_utf8_valid_utf8(a.query@);
    if p > 0 {
        lemma_boundary_before(a.bytes(), p - 1);
    }
    lemma_boundary_after(a.bytes(), p + 1);
}

/// In the SQL editor, Ctrl+Up loads an older query of the history (the
/// newest when not browsing, one older while browsing, staying at the oldest)
/// and Ctrl+Down a newer one (past the newest it clears the text and stops
/// browsing; when not browsing it changes nothing). A loaded query has the
/// cursor at its end, and the history itself stays.
pub proof fn law_ctrl_arrows_browse_history(key: KeyEvent, o: AppState, f: AppState, e: Effect)
    requires
        editor_key(key, o, f, e),
        key.ctrl,
        key.code == KeyCode::Up || key.code == KeyCode::Down,
        o.sql_input.history@.len() > 0,
        o.sql_input.history_idx matches Some(i) ==> i < o.sql_input.history@.len(),
    ensures
        e == Effect::Done,
        f.sql_input.history@ == o.sql_input.history@,
        ({
            let h = o.sql_input.history@;
            let n = h.len() as int;
            key.code == KeyCode::Up ==> match o.sql_input.history_idx {
                None => f.sql_input.history_idx == Some((n - 1) as usize) && f.sql_input.query@
                    == h[n - 1]@,
                Some(i) => {
                    let j: int = if i == 0 {
                        0
                    } else {
                        i - 1
                    };
                    f.sql_input.history_idx == Some(j as usize) && f.sql_input.query@ == h[j]@
                },
            }
        }),
        ({
            let h = o.sql_input.history@;
            let n = h.len() as int;
            key.code == KeyCode::Down ==> match o.sql_input.history_idx {
                None => f.sql_input.history_idx.is_none() && f.sql_input.query
                    == o.sql_input.query,
                Some(i) => if i + 1 < n {
                    f.sql_input.history_idx == Some((i + 1) as usize) && f.sql_input.query@
                        == h[i + 1]@
                } else {
                    f.sql_input.history_idx.is_none() && f.sql_input.query@.len() == 0
                },
            }
        }),
        key.code == KeyCode::Up || o.sql_input.history_idx.is_some() ==> f.sql_input.cursor_pos
            == utf8(f.sql_input.query@).len(),
{
}

/// Every key leaves the screen stack as it was or goes back one screen; the
/// screen at the bottom of a non-empty stack is never removed.
pub proof fn law_keys_keep_bottom_screen(
    key: KeyEvent,
    connected: bool,
    width: u16,
    o: AppState,
    os: Seq<Screen>,
    f: AppState,
    fs: Seq<Screen>,
    e: Effect,
)
    requires
        app_key(key, connected, width, o, os, f, fs, e),
    ensures
        fs == os || fs == popped(os),
        os.len() >= 1 ==> fs.len() >= 1 && fs[0] == os[0],
{
}

/// With no popup, theme picker, editor or search bar taking keys, `?` opens
/// the help and a second `?` closes it again, back to the state and screens
/// before.
pub proof fn law_help_round_trip(
    connected: bool,
    width: u16,
    o: AppState,
    os: Seq<Screen>,
    f: AppState,
    fs: Seq<Screen>,
    e1: Effect,
    g: AppState,
    gs: Seq<Screen>,
    e2: Effect,
)
    requires
        o.mode == AppMode::Normal,
        o.sql_input.result.is_none(),
        !o.sql_input.active,
        !o.search.active,
        o.connect.error.is_none(),
        !o.theme_picker.is_open(),
        app_key(KeyEvent { code: KeyCode::Char('?'), ctrl: false }, connected, width, o, os, f, fs, e1),
        app_key(KeyEvent { code: KeyCode::Char('?'), ctrl: false }, connected, width, f, fs, g, gs, e2),
    ensures
        f.mode == AppMode::Help,
        g == o,
        gs == os,
        e1 == Effect::Done && e2 == Effect::Done,
{
}

/// The state can take any key on any screen: what every key needs, both pane
/// selections can move down, the form's focus is on a field, and the editor's
/// text and cursor are well formed.
pub open spec fn settled(s: AppState) -> bool {
    &&& ready_for_keys(s)
    &&& s.sql_input.editing_ok()
    &&& s.schema_selected < usize::MAX
    &&& s.table_selected < usize::MAX
    &&& s.form.focused < FIELD_COUNT
    &&& s.theme_picker.selection() < usize::MAX
}

/// A settled state can take any key, whatever the screen stack.
pub proof fn law_settled_state_takes_any_key(key: KeyEvent, s: AppState, os: Seq<Screen>)
    requires
        settled(s),
    ensures
        can_take_key(key, s, os),
{
}

/// The state is short of the machine's limits: one more saved connection, a
/// few more bytes of editor text and one more page of records still fit, and
/// every history entry fits the editor.
pub open spec fn within_limits(s: AppState) -> bool {
    &&& s.connections_config@.len() + 1 < usize::MAX
    &&& s.sql_input.bytes().len() + 8 <= isize::MAX
    &&& history_fits(s.sql_input)
    &&& s.records.total_count + s.records.rows_per_page <= u64::MAX
}

/// The editor takes the key and the key moves its cursor a line up or down,
/// which keeps the byte column and can land inside a character.
pub open spec fn editor_line_move(key: KeyEvent, o: AppState, os: Seq<Screen>) -> bool {
    let screen = if os.len() == 0 {
        None
    } else {
        Some(os.last())
    };
    &&& o.mode != AppMode::Help
    &&& o.sql_input.result.is_none()
    &&& !(is_connect(screen) && o.connect.error.is_some())
    &&& !o.theme_picker.is_open()
    &&& o.sql_input.active
    &&& !key.ctrl
    &&& (key.code == KeyCode::Up || key.code == KeyCode::Down)
}

/// No popup, editor or search bar takes keys: the screen does.
pub open spec fn screen_takes_keys(o: AppState, os: Seq<Screen>) -> bool {
    let screen = if os.len() == 0 {
        None
    } else {
        Some(os.last())
    };
    &&& o.mode != AppMode::Help
    &&& o.sql_input.result.is_none()
    &&& !(is_connect(screen) && o.connect.error.is_some())
    &&& !o.theme_picker.is_open()
    &&& !o.sql_input.active
    &&& !o.search.active
}

/// The keys of the Connect screen keep a settled state settled.
proof fn lemma_connect_keys_settle(
    key: KeyEvent,
    connected: bool,
    width: u16,
    o: AppState,
    os: Seq<Screen>,
    f: AppState,
    fs: Seq<Screen>,
    e: Effect,
)
    requires
        settled(o),
        within_limits(o),
        app_key(key, connected, width, o, os, f, fs, e),
        screen_takes_keys(o, os),
        os.len() > 0 && os.last() == Screen::Connect,
    ensures
        settled(f),
{
    lemma_visible_connections_bound(o);
    let n = f.connections_config@.len();
    let sel = if o.connect.selected >= n {
        if n > 0 {
            (n - 1) as usize
        } else {
            0usize
        }
    } else {
        o.connect.selected
    };
    lemma_visible_connections_bound(
        AppState {
            connections_config: f.connections_config,
            connection_statuses: f.connection_statuses,
            connect: ConnectState { selected: sel, ..o.connect },
            ..o
        },
    );
}

/// The keys of the search bar keep a settled state settled.
proof fn lemma_search_keys_settle(
    key: KeyEvent,
    connected: bool,
    width: u16,
    o: AppState,
    os: Seq<Screen>,
    f: AppState,
    fs: Seq<Screen>,
    e: Effect,
)
    requires
        settled(o),
        within_limits(o),
        app_key(key, connected, width, o, os, f, fs, e),
        o.mode != AppMode::Help,
        o.sql_input.result.is_none(),
        !o.theme_picker.is_open(),
        !o.sql_input.active,
        o.search.active,
    ensures
        settled(f),
{
    lemma_visible_lists_len(o);
    lemma_visible_lists_len(AppState { search: f.search, ..o });
    lemma_visible_connections_bound(o);
    lemma_visible_connections_bound(AppState { search: f.search, ..o });
}

/// A settled state stays settled whatever key comes, short of the machine's
/// limits and but for moving the editor's cursor a line up or down.
pub proof fn law_settled_state_stays_settled(
    key: KeyEvent,
    connected: bool,
    width: u16,
    o: AppState,
    os: Seq<Screen>,
    f: AppState,
    fs: Seq<Screen>,
    e: Effect,
)
    requires
        settled(o),
        within_limits(o),
        !editor_line_move(key, o, os),
        app_key(key, connected, width, o, os, f, fs, e),
    ensures
        settled(f),
{
    let screen = if os.len() == 0 {
        None
    } else {
        Some(os.last())
    };
    let popup = o.mode == AppMode::Help || o.sql_input.result.is_some() || (is_connect(screen)
        && o.connect.error.is_some());
    if popup {
    } else if o.theme_picker.is_open() {
        lemma_visible_len(o.theme_picker);
        lemma_visible_len(f.theme_picker);
    } else if o.sql_input.active {
        if !(key.code == KeyCode::Esc || (key.code == KeyCode::Char('e') && key.ctrl) || (key.code
            == KeyCode::Enter && key.ctrl)) {
            lemma_edited_keeps_editing_ok(key, o.sql_input, f.sql_input);
        }
    } else if o.search.active {
        lemma_search_keys_settle(key, connected, width, o, os, f, fs, e);
    } else if screen == Some(Screen::Connect) {
        lemma_connect_keys_settle(key, connected, width, o, os, f, fs, e);
    } else {
        lemma_visible_lists_len(o);
        if o.records.spec_has_next_page() {
            lemma_next_page_bounds(o.records);
        }
        if f.records.spec_has_next_page() {
            lemma_next_page_bounds(f.records);
        }
        if f.records.offset < u64::MAX {
            lemma_current_page_fits(f.records);
        }
    }
}

/// After `Effect::Connect`: when connecting and loading the schemas worked,
/// the Database screen opens on the schema pane.
pub fn after_connect(ok: bool, state: &mut AppState, router: &mut Router)
    ensures
        ok ==> *final(state) == (AppState { active_pane: ActivePane::Schemas, ..*old(state) })
            && final(router).stack() == old(router).stack().push(Screen::Database),
        !ok ==> *final(state) == *old(state) && final(router).stack() == old(router).stack(),
{
    if ok {
        state.active_pane = ActivePane::Schemas;
        router.push(Screen::Database);
    }
}

/// After `Effect::LoadTableDetails`: loaded details are kept and the Inspect
/// screen opens.
pub fn after_table_details(details: Option<TableDetails>, state: &mut AppState, router: &mut Router)
    ensures
        match details {
            Some(d) => *final(state) == (AppState { table_details: Some(d), ..*old(state) })
                && final(router).stack() == old(router).stack().push(Screen::Inspect),
            None => *final(state) == *old(state) && final(router).stack() == old(router).stack(),
        },
{
    if let Some(d) = details {
        state.table_details = Some(d);
        router.push(Screen::Inspect);
    }
}

/// After `Effect::LoadRecords` or `Effect::ExecuteSqlForRecords`: when the
/// records loaded, the Records screen opens in result mode.
pub fn after_records(ok: bool, state: &mut AppState, router: &mut Router)
    ensures
        ok ==> *final(state) == (AppState { mode: AppMode::Result, ..*old(state) })
            && final(router).stack() == old(router).stack().push(Screen::Records),
        !ok ==> *final(state) == *old(state) && final(router).stack() == old(router).stack(),
{
    if ok {
        state.mode = AppMode::Result;
        router.push(Screen::Records);
    }
}

/// After a page fetch (`Effect::FetchNextPage`, `Effect::FetchPrevPage` or
/// `Effect::FetchPrevPageToLastRow`) loaded the rows: the page's first row is
/// selected, or its last one with `to_last_row`.
pub fn after_page_fetched(to_last_row: bool, state: &mut AppState)
    ensures
        *final(state) == (AppState {
            records: (RecordsState {
                selected_row: if to_last_row && old(state).records.rows@.len() > 0 {
                    (old(state).records.rows@.len() - 1) as usize
                } else {
                    0
                },
                ..old(state).records
            }),
            ..*old(state)
        }),
{
    let n = state.records.rows.len();
    state.records.selected_row = if to_last_row && n > 0 {
        n - 1
    } else {
        0
    };
}

/// After `Effect::FetchNextPage` failed (`next`), or `Effect::FetchPrevPage`
/// or `Effect::FetchPrevPageToLastRow` failed: the page move is undone.
pub fn after_page_fetch_failed(next: bool, state: &mut AppState)
    requires
        !next ==> old(state).records.spec_current_page() <= u64::MAX,
        !next ==> (old(state).records.spec_has_next_page() ==> old(state).records.offset
            + old(state).records.rows_per_page <= u64::MAX),
    ensures
        next ==> final(state).records.offset == if old(state).records.offset >= old(
            state,
        ).records.rows_per_page {
            old(state).records.offset - old(state).records.rows_per_page
        } else {
            0
        },
        !next ==> final(state).records.offset == if old(state).records.spec_has_next_page() {
            old(state).records.offset + old(state).records.rows_per_page
        } else {
            old(state).records.offset as int
        },
        *final(state) == (AppState {
            records: (RecordsState { offset: final(state).records.offset, ..old(state).records }),
            ..*old(state)
        }),
{
    if next {
        state.records.prev_page();
    } else {
        state.records.next_page();
    }
}

/// After `Effect::ExecuteSqlForRecords`: when the rows loaded, the editor is
/// cleared and the Records screen opens; otherwise the error shows in the
/// result popup. Either way the mode becomes Result.
pub fn after_query_records(outcome: Result<(), DbError>, state: &mut AppState, router: &mut Router)
    ensures
        final(state).mode == AppMode::Result,
        match outcome {
            Ok(_) => final(state).sql_input.query@.len() == 0 && !final(state).sql_input.active
                && final(state).sql_input.result.is_none() && final(router).stack() == old(
                router,
            ).stack().push(Screen::Records),
            Err(e) => (final(state).sql_input.result matches Some(SqlResult::Error(m)) && m@
                == sql_error_spec(e)) && final(router).stack() == old(router).stack()
                && final(state).sql_input.query == old(state).sql_input.query,
        },
        *final(state) == (AppState {
            sql_input: final(state).sql_input,
            mode: AppMode::Result,
            ..*old(state)
        }),
        outcome is Ok ==> editor_cleared(final(state).sql_input),
        outcome is Err ==> final(state).sql_input == (SqlInputState {
            result: final(state).sql_input.result,
            ..old(state).sql_input
        }),
{
    match outcome {
        Ok(_) => {
            state.sql_input.reset();
            state.mode = AppMode::Result;
            router.push(Screen::Records);
        },
        Err(e) => {
            state.sql_input.result = Some(SqlResult::Error(format_sql_error(&e)));
            state.mode = AppMode::Result;
        },
    }
}

/// After `Effect::ExecuteSql`: the outcome shows in the result popup and the
/// mode becomes Result; `None` means there was no open connection.
pub fn after_sql_statement(outcome: Option<Result<SqlExecuteResult, DbError>>, state: &mut AppState)
    requires
        outcome matches Some(Ok(SqlExecuteResult::RowsReturned(r))) ==> r.total_count <= usize::MAX,
    ensures
        final(state).mode == AppMode::Result,
        match outcome {
            None => final(state).sql_input.result matches Some(SqlResult::Error(m)) && m@
                == "No active connection"@,
            Some(Ok(SqlExecuteResult::RowsAffected(n))) => final(state).sql_input.result == Some(
                SqlResult::Success { rows_affected: n },
            ),
            Some(Ok(SqlExecuteResult::RowsReturned(r))) => final(state).sql_input.result == Some(
                SqlResult::Rows { count: r.total_count as usize },
            ),
            Some(Err(e)) => final(state).sql_input.result matches Some(SqlResult::Error(m)) && m@
                == sql_error_spec(e),
        },
        *final(state) == (AppState {
            sql_input: (SqlInputState { result: final(state).sql_input.result, ..old(state).sql_input }),
            mode: AppMode::Result,
            ..*old(state)
        }),
{
    match outcome {
        None => {
            state.sql_input.result = Some(SqlResult::Error(owned("No active connection")));
        },
        Some(o) => state.set_sql_outcome(o),
    }
    state.mode = AppMode::Result;
}

} // verus!
