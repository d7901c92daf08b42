//! Application state apart from the live database client: saved connections
//! and their statuses, the schema browser, and the states of every screen.
use crate::config::ConnectConfig;
use crate::db::repo::db_repo::{display_spec, format_sql_error, sql_error_spec, DbError};
use crate::db::repo::sql_repo::{SqlExecuteResult, Table, TableDetails, TableRef};
use crate::order::{
    insert_sorted_unique, lemma_is_sorted_unique_of, lemma_sorted_unique_len, sorted_lt,
    sorted_unique_of, string_views,
};
use crate::state::connection::form::{config_matches, form_error};
use crate::state::connection::{
    config_name, ActivePane, ConnectState, ConnectionMeta, ConnectionStatus, DriverKind, FormState,
};
use crate::state::mode::AppMode;
use crate::state::records::{RecordsSource, RecordsState};
use crate::state::search::{matches_spec, SearchState};
use crate::state::sql_input::{SqlInputState, SqlResult};
use crate::themes::picker::ThemePickerState;
use crate::text::{owned, str_eq, trim, trimmed};
use vstd::prelude::*;

verus! {

/// Application state shared by all screens.
#[derive(Debug)]
pub struct AppState {
    /// Saved connections.
    pub connections_config: Vec<ConnectConfig>,
    /// Last known reachability of each saved connection.
    pub connection_statuses: Vec<ConnectionStatus>,
    /// Current modal mode.
    pub mode: AppMode,
    /// Selected row of the filtered table list.
    pub table_selected: usize,
    /// Selected row of the filtered schema list.
    pub schema_selected: usize,
    /// Every table of the connected database with its schema.
    pub schemas_raw: Vec<TableRef>,
    /// Details of the table shown by the Inspect screen.
    pub table_details: Option<TableDetails>,
    /// Focused pane of the Database screen.
    pub active_pane: ActivePane,
    /// Table whose records are loaded.
    pub loaded_table: Option<Table>,
    /// Connections screen state.
    pub connect: ConnectState,
    /// Add/edit connection form.
    pub form: FormState,
    /// Search bar.
    pub search: SearchState,
    /// SQL editor.
    pub sql_input: SqlInputState,
    /// Records viewer.
    pub records: RecordsState,
    /// Theme picker of the Connections screen.
    pub theme_picker: ThemePickerState,
}

// ───────────────────────── spec model ─────────────────────────

/// The schema of each table entry.
pub open spec fn schema_views(raw: Seq<TableRef>) -> Seq<Seq<char>> {
    raw.map_values(|t: TableRef| t.schema@)
}

/// The distinct schema names, in increasing order.
pub open spec fn schema_list(raw: Seq<TableRef>) -> Seq<Seq<char>> {
    sorted_unique_of(schema_views(raw).to_set())
}

/// The names of the tables in `schema`, in listing order.
pub open spec fn tables_in(raw: Seq<TableRef>, schema: Seq<char>) -> Seq<Seq<char>>
    decreases raw.len(),
{
    if raw.len() == 0 {
        Seq::empty()
    } else if raw.last().schema@ == schema {
        tables_in(raw.drop_last(), schema).push(raw.last().name@)
    } else {
        tables_in(raw.drop_last(), schema)
    }
}

/// The names in `names` that the search query `q` matches, order kept.
pub open spec fn filter_names(names: Seq<Seq<char>>, q: Seq<char>) -> Seq<Seq<char>>
    decreases names.len(),
{
    if names.len() == 0 {
        names
    } else if matches_spec(q, names.last()) {
        filter_names(names.drop_last(), q).push(names.last())
    } else {
        filter_names(names.drop_last(), q)
    }
}

/// Indices below `k` of the connections whose display names match `q`.
pub open spec fn matching_indices(cs: Seq<ConnectConfig>, q: Seq<char>, k: int) -> Seq<usize>
    decreases k,
{
    if k <= 0 {
        Seq::empty()
    } else if matches_spec(q, config_name(cs[k - 1])) {
        matching_indices(cs, q, k - 1).push((k - 1) as usize)
    } else {
        matching_indices(cs, q, k - 1)
    }
}

/// `statuses` resized to `n`: cut, or extended with `Unknown`.
pub open spec fn resized(statuses: Seq<ConnectionStatus>, n: int) -> Seq<ConnectionStatus> {
    if statuses.len() >= n {
        statuses.subrange(0, n)
    } else {
        statuses + Seq::new((n - statuses.len()) as nat, |i: int| ConnectionStatus::Unknown)
    }
}

/// The first position of `x` in `s`, if any.
pub open spec fn position_of(s: Seq<usize>, x: usize) -> Option<int> {
    if s.contains(x) {
        Some(choose|p: int| 0 <= p < s.len() && s[p] == x && forall|q: int| 0 <= q < p ==> s[q] != x)
    } else {
        None
    }
}

proof fn lemma_matching_indices(cs: Seq<ConnectConfig>, q: Seq<char>, k: int)
    requires
        0 <= k <= cs.len(),
        cs.len() <= usize::MAX,
    ensures
        forall|i: int| 0 <= i < matching_indices(cs, q, k).len() ==> #[trigger] matching_indices(cs, q, k)[i] < k,
        forall|i: int, j: int|
            0 <= i < j < matching_indices(cs, q, k).len() ==> #[trigger] matching_indices(cs, q, k)[i]
                < #[trigger] matching_indices(cs, q, k)[j],
    decreases k,
{
    if k > 0 {
        lemma_matching_indices(cs, q, k - 1);
        let prev = matching_indices(cs, q, k - 1);
        let m = matching_indices(cs, q, k);
        if matches_spec(q, config_name(cs[k - 1])) {
            assert(m == prev.push((k - 1) as usize));
            assert forall|i: int| 0 <= i < m.len() implies #[trigger] m[i] < k by {
                if i < prev.len() {
                    assert(m[i] == prev[i]);
                }
            }
            assert forall|i: int, j: int| 0 <= i < j < m.len() implies #[trigger] m[i] < #[trigger] m[j] by {
                if j < prev.len() {
                    assert(m[i] == prev[i] && m[j] == prev[j]);
                } else {
                    assert(m[i] == prev[i]);
                }
            }
        }
    }
}

/// In a strictly increasing sequence an element's position is unique.
proof fn lemma_position_unique(s: Seq<usize>, x: usize, p: int)
    requires
        forall|i: int, j: int| 0 <= i < j < s.len() ==> #[trigger] s[i] < #[trigger] s[j],
        0 <= p < s.len(),
        s[p] == x,
    ensures
        position_of(s, x) == Some(p),
{
    assert(s.contains(x));
    let w = choose|w: int| 0 <= w < s.len() && s[w] == x && forall|q: int| 0 <= q < w ==> s[q] != x;
    assert(forall|q: int| 0 <= q < p ==> s[q] != x);
    if w != p {
        if w < p {
            assert(s[w] < s[p]);
        } else {
            assert(s[p] < s[w]);
        }
    }
}

impl AppState {
    /// The connection indices shown by the current search, in spec form.
    pub open spec fn visible_connections(&self) -> Seq<usize> {
        matching_indices(
            self.connections_config@,
            self.search.query@,
            self.connections_config@.len() as int,
        )
    }

    /// The schema list shown by the current search, in spec form.
    pub open spec fn visible_schemas(&self) -> Seq<Seq<char>> {
        filter_names(schema_list(self.schemas_raw@), self.search.query@)
    }

    /// The table list of `schema` shown by the current search, in spec form.
    pub open spec fn visible_tables(&self, schema: Seq<char>) -> Seq<Seq<char>> {
        filter_names(tables_in(self.schemas_raw@, schema), self.search.query@)
    }

    /// The connection selection after clamping it to the visible connections:
    /// kept when visible, else the first visible one, else 0.
    pub open spec fn clamped_connection(&self) -> usize {
        let v = self.visible_connections();
        if v.len() == 0 {
            0
        } else if v.contains(self.connect.selected) {
            self.connect.selected
        } else {
            v[0]
        }
    }

    /// The connection selected by moving down the visible list, wrapping; an
    /// invisible selection goes to the first visible connection.
    pub open spec fn next_connection(&self) -> usize {
        let v = self.visible_connections();
        if v.len() == 0 {
            self.connect.selected
        } else {
            match position_of(v, self.connect.selected) {
                None => v[0],
                Some(p) => v[(p + 1) % (v.len() as int)],
            }
        }
    }

    /// The connection selected by moving up the visible list, wrapping; an
    /// invisible selection goes to the first visible connection.
    pub open spec fn prev_connection(&self) -> usize {
        let v = self.visible_connections();
        if v.len() == 0 {
            self.connect.selected
        } else {
            match position_of(v, self.connect.selected) {
                None => v[0],
                Some(p) => if p == 0 {
                    v[v.len() - 1]
                } else {
                    v[p - 1]
                },
            }
        }
    }

    /// The first visible connection, or the current selection when none is.
    pub open spec fn first_connection(&self) -> usize {
        let v = self.visible_connections();
        if v.len() == 0 {
            self.connect.selected
        } else {
            v[0]
        }
    }

    /// The schema selection moved up the visible schemas, wrapping.
    pub open spec fn prev_schema(&self) -> int {
        let len = self.visible_schemas().len();
        if len == 0 {
            self.schema_selected as int
        } else if self.schema_selected == 0 {
            len - 1
        } else {
            self.schema_selected - 1
        }
    }

    /// The table selection moved up the visible tables of `schema`, wrapping.
    pub open spec fn prev_table(&self, schema: Seq<char>) -> int {
        let len = self.visible_tables(schema).len();
        if len == 0 {
            self.table_selected as int
        } else if self.table_selected == 0 {
            len - 1
        } else {
            self.table_selected - 1
        }
    }

    /// The schema selection limited to the visible schemas (0 when none).
    pub open spec fn clamped_schema(&self) -> int {
        let slen = self.visible_schemas().len();
        if slen == 0 {
            0
        } else if self.schema_selected < slen - 1 {
            self.schema_selected as int
        } else {
            slen - 1
        }
    }

    /// The table selection limited to the visible tables of the schema selected
    /// after clamping the schema selection (0 when none).
    pub open spec fn clamped_table(&self) -> int {
        let mid = AppState { schema_selected: self.clamped_schema() as usize, ..*self };
        let tlen = match mid.selected_schema() {
            Some(s) => self.visible_tables(s).len(),
            None => 0,
        };
        if tlen == 0 {
            0
        } else if self.table_selected < tlen - 1 {
            self.table_selected as int
        } else {
            tlen - 1
        }
    }

    /// This state with the saved connections and their statuses replaced.
    pub open spec fn with_connections(
        &self,
        configs: Vec<ConnectConfig>,
        statuses: Vec<ConnectionStatus>,
    ) -> AppState {
        AppState { connections_config: configs, connection_statuses: statuses, ..*self }
    }

    /// This state with the schema and table selections replaced.
    pub open spec fn with_selections(&self, schema: usize, table: usize) -> AppState {
        AppState { schema_selected: schema, table_selected: table, ..*self }
    }

    /// Everything but the connection selection is unchanged.
    pub open spec fn same_but_selection(&self, other: &Self) -> bool {
        &&& *self == AppState {
            connect: ConnectState { selected: self.connect.selected, ..other.connect },
            ..*other
        }
        &&& self.connections_config@ == other.connections_config@
        &&& self.connection_statuses@ == other.connection_statuses@
        &&& self.schemas_raw@ == other.schemas_raw@
        &&& self.search == other.search
        &&& self.schema_selected == other.schema_selected
        &&& self.table_selected == other.table_selected
    }

    /// Fresh state for the given saved connections, all of unknown status.
    pub fn new(connections: Vec<ConnectConfig>) -> (s: Self)
        ensures
            s.connections_config@ == connections@,
            s.connection_statuses@ == Seq::new(
                connections@.len(),
                |i: int| ConnectionStatus::Unknown,
            ),
            s.schemas_raw@.len() == 0,
            s.schema_selected == 0,
            s.table_selected == 0,
            s.connect.selected == 0,
            s.search.query@.len() == 0,
            s.mode == AppMode::Normal,
            s.active_pane == ActivePane::Schemas,
            s.table_details.is_none(),
            s.loaded_table.is_none(),
            s.connect.error.is_none(),
            !s.connect.form_open,
            !s.connect.driver_picker_open,
            s.connect.driver_picker.query@.len() == 0,
            s.connect.driver_picker.selected == 0,
            s.connect.draft_status.is_none(),
            s.form.is_blank(),
            s.form.driver == DriverKind::Postgres,
            !s.search.active,
            s.sql_input.query@.len() == 0,
            s.sql_input.cursor_pos == 0,
            !s.sql_input.active,
            s.sql_input.result.is_none(),
            s.sql_input.history@.len() == 0,
            s.sql_input.history_idx.is_none(),
            s.records.is_empty(),
            !s.theme_picker.is_open(),
            s.theme_picker.query_text().len() == 0,
            s.theme_picker.selection() == 0,
            s.theme_picker.names().len() == 0,
    {
        let n = connections.len();
        let mut statuses: Vec<ConnectionStatus> = Vec::new();
        let mut i: usize = 0;
        while i < n
            invariant
                i <= n,
                statuses@ == Seq::new(i as nat, |k: int| ConnectionStatus::Unknown),
            decreases n - i,
        {
            statuses.push(ConnectionStatus::Unknown);
            i += 1;
            assert(statuses@ =~= Seq::new(i as nat, |k: int| ConnectionStatus::Unknown));
        }
        AppState {
            connections_config: connections,
            connection_statuses: statuses,
            mode: AppMode::Normal,
            table_selected: 0,
            schema_selected: 0,
            schemas_raw: Vec::new(),
            table_details: None,
            active_pane: ActivePane::Schemas,
            loaded_table: None,
            connect: ConnectState::default(),
            form: FormState::default(),
            search: SearchState::default(),
            sql_input: SqlInputState::new(),
            records: RecordsState::new(),
            theme_picker: ThemePickerState::default(),
        }
    }

    /// Unique schema names sorted alphabetically.
    pub fn schema_names(&self) -> (r: Vec<String>)
        ensures
            sorted_lt(string_views(r@)),
            forall|x: Seq<char>|
                string_views(r@).contains(x) <==> schema_views(self.schemas_raw@).contains(x),
            string_views(r@) == schema_list(self.schemas_raw@),
    {
        let n = self.schemas_raw.len();
        let ghost sv = schema_views(self.schemas_raw@);
        let mut out: Vec<String> = Vec::new();
        let mut i: usize = 0;
        while i < n
            invariant
                n == self.schemas_raw@.len(),
                sv == schema_views(self.schemas_raw@),
                i <= n,
                sorted_lt(string_views(out@)),
                forall|x: Seq<char>|
                    string_views(out@).contains(x) <==> sv.subrange(0, i as int).contains(x),
            decreases n - i,
        {
            let s = self.schemas_raw[i].schema.clone();
            let ghost before = string_views(out@);
            assert(sv[i as int] == s@);
            insert_sorted_unique(&mut out, s);
            proof {
                assert forall|x: Seq<char>| string_views(out@).contains(x) <==> sv.subrange(
                    0,
                    i + 1,
                ).contains(x) by {
                    let a = sv.subrange(0, i as int);
                    let b = sv.subrange(0, i + 1);
                    assert(b =~= a.push(sv[i as int]));
                    assert(string_views(out@).contains(x) <==> (before.contains(x) || x == sv[i as int]));
                    if x == sv[i as int] {
                        assert(b[i as int] == x);
                    }
                    if b.contains(x) {
                        let k = choose|k: int| 0 <= k < b.len() && #[trigger] b[k] == x;
                        if k < i {
                            assert(a[k] == x);
                        }
                    }
                    if a.contains(x) {
                        let k = choose|k: int| 0 <= k < a.len() && #[trigger] a[k] == x;
                        assert(b[k] == x);
                    }
                }
            }
            i += 1;
        }
        proof {
            assert(sv.subrange(0, n as int) =~= sv);
            lemma_is_sorted_unique_of(string_views(out@), sv.to_set());
        }
        out
    }

    /// Table names within the given schema, in listing order.
    pub fn table_names_in_schema(&self, schema: &str) -> (r: Vec<String>)
        ensures
            string_views(r@) == tables_in(self.schemas_raw@, schema@),
    {
        let n = self.schemas_raw.len();
        let mut out: Vec<String> = Vec::new();
        let mut i: usize = 0;
        while i < n
            invariant
                n == self.schemas_raw@.len(),
                i <= n,
                string_views(out@) == tables_in(self.schemas_raw@.subrange(0, i as int), schema@),
            decreases n - i,
        {
            assert(self.schemas_raw@.subrange(0, i + 1).drop_last() =~= self.schemas_raw@.subrange(
                0,
                i as int,
            ));
            if str_eq(self.schemas_raw[i].schema.as_str(), schema) {
                out.push(self.schemas_raw[i].name.clone());
                assert(string_views(out@) =~= tables_in(
                    self.schemas_raw@.subrange(0, i as int),
                    schema@,
                ).push(self.schemas_raw@[i as int].name@));
            }
            i += 1;
        }
        assert(self.schemas_raw@.subrange(0, n as int) =~= self.schemas_raw@);
        out
    }

    /// Keeps the status list aligned with the connection list: extra statuses
    /// are dropped, missing ones are `Unknown`.
    pub fn sync_connection_statuses(&mut self)
        ensures
            final(self).connection_statuses@ == resized(
                old(self).connection_statuses@,
                old(self).connections_config@.len() as int,
            ),
            final(self).connections_config@ == old(self).connections_config@,
            *final(self) == old(self).with_connections(
                final(self).connections_config,
                final(self).connection_statuses,
            ),
    {
        let n = self.connections_config.len();
        let ghost s0 = self.connection_statuses@;
        let ghost c0 = self.connections_config@;
        if self.connection_statuses.len() >= n {
            self.connection_statuses.truncate(n);
            assert(self.connection_statuses@ =~= resized(s0, n as int));
        } else {
            while self.connection_statuses.len() < n
                invariant
                    n == self.connections_config@.len(),
                    c0 == self.connections_config@,
                    *self == old(self).with_connections(
                        self.connections_config,
                        self.connection_statuses,
                    ),
                    c0 == old(self).connections_config@,
                    s0 == old(self).connection_statuses@,
                    s0.len() < n,
                    s0.len() <= self.connection_statuses@.len() <= n,
                    self.connection_statuses@ == s0 + Seq::new(
                        (self.connection_statuses@.len() - s0.len()) as nat,
                        |i: int| ConnectionStatus::Unknown,
                    ),
                decreases n - self.connection_statuses@.len(),
            {
                self.connection_statuses.push(ConnectionStatus::Unknown);
                assert(self.connection_statuses@ =~= s0 + Seq::new(
                    (self.connection_statuses@.len() - s0.len()) as nat,
                    |i: int| ConnectionStatus::Unknown,
                ));
            }
        }
    }

    /// Removes one saved connection and its status entry by index.
    pub fn remove_connection_at(&mut self, index: usize)
        ensures
            index >= old(self).connections_config@.len() ==> final(self).connections_config@ == old(
                self,
            ).connections_config@ && final(self).connection_statuses@
                == old(self).connection_statuses@,
            index < old(self).connections_config@.len() ==> {
                &&& final(self).connections_config@ == old(self).connections_config@.remove(
                    index as int,
                )
                &&& final(self).connection_statuses@ == resized(
                    if index < old(self).connection_statuses@.len() {
                        old(self).connection_statuses@.remove(index as int)
                    } else {
                        old(self).connection_statuses@
                    },
                    old(self).connections_config@.len() - 1,
                )
            },
            *final(self) == old(self).with_connections(
                final(self).connections_config,
                final(self).connection_statuses,
            ),
    {
        if index >= self.connections_config.len() {
            return;
        }
        self.connections_config.remove(index);
        if index < self.connection_statuses.len() {
            self.connection_statuses.remove(index);
        }
        self.sync_connection_statuses();
    }

    /// Updates the status of one connection, after aligning the status list.
    pub fn set_connection_status(&mut self, index: usize, status: ConnectionStatus)
        ensures
            ({
                let r = resized(
                    old(self).connection_statuses@,
                    old(self).connections_config@.len() as int,
                );
                final(self).connection_statuses@ == if index < r.len() {
                    r.update(index as int, status)
                } else {
                    r
                }
            }),
            final(self).connections_config@ == old(self).connections_config@,
            *final(self) == old(self).with_connections(
                final(self).connections_config,
                final(self).connection_statuses,
            ),
    {
        self.sync_connection_statuses();
        if index < self.connection_statuses.len() {
            self.connection_statuses.set(index, status);
        }
    }

    /// Returns the last known status of one connection; `Unknown` out of range.
    pub fn connection_status(&self, index: usize) -> (s: ConnectionStatus)
        ensures
            s == if index < self.connection_statuses@.len() {
                self.connection_statuses@[index as int]
            } else {
                ConnectionStatus::Unknown
            },
    {
        if index < self.connection_statuses.len() {
            self.connection_statuses[index]
        } else {
            ConnectionStatus::Unknown
        }
    }

    /// Indices of the connections whose display names match the search.
    pub fn filtered_connection_indices(&self) -> (r: Vec<usize>)
        ensures
            r@ == self.visible_connections(),
    {
        let n = self.connections_config.len();
        let mut out: Vec<usize> = Vec::new();
        let mut i: usize = 0;
        while i < n
            invariant
                n == self.connections_config@.len(),
                i <= n,
                out@ == matching_indices(self.connections_config@, self.search.query@, i as int),
            decreases n - i,
        {
            let meta = ConnectionMeta::from(&self.connections_config[i]);
            if self.search.matches(meta.name.as_str()) {
                out.push(i);
            }
            i += 1;
        }
        out
    }

    /// Position of the selected connection inside the filtered connection list.
    pub fn selected_filtered_connection_position(&self) -> (r: Option<usize>)
        ensures
            r == match position_of(self.visible_connections(), self.connect.selected) {
                Some(p) => Some(p as usize),
                None => None::<usize>,
            },
            r matches Some(p) ==> p < self.visible_connections().len() && position_of(
                self.visible_connections(),
                self.connect.selected,
            ) == Some(p as int),
    {
        let idx = self.filtered_connection_indices();
        let n_configs = self.connections_config.len();
        proof {
            assert(n_configs == self.connections_config@.len());
            lemma_matching_indices(
                self.connections_config@,
                self.search.query@,
                self.connections_config@.len() as int,
            );
        }
        index_position(&idx, self.connect.selected)
    }

    /// Clamps the connection selection to a visible connection after the search
    /// changes: kept when visible, else the first visible one, else 0.
    pub fn clamp_connection_selection(&mut self)
        ensures
            final(self).connect.selected == old(self).clamped_connection(),
            final(self).same_but_selection(old(self)),
    {
        let indices = self.filtered_connection_indices();
        let n_configs = self.connections_config.len();
        proof {
            assert(n_configs == self.connections_config@.len());
            lemma_matching_indices(
                self.connections_config@,
                self.search.query@,
                self.connections_config@.len() as int,
            );
        }
        if indices.len() == 0 {
            self.connect.selected = 0;
            return;
        }
        let pos = index_position(&indices, self.connect.selected);
        if pos.is_some() {
            return;
        }
        self.connect.selected = indices[0];
    }

    /// Moves the connection selection down within the filtered list, wrapping;
    /// an invisible selection goes to the first visible connection.
    pub fn select_next_filtered_connection(&mut self)
        ensures
            final(self).connect.selected == old(self).next_connection(),
            final(self).same_but_selection(old(self)),
    {
        let indices = self.filtered_connection_indices();
        let n_configs = self.connections_config.len();
        proof {
            assert(n_configs == self.connections_config@.len());
            lemma_matching_indices(
                self.connections_config@,
                self.search.query@,
                self.connections_config@.len() as int,
            );
        }
        if indices.len() == 0 {
            return;
        }
        match index_position(&indices, self.connect.selected) {
            None => {
                self.connect.selected = indices[0];
            },
            Some(current) => {
                self.connect.selected = indices[(current + 1) % indices.len()];
            },
        }
    }

    /// Moves the connection selection up within the filtered list, wrapping;
    /// an invisible selection goes to the first visible connection.
    pub fn select_prev_filtered_connection(&mut self)
        ensures
            final(self).connect.selected == old(self).prev_connection(),
            final(self).same_but_selection(old(self)),
    {
        let indices = self.filtered_connection_indices();
        let n_configs = self.connections_config.len();
        proof {
            assert(n_configs == self.connections_config@.len());
            lemma_matching_indices(
                self.connections_config@,
                self.search.query@,
                self.connections_config@.len() as int,
            );
        }
        if indices.len() == 0 {
            return;
        }
        match index_position(&indices, self.connect.selected) {
            None => {
                self.connect.selected = indices[0];
            },
            Some(current) => {
                let prev = if current == 0 {
                    indices.len() - 1
                } else {
                    current - 1
                };
                self.connect.selected = indices[prev];
            },
        }
    }

    /// Selects the first visible connection, if any.
    pub fn select_first_filtered_connection(&mut self)
        ensures
            final(self).connect.selected == old(self).first_connection(),
            final(self).same_but_selection(old(self)),
    {
        let indices = self.filtered_connection_indices();
        if indices.len() == 0 {
            return;
        }
        self.connect.selected = indices[0];
    }

    /// Schema names matching the search (all of them for an empty query).
    pub fn filtered_schema_names(&self) -> (r: Vec<String>)
        ensures
            string_views(r@) == self.visible_schemas(),
    {
        let names = self.schema_names();
        self.filter_by_search(names)
    }

    /// Table names within `schema` matching the search.
    pub fn filtered_table_names(&self, schema: &str) -> (r: Vec<String>)
        ensures
            string_views(r@) == self.visible_tables(schema@),
    {
        let names = self.table_names_in_schema(schema);
        self.filter_by_search(names)
    }

    /// The names the search query matches, order kept.
    fn filter_by_search(&self, names: Vec<String>) -> (r: Vec<String>)
        ensures
            string_views(r@) == filter_names(string_views(names@), self.search.query@),
    {
        let n = names.len();
        let ghost nv = string_views(names@);
        let mut out: Vec<String> = Vec::new();
        let mut i: usize = 0;
        while i < n
            invariant
                n == names@.len(),
                nv == string_views(names@),
                i <= n,
                string_views(out@) == filter_names(nv.subrange(0, i as int), self.search.query@),
            decreases n - i,
        {
            assert(nv.subrange(0, i + 1).drop_last() =~= nv.subrange(0, i as int));
            if self.search.matches(names[i].as_str()) {
                out.push(names[i].clone());
                assert(string_views(out@) =~= filter_names(
                    nv.subrange(0, i as int),
                    self.search.query@,
                ).push(nv[i as int]));
            }
            i += 1;
        }
        assert(nv.subrange(0, n as int) =~= nv);
        out
    }

    /// Moves the schema selection up within the filtered list, wrapping to the end.
    pub fn select_prev_filtered_schema(&mut self)
        ensures
            final(self).schema_selected == old(self).prev_schema(),
            *final(self) == old(self).with_selections(final(self).schema_selected, old(self).table_selected),
    {
        let len = self.filtered_schema_names().len();
        if len == 0 {
            return;
        }
        self.schema_selected = if self.schema_selected == 0 {
            len - 1
        } else {
            self.schema_selected - 1
        };
    }

    /// Moves the table selection up within the filtered tables of `schema`,
    /// wrapping to the end.
    pub fn select_prev_filtered_table(&mut self, schema: &str)
        ensures
            final(self).table_selected == old(self).prev_table(schema@),
            *final(self) == old(self).with_selections(old(self).schema_selected, final(self).table_selected),
    {
        let len = self.filtered_table_names(schema).len();
        if len == 0 {
            return;
        }
        self.table_selected = if self.table_selected == 0 {
            len - 1
        } else {
            self.table_selected - 1
        };
    }

    /// The visible schema at the current selection, if any, in spec form.
    pub open spec fn selected_schema(&self) -> Option<Seq<char>> {
        if self.schema_selected < self.visible_schemas().len() {
            Some(self.visible_schemas()[self.schema_selected as int])
        } else {
            None
        }
    }

    /// The schema name at the current selection within the filtered list, if any.
    pub fn selected_schema_name(&self) -> (r: Option<String>)
        ensures
            match r {
                Some(s) => self.selected_schema() == Some(s@),
                None => self.selected_schema().is_none(),
            },
    {
        let names = self.filtered_schema_names();
        if self.schema_selected < names.len() {
            Some(names[self.schema_selected].clone())
        } else {
            None
        }
    }

    /// Clamps the schema and table selections to the lengths of the currently
    /// filtered lists; call after every query change.
    pub fn clamp_search_selections(&mut self)
        ensures
            final(self).schema_selected == old(self).clamped_schema(),
            final(self).table_selected == old(self).clamped_table(),
            *final(self) == old(self).with_selections(final(self).schema_selected, final(self).table_selected),
    {
        let schema_len = self.filtered_schema_names().len();
        if schema_len == 0 {
            self.schema_selected = 0;
        } else {
            self.schema_selected = if self.schema_selected < schema_len - 1 {
                self.schema_selected
            } else {
                schema_len - 1
            };
        }
        let table_len = match self.selected_schema_name() {
            Some(s) => self.filtered_table_names(s.as_str()).len(),
            None => 0,
        };
        if table_len == 0 {
            self.table_selected = 0;
        } else {
            self.table_selected = if self.table_selected < table_len - 1 {
                self.table_selected
            } else {
                table_len - 1
            };
        }
    }
}

/// The position of `x` in the strictly increasing `s`, if present.
fn index_position(s: &Vec<usize>, x: usize) -> (r: Option<usize>)
    requires
        forall|i: int, j: int| 0 <= i < j < s@.len() ==> #[trigger] s@[i] < #[trigger] s@[j],
    ensures
        r == match position_of(s@, x) {
            Some(p) => Some(p as usize),
            None => None::<usize>,
        },
        r matches Some(p) ==> p < s@.len() && s@[p as int] == x,
        r.is_none() ==> !s@.contains(x),
{
    let n = s.len();
    let mut i: usize = 0;
    while i < n
        invariant
            n == s@.len(),
            i <= n,
            forall|k: int| 0 <= k < i ==> s@[k] != x,
            forall|a: int, b: int| 0 <= a < b < s@.len() ==> #[trigger] s@[a] < #[trigger] s@[b],
        decreases n - i,
    {
        if s[i] == x {
            proof {
                lemma_position_unique(s@, x, i as int);
            }
            return Some(i);
        }
        i += 1;
    }
    None
}

impl AppState {
    /// Starts connecting to the selected connection: clears the previous
    /// error; a selection past the list is an error, shown and returned.
    pub fn begin_connect(&mut self) -> (r: Result<usize, DbError>)
        ensures
            old(self).connect.selected < old(self).connections_config@.len() ==> r == Ok::<
                usize,
                DbError,
            >(old(self).connect.selected) && final(self).connect.error.is_none(),
            old(self).connect.selected >= old(self).connections_config@.len() ==> (r matches Err(
                DbError::NotFound(m),
            ) && m@ == "No connection at selected index"@),
            old(self).connect.selected >= old(self).connections_config@.len() ==> (final(self).connect.error
                matches Some(e) && e@ == "No connection at selected index"@),
            final(self).connections_config@ == old(self).connections_config@,
            final(self).connection_statuses@ == old(self).connection_statuses@,
            final(self).connect.selected == old(self).connect.selected,
    {
        self.connect.error = None;
        let idx = self.connect.selected;
        if idx >= self.connections_config.len() {
            let msg = owned("No connection at selected index");
            self.connect.error = Some(msg.clone());
            return Err(DbError::NotFound(msg));
        }
        Ok(idx)
    }

    /// Records how connecting to connection `index` went: online, or offline
    /// with the error's text shown.
    pub fn finish_connect(&mut self, index: usize, outcome: Result<(), DbError>)
        ensures
            ({
                let r = resized(
                    old(self).connection_statuses@,
                    old(self).connections_config@.len() as int,
                );
                let st = if outcome.is_ok() {
                    ConnectionStatus::Online
                } else {
                    ConnectionStatus::Offline
                };
                final(self).connection_statuses@ == if index < r.len() {
                    r.update(index as int, st)
                } else {
                    r
                }
            }),
            match outcome {
                Ok(_) => final(self).connect.error == old(self).connect.error,
                Err(e) => final(self).connect.error matches Some(m) && m@ == display_spec(e),
            },
            final(self).connections_config@ == old(self).connections_config@,
            final(self).connect.selected == old(self).connect.selected,
    {
        match outcome {
            Ok(_) => self.set_connection_status(index, ConnectionStatus::Online),
            Err(e) => {
                self.connect.error = Some(e.display_string());
                self.set_connection_status(index, ConnectionStatus::Offline);
            },
        }
    }

    /// Validates the form for a connection test: a valid draft's config is
    /// returned for probing; an invalid one shows its message and forgets the
    /// draft's status.
    pub fn prepare_form_test(&mut self) -> (r: Option<ConnectConfig>)
        ensures
            match r {
                Some(c) => form_error(old(self).form.values@).is_none() && config_matches(
                    old(self).form.values@,
                    old(self).form.driver,
                    c,
                ) && final(self).form.error.is_none() && final(self).connect.draft_status
                    == old(self).connect.draft_status,
                None => form_error(old(self).form.values@) matches Some(msg) && (final(self).form.error matches Some(m) && m@ == msg) && final(self).connect.draft_status.is_none(),
            },
            final(self).form.values@ == old(self).form.values@,
            final(self).connections_config@ == old(self).connections_config@,
    {
        match self.form.to_connect_config() {
            Ok(cfg) => {
                self.form.error = None;
                Some(cfg)
            },
            Err(msg) => {
                self.form.error = Some(msg);
                self.connect.draft_status = None;
                None
            },
        }
    }

    /// Shows in the result popup how running the editor's statement went: the
    /// rows it changed, the rows it returned, or the database's error.
    pub fn set_sql_outcome(&mut self, outcome: Result<SqlExecuteResult, DbError>)
        requires
            outcome matches Ok(SqlExecuteResult::RowsReturned(r)) ==> r.total_count <= usize::MAX,
        ensures
            match outcome {
                Ok(SqlExecuteResult::RowsAffected(n)) => final(self).sql_input.result == Some(
                    SqlResult::Success { rows_affected: n },
                ),
                Ok(SqlExecuteResult::RowsReturned(r)) => final(self).sql_input.result == Some(
                    SqlResult::Rows { count: r.total_count as usize },
                ),
                Err(e) => final(self).sql_input.result matches Some(SqlResult::Error(m)) && m@
                    == sql_error_spec(e),
            },
            *final(self) == (AppState {
                sql_input: (SqlInputState { result: final(self).sql_input.result, ..old(self).sql_input }),
                ..*old(self)
            }),
    {
        let result = match outcome {
            Ok(SqlExecuteResult::RowsAffected(n)) => SqlResult::Success { rows_affected: n },
            Ok(SqlExecuteResult::RowsReturned(r)) => SqlResult::Rows { count: r.total_count as usize },
            Err(e) => SqlResult::Error(format_sql_error(&e)),
        };
        self.sql_input.result = Some(result);
    }
}

impl AppState {
    /// This state with connection `index` selected.
    pub open spec fn with_selected_connection(&self, index: usize) -> AppState {
        AppState { connect: ConnectState { selected: index, ..self.connect }, ..*self }
    }
}

pub proof fn lemma_filter_names_len(names: Seq<Seq<char>>, q: Seq<char>)
    ensures
        filter_names(names, q).len() <= names.len(),
    decreases names.len(),
{
    if names.len() > 0 {
        lemma_filter_names_len(names.drop_last(), q);
    }
}

proof fn lemma_tables_in_len(raw: Seq<TableRef>, schema: Seq<char>)
    ensures
        tables_in(raw, schema).len() <= raw.len(),
    decreases raw.len(),
{
    if raw.len() > 0 {
        lemma_tables_in_len(raw.drop_last(), schema);
    }
}

/// The visible schema and table lists are no longer than the list of tables
/// they come from.
pub proof fn lemma_visible_lists_len(s: AppState)
    ensures
        s.visible_schemas().len() <= schema_list(s.schemas_raw@).len() <= s.schemas_raw@.len()
            <= usize::MAX,
        forall|schema: Seq<char>| #[trigger] s.visible_tables(schema).len() <= s.schemas_raw@.len(),
{
    assert(s.schemas_raw.len() == s.schemas_raw@.len());
    lemma_sorted_unique_len(schema_views(s.schemas_raw@));
    lemma_filter_names_len(schema_list(s.schemas_raw@), s.search.query@);
    assert forall|schema: Seq<char>| #[trigger] s.visible_tables(schema).len() <= s.schemas_raw@.len() by {
        lemma_tables_in_len(s.schemas_raw@, schema);
        lemma_filter_names_len(tables_in(s.schemas_raw@, schema), s.search.query@);
    }
}

/// The visible connections are indices of saved connections.
pub proof fn lemma_visible_connections_bound(s: AppState)
    ensures
        forall|i: int| 0 <= i < s.visible_connections().len() ==> #[trigger] s.visible_connections()[i]
            < s.connections_config@.len(),
        s.connections_config@.len() <= usize::MAX,
        position_of(s.visible_connections(), s.connect.selected) matches Some(p) ==> 0 <= p
            < s.visible_connections().len(),
{
    assert(s.connections_config.len() == s.connections_config@.len());
    lemma_matching_indices(
        s.connections_config@,
        s.search.query@,
        s.connections_config@.len() as int,
    );
    let v = s.visible_connections();
    if v.contains(s.connect.selected) {
        let k = choose|k: int| 0 <= k < v.len() && v[k] == s.connect.selected;
        lemma_position_unique(v, s.connect.selected, k);
    }
}

/// In the filtered connection list, moving down and then up (or up and then
/// down) selects the connection that was selected, and both moves select a
/// visible connection.
pub proof fn law_filtered_connection_moves(s: AppState)
    requires
        s.connections_config@.len() <= usize::MAX,
        s.visible_connections().contains(s.connect.selected),
    ensures
        s.visible_connections().contains(s.next_connection()),
        s.visible_connections().contains(s.prev_connection()),
        s.with_selected_connection(s.next_connection()).prev_connection() == s.connect.selected,
        s.with_selected_connection(s.prev_connection()).next_connection() == s.connect.selected,
{
    let v = s.visible_connections();
    let n = v.len() as int;
    lemma_matching_indices(s.connections_config@, s.search.query@, s.connections_config@.len() as int);
    let p = choose|p: int| 0 <= p < n && v[p] == s.connect.selected;
    lemma_position_unique(v, s.connect.selected, p);
    let up = (p + 1) % n;
    let down = if p == 0 {
        n - 1
    } else {
        p - 1
    };
    assert(0 <= up < n);
    lemma_position_unique(v, v[up], up);
    lemma_position_unique(v, v[down], down);
    let after_next = s.with_selected_connection(s.next_connection());
    let after_prev = s.with_selected_connection(s.prev_connection());
    assert(after_next.visible_connections() == v);
    assert(after_prev.visible_connections() == v);
    if p + 1 < n {
        vstd::arithmetic::div_mod::lemma_small_mod((p + 1) as nat, n as nat);
    } else {
        vstd::arithmetic::div_mod::lemma_mod_self_0(n);
    }
    if p == 0 {
        vstd::arithmetic::div_mod::lemma_mod_self_0(n);
    } else {
        vstd::arithmetic::div_mod::lemma_small_mod(p as nat, n as nat);
    }
    assert(v.contains(v[up]));
    assert(v.contains(v[down]));
}

/// Rows per page on a terminal `height` rows tall: the height less the
/// borders, header, separator and status bar (7 rows), and at least 1.
pub fn rows_per_page_for_height(height: u16) -> (r: u16)
    ensures
        r == if height >= 8 {
            height - 7
        } else {
            1
        },
{
    if height >= 8 {
        height - 7
    } else {
        1
    }
}

impl AppState {
    /// Takes the tables of a freshly opened database: both selections go back
    /// to the first entry.
    pub fn set_schemas(&mut self, schemas: Vec<TableRef>)
        ensures
            final(self).schemas_raw@ == schemas@,
            final(self).schema_selected == 0,
            final(self).table_selected == 0,
            final(self).connections_config@ == old(self).connections_config@,
            final(self).connect == old(self).connect,
    {
        self.schemas_raw = schemas;
        self.schema_selected = 0;
        self.table_selected = 0;
    }

    /// Records the reachability of the form's draft connection.
    pub fn set_draft_status(&mut self, status: ConnectionStatus)
        ensures
            final(self).connect.draft_status == Some(status),
            final(self).form == old(self).form,
            final(self).connections_config@ == old(self).connections_config@,
    {
        self.connect.draft_status = Some(status);
    }

    /// Keeps the last table a lookup by name returned as the loaded table.
    pub fn set_loaded_table(&mut self, tables: Vec<Table>)
        ensures
            final(self).loaded_table == if tables@.len() > 0 {
                Some(tables@.last())
            } else {
                None::<Table>
            },
            final(self).records == old(self).records,
            final(self).schema_selected == old(self).schema_selected,
            final(self).schemas_raw@ == old(self).schemas_raw@,
            final(self).search == old(self).search,
    {
        let mut tables = tables;
        self.loaded_table = tables.pop();
    }

    /// Starts viewing the loaded table's records: needs a loaded table and a
    /// selected schema; the records view is reset to that table with one page
    /// per terminal screen. Returns the schema, the table and the page size to
    /// fetch the first page with.
    pub fn begin_table_records(&mut self, terminal_height: u16) -> (r: Result<
        (String, String, u16),
        DbError,
    >)
        ensures
            old(self).loaded_table.is_none() ==> (r matches Err(DbError::NotFound(m)) && m@
                == "No table loaded"@) && *final(self) == *old(self),
            old(self).loaded_table.is_some() && old(self).selected_schema().is_none() ==> (r matches Err(
                DbError::NotFound(m),
            ) && m@ == "No schema selected"@) && *final(self) == *old(self),
            r matches Ok((schema, table, rpp)) ==> {
                &&& old(self).loaded_table matches Some(t) && t.name@ == table@
                &&& old(self).selected_schema() == Some(schema@)
                &&& rpp == rows_per_page_for_height_spec(terminal_height)
                &&& final(self).records.source matches Some(RecordsSource::Table { schema: a, table: b })
                    && a@ == schema@ && b@ == table@
                &&& final(self).records.rows_per_page == rpp
                &&& final(self).records.is_empty_but_source_and_page()
            },
            old(self).loaded_table.is_some() && old(self).selected_schema().is_some() ==> r is Ok,
    {
        let table_name = match &self.loaded_table {
            Some(t) => t.name.clone(),
            None => {
                return Err(DbError::NotFound(owned("No table loaded")));
            },
        };
        let schema = match self.selected_schema_name() {
            Some(s) => s,
            None => {
                return Err(DbError::NotFound(owned("No schema selected")));
            },
        };
        let rpp = rows_per_page_for_height(terminal_height);
        self.records = RecordsState::for_table(schema.clone(), table_name.clone());
        self.records.rows_per_page = rpp;
        Ok((schema, table_name, rpp))
    }

    /// Starts viewing the rows of the editor's query: the trimmed query must
    /// not be empty; the records view is reset to that query with one page per
    /// terminal screen. Returns the query and the page size.
    pub fn begin_query_records(&mut self, terminal_height: u16) -> (r: Result<(String, u16), DbError>)
        ensures
            trim(old(self).sql_input.query@).len() == 0 ==> (r matches Err(DbError::NotFound(m))
                && m@ == "Empty query"@) && *final(self) == *old(self),
            trim(old(self).sql_input.query@).len() > 0 ==> (r matches Ok((q, rpp)) && {
                &&& q@ == trim(old(self).sql_input.query@)
                &&& rpp == rows_per_page_for_height_spec(terminal_height)
                &&& final(self).records.source matches Some(RecordsSource::Query { sql })
                    && sql@ == q@
                &&& final(self).records.rows_per_page == rpp
                &&& final(self).records.is_empty_but_source_and_page()
            }),
    {
        let query = trimmed(self.sql_input.query.as_str());
        if query.unicode_len() == 0 {
            return Err(DbError::NotFound(owned("Empty query")));
        }
        let rpp = rows_per_page_for_height(terminal_height);
        self.records = RecordsState::for_query(query.clone());
        self.records.rows_per_page = rpp;
        Ok((query, rpp))
    }

    /// What the current page of records is fetched from: the source, the page
    /// size and the offset; an error when nothing is being viewed.
    pub fn records_page_request(&self) -> (r: Result<(RecordsSource, u16, u64), DbError>)
        ensures
            match self.records.source {
                None => r matches Err(DbError::NotFound(m)) && m@ == "No records source"@,
                Some(src) => r matches Ok((s, limit, offset)) && s == src && limit
                    == self.records.rows_per_page && offset == self.records.offset,
            },
    {
        match &self.records.source {
            None => Err(DbError::NotFound(owned("No records source"))),
            Some(src) => Ok((src.clone(), self.records.rows_per_page, self.records.offset)),
        }
    }

    /// The statement the editor runs: its trimmed text; an empty one closes
    /// the editor instead, and nothing runs.
    pub fn statement_to_run(&mut self) -> (r: Option<String>)
        ensures
            match r {
                Some(q) => trim(old(self).sql_input.query@).len() > 0 && q@ == trim(
                    old(self).sql_input.query@,
                ) && *final(self) == *old(self),
                None => trim(old(self).sql_input.query@).len() == 0
                    && final(self).sql_input.query@.len() == 0 && !final(self).sql_input.active
                    && final(self).sql_input.result.is_none(),
            },
    {
        let query = trimmed(self.sql_input.query.as_str());
        if query.unicode_len() == 0 {
            self.sql_input.reset();
            return None;
        }
        Some(query)
    }
}

/// Rows per page on a terminal `height` rows tall.
pub open spec fn rows_per_page_for_height_spec(height: u16) -> u16 {
    if height >= 8 {
        (height - 7) as u16
    } else {
        1
    }
}

/// The status list always ends up with one status per connection; on lists
/// that were aligned, removing a connection removes exactly its status, and
/// resizing changes nothing.
pub proof fn law_statuses_stay_aligned(statuses: Seq<ConnectionStatus>, n: int, index: int)
    requires
        n >= 0,
    ensures
        resized(statuses, n).len() == n,
        statuses.len() == n ==> resized(statuses, n) == statuses,
        statuses.len() == n && 0 <= index < n ==> resized(statuses.remove(index), n - 1)
            == statuses.remove(index),
{
    if statuses.len() == n {
        assert(statuses.subrange(0, n) =~= statuses);
        if 0 <= index < n {
            assert(statuses.remove(index).subrange(0, n - 1) =~= statuses.remove(index));
        }
    }
}

} // verus!
