//! Connections screen state: the driver registry and picker, display metadata
//! of saved connections, reachability status and the inline form flags.
use crate::config::ConnectConfig;
use crate::text::{
    ascii_lowercase, char_is_whitespace, contains_seq, decimal, owned, push_char, push_decimal,
    push_str, str_contains, to_ascii_lowercase, trim, trimmed,
};
use vstd::prelude::*;

pub mod form;

pub use form::FormState;

verus! {

/// Stable identifier for supported database drivers.
#[derive(Debug, Clone, Copy, PartialEq, Eq, Structural)]
pub enum DriverKind {
    /// PostgreSQL direct connection.
    Postgres,
    /// MySQL direct connection.
    MySql,
}

impl Default for DriverKind {
    fn default() -> (d: Self)
        ensures
            d == DriverKind::Postgres,
    {
        DriverKind::Postgres
    }
}

/// Metadata used to render and select database drivers.
#[derive(Debug, Clone, Copy)]
pub struct DriverDefinition {
    /// Stable machine id for the driver.
    pub id: &'static str,
    /// Driver kind used by config builders.
    pub kind: DriverKind,
    /// User-facing short label.
    pub label: &'static str,
    /// Short capability summary.
    pub summary: &'static str,
    /// Terms included in fuzzy filtering.
    pub aliases: [&'static str; 2],
    /// Default TCP port.
    pub default_port: u16,
}

/// The PostgreSQL entry of the registry.
pub open spec fn postgres_definition() -> DriverDefinition {
    DriverDefinition {
        id: "postgres",
        kind: DriverKind::Postgres,
        label: "postgres",
        summary: "libpq compatible",
        aliases: ["pg", "postgresql"],
        default_port: 5432,
    }
}

/// The MySQL entry of the registry.
pub open spec fn mysql_definition() -> DriverDefinition {
    DriverDefinition {
        id: "mysql",
        kind: DriverKind::MySql,
        label: "mysql",
        summary: "mysql_async",
        aliases: ["my", "mariadb"],
        default_port: 3306,
    }
}

/// Drivers supported by the add/edit connection UI, in display order.
pub open spec fn registry() -> Seq<DriverDefinition> {
    seq![postgres_definition(), mysql_definition()]
}

/// Registry of the drivers supported by the add/edit connection UI.
pub fn driver_registry() -> (r: Vec<DriverDefinition>)
    ensures
        r@ == registry(),
{
    let mut r = Vec::new();
    r.push(
        DriverDefinition {
            id: "postgres",
            kind: DriverKind::Postgres,
            label: "postgres",
            summary: "libpq compatible",
            aliases: ["pg", "postgresql"],
            default_port: 5432,
        },
    );
    r.push(
        DriverDefinition {
            id: "mysql",
            kind: DriverKind::MySql,
            label: "mysql",
            summary: "mysql_async",
            aliases: ["my", "mariadb"],
            default_port: 3306,
        },
    );
    assert(r@ =~= registry());
    r
}

/// The registry entry of a driver kind.
pub open spec fn definition_of(kind: DriverKind) -> DriverDefinition {
    match kind {
        DriverKind::Postgres => postgres_definition(),
        DriverKind::MySql => mysql_definition(),
    }
}

impl DriverKind {
    /// The registry entry of this driver.
    fn definition(self) -> (d: DriverDefinition)
        ensures
            d == definition_of(self),
    {
        let reg = driver_registry();
        if self == reg[0].kind {
            reg[0]
        } else {
            reg[1]
        }
    }

    /// Returns the display label for this driver.
    pub fn label(self) -> (l: &'static str)
        ensures
            l == definition_of(self).label,
    {
        self.definition().label
    }

    /// Returns the default port for this driver.
    pub fn default_port(self) -> (p: u16)
        ensures
            p == definition_of(self).default_port,
    {
        self.definition().default_port
    }
}

/// `d` matches the lowercased filter `q`: `q` is empty, or occurs in the id, in
/// the label or in an ASCII-lowercased alias.
pub open spec fn driver_matches(d: DriverDefinition, q: Seq<char>) -> bool {
    q.len() == 0 || contains_seq(d.id@, q) || contains_seq(d.label@, q) || contains_seq(
        ascii_lowercase(d.aliases[0]@),
        q,
    ) || contains_seq(ascii_lowercase(d.aliases[1]@), q)
}

/// The entries of `ds` that match `q`, order kept.
pub open spec fn keep_matching(ds: Seq<DriverDefinition>, q: Seq<char>) -> Seq<DriverDefinition>
    decreases ds.len(),
{
    if ds.len() == 0 {
        ds
    } else if driver_matches(ds.last(), q) {
        keep_matching(ds.drop_last(), q).push(ds.last())
    } else {
        keep_matching(ds.drop_last(), q)
    }
}

/// State for the fuzzy driver picker.
#[derive(Debug, Clone)]
pub struct DriverPickerState {
    /// Filter query typed by the user.
    pub query: String,
    /// Selected row within the filtered driver list.
    pub selected: usize,
}

impl Default for DriverPickerState {
    fn default() -> (s: Self)
        ensures
            s.query@.len() == 0,
            s.selected == 0,
    {
        DriverPickerState { query: String::new(), selected: 0 }
    }
}

/// Whether `d` matches the lowercased filter `q`.
fn driver_matches_exec(d: &DriverDefinition, q: &str) -> (r: bool)
    ensures
        r == driver_matches(*d, q@),
{
    if q.unicode_len() == 0 {
        return true;
    }
    if str_contains(d.id, q) || str_contains(d.label, q) {
        return true;
    }
    let a0 = to_ascii_lowercase(d.aliases[0]);
    let a1 = to_ascii_lowercase(d.aliases[1]);
    str_contains(a0.as_str(), q) || str_contains(a1.as_str(), q)
}

impl DriverPickerState {
    /// The filter in the form used for matching: trimmed and ASCII-lowercased.
    pub open spec fn filter(&self) -> Seq<char> {
        ascii_lowercase(trim(self.query@))
    }

    /// The drivers shown for the current query.
    pub open spec fn visible(&self) -> Seq<DriverDefinition> {
        keep_matching(registry(), self.filter())
    }

    /// The driver `selected_driver` returns.
    pub open spec fn selected_spec(&self) -> Option<DriverDefinition> {
        if self.selected < self.visible().len() {
            Some(self.visible()[self.selected as int])
        } else {
            None
        }
    }

    /// The selection after moving down, wrapping.
    pub open spec fn next_spec(&self) -> usize {
        if self.visible().len() == 0 {
            0
        } else {
            ((self.selected + 1) % (self.visible().len() as int)) as usize
        }
    }

    /// The selection after moving up, wrapping.
    pub open spec fn prev_spec(&self) -> usize {
        if self.visible().len() == 0 {
            0
        } else if self.selected == 0 {
            (self.visible().len() - 1) as usize
        } else {
            (self.selected - 1) as usize
        }
    }

    /// The selection kept inside the visible drivers (0 when none).
    pub open spec fn clamped_spec(&self) -> usize {
        if self.visible().len() == 0 {
            0
        } else if self.selected < self.visible().len() - 1 {
            self.selected
        } else {
            (self.visible().len() - 1) as usize
        }
    }

    /// Returns drivers matching the current query.
    pub fn filtered_drivers(&self) -> (r: Vec<DriverDefinition>)
        ensures
            r@ == self.visible(),
    {
        let t = trimmed(self.query.as_str());
        let q = to_ascii_lowercase(t.as_str());
        let reg = driver_registry();
        let mut out: Vec<DriverDefinition> = Vec::new();
        let mut i: usize = 0;
        while i < reg.len()
            invariant
                reg@ == registry(),
                q@ == self.filter(),
                i <= reg@.len(),
                out@ == keep_matching(reg@.subrange(0, i as int), q@),
            decreases reg@.len() - i,
        {
            assert(reg@.subrange(0, i + 1).drop_last() =~= reg@.subrange(0, i as int));
            if driver_matches_exec(&reg[i], q.as_str()) {
                out.push(reg[i]);
            }
            i += 1;
        }
        assert(reg@.subrange(0, reg@.len() as int) =~= reg@);
        out
    }

    /// Returns the selected driver from the filtered list.
    pub fn selected_driver(&self) -> (r: Option<DriverDefinition>)
        ensures
            r == if self.selected < self.visible().len() {
                Some(self.visible()[self.selected as int])
            } else {
                None::<DriverDefinition>
            },
    {
        let f = self.filtered_drivers();
        if self.selected < f.len() {
            Some(f[self.selected])
        } else {
            None
        }
    }

    /// Moves selection down within filtered drivers, wrapping at the end.
    pub fn select_next(&mut self)
        ensures
            final(self).selected == if old(self).visible().len() == 0 {
                0
            } else {
                (old(self).selected + 1) % (old(self).visible().len() as int)
            },
            final(self).query == old(self).query,
    {
        let len = self.filtered_drivers().len();
        if len == 0 {
            self.selected = 0;
            return;
        }
        self.selected = ((self.selected as u128 + 1) % len as u128) as usize;
    }

    /// Moves selection up within filtered drivers, wrapping at the start.
    pub fn select_prev(&mut self)
        ensures
            final(self).selected == if old(self).visible().len() == 0 {
                0
            } else if old(self).selected == 0 {
                old(self).visible().len() - 1
            } else {
                old(self).selected - 1
            },
            final(self).query == old(self).query,
    {
        let len = self.filtered_drivers().len();
        if len == 0 {
            self.selected = 0;
            return;
        }
        self.selected = if self.selected == 0 {
            len - 1
        } else {
            self.selected - 1
        };
    }

    /// Keeps the selected index inside the filtered result length.
    pub fn clamp_selection(&mut self)
        ensures
            final(self).selected == if old(self).visible().len() == 0 {
                0
            } else if old(self).selected < old(self).visible().len() - 1 {
                old(self).selected as int
            } else {
                old(self).visible().len() - 1
            },
            final(self).query == old(self).query,
    {
        let len = self.filtered_drivers().len();
        if len == 0 {
            self.selected = 0;
            return;
        }
        self.selected = if self.selected < len - 1 {
            self.selected
        } else {
            len - 1
        };
    }

    /// Clears query and selection.
    pub fn reset(&mut self)
        ensures
            final(self).query@.len() == 0,
            final(self).selected == 0,
    {
        *self = Self::default();
    }
}

/// Display-only, database-agnostic view of a connection config.
#[derive(Debug, Clone)]
pub struct ConnectionMeta {
    /// Display name.
    pub name: String,
    /// Host name or address.
    pub host: String,
    /// TCP port.
    pub port: u16,
    /// Database name.
    pub db_name: String,
    /// User name.
    pub user: String,
    /// Driver label.
    pub driver: String,
}

/// Display name of a connection: its own name, or `host:port/db_name`.
pub open spec fn display_name(name: Option<String>, host: Seq<char>, port: u16, db: Seq<char>) -> Seq<
    char,
> {
    match name {
        Some(n) => n@,
        None => host + ":"@ + decimal(port as nat) + "/"@ + db,
    }
}

/// Display name of a saved connection.
pub open spec fn config_name(c: ConnectConfig) -> Seq<char> {
    match c {
        ConnectConfig::Postgres(p) => display_name(p.name, p.host@, p.port, p.db_name@),
        ConnectConfig::MySql(m) => display_name(m.name, m.host@, m.port, m.db_name@),
    }
}

/// The display name built from its parts.
fn make_display_name(name: &Option<String>, host: &String, port: u16, db: &String) -> (r: String)
    ensures
        r@ == display_name(*name, host@, port, db@),
{
    match name {
        Some(n) => n.clone(),
        None => {
            let mut s = host.clone();
            push_char(&mut s, ':');
            push_decimal(&mut s, port as u64);
            push_char(&mut s, '/');
            push_str(&mut s, db.as_str());
            proof {
                reveal_strlit(":");
                reveal_strlit("/");
            }
            assert(s@ =~= display_name(*name, host@, port, db@));
            s
        },
    }
}

impl ConnectionMeta {
    /// Display metadata of a saved connection.
    pub fn from(c: &ConnectConfig) -> (m: Self)
        ensures
            m.name@ == config_name(*c),
            match *c {
                ConnectConfig::Postgres(p) => m.host@ == p.host@ && m.port == p.port && m.db_name@
                    == p.db_name@ && m.user@ == p.user@ && m.driver@ == "postgres"@,
                ConnectConfig::MySql(p) => m.host@ == p.host@ && m.port == p.port && m.db_name@
                    == p.db_name@ && m.user@ == p.user@ && m.driver@ == "mysql"@,
            },
    {
        match c {
            ConnectConfig::Postgres(cfg) => ConnectionMeta {
                name: make_display_name(&cfg.name, &cfg.host, cfg.port, &cfg.db_name),
                host: cfg.host.clone(),
                port: cfg.port,
                db_name: cfg.db_name.clone(),
                user: cfg.user.clone(),
                driver: owned("postgres"),
            },
            ConnectConfig::MySql(cfg) => ConnectionMeta {
                name: make_display_name(&cfg.name, &cfg.host, cfg.port, &cfg.db_name),
                host: cfg.host.clone(),
                port: cfg.port,
                db_name: cfg.db_name.clone(),
                user: cfg.user.clone(),
                driver: owned("mysql"),
            },
        }
    }
}

/// Reachability state for a saved connection.
#[derive(Debug, Clone, Copy, PartialEq, Eq, Structural)]
pub enum ConnectionStatus {
    /// Connection has not been checked yet.
    Unknown,
    /// Last connection check succeeded.
    Online,
    /// Last connection check failed or timed out.
    Offline,
}

impl Default for ConnectionStatus {
    fn default() -> (s: Self)
        ensures
            s == ConnectionStatus::Unknown,
    {
        ConnectionStatus::Unknown
    }
}

/// Which pane has focus in the Database split view.
#[derive(Debug, Clone, Copy, PartialEq, Eq, Structural)]
pub enum ActivePane {
    /// The schema list.
    Schemas,
    /// The table list.
    Tables,
}

impl Default for ActivePane {
    fn default() -> (p: Self)
        ensures
            p == ActivePane::Schemas,
    {
        ActivePane::Schemas
    }
}

/// Connections screen state.
#[derive(Debug)]
pub struct ConnectState {
    /// Selected saved connection.
    pub selected: usize,
    /// Connection error to show.
    pub error: Option<String>,
    /// Whether the inline add/edit connection form is open on the Connections screen.
    pub form_open: bool,
    /// Whether the driver picker is open on the Connections screen.
    pub driver_picker_open: bool,
    /// State for the add-connection driver picker.
    pub driver_picker: DriverPickerState,
    /// Last reachability result for the unsaved connection form draft.
    pub draft_status: Option<ConnectionStatus>,
}

impl Default for ConnectState {
    fn default() -> (s: Self)
        ensures
            s.selected == 0,
            s.error.is_none(),
            !s.form_open,
            !s.driver_picker_open,
            s.driver_picker.query@.len() == 0,
            s.driver_picker.selected == 0,
            s.draft_status.is_none(),
    {
        ConnectState {
            selected: 0,
            error: None,
            form_open: false,
            driver_picker_open: false,
            driver_picker: DriverPickerState::default(),
            draft_status: None,
        }
    }
}

impl ConnectState {
    /// Opens the driver picker and clears draft-only state.
    pub fn open_driver_picker(&mut self)
        ensures
            final(self).driver_picker_open,
            !final(self).form_open,
            final(self).draft_status.is_none(),
            final(self).error.is_none(),
            final(self).selected == old(self).selected,
            final(self).driver_picker == old(self).driver_picker,
            *final(self) == (ConnectState {
                driver_picker_open: true,
                form_open: false,
                draft_status: None,
                error: None,
                ..*old(self)
            }),
    {
        self.driver_picker_open = true;
        self.form_open = false;
        self.draft_status = None;
        self.error = None;
    }

    /// Closes the driver picker and clears its query and selection.
    pub fn close_driver_picker(&mut self)
        ensures
            !final(self).driver_picker_open,
            final(self).driver_picker.query@.len() == 0,
            final(self).driver_picker.selected == 0,
            final(self).form_open == old(self).form_open,
            final(self).draft_status == old(self).draft_status,
            final(self).error == old(self).error,
            final(self).selected == old(self).selected,
            *final(self) == (ConnectState {
                driver_picker_open: false,
                driver_picker: final(self).driver_picker,
                ..*old(self)
            }),
    {
        self.driver_picker_open = false;
        self.driver_picker.reset();
    }

    /// Opens the inline connection form and clears draft-only state.
    pub fn open_form(&mut self)
        ensures
            final(self).form_open,
            !final(self).driver_picker_open,
            final(self).draft_status.is_none(),
            final(self).error.is_none(),
            final(self).selected == old(self).selected,
            final(self).driver_picker == old(self).driver_picker,
            *final(self) == (ConnectState {
                form_open: true,
                driver_picker_open: false,
                draft_status: None,
                error: None,
                ..*old(self)
            }),
    {
        self.form_open = true;
        self.driver_picker_open = false;
        self.draft_status = None;
        self.error = None;
    }

    /// Closes the inline connection form and clears draft-only state.
    pub fn close_form(&mut self)
        ensures
            !final(self).form_open,
            final(self).draft_status.is_none(),
            final(self).driver_picker_open == old(self).driver_picker_open,
            final(self).error == old(self).error,
            final(self).selected == old(self).selected,
            final(self).driver_picker == old(self).driver_picker,
            *final(self) == (ConnectState { form_open: false, draft_status: None, ..*old(self) }),
    {
        self.form_open = false;
        self.draft_status = None;
    }

    /// Moves selection down, wrapping around when reaching the end.
    pub fn select_next(&mut self, len: usize)
        ensures
            final(self).selected == wrapped_next(old(self).selected as int, len as int),
            final(self).error == old(self).error,
            final(self).form_open == old(self).form_open,
            final(self).draft_status == old(self).draft_status,
            *final(self) == (ConnectState { selected: final(self).selected, ..*old(self) }),
    {
        if len == 0 {
            return;
        }
        self.selected = ((self.selected as u128 + 1) % len as u128) as usize;
    }

    /// Moves selection up, wrapping around when reaching the start.
    pub fn select_prev(&mut self, len: usize)
        ensures
            final(self).selected == wrapped_prev(old(self).selected as int, len as int),
            final(self).error == old(self).error,
            final(self).form_open == old(self).form_open,
            final(self).draft_status == old(self).draft_status,
            *final(self) == (ConnectState { selected: final(self).selected, ..*old(self) }),
    {
        if len == 0 {
            return;
        }
        self.selected = if self.selected == 0 {
            len - 1
        } else {
            self.selected - 1
        };
    }
}

/// The row below `selected` in a list of `len` rows, the first after the last.
pub open spec fn wrapped_next(selected: int, len: int) -> int {
    if len == 0 {
        selected
    } else {
        (selected + 1) % len
    }
}

/// The row above `selected` in a list of `len` rows, the last before the first.
pub open spec fn wrapped_prev(selected: int, len: int) -> int {
    if len == 0 {
        selected
    } else if selected == 0 {
        len - 1
    } else {
        selected - 1
    }
}

/// In a list of connections, moving down and then up (or up and then down)
/// selects the row that was selected, and both moves stay inside the list.
pub proof fn law_wrapped_moves_undo_each_other(selected: int, len: int)
    requires
        0 <= selected < len,
    ensures
        wrapped_prev(wrapped_next(selected, len), len) == selected,
        wrapped_next(wrapped_prev(selected, len), len) == selected,
        0 <= wrapped_next(selected, len) < len,
        0 <= wrapped_prev(selected, len) < len,
{
    vstd::arithmetic::div_mod::lemma_mod_self_0(len);
    vstd::arithmetic::div_mod::lemma_small_mod(selected as nat, len as nat);
    if selected + 1 < len {
        vstd::arithmetic::div_mod::lemma_small_mod((selected + 1) as nat, len as nat);
    }
}

} // verus!
