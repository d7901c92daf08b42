//! The add/edit connection form: six text fields, focus movement and
//! validation into a driver-specific configuration.
use crate::config::{clone_opt, ConnectConfig, MySqlConfig, PostgresConfig};
use crate::state::connection::{definition_of, DriverKind};
use crate::text::{
    decimal, digits_value, lemma_decimal_digits, owned, parse_u16, parses_as_u16, trim, trim_end,
    trim_start, trimmed, u64_to_string, unsigned_digits,
};
use vstd::prelude::*;

verus! {

/// Number of fields of the form.
pub const FIELD_COUNT: usize = 6;

/// Label of each field, in order.
pub fn field_labels() -> (r: [&'static str; 6])
    ensures
        r@ == seq!["Name (optional)", "Host", "Port", "User", "Database", "Password (optional)"],
{
    let r = ["Name (optional)", "Host", "Port", "User", "Database", "Password (optional)"];
    assert(r@ =~= seq!["Name (optional)", "Host", "Port", "User", "Database", "Password (optional)"]);
    r
}

/// Form state for the Add Connection screen.
#[derive(Debug)]
pub struct FormState {
    /// Driver selected for this form.
    pub driver: DriverKind,
    /// Input buffers: [name, host, port, user, db_name, password].
    pub values: [String; 6],
    /// Index of the currently focused field (0..FIELD_COUNT).
    pub focused: usize,
    /// Validation error shown at the bottom of the form.
    pub error: Option<String>,
    /// Selected connection index when editing an existing connection.
    pub editing_index: Option<usize>,
}

/// Six empty strings.
fn empty_values() -> (v: [String; 6])
    ensures
        forall|i: int| 0 <= i < 6 ==> (#[trigger] v@[i])@.len() == 0,
{
    [String::new(), String::new(), String::new(), String::new(), String::new(), String::new()]
}

impl Default for FormState {
    fn default() -> (f: Self)
        ensures
            f.is_blank(),
            f.driver == DriverKind::Postgres,
    {
        FormState {
            driver: DriverKind::Postgres,
            values: empty_values(),
            focused: 0,
            error: None,
            editing_index: None,
        }
    }
}

/// Why a form does not validate, if it does not: the first of host, user and
/// database that is blank, then a port that is neither blank nor a `u16`.
pub open spec fn form_error(values: Seq<String>) -> Option<Seq<char>> {
    if trim(values[1]@).len() == 0 {
        Some("Host is required"@)
    } else if trim(values[3]@).len() == 0 {
        Some("User is required"@)
    } else if trim(values[4]@).len() == 0 {
        Some("Database is required"@)
    } else if trim(values[2]@).len() > 0 && !parses_as_u16(trim(values[2]@)) {
        Some("Port must be a number 1–65535"@)
    } else {
        None
    }
}

/// The port a valid form gives: the driver default when blank.
pub open spec fn form_port(values: Seq<String>, driver: DriverKind) -> int {
    if trim(values[2]@).len() == 0 {
        definition_of(driver).default_port as int
    } else {
        digits_value(unsigned_digits(trim(values[2]@))) as int
    }
}

/// A trimmed optional field: absent when blank.
pub open spec fn optional_field(v: Seq<char>, r: Option<String>) -> bool {
    if trim(v).len() == 0 {
        r.is_none()
    } else {
        r matches Some(s) && s@ == trim(v)
    }
}

/// The connection fields match the form values.
pub open spec fn fields_match(
    values: Seq<String>,
    driver: DriverKind,
    name: Option<String>,
    host: String,
    user: String,
    db_name: String,
    port: u16,
    password: Option<String>,
) -> bool {
    &&& optional_field(values[0]@, name)
    &&& host@ == trim(values[1]@)
    &&& port == form_port(values, driver)
    &&& user@ == trim(values[3]@)
    &&& db_name@ == trim(values[4]@)
    &&& optional_field(values[5]@, password)
}

/// The configuration a valid form describes.
pub open spec fn config_matches(values: Seq<String>, driver: DriverKind, c: ConnectConfig) -> bool {
    match c {
        ConnectConfig::Postgres(p) => driver == DriverKind::Postgres && fields_match(
            values,
            driver,
            p.name,
            p.host,
            p.user,
            p.db_name,
            p.port,
            p.password,
        ),
        ConnectConfig::MySql(p) => driver == DriverKind::MySql && fields_match(
            values,
            driver,
            p.name,
            p.host,
            p.user,
            p.db_name,
            p.port,
            p.password,
        ),
    }
}

/// Trimmed field, absent when blank.
fn optional_value(v: &String) -> (r: Option<String>)
    ensures
        optional_field(v@, r),
{
    let t = trimmed(v.as_str());
    if t.unicode_len() == 0 {
        None
    } else {
        Some(t)
    }
}

impl FormState {
    /// All fields empty, nothing focused but the first field, no error, not
    /// editing.
    pub open spec fn is_blank(&self) -> bool {
        &&& forall|i: int| 0 <= i < 6 ==> (#[trigger] self.values@[i])@.len() == 0
        &&& self.focused == 0
        &&& self.error.is_none()
        &&& self.editing_index.is_none()
    }

    /// The form `new_for_driver(driver)` builds.
    pub open spec fn is_fresh_for(&self, driver: DriverKind) -> bool {
        &&& self.driver == driver
        &&& self.values@[2]@ == decimal(definition_of(driver).default_port as nat)
        &&& forall|i: int| 0 <= i < 6 && i != 2 ==> (#[trigger] self.values@[i])@.len() == 0
        &&& self.focused == 0
        &&& self.error.is_none()
        &&& self.editing_index.is_none()
    }

    /// Builds an empty form with driver-specific defaults: only the port is
    /// filled, with the driver's default.
    pub fn new_for_driver(driver: DriverKind) -> (f: Self)
        ensures
            f.driver == driver,
            f.values@[2]@ == decimal(definition_of(driver).default_port as nat),
            forall|i: int| 0 <= i < 6 && i != 2 ==> (#[trigger] f.values@[i])@.len() == 0,
            f.focused == 0,
            f.error.is_none(),
            f.editing_index.is_none(),
    {
        let port = u64_to_string(driver.default_port() as u64);
        FormState {
            driver,
            values: [String::new(), String::new(), port, String::new(), String::new(), String::new()],
            focused: 0,
            error: None,
            editing_index: None,
        }
    }

    /// Moves focus to the next field, wrapping around.
    pub fn next_field(&mut self)
        requires
            old(self).focused < usize::MAX,
        ensures
            final(self).focused == (old(self).focused + 1) % 6,
            final(self).values@ == old(self).values@,
            final(self).driver == old(self).driver,
            final(self).error == old(self).error,
            final(self).editing_index == old(self).editing_index,
            *final(self) == (FormState { focused: final(self).focused, ..*old(self) }),
    {
        self.focused = (self.focused + 1) % FIELD_COUNT;
    }

    /// Moves focus to the previous field, wrapping around.
    pub fn prev_field(&mut self)
        requires
            old(self).focused + FIELD_COUNT <= usize::MAX,
        ensures
            final(self).focused == (old(self).focused + 5) % 6,
            final(self).values@ == old(self).values@,
            final(self).driver == old(self).driver,
            final(self).error == old(self).error,
            final(self).editing_index == old(self).editing_index,
            *final(self) == (FormState { focused: final(self).focused, ..*old(self) }),
    {
        self.focused = (self.focused + FIELD_COUNT - 1) % FIELD_COUNT;
    }

    /// Returns a mutable reference to the currently focused field's buffer.
    pub fn current_value_mut(&mut self) -> (r: &mut String)
        requires
            old(self).focused < FIELD_COUNT,
        ensures
            *r == old(self).values@[old(self).focused as int],
            final(self).values@ == old(self).values@.update(old(self).focused as int, *final(r)),
            final(self).focused == old(self).focused,
            final(self).driver == old(self).driver,
            final(self).error == old(self).error,
            final(self).editing_index == old(self).editing_index,
    {
        &mut self.values[self.focused]
    }

    /// Resets all fields and error to their defaults.
    pub fn reset(&mut self)
        ensures
            final(self).is_blank(),
            final(self).driver == DriverKind::Postgres,
    {
        *self = FormState::default();
    }

    /// Builds a pre-filled form for editing an existing Postgres connection.
    pub fn from_postgres_config(cfg: &PostgresConfig, editing_index: Option<usize>) -> (f: Self)
        ensures
            f.driver == DriverKind::Postgres,
            f.editing_index == editing_index,
            f.focused == 0,
            f.error.is_none(),
            f.values@[0]@ == (match cfg.name {
                Some(n) => n@,
                None => Seq::<char>::empty(),
            }),
            f.values@[1]@ == cfg.host@,
            f.values@[2]@ == decimal(cfg.port as nat),
            f.values@[3]@ == cfg.user@,
            f.values@[4]@ == cfg.db_name@,
            f.values@[5]@ == (match cfg.password {
                Some(n) => n@,
                None => Seq::<char>::empty(),
            }),
    {
        FormState {
            driver: DriverKind::Postgres,
            values: [
                or_empty(&cfg.name),
                cfg.host.clone(),
                u64_to_string(cfg.port as u64),
                cfg.user.clone(),
                cfg.db_name.clone(),
                or_empty(&cfg.password),
            ],
            focused: 0,
            error: None,
            editing_index,
        }
    }

    /// Builds a pre-filled form for editing an existing saved connection.
    pub fn from_connect_config(cfg: &ConnectConfig, editing_index: Option<usize>) -> (f: Self)
        ensures
            f.editing_index == editing_index,
            f.focused == 0,
            f.error.is_none(),
            form_shows(f.values@, f.driver, *cfg),
    {
        match cfg {
            ConnectConfig::Postgres(cfg) => Self::from_postgres_config(cfg, editing_index),
            ConnectConfig::MySql(cfg) => FormState {
                driver: DriverKind::MySql,
                values: [
                    or_empty(&cfg.name),
                    cfg.host.clone(),
                    u64_to_string(cfg.port as u64),
                    cfg.user.clone(),
                    cfg.db_name.clone(),
                    or_empty(&cfg.password),
                ],
                focused: 0,
                error: None,
                editing_index,
            },
        }
    }

    /// Returns true when the form is editing an existing connection.
    pub fn is_editing(&self) -> (r: bool)
        ensures
            r == self.editing_index.is_some(),
    {
        self.editing_index.is_some()
    }

    /// Validates the form and returns a driver-specific connection config, or the
    /// message of the first problem found.
    pub fn to_connect_config(&self) -> (r: Result<ConnectConfig, String>)
        ensures
            match r {
                Ok(c) => form_error(self.values@).is_none() && config_matches(
                    self.values@,
                    self.driver,
                    c,
                ),
                Err(e) => form_error(self.values@) == Some(e@),
            },
    {
        let host = trimmed(self.values[1].as_str());
        let port_str = trimmed(self.values[2].as_str());
        let user = trimmed(self.values[3].as_str());
        let db_name = trimmed(self.values[4].as_str());
        if host.unicode_len() == 0 {
            return Err(owned("Host is required"));
        }
        if user.unicode_len() == 0 {
            return Err(owned("User is required"));
        }
        if db_name.unicode_len() == 0 {
            return Err(owned("Database is required"));
        }
        let port: u16 = if port_str.unicode_len() == 0 {
            self.driver.default_port()
        } else {
            match parse_u16(port_str.as_str()) {
                Some(p) => p,
                None => {
                    return Err(owned("Port must be a number 1–65535"));
                },
            }
        };
        let name = optional_value(&self.values[0]);
        let password = optional_value(&self.values[5]);
        match self.driver {
            DriverKind::Postgres => Ok(
                ConnectConfig::Postgres(
                    PostgresConfig { name, host, user, db_name, port, password },
                ),
            ),
            DriverKind::MySql => Ok(
                ConnectConfig::MySql(MySqlConfig { name, host, user, db_name, port, password }),
            ),
        }
    }
}

/// The form values show the given connection fields.
pub open spec fn prefilled(
    values: Seq<String>,
    name: Option<String>,
    host: String,
    port: u16,
    user: String,
    db_name: String,
    password: Option<String>,
) -> bool {
    &&& values[0]@ == (match name {
        Some(n) => n@,
        None => Seq::<char>::empty(),
    })
    &&& values[1]@ == host@
    &&& values[2]@ == decimal(port as nat)
    &&& values[3]@ == user@
    &&& values[4]@ == db_name@
    &&& values[5]@ == (match password {
        Some(n) => n@,
        None => Seq::<char>::empty(),
    })
}

/// The string held, or an empty one.
fn or_empty(s: &Option<String>) -> (r: String)
    ensures
        r@ == (match *s {
            Some(n) => n@,
            None => Seq::<char>::empty(),
        }),
{
    match s {
        Some(n) => n.clone(),
        None => String::new(),
    }
}

/// Fields as the form saves them: host, user and database non-empty and
/// without surrounding whitespace, name and password absent or non-empty and
/// without surrounding whitespace.
pub open spec fn fields_as_saved(
    name: Option<String>,
    host: String,
    user: String,
    db_name: String,
    password: Option<String>,
) -> bool {
    &&& host@.len() > 0 && trim(host@) == host@
    &&& user@.len() > 0 && trim(user@) == user@
    &&& db_name@.len() > 0 && trim(db_name@) == db_name@
    &&& (name matches Some(n) ==> n@.len() > 0 && trim(n@) == n@)
    &&& (password matches Some(n) ==> n@.len() > 0 && trim(n@) == n@)
}

/// A connection the form could have saved.
pub open spec fn config_as_saved(c: ConnectConfig) -> bool {
    match c {
        ConnectConfig::Postgres(p) => fields_as_saved(p.name, p.host, p.user, p.db_name, p.password),
        ConnectConfig::MySql(p) => fields_as_saved(p.name, p.host, p.user, p.db_name, p.password),
    }
}

/// Form values and driver as `from_connect_config` fills them from `c`.
pub open spec fn form_shows(values: Seq<String>, driver: DriverKind, c: ConnectConfig) -> bool {
    match c {
        ConnectConfig::Postgres(p) => driver == DriverKind::Postgres && prefilled(
            values,
            p.name,
            p.host,
            p.port,
            p.user,
            p.db_name,
            p.password,
        ),
        ConnectConfig::MySql(p) => driver == DriverKind::MySql && prefilled(
            values,
            p.name,
            p.host,
            p.port,
            p.user,
            p.db_name,
            p.password,
        ),
    }
}

proof fn lemma_optional_round_trip(v: Seq<char>, r: Option<String>)
    requires
        v == (match r {
            Some(n) => n@,
            None => Seq::<char>::empty(),
        }),
        r matches Some(n) ==> n@.len() > 0 && trim(n@) == n@,
    ensures
        optional_field(v, r),
{
    if r.is_none() {
        assert(trim_start(v) == v);
        assert(trim_end(v) == v);
    }
}

/// Opening a saved connection in the form and saving it unchanged validates
/// and gives back the same connection, for every connection the form could
/// have saved.
pub proof fn law_edit_form_round_trip(values: Seq<String>, driver: DriverKind, c: ConnectConfig)
    requires
        form_shows(values, driver, c),
        config_as_saved(c),
    ensures
        form_error(values).is_none(),
        config_matches(values, driver, c),
{
    match c {
        ConnectConfig::Postgres(p) => {
            lemma_decimal_digits(p.port as nat);
            lemma_optional_round_trip(values[0]@, p.name);
            lemma_optional_round_trip(values[5]@, p.password);
        },
        ConnectConfig::MySql(p) => {
            lemma_decimal_digits(p.port as nat);
            lemma_optional_round_trip(values[0]@, p.name);
            lemma_optional_round_trip(values[5]@, p.password);
        },
    }
}

} // verus!
