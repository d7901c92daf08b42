//! Saved connection configurations.
use crate::text::{decimal, owned, push_decimal, push_str};
use vstd::prelude::*;

pub mod storage;

verus! {

/// A saved connection for one of the supported drivers.
#[derive(Debug)]
pub enum ConnectConfig {
    /// A PostgreSQL server.
    Postgres(PostgresConfig),
    /// A MySQL server.
    MySql(MySqlConfig),
}

/// Connection settings for a PostgreSQL server.
#[derive(Debug)]
pub struct PostgresConfig {
    /// Display name; the address is shown when absent.
    pub name: Option<String>,
    /// Host name or address.
    pub host: String,
    /// User name.
    pub user: String,
    /// Database name.
    pub db_name: String,
    /// TCP port.
    pub port: u16,
    /// Password, when one is needed.
    pub password: Option<String>,
}

/// Connection settings for a MySQL server.
#[derive(Debug)]
pub struct MySqlConfig {
    /// Display name; the address is shown when absent.
    pub name: Option<String>,
    /// Host name or address.
    pub host: String,
    /// User name.
    pub user: String,
    /// Database name.
    pub db_name: String,
    /// TCP port.
    pub port: u16,
    /// Password, when one is needed.
    pub password: Option<String>,
}

/// A copy of an optional string.
pub fn clone_opt(s: &Option<String>) -> (r: Option<String>)
    ensures
        r == *s,
{
    match s {
        None => None,
        Some(x) => Some(x.clone()),
    }
}

impl Clone for PostgresConfig {
    fn clone(&self) -> (r: Self)
        ensures
            r == *self,
    {
        PostgresConfig {
            name: clone_opt(&self.name),
            host: self.host.clone(),
            user: self.user.clone(),
            db_name: self.db_name.clone(),
            port: self.port,
            password: clone_opt(&self.password),
        }
    }
}

impl Clone for MySqlConfig {
    fn clone(&self) -> (r: Self)
        ensures
            r == *self,
    {
        MySqlConfig {
            name: clone_opt(&self.name),
            host: self.host.clone(),
            user: self.user.clone(),
            db_name: self.db_name.clone(),
            port: self.port,
            password: clone_opt(&self.password),
        }
    }
}

impl Clone for ConnectConfig {
    fn clone(&self) -> (r: Self)
        ensures
            r == *self,
    {
        match self {
            ConnectConfig::Postgres(c) => ConnectConfig::Postgres(c.clone()),
            ConnectConfig::MySql(c) => ConnectConfig::MySql(c.clone()),
        }
    }
}

/// The libpq connection string of a PostgreSQL configuration.
pub open spec fn connection_string_spec(c: PostgresConfig) -> Seq<char> {
    let base = "host="@ + c.host@ + " user="@ + c.user@ + " dbname="@ + c.db_name@ + " port="@
        + decimal(c.port as nat);
    match c.password {
        Some(pw) => base + " password="@ + pw@,
        None => base,
    }
}

impl PostgresConfig {
    /// Builds a libpq-style connection string. Password is included only when set.
    pub fn connection_string(&self) -> (s: String)
        ensures
            s@ == connection_string_spec(*self),
    {
        let mut s = owned("host=");
        push_str(&mut s, self.host.as_str());
        push_str(&mut s, " user=");
        push_str(&mut s, self.user.as_str());
        push_str(&mut s, " dbname=");
        push_str(&mut s, self.db_name.as_str());
        push_str(&mut s, " port=");
        push_decimal(&mut s, self.port as u64);
        match &self.password {
            Some(pw) => {
                push_str(&mut s, " password=");
                push_str(&mut s, pw.as_str());
            },
            None => {},
        }
        assert(s@ =~= connection_string_spec(*self));
        s
    }
}

} // verus!
