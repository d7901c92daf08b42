//! The on-disk form of the saved connections: one list per driver.
//! Reading and writing the file happens outside the library; these functions
//! convert between the parsed file and the connection list.
use crate::config::{clone_opt, ConnectConfig, MySqlConfig, PostgresConfig};
use vstd::prelude::*;

verus! {

/// The whole configuration file.
#[derive(Debug)]
pub struct StoredConfig {
    /// The `[connections]` table.
    pub connections: StoredConnections,
}

/// Saved connections grouped by driver.
#[derive(Debug)]
pub struct StoredConnections {
    /// PostgreSQL connections.
    pub postgres: Vec<StoredConnection>,
    /// MySQL connections.
    pub mysql: Vec<StoredConnection>,
}

/// One saved connection.
#[derive(Debug)]
pub struct StoredConnection {
    /// Display name.
    pub name: Option<String>,
    /// Host name or address.
    pub host: String,
    /// User name.
    pub user: String,
    /// Database name.
    pub db_name: String,
    /// TCP port.
    pub port: u16,
    /// Password.
    pub password: Option<String>,
}

/// The stored form of a PostgreSQL configuration.
pub open spec fn stored_from_pg(c: PostgresConfig) -> StoredConnection {
    StoredConnection {
        name: c.name,
        host: c.host,
        user: c.user,
        db_name: c.db_name,
        port: c.port,
        password: c.password,
    }
}

/// The stored form of a MySQL configuration.
pub open spec fn stored_from_my(c: MySqlConfig) -> StoredConnection {
    StoredConnection {
        name: c.name,
        host: c.host,
        user: c.user,
        db_name: c.db_name,
        port: c.port,
        password: c.password,
    }
}

/// The PostgreSQL configuration a stored connection describes.
pub open spec fn pg_from_stored(c: StoredConnection) -> ConnectConfig {
    ConnectConfig::Postgres(
        PostgresConfig {
            name: c.name,
            host: c.host,
            user: c.user,
            db_name: c.db_name,
            port: c.port,
            password: c.password,
        },
    )
}

/// The MySQL configuration a stored connection describes.
pub open spec fn my_from_stored(c: StoredConnection) -> ConnectConfig {
    ConnectConfig::MySql(
        MySqlConfig {
            name: c.name,
            host: c.host,
            user: c.user,
            db_name: c.db_name,
            port: c.port,
            password: c.password,
        },
    )
}

/// The connection list a stored file describes: PostgreSQL entries first, then
/// MySQL entries, each in file order.
pub open spec fn configs_of(s: StoredConfig) -> Seq<ConnectConfig> {
    s.connections.postgres@.map_values(|c: StoredConnection| pg_from_stored(c))
        + s.connections.mysql@.map_values(|c: StoredConnection| my_from_stored(c))
}

/// The PostgreSQL entries of a connection list, in order, in stored form.
pub open spec fn pg_entries(cs: Seq<ConnectConfig>) -> Seq<StoredConnection>
    decreases cs.len(),
{
    if cs.len() == 0 {
        Seq::empty()
    } else {
        match cs.last() {
            ConnectConfig::Postgres(c) => pg_entries(cs.drop_last()).push(stored_from_pg(c)),
            ConnectConfig::MySql(_) => pg_entries(cs.drop_last()),
        }
    }
}

/// The MySQL entries of a connection list, in order, in stored form.
pub open spec fn my_entries(cs: Seq<ConnectConfig>) -> Seq<StoredConnection>
    decreases cs.len(),
{
    if cs.len() == 0 {
        Seq::empty()
    } else {
        match cs.last() {
            ConnectConfig::Postgres(_) => my_entries(cs.drop_last()),
            ConnectConfig::MySql(c) => my_entries(cs.drop_last()).push(stored_from_my(c)),
        }
    }
}

fn clone_stored(c: &StoredConnection) -> (r: StoredConnection)
    ensures
        r == *c,
{
    StoredConnection {
        name: clone_opt(&c.name),
        host: c.host.clone(),
        user: c.user.clone(),
        db_name: c.db_name.clone(),
        port: c.port,
        password: clone_opt(&c.password),
    }
}

/// Saved connections, converted from and to their stored form.
pub struct ConfigStorage;

impl ConfigStorage {
    /// The connections of a parsed configuration file; a file that is missing or
    /// could not be parsed (`None`) holds none.
    pub fn load(stored: Option<StoredConfig>) -> (r: Vec<ConnectConfig>)
        ensures
            stored.is_none() ==> r@.len() == 0,
            stored matches Some(s) ==> r@ == configs_of(s),
    {
        let mut out: Vec<ConnectConfig> = Vec::new();
        let s = match stored {
            None => {
                return out;
            },
            Some(s) => s,
        };
        let pg = &s.connections.postgres;
        let my = &s.connections.mysql;
        let np = pg.len();
        let mut i: usize = 0;
        while i < np
            invariant
                np == pg@.len(),
                i <= np,
                out@ == pg@.subrange(0, i as int).map_values(
                    |c: StoredConnection| pg_from_stored(c),
                ),
            decreases np - i,
        {
            let c = clone_stored(&pg[i]);
            out.push(
                ConnectConfig::Postgres(
                    PostgresConfig {
                        name: c.name,
                        host: c.host,
                        user: c.user,
                        db_name: c.db_name,
                        port: c.port,
                        password: c.password,
                    },
                ),
            );
            i += 1;
            assert(out@ =~= pg@.subrange(0, i as int).map_values(
                |c: StoredConnection| pg_from_stored(c),
            ));
        }
        let ghost first = out@;
        assert(pg@.subrange(0, np as int) =~= pg@);
        let nm = my.len();
        let mut j: usize = 0;
        while j < nm
            invariant
                nm == my@.len(),
                j <= nm,
                first == pg@.map_values(|c: StoredConnection| pg_from_stored(c)),
                out@ == first + my@.subrange(0, j as int).map_values(
                    |c: StoredConnection| my_from_stored(c),
                ),
            decreases nm - j,
        {
            let c = clone_stored(&my[j]);
            out.push(
                ConnectConfig::MySql(
                    MySqlConfig {
                        name: c.name,
                        host: c.host,
                        user: c.user,
                        db_name: c.db_name,
                        port: c.port,
                        password: c.password,
                    },
                ),
            );
            j += 1;
            assert(out@ =~= first + my@.subrange(0, j as int).map_values(
                |c: StoredConnection| my_from_stored(c),
            ));
        }
        assert(my@.subrange(0, nm as int) =~= my@);
        out
    }

    /// The stored form of a connection list: each entry goes to the list of its
    /// driver, order kept.
    pub fn save(connections: &[ConnectConfig]) -> (r: StoredConfig)
        ensures
            r.connections.postgres@ == pg_entries(connections@),
            r.connections.mysql@ == my_entries(connections@),
    {
        let mut pg: Vec<StoredConnection> = Vec::new();
        let mut my: Vec<StoredConnection> = Vec::new();
        let n = connections.len();
        let mut i: usize = 0;
        while i < n
            invariant
                n == connections@.len(),
                i <= n,
                pg@ == pg_entries(connections@.subrange(0, i as int)),
                my@ == my_entries(connections@.subrange(0, i as int)),
            decreases n - i,
        {
            assert(connections@.subrange(0, i + 1).drop_last() =~= connections@.subrange(
                0,
                i as int,
            ));
            match &connections[i] {
                ConnectConfig::Postgres(c) => {
                    let c = c.clone();
                    pg.push(
                        StoredConnection {
                            name: c.name,
                            host: c.host,
                            user: c.user,
                            db_name: c.db_name,
                            port: c.port,
                            password: c.password,
                        },
                    );
                },
                ConnectConfig::MySql(c) => {
                    let c = c.clone();
                    my.push(
                        StoredConnection {
                            name: c.name,
                            host: c.host,
                            user: c.user,
                            db_name: c.db_name,
                            port: c.port,
                            password: c.password,
                        },
                    );
                },
            }
            i += 1;
        }
        assert(connections@.subrange(0, n as int) =~= connections@);
        StoredConfig { connections: StoredConnections { postgres: pg, mysql: my } }
    }
}

/// The PostgreSQL connections of a list, in order.
pub open spec fn postgres_only(cs: Seq<ConnectConfig>) -> Seq<ConnectConfig>
    decreases cs.len(),
{
    if cs.len() == 0 {
        Seq::empty()
    } else {
        match cs.last() {
            ConnectConfig::Postgres(_) => postgres_only(cs.drop_last()).push(cs.last()),
            ConnectConfig::MySql(_) => postgres_only(cs.drop_last()),
        }
    }
}

/// The MySQL connections of a list, in order.
pub open spec fn mysql_only(cs: Seq<ConnectConfig>) -> Seq<ConnectConfig>
    decreases cs.len(),
{
    if cs.len() == 0 {
        Seq::empty()
    } else {
        match cs.last() {
            ConnectConfig::Postgres(_) => mysql_only(cs.drop_last()),
            ConnectConfig::MySql(_) => mysql_only(cs.drop_last()).push(cs.last()),
        }
    }
}

proof fn lemma_pg_entries_back(cs: Seq<ConnectConfig>)
    ensures
        pg_entries(cs).map_values(|c: StoredConnection| pg_from_stored(c)) == postgres_only(cs),
    decreases cs.len(),
{
    if cs.len() > 0 {
        lemma_pg_entries_back(cs.drop_last());
        match cs.last() {
            ConnectConfig::Postgres(c) => {
                assert(pg_entries(cs).map_values(|c: StoredConnection| pg_from_stored(c))
                    =~= pg_entries(cs.drop_last()).map_values(
                    |c: StoredConnection| pg_from_stored(c),
                ).push(pg_from_stored(stored_from_pg(c))));
            },
            ConnectConfig::MySql(_) => {},
        }
    } else {
        assert(pg_entries(cs).map_values(|c: StoredConnection| pg_from_stored(c)) =~= Seq::<
            ConnectConfig,
        >::empty());
    }
}

proof fn lemma_my_entries_back(cs: Seq<ConnectConfig>)
    ensures
        my_entries(cs).map_values(|c: StoredConnection| my_from_stored(c)) == mysql_only(cs),
    decreases cs.len(),
{
    if cs.len() > 0 {
        lemma_my_entries_back(cs.drop_last());
        match cs.last() {
            ConnectConfig::MySql(c) => {
                assert(my_entries(cs).map_values(|c: StoredConnection| my_from_stored(c))
                    =~= my_entries(cs.drop_last()).map_values(
                    |c: StoredConnection| my_from_stored(c),
                ).push(my_from_stored(stored_from_my(c))));
            },
            ConnectConfig::Postgres(_) => {},
        }
    } else {
        assert(my_entries(cs).map_values(|c: StoredConnection| my_from_stored(c)) =~= Seq::<
            ConnectConfig,
        >::empty());
    }
}

proof fn lemma_split_len(cs: Seq<ConnectConfig>)
    ensures
        postgres_only(cs).len() + mysql_only(cs).len() == cs.len(),
    decreases cs.len(),
{
    if cs.len() > 0 {
        lemma_split_len(cs.drop_last());
    }
}

/// Saving connections and loading the saved file gives every connection back
/// unchanged: the PostgreSQL ones first, then the MySQL ones, each group in
/// its original order.
pub proof fn law_saved_connections_load_back(cs: Seq<ConnectConfig>, stored: StoredConfig)
    requires
        stored.connections.postgres@ == pg_entries(cs),
        stored.connections.mysql@ == my_entries(cs),
    ensures
        configs_of(stored) == postgres_only(cs) + mysql_only(cs),
        configs_of(stored).len() == cs.len(),
{
    lemma_pg_entries_back(cs);
    lemma_my_entries_back(cs);
    lemma_split_len(cs);
}

/// A list holding only PostgreSQL connections loads back exactly as saved, in
/// the same order.
pub proof fn law_postgres_connections_round_trip(cs: Seq<ConnectConfig>, stored: StoredConfig)
    requires
        stored.connections.postgres@ == pg_entries(cs),
        stored.connections.mysql@ == my_entries(cs),
        forall|i: int| 0 <= i < cs.len() ==> (#[trigger] cs[i]) is Postgres,
    ensures
        configs_of(stored) == cs,
    decreases cs.len(),
{
    law_saved_connections_load_back(cs, stored);
    lemma_all_postgres(cs);
}

proof fn lemma_all_postgres(cs: Seq<ConnectConfig>)
    requires
        forall|i: int| 0 <= i < cs.len() ==> (#[trigger] cs[i]) is Postgres,
    ensures
        postgres_only(cs) == cs,
        mysql_only(cs) == Seq::<ConnectConfig>::empty(),
    decreases cs.len(),
{
    if cs.len() > 0 {
        assert(cs.last() is Postgres) by {
            assert(cs[cs.len() - 1] is Postgres);
        }
        assert forall|i: int| 0 <= i < cs.drop_last().len() implies (#[trigger] cs.drop_last()[i]) is Postgres by {
            assert(cs.drop_last()[i] == cs[i]);
        }
        lemma_all_postgres(cs.drop_last());
        assert(cs.drop_last().push(cs.last()) =~= cs);
    }
}

} // verus!
