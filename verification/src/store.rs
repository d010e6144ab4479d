use vstd::prelude::*;
use crate::error::StoreError;
use crate::model::{KeyRow, ServerRow, clear_defaults, key_row, server_row};

verus! {

/// rusqlite's database connection. It is opaque to the verifier; the two
/// tables it reaches are modelled by `key_table` and `server_table`.
#[verifier::external_type_specification]
#[verifier::external_body]
pub struct ExConnection(rusqlite::Connection);

/// The contents of the `ssh_keys` table of the database behind `c`: rowid to
/// column values, the flag read as rusqlite reads a `bool` column (any
/// stored value other than zero is `true`). An absent table holds no rows.
/// The model speaks of the connection, so it is sound only while `c` is the
/// database's sole door: a second connection to the same file, or triggers
/// of a foreign schema, fall outside it.
pub uninterp spec fn key_table(c: rusqlite::Connection) -> Map<i64, KeyRow>;

/// The contents of the `servers` table of the database behind `c`, under
/// the same sole-door reading as `key_table`.
pub uninterp spec fn server_table(c: rusqlite::Connection) -> Map<i64, ServerRow>;

/// Relies on rusqlite's `Connection::open_in_memory`: a fresh in-memory
/// database holds no rows in any table.
#[verifier::external_body]
pub fn open_memory_store() -> (r: Result<rusqlite::Connection, StoreError>)
    ensures
        r is Ok ==> key_table(r->Ok_0) == crate::model::empty_keys() && server_table(r->Ok_0)
            == crate::model::empty_servers(),
{
    rusqlite::Connection::open_in_memory().map_err(|e| StoreError::Storage(e.to_string()))
}

/// Relies on rusqlite's `Connection::open`: opens the database file at
/// `path`, with whatever rows its tables already hold; nothing more is
/// assumed of the result. The file must be this library's own store,
/// reached through the returned connection alone (see `key_table`).
#[verifier::external_body]
pub fn open_store(path: &str) -> (r: Result<rusqlite::Connection, StoreError>) {
    rusqlite::Connection::open(path).map_err(|e| StoreError::Storage(e.to_string()))
}

/// Relies on rusqlite's `Connection::execute`: `CREATE TABLE IF NOT EXISTS`
/// creates a table when it is absent and never adds, drops or changes a row.
#[verifier::external_body]
pub fn init_schema(conn: &mut rusqlite::Connection) -> (r: Result<(), StoreError>)
    ensures
        key_table(*final(conn)) == key_table(*old(conn)),
        server_table(*final(conn)) == server_table(*old(conn)),
{
    conn.execute(
        "CREATE TABLE IF NOT EXISTS ssh_keys (id INTEGER PRIMARY KEY, name TEXT NOT NULL, path TEXT NOT NULL, is_default INTEGER NOT NULL, created_at TEXT NOT NULL, updated_at TEXT NOT NULL)",
        (),
    ).map_err(|e| StoreError::Storage(e.to_string()))?;
    conn.execute(
        "CREATE TABLE IF NOT EXISTS servers (id INTEGER PRIMARY KEY, name TEXT NOT NULL, host TEXT NOT NULL, credential TEXT NOT NULL, created_at TEXT NOT NULL, updated_at TEXT NOT NULL)",
        (),
    ).map_err(|e| StoreError::Storage(e.to_string()))?;
    Ok(())
}

/// Relies on rusqlite's `Connection::execute`: this UPDATE zeroes the flag
/// column on every `ssh_keys` row where it is non-zero, so afterwards no
/// row reads as default, and changes nothing else; a failed statement
/// changes nothing (SQLite statements are atomic).
#[verifier::external_body]
pub fn clear_key_defaults(conn: &mut rusqlite::Connection) -> (r: Result<(), StoreError>)
    ensures
        r is Ok ==> key_table(*final(conn)) == clear_defaults(key_table(*old(conn))),
        r is Err ==> key_table(*final(conn)) == key_table(*old(conn)),
        r matches Err(e) ==> e is Storage,
        server_table(*final(conn)) == server_table(*old(conn)),
{
    match conn.execute("UPDATE ssh_keys SET is_default = 0 WHERE is_default <> 0", ()) {
        Ok(_) => Ok(()),
        Err(e) => Err(StoreError::Storage(e.to_string())),
    }
}

/// Relies on rusqlite's `Connection::execute` (INSERT) and
/// `Connection::last_insert_rowid`: the INSERT adds one new row with exactly
/// the given column values, under a rowid no current row has, and
/// `last_insert_rowid` returns that rowid; a failed statement changes
/// nothing.
#[verifier::external_body]
pub fn insert_key(
    conn: &mut rusqlite::Connection,
    name: &str,
    path: &str,
    is_default: bool,
    now: &str,
) -> (r: Result<i64, StoreError>)
    ensures
        r matches Ok(id) ==> !key_table(*old(conn)).dom().contains(id) && key_table(*final(conn))
            == key_table(*old(conn)).insert(id, key_row(name@, path@, is_default, now@)),
        r is Err ==> key_table(*final(conn)) == key_table(*old(conn)),
        r matches Err(e) ==> e is Storage,
        server_table(*final(conn)) == server_table(*old(conn)),
{
    let res = conn.execute(
        "INSERT INTO ssh_keys (name, path, is_default, created_at, updated_at) VALUES (?1, ?2, ?3, ?4, ?5)",
        (name, path, is_default, now, now),
    );
    match res {
        Ok(_) => Ok(conn.last_insert_rowid()),
        Err(e) => Err(StoreError::Storage(e.to_string())),
    }
}

/// Relies on rusqlite's `Connection::query_row`: returns the columns of the
/// `ssh_keys` row with this id, or `QueryReturnedNoRows` when there is none.
#[verifier::external_body]
pub fn select_key(conn: &rusqlite::Connection, id: i64) -> (r: Result<
    (String, String, bool, String, String),
    StoreError,
>)
    ensures
        r matches Ok(t) ==> key_table(*conn).dom().contains(id) && t.0@ == key_table(*conn)[id].name
            && t.1@ == key_table(*conn)[id].path && t.2 == key_table(*conn)[id].is_default && t.3@
            == key_table(*conn)[id].created_at && t.4@ == key_table(*conn)[id].updated_at,
        r matches Err(e) && e is NotFound ==> !key_table(*conn).dom().contains(id),
        !key_table(*conn).dom().contains(id) ==> r is Err,
{
    let res = conn.query_row(
        "SELECT name, path, is_default, created_at, updated_at FROM ssh_keys WHERE id = ?1",
        (id,),
        |row| Ok((row.get(0)?, row.get(1)?, row.get(2)?, row.get(3)?, row.get(4)?)),
    );
    match res {
        Ok(t) => Ok(t),
        Err(rusqlite::Error::QueryReturnedNoRows) => Err(StoreError::NotFound),
        Err(e) => Err(StoreError::Storage(e.to_string())),
    }
}

/// Relies on rusqlite's `Connection::prepare` and `Statement::query_map`:
/// yields every row of `ssh_keys` exactly once, in storage order.
#[verifier::external_body]
pub fn select_all_keys(conn: &rusqlite::Connection) -> (r: Result<
    Vec<(i64, String, String, bool, String, String)>,
    StoreError,
>)
    ensures
        r matches Ok(v) ==> (forall|i: int|
            0 <= i < v@.len() ==> key_entry_matches(#[trigger] v@[i], key_table(*conn))) && (
        forall|i: int, j: int|
            0 <= i < j < v@.len() ==> (#[trigger] v@[i]).0 != (#[trigger] v@[j]).0) && (forall|
            id: i64,
        |
            #[trigger] key_table(*conn).dom().contains(id) ==> exists|i: int|
                0 <= i < v@.len() && (#[trigger] v@[i]).0 == id),
{
    let mut stmt = conn.prepare(
        "SELECT id, name, path, is_default, created_at, updated_at FROM ssh_keys",
    ).map_err(|e| StoreError::Storage(e.to_string()))?;
    let rows = stmt.query_map(
        (),
        |row| Ok((row.get(0)?, row.get(1)?, row.get(2)?, row.get(3)?, row.get(4)?, row.get(5)?)),
    ).map_err(|e| StoreError::Storage(e.to_string()))?;
    let mut out = Vec::new();
    for item in rows {
        out.push(item.map_err(|e| StoreError::Storage(e.to_string()))?);
    }
    Ok(out)
}

/// One row of `select_all_keys`'s result is the stored row under its id.
pub open spec fn key_entry_matches(
    t: (i64, String, String, bool, String, String),
    m: Map<i64, KeyRow>,
) -> bool {
    &&& m.dom().contains(t.0)
    &&& t.1@ == m[t.0].name
    &&& t.2@ == m[t.0].path
    &&& t.3 == m[t.0].is_default
    &&& t.4@ == m[t.0].created_at
    &&& t.5@ == m[t.0].updated_at
}

/// Relies on rusqlite's `Connection::execute`: this UPDATE sets the default
/// flag on the row with this id, if any, and changes nothing else; a failed
/// statement changes nothing.
#[verifier::external_body]
pub fn set_key_default_flag(conn: &mut rusqlite::Connection, id: i64) -> (r: Result<
    (),
    StoreError,
>)
    ensures
        r is Ok && key_table(*old(conn)).dom().contains(id) ==> key_table(*final(conn))
            == key_table(*old(conn)).insert(
            id,
            (KeyRow { is_default: true, ..key_table(*old(conn))[id] }),
        ),
        r is Ok && !key_table(*old(conn)).dom().contains(id) ==> key_table(*final(conn))
            == key_table(*old(conn)),
        r is Err ==> key_table(*final(conn)) == key_table(*old(conn)),
        r matches Err(e) ==> e is Storage,
        server_table(*final(conn)) == server_table(*old(conn)),
{
    match conn.execute("UPDATE ssh_keys SET is_default = 1 WHERE id = ?1", (id,)) {
        Ok(_) => Ok(()),
        Err(e) => Err(StoreError::Storage(e.to_string())),
    }
}

/// Relies on rusqlite's `Connection::execute`: DELETE removes the `ssh_keys`
/// row with this id, if any, and nothing else; a failed statement changes
/// nothing.
#[verifier::external_body]
pub fn delete_key_row(conn: &mut rusqlite::Connection, id: i64) -> (r: Result<(), StoreError>)
    ensures
        r is Ok ==> key_table(*final(conn)) == key_table(*old(conn)).remove(id),
        r is Err ==> key_table(*final(conn)) == key_table(*old(conn)),
        r matches Err(e) ==> e is Storage,
        server_table(*final(conn)) == server_table(*old(conn)),
{
    match conn.execute("DELETE FROM ssh_keys WHERE id = ?1", (id,)) {
        Ok(_) => Ok(()),
        Err(e) => Err(StoreError::Storage(e.to_string())),
    }
}

/// Relies on rusqlite's `Connection::execute` (INSERT) and
/// `Connection::last_insert_rowid`, as `insert_key` does, on the `servers`
/// table.
#[verifier::external_body]
pub fn insert_server(
    conn: &mut rusqlite::Connection,
    name: &str,
    host: &str,
    credential: &str,
    now: &str,
) -> (r: Result<i64, StoreError>)
    ensures
        r matches Ok(id) ==> !server_table(*old(conn)).dom().contains(id) && server_table(
            *final(conn),
        ) == server_table(*old(conn)).insert(id, server_row(name@, host@, credential@, now@)),
        r is Err ==> server_table(*final(conn)) == server_table(*old(conn)),
        r matches Err(e) ==> e is Storage,
        key_table(*final(conn)) == key_table(*old(conn)),
{
    let res = conn.execute(
        "INSERT INTO servers (name, host, credential, created_at, updated_at) VALUES (?1, ?2, ?3, ?4, ?5)",
        (name, host, credential, now, now),
    );
    match res {
        Ok(_) => Ok(conn.last_insert_rowid()),
        Err(e) => Err(StoreError::Storage(e.to_string())),
    }
}

/// Relies on rusqlite's `Connection::query_row`: returns the columns of the
/// `servers` row with this id, or `QueryReturnedNoRows` when there is none.
#[verifier::external_body]
pub fn select_server(conn: &rusqlite::Connection, id: i64) -> (r: Result<
    (String, String, String, String, String),
    StoreError,
>)
    ensures
        r matches Ok(t) ==> server_table(*conn).dom().contains(id) && t.0@ == server_table(
            *conn,
        )[id].name && t.1@ == server_table(*conn)[id].host && t.2@ == server_table(
            *conn,
        )[id].credential && t.3@ == server_table(*conn)[id].created_at && t.4@ == server_table(
            *conn,
        )[id].updated_at,
        r matches Err(e) && e is NotFound ==> !server_table(*conn).dom().contains(id),
        !server_table(*conn).dom().contains(id) ==> r is Err,
{
    let res = conn.query_row(
        "SELECT name, host, credential, created_at, updated_at FROM servers WHERE id = ?1",
        (id,),
        |row| Ok((row.get(0)?, row.get(1)?, row.get(2)?, row.get(3)?, row.get(4)?)),
    );
    match res {
        Ok(t) => Ok(t),
        Err(rusqlite::Error::QueryReturnedNoRows) => Err(StoreError::NotFound),
        Err(e) => Err(StoreError::Storage(e.to_string())),
    }
}

/// Relies on rusqlite's `Connection::prepare` and `Statement::query_map`:
/// yields every row of `servers` exactly once, in storage order.
#[verifier::external_body]
pub fn select_all_servers(conn: &rusqlite::Connection) -> (r: Result<
    Vec<(i64, String, String, String, String, String)>,
    StoreError,
>)
    ensures
        r matches Ok(v) ==> (forall|i: int|
            0 <= i < v@.len() ==> server_entry_matches(#[trigger] v@[i], server_table(*conn))) && (
        forall|i: int, j: int|
            0 <= i < j < v@.len() ==> (#[trigger] v@[i]).0 != (#[trigger] v@[j]).0) && (forall|
            id: i64,
        |
            #[trigger] server_table(*conn).dom().contains(id) ==> exists|i: int|
                0 <= i < v@.len() && (#[trigger] v@[i]).0 == id),
{
    let mut stmt = conn.prepare(
        "SELECT id, name, host, credential, created_at, updated_at FROM servers",
    ).map_err(|e| StoreError::Storage(e.to_string()))?;
    let rows = stmt.query_map(
        (),
        |row| Ok((row.get(0)?, row.get(1)?, row.get(2)?, row.get(3)?, row.get(4)?, row.get(5)?)),
    ).map_err(|e| StoreError::Storage(e.to_string()))?;
    let mut out = Vec::new();
    for item in rows {
        out.push(item.map_err(|e| StoreError::Storage(e.to_string()))?);
    }
    Ok(out)
}

/// One row of `select_all_servers`'s result is the stored row under its id.
pub open spec fn server_entry_matches(
    t: (i64, String, String, String, String, String),
    m: Map<i64, ServerRow>,
) -> bool {
    &&& m.dom().contains(t.0)
    &&& t.1@ == m[t.0].name
    &&& t.2@ == m[t.0].host
    &&& t.3@ == m[t.0].credential
    &&& t.4@ == m[t.0].created_at
    &&& t.5@ == m[t.0].updated_at
}

/// Relies on rusqlite's `Connection::execute`: this UPDATE replaces the
/// named columns and the update timestamp on the `servers` row with this
/// id, if any, keeps its creation timestamp, and changes nothing else; a
/// failed statement changes nothing.
#[verifier::external_body]
pub fn update_server_row(
    conn: &mut rusqlite::Connection,
    id: i64,
    name: &str,
    host: &str,
    credential: &str,
    now: &str,
) -> (r: Result<(), StoreError>)
    ensures
        r is Ok && server_table(*old(conn)).dom().contains(id) ==> server_table(*final(conn))
            == server_table(*old(conn)).insert(
            id,
            (ServerRow {
                name: name@,
                host: host@,
                credential: credential@,
                created_at: server_table(*old(conn))[id].created_at,
                updated_at: now@,
            }),
        ),
        r is Ok && !server_table(*old(conn)).dom().contains(id) ==> server_table(*final(conn))
            == server_table(*old(conn)),
        r is Err ==> server_table(*final(conn)) == server_table(*old(conn)),
        r matches Err(e) ==> e is Storage,
        key_table(*final(conn)) == key_table(*old(conn)),
{
    let res = conn.execute(
        "UPDATE servers SET name = ?1, host = ?2, credential = ?3, updated_at = ?4 WHERE id = ?5",
        (name, host, credential, now, id),
    );
    match res {
        Ok(_) => Ok(()),
        Err(e) => Err(StoreError::Storage(e.to_string())),
    }
}

/// Relies on rusqlite's `Connection::execute`: DELETE removes the `servers`
/// row with this id, if any, and nothing else; a failed statement changes
/// nothing.
#[verifier::external_body]
pub fn delete_server_row(conn: &mut rusqlite::Connection, id: i64) -> (r: Result<(), StoreError>)
    ensures
        r is Ok ==> server_table(*final(conn)) == server_table(*old(conn)).remove(id),
        r is Err ==> server_table(*final(conn)) == server_table(*old(conn)),
        r matches Err(e) ==> e is Storage,
        key_table(*final(conn)) == key_table(*old(conn)),
{
    match conn.execute("DELETE FROM servers WHERE id = ?1", (id,)) {
        Ok(_) => Ok(()),
        Err(e) => Err(StoreError::Storage(e.to_string())),
    }
}

/// Relies on chrono's `Local::now` and `DateTime::to_rfc3339`: the current
/// local time as text; nothing is assumed of its value. chrono panics when
/// the system clock stands before the Unix epoch; that is the machine's
/// state, not an input, so no precondition can exclude it.
#[verifier::external_body]
pub fn now_rfc3339() -> (r: String) {
    chrono::Local::now().to_rfc3339()
}

/// Relies on dirs' `home_dir`: the user's home directory, when the platform
/// reports one that is valid text; nothing is assumed of its value.
#[verifier::external_body]
pub fn home_dir_path() -> (r: Option<String>) {
    match dirs::home_dir() {
        Some(p) => match p.to_str() {
            Some(s) => Some(s.to_string()),
            None => None,
        },
        None => None,
    }
}

} // verus!
