use vstd::prelude::*;
use crate::error::StoreError;
use crate::model::{server_record_matches, server_row, update_server_effect, Server, ServerRow};
use crate::store::{
    delete_server_row, insert_server, key_table, select_all_servers, select_server,
    server_entry_matches, server_table, update_server_row, now_rfc3339,
};

verus! {

/// Adds a server record: a new row with the given fields, the insertion
/// time in both timestamp columns and a rowid no existing row has.
pub fn add_server(
    conn: &mut rusqlite::Connection,
    name: String,
    host: String,
    credential: String,
) -> (r: Result<i64, StoreError>)
    ensures
        r matches Ok(id) ==> !server_table(*old(conn)).dom().contains(id) && (exists|ts: Seq<char>|
            server_table(*final(conn)) == server_table(*old(conn)).insert(
                id,
                server_row(name@, host@, credential@, ts),
            )),
        r is Err ==> server_table(*final(conn)) == server_table(*old(conn)),
        key_table(*final(conn)) == key_table(*old(conn)),
{
    let now = now_rfc3339();
    insert_server(conn, name.as_str(), host.as_str(), credential.as_str(), now.as_str())
}

/// Returns the stored server record with this id, field for field; reports
/// `NotFound` exactly when no row has the id.
pub fn get_server(conn: &rusqlite::Connection, id: i64) -> (r: Result<Server, StoreError>)
    ensures
        r matches Ok(s) ==> server_record_matches(s, id, server_table(*conn)),
        r matches Err(e) && e is NotFound ==> !server_table(*conn).dom().contains(id),
        !server_table(*conn).dom().contains(id) ==> r is Err,
{
    match select_server(conn, id) {
        Ok(t) => Ok(
            Server {
                id: Some(id),
                name: t.0,
                host: t.1,
                credential: t.2,
                created_at: t.3,
                updated_at: t.4,
            },
        ),
        Err(e) => Err(e),
    }
}

/// Every id of `s` is a stored server row rendered field for field, no id
/// repeats, and every stored row appears under its id.
pub open spec fn server_list_matches(s: Seq<Server>, m: Map<i64, ServerRow>) -> bool {
    &&& forall|i: int|
        0 <= i < s.len() ==> (#[trigger] s[i]).id is Some && server_record_matches(
            s[i],
            s[i].id->Some_0,
            m,
        )
    &&& forall|i: int, j: int| 0 <= i < j < s.len() ==> (#[trigger] s[i]).id != (#[trigger] s[j]).id
    &&& forall|id: i64|
        #[trigger] m.dom().contains(id) ==> exists|i: int|
            0 <= i < s.len() && (#[trigger] s[i]).id == Some(id)
}

/// Returns every stored server record, each exactly once, in storage order.
pub fn get_servers(conn: &rusqlite::Connection) -> (r: Result<Vec<Server>, StoreError>)
    ensures
        r matches Ok(v) ==> server_list_matches(v@, server_table(*conn)),
{
    let rows = match select_all_servers(conn) {
        Ok(v) => v,
        Err(e) => {
            return Err(e);
        },
    };
    let mut servers: Vec<Server> = Vec::new();
    let n = rows.len();
    let mut idx: usize = 0;
    while idx < n
        invariant
            n == rows@.len(),
            idx <= n,
            servers@.len() == idx,
            forall|i: int|
                0 <= i < rows@.len() ==> server_entry_matches(
                    #[trigger] rows@[i],
                    server_table(*conn),
                ),
            forall|i: int, j: int|
                0 <= i < j < rows@.len() ==> (#[trigger] rows@[i]).0 != (#[trigger] rows@[j]).0,
            forall|id: i64|
                #[trigger] server_table(*conn).dom().contains(id) ==> exists|i: int|
                    0 <= i < rows@.len() && (#[trigger] rows@[i]).0 == id,
            forall|i: int| 0 <= i < idx ==> (#[trigger] servers@[i]).id == Some(rows@[i].0),
            forall|i: int|
                0 <= i < idx ==> server_record_matches(
                    #[trigger] servers@[i],
                    rows@[i].0,
                    server_table(*conn),
                ),
        decreases n - idx,
    {
        let t = &rows[idx];
        servers.push(
            Server {
                id: Some(t.0),
                name: t.1.clone(),
                host: t.2.clone(),
                credential: t.3.clone(),
                created_at: t.4.clone(),
                updated_at: t.5.clone(),
            },
        );
        idx = idx + 1;
    }
    proof {
        let m = server_table(*conn);
        assert forall|id: i64| #[trigger] m.dom().contains(id) implies exists|i: int|
            0 <= i < servers@.len() && (#[trigger] servers@[i]).id == Some(id) by {
            let i = choose|i: int| 0 <= i < rows@.len() && (#[trigger] rows@[i]).0 == id;
            assert(servers@[i].id == Some(id));
        }
    }
    Ok(servers)
}

/// Replaces the named fields of the server row with this id and stamps the
/// update time; the creation timestamp stays. A call on an id with no row
/// changes nothing and still reports success, as one UPDATE statement does.
pub fn update_server(
    conn: &mut rusqlite::Connection,
    id: i64,
    name: String,
    host: String,
    credential: String,
) -> (r: Result<(), StoreError>)
    ensures
        r is Ok ==> exists|ts: Seq<char>|
            server_table(*final(conn)) == update_server_effect(
                server_table(*old(conn)),
                id,
                name@,
                host@,
                credential@,
                ts,
            ),
        r is Err ==> server_table(*final(conn)) == server_table(*old(conn)),
        key_table(*final(conn)) == key_table(*old(conn)),
{
    let now = now_rfc3339();
    let ghost name_view = name@;
    let ghost host_view = host@;
    let ghost credential_view = credential@;
    let r = update_server_row(
        conn,
        id,
        name.as_str(),
        host.as_str(),
        credential.as_str(),
        now.as_str(),
    );
    proof {
        if r is Ok {
            assert(server_table(*conn) == update_server_effect(
                server_table(*old(conn)),
                id,
                name_view,
                host_view,
                credential_view,
                now@,
            ));
        }
    }
    r
}

/// Deletes the server record with this id; an id with no row changes
/// nothing and still reports success, as one DELETE statement does.
pub fn delete_server(conn: &mut rusqlite::Connection, id: i64) -> (r: Result<(), StoreError>)
    ensures
        r is Ok ==> server_table(*final(conn)) == server_table(*old(conn)).remove(id),
        r is Err ==> server_table(*final(conn)) == server_table(*old(conn)),
        key_table(*final(conn)) == key_table(*old(conn)),
{
    delete_server_row(conn, id)
}

} // verus!
