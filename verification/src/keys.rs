use vstd::prelude::*;
use crate::error::StoreError;
use crate::model::{
    add_effect, clear_defaults, key_record_matches, key_row, sole_default, set_default_effect,
    KeyRow, SshKey,
};
use crate::store::{
    clear_key_defaults, delete_key_row, insert_key, key_entry_matches, key_table, select_all_keys,
    select_key, server_table, set_key_default_flag, now_rfc3339, home_dir_path,
};

verus! {

/// Adds a key record. When `is_default` is set, the default flag is cleared
/// on every existing record first, so the new record becomes the sole
/// default; the new row carries the insertion time in both timestamp
/// columns and a rowid no existing row has.
pub fn add_ssh_key(
    conn: &mut rusqlite::Connection,
    name: String,
    path: String,
    is_default: bool,
) -> (r: Result<i64, StoreError>)
    ensures
        r matches Ok(id) ==> !key_table(*old(conn)).dom().contains(id) && exists|ts: Seq<char>|
            key_table(*final(conn)) == add_effect(
                key_table(*old(conn)),
                id,
                name@,
                path@,
                is_default,
                ts,
            ),
        r is Err ==> key_table(*final(conn)) == key_table(*old(conn)) || (is_default && key_table(
            *final(conn),
        ) == clear_defaults(key_table(*old(conn)))),
        server_table(*final(conn)) == server_table(*old(conn)),
{
    let now = now_rfc3339();
    if is_default {
        match clear_key_defaults(conn) {
            Ok(u) => u,
            Err(e) => {
                return Err(e);
            },
        }
    }
    match insert_key(conn, name.as_str(), path.as_str(), is_default, now.as_str()) {
        Ok(id) => {
            proof {
                assert(key_table(*conn) == add_effect(
                    key_table(*old(conn)),
                    id,
                    name@,
                    path@,
                    is_default,
                    now@,
                ));
                if is_default {
                    assert(clear_defaults(key_table(*old(conn))).dom() =~= key_table(
                        *old(conn),
                    ).dom());
                }
            }
            Ok(id)
        },
        Err(e) => Err(e),
    }
}

/// Returns the stored record with this id, field for field; reports
/// `NotFound` exactly when no row has the id (any other failure is the
/// storage engine's own).
pub fn get_ssh_key(conn: &rusqlite::Connection, id: i64) -> (r: Result<SshKey, StoreError>)
    ensures
        r matches Ok(k) ==> key_record_matches(k, id, key_table(*conn)),
        r matches Err(e) && e is NotFound ==> !key_table(*conn).dom().contains(id),
        !key_table(*conn).dom().contains(id) ==> r is Err,
{
    match select_key(conn, id) {
        Ok(t) => Ok(
            SshKey {
                id: Some(id),
                name: t.0,
                path: t.1,
                is_default: t.2,
                created_at: t.3,
                updated_at: t.4,
            },
        ),
        Err(e) => Err(e),
    }
}

/// Marks the record with this id as the sole default: the flag is cleared
/// everywhere, then set on that row. When the id has no row, the call
/// still clears every default and reports success, as two sequential
/// statements would.
pub fn set_default_ssh_key(conn: &mut rusqlite::Connection, id: i64) -> (r: Result<
    (),
    StoreError,
>)
    ensures
        r is Ok ==> key_table(*final(conn)) == set_default_effect(key_table(*old(conn)), id),
        r is Ok && key_table(*old(conn)).dom().contains(id) ==> sole_default(
            key_table(*final(conn)),
            id,
        ),
        r is Err ==> key_table(*final(conn)) == key_table(*old(conn)) || key_table(*final(conn))
            == clear_defaults(key_table(*old(conn))),
        server_table(*final(conn)) == server_table(*old(conn)),
{
    match clear_key_defaults(conn) {
        Ok(u) => u,
        Err(e) => {
            return Err(e);
        },
    }
    match set_key_default_flag(conn, id) {
        Ok(u) => {
            proof {
                lemma_set_default_shape(key_table(*old(conn)), id);
            }
            Ok(u)
        },
        Err(e) => Err(e),
    }
}

/// Deletes the record with this id and hands back the file path whose key
/// file the caller still has to remove: the stored path when `delete_file`
/// is set, nothing otherwise, so a call without `delete_file` gives the
/// caller nothing to touch on disk. The row is read and removed before any
/// path is handed out, so a file removal that fails afterwards leaves an
/// orphaned file with no record, never a record pointing at nothing; with
/// `delete_file` set, an id with no row is reported `NotFound` and nothing
/// changes.
pub fn delete_ssh_key(conn: &mut rusqlite::Connection, id: i64, delete_file: bool) -> (r: Result<
    Option<String>,
    StoreError,
>)
    ensures
        r is Ok ==> key_table(*final(conn)) == key_table(*old(conn)).remove(id),
        !delete_file && r is Ok ==> r->Ok_0 is None,
        delete_file && r is Ok ==> key_table(*old(conn)).dom().contains(id) && (r->Ok_0 matches Some(p)
            && p@ == key_table(*old(conn))[id].path),
        delete_file && !key_table(*old(conn)).dom().contains(id) ==> r is Err,
        !delete_file ==> (r matches Err(e) ==> e is Storage),
        r matches Err(e) && e is NotFound ==> !key_table(*old(conn)).dom().contains(id),
        r is Err ==> key_table(*final(conn)) == key_table(*old(conn)),
        server_table(*final(conn)) == server_table(*old(conn)),
{
    let path: Option<String> = if delete_file {
        match select_key(conn, id) {
            Ok(t) => Some(t.1),
            Err(e) => {
                return Err(e);
            },
        }
    } else {
        None
    };
    match delete_key_row(conn, id) {
        Ok(u) => Ok(path),
        Err(e) => Err(e),
    }
}

/// Every id of `s` is a stored row rendered field for field, no id repeats,
/// and every stored row appears under its id: the list is the table, in
/// storage order.
pub open spec fn key_list_matches(s: Seq<SshKey>, m: Map<i64, KeyRow>) -> bool {
    &&& forall|i: int|
        0 <= i < s.len() ==> (#[trigger] s[i]).id is Some && key_record_matches(
            s[i],
            s[i].id->Some_0,
            m,
        )
    &&& forall|i: int, j: int| 0 <= i < j < s.len() ==> (#[trigger] s[i]).id != (#[trigger] s[j]).id
    &&& forall|id: i64|
        #[trigger] m.dom().contains(id) ==> exists|i: int|
            0 <= i < s.len() && (#[trigger] s[i]).id == Some(id)
}

/// Returns every stored record, each exactly once, in storage order.
pub fn get_ssh_keys(conn: &rusqlite::Connection) -> (r: Result<Vec<SshKey>, StoreError>)
    ensures
        r matches Ok(v) ==> key_list_matches(v@, key_table(*conn)),
{
    let rows = match select_all_keys(conn) {
        Ok(v) => v,
        Err(e) => {
            return Err(e);
        },
    };
    let mut keys: Vec<SshKey> = Vec::new();
    let n = rows.len();
    let mut idx: usize = 0;
    while idx < n
        invariant
            n == rows@.len(),
            idx <= n,
            keys@.len() == idx,
            forall|i: int|
                0 <= i < rows@.len() ==> key_entry_matches(#[trigger] rows@[i], key_table(*conn)),
            forall|i: int, j: int|
                0 <= i < j < rows@.len() ==> (#[trigger] rows@[i]).0 != (#[trigger] rows@[j]).0,
            forall|id: i64|
                #[trigger] key_table(*conn).dom().contains(id) ==> exists|i: int|
                    0 <= i < rows@.len() && (#[trigger] rows@[i]).0 == id,
            forall|i: int| 0 <= i < idx ==> (#[trigger] keys@[i]).id == Some(rows@[i].0),
            forall|i: int|
                0 <= i < idx ==> key_record_matches(#[trigger] keys@[i], rows@[i].0, key_table(*conn)),
        decreases n - idx,
    {
        let t = &rows[idx];
        keys.push(
            SshKey {
                id: Some(t.0),
                name: t.1.clone(),
                path: t.2.clone(),
                is_default: t.3,
                created_at: t.4.clone(),
                updated_at: t.5.clone(),
            },
        );
        idx = idx + 1;
    }
    proof {
        let m = key_table(*conn);
        assert forall|id: i64| #[trigger] m.dom().contains(id) implies exists|i: int|
            0 <= i < keys@.len() && (#[trigger] keys@[i]).id == Some(id) by {
            let i = choose|i: int| 0 <= i < rows@.len() && (#[trigger] rows@[i]).0 == id;
            assert(keys@[i].id == Some(id));
        }
    }
    Ok(keys)
}

/// The target file for a generated key: `<home>/.ssh/<name>`, by plain
/// text concatenation. The name is not sanitized, so one that holds a path
/// separator names a file outside the `.ssh` directory.
pub fn ssh_key_path(home: &str, name: &str) -> (r: String)
    ensures
        r@ == home@ + "/.ssh/"@ + name@,
{
    let mut s = String::from_str(home);
    s.append("/.ssh/");
    s.append(name);
    s
}

/// Where a key generated under `name` is to be written: `<home>/.ssh/<name>`
/// for the home directory the platform reports, or nothing when no home
/// directory can be resolved as text.
pub fn generate_key_target(name: &str) -> (r: Option<String>)
    ensures
        r matches Some(p) ==> exists|h: Seq<char>| p@ == h + "/.ssh/"@ + name@,
{
    match home_dir_path() {
        Some(home) => {
            let p = ssh_key_path(home.as_str(), name);
            proof {
                assert(p@ == home@ + "/.ssh/"@ + name@);
            }
            Some(p)
        },
        None => None,
    }
}

/// Records a freshly generated key file: the row is added under the given
/// name and path with the default flag clear, so generating a key never
/// changes which key is the default.
pub fn register_generated_key(conn: &mut rusqlite::Connection, name: String, path: String) -> (r:
    Result<i64, StoreError>)
    ensures
        r matches Ok(id) ==> !key_table(*old(conn)).dom().contains(id) && (exists|ts: Seq<char>|
            key_table(*final(conn)) == key_table(*old(conn)).insert(
                id,
                key_row(name@, path@, false, ts),
            )),
        r is Err ==> key_table(*final(conn)) == key_table(*old(conn)),
        server_table(*final(conn)) == server_table(*old(conn)),
{
    let ghost name_view = name@;
    let ghost path_view = path@;
    let r = add_ssh_key(conn, name, path, false);
    proof {
        if r is Ok {
            let id = r->Ok_0;
            let ts = choose|ts: Seq<char>|
                key_table(*conn) == add_effect(
                    key_table(*old(conn)),
                    id,
                    name_view,
                    path_view,
                    false,
                    ts,
                );
            assert(key_table(*conn) == key_table(*old(conn)).insert(
                id,
                key_row(name_view, path_view, false, ts),
            ));
        }
    }
    r
}

/// The two-statement toggle lands exactly on `set_default_effect`, and a
/// present id ends as the sole default.
proof fn lemma_set_default_shape(m: Map<i64, KeyRow>, id: i64)
    ensures
        m.dom().contains(id) ==> clear_defaults(m).dom().contains(id) && clear_defaults(m).insert(
            id,
            (KeyRow { is_default: true, ..clear_defaults(m)[id] }),
        ) == set_default_effect(m, id),
        !m.dom().contains(id) ==> !clear_defaults(m).dom().contains(id) && clear_defaults(m)
            == set_default_effect(m, id),
        m.dom().contains(id) ==> sole_default(set_default_effect(m, id), id),
{
    assert(clear_defaults(m).dom() =~= m.dom());
    if m.dom().contains(id) {
        crate::laws::lemma_set_default_sole(m, id);
    }
}

} // verus!
