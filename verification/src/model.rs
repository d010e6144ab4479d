use vstd::prelude::*;

verus! {

/// One row of the SSH key table, as the contracts see it: the column values
/// without the rowid (the table is modelled as a map from rowid to this).
pub ghost struct KeyRow {
    pub name: Seq<char>,
    pub path: Seq<char>,
    pub is_default: bool,
    pub created_at: Seq<char>,
    pub updated_at: Seq<char>,
}

/// One row of the server table, without the rowid.
pub ghost struct ServerRow {
    pub name: Seq<char>,
    pub host: Seq<char>,
    pub credential: Seq<char>,
    pub created_at: Seq<char>,
    pub updated_at: Seq<char>,
}

/// An SSH key record as handed to callers; `id` is `None` only for a record
/// that has not been stored yet.
pub struct SshKey {
    pub id: Option<i64>,
    pub name: String,
    pub path: String,
    pub is_default: bool,
    pub created_at: String,
    pub updated_at: String,
}

/// A server record as handed to callers.
pub struct Server {
    pub id: Option<i64>,
    pub name: String,
    pub host: String,
    pub credential: String,
    pub created_at: String,
    pub updated_at: String,
}

/// A freshly inserted key row: both timestamps carry the insertion time.
pub open spec fn key_row(name: Seq<char>, path: Seq<char>, is_default: bool, ts: Seq<char>) -> KeyRow {
    KeyRow { name: name, path: path, is_default: is_default, created_at: ts, updated_at: ts }
}

/// A freshly inserted server row: both timestamps carry the insertion time.
pub open spec fn server_row(name: Seq<char>, host: Seq<char>, credential: Seq<char>, ts: Seq<char>) -> ServerRow {
    ServerRow { name: name, host: host, credential: credential, created_at: ts, updated_at: ts }
}

/// A key table with no rows.
pub open spec fn empty_keys() -> Map<i64, KeyRow> {
    Map::empty()
}

/// A server table with no rows.
pub open spec fn empty_servers() -> Map<i64, ServerRow> {
    Map::empty()
}

/// The table after the default flag is cleared on every row; nothing else
/// of any row changes.
pub open spec fn clear_defaults(m: Map<i64, KeyRow>) -> Map<i64, KeyRow> {
    m.map_values(|r: KeyRow| KeyRow { is_default: false, ..r })
}

/// No two distinct rows carry the default flag.
pub open spec fn at_most_one_default(m: Map<i64, KeyRow>) -> bool {
    forall|i: i64, j: i64|
        m.dom().contains(i) && m.dom().contains(j) && #[trigger] m[i].is_default
            && #[trigger] m[j].is_default ==> i == j
}

/// No row carries the default flag.
pub open spec fn no_default(m: Map<i64, KeyRow>) -> bool {
    forall|j: i64| m.dom().contains(j) ==> !(#[trigger] m[j]).is_default
}

/// Exactly the row `id` carries the default flag.
pub open spec fn sole_default(m: Map<i64, KeyRow>, id: i64) -> bool {
    &&& m.dom().contains(id)
    &&& m[id].is_default
    &&& forall|j: i64| m.dom().contains(j) && (#[trigger] m[j]).is_default ==> j == id
}

/// What adding a key does to the table: when the new key is to be the
/// default, every prior default is cleared first, then the fresh row is
/// inserted under the fresh id.
pub open spec fn add_effect(
    m: Map<i64, KeyRow>,
    id: i64,
    name: Seq<char>,
    path: Seq<char>,
    is_default: bool,
    ts: Seq<char>,
) -> Map<i64, KeyRow> {
    (if is_default {
        clear_defaults(m)
    } else {
        m
    }).insert(id, key_row(name, path, is_default, ts))
}

/// What marking one row as the default does to the table: every default is
/// cleared, then the flag is set on the row with this id, if it exists.
pub open spec fn set_default_effect(m: Map<i64, KeyRow>, id: i64) -> Map<i64, KeyRow> {
    let cleared = clear_defaults(m);
    if m.dom().contains(id) {
        cleared.insert(id, KeyRow { is_default: true, ..cleared[id] })
    } else {
        cleared
    }
}

/// What updating a server row does to the table: the named fields and the
/// update timestamp are replaced on the row with this id, if it exists; the
/// creation timestamp stays.
pub open spec fn update_server_effect(
    m: Map<i64, ServerRow>,
    id: i64,
    name: Seq<char>,
    host: Seq<char>,
    credential: Seq<char>,
    ts: Seq<char>,
) -> Map<i64, ServerRow> {
    if m.dom().contains(id) {
        m.insert(
            id,
            ServerRow {
                name: name,
                host: host,
                credential: credential,
                created_at: m[id].created_at,
                updated_at: ts,
            },
        )
    } else {
        m
    }
}

/// The record `k` is the stored row `id` of table `m`, field for field.
pub open spec fn key_record_matches(k: SshKey, id: i64, m: Map<i64, KeyRow>) -> bool {
    &&& m.dom().contains(id)
    &&& k.id == Some(id)
    &&& k.name@ == m[id].name
    &&& k.path@ == m[id].path
    &&& k.is_default == m[id].is_default
    &&& k.created_at@ == m[id].created_at
    &&& k.updated_at@ == m[id].updated_at
}

/// The record `s` is the stored server row `id` of table `m`, field for field.
pub open spec fn server_record_matches(s: Server, id: i64, m: Map<i64, ServerRow>) -> bool {
    &&& m.dom().contains(id)
    &&& s.id == Some(id)
    &&& s.name@ == m[id].name
    &&& s.host@ == m[id].host
    &&& s.credential@ == m[id].credential
    &&& s.created_at@ == m[id].created_at
    &&& s.updated_at@ == m[id].updated_at
}

} // verus!
