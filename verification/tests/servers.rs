use ssh_key_store::error::StoreError;
use ssh_key_store::servers::{add_server, delete_server, get_server, get_servers, update_server};
use ssh_key_store::store::{init_schema, open_memory_store};

fn fresh_store() -> rusqlite::Connection {
    let mut conn = open_memory_store().expect("open in-memory store");
    init_schema(&mut conn).expect("create schema");
    conn
}

#[test]
fn server_add_then_get_round_trips_fields() {
    let mut conn = fresh_store();
    let id = add_server(
        &mut conn,
        String::from("build box"),
        String::from("build.example.net"),
        String::from("key:1"),
    )
    .expect("add server");
    let s = get_server(&conn, id).expect("get server");
    assert_eq!(s.id, Some(id));
    assert_eq!(s.name, "build box");
    assert_eq!(s.host, "build.example.net");
    assert_eq!(s.credential, "key:1");
    assert_eq!(s.created_at, s.updated_at);
}

#[test]
fn server_get_missing_reports_not_found() {
    let conn = fresh_store();
    assert!(matches!(get_server(&conn, 7), Err(StoreError::NotFound)));
}

#[test]
fn update_replaces_fields_and_keeps_creation_time() {
    let mut conn = fresh_store();
    let id = add_server(
        &mut conn,
        String::from("old name"),
        String::from("old.example.net"),
        String::from("key:1"),
    )
    .expect("add server");
    let before = get_server(&conn, id).expect("get before update");
    update_server(
        &mut conn,
        id,
        String::from("new name"),
        String::from("new.example.net"),
        String::from("key:2"),
    )
    .expect("update server");
    let after = get_server(&conn, id).expect("get after update");
    assert_eq!(after.name, "new name");
    assert_eq!(after.host, "new.example.net");
    assert_eq!(after.credential, "key:2");
    assert_eq!(after.created_at, before.created_at);
}

#[test]
fn update_of_missing_id_changes_nothing() {
    let mut conn = fresh_store();
    let kept = add_server(
        &mut conn,
        String::from("kept"),
        String::from("kept.example.net"),
        String::from("key:1"),
    )
    .expect("add server");
    update_server(
        &mut conn,
        kept + 1,
        String::from("ghost"),
        String::from("ghost.example.net"),
        String::from("key:9"),
    )
    .expect("update of nothing");
    let s = get_server(&conn, kept).expect("get kept");
    assert_eq!(s.name, "kept");
    assert_eq!(get_servers(&conn).expect("list").len(), 1);
}

#[test]
fn delete_removes_the_row() {
    let mut conn = fresh_store();
    let id = add_server(
        &mut conn,
        String::from("gone"),
        String::from("gone.example.net"),
        String::from("key:1"),
    )
    .expect("add server");
    delete_server(&mut conn, id).expect("delete server");
    assert!(matches!(get_server(&conn, id), Err(StoreError::NotFound)));
    assert!(get_servers(&conn).expect("list").is_empty());
}

#[test]
fn list_returns_every_server_once() {
    let mut conn = fresh_store();
    let mut ids = Vec::new();
    for n in ["alpha", "beta"] {
        let host = format!("{}.example.net", n);
        ids.push(add_server(&mut conn, String::from(n), host, String::from("key:1")).expect("add"));
    }
    let servers = get_servers(&conn).expect("list");
    assert_eq!(servers.len(), 2);
    for id in ids {
        assert_eq!(servers.iter().filter(|s| s.id == Some(id)).count(), 1);
    }
}
