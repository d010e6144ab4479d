use ssh_key_store::error::StoreError;
use ssh_key_store::keys::{
    add_ssh_key, delete_ssh_key, get_ssh_key, get_ssh_keys, set_default_ssh_key,
};
use ssh_key_store::store::{init_schema, open_memory_store};

fn fresh_store() -> rusqlite::Connection {
    let mut conn = open_memory_store().expect("open in-memory store");
    init_schema(&mut conn).expect("create schema");
    conn
}

fn count_defaults(conn: &rusqlite::Connection) -> usize {
    get_ssh_keys(conn)
        .expect("list keys")
        .iter()
        .filter(|k| k.is_default)
        .count()
}

#[test]
fn add_then_get_round_trips_fields() {
    let mut conn = fresh_store();
    let id = add_ssh_key(
        &mut conn,
        String::from("work"),
        String::from("/home/u/.ssh/id1"),
        false,
    )
    .expect("add key");
    let k = get_ssh_key(&conn, id).expect("get key");
    assert_eq!(k.id, Some(id));
    assert_eq!(k.name, "work");
    assert_eq!(k.path, "/home/u/.ssh/id1");
    assert!(!k.is_default);
    assert_eq!(k.created_at, k.updated_at);
}

#[test]
fn get_missing_reports_not_found() {
    let conn = fresh_store();
    let r = get_ssh_key(&conn, 42);
    assert!(matches!(r, Err(StoreError::NotFound)));
}

#[test]
fn storage_failure_without_schema() {
    let mut conn = open_memory_store().expect("open in-memory store");
    let r = add_ssh_key(
        &mut conn,
        String::from("work"),
        String::from("/home/u/.ssh/id1"),
        false,
    );
    assert!(matches!(r, Err(StoreError::Storage(_))));
}

#[test]
fn adding_a_default_key_displaces_the_old_default() {
    let mut conn = fresh_store();
    let first = add_ssh_key(
        &mut conn,
        String::from("work"),
        String::from("/home/u/.ssh/id1"),
        true,
    )
    .expect("add first key");
    assert!(get_ssh_key(&conn, first).expect("get first").is_default);

    let second = add_ssh_key(
        &mut conn,
        String::from("home"),
        String::from("/home/u/.ssh/id2"),
        true,
    )
    .expect("add second key");
    assert_ne!(first, second);
    assert!(!get_ssh_key(&conn, first).expect("get first again").is_default);
    assert!(get_ssh_key(&conn, second).expect("get second").is_default);
    assert_eq!(count_defaults(&conn), 1);
}

#[test]
fn foreign_nonzero_flag_is_displaced_too() {
    // A flag column written by another program can hold any non-zero value,
    // and such a row reads back as default; clearing must displace it all
    // the same.
    let mut conn = fresh_store();
    conn.execute(
        "INSERT INTO ssh_keys (name, path, is_default, created_at, updated_at) VALUES (?1, ?2, ?3, ?4, ?5)",
        ("foreign", "/home/u/.ssh/foreign", 2_i64, "t0", "t0"),
    )
    .expect("insert foreign row");
    assert_eq!(count_defaults(&conn), 1);
    let id = add_ssh_key(
        &mut conn,
        String::from("mine"),
        String::from("/home/u/.ssh/mine"),
        true,
    )
    .expect("add default key");
    assert_eq!(count_defaults(&conn), 1);
    assert!(get_ssh_key(&conn, id).expect("get new key").is_default);
}

#[test]
fn set_default_leaves_exactly_one_default() {
    let mut conn = fresh_store();
    let a = add_ssh_key(
        &mut conn,
        String::from("a"),
        String::from("/home/u/.ssh/a"),
        false,
    )
    .expect("add a");
    let b = add_ssh_key(
        &mut conn,
        String::from("b"),
        String::from("/home/u/.ssh/b"),
        false,
    )
    .expect("add b");
    assert_eq!(count_defaults(&conn), 0);

    set_default_ssh_key(&mut conn, b).expect("set b default");
    assert_eq!(count_defaults(&conn), 1);
    assert!(get_ssh_key(&conn, b).expect("get b").is_default);

    set_default_ssh_key(&mut conn, a).expect("set a default");
    assert_eq!(count_defaults(&conn), 1);
    assert!(get_ssh_key(&conn, a).expect("get a").is_default);
    assert!(!get_ssh_key(&conn, b).expect("get b again").is_default);
}

#[test]
fn list_returns_every_key_once() {
    let mut conn = fresh_store();
    assert!(get_ssh_keys(&conn).expect("empty list").is_empty());
    let mut ids = Vec::new();
    for n in ["one", "two", "three"] {
        let path = format!("/home/u/.ssh/{}", n);
        ids.push(add_ssh_key(&mut conn, String::from(n), path, false).expect("add"));
    }
    let keys = get_ssh_keys(&conn).expect("list");
    assert_eq!(keys.len(), 3);
    for id in ids {
        assert_eq!(keys.iter().filter(|k| k.id == Some(id)).count(), 1);
    }
}

#[test]
fn delete_without_file_request_hands_out_no_path() {
    let mut conn = fresh_store();
    let id = add_ssh_key(
        &mut conn,
        String::from("gone"),
        String::from("/home/u/.ssh/gone"),
        false,
    )
    .expect("add");
    let action = delete_ssh_key(&mut conn, id, false).expect("delete");
    assert_eq!(action, None);
    assert!(matches!(get_ssh_key(&conn, id), Err(StoreError::NotFound)));
}

#[test]
fn delete_with_file_request_hands_out_the_stored_path() {
    let mut conn = fresh_store();
    let id = add_ssh_key(
        &mut conn,
        String::from("gone"),
        String::from("/home/u/.ssh/gone"),
        false,
    )
    .expect("add");
    let action = delete_ssh_key(&mut conn, id, true).expect("delete");
    assert_eq!(action.as_deref(), Some("/home/u/.ssh/gone"));
    assert!(matches!(get_ssh_key(&conn, id), Err(StoreError::NotFound)));
}

#[test]
fn delete_missing_with_file_request_fails_and_changes_nothing() {
    let mut conn = fresh_store();
    let kept = add_ssh_key(
        &mut conn,
        String::from("kept"),
        String::from("/home/u/.ssh/kept"),
        false,
    )
    .expect("add");
    let r = delete_ssh_key(&mut conn, 99, true);
    assert!(matches!(r, Err(StoreError::NotFound)));
    assert!(get_ssh_key(&conn, kept).is_ok());
}

#[test]
fn delete_missing_without_file_request_succeeds() {
    let mut conn = fresh_store();
    let action = delete_ssh_key(&mut conn, 99, false).expect("delete of nothing");
    assert_eq!(action, None);
}
