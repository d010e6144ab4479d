use ssh_key_store::error::StoreError;
use ssh_key_store::keys::{get_ssh_key, register_generated_key, ssh_key_path};
use ssh_key_store::store::{init_schema, open_memory_store};

#[test]
fn target_path_is_home_ssh_name() {
    assert_eq!(ssh_key_path("/home/u", "id_test"), "/home/u/.ssh/id_test");
    assert_eq!(ssh_key_path("", "k"), "/.ssh/k");
}

#[test]
fn name_with_separator_escapes_the_ssh_directory() {
    // The name is not sanitized: a separator in it names a file outside
    // ~/.ssh, so such names must be rejected before key generation.
    let p = ssh_key_path("/home/u", "evil/../../x");
    assert_eq!(p, "/home/u/.ssh/evil/../../x");
    let q = ssh_key_path("/home/u", "sub/dir");
    assert_eq!(q, "/home/u/.ssh/sub/dir");
    assert!(q.starts_with("/home/u/.ssh/"));
    assert!(q.trim_start_matches("/home/u/.ssh/").contains('/'));
}

#[test]
fn target_resolves_under_a_home_directory() {
    // On a machine with a resolvable home directory the target lands in
    // its .ssh subdirectory; with none, no target is produced.
    match ssh_key_store::keys::generate_key_target("id_test") {
        Some(p) => assert!(p.ends_with("/.ssh/id_test")),
        None => {}
    }
}

#[test]
fn error_messages_carry_their_diagnostic() {
    assert_eq!(StoreError::NotFound.message(), "record not found");
    assert_eq!(
        StoreError::Storage(String::from("disk full")).message(),
        "disk full"
    );
}

#[test]
fn generated_key_is_recorded_without_default_flag() {
    // The key-generation collaborator is stubbed as always succeeding: the
    // record is registered exactly as it would be after a successful run.
    let mut conn = open_memory_store().expect("open in-memory store");
    init_schema(&mut conn).expect("create schema");
    let path = ssh_key_path("/home/u", "id_test");
    let id = register_generated_key(&mut conn, String::from("id_test"), path.clone())
        .expect("register generated key");
    let k = get_ssh_key(&conn, id).expect("get generated key");
    assert_eq!(k.path, "/home/u/.ssh/id_test");
    assert_eq!(k.name, "id_test");
    assert!(!k.is_default);
}
