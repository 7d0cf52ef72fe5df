use fjall_cli::command::clear_command::ClearCommand as RecreateCommand;
use fjall_cli::command::get_command::GetCommand as PrintCommand;
use fjall_cli::{
    ArgFiles, ByteEncoding, ClearCommand, ContainsCommand, InsertCommand, IterCommand,
    KeyspaceCountCommand, KeyspaceListCommand, LenCommand, ListCommand, ListKeyspaceNamesCommand,
    OutputKind, Separator,
};
use tempdir::TempDir;

fn open(dir: &TempDir) -> fjall::Database {
    fjall::Database::builder(dir.path()).open().unwrap()
}

/// Closes the database and opens it again, as a new run of the program does.
fn reopen(db: fjall::Database, dir: &TempDir) -> fjall::Database {
    drop(db);
    open(dir)
}

fn insert(db: &mut fjall::Database, keyspace: &str, key: &str, value: &str) {
    let command = InsertCommand {
        key: key.to_string(),
        value: value.to_string(),
        key_encoding: ByteEncoding::String,
        value_encoding: ByteEncoding::String,
    };
    let out = command.run(db, keyspace, None, None).unwrap();
    assert_eq!(out.stdout, b"");
    assert_eq!(out.exit_code, 0);
}

fn len(db: &mut fjall::Database, keyspace: &str) -> String {
    String::from_utf8(LenCommand {}.run(db, keyspace).unwrap().stdout).unwrap()
}

fn contains(db: &mut fjall::Database, keyspace: &str, key: &str) -> (Vec<u8>, u8) {
    let command = ContainsCommand { key: key.to_string(), key_encoding: ByteEncoding::String };
    let out = command.run(db, keyspace, None).unwrap();
    (out.stdout, out.exit_code)
}

fn list(db: &mut fjall::Database, keyspace: &str) -> String {
    let command = ListCommand {
        keyspace: keyspace.to_string(),
        key_value_separator: Separator::parse(": ").unwrap(),
        item_separator: Separator::parse("\\n").unwrap(),
        kind: OutputKind::KeyValue,
    };
    let mut out = Vec::new();
    command.run(db, &mut out).unwrap();
    String::from_utf8(out).unwrap()
}

fn iter_command() -> IterCommand {
    IterCommand {
        kind: OutputKind::KeyValue,
        item_prefix: None,
        item_suffix: None,
        key_prefix: None,
        key_suffix: None,
        value_prefix: None,
        value_suffix: None,
        offset: 0,
        limit: None,
    }
}

#[test]
fn full_cli_flow() {
    let temp_dir = TempDir::new("fjall_cli").unwrap();
    let mut db = open(&temp_dir);

    insert(&mut db, "items", "key", "value");
    let mut db = reopen(db, &temp_dir);

    assert_eq!(len(&mut db, "items"), "1\n");

    let count = KeyspaceCountCommand {}.run(&db);
    assert_eq!(String::from_utf8(count.stdout).unwrap(), "1\n");

    let (stdout, status) = contains(&mut db, "items", "key");
    assert!(stdout.is_empty());
    assert_eq!(status, 0);

    let (stdout, status) = contains(&mut db, "items", "missing");
    assert!(stdout.is_empty());
    assert_eq!(status, 127);

    let get = PrintCommand {
        keyspace: "items".to_string(),
        key: "key".to_string(),
        key_encoding: ByteEncoding::String,
        no_newline: false,
    };
    let out = get.run(&mut db, None).unwrap();
    assert_eq!(String::from_utf8(out.stdout).unwrap(), "value\n");

    assert_eq!(list(&mut db, "items"), "key: value\n");

    let names = KeyspaceListCommand {}.run(&db);
    assert_eq!(String::from_utf8(names.stdout).unwrap(), "items\n");

    let mut db = reopen(db, &temp_dir);
    RecreateCommand { keyspace: "items".to_string() }.run(&mut db).unwrap();
    let mut db = reopen(db, &temp_dir);

    assert_eq!(list(&mut db, "items"), "");

    assert_eq!(len(&mut db, "items"), "0\n");
}

#[test]
fn clear_bug_repro_clear_repro() {
    let temp_dir = TempDir::new("fjall_cli").unwrap();
    let mut db = open(&temp_dir);

    insert(&mut db, "items", "key", "value");
    let mut db = reopen(db, &temp_dir);
    ClearCommand {}.run(&mut db, "items").unwrap();
    db.persist(fjall::PersistMode::SyncAll).unwrap();
    let mut db = reopen(db, &temp_dir);

    let mut out = Vec::new();
    iter_command().run(&mut db, "items", &mut out).unwrap();
    assert_eq!(String::from_utf8(out).unwrap(), "");
}

#[test]
fn clear_repro_clear_repro() {
    let temp_dir = TempDir::new("fjall_cli").unwrap();
    let mut db = open(&temp_dir);

    insert(&mut db, "items", "key", "value");
    let mut db = reopen(db, &temp_dir);
    RecreateCommand { keyspace: "items".to_string() }.run(&mut db).unwrap();
    let mut db = reopen(db, &temp_dir);

    assert_eq!(list(&mut db, "items"), "");
}

#[test]
fn list_keyspace_names_after_insert() {
    let temp_dir = TempDir::new("fjall_cli").unwrap();
    let mut db = open(&temp_dir);
    insert(&mut db, "items", "key", "value");
    let out = ListKeyspaceNamesCommand {}.run(&db);
    assert_eq!(out.stdout, b"items\n");
    assert_eq!(out.exit_code, 0);
}
