use fjall_cli::command::get_command::GetCommand as PrintCommand;
use fjall_cli::{
    ArgFiles, ByteEncoding, ClearCommand, ContainsCommand, ContainsCommandRunError, DeleteCommand,
    DeleteCommandRunError, DiskSizeCommand, GetCommand, GetCommandRunError, InsertCommand,
    InsertCommandRunError, IterCommand, IterCommandRunError, KeyspaceCommand,
    KeyspaceCommandRunError, KeyspaceCountCommand, KeyspaceSubcommand, LenCommand,
    LenCommandRunError, OutputKind, PathRead, PrefixKind, Subcommand, Suffix,
};
use tempdir::TempDir;

fn open(dir: &TempDir) -> fjall::Database {
    fjall::Database::builder(dir.path()).open().unwrap()
}

fn insert(db: &mut fjall::Database, keyspace: &str, key: &str, value: &str) {
    let command = InsertCommand {
        key: key.to_string(),
        value: value.to_string(),
        key_encoding: ByteEncoding::String,
        value_encoding: ByteEncoding::String,
    };
    command.run(db, keyspace, None, None).unwrap();
}

fn iter(kind: OutputKind, offset: usize, limit: Option<usize>) -> IterCommand {
    IterCommand {
        kind,
        item_prefix: None,
        item_suffix: None,
        key_prefix: None,
        key_suffix: None,
        value_prefix: None,
        value_suffix: None,
        offset,
        limit,
    }
}

fn iter_output(
    command: IterCommand,
    db: &mut fjall::Database,
    keyspace: &str,
) -> Result<Vec<u8>, IterCommandRunError> {
    let mut out = Vec::new();
    command.run(db, keyspace, &mut out).map(|()| out)
}

fn count(db: &fjall::Database) -> String {
    String::from_utf8(KeyspaceCountCommand {}.run(db).stdout).unwrap()
}

fn get(db: &mut fjall::Database, keyspace: &str, key: &str) -> Result<Vec<u8>, GetCommandRunError> {
    let command = GetCommand {
        key: key.to_string(),
        key_encoding: ByteEncoding::String,
        value_prefix: None,
        value_suffix: None,
    };
    command.run(db, keyspace, None).map(|out| out.stdout)
}

#[test]
fn iter_with_key_and_value_suffixes() {
    let temp_dir = TempDir::new("fjall_cli").unwrap();
    let mut db = open(&temp_dir);
    insert(&mut db, "items", "key", "value");
    let mut command = iter(OutputKind::KeyValue, 0, None);
    command.key_suffix = Some(Suffix::new(":"));
    command.value_suffix = Some(Suffix::new("\n"));
    let out = iter_output(command, &mut db, "items").unwrap();
    assert_eq!(String::from_utf8(out).unwrap(), "key:value\n");
}

#[test]
fn iter_in_key_order_with_offset_and_limit() {
    let temp_dir = TempDir::new("fjall_cli").unwrap();
    let mut db = open(&temp_dir);
    for (k, v) in [("c", "3"), ("a", "1"), ("b", "2"), ("ab", "12")] {
        insert(&mut db, "items", k, v);
    }
    let mut all = iter(OutputKind::Key, 0, None);
    all.item_suffix = Some(Suffix::new(","));
    assert_eq!(iter_output(all, &mut db, "items").unwrap(), b"a,ab,b,c,");

    let mut page = iter(OutputKind::Value, 1, Some(2));
    page.item_suffix = Some(Suffix::new(","));
    assert_eq!(iter_output(page, &mut db, "items").unwrap(), b"12,2,");

    let head = iter_output(iter(OutputKind::KeyValue, 0, Some(1)), &mut db, "items").unwrap();
    let tail = iter_output(iter(OutputKind::KeyValue, 1, None), &mut db, "items").unwrap();
    let whole = iter_output(iter(OutputKind::KeyValue, 0, None), &mut db, "items").unwrap();
    assert_eq!([head, tail].concat(), whole);

    assert_eq!(iter_output(iter(OutputKind::Key, 9, None), &mut db, "items").unwrap(), b"");
    assert_eq!(iter_output(iter(OutputKind::Key, 0, Some(0)), &mut db, "items").unwrap(), b"");
}

#[test]
fn iter_with_length_prefixes() {
    let temp_dir = TempDir::new("fjall_cli").unwrap();
    let mut db = open(&temp_dir);
    insert(&mut db, "items", "k", "vv");
    let mut command = iter(OutputKind::KeyValue, 0, None);
    command.item_prefix = Some(PrefixKind::LenU64Le);
    command.value_prefix = Some(PrefixKind::LenU64Be);
    let out = iter_output(command, &mut db, "items").unwrap();
    let mut expected = vec![1, 0, 0, 0, 0, 0, 0, 0];
    expected.extend_from_slice(b"k");
    expected.extend_from_slice(&[0, 0, 0, 0, 0, 0, 0, 2]);
    expected.extend_from_slice(b"vv");
    assert_eq!(out, expected);
}

#[test]
fn iter_missing_keyspace() {
    let temp_dir = TempDir::new("fjall_cli").unwrap();
    let mut db = open(&temp_dir);
    match iter_output(iter(OutputKind::Key, 0, None), &mut db, "nothing") {
        Err(IterCommandRunError::KeyspaceNotFound { keyspace }) => assert_eq!(keyspace, "nothing"),
        other => panic!("unexpected {other:?}"),
    }
    assert_eq!(count(&db), "0\n");
}

#[test]
fn get_prints_value_with_prefix_and_suffix() {
    let temp_dir = TempDir::new("fjall_cli").unwrap();
    let mut db = open(&temp_dir);
    insert(&mut db, "items", "key", "value");
    assert_eq!(get(&mut db, "items", "key").unwrap(), b"value");
    let command = GetCommand {
        key: "key".to_string(),
        key_encoding: ByteEncoding::String,
        value_prefix: Some(PrefixKind::LenU64Le),
        value_suffix: Some(Suffix::new("\n")),
    };
    let out = command.run(&mut db, "items", None).unwrap();
    let mut expected = vec![5, 0, 0, 0, 0, 0, 0, 0];
    expected.extend_from_slice(b"value\n");
    assert_eq!(out.stdout, expected);
}

#[test]
fn get_missing_key_and_keyspace() {
    let temp_dir = TempDir::new("fjall_cli").unwrap();
    let mut db = open(&temp_dir);
    match get(&mut db, "items", "key") {
        Err(GetCommandRunError::KeyspaceNotFound { keyspace }) => assert_eq!(keyspace, "items"),
        other => panic!("unexpected {other:?}"),
    }
    insert(&mut db, "items", "key", "value");
    match get(&mut db, "items", "other") {
        Err(GetCommandRunError::KeyNotFound { keyspace, key }) => {
            assert_eq!(keyspace, "items");
            assert_eq!(key, "other");
        }
        other => panic!("unexpected {other:?}"),
    }
    let bad = GetCommand {
        key: "xyz".to_string(),
        key_encoding: ByteEncoding::Hex,
        value_prefix: None,
        value_suffix: None,
    };
    assert!(matches!(
        bad.run(&mut db, "items", None),
        Err(GetCommandRunError::DecodeKeyBytesFailed { .. })
    ));
}

#[test]
fn insert_overwrites_and_decodes() {
    let temp_dir = TempDir::new("fjall_cli").unwrap();
    let mut db = open(&temp_dir);
    insert(&mut db, "items", "key", "first");
    insert(&mut db, "items", "key", "second");
    assert_eq!(get(&mut db, "items", "key").unwrap(), b"second");
    let len = LenCommand {}.run(&mut db, "items").unwrap();
    assert_eq!(len.stdout, b"1\n");

    let command = InsertCommand {
        key: "6b32".to_string(),
        value: "v.bin".to_string(),
        key_encoding: ByteEncoding::Hex,
        value_encoding: ByteEncoding::Path,
    };
    let file = PathRead::Contents(vec![0, 1, 2]);
    command.run(&mut db, "items", None, Some(file)).unwrap();
    assert_eq!(get(&mut db, "items", "k2").unwrap(), vec![0, 1, 2]);

    let empty_value = InsertCommand {
        key: "k3".to_string(),
        value: "-".to_string(),
        key_encoding: ByteEncoding::String,
        value_encoding: ByteEncoding::Empty,
    };
    empty_value.run(&mut db, "items", None, None).unwrap();
    assert_eq!(get(&mut db, "items", "k3").unwrap(), b"");
}

#[test]
fn insert_decode_errors_leave_database_alone() {
    let temp_dir = TempDir::new("fjall_cli").unwrap();
    let mut db = open(&temp_dir);
    let bad_key = InsertCommand {
        key: "x".to_string(),
        value: "v".to_string(),
        key_encoding: ByteEncoding::Empty,
        value_encoding: ByteEncoding::String,
    };
    match bad_key.run(&mut db, "items", None, None) {
        Err(InsertCommandRunError::DecodeKeyBytesFailed { key, .. }) => assert_eq!(key, "x"),
        other => panic!("unexpected {other:?}"),
    }
    let bad_value = InsertCommand {
        key: "k".to_string(),
        value: "q".to_string(),
        key_encoding: ByteEncoding::String,
        value_encoding: ByteEncoding::Hex,
    };
    match bad_value.run(&mut db, "items", None, None) {
        Err(InsertCommandRunError::DecodeValueBytesFailed { value, .. }) => assert_eq!(value, "q"),
        other => panic!("unexpected {other:?}"),
    }
    assert_eq!(count(&db), "0\n");
}

#[test]
fn contains_creates_missing_keyspace() {
    let temp_dir = TempDir::new("fjall_cli").unwrap();
    let mut db = open(&temp_dir);
    let command = ContainsCommand { key: "k".to_string(), key_encoding: ByteEncoding::String };
    let out = command.run(&mut db, "fresh", None).unwrap();
    assert_eq!(out.exit_code, 127);
    assert_eq!(count(&db), "1\n");
    let bad = ContainsCommand { key: "k".to_string(), key_encoding: ByteEncoding::Hex };
    assert!(matches!(
        bad.run(&mut db, "fresh", None),
        Err(ContainsCommandRunError::DecodeKeyBytesFailed { .. })
    ));
}

#[test]
fn clear_keeps_keyspace_and_empties_it() {
    let temp_dir = TempDir::new("fjall_cli").unwrap();
    let mut db = open(&temp_dir);
    insert(&mut db, "items", "a", "1");
    insert(&mut db, "items", "b", "2");
    insert(&mut db, "other", "a", "1");
    ClearCommand {}.run(&mut db, "items").unwrap();
    assert_eq!(LenCommand {}.run(&mut db, "items").unwrap().stdout, b"0\n");
    assert_eq!(LenCommand {}.run(&mut db, "other").unwrap().stdout, b"1\n");
    assert_eq!(count(&db), "2\n");
    assert!(ClearCommand {}.run(&mut db, "none").is_err());
}

#[test]
fn delete_removes_keyspace() {
    let temp_dir = TempDir::new("fjall_cli").unwrap();
    let mut db = open(&temp_dir);
    insert(&mut db, "items", "key", "value");
    assert_eq!(count(&db), "1\n");
    DeleteCommand {}.run(&mut db, "items").unwrap();
    assert_eq!(count(&db), "0\n");
    assert!(matches!(
        LenCommand {}.run(&mut db, "items"),
        Err(LenCommandRunError::KeyspaceNotFound { .. })
    ));
    match (DeleteCommand {}).run(&mut db, "items") {
        Err(DeleteCommandRunError::KeyspaceNotFound { keyspace }) => assert_eq!(keyspace, "items"),
        other => panic!("unexpected {other:?}"),
    }
    insert(&mut db, "items", "other", "x");
    assert_eq!(LenCommand {}.run(&mut db, "items").unwrap().stdout, b"1\n");
}

#[test]
fn disk_size_after_insert_is_positive() {
    let temp_dir = TempDir::new("fjall_cli").unwrap();
    let mut db = open(&temp_dir);
    insert(&mut db, "items", "key", "value");
    let out = DiskSizeCommand {}.run(&mut db, "items").unwrap();
    let text = String::from_utf8(out.stdout).unwrap();
    assert!(text.ends_with('\n'));
    let size: u64 = text.trim_end().parse().unwrap();
    assert!(size > 0);
}

#[test]
fn top_level_get_without_newline() {
    let temp_dir = TempDir::new("fjall_cli").unwrap();
    let mut db = open(&temp_dir);
    insert(&mut db, "items", "key", "value");
    let command = PrintCommand {
        keyspace: "items".to_string(),
        key: "key".to_string(),
        key_encoding: ByteEncoding::String,
        no_newline: true,
    };
    assert_eq!(command.run(&mut db, None).unwrap().stdout, b"value");
}

#[test]
fn keyspace_command_dispatches() {
    let temp_dir = TempDir::new("fjall_cli").unwrap();
    let mut db = open(&temp_dir);
    let insert = KeyspaceCommand {
        keyspace: "items".to_string(),
        subcommand: KeyspaceSubcommand::Insert(InsertCommand {
            key: "key".to_string(),
            value: "value".to_string(),
            key_encoding: ByteEncoding::String,
            value_encoding: ByteEncoding::String,
        }),
    };
    let files = || fjall_cli::ArgFiles { key: None, value: None };
    let mut out = Vec::new();
    assert_eq!(insert.run(&mut db, files(), &mut out).unwrap(), 0);
    assert_eq!(out, b"");
    let len = Subcommand::Keyspace(KeyspaceCommand {
        keyspace: "items".to_string(),
        subcommand: KeyspaceSubcommand::Len(LenCommand {}),
    });
    let mut out = Vec::new();
    assert_eq!(len.run(&mut db, files(), &mut out).unwrap(), 0);
    assert_eq!(out, b"1\n");
    let count = Subcommand::KeyspaceCount(KeyspaceCountCommand {});
    let mut out = Vec::new();
    assert_eq!(count.run(&mut db, files(), &mut out).unwrap(), 0);
    assert_eq!(out, b"1\n");
    let missing = KeyspaceCommand {
        keyspace: "none".to_string(),
        subcommand: KeyspaceSubcommand::Len(LenCommand {}),
    };
    assert!(matches!(
        missing.run(&mut db, ArgFiles { key: None, value: None }, &mut Vec::new()),
        Err(KeyspaceCommandRunError::RunLenCommandFailed { .. })
    ));
}

#[test]
fn decode_errors_come_before_the_keyspace_name_is_used() {
    let temp_dir = TempDir::new("fjall_cli").unwrap();
    let mut db = open(&temp_dir);
    let insert = KeyspaceCommand {
        keyspace: String::new(),
        subcommand: KeyspaceSubcommand::Insert(InsertCommand {
            key: "x".to_string(),
            value: "zz".to_string(),
            key_encoding: ByteEncoding::Empty,
            value_encoding: ByteEncoding::Hex,
        }),
    };
    let mut out = Vec::new();
    match insert.run(&mut db, ArgFiles { key: None, value: None }, &mut out) {
        Err(KeyspaceCommandRunError::RunInsertCommandFailed {
            source: InsertCommandRunError::DecodeKeyBytesFailed { key, .. },
        }) => assert_eq!(key, "x"),
        other => panic!("unexpected {other:?}"),
    }
    let contains = KeyspaceCommand {
        keyspace: String::new(),
        subcommand: KeyspaceSubcommand::Contains(ContainsCommand {
            key: "0".to_string(),
            key_encoding: ByteEncoding::Hex,
        }),
    };
    assert!(matches!(
        contains.run(&mut db, ArgFiles { key: None, value: None }, &mut out),
        Err(KeyspaceCommandRunError::RunContainsCommandFailed {
            source: ContainsCommandRunError::DecodeKeyBytesFailed { .. }
        })
    ));
    assert_eq!(out, b"");
    assert_eq!(count(&db), "0\n");
}
