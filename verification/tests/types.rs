use fjall_cli::bytes::decimal_line_bytes;
use fjall_cli::hex_codec::HexError;
use fjall_cli::{
    ByteEncoding, ByteEncodingDecodeError, OutputAffixes, OutputKind, PathRead, PrefixKind,
    Separator, SeparatorParseError, Suffix,
};
use std::str::FromStr;

fn no_affixes() -> OutputAffixes {
    OutputAffixes {
        item_prefix: None,
        item_suffix: None,
        key_prefix: None,
        key_suffix: None,
        value_prefix: None,
        value_suffix: None,
    }
}

#[test]
fn prefix_kind_writes_length_in_both_orders() {
    assert_eq!(PrefixKind::LenU64Le.write(b"abc"), vec![3, 0, 0, 0, 0, 0, 0, 0]);
    assert_eq!(PrefixKind::LenU64Be.write(b"abc"), vec![0, 0, 0, 0, 0, 0, 0, 3]);
    let long = vec![7u8; 300];
    assert_eq!(PrefixKind::LenU64Le.write(&long), vec![44, 1, 0, 0, 0, 0, 0, 0]);
    assert_eq!(PrefixKind::LenU64Be.write(&long), vec![0, 0, 0, 0, 0, 0, 1, 44]);
    assert_eq!(PrefixKind::LenU64Le.write(b""), vec![0; 8]);
}

#[test]
fn output_kind_key_value_and_both() {
    let affixes = no_affixes();
    let mut out = Vec::new();
    OutputKind::Key.write(&mut out, b"k", b"v", &affixes);
    assert_eq!(out, b"k");
    let mut out = Vec::new();
    OutputKind::Value.write(&mut out, b"k", b"v", &affixes);
    assert_eq!(out, b"v");
    let mut out = b"x".to_vec();
    OutputKind::KeyValue.write(&mut out, b"k", b"v", &affixes);
    assert_eq!(out, b"xkv");
}

#[test]
fn output_kind_affixes_in_order() {
    let affixes = OutputAffixes {
        item_prefix: Some(PrefixKind::LenU64Be),
        item_suffix: Some(Suffix::new(";")),
        key_prefix: Some(PrefixKind::LenU64Le),
        key_suffix: Some(Suffix::new(":")),
        value_prefix: Some(PrefixKind::LenU64Be),
        value_suffix: Some(Suffix::new("\n")),
    };
    let mut out = Vec::new();
    OutputKind::KeyValue.write(&mut out, b"ab", b"xyz", &affixes);
    let mut expected = vec![0, 0, 0, 0, 0, 0, 0, 2];
    expected.extend_from_slice(&[2, 0, 0, 0, 0, 0, 0, 0]);
    expected.extend_from_slice(b"ab:");
    expected.extend_from_slice(&[0, 0, 0, 0, 0, 0, 0, 3]);
    expected.extend_from_slice(b"xyz\n;");
    assert_eq!(out, expected);

    let mut out = Vec::new();
    OutputKind::Value.write(&mut out, b"ab", b"xyz", &affixes);
    let mut expected = vec![0, 0, 0, 0, 0, 0, 0, 3];
    expected.extend_from_slice(&[0, 0, 0, 0, 0, 0, 0, 3]);
    expected.extend_from_slice(b"xyz\n;");
    assert_eq!(out, expected);

    let mut out = Vec::new();
    OutputKind::Key.write(&mut out, b"ab", b"xyz", &affixes);
    let mut expected = vec![0, 0, 0, 0, 0, 0, 0, 2];
    expected.extend_from_slice(&[2, 0, 0, 0, 0, 0, 0, 0]);
    expected.extend_from_slice(b"ab:;");
    assert_eq!(out, expected);
}

#[test]
fn output_kind_default_is_key_value() {
    assert!(matches!(OutputKind::default(), OutputKind::KeyValue));
}

#[test]
fn separator_plain_text_stands_for_itself() {
    assert_eq!(Separator::parse(": ").unwrap().as_bytes(), b": ");
    assert_eq!(Separator::parse("").unwrap().as_bytes(), b"");
    assert_eq!(Separator::parse("é").unwrap().as_bytes(), "é".as_bytes());
}

#[test]
fn separator_escapes() {
    assert_eq!(Separator::parse("\\n").unwrap().as_bytes(), b"\n");
    assert_eq!(Separator::parse("a\\r\\t\\0b").unwrap().as_bytes(), b"a\r\t\0b");
    assert_eq!(Separator::parse("\\x41\\x6a\\xFF").unwrap().as_bytes(), &[0x41, 0x6a, 0xff]);
    assert_eq!(Separator::from_str("-\\n-").unwrap().as_ref(), b"-\n-");
}

#[test]
fn separator_trailing_escape() {
    match Separator::parse("ab\\") {
        Err(SeparatorParseError::TrailingEscape { input }) => assert_eq!(input, "ab\\"),
        other => panic!("unexpected {other:?}"),
    }
}

#[test]
fn separator_incomplete_hex_escape() {
    match Separator::parse("\\x4") {
        Err(SeparatorParseError::IncompleteHexEscape { input }) => assert_eq!(input, "\\x4"),
        other => panic!("unexpected {other:?}"),
    }
    assert!(matches!(Separator::parse("\\x"), Err(SeparatorParseError::IncompleteHexEscape { .. })));
}

#[test]
fn separator_invalid_hex_escape() {
    match Separator::parse("\\xZ1") {
        Err(SeparatorParseError::InvalidHexEscape { input, source }) => {
            assert_eq!(input, "\\xZ1");
            assert_eq!(source, HexError::InvalidHexCharacter { c: 'Z', index: 0 });
        }
        other => panic!("unexpected {other:?}"),
    }
    match Separator::parse("ab\\x4g") {
        Err(SeparatorParseError::InvalidHexEscape { source, .. }) => {
            assert_eq!(source, HexError::InvalidHexCharacter { c: 'g', index: 1 })
        }
        other => panic!("unexpected {other:?}"),
    }
}

#[test]
fn separator_invalid_escape() {
    match Separator::parse("a\\qb") {
        Err(SeparatorParseError::InvalidEscape { input, escape }) => {
            assert_eq!(input, "a\\qb");
            assert_eq!(escape, "q");
        }
        other => panic!("unexpected {other:?}"),
    }
    match Separator::parse("\\\\") {
        Err(SeparatorParseError::InvalidEscape { escape, .. }) => assert_eq!(escape, "\\"),
        other => panic!("unexpected {other:?}"),
    }
}

#[test]
fn separator_first_error_wins() {
    assert!(matches!(Separator::parse("\\q\\"), Err(SeparatorParseError::InvalidEscape { .. })));
}

#[test]
fn byte_encoding_empty() {
    assert_eq!(ByteEncoding::Empty.decode("-", None).unwrap(), Vec::<u8>::new());
    match ByteEncoding::Empty.decode("x", None) {
        Err(ByteEncodingDecodeError::EmptyEncodingInvalid { input }) => assert_eq!(input, "x"),
        other => panic!("unexpected {other:?}"),
    }
    assert!(ByteEncoding::Empty.decode("", None).is_err());
}

#[test]
fn byte_encoding_string() {
    assert_eq!(ByteEncoding::String.decode("héllo", None).unwrap(), "héllo".as_bytes());
    assert!(matches!(ByteEncoding::default(), ByteEncoding::String));
}

#[test]
fn byte_encoding_hex() {
    assert_eq!(ByteEncoding::Hex.decode("4a6B", None).unwrap(), vec![0x4a, 0x6b]);
    assert_eq!(ByteEncoding::decode_hex("").unwrap(), Vec::<u8>::new());
    assert_eq!(ByteEncoding::decode_hex("Ab09fF").unwrap(), vec![0xab, 0x09, 0xff]);
    match ByteEncoding::Hex.decode("abc", None) {
        Err(ByteEncodingDecodeError::HexDecodeFailed { input, source }) => {
            assert_eq!(input, "abc");
            assert_eq!(source, HexError::OddLength);
        }
        other => panic!("unexpected {other:?}"),
    }
    match ByteEncoding::decode_hex("00a1zz") {
        Err(ByteEncodingDecodeError::HexDecodeFailed { source, .. }) => {
            assert_eq!(source, HexError::InvalidHexCharacter { c: 'z', index: 4 })
        }
        other => panic!("unexpected {other:?}"),
    }
    match ByteEncoding::decode_hex("00\u{e9}") {
        Err(ByteEncodingDecodeError::HexDecodeFailed { source, .. }) => {
            assert_eq!(source, HexError::InvalidHexCharacter { c: '\u{c3}', index: 2 })
        }
        other => panic!("unexpected {other:?}"),
    }
}

#[test]
fn byte_encoding_path() {
    let read = PathRead::Contents(b"file bytes".to_vec());
    assert_eq!(ByteEncoding::Path.decode("f.bin", Some(read)).unwrap(), b"file bytes");
    match ByteEncoding::decode_path("dir", PathRead::Directory) {
        Err(ByteEncodingDecodeError::PathIsDirectory { path }) => assert_eq!(path, "dir"),
        other => panic!("unexpected {other:?}"),
    }
    let missing = std::io::Error::new(std::io::ErrorKind::NotFound, "missing");
    assert!(matches!(
        ByteEncoding::decode_path("nope", PathRead::MetadataFailed(missing)),
        Err(ByteEncodingDecodeError::MetadataFailed { .. })
    ));
    let denied = std::io::Error::new(std::io::ErrorKind::PermissionDenied, "denied");
    match ByteEncoding::decode_path("locked", PathRead::ReadFailed(denied)) {
        Err(ByteEncodingDecodeError::ReadFailed { path, .. }) => assert_eq!(path, "locked"),
        other => panic!("unexpected {other:?}"),
    }
}

#[test]
fn byte_encoding_names() {
    assert_eq!(ByteEncoding::Empty.name(), "empty");
    assert_eq!(ByteEncoding::String.name(), "string");
    assert_eq!(ByteEncoding::Hex.name(), "hex");
    assert_eq!(ByteEncoding::Path.name(), "path");
}

#[test]
fn decimal_lines() {
    assert_eq!(decimal_line_bytes(0), b"0\n");
    assert_eq!(decimal_line_bytes(7), b"7\n");
    assert_eq!(decimal_line_bytes(10), b"10\n");
    assert_eq!(decimal_line_bytes(1234567890), b"1234567890\n");
    assert_eq!(decimal_line_bytes(u64::MAX), format!("{}\n", u64::MAX).as_bytes());
}

#[test]
fn suffix_keeps_text() {
    let suffix = Suffix::from_str("é:").unwrap();
    assert_eq!(suffix.as_str(), "é:");
    assert_eq!(suffix.as_bytes(), "é:".as_bytes());
}
