//! What holds across the commands, stated over their outcomes.
use crate::bytes::decimal_line;
use crate::command::clear_command::ClearCommand as RecreateCommand;
use crate::command::contains_command::{key_found_code, key_missing_code, ContainsCommand};
use crate::command::insert_command::InsertCommand;
use crate::command::iter_command::{rendered_all, window, IterCommand, IterCommandRunError};
use crate::command::keyspace_command::{
    ClearCommand, DeleteCommand, GetCommand, GetCommandRunError,
};
use crate::command::len_command::{LenCommand, LenCommandRunError};
use crate::command::{lists_each_once, name_lines, CommandOutput, Store};
use crate::storage::{items_of, lex_lt, lists_in_order, ordered_entries};
use crate::types::byte_encoding::PathRead;
use crate::types::output_affixes::OutputAffixes;
use crate::types::output_kind::OutputKind;
use crate::hex_codec::{hex_decoded, hex_pair_value, is_hex_char, is_hex_digit};
use crate::types::separator::{prepend_ok, unescape, EscapeFailure};
use vstd::prelude::*;

verus! {

/// No byte string comes before itself.
pub proof fn lemma_lex_lt_irreflexive(a: Seq<u8>)
    ensures
        !lex_lt(a, a),
    decreases a.len(),
{
    if a.len() > 0 {
        lemma_lex_lt_irreflexive(a.subrange(1, a.len() as int));
    }
}

/// An empty keyspace is listed as nothing.
pub proof fn lemma_ordered_entries_empty()
    ensures
        ordered_entries(Map::<Seq<u8>, Seq<u8>>::empty()) == Seq::<(Seq<u8>, Seq<u8>)>::empty(),
{
    let m = Map::<Seq<u8>, Seq<u8>>::empty();
    assert(lists_in_order(Seq::empty(), m));
    let s = ordered_entries(m);
    if s.len() > 0 {
        assert(m.contains_key(s[0].0));
    }
}

/// A keyspace of one pair is listed as that pair.
pub proof fn lemma_ordered_entries_single(key: Seq<u8>, value: Seq<u8>)
    ensures
        ordered_entries(Map::<Seq<u8>, Seq<u8>>::empty().insert(key, value)) == seq![(key, value)],
{
    let m = Map::<Seq<u8>, Seq<u8>>::empty().insert(key, value);
    let w = seq![(key, value)];
    assert(lists_in_order(w, m)) by {
        assert forall|k: Seq<u8>| #[trigger] m.contains_key(k) implies exists|i: int| 0 <= i < w.len() && w[i].0 == k by {
            assert(w[0].0 == k);
        }
    }
    let s = ordered_entries(m);
    assert(lists_in_order(s, m));
    assert(m.contains_key(key));
    let i = choose|i: int| 0 <= i < s.len() && s[i].0 == key;
    if s.len() > 1 {
        assert(m.contains_key(s[0].0));
        assert(m.contains_key(s[1].0));
        assert(lex_lt(s[0].0, s[1].0));
        lemma_lex_lt_irreflexive(key);
    }
    assert(s.len() == 1);
    assert(s[0] == (key, value));
    assert(s =~= w);
}

/// The rendering of two runs of pairs is the rendering of each, one after the other.
pub proof fn lemma_rendered_all_concat(
    kind: OutputKind,
    a: Seq<(Seq<u8>, Seq<u8>)>,
    b: Seq<(Seq<u8>, Seq<u8>)>,
    affixes: OutputAffixes,
)
    ensures
        rendered_all(kind, a + b, affixes) == rendered_all(kind, a, affixes) + rendered_all(
            kind,
            b,
            affixes,
        ),
    decreases b.len(),
{
    if b.len() == 0 {
        assert(a + b =~= a);
        assert(rendered_all(kind, a, affixes) + Seq::<u8>::empty() =~= rendered_all(kind, a, affixes));
    } else {
        lemma_rendered_all_concat(kind, a, b.drop_last(), affixes);
        assert((a + b).drop_last() =~= a + b.drop_last());
        assert((a + b).last() == b.last());
        assert(rendered_all(kind, a, affixes) + rendered_all(kind, b.drop_last(), affixes)
            + kind.rendered(b.last().0, b.last().1, affixes) =~= rendered_all(kind, a, affixes) + (
        rendered_all(kind, b.drop_last(), affixes) + kind.rendered(b.last().0, b.last().1, affixes)));
    }
}

/// Paging: the first `count` items of a keyspace and then the items from `count` on
/// make up the whole iteration, for any kind and affixes.
pub proof fn law_iter_pages_concatenate(
    entries: Seq<(Seq<u8>, Seq<u8>)>,
    count: usize,
    kind: OutputKind,
    affixes: OutputAffixes,
)
    ensures
        rendered_all(kind, window(entries, 0, Some(count)), affixes) + rendered_all(
            kind,
            window(entries, count as nat, None),
            affixes,
        ) == rendered_all(kind, window(entries, 0, None), affixes),
{
    let head = window(entries, 0, Some(count));
    let tail = window(entries, count as nat, None);
    let whole = window(entries, 0, None);
    assert(entries.subrange(0, entries.len() as int) =~= entries);
    if count as nat <= entries.len() {
        assert(head + tail =~= whole);
    } else {
        assert(tail =~= Seq::<(Seq<u8>, Seq<u8>)>::empty());
        assert(head + tail =~= whole);
    }
    lemma_rendered_all_concat(kind, head, tail, affixes);
}

/// A separator text without a backslash stands for its own bytes.
pub proof fn law_separator_without_escapes(s: Seq<u8>)
    requires
        forall|i: int| 0 <= i < s.len() ==> s[i] != 0x5c,
    ensures
        unescape(s) == Ok::<Seq<u8>, EscapeFailure>(s),
    decreases s.len(),
{
    if s.len() > 0 {
        let rest = s.subrange(1, s.len() as int);
        assert forall|i: int| 0 <= i < rest.len() implies rest[i] != 0x5c by {
            assert(rest[i] == s[i + 1]);
        }
        law_separator_without_escapes(rest);
        assert(s[0] != 0x5c);
        assert(seq![s[0]] + rest =~= s);
        assert(unescape(s) == prepend_ok(seq![s[0]], unescape(rest)));
    } else {
        assert(s =~= Seq::<u8>::empty());
    }
}

/// A byte with its high bit set is no backslash.
proof fn lemma_high_byte_is_no_backslash(x: u8)
    ensures
        (0x80u8 | x) != 0x5cu8,
        (0xC0u8 | x) != 0x5cu8,
        (0xE0u8 | x) != 0x5cu8,
        (0xF0u8 | x) != 0x5cu8,
{
    assert((0x80u8 | x) != 0x5cu8 && (0xC0u8 | x) != 0x5cu8 && (0xE0u8 | x) != 0x5cu8 && (0xF0u8
        | x) != 0x5cu8) by (bit_vector);
}

/// The UTF-8 encoding of a char other than a backslash holds no backslash byte.
proof fn lemma_encode_scalar_no_backslash(c: char)
    requires
        c != '\\',
    ensures
        forall|i: int|
            0 <= i < vstd::utf8::encode_scalar(c as u32).len()
                ==> #[trigger] vstd::utf8::encode_scalar(c as u32)[i] != 0x5c,
{
    let v = c as u32;
    vstd::utf8::char_is_scalar(c);
    vstd::utf8::char_u32_cast(c, v);
    if vstd::utf8::has_width_1_encoding(v) {
        assert(v != 0x5c);
        assert((v & 0x7Fu32) as u8 != 0x5cu8) by (bit_vector)
            requires
                v <= 0x7Fu32,
                v != 0x5cu32,
        ;
    } else {
        lemma_high_byte_is_no_backslash(((v >> 6u32) & 0x1Fu32) as u8);
        lemma_high_byte_is_no_backslash(((v >> 12u32) & 0x0Fu32) as u8);
        lemma_high_byte_is_no_backslash(((v >> 18u32) & 0x7u32) as u8);
        lemma_high_byte_is_no_backslash((v & 0x3Fu32) as u8);
        lemma_high_byte_is_no_backslash(((v >> 6u32) & 0x3Fu32) as u8);
        lemma_high_byte_is_no_backslash(((v >> 12u32) & 0x3Fu32) as u8);
    }
}

/// The UTF-8 encoding of a text without a backslash holds no backslash byte.
proof fn lemma_encode_utf8_no_backslash(text: Seq<char>)
    requires
        forall|i: int| 0 <= i < text.len() ==> text[i] != '\\',
    ensures
        forall|i: int|
            0 <= i < vstd::utf8::encode_utf8(text).len()
                ==> #[trigger] vstd::utf8::encode_utf8(text)[i] != 0x5c,
    decreases text.len(),
{
    if text.len() > 0 {
        let rest = text.drop_first();
        assert forall|i: int| 0 <= i < rest.len() implies rest[i] != '\\' by {
            assert(rest[i] == text[i + 1]);
        }
        lemma_encode_utf8_no_backslash(rest);
        lemma_encode_scalar_no_backslash(text[0]);
        let head = vstd::utf8::encode_scalar(text[0] as u32);
        let tail = vstd::utf8::encode_utf8(rest);
        assert(vstd::utf8::encode_utf8(text) == head + tail);
        assert forall|i: int| 0 <= i < (head + tail).len() implies #[trigger] (head + tail)[i] != 0x5c by {
            if i < head.len() {
                assert((head + tail)[i] == head[i]);
            } else {
                assert((head + tail)[i] == tail[i - head.len()]);
            }
        }
    }
}

/// A separator text without a backslash stands for its own UTF-8 bytes, copied
/// verbatim: nothing trimmed or added (the empty text gives no bytes).
pub proof fn law_separator_text_without_backslash(text: Seq<char>)
    requires
        forall|i: int| 0 <= i < text.len() ==> text[i] != '\\',
    ensures
        unescape(vstd::utf8::encode_utf8(text)) == Ok::<Seq<u8>, EscapeFailure>(
            vstd::utf8::encode_utf8(text),
        ),
{
    lemma_encode_utf8_no_backslash(text);
    law_separator_without_escapes(vstd::utf8::encode_utf8(text));
}

/// Bytes decode as hexadecimal exactly when there is an even number of them and
/// each is a digit; each decoded byte is then the value of its pair of digits.
proof fn lemma_hex_decoded_pairs(s: Seq<u8>)
    ensures
        hex_decoded(s) is Some <==> (s.len() % 2 == 0 && forall|i: int|
            0 <= i < s.len() ==> is_hex_digit(#[trigger] s[i])),
        hex_decoded(s) matches Some(b) ==> {
            &&& b.len() * 2 == s.len()
            &&& forall|i: int|
                0 <= i < b.len() ==> #[trigger] b[i] == hex_pair_value(s[2 * i], s[2 * i + 1])
        },
    decreases s.len(),
{
    if s.len() >= 2 {
        let rest = s.subrange(2, s.len() as int);
        lemma_hex_decoded_pairs(rest);
        if is_hex_digit(s[0]) && is_hex_digit(s[1]) {
            if forall|i: int| 0 <= i < rest.len() ==> is_hex_digit(#[trigger] rest[i]) {
                assert forall|i: int| 0 <= i < s.len() implies is_hex_digit(#[trigger] s[i]) by {
                    if i >= 2 {
                        assert(s[i] == rest[i - 2]);
                    }
                }
            } else {
                let j = choose|j: int| 0 <= j < rest.len() && !is_hex_digit(#[trigger] rest[j]);
                assert(s[j + 2] == rest[j]);
            }
            if let Some(r) = hex_decoded(rest) {
                let b = seq![hex_pair_value(s[0], s[1])] + r;
                assert forall|i: int| 0 <= i < b.len() implies #[trigger] b[i] == hex_pair_value(
                    s[2 * i],
                    s[2 * i + 1],
                ) by {
                    if i > 0 {
                        assert(b[i] == r[i - 1]);
                        assert(rest[2 * (i - 1)] == s[2 * i]);
                        assert(rest[2 * (i - 1) + 1] == s[2 * i + 1]);
                    }
                }
            }
        } else {
            if !is_hex_digit(s[0]) {
                assert(!is_hex_digit(s[0]));
            } else {
                assert(!is_hex_digit(s[1]));
            }
        }
    } else if s.len() == 1 {
    } else {
    }
}

/// A leading byte of a UTF-8 sequence of two or more bytes is no hexadecimal digit.
proof fn lemma_leading_byte_is_no_hex_digit(x: u8)
    ensures
        !is_hex_digit(0xC0u8 | x),
        !is_hex_digit(0xE0u8 | x),
        !is_hex_digit(0xF0u8 | x),
{
    assert((0xC0u8 | x) >= 0xC0u8 && (0xE0u8 | x) >= 0xE0u8 && (0xF0u8 | x) >= 0xF0u8)
        by (bit_vector);
}

/// The UTF-8 encoding of an ASCII text is its chars, one byte each.
proof fn lemma_encode_utf8_ascii(text: Seq<char>)
    requires
        forall|i: int| 0 <= i < text.len() ==> (#[trigger] text[i]) as u32 <= 0x7F,
    ensures
        vstd::utf8::encode_utf8(text).len() == text.len(),
        forall|i: int|
            0 <= i < text.len() ==> #[trigger] vstd::utf8::encode_utf8(text)[i] == text[i] as u32 as u8,
    decreases text.len(),
{
    if text.len() > 0 {
        let v = text[0] as u32;
        let rest = text.drop_first();
        assert forall|i: int| 0 <= i < rest.len() implies (#[trigger] rest[i]) as u32 <= 0x7F by {
            assert(rest[i] == text[i + 1]);
        }
        lemma_encode_utf8_ascii(rest);
        assert((v & 0x7Fu32) as u8 == v as u8) by (bit_vector)
            requires
                v <= 0x7Fu32,
        ;
        let all = vstd::utf8::encode_utf8(text);
        assert(all == seq![(v & 0x7Fu32) as u8] + vstd::utf8::encode_utf8(rest));
        assert forall|i: int| 0 <= i < text.len() implies #[trigger] all[i] == text[i] as u32 as u8 by {
            if i > 0 {
                assert(text[i] == rest[i - 1]);
            }
        }
    }
}

/// A text whose UTF-8 bytes are all hexadecimal digits is made of hexadecimal
/// digits.
proof fn lemma_hex_bytes_are_hex_chars(text: Seq<char>)
    requires
        forall|i: int|
            0 <= i < vstd::utf8::encode_utf8(text).len() ==> is_hex_digit(
                #[trigger] vstd::utf8::encode_utf8(text)[i],
            ),
    ensures
        forall|i: int| 0 <= i < text.len() ==> is_hex_char(#[trigger] text[i]),
    decreases text.len(),
{
    if text.len() > 0 {
        let v = text[0] as u32;
        vstd::utf8::char_is_scalar(text[0]);
        let head = vstd::utf8::encode_scalar(v);
        let rest = text.drop_first();
        let tail = vstd::utf8::encode_utf8(rest);
        let all = vstd::utf8::encode_utf8(text);
        assert(all == head + tail);
        assert(all[0] == head[0]);
        assert forall|i: int| 0 <= i < tail.len() implies is_hex_digit(#[trigger] tail[i]) by {
            assert(all[i + head.len()] == tail[i]);
        }
        lemma_hex_bytes_are_hex_chars(rest);
        lemma_leading_byte_is_no_hex_digit(((v >> 6u32) & 0x1Fu32) as u8);
        lemma_leading_byte_is_no_hex_digit(((v >> 12u32) & 0x0Fu32) as u8);
        lemma_leading_byte_is_no_hex_digit(((v >> 18u32) & 0x7u32) as u8);
        assert(vstd::utf8::has_width_1_encoding(v));
        assert((v & 0x7Fu32) as u8 == v as u8) by (bit_vector)
            requires
                v <= 0x7Fu32,
        ;
        assert forall|i: int| 0 <= i < text.len() implies is_hex_char(#[trigger] text[i]) by {
            if i > 0 {
                assert(text[i] == rest[i - 1]);
            } else {
                assert(head[0] == v as u8);
                assert(is_hex_digit(v as u8));
                assert(v as u8 == v);
            }
        }
    }
}

/// Hexadecimal text decodes exactly when it has an even number of chars, each a
/// hexadecimal digit of either case; then it gives half as many bytes, each the value
/// of its pair of digits, high digit first.
pub proof fn law_decode_hex_text(text: Seq<char>)
    ensures
        hex_decoded(vstd::utf8::encode_utf8(text)) is Some <==> (text.len() % 2 == 0 && forall|i: int|
            0 <= i < text.len() ==> is_hex_char(#[trigger] text[i])),
        hex_decoded(vstd::utf8::encode_utf8(text)) matches Some(b) ==> {
            &&& b.len() * 2 == text.len()
            &&& forall|i: int|
                0 <= i < b.len() ==> #[trigger] b[i] == hex_pair_value(
                    text[2 * i] as u32 as u8,
                    text[2 * i + 1] as u32 as u8,
                )
        },
{
    let bytes = vstd::utf8::encode_utf8(text);
    lemma_hex_decoded_pairs(bytes);
    if forall|i: int| 0 <= i < text.len() ==> is_hex_char(#[trigger] text[i]) {
        lemma_encode_utf8_ascii(text);
        assert forall|i: int| 0 <= i < bytes.len() implies is_hex_digit(#[trigger] bytes[i]) by {
            assert(bytes[i] == text[i] as u32 as u8);
        }
    }
    if hex_decoded(bytes) is Some {
        lemma_hex_bytes_are_hex_chars(text);
        lemma_encode_utf8_ascii(text);
        let b = hex_decoded(bytes).unwrap();
        assert forall|i: int| 0 <= i < b.len() implies #[trigger] b[i] == hex_pair_value(
            text[2 * i] as u32 as u8,
            text[2 * i + 1] as u32 as u8,
        ) by {
            assert(bytes[2 * i] == text[2 * i] as u32 as u8);
            assert(bytes[2 * i + 1] == text[2 * i + 1] as u32 as u8);
        }
    }
}

/// A get after an insert of the same key into the same keyspace prints the value
/// that was inserted (unless the read itself fails in storage).
pub proof fn law_get_after_insert(
    s0: Store,
    s1: Store,
    s2: Store,
    name: Seq<char>,
    insert: InsertCommand,
    key_file: Option<PathRead>,
    value_file: Option<PathRead>,
    inserted_out: CommandOutput,
    get: GetCommand,
    get_key_file: Option<PathRead>,
    r: Result<CommandOutput, GetCommandRunError>,
)
    requires
        insert.outcome(s0, s1, name, key_file, value_file, Ok(inserted_out)),
        get.key_encoding.decoded(get.key@, get_key_file) == insert.key_encoding.decoded(
            insert.key@,
            key_file,
        ),
        get.outcome(s1, s2, name, get_key_file, r),
    ensures
        match r {
            Ok(out) => out.stdout@ == get.rendered(
                insert.value_encoding.decoded(insert.value@, value_file).unwrap(),
            ),
            Err(GetCommandRunError::GetFailed { .. }) => true,
            Err(_) => false,
        },
{
}

/// After the first insert into a keyspace that held nothing, its length is 1.
pub proof fn law_len_after_first_insert(
    s0: Store,
    s1: Store,
    s2: Store,
    name: Seq<char>,
    insert: InsertCommand,
    key_file: Option<PathRead>,
    value_file: Option<PathRead>,
    inserted_out: CommandOutput,
    r: Result<CommandOutput, LenCommandRunError>,
)
    requires
        insert.outcome(s0, s1, name, key_file, value_file, Ok(inserted_out)),
        items_of(s0, name) == Map::<Seq<u8>, Seq<u8>>::empty(),
        LenCommand::outcome(s1, s2, name, r),
    ensures
        match r {
            Ok(out) => out.stdout@ == decimal_line(1),
            Err(LenCommandRunError::LenFailed { .. }) => true,
            Err(_) => false,
        },
{
    let k = insert.key_encoding.decoded(insert.key@, key_file).unwrap();
    let v = insert.value_encoding.decoded(insert.value@, value_file).unwrap();
    let m = items_of(s1, name);
    assert(m == Map::<Seq<u8>, Seq<u8>>::empty().insert(k, v));
    assert(m.dom() =~= set![k]);
    assert(m.dom().len() == 1);
}

/// The first insert into an empty database makes it hold exactly one keyspace.
pub proof fn law_count_after_first_insert(
    s0: Store,
    s1: Store,
    name: Seq<char>,
    insert: InsertCommand,
    key_file: Option<PathRead>,
    value_file: Option<PathRead>,
    inserted_out: CommandOutput,
)
    requires
        s0 == Store::empty(),
        insert.outcome(s0, s1, name, key_file, value_file, Ok(inserted_out)),
    ensures
        s1.dom() == set![name],
        s1.dom().finite() && s1.dom().len() == 1,
{
    assert(s1.dom() =~= set![name]);
}

/// After an insert, the keyspace holds the key; a key that the keyspace did not
/// hold before and that is not the inserted one is still missing.
pub proof fn law_contains_after_insert(
    s0: Store,
    s1: Store,
    s2: Store,
    name: Seq<char>,
    insert: InsertCommand,
    key_file: Option<PathRead>,
    value_file: Option<PathRead>,
    inserted_out: CommandOutput,
    contains: ContainsCommand,
    contains_key_file: Option<PathRead>,
    out: CommandOutput,
)
    requires
        insert.outcome(s0, s1, name, key_file, value_file, Ok(inserted_out)),
        contains.outcome(s1, s2, name, contains_key_file, Ok(out)),
    ensures
        contains.key_encoding.decoded(contains.key@, contains_key_file) == insert.key_encoding.decoded(
            insert.key@,
            key_file,
        ) ==> out.exit_code == key_found_code(),
        contains.key_encoding.decoded(contains.key@, contains_key_file) != insert.key_encoding.decoded(
            insert.key@,
            key_file,
        ) && !items_of(s0, name).contains_key(
            contains.key_encoding.decoded(contains.key@, contains_key_file).unwrap(),
        ) ==> out.exit_code == key_missing_code(),
{
}

/// Iterating a keyspace right after the first insert into it prints that one pair.
pub proof fn law_iter_after_first_insert(
    s0: Store,
    s1: Store,
    s2: Store,
    name: Seq<char>,
    insert: InsertCommand,
    key_file: Option<PathRead>,
    value_file: Option<PathRead>,
    inserted_out: CommandOutput,
    iter: IterCommand,
    out_before: Seq<u8>,
    out_after: Seq<u8>,
)
    requires
        insert.outcome(s0, s1, name, key_file, value_file, Ok(inserted_out)),
        items_of(s0, name) == Map::<Seq<u8>, Seq<u8>>::empty(),
        iter.offset == 0,
        iter.limit is None,
        iter.outcome(s1, s2, name, out_before, out_after, Ok(())),
    ensures
        out_after == out_before + iter.kind.rendered(
            insert.key_encoding.decoded(insert.key@, key_file).unwrap(),
            insert.value_encoding.decoded(insert.value@, value_file).unwrap(),
            iter.affixes(),
        ),
{
    let k = insert.key_encoding.decoded(insert.key@, key_file).unwrap();
    let v = insert.value_encoding.decoded(insert.value@, value_file).unwrap();
    assert(items_of(s1, name) == Map::<Seq<u8>, Seq<u8>>::empty().insert(k, v));
    lemma_ordered_entries_single(k, v);
    let e = seq![(k, v)];
    assert(window(e, 0, None) =~= e);
    assert(e.drop_last() =~= Seq::<(Seq<u8>, Seq<u8>)>::empty());
    assert(rendered_all(iter.kind, e.drop_last(), iter.affixes()) == Seq::<u8>::empty());
    assert(rendered_all(iter.kind, e, iter.affixes()) =~= Seq::<u8>::empty() + iter.kind.rendered(k, v, iter.affixes()));
}

/// Listing the keyspace names of a database that holds one keyspace prints its name
/// on a line.
pub proof fn law_list_names_of_single_keyspace(store: Store, name: Seq<char>, names: Seq<Seq<char>>)
    requires
        store.dom() == set![name],
        lists_each_once(names, store.dom()),
    ensures
        name_lines(names) == vstd::utf8::encode_utf8(name) + seq![0x0au8],
{
    assert(store.dom().contains(name));
    let i = choose|i: int| 0 <= i < names.len() && names[i] == name;
    if names.len() > 1 {
        assert(store.dom().contains(names[0]));
        assert(store.dom().contains(names[1]));
        assert(names[0] != names[1]);
    }
    assert(names.len() == 1);
    assert(names.drop_last() =~= Seq::<Seq<char>>::empty());
    assert(name_lines(names.drop_last()) == Seq::<u8>::empty());
    assert(name_lines(names) =~= Seq::<u8>::empty() + vstd::utf8::encode_utf8(names[0]) + seq![0x0au8]);
}

/// After a clear, the keyspace's length is 0.
pub proof fn law_len_after_clear(
    s0: Store,
    s1: Store,
    s2: Store,
    name: Seq<char>,
    cleared_out: CommandOutput,
    r: Result<CommandOutput, LenCommandRunError>,
)
    requires
        ClearCommand::outcome(s0, s1, name, Ok(cleared_out)),
        LenCommand::outcome(s1, s2, name, r),
    ensures
        match r {
            Ok(out) => out.stdout@ == decimal_line(0),
            Err(LenCommandRunError::LenFailed { .. }) => true,
            Err(_) => false,
        },
{
    assert(items_of(s1, name).dom() =~= Set::<Seq<u8>>::empty());
}

/// After a clear, iterating the keyspace prints nothing, whatever the options.
pub proof fn law_iter_after_clear(
    s0: Store,
    s1: Store,
    s2: Store,
    name: Seq<char>,
    cleared_out: CommandOutput,
    iter: IterCommand,
    out_before: Seq<u8>,
    out_after: Seq<u8>,
    r: Result<(), IterCommandRunError>,
)
    requires
        ClearCommand::outcome(s0, s1, name, Ok(cleared_out)),
        iter.outcome(s1, s2, name, out_before, out_after, r),
    ensures
        out_after == out_before,
        r is Ok || r matches Err(IterCommandRunError::WriteItemsFailed { .. }),
{
    lemma_ordered_entries_empty();
    let w = window(Seq::<(Seq<u8>, Seq<u8>)>::empty(), iter.offset as nat, iter.limit);
    assert(w.len() == 0);
    assert(rendered_all(iter.kind, w, iter.affixes()) == Seq::<u8>::empty());
    assert(out_before + Seq::<u8>::empty() =~= out_before);
    if r is Err {
        let n = choose|n: int| 0 <= n <= w.len() && out_after == out_before + rendered_all(
            iter.kind,
            #[trigger] w.take(n),
            iter.affixes(),
        );
        assert(w.take(n) =~= w);
    }
}

/// Emptying a keyspace by recreating it also leaves it with length 0.
pub proof fn law_len_after_recreate(
    s0: Store,
    s1: Store,
    s2: Store,
    recreate: RecreateCommand,
    cleared_out: CommandOutput,
    r: Result<CommandOutput, LenCommandRunError>,
)
    requires
        recreate.outcome(s0, s1, Ok(cleared_out)),
        LenCommand::outcome(s1, s2, recreate.keyspace@, r),
    ensures
        match r {
            Ok(out) => out.stdout@ == decimal_line(0),
            Err(LenCommandRunError::LenFailed { .. }) => true,
            Err(_) => false,
        },
{
    assert(items_of(s1, recreate.keyspace@).dom() =~= Set::<Seq<u8>>::empty());
}

/// Deleting a keyspace removes it: the database holds one keyspace fewer, and a
/// length query on it reports it missing.
pub proof fn law_delete_removes_keyspace(
    s0: Store,
    s1: Store,
    s2: Store,
    name: Seq<char>,
    deleted_out: CommandOutput,
    r: Result<CommandOutput, LenCommandRunError>,
)
    requires
        s0.dom().finite(),
        DeleteCommand::outcome(s0, s1, name, Ok(deleted_out)),
        LenCommand::outcome(s1, s2, name, r),
    ensures
        s1.dom().len() + 1 == s0.dom().len(),
        r matches Err(LenCommandRunError::KeyspaceNotFound { .. }),
{
    assert(s1.dom() =~= s0.dom().remove(name));
}

} // verus!
