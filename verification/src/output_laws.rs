//! What the commands print, byte by byte: the length prefixes as the bytes of a
//! number, each option in its own place around each item, key and value, and the
//! keyspace names one per line.
use crate::bytes::{decimal, decimal_line};
use crate::command::contains_command::ContainsCommand;
use crate::command::get_command::GetCommand as PrintCommand;
use crate::command::list_command::{listed_all, ListCommand};
use crate::command::iter_command::{rendered_all, window, IterCommand};
use crate::command::keyspace_command::GetCommand;
use crate::command::{name_lines, CommandOutput, Store};
use crate::storage::{items_of, ordered_entries};
use crate::types::byte_encoding::PathRead;
use crate::types::output_affixes::OutputAffixes;
use crate::types::output_kind::OutputKind;
use crate::types::prefix_kind::{le_bytes, PrefixKind};
use crate::types::suffix::Suffix;
use vstd::prelude::*;

verus! {

/// 256 raised to `i`.
pub open spec fn pow256(i: nat) -> nat
    decreases i,
{
    if i == 0 {
        1
    } else {
        256 * pow256((i - 1) as nat)
    }
}

/// Byte `i` of the number `n`, counting from the least significant byte.
pub open spec fn byte_of(n: nat, i: nat) -> u8 {
    ((n / pow256(i)) % 256) as u8
}

/// The eight bytes of the length of `data` that a length prefix writes before it:
/// the least significant byte first for little-endian, last for big-endian; no
/// bytes without a prefix.
pub open spec fn length_field(prefix: Option<PrefixKind>, data: Seq<u8>) -> Seq<u8> {
    match prefix {
        None => Seq::empty(),
        Some(PrefixKind::LenU64Le) => Seq::new(8, |i: int| byte_of(data.len(), i as nat)),
        Some(PrefixKind::LenU64Be) => Seq::new(8, |i: int| byte_of(data.len(), (7 - i) as nat)),
    }
}

/// The UTF-8 bytes of a suffix's text, or none.
pub open spec fn suffix_text(suffix: Option<Suffix>) -> Seq<u8> {
    match suffix {
        Some(s) => vstd::utf8::encode_utf8(s@),
        None => Seq::empty(),
    }
}

/// `data` with its own length prefix before it and its suffix after it.
pub open spec fn framed(prefix: Option<PrefixKind>, data: Seq<u8>, suffix: Option<Suffix>) -> Seq<u8> {
    length_field(prefix, data) + data + suffix_text(suffix)
}

/// One item of the iteration: the item prefix (the length of the key, or of the
/// value where only the value is shown), the key and/or the value each framed by
/// its own prefix and suffix, then the item suffix.
pub open spec fn item_layout(
    kind: OutputKind,
    item_prefix: Option<PrefixKind>,
    item_suffix: Option<Suffix>,
    key_prefix: Option<PrefixKind>,
    key_suffix: Option<Suffix>,
    value_prefix: Option<PrefixKind>,
    value_suffix: Option<Suffix>,
    key: Seq<u8>,
    value: Seq<u8>,
) -> Seq<u8> {
    match kind {
        OutputKind::Key => length_field(item_prefix, key) + framed(key_prefix, key, key_suffix)
            + suffix_text(item_suffix),
        OutputKind::Value => length_field(item_prefix, value) + framed(value_prefix, value, value_suffix)
            + suffix_text(item_suffix),
        OutputKind::KeyValue => length_field(item_prefix, key) + framed(key_prefix, key, key_suffix)
            + framed(value_prefix, value, value_suffix) + suffix_text(item_suffix),
    }
}

/// The items of the iteration command `c` for `entries`, one after another.
pub open spec fn iter_items(c: IterCommand, entries: Seq<(Seq<u8>, Seq<u8>)>) -> Seq<u8>
    decreases entries.len(),
{
    if entries.len() == 0 {
        Seq::empty()
    } else {
        iter_items(c, entries.drop_last()) + item_layout(
            c.kind,
            c.item_prefix,
            c.item_suffix,
            c.key_prefix,
            c.key_suffix,
            c.value_prefix,
            c.value_suffix,
            entries.last().0,
            entries.last().1,
        )
    }
}

/// Byte `i` of the little-endian bytes of `n` is byte `i` of the number.
proof fn lemma_le_bytes_index(n: nat, count: nat, i: nat)
    requires
        i < count,
    ensures
        le_bytes(n, count).len() == count,
        le_bytes(n, count)[i as int] == byte_of(n, i),
    decreases count,
{
    if i == 0 {
        assert(le_bytes(n, count)[0] == (n % 256) as u8);
        assert(pow256(0) == 1);
        assert(n / pow256(0) == n);
        lemma_le_bytes_len(n, count);
    } else {
        lemma_le_bytes_index(n / 256, (count - 1) as nat, (i - 1) as nat);
        lemma_le_bytes_len(n, count);
        lemma_pow256_positive((i - 1) as nat);
        vstd::arithmetic::div_mod::lemma_div_denominator(n as int, 256, pow256((i - 1) as nat) as int);
        assert(pow256(i) == 256 * pow256((i - 1) as nat));
        assert(le_bytes(n, count)[i as int] == le_bytes(n / 256, (count - 1) as nat)[i - 1]);
    }
}

/// Powers of 256 are positive.
proof fn lemma_pow256_positive(i: nat)
    ensures
        pow256(i) > 0,
    decreases i,
{
    if i > 0 {
        lemma_pow256_positive((i - 1) as nat);
    }
}

/// `le_bytes` gives `count` bytes.
proof fn lemma_le_bytes_len(n: nat, count: nat)
    ensures
        le_bytes(n, count).len() == count,
    decreases count,
{
    if count > 0 {
        lemma_le_bytes_len(n / 256, (count - 1) as nat);
    }
}

/// A length prefix is eight bytes: byte `i` of the length at place `i` for
/// little-endian, and at place `7 - i` for big-endian, so that the last byte of a
/// big-endian prefix is the length modulo 256.
pub proof fn law_prefix_kind_bytes(kind: PrefixKind, data: Seq<u8>)
    ensures
        kind.encode_len(data.len()) == length_field(Some(kind), data),
{
    lemma_le_bytes_len(data.len(), 8);
    let le = le_bytes(data.len(), 8);
    assert forall|i: int| 0 <= i < 8 implies #[trigger] le[i] == byte_of(data.len(), i as nat) by {
        lemma_le_bytes_index(data.len(), 8, i as nat);
    }
    match kind {
        PrefixKind::LenU64Le => {
            assert(le =~= length_field(Some(kind), data));
        },
        PrefixKind::LenU64Be => {
            assert forall|i: int| 0 <= i < 8 implies #[trigger] le.reverse()[i] == byte_of(
                data.len(),
                (7 - i) as nat,
            ) by {
                assert(le.reverse()[i] == le[7 - i]);
            }
            assert(le.reverse() =~= length_field(Some(kind), data));
        },
    }
}

/// One rendered pair: the item prefix, then the key and/or the value, each with the
/// length prefix and the suffix chosen for it, then the item suffix; each option in
/// its own place.
pub proof fn law_rendered_layout(kind: OutputKind, key: Seq<u8>, value: Seq<u8>, affixes: OutputAffixes)
    ensures
        kind.rendered(key, value, affixes) == item_layout(
            kind,
            affixes.item_prefix,
            affixes.item_suffix,
            affixes.key_prefix,
            affixes.key_suffix,
            affixes.value_prefix,
            affixes.value_suffix,
            key,
            value,
        ),
{
    let shown = match kind {
        OutputKind::Value => value,
        _ => key,
    };
    if let Some(p) = affixes.item_prefix {
        law_prefix_kind_bytes(p, shown);
    }
    if let Some(p) = affixes.key_prefix {
        law_prefix_kind_bytes(p, key);
    }
    if let Some(p) = affixes.value_prefix {
        law_prefix_kind_bytes(p, value);
    }
    assert(kind.rendered(key, value, affixes) =~= item_layout(
        kind,
        affixes.item_prefix,
        affixes.item_suffix,
        affixes.key_prefix,
        affixes.key_suffix,
        affixes.value_prefix,
        affixes.value_suffix,
        key,
        value,
    ));
}

/// The iteration renders its pairs with the command's own options, each in its
/// own place.
proof fn lemma_iter_items(c: IterCommand, entries: Seq<(Seq<u8>, Seq<u8>)>)
    ensures
        rendered_all(c.kind, entries, c.affixes()) == iter_items(c, entries),
    decreases entries.len(),
{
    if entries.len() > 0 {
        lemma_iter_items(c, entries.drop_last());
        law_rendered_layout(c.kind, entries.last().0, entries.last().1, c.affixes());
    }
}

/// The window skips `offset` pairs and then holds the next ones, at most `limit`
/// of them where there is a limit: pair `i` of the window is pair `offset + i`.
pub proof fn law_window_positions(entries: Seq<(Seq<u8>, Seq<u8>)>, offset: nat, limit: Option<usize>)
    ensures
        ({
            let w = window(entries, offset, limit);
            let rest: nat = if offset <= entries.len() { (entries.len() - offset) as nat } else { 0 };
            &&& w.len() == match limit {
                Some(l) => if (l as nat) < rest { l as nat } else { rest },
                None => rest,
            }
            &&& forall|i: int| 0 <= i < w.len() ==> #[trigger] w[i] == entries[offset + i]
        }),
{
}

/// What a successful iteration writes: for each pair of the window, in order, the
/// item laid out with the command's `--item-prefix`, `--item-suffix`,
/// `--key-prefix`, `--key-suffix`, `--value-prefix` and `--value-suffix`, each
/// in its own place.
pub proof fn law_iter_output(
    c: IterCommand,
    before: Store,
    after: Store,
    name: Seq<char>,
    out_before: Seq<u8>,
    out_after: Seq<u8>,
)
    requires
        c.outcome(before, after, name, out_before, out_after, Ok(())),
    ensures
        out_after == out_before + iter_items(c, c.window_of(before, name)),
{
    lemma_iter_items(c, c.window_of(before, name));
}

/// What a successful get in a keyspace prints: the stored value, with the length
/// prefix of the chosen kind before it and the suffix after it.
pub proof fn law_get_output(
    c: GetCommand,
    before: Store,
    after: Store,
    name: Seq<char>,
    key_file: Option<PathRead>,
    out: CommandOutput,
)
    requires
        c.outcome(before, after, name, key_file, Ok(out)),
    ensures
        ({
            let key = c.key_encoding.decoded(c.key@, key_file).unwrap();
            let value = items_of(before, name)[key];
            out.stdout@ == framed(c.value_prefix, value, c.value_suffix)
        }),
{
    let key = c.key_encoding.decoded(c.key@, key_file).unwrap();
    let value = items_of(before, name)[key];
    if let Some(p) = c.value_prefix {
        law_prefix_kind_bytes(p, value);
    }
}

/// What a successful top-level get prints: the stored value, then a newline unless
/// it was turned off.
pub proof fn law_print_output(
    c: PrintCommand,
    before: Store,
    after: Store,
    key_file: Option<PathRead>,
    out: CommandOutput,
)
    requires
        c.outcome(before, after, key_file, Ok(out)),
    ensures
        ({
            let key = c.key_encoding.decoded(c.key@, key_file).unwrap();
            let value = items_of(before, c.keyspace@)[key];
            &&& out.stdout@.take(value.len() as int) == value
            &&& if c.no_newline {
                out.stdout@.len() == value.len()
            } else {
                out.stdout@.len() == value.len() + 1 && out.stdout@.last() == 0x0au8
            }
        }),
{
    let key = c.key_encoding.decoded(c.key@, key_file).unwrap();
    let value = items_of(before, c.keyspace@)[key];
    assert(out.stdout@.take(value.len() as int) =~= value);
}

/// No names give no lines.
pub proof fn law_name_lines_empty()
    ensures
        name_lines(Seq::empty()) == Seq::<u8>::empty(),
{
}

/// One name gives its UTF-8 bytes and a newline.
pub proof fn law_name_lines_single(n: Seq<char>)
    ensures
        name_lines(seq![n]) == vstd::utf8::encode_utf8(n) + seq![0x0au8],
{
    assert(seq![n].drop_last() =~= Seq::<Seq<char>>::empty());
    assert(seq![n].last() == n);
    assert(name_lines(seq![n]) == name_lines(Seq::<Seq<char>>::empty()) + vstd::utf8::encode_utf8(n)
        + seq![0x0au8]);
    assert(Seq::<u8>::empty() + vstd::utf8::encode_utf8(n) + seq![0x0au8] =~= vstd::utf8::encode_utf8(n)
        + seq![0x0au8]);
}

/// The lines of two runs of names are the lines of the first run followed by those
/// of the second: each name stands on a line of its own.
pub proof fn law_name_lines_concat(a: Seq<Seq<char>>, b: Seq<Seq<char>>)
    ensures
        name_lines(a + b) == name_lines(a) + name_lines(b),
    decreases b.len(),
{
    if b.len() == 0 {
        assert(a + b =~= a);
        assert(name_lines(a) + Seq::<u8>::empty() =~= name_lines(a));
    } else {
        law_name_lines_concat(a, b.drop_last());
        assert((a + b).drop_last() =~= a + b.drop_last());
        assert((a + b).last() == b.last());
        let e = vstd::utf8::encode_utf8(b.last());
        let n = seq![0x0au8];
        let x = name_lines(a);
        let y = name_lines(b.drop_last());
        assert(name_lines(a + b) == name_lines(a + b.drop_last()) + e + n);
        assert(name_lines(b) == y + e + n);
        assert(x + y + e + n =~= x + (y + e + n));
    }
}

/// The number that a string of ASCII decimal digits spells, most significant first.
pub open spec fn digits_value(s: Seq<u8>) -> nat
    decreases s.len(),
{
    if s.len() == 0 {
        0
    } else {
        digits_value(s.drop_last()) * 10 + (s.last() - 0x30) as nat
    }
}

/// `b` is an ASCII decimal digit.
pub open spec fn is_digit(b: u8) -> bool {
    0x30 <= b <= 0x39
}

proof fn lemma_decimal_digits(n: nat)
    ensures
        decimal(n).len() > 0,
        forall|i: int| 0 <= i < decimal(n).len() ==> is_digit(#[trigger] decimal(n)[i]),
        digits_value(decimal(n)) == n,
        decimal(n).len() > 1 ==> decimal(n)[0] != 0x30,
    decreases n,
{
    if n < 10 {
        assert(decimal(n).drop_last() =~= Seq::<u8>::empty());
        assert(digits_value(decimal(n)) == digits_value(Seq::<u8>::empty()) * 10 + (decimal(n).last()
            - 0x30) as nat);
    } else {
        lemma_decimal_digits(n / 10);
        let d = decimal(n);
        let h = decimal(n / 10);
        assert(d == h + seq![(0x30 + n % 10) as u8]);
        assert(d.drop_last() =~= h);
        assert(d.last() == (0x30 + n % 10) as u8);
        assert(digits_value(d) == digits_value(h) * 10 + (d.last() - 0x30) as nat);
        assert((n / 10) * 10 + n % 10 == n);
        assert forall|i: int| 0 <= i < d.len() implies is_digit(#[trigger] d[i]) by {
            if i < h.len() {
                assert(d[i] == h[i]);
            }
        }
        assert(d[0] == h[0]);
        if h.len() == 1 {
            assert(h[0] != 0x30) by {
                if h[0] == 0x30 {
                    assert(digits_value(h.drop_last()) == 0);
                }
            }
        }
    }
}

/// A number is printed as its decimal digits, most significant first and with no
/// leading zero (zero is the one digit `0`), then a newline; the digits read back
/// as the number.
pub proof fn law_decimal_line(n: nat)
    ensures
        decimal_line(n).len() >= 2,
        decimal_line(n).last() == 0x0au8,
        forall|i: int| 0 <= i < decimal_line(n).len() - 1 ==> is_digit(#[trigger] decimal_line(n)[i]),
        digits_value(decimal_line(n).drop_last()) == n,
        decimal_line(n).len() > 2 ==> decimal_line(n)[0] != 0x30,
{
    lemma_decimal_digits(n);
    let d = decimal(n);
    assert(decimal_line(n).drop_last() =~= d);
    assert forall|i: int| 0 <= i < decimal_line(n).len() - 1 implies is_digit(
        #[trigger] decimal_line(n)[i],
    ) by {
        assert(decimal_line(n)[i] == d[i]);
    }
}

/// A successful contains exits with 0 when the keyspace holds the key and with 127
/// when it does not, and prints nothing.
pub proof fn law_contains_exit_code(
    c: ContainsCommand,
    before: Store,
    after: Store,
    name: Seq<char>,
    key_file: Option<PathRead>,
    out: CommandOutput,
)
    requires
        c.outcome(before, after, name, key_file, Ok(out)),
    ensures
        ({
            let key = c.key_encoding.decoded(c.key@, key_file).unwrap();
            &&& items_of(before, name).contains_key(key) ==> out.exit_code == 0
            &&& !items_of(before, name).contains_key(key) ==> out.exit_code == 127
            &&& out.stdout@.len() == 0
        }),
{
}

/// One pair of a listing: the key, the value, or the key, the key-value separator
/// and the value; then the item separator.
pub open spec fn list_item(
    kind: OutputKind,
    key: Seq<u8>,
    value: Seq<u8>,
    key_value_separator: Seq<u8>,
    item_separator: Seq<u8>,
) -> Seq<u8> {
    match kind {
        OutputKind::Key => key + item_separator,
        OutputKind::Value => value + item_separator,
        OutputKind::KeyValue => key + key_value_separator + value + item_separator,
    }
}

/// The listing of `entries`, one pair after another.
pub open spec fn list_items(
    kind: OutputKind,
    entries: Seq<(Seq<u8>, Seq<u8>)>,
    key_value_separator: Seq<u8>,
    item_separator: Seq<u8>,
) -> Seq<u8>
    decreases entries.len(),
{
    if entries.len() == 0 {
        Seq::empty()
    } else {
        list_items(kind, entries.drop_last(), key_value_separator, item_separator) + list_item(
            kind,
            entries.last().0,
            entries.last().1,
            key_value_separator,
            item_separator,
        )
    }
}

proof fn lemma_list_items(
    kind: OutputKind,
    entries: Seq<(Seq<u8>, Seq<u8>)>,
    key_value_separator: Seq<u8>,
    item_separator: Seq<u8>,
)
    ensures
        listed_all(kind, entries, key_value_separator, item_separator) == list_items(
            kind,
            entries,
            key_value_separator,
            item_separator,
        ),
    decreases entries.len(),
{
    if entries.len() > 0 {
        lemma_list_items(kind, entries.drop_last(), key_value_separator, item_separator);
        let (k, v) = entries.last();
        assert(kind.listed(k, v, key_value_separator, item_separator) =~= list_item(
            kind,
            k,
            v,
            key_value_separator,
            item_separator,
        ));
    }
}

/// What a successful listing writes: every pair of the keyspace in key order, each
/// shown as its kind asks and followed by the item separator.
pub proof fn law_list_output(
    c: ListCommand,
    before: Store,
    after: Store,
    out_before: Seq<u8>,
    out_after: Seq<u8>,
)
    requires
        c.outcome(before, after, out_before, out_after, Ok(())),
    ensures
        out_after == out_before + list_items(
            c.kind,
            ordered_entries(items_of(before, c.keyspace@)),
            c.key_value_separator@,
            c.item_separator@,
        ),
{
    lemma_list_items(
        c.kind,
        ordered_entries(items_of(before, c.keyspace@)),
        c.key_value_separator@,
        c.item_separator@,
    );
}

} // verus!
