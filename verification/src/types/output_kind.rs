use crate::bytes::write_bytes;
use crate::types::output_affixes::{prefix_bytes, suffix_bytes, OutputAffixes};
use crate::types::prefix_kind::PrefixKind;
use crate::types::suffix::Suffix;
use vstd::prelude::*;
use vstd::seq_lib::lemma_concat_associative;

verus! {

/// Which part of each key-value pair is written.
#[derive(Clone, Copy, Debug, PartialEq, Eq, Structural)]
pub enum OutputKind {
    Key,
    Value,
    KeyValue,
}

/// Writing rendered output failed.
#[derive(Debug)]
pub enum OutputKindWriteError {
    WriteAllFailed { source: std::io::Error },
}

impl Default for OutputKind {
    fn default() -> (kind: Self)
        ensures
            kind == OutputKind::KeyValue,
    {
        OutputKind::KeyValue
    }
}

impl OutputKind {
    /// The bytes written for one key-value pair.
    pub open spec fn rendered(self, key: Seq<u8>, value: Seq<u8>, affixes: OutputAffixes) -> Seq<u8> {
        match self {
            OutputKind::Key => prefix_bytes(affixes.item_prefix, key) + field_bytes(
                affixes.key_prefix,
                key,
                affixes.key_suffix,
            ) + suffix_bytes(affixes.item_suffix),
            OutputKind::Value => prefix_bytes(affixes.item_prefix, value) + field_bytes(
                affixes.value_prefix,
                value,
                affixes.value_suffix,
            ) + suffix_bytes(affixes.item_suffix),
            OutputKind::KeyValue => prefix_bytes(affixes.item_prefix, key) + field_bytes(
                affixes.key_prefix,
                key,
                affixes.key_suffix,
            ) + field_bytes(affixes.value_prefix, value, affixes.value_suffix) + suffix_bytes(
                affixes.item_suffix,
            ),
        }
    }

    /// The bytes of one pair in a listing: the key, the value, or both around the
    /// key-value separator; then the item separator.
    pub open spec fn listed(
        self,
        key: Seq<u8>,
        value: Seq<u8>,
        key_value_separator: Seq<u8>,
        item_separator: Seq<u8>,
    ) -> Seq<u8> {
        let shown = match self {
            OutputKind::Key => key,
            OutputKind::Value => value,
            OutputKind::KeyValue => key + key_value_separator + value,
        };
        shown + item_separator
    }

    /// Appends the listing of one pair to `writer`.
    pub fn write_listed(
        &self,
        writer: &mut Vec<u8>,
        key: &[u8],
        value: &[u8],
        key_value_separator: &[u8],
        item_separator: &[u8],
    )
        ensures
            final(writer)@ == old(writer)@ + self.listed(
                key@,
                value@,
                key_value_separator@,
                item_separator@,
            ),
    {
        match self {
            OutputKind::Key => {
                write_bytes(writer, key);
            },
            OutputKind::Value => {
                write_bytes(writer, value);
            },
            OutputKind::KeyValue => {
                write_bytes(writer, key);
                write_bytes(writer, key_value_separator);
                write_bytes(writer, value);
            },
        }
        write_bytes(writer, item_separator);
        proof {
            assert(final(writer)@ =~= old(writer)@ + self.listed(
                key@,
                value@,
                key_value_separator@,
                item_separator@,
            ));
        }
    }

    /// Appends the rendering of one key-value pair to `writer`.
    pub fn write(&self, writer: &mut Vec<u8>, key: &[u8], value: &[u8], affixes: &OutputAffixes)
        ensures
            final(writer)@ == old(writer)@ + self.rendered(key@, value@, *affixes),
    {
        let ghost start = writer@;
        let ghost k = key@;
        let ghost v = value@;
        let ghost a = *affixes;
        match self {
            OutputKind::Key => {
                write_prefix(writer, &affixes.item_prefix, key);
                write_field(writer, &affixes.key_prefix, key, &affixes.key_suffix);
                write_suffix(writer, &affixes.item_suffix);
                proof {
                    let p = prefix_bytes(a.item_prefix, k);
                    let f = field_bytes(a.key_prefix, k, a.key_suffix);
                    let t = suffix_bytes(a.item_suffix);
                    lemma_concat_associative(start, p, f);
                    lemma_concat_associative(start, p + f, t);
                }
            },
            OutputKind::Value => {
                write_prefix(writer, &affixes.item_prefix, value);
                write_field(writer, &affixes.value_prefix, value, &affixes.value_suffix);
                write_suffix(writer, &affixes.item_suffix);
                proof {
                    let p = prefix_bytes(a.item_prefix, v);
                    let f = field_bytes(a.value_prefix, v, a.value_suffix);
                    let t = suffix_bytes(a.item_suffix);
                    lemma_concat_associative(start, p, f);
                    lemma_concat_associative(start, p + f, t);
                }
            },
            OutputKind::KeyValue => {
                write_prefix(writer, &affixes.item_prefix, key);
                write_field(writer, &affixes.key_prefix, key, &affixes.key_suffix);
                write_field(writer, &affixes.value_prefix, value, &affixes.value_suffix);
                write_suffix(writer, &affixes.item_suffix);
                proof {
                    let p = prefix_bytes(a.item_prefix, k);
                    let f = field_bytes(a.key_prefix, k, a.key_suffix);
                    let g = field_bytes(a.value_prefix, v, a.value_suffix);
                    let t = suffix_bytes(a.item_suffix);
                    lemma_concat_associative(start, p, f);
                    lemma_concat_associative(start, p + f, g);
                    lemma_concat_associative(start, p + f + g, t);
                }
            },
        }
    }
}

/// A field: its length prefix if there is one, the field itself, its suffix if
/// there is one.
pub open spec fn field_bytes(prefix: Option<PrefixKind>, data: Seq<u8>, suffix: Option<Suffix>) -> Seq<u8> {
    prefix_bytes(prefix, data) + data + suffix_bytes(suffix)
}

/// Appends a field with its prefix and suffix.
pub fn write_field(writer: &mut Vec<u8>, prefix: &Option<PrefixKind>, data: &[u8], suffix: &Option<Suffix>)
    ensures
        final(writer)@ == old(writer)@ + field_bytes(*prefix, data@, *suffix),
{
    write_prefix(writer, prefix, data);
    write_bytes(writer, data);
    write_suffix(writer, suffix);
    proof {
        assert(final(writer)@ =~= old(writer)@ + field_bytes(*prefix, data@, *suffix));
    }
}

/// Appends the length prefix for `data`, if there is one.
pub fn write_prefix(writer: &mut Vec<u8>, prefix: &Option<PrefixKind>, data: &[u8])
    ensures
        final(writer)@ == old(writer)@ + prefix_bytes(*prefix, data@),
{
    match prefix {
        Some(kind) => {
            let bytes = kind.write(data);
            write_bytes(writer, bytes.as_slice());
        },
        None => {
            assert(old(writer)@ + Seq::<u8>::empty() =~= old(writer)@);
        },
    }
}

/// Appends the bytes of a suffix, if there is one.
pub fn write_suffix(writer: &mut Vec<u8>, suffix: &Option<Suffix>)
    ensures
        final(writer)@ == old(writer)@ + suffix_bytes(*suffix),
{
    match suffix {
        Some(s) => {
            write_bytes(writer, s.as_bytes());
        },
        None => {
            assert(old(writer)@ + Seq::<u8>::empty() =~= old(writer)@);
        },
    }
}

} // verus!
