use crate::types::prefix_kind::PrefixKind;
use crate::types::suffix::Suffix;
use vstd::prelude::*;

verus! {

/// What is written around each output item, its key and its value.
#[derive(Clone, Debug)]
pub struct OutputAffixes {
    pub item_prefix: Option<PrefixKind>,
    pub item_suffix: Option<Suffix>,
    pub key_prefix: Option<PrefixKind>,
    pub key_suffix: Option<Suffix>,
    pub value_prefix: Option<PrefixKind>,
    pub value_suffix: Option<Suffix>,
}

/// The length prefix for `data`, if there is a prefix kind.
pub open spec fn prefix_bytes(prefix: Option<PrefixKind>, data: Seq<u8>) -> Seq<u8> {
    match prefix {
        Some(kind) => kind.encode_len(data.len()),
        None => Seq::empty(),
    }
}

/// The bytes of a suffix, if there is one.
pub open spec fn suffix_bytes(suffix: Option<Suffix>) -> Seq<u8> {
    match suffix {
        Some(s) => s.spec_bytes(),
        None => Seq::empty(),
    }
}

} // verus!
