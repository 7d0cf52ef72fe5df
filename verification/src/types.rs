pub mod prefix_kind;
pub use prefix_kind::PrefixKind;

pub mod suffix;
pub use suffix::Suffix;

pub mod output_affixes;
pub use output_affixes::OutputAffixes;

pub mod output_kind;
pub use output_kind::{OutputKind, OutputKindWriteError};

pub mod separator;
pub use separator::{Separator, SeparatorParseError};

pub mod byte_encoding;
pub use byte_encoding::{ByteEncoding, ByteEncodingDecodeError, PathRead};
