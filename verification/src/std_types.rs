//! Parts of std that the library carries or calls and that vstd does not describe.
use vstd::prelude::*;

verus! {

/// An I/O error from std, carried through unchanged.
#[verifier::external_type_specification]
#[verifier::external_body]
pub struct ExIoError(std::io::Error);

/// Calls `char::to_string` (through `ToString`), which std documents as the
/// one-character string of `c`.
#[verifier::external_body]
pub(crate) fn char_to_string(c: char) -> (s: String)
    ensures
        s@ == seq![c],
{
    c.to_string()
}

} // verus!
