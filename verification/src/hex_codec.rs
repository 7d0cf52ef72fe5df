//! Hexadecimal digits, and the calls into the `hex` crate that decode them.
use vstd::prelude::*;

verus! {

/// Why a text of hexadecimal digits could not be decoded: the variants of the `hex`
/// crate's error, with the same fields.
#[derive(Clone, Copy, Debug, PartialEq, Eq, Structural)]
pub enum HexError {
    /// A byte that is no hexadecimal digit, read as a Latin-1 char, and its index.
    InvalidHexCharacter { c: char, index: usize },
    /// The text has an odd number of bytes.
    OddLength,
    /// The text does not fit the output it was decoded into.
    InvalidStringLength,
}

/// `0-9`, `a-f` or `A-F` in ASCII.
pub open spec fn is_hex_digit(b: u8) -> bool {
    (0x30 <= b <= 0x39) || (0x61 <= b <= 0x66) || (0x41 <= b <= 0x46)
}

/// `0-9`, `a-f` or `A-F`.
pub open spec fn is_hex_char(c: char) -> bool {
    let v = c as u32;
    (0x30 <= v <= 0x39) || (0x61 <= v <= 0x66) || (0x41 <= v <= 0x46)
}

/// The value of a hexadecimal digit.
pub open spec fn hex_digit_value(b: u8) -> nat {
    if 0x30 <= b <= 0x39 {
        (b - 0x30) as nat
    } else if 0x61 <= b <= 0x66 {
        (b - 0x61 + 10) as nat
    } else {
        (b - 0x41 + 10) as nat
    }
}

/// The byte that two hexadecimal digits spell, high digit first.
pub open spec fn hex_pair_value(high: u8, low: u8) -> u8 {
    (hex_digit_value(high) * 16 + hex_digit_value(low)) as u8
}

/// The bytes that a string of hexadecimal digit pairs spells, or `None` when its
/// length is odd or it holds a byte that is no hexadecimal digit.
pub open spec fn hex_decoded(s: Seq<u8>) -> Option<Seq<u8>>
    decreases s.len(),
{
    if s.len() == 0 {
        Some(Seq::empty())
    } else if s.len() == 1 {
        None
    } else if !(is_hex_digit(s[0]) && is_hex_digit(s[1])) {
        None
    } else {
        match hex_decoded(s.subrange(2, s.len() as int)) {
            Some(rest) => Some(seq![hex_pair_value(s[0], s[1])] + rest),
            None => None,
        }
    }
}

/// The index of the first byte of `s` that is no hexadecimal digit, or `s.len()`
/// when there is none.
pub open spec fn first_non_hex(s: Seq<u8>) -> nat
    decreases s.len(),
{
    if s.len() == 0 {
        0
    } else if !is_hex_digit(s[0]) {
        0
    } else {
        1 + first_non_hex(s.subrange(1, s.len() as int))
    }
}

/// Why `s` does not decode: an odd length, else its first byte that is no
/// hexadecimal digit.
pub open spec fn hex_failure(s: Seq<u8>) -> HexError {
    if s.len() % 2 == 1 {
        HexError::OddLength
    } else {
        let i = first_non_hex(s);
        HexError::InvalidHexCharacter { c: s[i as int] as char, index: i as usize }
    }
}

/// Calls `hex::decode_to_slice` on the two digits `high` and `low` with a one-byte
/// output. The crate's source decodes each digit case-insensitively and fails on any
/// other byte, reporting the first such byte and its index; the contract claims that
/// it succeeds exactly when both are hexadecimal digits and then yields their value,
/// and that an error names the first digit that is not one.
#[verifier::external_body]
pub(crate) fn decode_hex_pair(high: u8, low: u8) -> (r: Result<u8, HexError>)
    ensures
        match r {
            Ok(b) => is_hex_digit(high) && is_hex_digit(low) && b == hex_pair_value(high, low),
            Err(e) => !(is_hex_digit(high) && is_hex_digit(low)) && e == hex_failure(seq![high, low]),
        },
{
    let mut decoded = [0u8; 1];
    match hex::decode_to_slice([high, low], &mut decoded) {
        Ok(()) => Ok(decoded[0]),
        Err(hex::FromHexError::InvalidHexCharacter { c, index }) => Err(HexError::InvalidHexCharacter { c, index }),
        Err(hex::FromHexError::OddLength) => Err(HexError::OddLength),
        Err(hex::FromHexError::InvalidStringLength) => Err(HexError::InvalidStringLength),
    }
}

/// Calls `hex::decode` on `data`. The crate's source rejects an odd length, then
/// decodes the pairs of digits in order, case-insensitively, and fails at the first
/// other byte; the contract claims exactly `hex_decoded`, and for an error the one
/// that `hex_failure` names.
#[verifier::external_body]
pub(crate) fn decode_hex_bytes(data: &[u8]) -> (r: Result<Vec<u8>, HexError>)
    ensures
        match r {
            Ok(v) => hex_decoded(data@) == Some(v@),
            Err(e) => hex_decoded(data@) is None && e == hex_failure(data@),
        },
{
    match hex::decode(data) {
        Ok(bytes) => Ok(bytes),
        Err(hex::FromHexError::InvalidHexCharacter { c, index }) => Err(HexError::InvalidHexCharacter { c, index }),
        Err(hex::FromHexError::OddLength) => Err(HexError::OddLength),
        Err(hex::FromHexError::InvalidStringLength) => Err(HexError::InvalidStringLength),
    }
}

} // verus!
