use crate::hex_codec::{decode_hex_pair, hex_failure, hex_pair_value, is_hex_digit, HexError};
use crate::std_types::char_to_string;
use vstd::prelude::*;
use vstd::string::StringSliceAdditionalSpecFns;

verus! {

/// Why an escaped separator text could not be read.
#[derive(Clone, Copy, Debug, PartialEq, Eq, Structural)]
pub enum EscapeFailure {
    /// A backslash is the last byte.
    TrailingEscape,
    /// `\x` is followed by fewer than two bytes.
    IncompleteHexEscape,
    /// `\x` is followed by two bytes that are not both hexadecimal digits; the
    /// first that is not one, and its index among the two.
    InvalidHexEscape(HexError),
    /// A backslash is followed by a byte that starts no escape.
    InvalidEscape(u8),
}

/// Prepends `prefix` to a successful result.
pub open spec fn prepend_ok(prefix: Seq<u8>, r: Result<Seq<u8>, EscapeFailure>) -> Result<
    Seq<u8>,
    EscapeFailure,
> {
    match r {
        Ok(rest) => Ok(prefix + rest),
        Err(e) => Err(e),
    }
}

/// Reads the escapes `\n`, `\r`, `\t`, `\0` and `\xHH` in `s`; every other byte
/// stands for itself. Fails at the first malformed escape.
pub open spec fn unescape(s: Seq<u8>) -> Result<Seq<u8>, EscapeFailure>
    decreases s.len(),
{
    if s.len() == 0 {
        Ok(Seq::empty())
    } else if s[0] != 0x5c {
        prepend_ok(seq![s[0]], unescape(s.subrange(1, s.len() as int)))
    } else if s.len() == 1 {
        Err(EscapeFailure::TrailingEscape)
    } else {
        let e = s[1];
        if e == 0x6e {
            prepend_ok(seq![0x0au8], unescape(s.subrange(2, s.len() as int)))
        } else if e == 0x72 {
            prepend_ok(seq![0x0du8], unescape(s.subrange(2, s.len() as int)))
        } else if e == 0x74 {
            prepend_ok(seq![0x09u8], unescape(s.subrange(2, s.len() as int)))
        } else if e == 0x30 {
            prepend_ok(seq![0x00u8], unescape(s.subrange(2, s.len() as int)))
        } else if e == 0x78 {
            if s.len() < 4 {
                Err(EscapeFailure::IncompleteHexEscape)
            } else if !(is_hex_digit(s[2]) && is_hex_digit(s[3])) {
                Err(EscapeFailure::InvalidHexEscape(hex_failure(seq![s[2], s[3]])))
            } else {
                prepend_ok(
                    seq![hex_pair_value(s[2], s[3])],
                    unescape(s.subrange(4, s.len() as int)),
                )
            }
        } else {
            Err(EscapeFailure::InvalidEscape(e))
        }
    }
}

/// The bytes written between or after output items, read from an escaped text.
#[derive(Clone, Debug, PartialEq, Eq)]
pub struct Separator(Vec<u8>);

impl View for Separator {
    type V = Seq<u8>;

    closed spec fn view(&self) -> Seq<u8> {
        self.0@
    }
}

/// Why a separator text was refused; each variant holds the whole text.
#[derive(Debug)]
pub enum SeparatorParseError {
    TrailingEscape { input: String },
    IncompleteHexEscape { input: String },
    InvalidHexEscape { source: HexError, input: String },
    InvalidEscape { input: String, escape: String },
}

impl SeparatorParseError {
    /// The text that was refused.
    pub open spec fn input_text(self) -> Seq<char> {
        match self {
            SeparatorParseError::TrailingEscape { input } => input@,
            SeparatorParseError::IncompleteHexEscape { input } => input@,
            SeparatorParseError::InvalidHexEscape { input, .. } => input@,
            SeparatorParseError::InvalidEscape { input, .. } => input@,
        }
    }

    /// This error reports `failure`: the same kind, and for an invalid escape the
    /// offending byte, as a one-character string (the byte read as a Latin-1 char).
    pub open spec fn reports(self, failure: EscapeFailure) -> bool {
        match self {
            SeparatorParseError::TrailingEscape { .. } => failure == EscapeFailure::TrailingEscape,
            SeparatorParseError::IncompleteHexEscape { .. } => failure
                == EscapeFailure::IncompleteHexEscape,
            SeparatorParseError::InvalidHexEscape { source, .. } => failure
                == EscapeFailure::InvalidHexEscape(source),
            SeparatorParseError::InvalidEscape { escape, .. } => match failure {
                EscapeFailure::InvalidEscape(b) => escape@ == seq![b as char],
                _ => false,
            },
        }
    }
}

impl Separator {
    /// The separator's bytes.
    pub fn as_bytes(&self) -> (bytes: &[u8])
        ensures
            bytes@ == self@,
    {
        self.0.as_slice()
    }

    /// Reads a separator from its escaped text (see `unescape`).
    pub fn parse(input: &str) -> (r: Result<Self, SeparatorParseError>)
        ensures
            match r {
                Ok(sep) => unescape(input.spec_bytes()) == Ok::<Seq<u8>, EscapeFailure>(sep@),
                Err(e) => e.input_text() == input@ && match unescape(input.spec_bytes()) {
                    Ok(_) => false,
                    Err(f) => e.reports(f),
                },
            },
    {
        let input_owned: String = input.to_owned();
        let bytes: &[u8] = input.as_bytes();
        let ghost all: Seq<u8> = bytes@;
        let mut out: Vec<u8> = Vec::new();
        let mut index: usize = 0;
        proof {
            assert(all.subrange(0, all.len() as int) =~= all);
            match unescape(all) {
                Ok(t) => {
                    assert(Seq::<u8>::empty() + t =~= t);
                },
                Err(_) => {},
            }
        }
        while index < bytes.len()
            invariant
                bytes@ == all,
                all == input.spec_bytes(),
                input_owned@ == input@,
                index <= all.len(),
                unescape(all) == prepend_ok(out@, unescape(all.subrange(index as int, all.len() as int))),
            decreases all.len() - index,
        {
            let ghost rest: Seq<u8> = all.subrange(index as int, all.len() as int);
            let byte: u8 = bytes[index];
            if byte == 0x5c {
                if index + 1 >= bytes.len() {
                    return Err(SeparatorParseError::TrailingEscape { input: input_owned });
                }
                let escape: u8 = bytes[index + 1];
                let ghost after2: Seq<u8> = all.subrange(index + 2, all.len() as int);
                assert(rest.subrange(2, rest.len() as int) =~= after2);
                if escape == 0x6e {
                    self::push_unescaped(&mut out, 0x0a, Ghost(all), Ghost(rest), Ghost(after2));
                    index = index + 2;
                } else if escape == 0x72 {
                    self::push_unescaped(&mut out, 0x0d, Ghost(all), Ghost(rest), Ghost(after2));
                    index = index + 2;
                } else if escape == 0x74 {
                    self::push_unescaped(&mut out, 0x09, Ghost(all), Ghost(rest), Ghost(after2));
                    index = index + 2;
                } else if escape == 0x30 {
                    self::push_unescaped(&mut out, 0x00, Ghost(all), Ghost(rest), Ghost(after2));
                    index = index + 2;
                } else if escape == 0x78 {
                    if bytes.len() - index < 4 {
                        return Err(SeparatorParseError::IncompleteHexEscape { input: input_owned });
                    }
                    let high: u8 = bytes[index + 2];
                    let low: u8 = bytes[index + 3];
                    match decode_hex_pair(high, low) {
                        Ok(decoded) => {
                            let ghost after4: Seq<u8> = all.subrange(index + 4, all.len() as int);
                            assert(rest.subrange(4, rest.len() as int) =~= after4);
                            self::push_unescaped(&mut out, decoded, Ghost(all), Ghost(rest), Ghost(after4));
                            index = index + 4;
                        },
                        Err(source) => {
                            return Err(
                                SeparatorParseError::InvalidHexEscape { source, input: input_owned },
                            );
                        },
                    }
                } else {
                    let escape_text: String = char_to_string(escape as char);
                    return Err(
                        SeparatorParseError::InvalidEscape { input: input_owned, escape: escape_text },
                    );
                }
            } else {
                let ghost after1: Seq<u8> = all.subrange(index + 1, all.len() as int);
                assert(rest.subrange(1, rest.len() as int) =~= after1);
                self::push_unescaped(&mut out, byte, Ghost(all), Ghost(rest), Ghost(after1));
                index = index + 1;
            }
        }
        proof {
            assert(all.subrange(all.len() as int, all.len() as int) =~= Seq::<u8>::empty());
            assert(out@ + Seq::<u8>::empty() =~= out@);
        }
        Ok(Separator(out))
    }
}

impl core::str::FromStr for Separator {
    type Err = SeparatorParseError;

    fn from_str(s: &str) -> (r: Result<Self, Self::Err>)
        ensures
            match r {
                Ok(sep) => unescape(s.spec_bytes()) == Ok::<Seq<u8>, EscapeFailure>(sep@),
                Err(e) => e.input_text() == s@ && match unescape(s.spec_bytes()) {
                    Ok(_) => false,
                    Err(f) => e.reports(f),
                },
            },
    {
        Separator::parse(s)
    }
}

impl AsRef<[u8]> for Separator {
    fn as_ref(&self) -> (bytes: &[u8])
        ensures
            bytes@ == self@,
    {
        self.as_bytes()
    }
}

/// Appends one unescaped byte: the step in which `rest` unescapes to `byte` followed
/// by what `after` unescapes to.
fn push_unescaped(
    out: &mut Vec<u8>,
    byte: u8,
    Ghost(all): Ghost<Seq<u8>>,
    Ghost(rest): Ghost<Seq<u8>>,
    Ghost(after): Ghost<Seq<u8>>,
)
    requires
        unescape(all) == prepend_ok(old(out)@, unescape(rest)),
        unescape(rest) == prepend_ok(seq![byte], unescape(after)),
    ensures
        final(out)@ == old(out)@.push(byte),
        unescape(all) == prepend_ok(final(out)@, unescape(after)),
{
    out.push(byte);
    proof {
        match unescape(after) {
            Ok(t) => {
                assert(old(out)@ + (seq![byte] + t) =~= out@ + t);
            },
            Err(_) => {},
        }
    }
}

} // verus!
