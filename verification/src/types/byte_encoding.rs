use crate::bytes::write_bytes;
use crate::hex_codec::{decode_hex_bytes, hex_decoded, hex_failure, HexError};
use vstd::prelude::*;
use vstd::string::StringSliceAdditionalSpecFns;

verus! {

/// How a command-line argument stands for bytes.
#[derive(Clone, Copy, Debug, PartialEq, Eq, Structural)]
pub enum ByteEncoding {
    /// No bytes; the argument must be exactly `-`.
    Empty,
    /// The argument's own UTF-8 bytes.
    String,
    /// Pairs of hexadecimal digits.
    Hex,
    /// The contents of the file that the argument names.
    Path,
}

impl Default for ByteEncoding {
    fn default() -> (encoding: Self)
        ensures
            encoding == ByteEncoding::String,
    {
        ByteEncoding::String
    }
}

/// What looking up and reading the file named by a path argument gave.
#[derive(Debug)]
pub enum PathRead {
    /// Its metadata could not be read.
    MetadataFailed(std::io::Error),
    /// It is a directory.
    Directory,
    /// It is no directory, but reading it failed.
    ReadFailed(std::io::Error),
    /// It was read whole.
    Contents(Vec<u8>),
}

/// Why an argument could not be decoded into bytes.
#[derive(Debug)]
pub enum ByteEncodingDecodeError {
    EmptyEncodingInvalid { input: String },
    HexDecodeFailed { source: HexError, input: String },
    MetadataFailed { source: std::io::Error, path: String },
    PathIsDirectory { path: String },
    ReadFailed { source: std::io::Error, path: String },
}

/// The UTF-8 bytes of the one-character text `-`.
pub open spec fn dash_bytes() -> Seq<u8> {
    seq![0x2du8]
}

impl ByteEncoding {
    /// The name under which the encoding is chosen on the command line.
    pub fn name(&self) -> (name: &'static str)
        ensures
            name@ == match *self {
                ByteEncoding::Empty => "empty"@,
                ByteEncoding::String => "string"@,
                ByteEncoding::Hex => "hex"@,
                ByteEncoding::Path => "path"@,
            },
    {
        match self {
            ByteEncoding::Empty => "empty",
            ByteEncoding::String => "string",
            ByteEncoding::Hex => "hex",
            ByteEncoding::Path => "path",
        }
    }

    /// The bytes that `input` stands for, or `None` when it cannot be decoded.
    pub open spec fn decoded(self, input: Seq<char>, file: Option<PathRead>) -> Option<Seq<u8>> {
        let bytes = vstd::utf8::encode_utf8(input);
        match self {
            ByteEncoding::Empty => if bytes == dash_bytes() {
                Some(Seq::empty())
            } else {
                None
            },
            ByteEncoding::String => Some(bytes),
            ByteEncoding::Hex => hex_decoded(bytes),
            ByteEncoding::Path => match file {
                Some(PathRead::Contents(c)) => Some(c@),
                _ => None,
            },
        }
    }

    /// What `decode_hex` gives for `input`.
    pub open spec fn hex_outcome(input: &str, r: Result<Vec<u8>, ByteEncodingDecodeError>) -> bool {
        match hex_decoded(input.spec_bytes()) {
            Some(bytes) => r matches Ok(v) && v@ == bytes,
            None => r matches Err(ByteEncodingDecodeError::HexDecodeFailed { source, input: i })
                && source == hex_failure(input.spec_bytes()) && i@ == input@,
        }
    }

    /// What `decode_path` gives for `input` and what reading its file gave.
    pub open spec fn path_outcome(
        input: &str,
        file: PathRead,
        r: Result<Vec<u8>, ByteEncodingDecodeError>,
    ) -> bool {
        match file {
            PathRead::MetadataFailed(e) => r matches Err(
                ByteEncodingDecodeError::MetadataFailed { source, path },
            ) && source == e && path@ == input@,
            PathRead::Directory => r matches Err(ByteEncodingDecodeError::PathIsDirectory { path })
                && path@ == input@,
            PathRead::ReadFailed(e) => r matches Err(
                ByteEncodingDecodeError::ReadFailed { source, path },
            ) && source == e && path@ == input@,
            PathRead::Contents(c) => r matches Ok(v) && v@ == c@,
        }
    }

    /// Decodes `input` into bytes. For the path encoding, `file` is what looking up
    /// and reading the file named by `input` gave; the other encodings ignore it.
    pub fn decode(&self, input: &str, file: Option<PathRead>) -> (r: Result<
        Vec<u8>,
        ByteEncodingDecodeError,
    >)
        requires
            *self == ByteEncoding::Path ==> file is Some,
        ensures
            match *self {
                ByteEncoding::Empty => if input.spec_bytes() == dash_bytes() {
                    r matches Ok(v) && v@ == Seq::<u8>::empty()
                } else {
                    r matches Err(ByteEncodingDecodeError::EmptyEncodingInvalid { input: i })
                        && i@ == input@
                },
                ByteEncoding::String => r matches Ok(v) && v@ == input.spec_bytes(),
                ByteEncoding::Hex => Self::hex_outcome(input, r),
                ByteEncoding::Path => Self::path_outcome(input, file.unwrap(), r),
            },
            match r {
                Ok(v) => self.decoded(input@, file) == Some(v@),
                Err(_) => self.decoded(input@, file) is None,
            },
    {
        match self {
            ByteEncoding::Empty => {
                let bytes = input.as_bytes();
                if bytes.len() == 1 && bytes[0] == 0x2d {
                    proof {
                        assert(bytes@ =~= dash_bytes());
                    }
                    Ok(Vec::new())
                } else {
                    Err(ByteEncodingDecodeError::EmptyEncodingInvalid { input: input.to_owned() })
                }
            },
            ByteEncoding::String => {
                let mut v: Vec<u8> = Vec::new();
                write_bytes(&mut v, input.as_bytes());
                Ok(v)
            },
            ByteEncoding::Hex => Self::decode_hex(input),
            ByteEncoding::Path => match file {
                Some(f) => Self::decode_path(input, f),
                None => Ok(Vec::new()),
            },
        }
    }

    /// Decodes pairs of hexadecimal digits (either case) into bytes.
    pub fn decode_hex(input: &str) -> (r: Result<Vec<u8>, ByteEncodingDecodeError>)
        ensures
            Self::hex_outcome(input, r),
    {
        match decode_hex_bytes(input.as_bytes()) {
            Ok(bytes) => Ok(bytes),
            Err(source) => Err(
                ByteEncodingDecodeError::HexDecodeFailed { source, input: input.to_owned() },
            ),
        }
    }

    /// The bytes of the file named by `input`, given what looking it up and reading
    /// it gave: a directory, or a failed lookup or read, is an error.
    pub fn decode_path(input: &str, file: PathRead) -> (r: Result<Vec<u8>, ByteEncodingDecodeError>)
        ensures
            Self::path_outcome(input, file, r),
    {
        match file {
            PathRead::MetadataFailed(source) => Err(
                ByteEncodingDecodeError::MetadataFailed { source, path: input.to_owned() },
            ),
            PathRead::Directory => Err(
                ByteEncodingDecodeError::PathIsDirectory { path: input.to_owned() },
            ),
            PathRead::ReadFailed(source) => Err(
                ByteEncodingDecodeError::ReadFailed { source, path: input.to_owned() },
            ),
            PathRead::Contents(bytes) => Ok(bytes),
        }
    }
}

} // verus!
