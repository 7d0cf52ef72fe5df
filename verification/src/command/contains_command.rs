use crate::command::{opened, CommandOutput, Store};
use crate::storage::{
    database_keyspaces, items_of, keyspace_contains_key, open_keyspace, readable_key,
    same_database, valid_keyspace_name,
};
use crate::types::byte_encoding::{ByteEncoding, ByteEncodingDecodeError, PathRead};
use vstd::prelude::*;

verus! {

/// Tells by its exit code whether a keyspace holds a key: 0 when it does, 127
/// when it does not (1, for an error, is the program's).
#[derive(Debug)]
pub struct ContainsCommand {
    pub key: String,
    pub key_encoding: ByteEncoding,
}

/// The exit code that reports a key as present.
pub open spec fn key_found_code() -> u8 {
    0
}

/// The exit code that reports a key as absent.
pub open spec fn key_missing_code() -> u8 {
    127
}

#[derive(Debug)]
#[allow(inconsistent_fields)]
pub enum ContainsCommandRunError {
    DecodeKeyBytesFailed {
        source: ContainsCommandDecodeKeyBytesError,
        key: String,
        key_encoding: ByteEncoding,
    },
    KeyspaceFailed { source: fjall::Error, keyspace: String },
    ContainsKeyFailed { source: fjall::Error, keyspace: String },
}

#[derive(Debug)]
pub enum ContainsCommandDecodeKeyBytesError {
    DecodeFailed { source: ByteEncodingDecodeError },
}

impl ContainsCommand {
    /// What checking keyspace `name` of a database holding `before` for the key may
    /// give, leaving it holding `after` (the keyspace is created if it was not there).
    pub open spec fn outcome(
        self,
        before: Store,
        after: Store,
        name: Seq<char>,
        key_file: Option<PathRead>,
        r: Result<CommandOutput, ContainsCommandRunError>,
    ) -> bool {
        let key = self.key_encoding.decoded(self.key@, key_file);
        match r {
            Ok(out) => {
                &&& key is Some
                &&& opened(before, after, name)
                &&& out.stdout@ == Seq::<u8>::empty()
                &&& out.exit_code == if items_of(before, name).contains_key(key.unwrap()) {
                    key_found_code()
                } else {
                    key_missing_code()
                }
            },
            Err(ContainsCommandRunError::DecodeKeyBytesFailed { key: k, key_encoding, .. }) => {
                &&& key is None
                &&& after == before
                &&& k@ == self.key@
                &&& key_encoding == self.key_encoding
            },
            Err(ContainsCommandRunError::KeyspaceFailed { keyspace, .. }) => {
                &&& key is Some
                &&& !before.contains_key(name)
                &&& after == before
                &&& keyspace@ == name
            },
            Err(ContainsCommandRunError::ContainsKeyFailed { keyspace, .. }) => {
                &&& key is Some
                &&& opened(before, after, name)
                &&& keyspace@ == name
            },
        }
    }

    /// What fjall needs of the inputs that reach it once the key decodes: a keyspace
    /// name it accepts and a key of at most 65535 bytes (it panics otherwise), and the
    /// file of a path-encoded key.
    pub open spec fn accepts(self, name: Seq<char>, key_file: Option<PathRead>) -> bool {
        &&& self.key_encoding == ByteEncoding::Path ==> key_file is Some
        &&& self.key_encoding.decoded(self.key@, key_file) matches Some(k) ==> valid_keyspace_name(name)
            && readable_key(k)
    }

    /// Checks keyspace `keyspace` for the key.
    pub fn run(self, db: &mut fjall::Database, keyspace: &str, key_file: Option<PathRead>) -> (r: Result<
        CommandOutput,
        ContainsCommandRunError,
    >)
        requires
            self.accepts(keyspace@, key_file),
        ensures
            same_database(*old(db), *final(db)),
            self.outcome(
                database_keyspaces(*old(db)),
                database_keyspaces(*final(db)),
                keyspace@,
                key_file,
                r,
            ),
    {
        let ContainsCommand { key, key_encoding } = self;
        let key_bytes = match Self::decode_key_bytes(&key, key_encoding, key_file) {
            Ok(bytes) => bytes,
            Err(source) => {
                return Err(ContainsCommandRunError::DecodeKeyBytesFailed { source, key, key_encoding });
            },
        };
        let ks = match open_keyspace(db, keyspace) {
            Ok(ks) => ks,
            Err(source) => {
                return Err(ContainsCommandRunError::KeyspaceFailed { source, keyspace: keyspace.to_owned() });
            },
        };
        proof {
            crate::command::lemma_opened(database_keyspaces(*old(db)), database_keyspaces(*db), keyspace@);
        }
        match keyspace_contains_key(db, &ks, key_bytes.as_slice()) {
            Ok(exists) => {
                let exit_code: u8 = if exists {
                    0
                } else {
                    127
                };
                Ok(CommandOutput { stdout: Vec::new(), exit_code })
            },
            Err(source) => Err(
                ContainsCommandRunError::ContainsKeyFailed { source, keyspace: keyspace.to_owned() },
            ),
        }
    }

    /// Decodes the key argument.
    pub fn decode_key_bytes(key: &String, key_encoding: ByteEncoding, key_file: Option<PathRead>) -> (r: Result<
        Vec<u8>,
        ContainsCommandDecodeKeyBytesError,
    >)
        requires
            key_encoding == ByteEncoding::Path ==> key_file is Some,
        ensures
            match r {
                Ok(v) => key_encoding.decoded(key@, key_file) == Some(v@),
                Err(_) => key_encoding.decoded(key@, key_file) is None,
            },
    {
        match key_encoding.decode(key.as_str(), key_file) {
            Ok(bytes) => Ok(bytes),
            Err(source) => Err(ContainsCommandDecodeKeyBytesError::DecodeFailed { source }),
        }
    }
}

} // verus!
