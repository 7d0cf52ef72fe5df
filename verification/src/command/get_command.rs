use crate::bytes::write_bytes;
use crate::command::{opened, CommandOutput, Store};
use crate::storage::{
    database_keyspaces, items_of, keyspace_get, open_keyspace, readable_key, same_database,
    valid_keyspace_name,
};
use crate::types::byte_encoding::{ByteEncoding, ByteEncodingDecodeError, PathRead};
use vstd::prelude::*;

verus! {

/// Prints the value that a keyspace holds for a key, followed by a newline unless
/// `no_newline` is set. The keyspace is created if it was not there.
#[derive(Debug)]
pub struct GetCommand {
    pub keyspace: String,
    pub key: String,
    pub key_encoding: ByteEncoding,
    pub no_newline: bool,
}

#[derive(Debug)]
#[allow(inconsistent_fields)]
pub enum GetCommandRunError {
    DecodeKeyBytesFailed {
        source: GetCommandDecodeKeyBytesError,
        key: String,
        key_encoding: ByteEncoding,
    },
    KeyspaceFailed { source: fjall::Error, keyspace: String },
    GetFailed { source: fjall::Error, keyspace: String, key: String },
    KeyNotFound { keyspace: String, key: String },
    WriteAllFailed { source: std::io::Error },
}

#[derive(Debug)]
pub enum GetCommandDecodeKeyBytesError {
    DecodeFailed { source: ByteEncodingDecodeError },
}

impl GetCommand {
    /// The bytes printed for `value`.
    pub open spec fn rendered(self, value: Seq<u8>) -> Seq<u8> {
        if self.no_newline {
            value
        } else {
            value + seq![0x0au8]
        }
    }

    /// What looking the key up in a database holding `before` may give, leaving it
    /// holding `after`.
    pub open spec fn outcome(
        self,
        before: Store,
        after: Store,
        key_file: Option<PathRead>,
        r: Result<CommandOutput, GetCommandRunError>,
    ) -> bool {
        let name = self.keyspace@;
        let key = self.key_encoding.decoded(self.key@, key_file);
        match r {
            Ok(out) => {
                &&& key is Some
                &&& opened(before, after, name)
                &&& items_of(before, name).contains_key(key.unwrap())
                &&& out.stdout@ == self.rendered(items_of(before, name)[key.unwrap()])
                &&& out.exit_code == 0
            },
            Err(GetCommandRunError::DecodeKeyBytesFailed { key: k, key_encoding, .. }) => {
                &&& key is None
                &&& after == before
                &&& k@ == self.key@
                &&& key_encoding == self.key_encoding
            },
            Err(GetCommandRunError::KeyspaceFailed { keyspace, .. }) => {
                &&& key is Some
                &&& !before.contains_key(name)
                &&& after == before
                &&& keyspace@ == name
            },
            Err(GetCommandRunError::GetFailed { keyspace, key: k, .. }) => {
                &&& key is Some
                &&& opened(before, after, name)
                &&& keyspace@ == name
                &&& k@ == self.key@
            },
            Err(GetCommandRunError::KeyNotFound { keyspace, key: k }) => {
                &&& key is Some
                &&& opened(before, after, name)
                &&& !items_of(before, name).contains_key(key.unwrap())
                &&& keyspace@ == name
                &&& k@ == self.key@
            },
            Err(GetCommandRunError::WriteAllFailed { .. }) => false,
        }
    }

    /// What fjall needs of the inputs that reach it once the key decodes: a keyspace
    /// name it accepts and a key of at most 65535 bytes (it panics otherwise), and the
    /// file of a path-encoded key.
    pub open spec fn accepts(self, key_file: Option<PathRead>) -> bool {
        &&& self.key_encoding == ByteEncoding::Path ==> key_file is Some
        &&& self.key_encoding.decoded(self.key@, key_file) matches Some(k) ==> valid_keyspace_name(
            self.keyspace@,
        ) && readable_key(k)
    }

    /// Looks the key up.
    pub fn run(self, db: &mut fjall::Database, key_file: Option<PathRead>) -> (r: Result<
        CommandOutput,
        GetCommandRunError,
    >)
        requires
            self.accepts(key_file),
        ensures
            same_database(*old(db), *final(db)),
            self.outcome(database_keyspaces(*old(db)), database_keyspaces(*final(db)), key_file, r),
    {
        let ghost this = self;
        let GetCommand { keyspace, key, key_encoding, no_newline } = self;
        let key_bytes = match Self::decode_key_bytes(&key, key_encoding, key_file) {
            Ok(bytes) => bytes,
            Err(source) => {
                return Err(GetCommandRunError::DecodeKeyBytesFailed { source, key, key_encoding });
            },
        };
        let ks = match open_keyspace(db, keyspace.as_str()) {
            Ok(ks) => ks,
            Err(source) => {
                return Err(GetCommandRunError::KeyspaceFailed { source, keyspace });
            },
        };
        proof {
            crate::command::lemma_opened(database_keyspaces(*old(db)), database_keyspaces(*db), keyspace@);
        }
        let value = match keyspace_get(db, &ks, key_bytes.as_slice()) {
            Ok(Some(value)) => value,
            Ok(None) => {
                return Err(GetCommandRunError::KeyNotFound { keyspace, key });
            },
            Err(source) => {
                return Err(GetCommandRunError::GetFailed { source, keyspace, key });
            },
        };
        let mut stdout: Vec<u8> = Vec::new();
        write_bytes(&mut stdout, value.as_slice());
        if !no_newline {
            stdout.push(0x0a);
        }
        proof {
            assert(stdout@ =~= this.rendered(value@));
        }
        Ok(CommandOutput { stdout, exit_code: 0 })
    }

    /// Decodes the key argument.
    pub fn decode_key_bytes(key: &String, key_encoding: ByteEncoding, key_file: Option<PathRead>) -> (r: Result<
        Vec<u8>,
        GetCommandDecodeKeyBytesError,
    >)
        requires
            key_encoding == ByteEncoding::Path ==> key_file is Some,
        ensures
            match r {
                Ok(v) => key_encoding.decoded(key@, key_file) == Some(v@),
                Err(_) => key_encoding.decoded(key@, key_file) is None,
            },
    {
        match key_encoding.decode(key.as_str(), key_file) {
            Ok(bytes) => Ok(bytes),
            Err(source) => Err(GetCommandDecodeKeyBytesError::DecodeFailed { source }),
        }
    }
}

} // verus!
