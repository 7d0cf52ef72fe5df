use crate::command::{CommandOutput, Store};
use crate::storage::{
    database_keyspaces, items_of, keyspace_exists, keyspace_get, open_keyspace, readable_key,
    same_database,
};
use crate::types::byte_encoding::{ByteEncoding, ByteEncodingDecodeError, PathRead};
use crate::types::output_affixes::{prefix_bytes, suffix_bytes};
use crate::types::output_kind::{write_prefix, write_suffix};
use crate::types::prefix_kind::PrefixKind;
use crate::types::suffix::Suffix;
use crate::bytes::write_bytes;
use vstd::prelude::*;

verus! {

/// Prints the value that a keyspace holds for a key, with an optional length
/// prefix and suffix around it.
#[derive(Debug)]
pub struct GetCommand {
    pub key: String,
    pub key_encoding: ByteEncoding,
    pub value_prefix: Option<PrefixKind>,
    pub value_suffix: Option<Suffix>,
}

#[derive(Debug)]
#[allow(inconsistent_fields)]
pub enum GetCommandRunError {
    DecodeKeyBytesFailed { source: ByteEncodingDecodeError, key: String, key_encoding: ByteEncoding },
    KeyspaceNotFound { keyspace: String },
    KeyspaceFailed { source: fjall::Error, keyspace: String },
    GetFailed { source: fjall::Error, keyspace: String, key: String },
    KeyNotFound { keyspace: String, key: String },
    WriteAllFailed { source: std::io::Error },
}

impl GetCommand {
    /// The bytes printed for `value`.
    pub open spec fn rendered(self, value: Seq<u8>) -> Seq<u8> {
        prefix_bytes(self.value_prefix, value) + value + suffix_bytes(self.value_suffix)
    }

    /// What looking the key up in keyspace `name` of a database holding `before`
    /// may give, leaving it holding `after`; `key_file` is what reading the key's
    /// file gave, for a path-encoded key.
    pub open spec fn outcome(
        self,
        before: Store,
        after: Store,
        name: Seq<char>,
        key_file: Option<PathRead>,
        r: Result<CommandOutput, GetCommandRunError>,
    ) -> bool {
        let key = self.key_encoding.decoded(self.key@, key_file);
        &&& after == before
        &&& match r {
            Ok(out) => {
                &&& key is Some
                &&& before.contains_key(name)
                &&& items_of(before, name).contains_key(key.unwrap())
                &&& out.stdout@ == self.rendered(items_of(before, name)[key.unwrap()])
                &&& out.exit_code == 0
            },
            Err(GetCommandRunError::DecodeKeyBytesFailed { key: k, key_encoding, .. }) => {
                &&& key is None
                &&& k@ == self.key@
                &&& key_encoding == self.key_encoding
            },
            Err(GetCommandRunError::KeyspaceNotFound { keyspace }) => {
                &&& key is Some
                &&& !before.contains_key(name)
                &&& keyspace@ == name
            },
            Err(GetCommandRunError::GetFailed { keyspace, key: k, .. }) => {
                &&& key is Some
                &&& before.contains_key(name)
                &&& keyspace@ == name
                &&& k@ == self.key@
            },
            Err(GetCommandRunError::KeyNotFound { keyspace, key: k }) => {
                &&& key is Some
                &&& before.contains_key(name)
                &&& !items_of(before, name).contains_key(key.unwrap())
                &&& keyspace@ == name
                &&& k@ == self.key@
            },
            Err(_) => false,
        }
    }

    /// What fjall needs of the inputs that reach it: where the key decodes and the
    /// keyspace exists in a database holding `before`, a key of at most 65535 bytes
    /// (it panics otherwise); and the file of a path-encoded key.
    pub open spec fn accepts(self, before: Store, name: Seq<char>, key_file: Option<PathRead>) -> bool {
        &&& self.key_encoding == ByteEncoding::Path ==> key_file is Some
        &&& self.key_encoding.decoded(self.key@, key_file) matches Some(k) ==> (before.contains_key(name)
            ==> readable_key(k))
    }

    /// Looks the key up in keyspace `keyspace`.
    pub fn run(self, db: &mut fjall::Database, keyspace: &str, key_file: Option<PathRead>) -> (r: Result<
        CommandOutput,
        GetCommandRunError,
    >)
        requires
            self.accepts(database_keyspaces(*old(db)), keyspace@, key_file),
        ensures
            same_database(*old(db), *final(db)),
            self.outcome(
                database_keyspaces(*old(db)),
                database_keyspaces(*final(db)),
                keyspace@,
                key_file,
                r,
            ),
    {
        let ghost this = self;
        let GetCommand { key, key_encoding, value_prefix, value_suffix } = self;
        let key_bytes = match key_encoding.decode(key.as_str(), key_file) {
            Ok(bytes) => bytes,
            Err(source) => {
                return Err(GetCommandRunError::DecodeKeyBytesFailed { source, key, key_encoding });
            },
        };
        if !keyspace_exists(db, keyspace) {
            return Err(GetCommandRunError::KeyspaceNotFound { keyspace: keyspace.to_owned() });
        }
        let ks = match open_keyspace(db, keyspace) {
            Ok(ks) => ks,
            Err(source) => {
                return Err(GetCommandRunError::KeyspaceFailed { source, keyspace: keyspace.to_owned() });
            },
        };
        let value = match keyspace_get(db, &ks, key_bytes.as_slice()) {
            Ok(Some(value)) => value,
            Ok(None) => {
                return Err(GetCommandRunError::KeyNotFound { keyspace: keyspace.to_owned(), key });
            },
            Err(source) => {
                return Err(GetCommandRunError::GetFailed { source, keyspace: keyspace.to_owned(), key });
            },
        };
        let mut stdout: Vec<u8> = Vec::new();
        write_prefix(&mut stdout, &value_prefix, value.as_slice());
        write_bytes(&mut stdout, value.as_slice());
        write_suffix(&mut stdout, &value_suffix);
        proof {
            assert(stdout@ =~= this.rendered(value@));
        }
        Ok(CommandOutput { stdout, exit_code: 0 })
    }
}

} // verus!
