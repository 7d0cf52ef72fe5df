use crate::command::{inserted, lemma_opened, opened, CommandOutput, Store};
use crate::storage::{
    database_keyspaces, keyspace_handle, keyspace_insert, open_keyspace, same_database, storable_key,
    storable_value,
    valid_keyspace_name,
};
use crate::types::byte_encoding::{ByteEncoding, ByteEncodingDecodeError, PathRead};
use vstd::prelude::*;

verus! {

/// Writes a key-value pair into a keyspace, creating the keyspace if needed.
#[derive(Debug)]
pub struct InsertCommand {
    pub key: String,
    pub value: String,
    pub key_encoding: ByteEncoding,
    pub value_encoding: ByteEncoding,
}

#[derive(Debug)]
#[allow(inconsistent_fields)]
pub enum InsertCommandRunError {
    DecodeKeyBytesFailed { source: ByteEncodingDecodeError, key: String, key_encoding: ByteEncoding },
    DecodeValueBytesFailed {
        source: ByteEncodingDecodeError,
        value: String,
        value_encoding: ByteEncoding,
    },
    KeyspaceFailed { source: fjall::Error, keyspace: String },
    InsertFailed { source: fjall::Error, keyspace: String },
}

impl InsertCommand {
    /// What writing the pair into keyspace `name` of a database holding `before` may
    /// give, leaving it holding `after`; `key_file` and `value_file` are what reading
    /// the files of path-encoded arguments gave.
    pub open spec fn outcome(
        self,
        before: Store,
        after: Store,
        name: Seq<char>,
        key_file: Option<PathRead>,
        value_file: Option<PathRead>,
        r: Result<CommandOutput, InsertCommandRunError>,
    ) -> bool {
        let key = self.key_encoding.decoded(self.key@, key_file);
        let value = self.value_encoding.decoded(self.value@, value_file);
        match r {
            Ok(out) => {
                &&& key is Some
                &&& value is Some
                &&& inserted(before, after, name, key.unwrap(), value.unwrap())
                &&& out.stdout@ == Seq::<u8>::empty()
                &&& out.exit_code == 0
            },
            Err(InsertCommandRunError::DecodeKeyBytesFailed { key: k, key_encoding, .. }) => {
                &&& key is None
                &&& after == before
                &&& k@ == self.key@
                &&& key_encoding == self.key_encoding
            },
            Err(InsertCommandRunError::DecodeValueBytesFailed { value: v, value_encoding, .. }) => {
                &&& key is Some
                &&& value is None
                &&& after == before
                &&& v@ == self.value@
                &&& value_encoding == self.value_encoding
            },
            Err(InsertCommandRunError::KeyspaceFailed { keyspace, .. }) => {
                &&& key is Some
                &&& value is Some
                &&& !before.contains_key(name)
                &&& after == before
                &&& keyspace@ == name
            },
            Err(InsertCommandRunError::InsertFailed { keyspace, .. }) => {
                &&& key is Some
                &&& value is Some
                &&& opened(before, after, name)
                &&& keyspace@ == name
            },
        }
    }

    /// What fjall needs of the inputs that reach it once both arguments decode: a
    /// keyspace name it accepts, a key of 1 to 65535 bytes and a value of at most
    /// `u32::MAX` bytes (it panics otherwise), and the file of each path-encoded argument.
    pub open spec fn accepts(
        self,
        name: Seq<char>,
        key_file: Option<PathRead>,
        value_file: Option<PathRead>,
    ) -> bool {
        let key = self.key_encoding.decoded(self.key@, key_file);
        let value = self.value_encoding.decoded(self.value@, value_file);
        &&& self.key_encoding == ByteEncoding::Path ==> key_file is Some
        &&& self.value_encoding == ByteEncoding::Path ==> value_file is Some
        &&& key matches Some(k) ==> (value matches Some(v) ==> {
            &&& valid_keyspace_name(name)
            &&& storable_key(k)
            &&& storable_value(v)
        })
    }

    /// Writes the pair into keyspace `keyspace`.
    pub fn run(
        self,
        db: &mut fjall::Database,
        keyspace: &str,
        key_file: Option<PathRead>,
        value_file: Option<PathRead>,
    ) -> (r: Result<CommandOutput, InsertCommandRunError>)
        requires
            self.accepts(keyspace@, key_file, value_file),
        ensures
            same_database(*old(db), *final(db)),
            self.outcome(
                database_keyspaces(*old(db)),
                database_keyspaces(*final(db)),
                keyspace@,
                key_file,
                value_file,
                r,
            ),
    {
        let InsertCommand { key, value, key_encoding, value_encoding } = self;
        let key_bytes = match key_encoding.decode(key.as_str(), key_file) {
            Ok(bytes) => bytes,
            Err(source) => {
                return Err(InsertCommandRunError::DecodeKeyBytesFailed { source, key, key_encoding });
            },
        };
        let value_bytes = match value_encoding.decode(value.as_str(), value_file) {
            Ok(bytes) => bytes,
            Err(source) => {
                return Err(
                    InsertCommandRunError::DecodeValueBytesFailed { source, value, value_encoding },
                );
            },
        };
        let ghost before = database_keyspaces(*db);
        let ks = match open_keyspace(db, keyspace) {
            Ok(ks) => ks,
            Err(source) => {
                return Err(InsertCommandRunError::KeyspaceFailed { source, keyspace: keyspace.to_owned() });
            },
        };
        let ghost opened_store = database_keyspaces(*db);
        match keyspace_insert(db, &ks, key_bytes, value_bytes) {
            Ok(()) => {
                proof {
                    let after = database_keyspaces(*db);
                    assert forall|n: Seq<char>| #![trigger after.contains_key(n)] n != keyspace@ implies (after.contains_key(n) == before.contains_key(n)
                        && (before.contains_key(n) ==> after[n] == before[n])) by {
                        assert(opened_store.contains_key(n) == before.contains_key(n));
                    }
                }
                Ok(CommandOutput { stdout: Vec::new(), exit_code: 0 })
            },
            Err(source) => {
                proof {
                    if !before.contains_key(keyspace@) {
                        assert(database_keyspaces(*db) == before.insert(
                            keyspace@,
                            (keyspace_handle(ks).2, Map::<Seq<u8>, Seq<u8>>::empty()),
                        ));
                    }
                    lemma_opened(before, database_keyspaces(*db), keyspace@);
                }
                Err(InsertCommandRunError::InsertFailed { source, keyspace: keyspace.to_owned() })
            },
        }
    }
}

} // verus!
