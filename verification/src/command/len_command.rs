use crate::bytes::{decimal_line, decimal_line_bytes};
use crate::command::{CommandOutput, Store};
use crate::storage::{
    database_keyspaces, is_size_of, items_of, keyspace_exists, keyspace_len, open_keyspace,
    same_database,
};
use vstd::prelude::*;

verus! {

/// Prints how many pairs a keyspace holds.
#[derive(Debug)]
pub struct LenCommand {}

#[derive(Debug)]
pub enum LenCommandRunError {
    KeyspaceNotFound { keyspace: String },
    KeyspaceFailed { source: fjall::Error, keyspace: String },
    LenFailed { source: fjall::Error, keyspace: String },
    WriteFailed { source: std::io::Error },
}

impl LenCommand {
    /// What running the command on keyspace `name` of a database holding `before`
    /// may give, leaving it holding `after`.
    pub open spec fn outcome(
        before: Store,
        after: Store,
        name: Seq<char>,
        r: Result<CommandOutput, LenCommandRunError>,
    ) -> bool {
        &&& after == before
        &&& match r {
            Ok(out) => {
                &&& before.contains_key(name)
                &&& is_size_of(items_of(before, name).dom().len(), items_of(before, name).dom())
                &&& out.stdout@ == decimal_line(items_of(before, name).dom().len())
                &&& out.exit_code == 0
            },
            Err(LenCommandRunError::KeyspaceNotFound { keyspace }) => !before.contains_key(name)
                && keyspace@ == name,
            Err(LenCommandRunError::LenFailed { keyspace, .. }) => before.contains_key(name)
                && keyspace@ == name,
            Err(_) => false,
        }
    }

    /// Counts the pairs of keyspace `keyspace`.
    pub fn run(self, db: &mut fjall::Database, keyspace: &str) -> (r: Result<CommandOutput, LenCommandRunError>)
        ensures
            same_database(*old(db), *final(db)),
            Self::outcome(database_keyspaces(*old(db)), database_keyspaces(*final(db)), keyspace@, r),
    {
        if !keyspace_exists(db, keyspace) {
            return Err(LenCommandRunError::KeyspaceNotFound { keyspace: keyspace.to_owned() });
        }
        let ks = match open_keyspace(db, keyspace) {
            Ok(ks) => ks,
            Err(source) => {
                return Err(LenCommandRunError::KeyspaceFailed { source, keyspace: keyspace.to_owned() });
            },
        };
        let len = match keyspace_len(db, &ks) {
            Ok(n) => n,
            Err(source) => {
                return Err(LenCommandRunError::LenFailed { source, keyspace: keyspace.to_owned() });
            },
        };
        Ok(CommandOutput { stdout: decimal_line_bytes(len as u64), exit_code: 0 })
    }
}

} // verus!
