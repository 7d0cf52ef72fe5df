use crate::command::{CommandOutput, Store};
use crate::storage::{database_keyspaces, keyspace_clear, keyspace_exists, open_keyspace, same_database};
use vstd::prelude::*;

verus! {

/// Removes every pair of a keyspace, keeping the keyspace. The program persists the
/// database afterwards.
#[derive(Debug)]
pub struct ClearCommand {}

#[derive(Debug)]
pub enum ClearCommandRunError {
    KeyspaceNotFound { keyspace: String },
    KeyspaceFailed { source: fjall::Error, keyspace: String },
    ClearFailed { source: fjall::Error, keyspace: String },
}

impl ClearCommand {
    /// What clearing keyspace `name` of a database holding `before` may give,
    /// leaving it holding `after`.
    pub open spec fn outcome(
        before: Store,
        after: Store,
        name: Seq<char>,
        r: Result<CommandOutput, ClearCommandRunError>,
    ) -> bool {
        match r {
            Ok(out) => {
                &&& before.contains_key(name)
                &&& after == before.insert(name, (before[name].0, Map::empty()))
                &&& out.stdout@ == Seq::<u8>::empty()
                &&& out.exit_code == 0
            },
            Err(ClearCommandRunError::KeyspaceNotFound { keyspace }) => {
                &&& !before.contains_key(name)
                &&& after == before
                &&& keyspace@ == name
            },
            Err(ClearCommandRunError::ClearFailed { keyspace, .. }) => before.contains_key(name)
                && keyspace@ == name,
            Err(ClearCommandRunError::KeyspaceFailed { .. }) => false,
        }
    }

    /// Clears keyspace `keyspace`.
    pub fn run(self, db: &mut fjall::Database, keyspace: &str) -> (r: Result<CommandOutput, ClearCommandRunError>)
        ensures
            same_database(*old(db), *final(db)),
            Self::outcome(database_keyspaces(*old(db)), database_keyspaces(*final(db)), keyspace@, r),
    {
        if !keyspace_exists(db, keyspace) {
            return Err(ClearCommandRunError::KeyspaceNotFound { keyspace: keyspace.to_owned() });
        }
        let ks = match open_keyspace(db, keyspace) {
            Ok(ks) => ks,
            Err(source) => {
                return Err(ClearCommandRunError::KeyspaceFailed { source, keyspace: keyspace.to_owned() });
            },
        };
        match keyspace_clear(db, &ks) {
            Ok(()) => Ok(CommandOutput { stdout: Vec::new(), exit_code: 0 }),
            Err(source) => Err(ClearCommandRunError::ClearFailed { source, keyspace: keyspace.to_owned() }),
        }
    }
}

} // verus!
