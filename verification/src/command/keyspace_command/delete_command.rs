use crate::command::{CommandOutput, Store};
use crate::storage::{database_keyspaces, delete_keyspace, keyspace_exists, open_keyspace, same_database};
use vstd::prelude::*;

verus! {

/// Removes a keyspace and everything it holds.
#[derive(Debug)]
pub struct DeleteCommand {}

#[derive(Debug)]
pub enum DeleteCommandRunError {
    KeyspaceNotFound { keyspace: String },
    KeyspaceFailed { source: fjall::Error, keyspace: String },
    DeleteKeyspaceFailed { source: fjall::Error, keyspace: String },
}

impl DeleteCommand {
    /// What deleting keyspace `name` of a database holding `before` may give,
    /// leaving it holding `after`.
    pub open spec fn outcome(
        before: Store,
        after: Store,
        name: Seq<char>,
        r: Result<CommandOutput, DeleteCommandRunError>,
    ) -> bool {
        match r {
            Ok(out) => {
                &&& before.contains_key(name)
                &&& after == before.remove(name)
                &&& out.stdout@ == Seq::<u8>::empty()
                &&& out.exit_code == 0
            },
            Err(DeleteCommandRunError::KeyspaceNotFound { keyspace }) => {
                &&& !before.contains_key(name)
                &&& after == before
                &&& keyspace@ == name
            },
            Err(DeleteCommandRunError::DeleteKeyspaceFailed { keyspace, .. }) => before.contains_key(name)
                && keyspace@ == name,
            Err(DeleteCommandRunError::KeyspaceFailed { .. }) => false,
        }
    }

    /// Deletes keyspace `keyspace`.
    pub fn run(self, db: &mut fjall::Database, keyspace: &str) -> (r: Result<CommandOutput, DeleteCommandRunError>)
        ensures
            same_database(*old(db), *final(db)),
            Self::outcome(database_keyspaces(*old(db)), database_keyspaces(*final(db)), keyspace@, r),
    {
        if !keyspace_exists(db, keyspace) {
            return Err(DeleteCommandRunError::KeyspaceNotFound { keyspace: keyspace.to_owned() });
        }
        let ks = match open_keyspace(db, keyspace) {
            Ok(ks) => ks,
            Err(source) => {
                return Err(DeleteCommandRunError::KeyspaceFailed { source, keyspace: keyspace.to_owned() });
            },
        };
        match delete_keyspace(db, ks) {
            Ok(()) => Ok(CommandOutput { stdout: Vec::new(), exit_code: 0 }),
            Err(source) => Err(
                DeleteCommandRunError::DeleteKeyspaceFailed { source, keyspace: keyspace.to_owned() },
            ),
        }
    }
}

} // verus!
