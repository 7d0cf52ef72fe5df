use crate::command::{others_unchanged, CommandOutput, Store};
use crate::storage::{
    database_keyspaces, delete_keyspace, keyspace_clear, keyspace_exists, open_keyspace,
    same_database,
};
use vstd::prelude::*;

verus! {

/// Empties a keyspace by clearing it, deleting it and creating it anew.
#[derive(Debug)]
pub struct ClearCommand {
    pub keyspace: String,
}

#[derive(Debug)]
pub enum ClearCommandRunError {
    KeyspaceNotFound { keyspace: String },
    KeyspaceFailed { source: fjall::Error, keyspace: String },
    ClearFailed { source: fjall::Error, keyspace: String },
    DeleteKeyspaceFailed { source: fjall::Error, keyspace: String },
}

impl ClearCommand {
    /// What emptying the keyspace in a database holding `before` may give, leaving
    /// it holding `after`.
    pub open spec fn outcome(self, before: Store, after: Store, r: Result<CommandOutput, ClearCommandRunError>) -> bool {
        let name = self.keyspace@;
        match r {
            Ok(out) => {
                &&& before.contains_key(name)
                &&& after.contains_key(name)
                &&& after[name].1 == Map::<Seq<u8>, Seq<u8>>::empty()
                &&& others_unchanged(before, after, name)
                &&& out.stdout@ == Seq::<u8>::empty()
                &&& out.exit_code == 0
            },
            Err(ClearCommandRunError::KeyspaceNotFound { keyspace }) => {
                &&& !before.contains_key(name)
                &&& after == before
                &&& keyspace@ == name
            },
            Err(ClearCommandRunError::KeyspaceFailed { keyspace, .. }) => before.contains_key(name)
                && keyspace@ == name,
            Err(ClearCommandRunError::ClearFailed { keyspace, .. }) => before.contains_key(name)
                && keyspace@ == name,
            Err(ClearCommandRunError::DeleteKeyspaceFailed { keyspace, .. }) => before.contains_key(
                name,
            ) && keyspace@ == name,
        }
    }

    /// Empties the keyspace.
    pub fn run(self, db: &mut fjall::Database) -> (r: Result<CommandOutput, ClearCommandRunError>)
        ensures
            same_database(*old(db), *final(db)),
            self.outcome(database_keyspaces(*old(db)), database_keyspaces(*final(db)), r),
    {
        let ClearCommand { keyspace } = self;
        if !keyspace_exists(db, keyspace.as_str()) {
            return Err(ClearCommandRunError::KeyspaceNotFound { keyspace });
        }
        let ghost before = database_keyspaces(*db);
        let ks = match open_keyspace(db, keyspace.as_str()) {
            Ok(ks) => ks,
            Err(source) => {
                return Err(ClearCommandRunError::KeyspaceFailed { source, keyspace });
            },
        };
        match keyspace_clear(db, &ks) {
            Ok(()) => {},
            Err(source) => {
                return Err(ClearCommandRunError::ClearFailed { source, keyspace });
            },
        }
        match delete_keyspace(db, ks) {
            Ok(()) => {},
            Err(source) => {
                return Err(ClearCommandRunError::DeleteKeyspaceFailed { source, keyspace });
            },
        }
        let ghost deleted = database_keyspaces(*db);
        match open_keyspace(db, keyspace.as_str()) {
            Ok(_ks) => {
                proof {
                    let after = database_keyspaces(*db);
                    assert forall|n: Seq<char>| #![trigger after.contains_key(n)] n != keyspace@ implies (after.contains_key(n) == before.contains_key(n)
                        && (before.contains_key(n) ==> after[n] == before[n])) by {
                        assert(deleted.contains_key(n) == before.contains_key(n));
                    }
                }
                Ok(CommandOutput { stdout: Vec::new(), exit_code: 0 })
            },
            Err(source) => Err(ClearCommandRunError::KeyspaceFailed { source, keyspace }),
        }
    }
}

} // verus!
