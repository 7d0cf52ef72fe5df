use crate::bytes::{decimal_line, decimal_line_bytes};
use crate::command::{CommandOutput, Store};
use crate::storage::{
    database_keyspaces, keyspace_disk_space, keyspace_exists, keyspace_flush, open_keyspace,
    same_database,
};
use vstd::prelude::*;

verus! {

/// Prints how many bytes a keyspace takes on disk, after flushing its pending writes.
#[derive(Debug)]
pub struct DiskSizeCommand {}

#[derive(Debug)]
pub enum DiskSizeCommandRunError {
    KeyspaceNotFound { keyspace: String },
    KeyspaceFailed { source: fjall::Error, keyspace: String },
    RotateMemtableFailed { source: fjall::Error, keyspace: String },
    WriteFailed { source: std::io::Error },
}

impl DiskSizeCommand {
    /// What measuring keyspace `name` of a database holding `before` may give,
    /// leaving it holding `after`. The size itself depends on the disk.
    pub open spec fn outcome(
        before: Store,
        after: Store,
        name: Seq<char>,
        r: Result<CommandOutput, DiskSizeCommandRunError>,
    ) -> bool {
        &&& after == before
        &&& match r {
            Ok(out) => {
                &&& before.contains_key(name)
                &&& exists|size: nat| out.stdout@ == decimal_line(size)
                &&& out.exit_code == 0
            },
            Err(DiskSizeCommandRunError::KeyspaceNotFound { keyspace }) => !before.contains_key(name)
                && keyspace@ == name,
            Err(DiskSizeCommandRunError::RotateMemtableFailed { keyspace, .. }) => before.contains_key(
                name,
            ) && keyspace@ == name,
            Err(_) => false,
        }
    }

    /// Flushes keyspace `keyspace` and measures it.
    pub fn run(self, db: &mut fjall::Database, keyspace: &str) -> (r: Result<CommandOutput, DiskSizeCommandRunError>)
        ensures
            same_database(*old(db), *final(db)),
            Self::outcome(database_keyspaces(*old(db)), database_keyspaces(*final(db)), keyspace@, r),
    {
        if !keyspace_exists(db, keyspace) {
            return Err(DiskSizeCommandRunError::KeyspaceNotFound { keyspace: keyspace.to_owned() });
        }
        let ks = match open_keyspace(db, keyspace) {
            Ok(ks) => ks,
            Err(source) => {
                return Err(DiskSizeCommandRunError::KeyspaceFailed { source, keyspace: keyspace.to_owned() });
            },
        };
        match keyspace_flush(&ks) {
            Ok(()) => {},
            Err(source) => {
                return Err(
                    DiskSizeCommandRunError::RotateMemtableFailed { source, keyspace: keyspace.to_owned() },
                );
            },
        }
        let size = keyspace_disk_space(&ks);
        Ok(Self::size_output(size))
    }

    /// What the command prints for a keyspace that fjall reports as taking `size`
    /// bytes on disk: the number in decimal and a newline, with exit code 0.
    pub fn size_output(size: u64) -> (out: CommandOutput)
        ensures
            out.stdout@ == decimal_line(size as nat),
            out.exit_code == 0,
    {
        let stdout = decimal_line_bytes(size);
        proof {
            assert(stdout@ == decimal_line(size as nat));
        }
        CommandOutput { stdout, exit_code: 0 }
    }
}

} // verus!
