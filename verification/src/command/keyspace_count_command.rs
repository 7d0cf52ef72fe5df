use crate::bytes::{decimal_line, decimal_line_bytes};
use crate::command::CommandOutput;
use crate::storage::{database_keyspaces, is_size_of, keyspace_count};
use vstd::prelude::*;

verus! {

/// Prints how many keyspaces the database holds.
#[derive(Debug)]
pub struct KeyspaceCountCommand {}

#[derive(Debug)]
pub enum KeyspaceCountCommandRunError {
    WriteFailed { source: std::io::Error },
}

impl KeyspaceCountCommand {
    /// Counts the keyspaces.
    pub fn run(self, db: &fjall::Database) -> (out: CommandOutput)
        ensures
            is_size_of(database_keyspaces(*db).dom().len(), database_keyspaces(*db).dom()),
            out.stdout@ == decimal_line(database_keyspaces(*db).dom().len()),
            out.exit_code == 0,
    {
        let count = keyspace_count(db);
        CommandOutput { stdout: decimal_line_bytes(count as u64), exit_code: 0 }
    }
}

} // verus!
