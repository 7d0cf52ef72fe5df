pub mod clear_command;
pub use clear_command::{ClearCommand, ClearCommandRunError};

pub mod delete_command;
pub use delete_command::{DeleteCommand, DeleteCommandRunError};

pub mod disk_size_command;
pub use disk_size_command::{DiskSizeCommand, DiskSizeCommandRunError};

pub mod get_command;
pub use get_command::{GetCommand, GetCommandRunError};

pub mod keyspace_list_command;
pub use keyspace_list_command::{KeyspaceListCommand, KeyspaceListCommandRunError};

use crate::command::contains_command::{ContainsCommand, ContainsCommandRunError};
use crate::command::insert_command::{InsertCommand, InsertCommandRunError};
use crate::command::iter_command::{IterCommand, IterCommandRunError};
use crate::command::len_command::{LenCommand, LenCommandRunError};
use crate::bytes::write_bytes;
use crate::command::{printed, ArgFiles, CommandOutput, Store};
use crate::storage::{database_keyspaces, same_database};
use vstd::prelude::*;

verus! {

/// A command on one keyspace.
#[derive(Debug)]
pub struct KeyspaceCommand {
    pub keyspace: String,
    pub subcommand: KeyspaceSubcommand,
}

/// The commands that act on one keyspace.
#[derive(Debug)]
pub enum KeyspaceSubcommand {
    Iter(IterCommand),
    Get(GetCommand),
    Insert(InsertCommand),
    Contains(ContainsCommand),
    Len(LenCommand),
    DiskSize(DiskSizeCommand),
    Clear(ClearCommand),
    Delete(DeleteCommand),
}

#[derive(Debug)]
pub enum KeyspaceCommandRunError {
    RunIterCommandFailed { source: IterCommandRunError },
    RunGetCommandFailed { source: GetCommandRunError },
    RunInsertCommandFailed { source: InsertCommandRunError },
    RunContainsCommandFailed { source: ContainsCommandRunError },
    RunLenCommandFailed { source: LenCommandRunError },
    RunDiskSizeCommandFailed { source: DiskSizeCommandRunError },
    RunClearCommandFailed { source: ClearCommandRunError },
    RunDeleteCommandFailed { source: DeleteCommandRunError },
}

impl KeyspaceCommand {
    /// What the program must hand over: the file of each path-encoded argument, and
    /// the inputs that fjall needs of the subcommand once its arguments decode (see
    /// each command's `accepts`), for a database holding `before`.
    pub open spec fn accepts(self, before: Store, files: ArgFiles) -> bool {
        let name = self.keyspace@;
        match self.subcommand {
            KeyspaceSubcommand::Get(c) => c.accepts(before, name, files.key),
            KeyspaceSubcommand::Insert(c) => c.accepts(name, files.key, files.value),
            KeyspaceSubcommand::Contains(c) => c.accepts(name, files.key),
            _ => true,
        }
    }

    /// What the command may give on a database holding `before`, leaving it holding
    /// `after`, with standard output going from `out_before` to `out_after`: what its
    /// subcommand gives, its output written, its exit code passed on and its error
    /// wrapped.
    pub open spec fn outcome(
        self,
        before: Store,
        after: Store,
        files: ArgFiles,
        out_before: Seq<u8>,
        out_after: Seq<u8>,
        r: Result<u8, KeyspaceCommandRunError>,
    ) -> bool {
        let name = self.keyspace@;
        match self.subcommand {
            KeyspaceSubcommand::Iter(c) => match r {
                Ok(code) => code == 0 && c.outcome(before, after, name, out_before, out_after, Ok(())),
                Err(KeyspaceCommandRunError::RunIterCommandFailed { source }) => c.outcome(
                    before,
                    after,
                    name,
                    out_before,
                    out_after,
                    Err(source),
                ),
                Err(_) => false,
            },
            KeyspaceSubcommand::Get(c) => match r {
                Ok(code) => exists|out: CommandOutput|
                    #[trigger] c.outcome(before, after, name, files.key, Ok(out)) && printed(out, out_before, out_after, code),
                Err(KeyspaceCommandRunError::RunGetCommandFailed { source }) => c.outcome(before, after, name, files.key, Err(source))
                    && out_after == out_before,
                Err(_) => false,
            },
            KeyspaceSubcommand::Insert(c) => match r {
                Ok(code) => exists|out: CommandOutput|
                    #[trigger] c.outcome(before, after, name, files.key, files.value, Ok(out)) && printed(out, out_before, out_after, code),
                Err(KeyspaceCommandRunError::RunInsertCommandFailed { source }) => c.outcome(before, after, name, files.key, files.value, Err(source))
                    && out_after == out_before,
                Err(_) => false,
            },
            KeyspaceSubcommand::Contains(c) => match r {
                Ok(code) => exists|out: CommandOutput|
                    #[trigger] c.outcome(before, after, name, files.key, Ok(out)) && printed(out, out_before, out_after, code),
                Err(KeyspaceCommandRunError::RunContainsCommandFailed { source }) => c.outcome(before, after, name, files.key, Err(source))
                    && out_after == out_before,
                Err(_) => false,
            },
            KeyspaceSubcommand::Len(_) => match r {
                Ok(code) => exists|out: CommandOutput|
                    #[trigger] LenCommand::outcome(before, after, name, Ok(out)) && printed(out, out_before, out_after, code),
                Err(KeyspaceCommandRunError::RunLenCommandFailed { source }) => LenCommand::outcome(before, after, name, Err(source))
                    && out_after == out_before,
                Err(_) => false,
            },
            KeyspaceSubcommand::DiskSize(_) => match r {
                Ok(code) => exists|out: CommandOutput|
                    #[trigger] DiskSizeCommand::outcome(before, after, name, Ok(out)) && printed(out, out_before, out_after, code),
                Err(KeyspaceCommandRunError::RunDiskSizeCommandFailed { source }) => DiskSizeCommand::outcome(before, after, name, Err(source))
                    && out_after == out_before,
                Err(_) => false,
            },
            KeyspaceSubcommand::Clear(_) => match r {
                Ok(code) => exists|out: CommandOutput|
                    #[trigger] ClearCommand::outcome(before, after, name, Ok(out)) && printed(out, out_before, out_after, code),
                Err(KeyspaceCommandRunError::RunClearCommandFailed { source }) => ClearCommand::outcome(before, after, name, Err(source))
                    && out_after == out_before,
                Err(_) => false,
            },
            KeyspaceSubcommand::Delete(_) => match r {
                Ok(code) => exists|out: CommandOutput|
                    #[trigger] DeleteCommand::outcome(before, after, name, Ok(out)) && printed(out, out_before, out_after, code),
                Err(KeyspaceCommandRunError::RunDeleteCommandFailed { source }) => DeleteCommand::outcome(before, after, name, Err(source))
                    && out_after == out_before,
                Err(_) => false,
            },
        }
    }

    /// Runs the subcommand on the keyspace, writing its output to `stdout`; the result
    /// is the exit code.
    pub fn run(self, db: &mut fjall::Database, files: ArgFiles, stdout: &mut Vec<u8>) -> (r: Result<
        u8,
        KeyspaceCommandRunError,
    >)
        requires
            self.accepts(database_keyspaces(*old(db)), files),
        ensures
            same_database(*old(db), *final(db)),
            self.outcome(
                database_keyspaces(*old(db)),
                database_keyspaces(*final(db)),
                files,
                old(stdout)@,
                final(stdout)@,
                r,
            ),
    {
        let KeyspaceCommand { keyspace, subcommand } = self;
        let ArgFiles { key: key_file, value: value_file } = files;
        match subcommand {
            KeyspaceSubcommand::Iter(command) => match command.run(db, keyspace.as_str(), stdout) {
                Ok(()) => Ok(0),
                Err(source) => Err(KeyspaceCommandRunError::RunIterCommandFailed { source }),
            },
            KeyspaceSubcommand::Get(command) => match command.run(db, keyspace.as_str(), key_file) {
                Ok(out) => {
                    write_bytes(stdout, out.stdout.as_slice());
                    Ok(out.exit_code)
                },
                Err(source) => Err(KeyspaceCommandRunError::RunGetCommandFailed { source }),
            },
            KeyspaceSubcommand::Insert(command) => match command.run(db, keyspace.as_str(), key_file, value_file) {
                Ok(out) => {
                    write_bytes(stdout, out.stdout.as_slice());
                    Ok(out.exit_code)
                },
                Err(source) => Err(KeyspaceCommandRunError::RunInsertCommandFailed { source }),
            },
            KeyspaceSubcommand::Contains(command) => match command.run(db, keyspace.as_str(), key_file) {
                Ok(out) => {
                    write_bytes(stdout, out.stdout.as_slice());
                    Ok(out.exit_code)
                },
                Err(source) => Err(KeyspaceCommandRunError::RunContainsCommandFailed { source }),
            },
            KeyspaceSubcommand::Len(command) => match command.run(db, keyspace.as_str()) {
                Ok(out) => {
                    write_bytes(stdout, out.stdout.as_slice());
                    Ok(out.exit_code)
                },
                Err(source) => Err(KeyspaceCommandRunError::RunLenCommandFailed { source }),
            },
            KeyspaceSubcommand::DiskSize(command) => match command.run(db, keyspace.as_str()) {
                Ok(out) => {
                    write_bytes(stdout, out.stdout.as_slice());
                    Ok(out.exit_code)
                },
                Err(source) => Err(KeyspaceCommandRunError::RunDiskSizeCommandFailed { source }),
            },
            KeyspaceSubcommand::Clear(command) => match command.run(db, keyspace.as_str()) {
                Ok(out) => {
                    write_bytes(stdout, out.stdout.as_slice());
                    Ok(out.exit_code)
                },
                Err(source) => Err(KeyspaceCommandRunError::RunClearCommandFailed { source }),
            },
            KeyspaceSubcommand::Delete(command) => match command.run(db, keyspace.as_str()) {
                Ok(out) => {
                    write_bytes(stdout, out.stdout.as_slice());
                    Ok(out.exit_code)
                },
                Err(source) => Err(KeyspaceCommandRunError::RunDeleteCommandFailed { source }),
            },
        }
    }
}

} // verus!
