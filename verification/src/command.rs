//! The commands: each decides what the database answers and renders the bytes
//! that the program writes to standard output.
use crate::bytes::write_bytes;
use crate::types::byte_encoding::PathRead;
use vstd::prelude::*;

verus! {

/// What the keyspaces of a database hold: for each name, the id and the pairs.
pub type Store = Map<Seq<char>, (u64, Map<Seq<u8>, Seq<u8>>)>;

/// What a command leaves to the program: the bytes for standard output and the
/// process's exit code.
#[derive(Debug)]
pub struct CommandOutput {
    pub stdout: Vec<u8>,
    pub exit_code: u8,
}

/// What looking up and reading the files named by path-encoded arguments gave:
/// the key argument's and the value argument's, where they are path-encoded.
#[derive(Debug)]
pub struct ArgFiles {
    pub key: Option<PathRead>,
    pub value: Option<PathRead>,
}

/// The keyspaces other than `name` are the same in `after` as in `before`.
pub open spec fn others_unchanged(before: Store, after: Store, name: Seq<char>) -> bool {
    forall|n: Seq<char>| #![trigger after.contains_key(n)] n != name ==> (after.contains_key(n) == before.contains_key(n)
        && (before.contains_key(n) ==> after[n] == before[n]))
}

/// `after` is `before` with keyspace `name` opened: unchanged if it was there, and
/// otherwise created empty.
pub open spec fn opened(before: Store, after: Store, name: Seq<char>) -> bool {
    if before.contains_key(name) {
        after == before
    } else {
        &&& after.contains_key(name)
        &&& after[name].1 == Map::<Seq<u8>, Seq<u8>>::empty()
        &&& others_unchanged(before, after, name)
    }
}

/// Opening keyspace `name` either kept the store or added the keyspace, empty.
pub proof fn lemma_opened(before: Store, after: Store, name: Seq<char>)
    requires
        before.contains_key(name) ==> after == before,
        !before.contains_key(name) ==> exists|id: u64| after == before.insert(name, (id, Map::empty())),
    ensures
        opened(before, after, name),
{
    if !before.contains_key(name) {
        let id = choose|id: u64| after == before.insert(name, (id, Map::empty()));
        assert(after.contains_key(name));
    }
}

/// `after` is `before` with the pair `key`, `value` written into keyspace `name`,
/// which is created if it was not there.
pub open spec fn inserted(before: Store, after: Store, name: Seq<char>, key: Seq<u8>, value: Seq<u8>) -> bool {
    &&& after.contains_key(name)
    &&& after[name].1 == crate::storage::items_of(before, name).insert(key, value)
    &&& before.contains_key(name) ==> after[name].0 == before[name].0
    &&& others_unchanged(before, after, name)
}

/// `out_after` is `out_before` with `out`'s bytes written, and `code` is its exit code.
pub open spec fn printed(out: CommandOutput, out_before: Seq<u8>, out_after: Seq<u8>, code: u8) -> bool {
    out_after == out_before + out.stdout@ && code == out.exit_code
}

/// Each name on a line of its own, in the order given.
pub open spec fn name_lines(names: Seq<Seq<char>>) -> Seq<u8>
    decreases names.len(),
{
    if names.len() == 0 {
        Seq::empty()
    } else {
        name_lines(names.drop_last()) + vstd::utf8::encode_utf8(names.last()) + seq![0x0au8]
    }
}

/// `names` holds each member of `set` exactly once and nothing else.
pub open spec fn lists_each_once(names: Seq<Seq<char>>, set: Set<Seq<char>>) -> bool {
    &&& forall|i: int| 0 <= i < names.len() ==> set.contains(#[trigger] names[i])
    &&& forall|n: Seq<char>| #[trigger] set.contains(n) ==> exists|i: int| 0 <= i < names.len() && names[i] == n
    &&& forall|i: int, j: int| 0 <= i < j < names.len() ==> #[trigger] names[i] != #[trigger] names[j]
}

/// The texts of a sequence of strings.
pub open spec fn texts(strings: Seq<String>) -> Seq<Seq<char>> {
    strings.map_values(|s: String| s@)
}

/// Writes each name followed by a newline.
pub fn write_name_lines(names: &Vec<String>) -> (out: Vec<u8>)
    ensures
        out@ == name_lines(texts(names@)),
{
    let mut out: Vec<u8> = Vec::new();
    let mut i: usize = 0;
    while i < names.len()
        invariant
            i <= names@.len(),
            out@ == name_lines(texts(names@).take(i as int)),
        decreases names@.len() - i,
    {
        write_bytes(&mut out, names[i].as_str().as_bytes());
        out.push(0x0a);
        proof {
            let t = texts(names@);
            assert(t.take(i + 1).drop_last() =~= t.take(i as int));
            assert(t.take(i + 1).last() == names@[i as int]@);
        }
        i = i + 1;
    }
    proof {
        assert(texts(names@).take(names@.len() as int) =~= texts(names@));
    }
    out
}

} // verus!

pub mod keyspace_command;
pub use keyspace_command::{
    ClearCommand, ClearCommandRunError, DeleteCommand, DeleteCommandRunError, DiskSizeCommand,
    DiskSizeCommandRunError, GetCommand, GetCommandRunError, KeyspaceListCommand,
    KeyspaceListCommandRunError,
};

pub mod clear_command;

pub mod contains_command;
pub use contains_command::{
    ContainsCommand, ContainsCommandDecodeKeyBytesError, ContainsCommandRunError,
};

pub mod get_command;

pub mod insert_command;
pub use insert_command::{InsertCommand, InsertCommandRunError};

pub mod iter_command;
pub use iter_command::{
    IterCommand, IterCommandRunError, IterCommandWriteItemError, IterCommandWriteItemsError,
};

pub mod len_command;
pub use len_command::{LenCommand, LenCommandRunError};

pub mod keyspace_count_command;
pub use keyspace_count_command::{KeyspaceCountCommand, KeyspaceCountCommandRunError};

pub mod list_command;
pub use list_command::{
    ListCommand, ListCommandRunError, ListCommandWriteItemError, ListCommandWriteItemsError,
};

pub mod list_keyspace_names_command;
pub use list_keyspace_names_command::{ListKeyspaceNamesCommand, ListKeyspaceNamesCommandRunError};

pub use keyspace_command::{KeyspaceCommand, KeyspaceCommandRunError, KeyspaceSubcommand};

use crate::bytes::decimal_line;
use crate::storage::{database_keyspaces, is_size_of, same_database};

verus! {

/// The whole command line: the database's path and what to do with it. The program
/// opens the database; the library runs the subcommand on it.
pub struct Command {
    pub db: String,
    pub subcommand: Subcommand,
}

/// The commands of the program.
#[derive(Debug)]
pub enum Subcommand {
    ListKeyspaceNames(ListKeyspaceNamesCommand),
    KeyspaceCount(KeyspaceCountCommand),
    Keyspace(KeyspaceCommand),
}

#[derive(Debug)]
pub enum CommandRunError {
    OpenFailed { source: fjall::Error, path: String },
    RunFailed { source: SubcommandRunError },
}

#[derive(Debug)]
pub enum SubcommandRunError {
    RunListKeyspaceNamesCommandFailed { source: ListKeyspaceNamesCommandRunError },
    RunKeyspaceCountCommandFailed { source: KeyspaceCountCommandRunError },
    RunKeyspaceCommandFailed { source: KeyspaceCommandRunError },
}

impl Subcommand {
    /// What the program must hand over for a database holding `before` (see
    /// `KeyspaceCommand::accepts`).
    pub open spec fn accepts(self, before: Store, files: ArgFiles) -> bool {
        match self {
            Subcommand::Keyspace(c) => c.accepts(before, files),
            _ => true,
        }
    }

    /// What the subcommand may give on a database holding `before`, leaving it
    /// holding `after`, with standard output going from `out_before` to `out_after`;
    /// the result is the exit code.
    pub open spec fn outcome(
        self,
        before: Store,
        after: Store,
        files: ArgFiles,
        out_before: Seq<u8>,
        out_after: Seq<u8>,
        r: Result<u8, SubcommandRunError>,
    ) -> bool {
        match self {
            Subcommand::ListKeyspaceNames(_) => {
                &&& after == before
                &&& r == Ok::<u8, SubcommandRunError>(0)
                &&& exists|names: Seq<Seq<char>>| #![auto]
                    lists_each_once(names, before.dom()) && out_after == out_before + name_lines(names)
            },
            Subcommand::KeyspaceCount(_) => {
                &&& after == before
                &&& is_size_of(before.dom().len(), before.dom())
                &&& r == Ok::<u8, SubcommandRunError>(0)
                &&& out_after == out_before + decimal_line(before.dom().len())
            },
            Subcommand::Keyspace(c) => match r {
                Ok(code) => c.outcome(before, after, files, out_before, out_after, Ok(code)),
                Err(SubcommandRunError::RunKeyspaceCommandFailed { source }) => c.outcome(
                    before,
                    after,
                    files,
                    out_before,
                    out_after,
                    Err(source),
                ),
                Err(_) => false,
            },
        }
    }

    /// Runs the subcommand on the database, writing its output to `stdout`; the
    /// result is the exit code.
    pub fn run(self, db: &mut fjall::Database, files: ArgFiles, stdout: &mut Vec<u8>) -> (r: Result<
        u8,
        SubcommandRunError,
    >)
        requires
            self.accepts(database_keyspaces(*old(db)), files),
        ensures
            same_database(*old(db), *final(db)),
            self.outcome(
                database_keyspaces(*old(db)),
                database_keyspaces(*final(db)),
                files,
                old(stdout)@,
                final(stdout)@,
                r,
            ),
    {
        match self {
            Subcommand::ListKeyspaceNames(command) => {
                let out = command.run(db);
                write_bytes(stdout, out.stdout.as_slice());
                Ok(0)
            },
            Subcommand::KeyspaceCount(command) => {
                let out = command.run(db);
                write_bytes(stdout, out.stdout.as_slice());
                Ok(0)
            },
            Subcommand::Keyspace(command) => match command.run(db, files, stdout) {
                Ok(code) => Ok(code),
                Err(source) => Err(SubcommandRunError::RunKeyspaceCommandFailed { source }),
            },
        }
    }
}

} // verus!
