use crate::command::{lists_each_once, name_lines, texts, write_name_lines, CommandOutput};
use crate::storage::{database_keyspaces, list_keyspace_names};
use vstd::prelude::*;

verus! {

/// Prints the name of each keyspace on a line of its own.
#[derive(Debug)]
pub struct ListKeyspaceNamesCommand {}

#[derive(Debug)]
pub enum ListKeyspaceNamesCommandRunError {
    WriteFailed { source: std::io::Error },
}

impl ListKeyspaceNamesCommand {
    /// Lists the keyspace names, each once, in the order the database hands them out.
    pub fn run(self, db: &fjall::Database) -> (out: CommandOutput)
        ensures
            exists|names: Seq<Seq<char>>| #![auto]
                lists_each_once(names, database_keyspaces(*db).dom()) && out.stdout@ == name_lines(names),
            out.exit_code == 0,
    {
        let names = list_keyspace_names(db);
        let stdout = write_name_lines(&names);
        proof {
            let t = texts(names@);
            assert forall|i: int| 0 <= i < t.len() implies database_keyspaces(*db).dom().contains(#[trigger] t[i]) by {
                assert(t[i] == names@[i]@);
            }
            assert forall|n: Seq<char>| #[trigger] database_keyspaces(*db).dom().contains(n) implies exists|i: int| 0 <= i < t.len() && t[i] == n by {
                assert(database_keyspaces(*db).contains_key(n));
                let i = choose|i: int| 0 <= i < names@.len() && names@[i]@ == n;
                assert(t[i] == n);
            }
            assert forall|i: int, j: int| 0 <= i < j < t.len() implies #[trigger] t[i] != #[trigger] t[j] by {
                assert(t[i] == names@[i]@);
                assert(t[j] == names@[j]@);
            }
            assert(lists_each_once(t, database_keyspaces(*db).dom()));
        }
        CommandOutput { stdout, exit_code: 0 }
    }
}

} // verus!
