use crate::command::Store;
use crate::storage::{
    database_keyspaces, guard_entry, guard_into_inner, handle_items, is_current, items_of,
    iter_next, iter_state, keyspace_exists, keyspace_iter, open_keyspace, ordered_entries,
    same_database,
};
use crate::types::output_kind::{OutputKind, OutputKindWriteError};
use crate::types::separator::Separator;
use vstd::prelude::*;

verus! {

/// The listing of each pair of `entries`, in order.
pub open spec fn listed_all(
    kind: OutputKind,
    entries: Seq<(Seq<u8>, Seq<u8>)>,
    key_value_separator: Seq<u8>,
    item_separator: Seq<u8>,
) -> Seq<u8>
    decreases entries.len(),
{
    if entries.len() == 0 {
        Seq::empty()
    } else {
        listed_all(kind, entries.drop_last(), key_value_separator, item_separator) + kind.listed(
            entries.last().0,
            entries.last().1,
            key_value_separator,
            item_separator,
        )
    }
}

/// Lists every pair of a keyspace in key order: the key and the value around the
/// key-value separator (or only one of them), and the item separator after each.
#[derive(Debug)]
pub struct ListCommand {
    pub keyspace: String,
    pub key_value_separator: Separator,
    pub item_separator: Separator,
    pub kind: OutputKind,
}

#[derive(Debug)]
#[allow(inconsistent_fields)]
pub enum ListCommandRunError {
    KeyspaceNotFound { keyspace: String },
    KeyspaceFailed { source: fjall::Error, keyspace: String },
    WriteItemsFailed { source: ListCommandWriteItemsError, keyspace: String },
}

#[derive(Debug)]
pub enum ListCommandWriteItemsError {
    WriteItemFailed { source: ListCommandWriteItemError },
}

#[derive(Debug)]
#[allow(inconsistent_fields)]
pub enum ListCommandWriteItemError {
    IntoInnerFailed { source: fjall::Error },
    WriteFailed { source: OutputKindWriteError },
    WriteAllFailed { source: std::io::Error },
}

impl ListCommand {
    /// What listing the keyspace of a database holding `before` may give, leaving it
    /// holding `after`, with standard output going from `out_before` to `out_after`.
    /// Pairs are written as they are read, so a failed read leaves the pairs before
    /// it written.
    pub open spec fn outcome(
        self,
        before: Store,
        after: Store,
        out_before: Seq<u8>,
        out_after: Seq<u8>,
        r: Result<(), ListCommandRunError>,
    ) -> bool {
        let name = self.keyspace@;
        let entries = ordered_entries(items_of(before, name));
        &&& after == before
        &&& match r {
            Ok(()) => {
                &&& before.contains_key(name)
                &&& out_after == out_before + listed_all(
                    self.kind,
                    entries,
                    self.key_value_separator@,
                    self.item_separator@,
                )
            },
            Err(ListCommandRunError::KeyspaceNotFound { keyspace }) => {
                &&& !before.contains_key(name)
                &&& keyspace@ == name
                &&& out_after == out_before
            },
            Err(ListCommandRunError::WriteItemsFailed { keyspace, .. }) => {
                &&& before.contains_key(name)
                &&& keyspace@ == name
                &&& exists|n: int|
                    0 <= n <= entries.len() && out_after == out_before + listed_all(
                        self.kind,
                        #[trigger] entries.take(n),
                        self.key_value_separator@,
                        self.item_separator@,
                    )
            },
            Err(ListCommandRunError::KeyspaceFailed { .. }) => false,
        }
    }

    /// Lists the keyspace to `stdout`.
    pub fn run(self, db: &mut fjall::Database, stdout: &mut Vec<u8>) -> (r: Result<(), ListCommandRunError>)
        ensures
            same_database(*old(db), *final(db)),
            self.outcome(
                database_keyspaces(*old(db)),
                database_keyspaces(*final(db)),
                old(stdout)@,
                final(stdout)@,
                r,
            ),
    {
        let ghost this = self;
        let ListCommand { keyspace, key_value_separator, item_separator, kind } = self;
        if !keyspace_exists(db, keyspace.as_str()) {
            return Err(ListCommandRunError::KeyspaceNotFound { keyspace });
        }
        let ks = match open_keyspace(db, keyspace.as_str()) {
            Ok(ks) => ks,
            Err(source) => {
                return Err(ListCommandRunError::KeyspaceFailed { source, keyspace });
            },
        };
        assert(handle_items(*db, ks) == items_of(database_keyspaces(*old(db)), keyspace@));
        match Self::write_items(stdout, db, &ks, &kind, &key_value_separator, &item_separator) {
            Ok(()) => Ok(()),
            Err(source) => Err(ListCommandRunError::WriteItemsFailed { source, keyspace }),
        }
    }

    /// Appends the listing of every pair of the keyspace, in key order, to `writer`.
    pub fn write_items(
        writer: &mut Vec<u8>,
        db: &fjall::Database,
        keyspace: &fjall::Keyspace,
        kind: &OutputKind,
        key_value_separator: &Separator,
        item_separator: &Separator,
    ) -> (r: Result<(), ListCommandWriteItemsError>)
        requires
            is_current(*db, *keyspace),
        ensures
            ({
                let entries = ordered_entries(handle_items(*db, *keyspace));
                match r {
                    Ok(()) => final(writer)@ == old(writer)@ + listed_all(
                        *kind,
                        entries,
                        key_value_separator@,
                        item_separator@,
                    ),
                    Err(
                        ListCommandWriteItemsError::WriteItemFailed {
                            source: ListCommandWriteItemError::IntoInnerFailed { .. },
                        },
                    ) => exists|n: int|
                        0 <= n <= entries.len() && final(writer)@ == old(writer)@ + listed_all(
                            *kind,
                            #[trigger] entries.take(n),
                            key_value_separator@,
                            item_separator@,
                        ),
                    Err(_) => false,
                }
            }),
    {
        let ghost start = writer@;
        let mut it = keyspace_iter(db, keyspace);
        let ghost all = iter_state(it).1;
        let ghost mut done: nat = 0;
        assert(all.subrange(0, all.len() as int) =~= all);
        assert(all.subrange(0, 0) =~= Seq::<(Seq<u8>, Seq<u8>)>::empty());
        loop
            invariant
                start == old(writer)@,
                all == ordered_entries(handle_items(*db, *keyspace)),
                done <= all.len(),
                iter_state(it).0,
                iter_state(it).1 == all.subrange(done as int, all.len() as int),
                writer@ == start + listed_all(
                    *kind,
                    all.subrange(0, done as int),
                    key_value_separator@,
                    item_separator@,
                ),
            decreases all.len() - done,
        {
            match iter_next(&mut it) {
                None => {
                    proof {
                        assert(all.subrange(0, done as int) =~= all);
                    }
                    return Ok(());
                },
                Some(guard) => {
                    match Self::write_item(writer, kind, key_value_separator, item_separator, guard) {
                        Ok(()) => {},
                        Err(source) => {
                            proof {
                                assert(all.take(done as int) =~= all.subrange(0, done as int));
                            }
                            return Err(ListCommandWriteItemsError::WriteItemFailed { source });
                        },
                    }
                    proof {
                        let s = all.subrange(0, done as int + 1);
                        assert(s.drop_last() =~= all.subrange(0, done as int));
                        assert(s.last() == all[done as int]);
                        assert(all.subrange(done as int, all.len() as int).drop_first()
                            =~= all.subrange(done as int + 1, all.len() as int));
                        done = done + 1;
                    }
                },
            }
        }
    }

    /// Appends the listing of one pair to `writer`.
    pub fn write_item(
        writer: &mut Vec<u8>,
        kind: &OutputKind,
        key_value_separator: &Separator,
        item_separator: &Separator,
        guard: fjall::Guard,
    ) -> (r: Result<(), ListCommandWriteItemError>)
        ensures
            match r {
                Ok(()) => guard_entry(guard) matches Some(e) && final(writer)@ == old(writer)@
                    + kind.listed(e.0, e.1, key_value_separator@, item_separator@),
                Err(ListCommandWriteItemError::IntoInnerFailed { .. }) => final(writer)@ == old(
                    writer,
                )@,
                Err(_) => false,
            },
    {
        let (key, value) = match guard_into_inner(guard) {
            Ok(pair) => pair,
            Err(source) => {
                return Err(ListCommandWriteItemError::IntoInnerFailed { source });
            },
        };
        kind.write_listed(
            writer,
            key.as_slice(),
            value.as_slice(),
            key_value_separator.as_bytes(),
            item_separator.as_bytes(),
        );
        Ok(())
    }
}

} // verus!
