use crate::command::Store;
use crate::storage::{
    database_keyspaces, guard_entry, guard_into_inner, guard_key, handle_items, is_current,
    items_of, iter_next, iter_state, keyspace_exists, keyspace_iter, open_keyspace,
    ordered_entries, same_database,
};
use crate::types::output_affixes::OutputAffixes;
use crate::types::output_kind::{OutputKind, OutputKindWriteError};
use crate::types::prefix_kind::PrefixKind;
use crate::types::suffix::Suffix;
use vstd::prelude::*;

verus! {

/// The bytes written for each pair of `entries`, in order.
pub open spec fn rendered_all(
    kind: OutputKind,
    entries: Seq<(Seq<u8>, Seq<u8>)>,
    affixes: OutputAffixes,
) -> Seq<u8>
    decreases entries.len(),
{
    if entries.len() == 0 {
        Seq::empty()
    } else {
        rendered_all(kind, entries.drop_last(), affixes) + kind.rendered(
            entries.last().0,
            entries.last().1,
            affixes,
        )
    }
}

/// The part of `entries` that skipping `offset` pairs and then taking at most
/// `limit` pairs leaves.
pub open spec fn window(entries: Seq<(Seq<u8>, Seq<u8>)>, offset: nat, limit: Option<usize>) -> Seq<
    (Seq<u8>, Seq<u8>),
> {
    let rest = if offset <= entries.len() {
        entries.subrange(offset as int, entries.len() as int)
    } else {
        Seq::empty()
    };
    match limit {
        Some(l) => if l <= rest.len() {
            rest.subrange(0, l as int)
        } else {
            rest
        },
        None => rest,
    }
}

/// Writes a window of a keyspace's pairs, in key order, each rendered with the
/// given kind and affixes.
#[derive(Debug)]
pub struct IterCommand {
    pub kind: OutputKind,
    pub item_prefix: Option<PrefixKind>,
    pub item_suffix: Option<Suffix>,
    pub key_prefix: Option<PrefixKind>,
    pub key_suffix: Option<Suffix>,
    pub value_prefix: Option<PrefixKind>,
    pub value_suffix: Option<Suffix>,
    pub offset: usize,
    pub limit: Option<usize>,
}

#[derive(Debug)]
#[allow(inconsistent_fields)]
pub enum IterCommandRunError {
    KeyspaceNotFound { keyspace: String },
    KeyspaceFailed { source: fjall::Error, keyspace: String },
    WriteItemsFailed { source: IterCommandWriteItemsError, keyspace: String },
}

#[derive(Debug)]
pub enum IterCommandWriteItemsError {
    WriteItemFailed { source: IterCommandWriteItemError },
}

#[derive(Debug)]
#[allow(inconsistent_fields)]
pub enum IterCommandWriteItemError {
    IntoInnerFailed { source: fjall::Error },
    WriteFailed { source: OutputKindWriteError },
}

impl IterCommand {
    /// The affixes that the command's options give.
    pub open spec fn affixes(self) -> OutputAffixes {
        OutputAffixes {
            item_prefix: self.item_prefix,
            item_suffix: self.item_suffix,
            key_prefix: self.key_prefix,
            key_suffix: self.key_suffix,
            value_prefix: self.value_prefix,
            value_suffix: self.value_suffix,
        }
    }

    /// The window of keyspace `name`'s pairs, in key order, that the command writes.
    pub open spec fn window_of(self, store: Store, name: Seq<char>) -> Seq<(Seq<u8>, Seq<u8>)> {
        window(ordered_entries(items_of(store, name)), self.offset as nat, self.limit)
    }

    /// What iterating keyspace `name` of a database holding `before` may give,
    /// leaving it holding `after`, with standard output going from `out_before` to
    /// `out_after`. Pairs are written as they are read, so a failed read leaves the
    /// pairs before it written. With a limit of zero on a keyspace that exists nothing
    /// is read, so the command succeeds.
    pub open spec fn outcome(
        self,
        before: Store,
        after: Store,
        name: Seq<char>,
        out_before: Seq<u8>,
        out_after: Seq<u8>,
        r: Result<(), IterCommandRunError>,
    ) -> bool {
        let w = self.window_of(before, name);
        &&& after == before
        &&& (self.limit == Some(0usize) && before.contains_key(name) ==> r is Ok)
        &&& match r {
            Ok(()) => {
                &&& before.contains_key(name)
                &&& out_after == out_before + rendered_all(self.kind, w, self.affixes())
            },
            Err(IterCommandRunError::KeyspaceNotFound { keyspace }) => {
                &&& !before.contains_key(name)
                &&& keyspace@ == name
                &&& out_after == out_before
            },
            Err(IterCommandRunError::WriteItemsFailed { keyspace, .. }) => {
                &&& before.contains_key(name)
                &&& keyspace@ == name
                &&& exists|n: int|
                    0 <= n <= w.len() && out_after == out_before + rendered_all(
                        self.kind,
                        #[trigger] w.take(n),
                        self.affixes(),
                    )
            },
            Err(IterCommandRunError::KeyspaceFailed { .. }) => false,
        }
    }

    /// Writes the window of keyspace `keyspace` to `stdout`.
    pub fn run(self, db: &mut fjall::Database, keyspace: &str, stdout: &mut Vec<u8>) -> (r: Result<
        (),
        IterCommandRunError,
    >)
        ensures
            same_database(*old(db), *final(db)),
            self.outcome(
                database_keyspaces(*old(db)),
                database_keyspaces(*final(db)),
                keyspace@,
                old(stdout)@,
                final(stdout)@,
                r,
            ),
    {
        let ghost this = self;
        let IterCommand {
            kind,
            item_prefix,
            item_suffix,
            key_prefix,
            key_suffix,
            value_prefix,
            value_suffix,
            offset,
            limit,
        } = self;
        let affixes = OutputAffixes {
            item_prefix,
            item_suffix,
            key_prefix,
            key_suffix,
            value_prefix,
            value_suffix,
        };
        assert(affixes == this.affixes());
        if !keyspace_exists(db, keyspace) {
            return Err(IterCommandRunError::KeyspaceNotFound { keyspace: keyspace.to_owned() });
        }
        let ks = match open_keyspace(db, keyspace) {
            Ok(ks) => ks,
            Err(source) => {
                return Err(IterCommandRunError::KeyspaceFailed { source, keyspace: keyspace.to_owned() });
            },
        };
        let ghost w = this.window_of(database_keyspaces(*old(db)), keyspace@);
        assert(handle_items(*db, ks) == items_of(database_keyspaces(*old(db)), keyspace@));
        assert(window(ordered_entries(handle_items(*db, ks)), offset as nat, limit) == w);
        match Self::write_items(stdout, db, &ks, &kind, &affixes, offset, limit) {
            Ok(()) => Ok(()),
            Err(source) => Err(
                IterCommandRunError::WriteItemsFailed { source, keyspace: keyspace.to_owned() },
            ),
        }
    }

    /// Appends the window of the keyspace's pairs, in key order, to `writer`. The
    /// pairs before the window are read by key only; a read failure there, as one
    /// within the window, ends the iteration with an error.
    pub fn write_items(
        writer: &mut Vec<u8>,
        db: &fjall::Database,
        keyspace: &fjall::Keyspace,
        kind: &OutputKind,
        affixes: &OutputAffixes,
        offset: usize,
        limit: Option<usize>,
    ) -> (r: Result<(), IterCommandWriteItemsError>)
        requires
            is_current(*db, *keyspace),
        ensures
            ({
                let w = window(ordered_entries(handle_items(*db, *keyspace)), offset as nat, limit);
                match r {
                    Ok(()) => final(writer)@ == old(writer)@ + rendered_all(*kind, w, *affixes),
                    Err(
                        IterCommandWriteItemsError::WriteItemFailed {
                            source: IterCommandWriteItemError::IntoInnerFailed { .. },
                        },
                    ) => exists|n: int|
                        0 <= n <= w.len() && final(writer)@ == old(writer)@ + rendered_all(
                            *kind,
                            #[trigger] w.take(n),
                            *affixes,
                        ),
                    Err(_) => false,
                }
            }),
            limit == Some(0usize) ==> r is Ok,
    {
        let ghost start = writer@;
        if let Some(l) = limit {
            if l == 0 {
                proof {
                    let w = window(ordered_entries(handle_items(*db, *keyspace)), offset as nat, limit);
                    assert(w.len() == 0);
                    assert(writer@ =~= start + rendered_all(*kind, w, *affixes));
                }
                return Ok(());
            }
        }
        let mut it = keyspace_iter(db, keyspace);
        let ghost all = iter_state(it).1;
        assert(all == ordered_entries(handle_items(*db, *keyspace)));
        let mut skipped: usize = 0;
        assert(all.subrange(0, all.len() as int) =~= all);
        while skipped < offset
            invariant
                skipped <= offset,
                skipped <= all.len(),
                limit != Some(0usize),
                iter_state(it).0,
                iter_state(it).1 == all.subrange(skipped as int, all.len() as int),
                writer@ == start,
                start == old(writer)@,
                all == ordered_entries(handle_items(*db, *keyspace)),
            decreases offset - skipped,
        {
            match iter_next(&mut it) {
                None => {
                    proof {
                        let w = window(all, offset as nat, limit);
                        assert(w.len() == 0);
                        assert(writer@ =~= start + rendered_all(*kind, w, *affixes));
                    }
                    return Ok(());
                },
                Some(guard) => {
                    match guard_key(guard) {
                        Ok(_) => {
                            proof {
                                assert(all.subrange(skipped as int, all.len() as int).drop_first()
                                    =~= all.subrange(skipped + 1, all.len() as int));
                            }
                            skipped = skipped + 1;
                        },
                        Err(source) => {
                            proof {
                                let w = window(all, offset as nat, limit);
                                assert(w.take(0) =~= Seq::<(Seq<u8>, Seq<u8>)>::empty());
                                assert(writer@ =~= start + rendered_all(*kind, w.take(0), *affixes));
                            }
                            return Err(
                                IterCommandWriteItemsError::WriteItemFailed {
                                    source: IterCommandWriteItemError::IntoInnerFailed { source },
                                },
                            );
                        },
                    }
                },
            }
        }
        let mut left: Option<usize> = limit;
        let ghost mut done: nat = 0;
        loop
            invariant
                skipped == offset,
                start == old(writer)@,
                all == ordered_entries(handle_items(*db, *keyspace)),
                offset + done <= all.len(),
                iter_state(it).0,
                iter_state(it).1 == all.subrange(offset + done, all.len() as int),
                match limit {
                    Some(l) => left matches Some(m) && m + done == l,
                    None => left is None,
                },
                writer@ == start + rendered_all(*kind, 
                    all.subrange(offset as int, offset + done),
                    *affixes,
                ),
            decreases all.len() - done,
        {
            if let Some(m) = left {
                if m == 0 {
                    proof {
                        let w = window(all, offset as nat, limit);
                        assert(w =~= all.subrange(offset as int, offset + done));
                    }
                    return Ok(());
                }
            }
            match iter_next(&mut it) {
                None => {
                    proof {
                        let w = window(all, offset as nat, limit);
                        assert(w =~= all.subrange(offset as int, offset + done));
                    }
                    return Ok(());
                },
                Some(guard) => {
                    let ghost entry = guard_entry(guard);
                    match Self::write_item(writer, kind, affixes, guard) {
                        Ok(()) => {},
                        Err(source) => {
                            proof {
                                let w = window(all, offset as nat, limit);
                                assert(done <= w.len());
                                assert(w.take(done as int) =~= all.subrange(offset as int, offset + done));
                            }
                            return Err(IterCommandWriteItemsError::WriteItemFailed { source });
                        },
                    }
                    proof {
                        let s = all.subrange(offset as int, offset + done + 1);
                        assert(s.drop_last() =~= all.subrange(offset as int, offset + done));
                        assert(s.last() == all[offset + done]);
                        assert(all.subrange(offset + done, all.len() as int).drop_first()
                            =~= all.subrange(offset + done + 1, all.len() as int));
                        done = done + 1;
                    }
                    if let Some(m) = left {
                        left = Some(m - 1);
                    }
                },
            }
        }
    }

    /// Appends one pair, rendered with the given kind and affixes, to `writer`.
    pub fn write_item(writer: &mut Vec<u8>, kind: &OutputKind, affixes: &OutputAffixes, guard: fjall::Guard) -> (r: Result<
        (),
        IterCommandWriteItemError,
    >)
        ensures
            match r {
                Ok(()) => guard_entry(guard) matches Some(e) && final(writer)@ == old(writer)@
                    + kind.rendered(e.0, e.1, *affixes),
                Err(IterCommandWriteItemError::IntoInnerFailed { .. }) => final(writer)@ == old(
                    writer,
                )@,
                Err(IterCommandWriteItemError::WriteFailed { .. }) => false,
            },
    {
        let (key, value) = match guard_into_inner(guard) {
            Ok(pair) => pair,
            Err(source) => {
                return Err(IterCommandWriteItemError::IntoInnerFailed { source });
            },
        };
        kind.write(writer, key.as_slice(), value.as_slice(), affixes);
        Ok(())
    }
}

} // verus!
