//! The fjall database as the library sees it, and the calls into `fjall` that
//! read and change it.
//!
//! A database is modelled by `database_keyspaces`: each keyspace name maps to the
//! keyspace's id and the key-value pairs it holds. Every call that can change what
//! the database holds takes the database by `&mut`, so the model follows each change.
//! A keyspace handle names the database (by its path), the keyspace and its id, and
//! the calls through a handle require that it still is the database's keyspace of
//! that name.
use vstd::prelude::*;
use vstd::string::StringSliceAdditionalSpecFns;

verus! {

#[verifier::external_type_specification]
#[verifier::external_body]
pub struct ExDatabase(fjall::Database);

#[verifier::external_type_specification]
#[verifier::external_body]
pub struct ExKeyspace(fjall::Keyspace);

#[verifier::external_type_specification]
#[verifier::external_body]
pub struct ExIter(fjall::Iter);

#[verifier::external_type_specification]
#[verifier::external_body]
pub struct ExGuard(fjall::Guard);

#[verifier::external_type_specification]
#[verifier::external_body]
pub struct ExFjallError(fjall::Error);

/// The keyspaces of a database: for each name, the keyspace's id and its pairs.
pub uninterp spec fn database_keyspaces(db: fjall::Database) -> Map<Seq<char>, (u64, Map<Seq<u8>, Seq<u8>>)>;

/// The absolute path that the database was opened at.
pub uninterp spec fn database_path(db: fjall::Database) -> Seq<char>;

/// The id that the database gives the next keyspace it creates; ids only grow.
pub uninterp spec fn database_next_id(db: fjall::Database) -> u64;

/// A handle's database path, keyspace name and keyspace id.
pub uninterp spec fn keyspace_handle(ks: fjall::Keyspace) -> (Seq<char>, Seq<char>, u64);

/// Whether an iterator has yielded no read failure yet, and the pairs it has still
/// to yield while none occurs.
pub uninterp spec fn iter_state(it: fjall::Iter) -> (bool, Seq<(Seq<u8>, Seq<u8>)>);

/// The pair that a guard stands for, or `None` when it carries a read failure.
pub uninterp spec fn guard_entry(g: fjall::Guard) -> Option<(Seq<u8>, Seq<u8>)>;

/// A name that fjall accepts for a keyspace: 1 to 255 bytes long.
pub open spec fn valid_keyspace_name(name: Seq<char>) -> bool {
    0 < vstd::utf8::encode_utf8(name).len() <= 255
}

/// A key that fjall can store: 1 to 65535 bytes long (lsm-tree asserts both bounds
/// when it builds the entry).
pub open spec fn storable_key(key: Seq<u8>) -> bool {
    1 <= key.len() <= 65535
}

/// A key that fjall can look up: at most 65535 bytes long (lsm-tree asserts this
/// when it builds the search key).
pub open spec fn readable_key(key: Seq<u8>) -> bool {
    key.len() <= 65535
}

/// A value that fjall can store: at most `u32::MAX` bytes long.
pub open spec fn storable_value(value: Seq<u8>) -> bool {
    value.len() <= u32::MAX
}

/// `s` is finite and has `n` members.
pub open spec fn is_size_of<A>(n: nat, s: Set<A>) -> bool {
    s.finite() && s.len() == n
}

/// The pairs of the keyspace `name`, or none when there is no such keyspace.
pub open spec fn items_of(store: Map<Seq<char>, (u64, Map<Seq<u8>, Seq<u8>>)>, name: Seq<char>) -> Map<
    Seq<u8>,
    Seq<u8>,
> {
    if store.contains_key(name) {
        store[name].1
    } else {
        Map::empty()
    }
}

/// `ks` is the handle of the keyspace that `db` holds under the handle's name.
pub open spec fn is_current(db: fjall::Database, ks: fjall::Keyspace) -> bool {
    let (path, name, id) = keyspace_handle(ks);
    &&& path == database_path(db)
    &&& database_keyspaces(db).contains_key(name)
    &&& database_keyspaces(db)[name].0 == id
    &&& id < database_next_id(db)
}

/// The pairs that the keyspace behind `ks` holds.
pub open spec fn handle_items(db: fjall::Database, ks: fjall::Keyspace) -> Map<Seq<u8>, Seq<u8>> {
    database_keyspaces(db)[keyspace_handle(ks).1].1
}

/// `db2` is `db1` after a call: the same database, and no id given back.
pub open spec fn same_database(db1: fjall::Database, db2: fjall::Database) -> bool {
    &&& database_path(db2) == database_path(db1)
    &&& database_next_id(db2) >= database_next_id(db1)
}

/// Byte strings in lexicographic order, a proper prefix first.
pub open spec fn lex_lt(a: Seq<u8>, b: Seq<u8>) -> bool
    decreases a.len(),
{
    if a.len() == 0 {
        b.len() > 0
    } else if b.len() == 0 {
        false
    } else if a[0] != b[0] {
        a[0] < b[0]
    } else {
        lex_lt(a.subrange(1, a.len() as int), b.subrange(1, b.len() as int))
    }
}

/// `s` lists the pairs of `m`, each once, by increasing key.
pub open spec fn lists_in_order(s: Seq<(Seq<u8>, Seq<u8>)>, m: Map<Seq<u8>, Seq<u8>>) -> bool {
    &&& forall|i: int, j: int| 0 <= i < j < s.len() ==> lex_lt(#[trigger] s[i].0, #[trigger] s[j].0)
    &&& forall|i: int| 0 <= i < s.len() ==> m.contains_key(#[trigger] s[i].0) && m[s[i].0] == s[i].1
    &&& forall|k: Seq<u8>| #[trigger] m.contains_key(k) ==> exists|i: int| 0 <= i < s.len() && s[i].0 == k
}

/// The pairs of `m` by increasing key.
pub open spec fn ordered_entries(m: Map<Seq<u8>, Seq<u8>>) -> Seq<(Seq<u8>, Seq<u8>)> {
    choose|s: Seq<(Seq<u8>, Seq<u8>)>| lists_in_order(s, m)
}

/// Calls `Database::keyspace_exists`, which looks the name up in the database's
/// dictionary of keyspaces. Only names that `Database::keyspace` accepted ever enter it.
#[verifier::external_body]
pub(crate) fn keyspace_exists(db: &fjall::Database, name: &str) -> (b: bool)
    ensures
        b == database_keyspaces(*db).contains_key(name@),
        b ==> valid_keyspace_name(name@),
{
    db.keyspace_exists(name)
}

/// Calls `Database::keyspace_count`, the size of the dictionary of keyspaces.
#[verifier::external_body]
pub(crate) fn keyspace_count(db: &fjall::Database) -> (count: usize)
    ensures
        is_size_of(count as nat, database_keyspaces(*db).dom()),
{
    db.keyspace_count()
}

/// Calls `Database::list_keyspace_names`, which collects the keys of the dictionary
/// of keyspaces (a hash map, so in no stated order), each turned into a `String`.
#[verifier::external_body]
pub(crate) fn list_keyspace_names(db: &fjall::Database) -> (names: Vec<String>)
    ensures
        forall|i: int| 0 <= i < names@.len() ==> database_keyspaces(*db).contains_key(#[trigger] names@[i]@),
        forall|n: Seq<char>| #[trigger] database_keyspaces(*db).contains_key(n)
            ==> exists|i: int| 0 <= i < names@.len() && names@[i]@ == n,
        forall|i: int, j: int| 0 <= i < j < names@.len() ==> #[trigger] names@[i]@ != #[trigger] names@[j]@,
{
    db.list_keyspace_names().iter().map(|name| name.to_string()).collect()
}

/// Calls `Database::keyspace` with default options. The source hands back the
/// existing keyspace of that name, or creates an empty one under a freshly
/// allocated id and enters it into the dictionary only once its creation is written.
/// It asserts (panics) on an invalid name.
#[verifier::external_body]
pub(crate) fn open_keyspace(db: &mut fjall::Database, name: &str) -> (r: Result<fjall::Keyspace, fjall::Error>)
    requires
        valid_keyspace_name(name@),
    ensures
        same_database(*old(db), *final(db)),
        database_keyspaces(*old(db)).contains_key(name@) ==> r is Ok && database_keyspaces(*final(db))
            == database_keyspaces(*old(db)),
        match r {
            Ok(ks) => {
                let id = keyspace_handle(ks).2;
                &&& keyspace_handle(ks).0 == database_path(*final(db))
                &&& keyspace_handle(ks).1 == name@
                &&& id < database_next_id(*final(db))
                &&& if database_keyspaces(*old(db)).contains_key(name@) {
                    id == database_keyspaces(*old(db))[name@].0
                } else {
                    &&& id >= database_next_id(*old(db))
                    &&& database_keyspaces(*final(db)) == database_keyspaces(*old(db)).insert(
                        name@,
                        (id, Map::empty()),
                    )
                }
            },
            Err(_) => database_keyspaces(*final(db)) == database_keyspaces(*old(db)),
        },
{
    db.keyspace(name, fjall::KeyspaceCreateOptions::default)
}

/// Calls `Keyspace::insert`, which writes the pair to the journal and then to the
/// keyspace's memtable; a later read sees it. Every error it returns comes before the
/// memtable write, so a failed insert leaves what reads see unchanged. lsm-tree
/// asserts (panics) on an empty key, a key over 65535 bytes or a value over
/// `u32::MAX` bytes.
#[verifier::external_body]
pub(crate) fn keyspace_insert(db: &mut fjall::Database, ks: &fjall::Keyspace, key: Vec<u8>, value: Vec<u8>) -> (r: Result<(), fjall::Error>)
    requires
        is_current(*old(db), *ks),
        storable_key(key@),
        storable_value(value@),
    ensures
        same_database(*old(db), *final(db)),
        r is Ok ==> database_keyspaces(*final(db)) == database_keyspaces(*old(db)).insert(
            keyspace_handle(*ks).1,
            (keyspace_handle(*ks).2, handle_items(*old(db), *ks).insert(key@, value@)),
        ),
        r is Err ==> database_keyspaces(*final(db)) == database_keyspaces(*old(db)),
{
    ks.insert(key, value)
}

/// Calls `Keyspace::clear`, which drops every pair of the keyspace.
#[verifier::external_body]
pub(crate) fn keyspace_clear(db: &mut fjall::Database, ks: &fjall::Keyspace) -> (r: Result<(), fjall::Error>)
    requires
        is_current(*old(db), *ks),
    ensures
        same_database(*old(db), *final(db)),
        r is Ok ==> database_keyspaces(*final(db)) == database_keyspaces(*old(db)).insert(
            keyspace_handle(*ks).1,
            (keyspace_handle(*ks).2, Map::empty()),
        ),
{
    ks.clear()
}

/// Calls `Database::delete_keyspace`, which removes the keyspace from the dictionary.
#[verifier::external_body]
pub(crate) fn delete_keyspace(db: &mut fjall::Database, ks: fjall::Keyspace) -> (r: Result<(), fjall::Error>)
    requires
        is_current(*old(db), ks),
    ensures
        same_database(*old(db), *final(db)),
        r is Ok ==> database_keyspaces(*final(db)) == database_keyspaces(*old(db)).remove(
            keyspace_handle(ks).1,
        ),
{
    db.delete_keyspace(ks)
}

/// Calls `Keyspace::get`; an answer gives the value the keyspace holds for the key.
/// lsm-tree asserts (panics) on a key over 65535 bytes.
#[verifier::external_body]
pub(crate) fn keyspace_get(db: &fjall::Database, ks: &fjall::Keyspace, key: &[u8]) -> (r: Result<Option<Vec<u8>>, fjall::Error>)
    requires
        is_current(*db, *ks),
        readable_key(key@),
    ensures
        match r {
            Ok(Some(v)) => handle_items(*db, *ks).contains_key(key@) && handle_items(*db, *ks)[key@] == v@,
            Ok(None) => !handle_items(*db, *ks).contains_key(key@),
            Err(_) => true,
        },
{
    match ks.get(key) {
        Ok(Some(v)) => Ok(Some(v.to_vec())),
        Ok(None) => Ok(None),
        Err(e) => Err(e),
    }
}

/// Calls `Keyspace::contains_key`; an answer tells whether the keyspace holds the key.
/// It looks the key up as `get` does, so it panics on a key over 65535 bytes.
#[verifier::external_body]
pub(crate) fn keyspace_contains_key(db: &fjall::Database, ks: &fjall::Keyspace, key: &[u8]) -> (r: Result<bool, fjall::Error>)
    requires
        is_current(*db, *ks),
        readable_key(key@),
    ensures
        r matches Ok(b) ==> b == handle_items(*db, *ks).contains_key(key@),
{
    ks.contains_key(key)
}

/// Calls `Keyspace::len`, which counts the pairs by iterating over them and fails
/// on the first read failure.
#[verifier::external_body]
pub(crate) fn keyspace_len(db: &fjall::Database, ks: &fjall::Keyspace) -> (r: Result<usize, fjall::Error>)
    requires
        is_current(*db, *ks),
    ensures
        r matches Ok(n) ==> is_size_of(n as nat, handle_items(*db, *ks).dom()),
{
    ks.len()
}

/// Calls `Keyspace::iter`, which opens a snapshot and walks its pairs by increasing key.
#[verifier::external_body]
pub(crate) fn keyspace_iter(db: &fjall::Database, ks: &fjall::Keyspace) -> (it: fjall::Iter)
    requires
        is_current(*db, *ks),
    ensures
        iter_state(it).0,
        iter_state(it).1 == ordered_entries(handle_items(*db, *ks)),
{
    ks.iter()
}

/// Calls `Iterator::next` on a keyspace iterator. Until a guard that carries a read
/// failure comes out, the iterator yields the snapshot's pairs in order and ends
/// after the last one; after such a guard nothing is stated.
#[verifier::external_body]
pub(crate) fn iter_next(it: &mut fjall::Iter) -> (r: Option<fjall::Guard>)
    ensures
        iter_state(*old(it)).0 ==> match r {
            None => iter_state(*old(it)).1.len() == 0,
            Some(g) => guard_entry(g) matches Some(e) ==> {
                &&& iter_state(*old(it)).1.len() > 0
                &&& e == iter_state(*old(it)).1[0]
                &&& iter_state(*final(it)).0
                &&& iter_state(*final(it)).1 == iter_state(*old(it)).1.drop_first()
            },
        },
{
    it.next()
}

/// Calls `Guard::key`, which fails exactly when the guard carries a read failure.
#[verifier::external_body]
pub(crate) fn guard_key(g: fjall::Guard) -> (r: Result<Vec<u8>, fjall::Error>)
    ensures
        match r {
            Ok(k) => guard_entry(g) matches Some(e) && e.0 == k@,
            Err(_) => guard_entry(g) is None,
        },
{
    match g.key() {
        Ok(k) => Ok(k.to_vec()),
        Err(e) => Err(e),
    }
}

/// Calls `Guard::into_inner`; a pair that comes back is the one the guard stands for
/// (a separately stored value may still fail to load).
#[verifier::external_body]
pub(crate) fn guard_into_inner(g: fjall::Guard) -> (r: Result<(Vec<u8>, Vec<u8>), fjall::Error>)
    ensures
        r matches Ok(p) ==> guard_entry(g) == Some((p.0@, p.1@)),
{
    match g.into_inner() {
        Ok((k, v)) => Ok((k.to_vec(), v.to_vec())),
        Err(e) => Err(e),
    }
}

/// Calls `Keyspace::rotate_memtable_and_wait`, which flushes the keyspace's pending
/// writes to disk; what the keyspace holds does not change.
#[verifier::external_body]
pub(crate) fn keyspace_flush(ks: &fjall::Keyspace) -> (r: Result<(), fjall::Error>)
{
    ks.rotate_memtable_and_wait()
}

/// Calls `Keyspace::disk_space`, the bytes that the keyspace takes on disk; that
/// depends on the disk, so nothing is stated of it.
#[verifier::external_body]
pub(crate) fn keyspace_disk_space(ks: &fjall::Keyspace) -> (n: u64)
{
    ks.disk_space()
}

} // verus!
