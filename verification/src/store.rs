//! The storage collaborator: an embedded, ordered key-value store reached
//! through `lmdb_rs`. The store itself is trusted; this module gives each
//! call a contract over a mathematical view — the contents of a
//! transaction's database as a map from key strings to value strings, and
//! the remaining entries of a range cursor as a sequence of key-value
//! pairs — and verifies the operations the transaction actor performs
//! against those views.
use vstd::prelude::*;

verus! {

// ---------------------------------------------------------------------
// Declarations of the storage engine's types. They are opaque: verified
// code carries them around and reads them only through the trusted
// wrappers below.
// ---------------------------------------------------------------------

#[verifier::external_type_specification]
#[verifier::external_body]
pub struct ExEnvironment(lmdb_rs::Environment);

#[verifier::external_type_specification]
#[verifier::external_body]
pub struct ExDbHandle(lmdb_rs::DbHandle);

#[verifier::external_type_specification]
#[verifier::external_body]
pub struct ExTransaction<'a>(lmdb_rs::Transaction<'a>);

#[verifier::external_type_specification]
#[verifier::external_body]
pub struct ExReadonlyTransaction<'a>(lmdb_rs::ReadonlyTransaction<'a>);

#[verifier::external_type_specification]
#[verifier::external_body]
pub struct ExDatabase<'a>(lmdb_rs::Database<'a>);

#[verifier::external_type_specification]
#[verifier::external_body]
pub struct ExMdbError(lmdb_rs::MdbError);

#[verifier::external_type_specification]
#[verifier::external_body]
pub struct ExCursorKeyRangeIter<'a>(lmdb_rs::CursorKeyRangeIter<'a>);

#[verifier::external_type_specification]
#[verifier::external_body]
#[verifier::reject_recursive_types(I)]
pub struct ExCursorIterator<'c, I>(lmdb_rs::core::CursorIterator<'c, I>);

/// An ascending cursor over one key interval of one transaction's view.
pub type RangeCursor<'c> = lmdb_rs::core::CursorIterator<'c, lmdb_rs::CursorKeyRangeIter<'c>>;

// ---------------------------------------------------------------------
// The mathematical view of the store.
// ---------------------------------------------------------------------

/// The contents a database value shows inside its transaction: what this
/// transaction's view associates to each key. Named, not defined: only
/// the trusted wrappers below say how each call reads or changes it.
pub uninterp spec fn db_contents(db: lmdb_rs::Database) -> Map<Seq<char>, Seq<char>>;

/// The key-value pairs a range cursor has still to yield, in the order it
/// will yield them.
pub uninterp spec fn cursor_entries(
    it: lmdb_rs::core::CursorIterator<lmdb_rs::CursorKeyRangeIter>,
) -> Seq<(Seq<char>, Seq<char>)>;

/// Strict lexicographic order on key strings by code point, which for
/// UTF-8 encoded keys coincides with the byte order the store sorts by.
pub open spec fn lex_lt(a: Seq<char>, b: Seq<char>) -> bool
    decreases a.len(),
{
    if b.len() == 0 {
        false
    } else if a.len() == 0 {
        true
    } else if a[0] == b[0] {
        lex_lt(a.drop_first(), b.drop_first())
    } else {
        (a[0] as u32) < (b[0] as u32)
    }
}

pub open spec fn lex_le(a: Seq<char>, b: Seq<char>) -> bool {
    lex_lt(a, b) || a == b
}

/// Membership of a key in the half-open interval `[start, end)`.
pub open spec fn in_interval(k: Seq<char>, start: Seq<char>, end: Seq<char>) -> bool {
    lex_le(start, k) && lex_lt(k, end)
}

/// What a freshly opened range cursor holds: the entries of `m` whose keys
/// lie in `[start, end)`, strictly ascending, none repeated, none skipped.
pub open spec fn range_listing(
    e: Seq<(Seq<char>, Seq<char>)>,
    m: Map<Seq<char>, Seq<char>>,
    start: Seq<char>,
    end: Seq<char>,
) -> bool {
    &&& forall|i: int, j: int|
        0 <= i < j < e.len() ==> lex_lt(#[trigger] e[i].0, #[trigger] e[j].0)
    &&& forall|i: int| 0 <= i < e.len() ==> in_interval(#[trigger] e[i].0, start, end)
    &&& forall|i: int|
        0 <= i < e.len() ==> m.contains_key(#[trigger] e[i].0) && m[e[i].0] == e[i].1
    &&& forall|k: Seq<char>|
        #[trigger] m.contains_key(k) && in_interval(k, start, end) ==> exists|i: int|
            0 <= i < e.len() && (#[trigger] e[i]).0 == k
}

/// The view a point lookup answers from: the value under `k`, if any.
pub open spec fn lookup(m: Map<Seq<char>, Seq<char>>, k: Seq<char>) -> Option<Seq<char>> {
    if m.contains_key(k) {
        Option::Some(m[k])
    } else {
        Option::None
    }
}

// ---------------------------------------------------------------------
// The library's own error for fatal storage failures.
// ---------------------------------------------------------------------

/// A fatal storage failure, distinct from the ordinary not-found outcome
/// of a lookup. Carries the store's description of what went wrong.
#[derive(Debug)]
pub struct StoreError {
    pub message: String,
}

/// An opened store, shared read-only by every transaction actor spawned
/// against it.
pub struct StoreEnv {
    env: lmdb_rs::Environment,
}

// ---------------------------------------------------------------------
// Trusted wrappers around the storage engine.
// ---------------------------------------------------------------------

/// Relies on the `std::fmt::Display` impl of `lmdb_rs::MdbError` for a
/// human-readable description of a storage failure.
#[verifier::external_body]
fn describe_mdb_error(e: &lmdb_rs::MdbError) -> String {
    format!("{}", e)
}

/// Turn the store's error into the library's own fatal-failure value.
fn store_error_from(e: lmdb_rs::MdbError) -> StoreError {
    StoreError { message: describe_mdb_error(&e) }
}

/// Relies on `lmdb_rs::EnvBuilder::open`: opens (creating the directory
/// first when asked to) an environment of the given maximum map size with
/// the given permission bits. The no-TLS flag is set so that a reader
/// slot follows the transaction value that owns it rather than an
/// operating-system thread; thread confinement is enforced by the actor
/// design instead.
#[verifier::external_body]
fn open_env_raw(
    path: &str,
    max_size: u64,
    create_dir: bool,
    permissions: u32,
) -> Result<lmdb_rs::Environment, lmdb_rs::MdbError> {
    lmdb_rs::EnvBuilder::new()
        .autocreate_dir(create_dir)
        .map_size(max_size)
        .flags(lmdb_rs::core::EnvCreateNoTls)
        .open(std::path::Path::new(path), permissions)
}

/// Relies on `lmdb_rs::Environment::get_default_db`: opens the default
/// database of the environment with no special flags.
#[verifier::external_body]
fn default_db_handle(env: &lmdb_rs::Environment) -> Result<lmdb_rs::DbHandle, lmdb_rs::MdbError> {
    env.get_default_db(lmdb_rs::DbFlags::empty())
}

/// Relies on `lmdb_rs::Environment::new_transaction`: begins a read-write
/// transaction; the store serializes writers itself.
#[verifier::external_body]
fn begin_write_raw(env: &lmdb_rs::Environment) -> Result<lmdb_rs::Transaction<'_>, lmdb_rs::MdbError> {
    env.new_transaction()
}

/// Relies on `lmdb_rs::Environment::get_reader`: begins a read-only
/// snapshot transaction.
#[verifier::external_body]
fn begin_read_raw(
    env: &lmdb_rs::Environment,
) -> Result<lmdb_rs::ReadonlyTransaction<'_>, lmdb_rs::MdbError> {
    env.get_reader()
}

/// Relies on `lmdb_rs::Transaction::bind`: a database value scoped to
/// this transaction's view. The view it starts from depends on what was
/// committed before, so nothing is claimed of its initial contents.
/// The view contracts speak of one database value per transaction; the
/// exclusive borrow makes a second bind of a live transaction impossible.
#[verifier::external_body]
fn bind_write_raw<'a, 't>(
    txn: &'a mut lmdb_rs::Transaction<'t>,
    handle: &lmdb_rs::DbHandle,
) -> lmdb_rs::Database<'a> {
    (&*txn).bind(handle)
}

/// Relies on `lmdb_rs::ReadonlyTransaction::bind`, as for the write side.
#[verifier::external_body]
fn bind_read_raw<'a, 't>(
    txn: &'a mut lmdb_rs::ReadonlyTransaction<'t>,
    handle: &lmdb_rs::DbHandle,
) -> lmdb_rs::Database<'a> {
    (&*txn).bind(handle)
}

/// Relies on `lmdb_rs::Database::get` (the store's `mdb_get`) and on
/// `String::from_utf8`: a lookup in this transaction's view, with the
/// store's not-found error told apart from every other failure. A stored
/// value that is not valid UTF-8 — possible only when other software
/// wrote the file — is reported as a failure, never decoded and never a
/// panic.
#[verifier::external_body]
fn db_get_raw(db: &lmdb_rs::Database, key: &String) -> (r: Result<Option<String>, StoreError>)
    ensures
        (match r {
            Ok(found) => match found {
                Option::Some(v) => lookup(db_contents(*db), key@) == Option::Some(v@),
                Option::None => lookup(db_contents(*db), key@) is None,
            },
            Err(_) => true,
        }),
{
    match db.get::<Vec<u8>>(key) {
        Ok(bytes) => match String::from_utf8(bytes) {
            Ok(v) => Ok(Some(v)),
            Err(_) => Err(StoreError { message: "stored value is not valid UTF-8".to_string() }),
        },
        Err(lmdb_rs::MdbError::NotFound) => Ok(None),
        Err(e) => Err(StoreError { message: format!("{}", e) }),
    }
}

/// Relies on `lmdb_rs::Database::set` (the store's `mdb_put`): on
/// success the transaction's view now associates `value` to `key` and is
/// otherwise unchanged; on failure nothing is claimed of the view.
#[verifier::external_body]
fn db_put_raw(db: &mut lmdb_rs::Database, key: &String, value: &String) -> (r: Result<
    (),
    lmdb_rs::MdbError,
>)
    ensures
        (match r {
            Ok(u) => db_contents(*final(db)) == db_contents(*old(db)).insert(key@, value@),
            Err(_) => true,
        }),
{
    (&*db).set(key, value)
}

/// Relies on `lmdb_rs::Database::keyrange_from_to`: an ascending cursor
/// over the keys of this view in `[start, end)`, start included, end
/// excluded, in the store's byte order. The store admits no zero-length
/// key, so a scan whose start is the empty string holds nothing.
#[verifier::external_body]
fn open_cursor_raw<'a, 'c>(
    db: &'c lmdb_rs::Database<'a>,
    start: &'c String,
    end: &'c String,
) -> (r: Result<RangeCursor<'c>, lmdb_rs::MdbError>)
    ensures
        (match r {
            Ok(it) => if start@.len() > 0 {
                range_listing(cursor_entries(it), db_contents(*db), start@, end@)
            } else {
                cursor_entries(it) == Seq::<(Seq<char>, Seq<char>)>::empty()
            },
            Err(_) => true,
        }),
{
    db.keyrange_from_to(start, end)
}

/// Relies on the cursor's `Iterator::next` (the store's
/// `mdb_cursor_get`) and on `String::from_utf8`: yields the first
/// remaining entry and drops it from the remainder, or reports the
/// cursor exhausted. The iterator folds a mid-scan store error into its
/// end, as the storage interface models no failing cursor step. An entry
/// that is not valid UTF-8 — possible only when other software wrote the
/// file — is reported as a failure, never decoded and never a panic.
#[verifier::external_body]
fn cursor_next_raw(it: &mut RangeCursor<'_>) -> (r: Result<Option<(String, String)>, StoreError>)
    ensures
        (match r {
            Ok(stepped) => match stepped {
                Option::Some(kv) => cursor_entries(*old(it)).len() > 0 && kv.0@ == cursor_entries(
                    *old(it),
                )[0].0 && kv.1@ == cursor_entries(*old(it))[0].1 && cursor_entries(*final(it))
                    == cursor_entries(*old(it)).drop_first(),
                Option::None => cursor_entries(*old(it)).len() == 0 && cursor_entries(*final(it))
                    == cursor_entries(*old(it)),
            },
            Err(_) => true,
        }),
{
    match it.next() {
        Some(cv) => {
            let key = String::from_utf8(cv.get_key::<Vec<u8>>());
            let value = String::from_utf8(cv.get_value::<Vec<u8>>());
            match (key, value) {
                (Ok(k), Ok(v)) => Ok(Some((k, v))),
                _ => Err(StoreError { message: "stored entry is not valid UTF-8".to_string() }),
            }
        },
        None => Ok(None),
    }
}

/// Relies on `lmdb_rs::Transaction::commit`: makes the transaction's
/// writes durable and visible to transactions begun afterwards.
#[verifier::external_body]
fn commit_raw(txn: lmdb_rs::Transaction<'_>) -> Result<(), lmdb_rs::MdbError> {
    txn.commit()
}

/// Relies on `lmdb_rs::Transaction::abort`: discards the transaction's
/// writes.
#[verifier::external_body]
fn abort_write_raw(txn: lmdb_rs::Transaction<'_>) {
    txn.abort()
}

/// Relies on `lmdb_rs::ReadonlyTransaction::abort`: releases the snapshot.
#[verifier::external_body]
fn abort_read_raw(txn: lmdb_rs::ReadonlyTransaction<'_>) {
    let mut t = txn;
    t.abort()
}

// ---------------------------------------------------------------------
// The verified storage operations of the transaction actor.
// ---------------------------------------------------------------------

/// Open an environment, creating its directory first when asked to, and
/// validate that its default database can be reached. Any failure is
/// fatal and reported synchronously; no partial handle is returned.
pub fn open_env(path: &str, max_size: u64, create_dir: bool, permissions: u32) -> Result<
    StoreEnv,
    StoreError,
> {
    match open_env_raw(path, max_size, create_dir, permissions) {
        Ok(env) => match default_db_handle(&env) {
            Ok(_) => Ok(StoreEnv { env }),
            Err(e) => Err(store_error_from(e)),
        },
        Err(e) => Err(store_error_from(e)),
    }
}

/// Begin a write transaction against an opened store.
pub fn begin_write(env: &StoreEnv) -> Result<lmdb_rs::Transaction<'_>, StoreError> {
    match begin_write_raw(&env.env) {
        Ok(t) => Ok(t),
        Err(e) => Err(store_error_from(e)),
    }
}

/// Begin a read-only snapshot transaction against an opened store.
pub fn begin_read(env: &StoreEnv) -> Result<lmdb_rs::ReadonlyTransaction<'_>, StoreError> {
    match begin_read_raw(&env.env) {
        Ok(t) => Ok(t),
        Err(e) => Err(store_error_from(e)),
    }
}

/// The default database of an opened store.
pub fn open_default_db(env: &StoreEnv) -> Result<lmdb_rs::DbHandle, StoreError> {
    match default_db_handle(&env.env) {
        Ok(h) => Ok(h),
        Err(e) => Err(store_error_from(e)),
    }
}

/// Bind a write transaction to a database handle. The exclusive borrow
/// keeps the transaction bound at most once at a time, so the view
/// contracts follow one database value.
pub fn bind_write<'a, 't>(
    txn: &'a mut lmdb_rs::Transaction<'t>,
    handle: &lmdb_rs::DbHandle,
) -> lmdb_rs::Database<'a> {
    bind_write_raw(txn, handle)
}

/// Bind a read transaction to a database handle. The exclusive borrow
/// keeps the transaction bound at most once at a time, so the view
/// contracts follow one database value.
pub fn bind_read<'a, 't>(
    txn: &'a mut lmdb_rs::ReadonlyTransaction<'t>,
    handle: &lmdb_rs::DbHandle,
) -> lmdb_rs::Database<'a> {
    bind_read_raw(txn, handle)
}

/// Look `key` up in the transaction's view: the value under it if
/// present, nothing if absent, or the store's fatal failure.
pub fn txn_get(db: &lmdb_rs::Database<'_>, key: &String) -> (r: Result<Option<String>, StoreError>)
    ensures
        (match r {
            Ok(found) => match found {
                Option::Some(v) => lookup(db_contents(*db), key@) == Option::Some(v@),
                Option::None => lookup(db_contents(*db), key@) is None,
            },
            Err(_) => true,
        }),
{
    db_get_raw(db, key)
}

/// Write `value` under `key` into the transaction's view. On success the
/// view maps `key` to `value` and is otherwise unchanged.
pub fn txn_put(db: &mut lmdb_rs::Database<'_>, key: &String, value: &String) -> (r: Result<
    (),
    StoreError,
>)
    ensures
        (match r {
            Ok(u) => db_contents(*final(db)) == db_contents(*old(db)).insert(key@, value@),
            Err(_) => true,
        }),
{
    match db_put_raw(db, key, value) {
        Ok(u) => Ok(u),
        Err(e) => Err(store_error_from(e)),
    }
}

/// Open an ascending cursor over the keys of this view in
/// `[start, end)`. On success the cursor's remaining entries are exactly
/// the range listing of the view: ascending, none repeated, none
/// skipped. The store admits no zero-length key, so a scan whose start
/// is the empty string holds nothing.
pub fn open_range_cursor<'a, 'c>(
    db: &'c lmdb_rs::Database<'a>,
    start: &'c String,
    end: &'c String,
) -> (r: Result<RangeCursor<'c>, StoreError>)
    ensures
        (match r {
            Ok(it) => if start@.len() > 0 {
                range_listing(cursor_entries(it), db_contents(*db), start@, end@)
            } else {
                cursor_entries(it) == Seq::<(Seq<char>, Seq<char>)>::empty()
            },
            Err(_) => true,
        }),
{
    match open_cursor_raw(db, start, end) {
        Ok(it) => Ok(it),
        Err(e) => Err(store_error_from(e)),
    }
}

/// Step the cursor once: its first remaining entry, which it drops;
/// nothing when it is exhausted; or the store's fatal failure.
pub fn next_entry(it: &mut RangeCursor<'_>) -> (r: Result<Option<(String, String)>, StoreError>)
    ensures
        (match r {
            Ok(stepped) => match stepped {
                Option::Some(kv) => cursor_entries(*old(it)).len() > 0 && kv.0@ == cursor_entries(
                    *old(it),
                )[0].0 && kv.1@ == cursor_entries(*old(it))[0].1 && cursor_entries(*final(it))
                    == cursor_entries(*old(it)).drop_first(),
                Option::None => cursor_entries(*old(it)).len() == 0 && cursor_entries(*final(it))
                    == cursor_entries(*old(it)),
            },
            Err(_) => true,
        }),
{
    cursor_next_raw(it)
}

/// Collect up to `count` entries from the cursor, in order: the batch is
/// the prefix of the remaining entries of length `min(count, remaining)`,
/// and exactly that prefix is consumed; or the store's fatal failure.
pub fn take_entries(it: &mut RangeCursor<'_>, count: usize) -> (r: Result<
    Vec<(String, String)>,
    StoreError,
>)
    ensures
        (match r {
            Ok(batch) => batch@.len() == vstd::math::min(
                count as int,
                cursor_entries(*old(it)).len() as int,
            ) && (forall|i: int|
                0 <= i < batch@.len() ==> (#[trigger] batch@[i]).0@ == cursor_entries(*old(it))[i].0
                    && batch@[i].1@ == cursor_entries(*old(it))[i].1) && cursor_entries(*final(it))
                == cursor_entries(*old(it)).skip(batch@.len() as int),
            Err(_) => true,
        }),
{
    let ghost e0 = cursor_entries(*it);
    let mut results: Vec<(String, String)> = Vec::new();
    let mut i: usize = 0;
    let mut exhausted = false;
    while i < count && !exhausted
        invariant
            i <= count,
            i as int <= e0.len(),
            results@.len() == i,
            exhausted ==> i as int == e0.len(),
            cursor_entries(*it) == e0.skip(i as int),
            forall|j: int|
                0 <= j < i ==> (#[trigger] results@[j]).0@ == e0[j].0 && results@[j].1@ == e0[j].1,
        decreases count - i + (if exhausted { 0int } else { 1int }),
    {
        match next_entry(it) {
            Ok(stepped) => match stepped {
                Option::Some(kv) => {
                    results.push(kv);
                    i = i + 1;
                },
                Option::None => {
                    exhausted = true;
                },
            },
            Err(e) => {
                return Err(e);
            },
        }
    }
    Ok(results)
}

// ---------------------------------------------------------------------
// Ending a transaction.
// ---------------------------------------------------------------------

/// Commit a write transaction: its writes become visible to transactions
/// begun afterwards, or the store reports a fatal failure.
pub fn commit_write(txn: lmdb_rs::Transaction<'_>) -> Result<(), StoreError> {
    match commit_raw(txn) {
        Ok(u) => Ok(u),
        Err(e) => Err(store_error_from(e)),
    }
}

/// Abort a write transaction: its writes are discarded.
pub fn abort_write(txn: lmdb_rs::Transaction<'_>) {
    abort_write_raw(txn)
}

/// Abort a read transaction, releasing its snapshot.
pub fn abort_read(txn: lmdb_rs::ReadonlyTransaction<'_>) {
    abort_read_raw(txn)
}

// ---------------------------------------------------------------------
// Laws of the protocol over the store's view.
// ---------------------------------------------------------------------

/// Law: a put followed by a get of the same key, within one
/// transaction's view, yields exactly the value just put.
pub proof fn lemma_put_then_get(m: Map<Seq<char>, Seq<char>>, k: Seq<char>, v: Seq<char>)
    ensures
        lookup(m.insert(k, v), k) == Option::Some(v),
{
}

/// Law: a put leaves the lookup of every other key unchanged.
pub proof fn lemma_put_preserves_others(
    m: Map<Seq<char>, Seq<char>>,
    k: Seq<char>,
    v: Seq<char>,
    other: Seq<char>,
)
    requires
        other != k,
    ensures
        lookup(m.insert(k, v), other) == lookup(m, other),
{
}

/// Law: a key the view never associated a value to is reported absent,
/// the distinguished not-found outcome of a lookup.
pub proof fn lemma_absent_key(m: Map<Seq<char>, Seq<char>>, k: Seq<char>)
    requires
        !m.contains_key(k),
    ensures
        lookup(m, k) is None,
{
}

/// The strict lexicographic order never relates a key to itself.
pub proof fn lemma_lex_lt_irrefl(a: Seq<char>)
    ensures
        !lex_lt(a, a),
    decreases a.len(),
{
    if a.len() > 0 {
        lemma_lex_lt_irrefl(a.drop_first());
    }
}

/// Law: the listing a fresh range cursor holds yields its keys in
/// strictly ascending order, every key inside `[start, end)` with the
/// value the view holds for it, no key repeated, and no stored key of
/// the interval skipped.
pub proof fn lemma_range_listing_properties(
    e: Seq<(Seq<char>, Seq<char>)>,
    m: Map<Seq<char>, Seq<char>>,
    start: Seq<char>,
    end: Seq<char>,
)
    requires
        range_listing(e, m, start, end),
    ensures
        forall|i: int, j: int|
            0 <= i < j < e.len() ==> lex_lt(#[trigger] e[i].0, #[trigger] e[j].0),
        forall|i: int| 0 <= i < e.len() ==> in_interval(#[trigger] e[i].0, start, end),
        forall|i: int|
            0 <= i < e.len() ==> lookup(m, #[trigger] e[i].0) == Option::Some(e[i].1),
        forall|k: Seq<char>|
            #[trigger] m.contains_key(k) && in_interval(k, start, end) ==> exists|i: int|
                0 <= i < e.len() && (#[trigger] e[i]).0 == k,
        forall|i: int, j: int|
            0 <= i < e.len() && 0 <= j < e.len() && i != j ==> (#[trigger] e[i]).0 != (
            #[trigger] e[j]).0,
{
    assert forall|i: int, j: int|
        0 <= i < e.len() && 0 <= j < e.len() && i != j implies (#[trigger] e[i]).0 != (
    #[trigger] e[j]).0 by {
        if i < j {
            assert(lex_lt(e[i].0, e[j].0));
            if e[i].0 == e[j].0 {
                lemma_lex_lt_irrefl(e[i].0);
            }
        } else {
            assert(lex_lt(e[j].0, e[i].0));
            if e[i].0 == e[j].0 {
                lemma_lex_lt_irrefl(e[i].0);
            }
        }
    }
}

/// Law: the mid-session form of a range scan. However far a session has
/// advanced — `k` entries of the fresh listing already yielded, the
/// cursor holding the rest — every entry still to come lies inside
/// `[start, end)` with its stored value, the remainder stays strictly
/// ascending, and each later key lies strictly above the last yielded
/// one: nothing repeated, nothing skipped, whatever the interleaving of
/// steps that got the session here.
pub proof fn lemma_scan_progress(
    e: Seq<(Seq<char>, Seq<char>)>,
    m: Map<Seq<char>, Seq<char>>,
    start: Seq<char>,
    end: Seq<char>,
    k: int,
)
    requires
        range_listing(e, m, start, end),
        0 < k <= e.len(),
    ensures
        forall|i: int| k <= i < e.len() ==> lex_lt(e[k - 1].0, #[trigger] e[i].0),
        forall|i: int| k <= i < e.len() ==> in_interval(#[trigger] e[i].0, start, end),
        forall|i: int| k <= i < e.len() ==> lookup(m, #[trigger] e[i].0) == Option::Some(e[i].1),
        forall|i: int, j: int|
            k <= i < j < e.len() ==> lex_lt(#[trigger] e[i].0, #[trigger] e[j].0),
{
}

} // verus!
