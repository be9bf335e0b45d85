use anchor::store::{
    abort_read, abort_write, begin_read, begin_write, bind_read, bind_write, commit_write,
    next_entry, open_default_db, open_env, open_range_cursor, take_entries, txn_get, txn_put,
    StoreEnv,
};

const MAP_SIZE: u64 = 10485760;

fn fresh_env(path: &str) -> StoreEnv {
    open_env(path, MAP_SIZE, true, 0o600).unwrap()
}

fn seed_abc(env: &StoreEnv) {
    let mut txn = begin_write(env).unwrap();
    let handle = open_default_db(env).unwrap();
    let mut db = bind_write(&mut txn, &handle);
    txn_put(&mut db, &"a".to_string(), &"1".to_string()).unwrap();
    txn_put(&mut db, &"b".to_string(), &"2".to_string()).unwrap();
    txn_put(&mut db, &"c".to_string(), &"3".to_string()).unwrap();
    commit_write(txn).unwrap();
}

#[test]
fn put_then_get_same_txn() {
    let env = fresh_env("/tmp/anchor_put_get");
    let mut txn = begin_write(&env).unwrap();
    let handle = open_default_db(&env).unwrap();
    let mut db = bind_write(&mut txn, &handle);
    txn_put(&mut db, &"alpha".to_string(), &"one".to_string()).unwrap();
    let found = txn_get(&db, &"alpha".to_string()).unwrap();
    assert_eq!(found, Some("one".to_string()));
    abort_write(txn);
}

#[test]
fn get_never_written() {
    let env = fresh_env("/tmp/anchor_never_written");
    let mut txn = begin_write(&env).unwrap();
    let handle = open_default_db(&env).unwrap();
    let db = bind_write(&mut txn, &handle);
    let found = txn_get(&db, &"missing".to_string()).unwrap();
    assert_eq!(found, None);
    abort_write(txn);
}

#[test]
fn put_overwrites_previous_value() {
    let env = fresh_env("/tmp/anchor_overwrite");
    let mut txn = begin_write(&env).unwrap();
    let handle = open_default_db(&env).unwrap();
    let mut db = bind_write(&mut txn, &handle);
    txn_put(&mut db, &"k".to_string(), &"first".to_string()).unwrap();
    txn_put(&mut db, &"k".to_string(), &"second".to_string()).unwrap();
    let found = txn_get(&db, &"k".to_string()).unwrap();
    assert_eq!(found, Some("second".to_string()));
    abort_write(txn);
}

#[test]
fn commit_makes_puts_visible() {
    let env = fresh_env("/tmp/anchor_commit_visible");
    let mut txn = begin_write(&env).unwrap();
    let handle = open_default_db(&env).unwrap();
    let mut db = bind_write(&mut txn, &handle);
    txn_put(&mut db, &"committed".to_string(), &"yes".to_string()).unwrap();
    commit_write(txn).unwrap();

    let mut reader = begin_read(&env).unwrap();
    let rhandle = open_default_db(&env).unwrap();
    let rdb = bind_read(&mut reader, &rhandle);
    let found = txn_get(&rdb, &"committed".to_string()).unwrap();
    assert_eq!(found, Some("yes".to_string()));
    abort_read(reader);
}

#[test]
fn abort_hides_puts() {
    let env = fresh_env("/tmp/anchor_abort_hidden");
    let mut txn = begin_write(&env).unwrap();
    let handle = open_default_db(&env).unwrap();
    let mut db = bind_write(&mut txn, &handle);
    txn_put(&mut db, &"discarded".to_string(), &"value".to_string()).unwrap();
    abort_write(txn);

    let mut reader = begin_read(&env).unwrap();
    let rhandle = open_default_db(&env).unwrap();
    let rdb = bind_read(&mut reader, &rhandle);
    let found = txn_get(&rdb, &"discarded".to_string()).unwrap();
    assert_eq!(found, None);
    abort_read(reader);
}

#[test]
fn range_next_ascending_and_exclusive() {
    let env = fresh_env("/tmp/anchor_range_next");
    seed_abc(&env);
    let mut reader = begin_read(&env).unwrap();
    let handle = open_default_db(&env).unwrap();
    let db = bind_read(&mut reader, &handle);
    let start = "a".to_string();
    let end = "c".to_string();
    let mut it = open_range_cursor(&db, &start, &end).unwrap();
    assert_eq!(next_entry(&mut it).unwrap(), Some(("a".to_string(), "1".to_string())));
    assert_eq!(next_entry(&mut it).unwrap(), Some(("b".to_string(), "2".to_string())));
    assert_eq!(next_entry(&mut it).unwrap(), None);
    drop(it);
    abort_read(reader);
}

#[test]
fn take_returns_min_and_then_nothing() {
    let env = fresh_env("/tmp/anchor_take_min");
    seed_abc(&env);
    let mut reader = begin_read(&env).unwrap();
    let handle = open_default_db(&env).unwrap();
    let db = bind_read(&mut reader, &handle);
    let start = "a".to_string();
    let end = "c".to_string();
    let mut it = open_range_cursor(&db, &start, &end).unwrap();
    let batch = take_entries(&mut it, 5).unwrap();
    assert_eq!(
        batch,
        vec![
            ("a".to_string(), "1".to_string()),
            ("b".to_string(), "2".to_string()),
        ]
    );
    let again = take_entries(&mut it, 5).unwrap();
    assert_eq!(again.len(), 0);
    drop(it);
    abort_read(reader);
}

#[test]
fn take_consumes_exactly_its_prefix() {
    let env = fresh_env("/tmp/anchor_take_prefix");
    seed_abc(&env);
    let mut reader = begin_read(&env).unwrap();
    let handle = open_default_db(&env).unwrap();
    let db = bind_read(&mut reader, &handle);
    let start = "a".to_string();
    let end = "d".to_string();
    let mut it = open_range_cursor(&db, &start, &end).unwrap();
    let batch = take_entries(&mut it, 1).unwrap();
    assert_eq!(batch, vec![("a".to_string(), "1".to_string())]);
    assert_eq!(next_entry(&mut it).unwrap(), Some(("b".to_string(), "2".to_string())));
    assert_eq!(next_entry(&mut it).unwrap(), Some(("c".to_string(), "3".to_string())));
    assert_eq!(next_entry(&mut it).unwrap(), None);
    drop(it);
    abort_read(reader);
}

#[test]
fn two_read_snapshots_scan_independently() {
    let env = fresh_env("/tmp/anchor_two_readers");
    seed_abc(&env);
    let mut reader1 = begin_read(&env).unwrap();
    let mut reader2 = begin_read(&env).unwrap();
    let handle1 = open_default_db(&env).unwrap();
    let handle2 = open_default_db(&env).unwrap();
    let db1 = bind_read(&mut reader1, &handle1);
    let db2 = bind_read(&mut reader2, &handle2);
    let start1 = "a".to_string();
    let end1 = "c".to_string();
    let start2 = "a".to_string();
    let end2 = "d".to_string();
    let mut it1 = open_range_cursor(&db1, &start1, &end1).unwrap();
    let mut it2 = open_range_cursor(&db2, &start2, &end2).unwrap();
    assert_eq!(next_entry(&mut it1).unwrap(), Some(("a".to_string(), "1".to_string())));
    assert_eq!(next_entry(&mut it2).unwrap(), Some(("a".to_string(), "1".to_string())));
    assert_eq!(next_entry(&mut it1).unwrap(), Some(("b".to_string(), "2".to_string())));
    assert_eq!(next_entry(&mut it2).unwrap(), Some(("b".to_string(), "2".to_string())));
    assert_eq!(next_entry(&mut it1).unwrap(), None);
    assert_eq!(next_entry(&mut it2).unwrap(), Some(("c".to_string(), "3".to_string())));
    assert_eq!(next_entry(&mut it2).unwrap(), None);
    drop(it1);
    drop(it2);
    abort_read(reader1);
    abort_read(reader2);
}

#[test]
fn scenario_range_next_and_take() {
    let env = fresh_env("/tmp/anchor_scenario");
    seed_abc(&env);
    let mut reader = begin_read(&env).unwrap();
    let handle = open_default_db(&env).unwrap();
    let db = bind_read(&mut reader, &handle);
    let start = "a".to_string();
    let end = "c".to_string();

    let mut it = open_range_cursor(&db, &start, &end).unwrap();
    assert_eq!(next_entry(&mut it).unwrap(), Some(("a".to_string(), "1".to_string())));
    assert_eq!(next_entry(&mut it).unwrap(), Some(("b".to_string(), "2".to_string())));
    assert_eq!(next_entry(&mut it).unwrap(), None);

    let mut it2 = open_range_cursor(&db, &start, &end).unwrap();
    let batch = take_entries(&mut it2, 2).unwrap();
    assert_eq!(
        batch,
        vec![
            ("a".to_string(), "1".to_string()),
            ("b".to_string(), "2".to_string()),
        ]
    );
    assert_eq!(next_entry(&mut it2).unwrap(), None);
    drop(it);
    drop(it2);
    abort_read(reader);
}

#[test]
fn open_env_without_create_fails() {
    let r = open_env("/tmp/anchor_absent_dir/nested", MAP_SIZE, false, 0o600);
    assert!(r.is_err());
}

#[test]
fn take_zero_consumes_nothing() {
    let env = fresh_env("/tmp/anchor_take_zero");
    seed_abc(&env);
    let mut reader = begin_read(&env).unwrap();
    let handle = open_default_db(&env).unwrap();
    let db = bind_read(&mut reader, &handle);
    let start = "a".to_string();
    let end = "d".to_string();
    let mut it = open_range_cursor(&db, &start, &end).unwrap();
    let batch = take_entries(&mut it, 0).unwrap();
    assert_eq!(batch.len(), 0);
    assert_eq!(next_entry(&mut it).unwrap(), Some(("a".to_string(), "1".to_string())));
    drop(it);
    abort_read(reader);
}

#[test]
fn range_from_empty_start_holds_nothing() {
    let env = fresh_env("/tmp/anchor_empty_start");
    seed_abc(&env);
    let mut reader = begin_read(&env).unwrap();
    let handle = open_default_db(&env).unwrap();
    let db = bind_read(&mut reader, &handle);
    let start = "".to_string();
    let end = "b".to_string();
    let mut it = open_range_cursor(&db, &start, &end).unwrap();
    assert_eq!(next_entry(&mut it).unwrap(), None);
    drop(it);
    abort_read(reader);
}

#[test]
fn empty_key_lookup_is_a_store_failure() {
    let env = fresh_env("/tmp/anchor_empty_key");
    let mut txn = begin_write(&env).unwrap();
    let handle = open_default_db(&env).unwrap();
    let db = bind_write(&mut txn, &handle);
    assert!(txn_get(&db, &"".to_string()).is_err());
    abort_write(txn);
}

#[test]
fn empty_value_round_trips() {
    let env = fresh_env("/tmp/anchor_empty_value");
    let mut txn = begin_write(&env).unwrap();
    let handle = open_default_db(&env).unwrap();
    let mut db = bind_write(&mut txn, &handle);
    txn_put(&mut db, &"blank".to_string(), &"".to_string()).unwrap();
    let found = txn_get(&db, &"blank".to_string()).unwrap();
    assert_eq!(found, Some("".to_string()));
    abort_write(txn);
}
