//! The locks of a store.

use json_db_rs::{get_lock, JsonDatabase};
use std::sync::{Mutex, PoisonError};

#[test]
fn get_lock_hands_out_the_guard_of_a_sound_lock() {
    let mutex = Mutex::new(5);

    {
        let mut guard = get_lock(mutex.lock());
        *guard += 1;
    }

    assert_eq!(*get_lock(mutex.lock()), 6);
}

#[test]
fn get_lock_hands_out_the_guard_of_a_poisoned_lock() {
    let mutex = Mutex::new(7);
    let guard = mutex.lock().unwrap();

    let mut guard = get_lock(Err(PoisonError::new(guard)));
    *guard += 1;

    assert_eq!(*guard, 8);
}

#[test]
fn the_lock_on_the_files_is_free_again_once_its_guard_is_gone() {
    let db = JsonDatabase::new_with_path("db/locks");

    {
        let _guard = get_lock(db.fs_mutex().lock());
        assert!(db.fs_mutex().try_lock().is_err());
    }

    assert!(db.fs_mutex().try_lock().is_ok());
}

#[test]
fn the_two_locks_of_a_store_are_not_the_same() {
    let db = JsonDatabase::new_with_path("db/locks");

    let _files = get_lock(db.fs_mutex().lock());

    assert!(db.transaction_mutex().try_lock().is_ok());
    assert!(db.fs_mutex().try_lock().is_err());
}

#[test]
fn the_files_can_be_locked_inside_a_transaction() {
    let db = JsonDatabase::new_with_path("db/locks");
    let mut held = false;

    db.transaction(db.transaction_mutex().lock(), || {
        let _guard = get_lock(db.fs_mutex().lock());
        held = db.transaction_mutex().try_lock().is_err();
    });
    db.transaction(db.transaction_mutex().lock(), || {});

    assert!(held);
    assert!(db.transaction_mutex().try_lock().is_ok());
}

#[test]
fn a_transaction_runs_under_a_poisoned_lock_too() {
    let db = JsonDatabase::new_with_path("db/locks");
    let guard = db.transaction_mutex().lock().unwrap();
    let mut runs = 0;

    db.transaction(Err(PoisonError::new(guard)), || runs += 1);

    assert_eq!(runs, 1);
    assert!(db.transaction_mutex().try_lock().is_ok());
}
