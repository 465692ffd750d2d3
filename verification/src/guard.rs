//! The locks that a store owns.
//!
//! A store keeps two mutexes of the standard library: one for the changes it
//! makes to its files, one for the transactions of its callers. Taking a lock
//! is left to whoever drives the store: a thread that asks for a lock it
//! holds already never gets it, and nothing here could rule that out. What
//! comes of taking it is handed to [`get_lock`]. Whoever held a lock and
//! panicked leaves it poisoned; a store goes on all the same, with whatever
//! the files hold by then.

use std::sync::{LockResult, MutexGuard, PoisonError};
use vstd::prelude::*;

verus! {

/// `std::sync::Mutex`. Nothing is known of what it guards.
#[verifier::external_type_specification]
#[verifier::external_body]
#[verifier::reject_recursive_types(T)]
pub struct ExMutex<T: ?Sized>(std::sync::Mutex<T>);

/// `std::sync::MutexGuard`: the lock is held for as long as the guard lives.
#[verifier::external_type_specification]
#[verifier::external_body]
#[verifier::reject_recursive_types(T)]
pub struct ExMutexGuard<'a, T: ?Sized + 'a>(std::sync::MutexGuard<'a, T>);

/// `std::sync::PoisonError`: what a lock hands out once a holder of it has
/// panicked.
#[verifier::external_type_specification]
#[verifier::external_body]
#[verifier::reject_recursive_types(T)]
pub struct ExPoisonError<T>(std::sync::PoisonError<T>);

/// `Mutex::new` makes a mutex that nobody holds. Nothing is claimed of it.
pub assume_specification<T>[ std::sync::Mutex::<T>::new ](value: T) -> (mutex: std::sync::Mutex<T>)
;

/// `PoisonError::into_inner` hands out the guard that the error carries.
/// Nothing is claimed of it.
pub assume_specification<T>[ std::sync::PoisonError::<T>::into_inner ](
    error: PoisonError<T>,
) -> (inner: T)
;

/// Takes the guard out of the result of a lock, poisoned or not.
pub fn get_lock<'a, T>(mutex_result: LockResult<MutexGuard<'a, T>>) -> (guard: MutexGuard<'a, T>)
    ensures
        mutex_result matches Ok(held) ==> guard == held,
{
    match mutex_result {
        Ok(lock) => lock,
        Err(poison) => poison.into_inner(),
    }
}

} // verus!
