//! `std::sync::Mutex`, declared for Verus, with the wrappers through which
//! verified code locks it and reaches the value it guards.
//!
//! What a mutex holds at a given moment depends on the other threads that
//! share it, so no wrapper says which value it finds; what must hold of every
//! value is carried by the values' own types (a type invariant).
//!
//! The values kept here (jobs, the ends of channels, the sender of a worker's
//! queue) must be dropped when their last holder lets go: that is how a task
//! handle learns that its task vanished and how a worker's queue closes. A
//! lock whose content Verus follows, vstd's `RwLock`, never drops the value it
//! holds, and a destructor that took the value out of it cannot verify (a
//! destructor may open no invariant and may not unwind), so std's `Mutex` is
//! used here.
//!
//! Every guard lives within one function body, which takes no second guard of
//! the same mutex and runs no code from outside the library while it holds
//! the guard.
use std::sync::{Mutex, MutexGuard};
use vstd::prelude::*;

verus! {

#[verifier::external_type_specification]
#[verifier::external_body]
#[verifier::reject_recursive_types(T)]
pub struct ExStdMutex<T: ?Sized>(Mutex<T>);

#[verifier::external_type_specification]
#[verifier::external_body]
#[verifier::reject_recursive_types(T)]
pub struct ExStdMutexGuard<'a, T: ?Sized + 'a>(MutexGuard<'a, T>);

/// Calls `Mutex::new`: a mutex guarding `value`.
#[verifier::external_body]
pub(crate) fn new_mutex<T>(value: T) -> Mutex<T> {
    Mutex::new(value)
}

/// Calls `Mutex::lock`, which waits until the mutex is free. A mutex whose
/// previous holder panicked is locked all the same (`PoisonError::into_inner`):
/// every value stored in these mutexes is complete when the holder lets go.
///
/// std does not return from a second `lock` by the thread that already holds
/// the mutex. Verus has no notion of which thread holds a lock, so no
/// `requires` excludes that call; the callers in this library never make it
/// (see the module's comment).
#[verifier::external_body]
pub(crate) fn lock<T>(mutex: &Mutex<T>) -> MutexGuard<'_, T> {
    mutex.lock().unwrap_or_else(|poisoned| poisoned.into_inner())
}

/// Calls `<MutexGuard as Deref>::deref`: the value the guard protects.
#[verifier::external_body]
pub(crate) fn guarded<'g, 'a, T>(guard: &'g MutexGuard<'a, T>) -> &'g T {
    &**guard
}

/// Calls `<MutexGuard as DerefMut>::deref_mut`: the protected value, to change.
#[verifier::external_body]
pub(crate) fn guarded_mut<'g, 'a, T>(guard: &'g mut MutexGuard<'a, T>) -> &'g mut T {
    &mut **guard
}

/// Puts `value` in place of the value that the guard protects, returning
/// the value that was there.
pub(crate) fn replace_guarded<'a, T>(guard: &mut MutexGuard<'a, T>, value: T) -> T {
    let mut value = value;
    std::mem::swap(guarded_mut(guard), &mut value);
    value
}

} // verus!
