//! What the bus takes from `std::sync`: the lock around its subscriber list
//! and the shared pointer to it.
//!
//! The verifier sees nothing inside a lock. What it knows of a value that
//! comes out of one is what it knows of every value of that type.

use std::sync::{Arc, Mutex, MutexGuard, PoisonError};
use vstd::prelude::*;

verus! {

/// `std::sync::Mutex`.
#[verifier::external_type_specification]
#[verifier::external_body]
#[verifier::reject_recursive_types(V)]
pub struct ExMutex<V: ?Sized>(Mutex<V>);

/// `std::sync::MutexGuard`, which keeps a lock held for as long as it lives.
#[verifier::external_type_specification]
#[verifier::external_body]
#[verifier::reject_recursive_types(V)]
pub struct ExMutexGuard<'a, V: ?Sized + 'a>(MutexGuard<'a, V>);

/// `std::sync::PoisonError`, the answer of a lock whose holder panicked.
#[verifier::external_type_specification]
#[verifier::external_body]
#[verifier::reject_recursive_types(G)]
pub struct ExPoisonError<G>(PoisonError<G>);

/// Calls `Mutex::new`, which puts a value under a new lock.
#[verifier::external_body]
pub(crate) fn new_lock<V>(value: V) -> (lock: Mutex<V>) {
    Mutex::new(value)
}

/// Calls `Mutex::lock`, which waits until the lock is free and takes it. The
/// answer is an error if an earlier holder panicked; the lock is taken in
/// either case. A thread that holds the lock already must not call this: it
/// would wait for itself. Nothing is claimed of the guard.
#[verifier::external_body]
pub(crate) fn acquire<'a, V>(lock: &'a Mutex<V>) -> (outcome: Result<
    MutexGuard<'a, V>,
    PoisonError<MutexGuard<'a, V>>,
>) {
    lock.lock()
}

/// Calls `PoisonError::into_inner`, which hands out the guard that came with
/// the error.
#[verifier::external_body]
pub(crate) fn recover<G>(poisoned: PoisonError<G>) -> (guard: G) {
    poisoned.into_inner()
}

/// Calls `DerefMut::deref_mut` on a guard, which gives access to the value
/// under the lock.
#[verifier::external_body]
pub(crate) fn contents<'a, 'b, V>(guard: &'a mut MutexGuard<'b, V>) -> (value: &'a mut V) {
    std::ops::DerefMut::deref_mut(guard)
}

/// Calls `Arc::clone`, which returns another pointer to the same allocation.
/// To the verifier a shared pointer is the value it points to, so the two are
/// equal.
#[verifier::external_body]
pub(crate) fn share<V>(handle: &Arc<V>) -> (other: Arc<V>)
    ensures
        other == handle,
{
    Arc::clone(handle)
}

} // verus!
