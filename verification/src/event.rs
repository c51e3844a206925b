//! The broadcast bus: every value that is emitted goes to every subscription
//! that is alive at that moment.

use crate::channel::Subscription;
use crate::subscribers::Subscribers;
use crate::sync::{acquire, contents, new_lock, recover, share};
use std::sync::{Arc, Mutex, MutexGuard};
use vstd::prelude::*;

verus! {

/// A handle to a broadcast bus of values of type `T`.
///
/// All clones of a handle lead to the same subscriber list, and the list
/// lives as long as one of them does. The list is only read or changed under
/// its lock, one caller at a time. What the list holds at a given moment is
/// therefore no property of a handle, and the functions below cannot speak
/// of it: what an emission or a subscription does to the list is stated on
/// [`Subscribers`], whose functions they call with the lock held.
///
/// The copies of an emitted value are made with the lock held. If a `Clone`
/// of `T` panics, the list is as it was before that emission, since an
/// emission changes the list only when every channel has answered; the lock
/// is taken all the same by whoever comes next. A `Clone` of `T` that itself
/// uses the same bus waits for the lock for ever.
#[verifier::reject_recursive_types(T)]
pub struct Event<T: Clone + Send + 'static> {
    subscribers: Arc<Mutex<Subscribers<T>>>,
}

impl<T: Clone + Send + 'static> Event<T> {
    /// A new bus without subscriptions.
    pub fn new() -> (bus: Self) {
        Event { subscribers: Arc::new(new_lock(Subscribers::new())) }
    }

    fn lock(&self) -> (guard: MutexGuard<'_, Subscribers<T>>) {
        match acquire(&self.subscribers) {
            Ok(guard) => guard,
            Err(poisoned) => recover(poisoned),
        }
    }

    /// Broadcasts `value`: hands a copy of it to every subscription, in the
    /// order in which they were made, and forgets the subscriptions whose
    /// receiving side is gone. Never fails, with or without subscriptions.
    pub fn emit(&self, value: T) {
        let mut guard = self.lock();
        let list = contents(&mut guard);
        let _ = list.deliver(value);
    }

    /// Makes a new subscription and returns its receiving side, on which every
    /// value emitted from now on arrives, in the order of emission.
    pub fn subscribe(&self) -> (inbox: Subscription<T>) {
        let mut guard = self.lock();
        let list = contents(&mut guard);
        list.register()
    }

    /// The number of subscriptions that the bus currently lists. A
    /// subscription whose receiving side was dropped is counted until the next
    /// emission finds it.
    pub fn subscriber_count(&self) -> (count: usize) {
        let mut guard = self.lock();
        let list = contents(&mut guard);
        list.len()
    }
}

impl<T: Clone + Send + 'static> Clone for Event<T> {
    /// Another handle to the same bus.
    fn clone(&self) -> (other: Self)
        ensures
            other == *self,
    {
        Event { subscribers: share(&self.subscribers) }
    }
}

impl<T: Clone + Send + 'static> Default for Event<T> {
    /// A new bus without subscriptions.
    fn default() -> (bus: Self) {
        Self::new()
    }
}

} // verus!
