//! The unbounded channels that carry values from a bus to its subscriptions.

use crossbeam::channel::{Receiver, Sender};
use vstd::prelude::*;

verus! {

/// The sending half of a `crossbeam` channel. Nothing inside it is visible to
/// the verifier.
#[verifier::external_type_specification]
#[verifier::external_body]
#[verifier::reject_recursive_types(T)]
pub struct ExSender<T>(Sender<T>);

/// The receiving half of a `crossbeam` channel. Nothing inside it is visible
/// to the verifier.
#[verifier::external_type_specification]
#[verifier::external_body]
#[verifier::reject_recursive_types(T)]
pub struct ExReceiver<T>(Receiver<T>);

/// A subscription to a bus: a private inbox that holds, in the order of
/// emission, the values emitted since the subscription was made and not read
/// yet. It has no bound. Dropping it ends the subscription.
///
/// It is read with the functions of the receiving side itself: `try_recv`
/// answers at once, `recv_timeout` waits for a limited time, and both tell a
/// bus that is gone for good from an inbox that is empty for now.
pub type Subscription<T> = Receiver<T>;

/// Calls `crossbeam::channel::unbounded`, which makes a channel without a
/// bound and returns its two sides. Nothing is claimed of them.
#[verifier::external_body]
pub(crate) fn open_channel<T>() -> (sides: (Sender<T>, Receiver<T>)) {
    crossbeam::channel::unbounded()
}

/// Calls `crossbeam::channel::Sender::send` and reports whether the channel
/// took the value. A channel without a bound takes it unless every receiver
/// is gone; whether one is left is not known here, so nothing is claimed of
/// the answer.
#[verifier::external_body]
pub(crate) fn offer<T>(sender: &Sender<T>, value: T) -> (taken: bool) {
    sender.send(value).is_ok()
}

} // verus!
