//! The subscriber list of a bus: one outgoing channel per subscription, in
//! the order in which the subscriptions were made.
//!
//! The list keeps account of what the bus has emitted and of what it has
//! handed to each of its channels. A channel that refuses a value has lost
//! its receiving side and leaves the list; the others keep their place. At
//! every moment each listed subscription has been handed exactly the values
//! that were emitted since it was made.

use crate::channel::{offer, open_channel, Subscription};
use crossbeam::channel::Sender;
use vstd::prelude::*;

verus! {

/// The entries that stay in a list after an emission. `taken` says, entry by
/// entry, whether the channel took the value: the entries that did stay, in
/// their order; the others are gone.
pub open spec fn retained<A>(entries: Seq<A>, taken: Seq<bool>) -> Seq<A>
    recommends
        taken.len() == entries.len(),
    decreases entries.len(),
{
    if entries.len() == 0 {
        Seq::empty()
    } else {
        let earlier = retained(entries.drop_last(), taken.drop_last());
        if taken.last() {
            earlier.push(entries.last())
        } else {
            earlier
        }
    }
}

/// What each channel has taken after one more emission: the entries whose
/// channel took the value stay, with the value added at the end.
pub open spec fn fan_out<T>(logs: Seq<Seq<T>>, value: T, taken: Seq<bool>) -> Seq<Seq<T>>
    recommends
        taken.len() == logs.len(),
{
    retained(logs, taken).map_values(|log: Seq<T>| log.push(value))
}

/// The answer of `count` channels that all take a value.
pub open spec fn all_taken(count: nat) -> Seq<bool> {
    Seq::new(count, |i: int| true)
}

/// What each channel has taken after the emission of `values`, one after the
/// other, while every subscription stays alive.
pub open spec fn broadcast<T>(logs: Seq<Seq<T>>, values: Seq<T>) -> Seq<Seq<T>>
    decreases values.len(),
{
    if values.len() == 0 {
        logs
    } else {
        fan_out(broadcast(logs, values.drop_last()), values.last(), all_taken(logs.len()))
    }
}

/// The list after one more subscription: a new entry at the end that has
/// taken nothing yet.
pub open spec fn subscribed<T>(logs: Seq<Seq<T>>) -> Seq<Seq<T>> {
    logs.push(Seq::empty())
}

/// The list after `count` more subscriptions.
pub open spec fn subscribed_times<T>(logs: Seq<Seq<T>>, count: nat) -> Seq<Seq<T>>
    decreases count,
{
    if count == 0 {
        logs
    } else {
        subscribed(subscribed_times(logs, (count - 1) as nat))
    }
}

/// Whether an account is in order. `history` is what the bus has emitted,
/// and for each listed subscription `logs` holds what its channel has taken
/// and `joined` how many values had been emitted when it was made. The
/// account is in order if every subscription has been handed exactly the
/// values emitted since it was made, in the order of emission.
pub open spec fn in_order<T>(logs: Seq<Seq<T>>, joined: Seq<nat>, history: Seq<T>) -> bool {
    &&& joined.len() == logs.len()
    &&& forall|i: int|
        #![trigger logs[i]]
        #![trigger joined[i]]
        0 <= i < logs.len() ==> {
            &&& joined[i] <= history.len()
            &&& logs[i] == history.skip(joined[i] as int)
        }
}

/// Where every channel takes the value, every entry stays.
pub proof fn lemma_retained_all<A>(entries: Seq<A>)
    ensures
        retained(entries, all_taken(entries.len())) == entries,
    decreases entries.len(),
{
    if entries.len() > 0 {
        let shorter = entries.drop_last();
        assert(all_taken(entries.len()).drop_last() =~= all_taken(shorter.len()));
        lemma_retained_all(shorter);
    }
}

/// Where every channel but one takes the value, that one entry leaves and
/// the others stay in their order.
pub proof fn lemma_retained_but_one<A>(entries: Seq<A>, dropped: int)
    requires
        0 <= dropped < entries.len(),
    ensures
        retained(entries, all_taken(entries.len()).update(dropped, false)) == entries.remove(
            dropped,
        ),
    decreases entries.len(),
{
    let taken = all_taken(entries.len()).update(dropped, false);
    let shorter = entries.drop_last();
    if dropped == entries.len() - 1 {
        assert(taken.drop_last() =~= all_taken(shorter.len()));
        lemma_retained_all(shorter);
    } else {
        assert(taken.drop_last() =~= all_taken(shorter.len()).update(dropped, false));
        lemma_retained_but_one(shorter, dropped);
    }
}

/// No entry is added by an emission: there are at most as many entries
/// after it as before.
pub proof fn lemma_retained_len<A>(entries: Seq<A>, taken: Seq<bool>)
    ensures
        retained(entries, taken).len() <= entries.len(),
    decreases entries.len(),
{
    if entries.len() > 0 {
        lemma_retained_len(entries.drop_last(), taken.drop_last());
    }
}

/// While every subscription stays alive, a run of emissions adds the emitted
/// values, in their order, to what each channel had taken before.
pub proof fn lemma_broadcast_appends<T>(logs: Seq<Seq<T>>, values: Seq<T>)
    ensures
        broadcast(logs, values) == Seq::new(logs.len(), |i: int| logs[i] + values),
    decreases values.len(),
{
    let expected = Seq::new(logs.len(), |i: int| logs[i] + values);
    if values.len() == 0 {
    } else {
        let sooner = broadcast(logs, values.drop_last());
        lemma_broadcast_appends(logs, values.drop_last());
        lemma_retained_all(sooner);
        assert forall|i: int| 0 <= i < logs.len() implies sooner[i].push(values.last())
            == #[trigger] expected[i] by {}
    }
}

/// Subscribing `count` times adds `count` entries at the end of the list,
/// none of which has taken anything, and leaves the earlier entries alone.
pub proof fn lemma_subscribed_times<T>(logs: Seq<Seq<T>>, count: nat)
    ensures
        subscribed_times(logs, count) == logs + Seq::new(count, |i: int| Seq::<T>::empty()),
    decreases count,
{
    if count > 0 {
        lemma_subscribed_times(logs, (count - 1) as nat);
    }
}

/// Broadcast completeness: after `count` subscriptions to a new bus and the
/// emission of `values`, every one of the subscriptions has been handed
/// exactly `values`, in the order of emission.
pub proof fn lemma_broadcast_completeness<T>(count: nat, values: Seq<T>)
    ensures
        broadcast(subscribed_times(Seq::<Seq<T>>::empty(), count), values) == Seq::new(
            count,
            |i: int| values,
        ),
{
    let fresh = subscribed_times(Seq::<Seq<T>>::empty(), count);
    lemma_subscribed_times(Seq::<Seq<T>>::empty(), count);
    lemma_broadcast_appends(fresh, values);
}

/// No retroactive delivery: a subscription made after the emission of
/// `earlier` is handed exactly the values emitted after it was made, and so
/// none of `earlier`; the subscriptions that were there before are handed
/// both runs.
pub proof fn lemma_no_retroactive_delivery<T>(logs: Seq<Seq<T>>, earlier: Seq<T>, later: Seq<T>)
    ensures
        broadcast(subscribed(broadcast(logs, earlier)), later).len() == logs.len() + 1,
        broadcast(subscribed(broadcast(logs, earlier)), later).last() == later,
        forall|i: int|
            0 <= i < logs.len() ==> #[trigger] broadcast(
                subscribed(broadcast(logs, earlier)),
                later,
            )[i] == logs[i] + earlier + later,
{
    lemma_broadcast_appends(logs, earlier);
    lemma_broadcast_appends(subscribed(broadcast(logs, earlier)), later);
}

/// Independent pruning: when one subscription of several has been dropped,
/// the next emission removes its entry and hands the value to every other
/// subscription, exactly as if all of them had been alive.
pub proof fn lemma_independent_pruning<T>(logs: Seq<Seq<T>>, value: T, dropped: int)
    requires
        0 <= dropped < logs.len(),
    ensures
        fan_out(logs, value, all_taken(logs.len()).update(dropped, false)) == fan_out(
            logs,
            value,
            all_taken(logs.len()),
        ).remove(dropped),
        fan_out(logs, value, all_taken(logs.len()).update(dropped, false)) == Seq::new(
            (logs.len() - 1) as nat,
            |i: int|
                if i < dropped {
                    logs[i].push(value)
                } else {
                    logs[i + 1].push(value)
                },
        ),
{
    lemma_retained_but_one(logs, dropped);
    lemma_retained_all(logs);
}

/// A subscription keeps the account in order: the new subscription has
/// been handed nothing, and nothing has been emitted since it was made.
pub proof fn lemma_subscription_keeps_order<T>(
    logs: Seq<Seq<T>>,
    joined: Seq<nat>,
    history: Seq<T>,
)
    requires
        in_order(logs, joined, history),
    ensures
        in_order(subscribed(logs), joined.push(history.len()), history),
{
    let later = subscribed(logs);
    let starts = joined.push(history.len());
    assert forall|i: int|
        #![trigger later[i]]
        #![trigger starts[i]]
        0 <= i < later.len() implies {
        &&& starts[i] <= history.len()
        &&& later[i] == history.skip(starts[i] as int)
    } by {}
}

/// An emission keeps the account in order, whichever channels take the
/// value: those that do have been handed one value more, the value that was
/// emitted, and the others are no longer listed.
pub proof fn lemma_emission_keeps_order<T>(
    logs: Seq<Seq<T>>,
    joined: Seq<nat>,
    history: Seq<T>,
    value: T,
    taken: Seq<bool>,
)
    requires
        in_order(logs, joined, history),
        taken.len() == logs.len(),
    ensures
        in_order(fan_out(logs, value, taken), retained(joined, taken), history.push(value)),
    decreases logs.len(),
{
    if logs.len() > 0 {
        let later = fan_out(logs, value, taken);
        let starts = retained(joined, taken);
        let emitted = history.push(value);
        lemma_emission_keeps_order(
            logs.drop_last(),
            joined.drop_last(),
            history,
            value,
            taken.drop_last(),
        );
        if taken.last() {
            assert forall|i: int|
                #![trigger later[i]]
                #![trigger starts[i]]
                0 <= i < later.len() implies {
                &&& starts[i] <= emitted.len()
                &&& later[i] == emitted.skip(starts[i] as int)
            } by {}
        }
    }
}

/// One entry of the list.
#[verifier::reject_recursive_types(T)]
struct Outlet<T> {
    sender: Sender<T>,
    /// The values of which the channel has taken a copy, oldest first.
    log: Ghost<Seq<T>>,
    /// How many values the bus had emitted when the subscription was made.
    since: Ghost<nat>,
}

/// The subscriber list of one bus.
#[verifier::reject_recursive_types(T)]
pub struct Subscribers<T> {
    outlets: Vec<Outlet<T>>,
    /// Every value that the bus has emitted, oldest first.
    history: Ghost<Seq<T>>,
}

spec fn logs_of<T>(outlets: Seq<Outlet<T>>) -> Seq<Seq<T>> {
    Seq::new(outlets.len(), |i: int| outlets[i].log@)
}

spec fn starts_of<T>(outlets: Seq<Outlet<T>>) -> Seq<nat> {
    Seq::new(outlets.len(), |i: int| outlets[i].since@)
}

impl<T> View for Subscribers<T> {
    type V = Seq<Seq<T>>;

    /// For each subscription that is still listed, in the order of
    /// subscribing, the values that its channel has taken so far.
    closed spec fn view(&self) -> Seq<Seq<T>> {
        logs_of(self.outlets@)
    }
}

impl<T> Subscribers<T> {
    #[verifier::type_invariant]
    spec fn accounted(self) -> bool {
        self.wf()
    }

    /// Every value that the bus has emitted, oldest first.
    pub closed spec fn history(&self) -> Seq<T> {
        self.history@
    }

    /// For each subscription that is still listed, how many values the bus
    /// had emitted when the subscription was made.
    pub closed spec fn joined(&self) -> Seq<nat> {
        starts_of(self.outlets@)
    }

    /// The account is in order: every listed subscription has been handed
    /// exactly the values that the bus has emitted since the subscription was
    /// made, in the order of emission. This holds of every list at every
    /// moment.
    pub open spec fn wf(&self) -> bool {
        in_order(self@, self.joined(), self.history())
    }

    /// An empty list of a bus that has emitted nothing.
    pub fn new() -> (list: Self)
        ensures
            list.wf(),
            list@ == Seq::<Seq<T>>::empty(),
            list.history() == Seq::<T>::empty(),
    {
        let list = Subscribers { outlets: Vec::new(), history: Ghost(Seq::empty()) };
        list
    }

    /// The number of subscriptions in the list.
    pub fn len(&self) -> (count: usize)
        ensures
            count == self@.len(),
    {
        self.outlets.len()
    }

    /// Adds a subscription at the end of the list and returns the receiving
    /// side of its channel.
    pub fn register(&mut self) -> (inbox: Subscription<T>)
        ensures
            final(self).wf(),
            final(self)@ == subscribed(old(self)@),
            final(self).history() == old(self).history(),
            final(self).joined() == old(self).joined().push(old(self).history().len()),
    {
        proof {
            use_type_invariant(&*self);
        }
        let (sender, inbox) = open_channel::<T>();
        let ghost history = self.history@;
        let mut outlets: Vec<Outlet<T>> = Vec::new();
        std::mem::swap(&mut outlets, &mut self.outlets);
        outlets.push(Outlet { sender, log: Ghost(Seq::empty()), since: Ghost(history.len()) });
        proof {
            assert(starts_of(outlets@) =~= old(self).joined().push(history.len()));
            lemma_subscription_keeps_order(old(self)@, old(self).joined(), history);
        }
        *self = Subscribers { outlets, history: Ghost(history) };
        inbox
    }

    /// Offers a copy of `value` to every channel, in the order of the list,
    /// and drops from the list the channels that refuse it. Returns, entry by
    /// entry of the list as it was, whether the channel took the value.
    ///
    /// The list is only changed when every channel has answered, and then in
    /// one step.
    pub fn deliver(&mut self, value: T) -> (taken: Vec<bool>) where T: Clone
        ensures
            final(self).wf(),
            taken@.len() == old(self)@.len(),
            final(self)@ == fan_out(old(self)@, value, taken@),
            final(self).history() == old(self).history().push(value),
            final(self).joined() == retained(old(self).joined(), taken@),
    {
        let count: usize = self.outlets.len();
        let mut taken: Vec<bool> = Vec::new();
        let mut position: usize = 0;
        while position < count
            invariant
                position <= count,
                count == self.outlets.len(),
                taken@.len() == position,
                *self == *old(self),
            decreases count - position,
        {
            let accepted: bool = offer(&self.outlets[position].sender, value.clone());
            taken.push(accepted);
            position += 1;
        }
        self.settle(Ghost(value), &taken);
        taken
    }

    /// Brings the list up to date after the emission of `value`, of which
    /// `taken` says, entry by entry, whether the channel took it.
    fn settle(&mut self, Ghost(value): Ghost<T>, taken: &Vec<bool>)
        requires
            taken@.len() == old(self)@.len(),
        ensures
            final(self).wf(),
            final(self)@ == fan_out(old(self)@, value, taken@),
            final(self).history() == old(self).history().push(value),
            final(self).joined() == retained(old(self).joined(), taken@),
    {
        proof {
            use_type_invariant(&*self);
        }
        let ghost before = self.outlets@;
        let ghost emitted = self.history@.push(value);
        let mut pending: Vec<Outlet<T>> = Vec::new();
        std::mem::swap(&mut pending, &mut self.outlets);
        let mut kept: Vec<Outlet<T>> = Vec::new();
        let mut position: usize = 0;
        assert(before.len() == pending.len());
        for outlet in entries: pending
            invariant
                entries.seq() == before,
                taken@.len() == before.len(),
                before.len() <= usize::MAX,
                position == entries.index(),
                logs_of(kept@) == fan_out(
                    logs_of(before.take(position as int)),
                    value,
                    taken@.take(position as int),
                ),
                starts_of(kept@) == retained(
                    starts_of(before.take(position as int)),
                    taken@.take(position as int),
                ),
        {
            let ghost i = position as int;
            let ghost kept_before = kept@;
            let accepted: bool = taken[position];
            let ghost log = outlet.log@;
            let ghost since = outlet.since@;
            if accepted {
                kept.push(
                    Outlet {
                        sender: outlet.sender,
                        log: Ghost(log.push(value)),
                        since: Ghost(since),
                    },
                );
            }
            position += 1;
            proof {
                let seen = before.take(i + 1);
                let answers = taken@.take(i + 1);
                assert(logs_of(seen).drop_last() =~= logs_of(before.take(i)));
                assert(starts_of(seen).drop_last() =~= starts_of(before.take(i)));
                assert(answers.drop_last() =~= taken@.take(i));
                if accepted {
                    assert(logs_of(kept@) =~= logs_of(kept_before).push(log.push(value)));
                }
            }
        }
        proof {
            assert(before.take(before.len() as int) =~= before);
            assert(taken@.take(before.len() as int) =~= taken@);
            lemma_emission_keeps_order(
                old(self)@,
                old(self).joined(),
                old(self).history(),
                value,
                taken@,
            );
        }
        *self = Subscribers { outlets: kept, history: Ghost(emitted) };
    }
}

} // verus!
