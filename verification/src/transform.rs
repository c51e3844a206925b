//! Stream transformations: a derived bus that is fed from a subscription to
//! another bus, through a stage that maps, filters or rate-limits.
//!
//! A transformation is run by a worker that reads its input subscription to
//! the end and hands every value to the stage, in the order of arrival. What
//! the stage does with one value is decided here; the worker itself is a
//! loop around [`MapStage::forward`], [`FilterStage::forward`] or
//! [`DebounceStage::forward`], which ends when the source bus is gone.
//!
//! The function of a mapping stage and the predicate of a filtering stage
//! have to accept every value that arrives. One that fails on a value fails
//! the worker with it: nothing is skipped, and nothing more is forwarded.

use crate::channel::Subscription;
use crate::debounce::Debouncer;
use crate::event::Event;
use crate::subscribers::{broadcast, lemma_broadcast_completeness, subscribed_times};
use vstd::prelude::*;

verus! {

/// Whether the function `f` computes `g`: whatever `f` returns for a value is
/// the image of that value under `g`.
pub open spec fn computes<T, U, F: Fn(T) -> U>(f: F, g: spec_fn(T) -> U) -> bool {
    forall|value: T, image: U| #[trigger] f.ensures((value,), image) ==> image == g(value)
}

/// Whether the predicate `predicate` decides `keep`: whatever it answers for a
/// value is the truth of `keep` on that value.
pub open spec fn decides<T, P: Fn(&T) -> bool>(predicate: P, keep: spec_fn(T) -> bool) -> bool {
    forall|value: T, verdict: bool| #[trigger]
        predicate.ensures((&value,), verdict) ==> verdict == keep(value)
}

/// What a mapping stage may hand on for one value: always something, an image
/// of the value under the function.
pub open spec fn map_step<T, U, F: Fn(T) -> U>(f: F, value: T, out: Option<U>) -> bool {
    match out {
        Some(image) => f.ensures((value,), image),
        None => false,
    }
}

/// What a filtering stage may hand on for one value: the value itself where
/// the predicate holds of it, nothing where it does not.
pub open spec fn filter_step<T, P: Fn(&T) -> bool>(predicate: P, value: T, out: Option<T>) -> bool {
    match out {
        Some(passed) => passed == value && predicate.ensures((&value,), true),
        None => predicate.ensures((&value,), false),
    }
}

/// What a single stage may hand on for one value if it filters and then maps:
/// an image of the value where the predicate holds of it, nothing where it
/// does not.
pub open spec fn filter_then_map_step<T, U, P: Fn(&T) -> bool, F: Fn(T) -> U>(
    predicate: P,
    f: F,
    value: T,
    out: Option<U>,
) -> bool {
    match out {
        Some(image) => predicate.ensures((&value,), true) && f.ensures((value,), image),
        None => predicate.ensures((&value,), false),
    }
}

/// Whether `outputs` is what a worker may emit, in this order, that reads
/// `values` and asks a stage about each: `step` says what the stage may hand
/// on for one value.
pub open spec fn relays<T, U>(
    step: spec_fn(T, Option<U>) -> bool,
    values: Seq<T>,
    outputs: Seq<U>,
) -> bool
    decreases values.len(),
{
    if values.len() == 0 {
        outputs.len() == 0
    } else {
        ||| step(values.last(), None) && relays(step, values.drop_last(), outputs)
        ||| outputs.len() > 0 && step(values.last(), Some(outputs.last())) && relays(
            step,
            values.drop_last(),
            outputs.drop_last(),
        )
    }
}

/// The step of a mapping stage with the function `f`.
pub open spec fn mapping<T, U, F: Fn(T) -> U>(f: F) -> spec_fn(T, Option<U>) -> bool {
    |value: T, out: Option<U>| map_step(f, value, out)
}

/// The step of a filtering stage with the predicate `predicate`.
pub open spec fn filtering<T, P: Fn(&T) -> bool>(predicate: P) -> spec_fn(T, Option<T>) -> bool {
    |value: T, out: Option<T>| filter_step(predicate, value, out)
}

/// The step of a single stage that filters with `predicate` and then maps
/// with `f`.
pub open spec fn filtering_then_mapping<T, U, P: Fn(&T) -> bool, F: Fn(T) -> U>(
    predicate: P,
    f: F,
) -> spec_fn(T, Option<U>) -> bool {
    |value: T, out: Option<U>| filter_then_map_step(predicate, f, value, out)
}

/// What a value becomes if it is filtered by `keep` and then mapped by `g`.
pub open spec fn kept_image<T, U>(keep: spec_fn(T) -> bool, g: spec_fn(T) -> U) -> spec_fn(T) -> Option<U> {
    |value: T|
        if keep(value) {
            Some(g(value))
        } else {
            None
        }
}

/// Equivalence of `map`: a worker with a mapping stage emits, for the values
/// `values` of its input, exactly their images, in the same order; and each
/// of `count` subscriptions made to the derived bus before that is handed
/// exactly these.
pub proof fn lemma_map_equivalence<T, U, F: Fn(T) -> U>(
    f: F,
    g: spec_fn(T) -> U,
    values: Seq<T>,
    outputs: Seq<U>,
    count: nat,
)
    requires
        computes(f, g),
        relays(mapping(f), values, outputs),
    ensures
        outputs == values.map_values(g),
        broadcast(subscribed_times(Seq::<Seq<U>>::empty(), count), outputs) == Seq::new(
            count,
            |i: int| values.map_values(g),
        ),
    decreases values.len(),
{
    if values.len() > 0 {
        lemma_map_equivalence(f, g, values.drop_last(), outputs.drop_last(), 0);
        assert(outputs =~= outputs.drop_last().push(outputs.last()));
    }
    lemma_broadcast_completeness(count, outputs);
}

/// Equivalence of `filter`: a worker with a filtering stage emits, for the
/// values `values` of its input, exactly those of which the predicate holds,
/// in the same order and with nothing added; and each of `count`
/// subscriptions made to the derived bus before that is handed exactly these.
pub proof fn lemma_filter_equivalence<T, P: Fn(&T) -> bool>(
    predicate: P,
    keep: spec_fn(T) -> bool,
    values: Seq<T>,
    outputs: Seq<T>,
    count: nat,
)
    requires
        decides(predicate, keep),
        relays(filtering(predicate), values, outputs),
    ensures
        outputs == values.filter(keep),
        broadcast(subscribed_times(Seq::<Seq<T>>::empty(), count), outputs) == Seq::new(
            count,
            |i: int| values.filter(keep),
        ),
    decreases values.len(),
{
    reveal(Seq::filter);
    if values.len() > 0 {
        if filter_step(predicate, values.last(), None::<T>) && relays(
            filtering(predicate),
            values.drop_last(),
            outputs,
        ) {
            lemma_filter_equivalence(predicate, keep, values.drop_last(), outputs, 0);
        } else {
            lemma_filter_equivalence(predicate, keep, values.drop_last(), outputs.drop_last(), 0);
            assert(outputs =~= outputs.drop_last().push(outputs.last()));
        }
    }
    lemma_broadcast_completeness(count, outputs);
}

/// A single stage that filters and then maps emits, for the values `values`
/// of its input, the images of those of which the predicate holds, in the
/// same order.
pub proof fn lemma_filter_then_map_in_one_stage<T, U, P: Fn(&T) -> bool, F: Fn(T) -> U>(
    predicate: P,
    f: F,
    keep: spec_fn(T) -> bool,
    g: spec_fn(T) -> U,
    values: Seq<T>,
    outputs: Seq<U>,
)
    requires
        decides(predicate, keep),
        computes(f, g),
        relays(filtering_then_mapping(predicate, f), values, outputs),
    ensures
        outputs == values.filter_map(kept_image(keep, g)),
    decreases values.len(),
{
    if values.len() > 0 {
        if filter_then_map_step(predicate, f, values.last(), None::<U>) && relays(
            filtering_then_mapping(predicate, f),
            values.drop_last(),
            outputs,
        ) {
            lemma_filter_then_map_in_one_stage(predicate, f, keep, g, values.drop_last(), outputs);
        } else {
            lemma_filter_then_map_in_one_stage(
                predicate,
                f,
                keep,
                g,
                values.drop_last(),
                outputs.drop_last(),
            );
        }
    }
}

/// Filtering a sequence and mapping what is left gives what filtering and
/// mapping element by element gives.
pub proof fn lemma_filter_map_values<T, U>(
    values: Seq<T>,
    keep: spec_fn(T) -> bool,
    g: spec_fn(T) -> U,
)
    ensures
        values.filter(keep).map_values(g) == values.filter_map(kept_image(keep, g)),
    decreases values.len(),
{
    reveal(Seq::filter);
    if values.len() > 0 {
        lemma_filter_map_values(values.drop_last(), keep, g);
    }
}

/// Composition: a filtering stage followed by a mapping stage emits the
/// same sequence as a single stage that filters and then maps each value,
/// whatever finite sequence goes in.
pub proof fn lemma_composition<T, U, P: Fn(&T) -> bool, F: Fn(T) -> U>(
    predicate: P,
    f: F,
    keep: spec_fn(T) -> bool,
    g: spec_fn(T) -> U,
    values: Seq<T>,
    passed: Seq<T>,
    chained: Seq<U>,
    fused: Seq<U>,
)
    requires
        decides(predicate, keep),
        computes(f, g),
        relays(filtering(predicate), values, passed),
        relays(mapping(f), passed, chained),
        relays(filtering_then_mapping(predicate, f), values, fused),
    ensures
        chained == fused,
        chained == values.filter(keep).map_values(g),
{
    lemma_filter_equivalence(predicate, keep, values, passed, 0);
    lemma_map_equivalence(f, g, passed, chained, 0);
    lemma_filter_then_map_in_one_stage(predicate, f, keep, g, values, fused);
    lemma_filter_map_values(values, keep, g);
}

/// A stage that hands on the image of every value under a function.
#[verifier::reject_recursive_types(U)]
pub struct MapStage<U: Clone + Send + 'static, F> {
    f: F,
    downstream: Event<U>,
}

impl<U: Clone + Send + 'static, F> MapStage<U, F> {
    /// The function of the stage.
    pub closed spec fn function(&self) -> F {
        self.f
    }

    /// The bus that the stage emits into.
    pub closed spec fn downstream(&self) -> Event<U> {
        self.downstream
    }

    /// A stage that maps with `f` and emits into `downstream`.
    pub fn new(f: F, downstream: Event<U>) -> (stage: Self)
        ensures
            stage.function() == f,
            stage.downstream() == downstream,
    {
        MapStage { f, downstream }
    }

    /// A handle to the bus that the stage emits into.
    pub fn output(&self) -> (bus: Event<U>)
        ensures
            bus == self.downstream(),
    {
        self.downstream.clone()
    }

    /// What the stage hands on for `value`: its image under the function.
    pub fn apply<T>(&self, value: T) -> (image: U) where F: Fn(T) -> U
        requires
            self.function().requires((value,)),
        ensures
            map_step(self.function(), value, Some(image)),
    {
        (self.f)(value)
    }

    /// Handles one value of the input: emits its image into the derived bus.
    pub fn forward<T>(&self, value: T) where F: Fn(T) -> U
        requires
            self.function().requires((value,)),
    {
        let image = self.apply(value);
        self.downstream.emit(image);
    }
}

/// A stage that hands on the values of which a predicate holds.
#[verifier::reject_recursive_types(T)]
pub struct FilterStage<T: Clone + Send + 'static, P> {
    predicate: P,
    downstream: Event<T>,
}

impl<T: Clone + Send + 'static, P: Fn(&T) -> bool> FilterStage<T, P> {
    /// The predicate of the stage.
    pub closed spec fn predicate(&self) -> P {
        self.predicate
    }

    /// The bus that the stage emits into.
    pub closed spec fn downstream(&self) -> Event<T> {
        self.downstream
    }

    /// A stage that filters with `predicate` and emits into `downstream`.
    pub fn new(predicate: P, downstream: Event<T>) -> (stage: Self)
        ensures
            stage.predicate() == predicate,
            stage.downstream() == downstream,
    {
        FilterStage { predicate, downstream }
    }

    /// A handle to the bus that the stage emits into.
    pub fn output(&self) -> (bus: Event<T>)
        ensures
            bus == self.downstream(),
    {
        self.downstream.clone()
    }

    /// What the stage hands on for `value`: the value where the predicate
    /// holds of it, nothing where it does not.
    pub fn apply(&self, value: T) -> (out: Option<T>)
        requires
            self.predicate().requires((&value,)),
        ensures
            filter_step(self.predicate(), value, out),
    {
        if (self.predicate)(&value) {
            Some(value)
        } else {
            None
        }
    }

    /// Handles one value of the input: emits it into the derived bus where
    /// the predicate holds of it, and drops it silently where it does not.
    /// Returns whether the value was emitted.
    pub fn forward(&self, value: T) -> (passed: bool)
        requires
            self.predicate().requires((&value,)),
        ensures
            self.predicate().ensures((&value,), passed),
    {
        match self.apply(value) {
            Some(kept) => {
                self.downstream.emit(kept);
                true
            },
            None => false,
        }
    }
}

/// A stage that hands on a value only if enough time has passed since the
/// last one that it handed on.
#[verifier::reject_recursive_types(T)]
pub struct DebounceStage<T: Clone + Send + 'static> {
    limiter: Debouncer,
    downstream: Event<T>,
}

impl<T: Clone + Send + 'static> DebounceStage<T> {
    /// The rate limiter of the stage, in its present state.
    pub closed spec fn limiter(&self) -> Debouncer {
        self.limiter
    }

    /// The bus that the stage emits into.
    pub closed spec fn downstream(&self) -> Event<T> {
        self.downstream
    }

    /// A stage that has let nothing pass yet, lets values pass that are at
    /// least `window` nanoseconds apart, and emits into `downstream`.
    pub fn new(window: u128, downstream: Event<T>) -> (stage: Self)
        ensures
            stage.limiter() == Debouncer::fresh(window),
            stage.downstream() == downstream,
    {
        DebounceStage { limiter: Debouncer::new(window), downstream }
    }

    /// A handle to the bus that the stage emits into.
    pub fn output(&self) -> (bus: Event<T>)
        ensures
            bus == self.downstream(),
    {
        self.downstream.clone()
    }

    /// What the stage hands on for a value that arrives at `now`: the value
    /// if the rate limiter lets it pass, nothing if not.
    pub fn apply(&mut self, now: u128, value: T) -> (out: Option<T>)
        ensures
            out == if old(self).limiter().passes(now) {
                Some(value)
            } else {
                None
            },
            final(self).limiter() == old(self).limiter().after(now),
            final(self).downstream() == old(self).downstream(),
    {
        if self.limiter.observe(now) {
            Some(value)
        } else {
            None
        }
    }

    /// Handles one value of the input, which has arrived at `now`: emits it
    /// into the derived bus if the rate limiter lets it pass, and drops it
    /// silently if not. Returns whether the value was emitted.
    pub fn forward(&mut self, now: u128, value: T) -> (passed: bool)
        ensures
            passed == old(self).limiter().passes(now),
            final(self).limiter() == old(self).limiter().after(now),
            final(self).downstream() == old(self).downstream(),
    {
        match self.apply(now, value) {
            Some(kept) => {
                self.downstream.emit(kept);
                true
            },
            None => false,
        }
    }
}

/// A transformation that is set up and waits to be run: the subscription
/// that its worker reads, and the stage that the worker hands each value to.
#[verifier::reject_recursive_types(T)]
pub struct Worker<T, S> {
    /// The subscription to the source bus. Nobody but the worker reads it.
    pub input: Subscription<T>,
    /// The stage, which holds the derived bus.
    pub stage: S,
}

impl<T: Clone + Send + 'static> Event<T> {
    /// Sets up a derived bus that carries the image under `f` of every value
    /// of this bus: makes the derived bus, subscribes to this one, and
    /// returns the subscription with the stage that is to handle its values.
    pub fn map<U, F>(self, f: F) -> (worker: Worker<T, MapStage<U, F>>) where
        U: Clone + Send + 'static,
        F: Fn(T) -> U + Send + Sync + 'static,

        ensures
            worker.stage.function() == f,
    {
        let downstream = Event::<U>::new();
        let input = self.subscribe();
        Worker { input, stage: MapStage::new(f, downstream) }
    }

    /// Sets up a derived bus that carries the values of this bus of which
    /// `predicate` holds: makes the derived bus, subscribes to this one, and
    /// returns the subscription with the stage that is to handle its values.
    pub fn filter<P>(self, predicate: P) -> (worker: Worker<T, FilterStage<T, P>>) where
        P: Fn(&T) -> bool + Send + Sync + 'static,

        ensures
            worker.stage.predicate() == predicate,
    {
        let downstream = Event::<T>::new();
        let input = self.subscribe();
        Worker { input, stage: FilterStage::new(predicate, downstream) }
    }

    /// Sets up a derived bus that carries a value of this bus only if at least
    /// `window` nanoseconds have passed since the last value that it carried:
    /// makes the derived bus, subscribes to this one, and returns the
    /// subscription with the stage that is to handle its values.
    pub fn debounce(self, window: u128) -> (worker: Worker<T, DebounceStage<T>>)
        ensures
            worker.stage.limiter() == Debouncer::fresh(window),
    {
        let downstream = Event::<T>::new();
        let input = self.subscribe();
        Worker { input, stage: DebounceStage::new(window, downstream) }
    }
}

} // verus!
