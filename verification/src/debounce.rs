//! Leading-edge rate limiting: the first value of a burst passes, and what
//! follows it within the window is suppressed.
//!
//! Times are readings of a clock in nanoseconds. The clock is expected not to
//! run backwards; a reading earlier than the last emission counts as no time
//! elapsed.

use vstd::prelude::*;

verus! {

/// The time from `earlier` to `now`, and zero where `now` is the earlier of
/// the two.
pub open spec fn elapsed(earlier: u128, now: u128) -> nat {
    if now >= earlier {
        (now - earlier) as nat
    } else {
        0
    }
}

/// The state of a rate limiter: its window, and the time of the last value
/// that it let pass, if it has let one pass.
#[derive(Debug, Clone, Copy, PartialEq, Eq, Structural)]
pub struct Debouncer {
    /// The least time between two values that pass.
    pub window: u128,
    /// The time at which the last value passed.
    pub last_emit: Option<u128>,
}

impl Debouncer {
    /// A rate limiter that has let nothing pass yet.
    pub open spec fn fresh(window: u128) -> Debouncer {
        Debouncer { window, last_emit: None }
    }

    /// Whether a value that arrives at `now` passes: it does if nothing has
    /// passed before, or if at least the window has elapsed since the last
    /// value passed.
    pub open spec fn passes(self, now: u128) -> bool {
        match self.last_emit {
            None => true,
            Some(previous) => elapsed(previous, now) >= self.window,
        }
    }

    /// The state after a value has arrived at `now`: the time of the last
    /// emission moves to `now` if the value passes, and stays if it does not.
    pub open spec fn after(self, now: u128) -> Debouncer {
        if self.passes(now) {
            Debouncer { window: self.window, last_emit: Some(now) }
        } else {
            self
        }
    }

    /// A rate limiter with the given window that has let nothing pass yet.
    pub fn new(window: u128) -> (limiter: Self)
        ensures
            limiter == Self::fresh(window),
    {
        Debouncer { window, last_emit: None }
    }

    /// Decides about a value that arrives at `now`, and remembers the time if
    /// the value passes.
    pub fn observe(&mut self, now: u128) -> (passed: bool)
        ensures
            passed == old(self).passes(now),
            *final(self) == old(self).after(now),
    {
        let passed = match self.last_emit {
            None => true,
            Some(previous) => {
                let gap: u128 = if now >= previous {
                    now - previous
                } else {
                    0
                };
                gap >= self.window
            },
        };
        if passed {
            self.last_emit = Some(now);
        }
        passed
    }
}

/// The state of a rate limiter after the values `arrivals`, each given with
/// the time at which it arrived.
pub open spec fn settled<T>(state: Debouncer, arrivals: Seq<(u128, T)>) -> Debouncer
    decreases arrivals.len(),
{
    if arrivals.len() == 0 {
        state
    } else {
        settled(state, arrivals.drop_last()).after(arrivals.last().0)
    }
}

/// The values that a rate limiter in state `state` lets pass of `arrivals`,
/// each given with the time at which it arrived.
pub open spec fn debounced<T>(state: Debouncer, arrivals: Seq<(u128, T)>) -> Seq<T>
    decreases arrivals.len(),
{
    if arrivals.len() == 0 {
        Seq::empty()
    } else {
        let sooner = debounced(state, arrivals.drop_last());
        if settled(state, arrivals.drop_last()).passes(arrivals.last().0) {
            sooner.push(arrivals.last().1)
        } else {
            sooner
        }
    }
}

/// The times at which values pass, of values that arrive at `times`.
pub open spec fn passing_times(state: Debouncer, times: Seq<u128>) -> Seq<u128> {
    debounced(state, times.map_values(|time: u128| (time, time)))
}

/// Whether each of `times` is at least `window` after the one before it.
pub open spec fn spaced(times: Seq<u128>, window: u128) -> bool {
    forall|k: int| 0 <= k < times.len() - 1 ==> #[trigger] times[k + 1] - times[k] >= window
}

/// Whether a clock that gave `times` never ran backwards.
pub open spec fn monotonic(times: Seq<u128>) -> bool {
    forall|i: int, j: int| 0 <= i <= j < times.len() ==> times[i] <= times[j]
}

/// The limit holds: on a clock that does not run backwards, any two values
/// that pass one after the other are at least the window apart, and the
/// window runs from the last value that passed.
pub proof fn lemma_passed_values_are_spaced(window: u128, times: Seq<u128>)
    requires
        monotonic(times),
    ensures
        spaced(passing_times(Debouncer::fresh(window), times), window),
        times.len() > 0 ==> passing_times(Debouncer::fresh(window), times).len() > 0,
        times.len() > 0 ==> passing_times(Debouncer::fresh(window), times).last() <= times.last(),
        settled(Debouncer::fresh(window), times.map_values(|time: u128| (time, time)))
            == (Debouncer {
            window,
            last_emit: if times.len() == 0 {
                None
            } else {
                Some(passing_times(Debouncer::fresh(window), times).last())
            },
        }),
    decreases times.len(),
{
    if times.len() > 0 {
        let pair = |time: u128| (time, time);
        let earlier = times.drop_last();
        assert(times.map_values(pair).drop_last() =~= earlier.map_values(pair));
        lemma_passed_values_are_spaced(window, earlier);
    }
}

/// The first value of a stream always passes, and it is the first to come
/// out.
pub proof fn lemma_first_value_passes<T>(window: u128, arrivals: Seq<(u128, T)>)
    requires
        arrivals.len() > 0,
    ensures
        debounced(Debouncer::fresh(window), arrivals).len() > 0,
        debounced(Debouncer::fresh(window), arrivals)[0] == arrivals[0].1,
    decreases arrivals.len(),
{
    let state = Debouncer::fresh(window);
    if arrivals.len() == 1 {
        assert(debounced(state, arrivals.drop_last()) =~= Seq::<T>::empty());
    } else {
        lemma_first_value_passes(window, arrivals.drop_last());
    }
}

/// A burst is suppressed: after a first value, every value that arrives
/// before the window has elapsed since the first is dropped, however many
/// there are, and the window keeps running from the first.
pub proof fn lemma_burst_is_suppressed<T>(window: u128, first: (u128, T), burst: Seq<(u128, T)>)
    requires
        forall|i: int| 0 <= i < burst.len() ==> elapsed(first.0, (#[trigger] burst[i]).0) < window,
    ensures
        debounced(Debouncer::fresh(window), seq![first] + burst) == seq![first.1],
        settled(Debouncer::fresh(window), seq![first] + burst) == (Debouncer {
            window,
            last_emit: Some(first.0),
        }),
    decreases burst.len(),
{
    let state = Debouncer::fresh(window);
    let arrivals = seq![first] + burst;
    if burst.len() == 0 {
        assert(debounced(state, arrivals.drop_last()) =~= Seq::<T>::empty());
    } else {
        assert(arrivals.drop_last() =~= seq![first] + burst.drop_last());
        lemma_burst_is_suppressed(window, first, burst.drop_last());
    }
}

/// The leading-edge law: of a first value, a burst of values that arrive
/// before the window has elapsed since the first, and a value that arrives
/// when it has, exactly the first and the last pass.
pub proof fn lemma_leading_edge<T>(
    window: u128,
    first: (u128, T),
    burst: Seq<(u128, T)>,
    late: (u128, T),
)
    requires
        forall|i: int| 0 <= i < burst.len() ==> elapsed(first.0, (#[trigger] burst[i]).0) < window,
        elapsed(first.0, late.0) >= window,
    ensures
        debounced(Debouncer::fresh(window), (seq![first] + burst).push(late)) == seq![
            first.1,
            late.1,
        ],
{
    let arrivals = (seq![first] + burst).push(late);
    lemma_burst_is_suppressed(window, first, burst);
    assert(arrivals.drop_last() =~= seq![first] + burst);
}

} // verus!
