//! At most one execution per pair is in flight at any time.

use std::collections::HashMap;
use vstd::prelude::*;

verus! {

/// An execution that has been handed off and has not reported back yet.
#[derive(Clone, Copy, Debug, PartialEq, Eq, Structural)]
pub struct PendingExecution {
    /// Number of the pair.
    pub pair: usize,
    /// When the execution was handed off, in seconds since the epoch.
    pub started_at: u64,
}

/// How a submission ended. Whatever the outcome, the pair is released.
#[derive(Clone, Copy, Debug, PartialEq, Eq, Structural)]
pub enum Outcome {
    /// Included and executed.
    Confirmed,
    /// Never included: dropped, replaced, or the resubmission budget ran out.
    Dropped,
    /// Included, but the contract rejected it.
    Reverted,
}

/// The pending set after a trigger for `pair` at `now`: a pair that is
/// already pending stays as it is.
pub open spec fn begin_spec(pending: Map<usize, u64>, pair: usize, now: u64) -> Map<usize, u64> {
    if pending.contains_key(pair) {
        pending
    } else {
        pending.insert(pair, now)
    }
}

/// Whether a trigger for `pair` is handed off rather than discarded.
pub open spec fn admits(pending: Map<usize, u64>, pair: usize) -> bool {
    !pending.contains_key(pair)
}

/// The pending set after the execution for `pair` has ended.
pub open spec fn complete_spec(pending: Map<usize, u64>, pair: usize) -> Map<usize, u64> {
    pending.remove(pair)
}

/// Of two triggers for one pair with no completion in between, the second is
/// discarded, and exactly one is handed off when the pair was free before.
pub proof fn lemma_at_most_one_in_flight(
    pending: Map<usize, u64>,
    pair: usize,
    first: u64,
    second: u64,
)
    ensures
        !admits(begin_spec(pending, pair, first), pair),
        begin_spec(begin_spec(pending, pair, first), pair, second) == begin_spec(
            pending,
            pair,
            first,
        ),
        !pending.contains_key(pair) ==> admits(pending, pair),
{
}

/// Once the execution for a pair has ended, the next trigger for that pair
/// is handed off; other pairs are untouched by the completion.
pub proof fn lemma_eligible_after_completion(pending: Map<usize, u64>, pair: usize, other: usize)
    ensures
        admits(complete_spec(pending, pair), pair),
        other != pair ==> (admits(complete_spec(pending, pair), other) <==> admits(
            pending,
            other,
        )),
{
}

/// A trigger for one pair never blocks another pair.
pub proof fn lemma_pairs_independent(pending: Map<usize, u64>, pair: usize, other: usize, now: u64)
    requires
        other != pair,
    ensures
        admits(begin_spec(pending, pair, now), other) <==> admits(pending, other),
{
}

/// The set of pairs with an execution in flight.
pub struct ExecutionGuard {
    pending: HashMap<usize, u64>,
}

impl View for ExecutionGuard {
    type V = Map<usize, u64>;

    /// The pending pairs, each with the time its execution was handed off.
    closed spec fn view(&self) -> Map<usize, u64> {
        self.pending@
    }
}

impl ExecutionGuard {
    /// A guard with nothing in flight.
    pub fn new() -> (r: Self)
        ensures
            r@ == Map::<usize, u64>::empty(),
    {
        ExecutionGuard { pending: HashMap::new() }
    }

    /// Whether an execution for `pair` is in flight.
    pub fn is_pending(&self, pair: usize) -> (r: bool)
        ensures
            r == self@.contains_key(pair),
    {
        broadcast use vstd::std_specs::hash::group_hash_axioms;

        self.pending.contains_key(&pair)
    }

    /// The pending execution of `pair`, if there is one.
    pub fn pending_for(&self, pair: usize) -> (r: Option<PendingExecution>)
        ensures
            r is Some <==> self@.contains_key(pair),
            r matches Some(p) ==> p.pair == pair && p.started_at == self@[pair],
    {
        broadcast use vstd::std_specs::hash::group_hash_axioms;

        match self.pending.get(&pair) {
            Some(t) => Some(PendingExecution { pair, started_at: *t }),
            None => None,
        }
    }

    /// How many executions are in flight.
    pub fn in_flight(&self) -> (n: usize)
        ensures
            n == self@.len(),
    {
        self.pending.len()
    }

    /// Asks to hand off an execution for `pair` at `now`.
    ///
    /// Returns `true` and marks the pair pending when nothing is in flight for
    /// it; returns `false` and changes nothing when something is.
    pub fn try_begin(&mut self, pair: usize, now: u64) -> (admitted: bool)
        ensures
            admitted == admits(old(self)@, pair),
            final(self)@ == begin_spec(old(self)@, pair, now),
    {
        broadcast use vstd::std_specs::hash::group_hash_axioms;

        if self.pending.contains_key(&pair) {
            false
        } else {
            self.pending.insert(pair, now);
            true
        }
    }

    /// Records that the execution for `pair` has ended with `outcome`, and
    /// releases the pair whatever the outcome was. Returns what was pending.
    pub fn complete(&mut self, pair: usize, outcome: Outcome) -> (r: Option<PendingExecution>)
        ensures
            final(self)@ == complete_spec(old(self)@, pair),
            r is Some <==> old(self)@.contains_key(pair),
            r matches Some(p) ==> p.pair == pair && p.started_at == old(self)@[pair],
    {
        broadcast use vstd::std_specs::hash::group_hash_axioms;

        match self.pending.remove(&pair) {
            Some(t) => Some(PendingExecution { pair, started_at: t }),
            None => None,
        }
    }
}

} // verus!
