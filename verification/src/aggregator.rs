//! The single consumer of reserve updates: it files each update in the cache,
//! evaluates the pair at once, and passes what it finds through the guard.

use crate::cache::{ReserveCache, ReserveSnapshot};
use crate::detector::{
    evaluate, is_opportunity_of, skip_reason, DetectorConfig, Opportunity, Skip,
};
use crate::guard::{admits, begin_spec, ExecutionGuard};
use crate::market::{PairRegistry, Venue};
use vstd::prelude::*;

verus! {

/// What is done about one update.
#[derive(Clone, Copy, Debug, PartialEq, Eq, Structural)]
pub enum Dispatch {
    /// An opportunity to hand to the submitter; its pair is now pending.
    Execute(Opportunity),
    /// An opportunity for a pair that already has an execution in flight:
    /// it is dropped, to be logged by the caller.
    Discarded(Opportunity),
    /// No opportunity.
    Idle(Skip),
}

/// Passes the outcome of an evaluation through the guard.
///
/// An opportunity is handed on when its pair has nothing in flight, and the
/// pair is marked pending; otherwise it is discarded and the guard is left as
/// it was. Without an opportunity the guard is not touched.
pub fn dispatch(guard: &mut ExecutionGuard, evaluation: Result<Opportunity, Skip>, now: u64) -> (r:
    Dispatch)
    ensures
        match evaluation {
            Ok(o) => {
                &&& final(guard)@ == begin_spec(old(guard)@, o.pair, now)
                &&& r == if admits(old(guard)@, o.pair) {
                    Dispatch::Execute(o)
                } else {
                    Dispatch::Discarded(o)
                }
            },
            Err(s) => final(guard)@ == old(guard)@ && r == Dispatch::Idle(s),
        },
{
    match evaluation {
        Ok(o) => {
            if guard.try_begin(o.pair, now) {
                Dispatch::Execute(o)
            } else {
                Dispatch::Discarded(o)
            }
        },
        Err(s) => Dispatch::Idle(s),
    }
}

/// The reserve cache together with what is needed to evaluate it. It is the
/// cache's only writer.
pub struct Aggregator {
    registry: PairRegistry,
    cache: ReserveCache,
    config: DetectorConfig,
}

impl Aggregator {
    /// The registered pairs.
    pub closed spec fn registry(&self) -> PairRegistry {
        self.registry
    }

    /// The cache contents.
    pub closed spec fn cache(&self) -> ReserveCache {
        self.cache
    }

    /// The detector configuration.
    pub closed spec fn config(&self) -> DetectorConfig {
        self.config
    }

    /// Why pair number `pair` gives no opportunity at `now`, as the cache
    /// stands; `None` where it gives one.
    pub open spec fn skip_reason_for(&self, pair: usize, now: u64) -> Option<Skip> {
        if pair >= self.registry().pairs().len() {
            Some(Skip::UnknownPair)
        } else {
            skip_reason(
                self.cache().entry(pair, Venue::A),
                self.cache().entry(pair, Venue::B),
                self.registry().pairs()[pair as int].base.decimals,
                self.registry().pairs()[pair as int].quote.decimals,
                now,
                self.config(),
            )
        }
    }

    /// Whether `found` is the opportunity that pair number `pair` gives at
    /// `now`, as the cache stands.
    pub open spec fn gives(&self, found: Opportunity, pair: usize, now: u64) -> bool {
        &&& self.skip_reason_for(pair, now) is None
        &&& self.cache().entry(pair, Venue::A) matches Some(a)
        &&& self.cache().entry(pair, Venue::B) matches Some(b)
        &&& is_opportunity_of(
            found,
            pair,
            a,
            b,
            self.registry().pairs()[pair as int].base.decimals,
            self.registry().pairs()[pair as int].quote.decimals,
            now,
        )
        &&& found.spread_bps >= self.config().threshold_bps
    }

    /// An aggregator over `registry` with an empty cache.
    pub fn new(registry: PairRegistry, config: DetectorConfig) -> (r: Self)
        ensures
            r.registry() == registry,
            r.config() == config,
            r.cache()@ == Map::<(usize, Venue), ReserveSnapshot>::empty(),
            r.cache().wf(),
    {
        Aggregator { registry, cache: ReserveCache::new(), config }
    }

    /// The latest snapshot of the pool of `pair` on `venue`.
    pub fn latest(&self, pair: usize, venue: Venue) -> (r: Option<ReserveSnapshot>)
        ensures
            r == self.cache().entry(pair, venue),
    {
        self.cache.get(pair, venue)
    }

    /// Compares the two venues' latest snapshots of pair number `pair`,
    /// without changing the cache.
    pub fn evaluate_pair(&self, pair: usize, now: u64) -> (r: Result<Opportunity, Skip>)
        ensures
            r is Ok <==> self.skip_reason_for(pair, now) is None,
            r matches Err(s) ==> self.skip_reason_for(pair, now) == Some(s),
            r matches Ok(o) ==> self.gives(o, pair, now),
    {
        let (base_decimals, quote_decimals) = match self.registry.decimals(pair) {
            Some(d) => d,
            None => {
                return Err(Skip::UnknownPair);
            },
        };
        let a = self.cache.get(pair, Venue::A);
        let b = self.cache.get(pair, Venue::B);
        evaluate(pair, a, b, base_decimals, quote_decimals, now, &self.config)
    }

    /// Takes one update: files it in the cache, whatever it holds, then
    /// evaluates its pair.
    pub fn ingest(&mut self, snapshot: ReserveSnapshot, now: u64) -> (r: Result<Opportunity, Skip>)
        ensures
            final(self).registry() == old(self).registry(),
            final(self).config() == old(self).config(),
            final(self).cache()@ == old(self).cache()@.insert(
                (snapshot.pair, snapshot.venue),
                snapshot,
            ),
            old(self).cache().wf() ==> final(self).cache().wf(),
            r is Ok <==> final(self).skip_reason_for(snapshot.pair, now) is None,
            r matches Err(s) ==> final(self).skip_reason_for(snapshot.pair, now) == Some(s),
            r matches Ok(o) ==> final(self).gives(o, snapshot.pair, now),
    {
        self.cache.insert(snapshot);
        self.evaluate_pair(snapshot.pair, now)
    }

    /// Takes one update and passes what it finds through `guard`.
    pub fn on_update(&mut self, guard: &mut ExecutionGuard, snapshot: ReserveSnapshot, now: u64) -> (r:
        Dispatch)
        ensures
            final(self).registry() == old(self).registry(),
            final(self).config() == old(self).config(),
            final(self).cache()@ == old(self).cache()@.insert(
                (snapshot.pair, snapshot.venue),
                snapshot,
            ),
            old(self).cache().wf() ==> final(self).cache().wf(),
            r is Idle <==> final(self).skip_reason_for(snapshot.pair, now) is Some,
            r is Execute <==> final(self).skip_reason_for(snapshot.pair, now) is None && admits(
                old(guard)@,
                snapshot.pair,
            ),
            match r {
                Dispatch::Execute(o) => {
                    &&& final(self).gives(o, snapshot.pair, now)
                    &&& admits(old(guard)@, snapshot.pair)
                    &&& final(guard)@ == old(guard)@.insert(snapshot.pair, now)
                },
                Dispatch::Discarded(o) => {
                    &&& final(self).gives(o, snapshot.pair, now)
                    &&& !admits(old(guard)@, snapshot.pair)
                    &&& final(guard)@ == old(guard)@
                },
                Dispatch::Idle(s) => {
                    &&& final(self).skip_reason_for(snapshot.pair, now) == Some(s)
                    &&& final(guard)@ == old(guard)@
                },
            },
    {
        let evaluation = self.ingest(snapshot, now);
        dispatch(guard, evaluation, now)
    }
}

} // verus!
