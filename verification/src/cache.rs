//! The latest reserve snapshot of every pool that has reported.

use crate::market::Venue;
use std::collections::HashMap;
use vstd::prelude::*;

verus! {

/// The reserves of one pool as one update event reported them.
#[derive(Clone, Copy, Debug, PartialEq, Eq, Structural)]
pub struct ReserveSnapshot {
    /// Number of the pair that the pool trades.
    pub pair: usize,
    /// Venue of the pool.
    pub venue: Venue,
    /// Reserve of the pair's base asset, in its smallest unit.
    pub base_reserve: u128,
    /// Reserve of the pair's quote asset, in its smallest unit.
    pub quote_reserve: u128,
    /// When the update was seen, in seconds since the epoch.
    pub observed_at: u64,
}

/// The most recent snapshot per pair and venue. An update replaces the entry
/// of its pool as a whole; entries are never merged or dropped.
pub struct ReserveCache {
    venue_a: HashMap<usize, ReserveSnapshot>,
    venue_b: HashMap<usize, ReserveSnapshot>,
}

impl View for ReserveCache {
    type V = Map<(usize, Venue), ReserveSnapshot>;

    closed spec fn view(&self) -> Map<(usize, Venue), ReserveSnapshot> {
        Map::new(
            |k: (usize, Venue)|
                match k.1 {
                    Venue::A => self.venue_a@.contains_key(k.0),
                    Venue::B => self.venue_b@.contains_key(k.0),
                },
            |k: (usize, Venue)|
                match k.1 {
                    Venue::A => self.venue_a@[k.0],
                    Venue::B => self.venue_b@[k.0],
                },
        )
    }
}

impl ReserveCache {
    /// The entry of a pool, if it has reported.
    pub open spec fn entry(&self, pair: usize, venue: Venue) -> Option<ReserveSnapshot> {
        if self@.contains_key((pair, venue)) {
            Some(self@[(pair, venue)])
        } else {
            None
        }
    }

    /// Every entry is filed under the pair and venue that it names.
    pub open spec fn wf(&self) -> bool {
        forall|k: (usize, Venue)| #[trigger]
            self@.contains_key(k) ==> self@[k].pair == k.0 && self@[k].venue == k.1
    }

    /// An empty cache.
    pub fn new() -> (r: Self)
        ensures
            r@ == Map::<(usize, Venue), ReserveSnapshot>::empty(),
            r.wf(),
    {
        let r = ReserveCache { venue_a: HashMap::new(), venue_b: HashMap::new() };
        assert(r@ =~= Map::<(usize, Venue), ReserveSnapshot>::empty());
        r
    }

    /// Files `snapshot` under its pair and venue, replacing what was there.
    pub fn insert(&mut self, snapshot: ReserveSnapshot)
        ensures
            final(self)@ == old(self)@.insert((snapshot.pair, snapshot.venue), snapshot),
            old(self).wf() ==> final(self).wf(),
    {
        broadcast use vstd::std_specs::hash::group_hash_axioms;

        match snapshot.venue {
            Venue::A => {
                self.venue_a.insert(snapshot.pair, snapshot);
            },
            Venue::B => {
                self.venue_b.insert(snapshot.pair, snapshot);
            },
        }
        assert(self@ =~= old(self)@.insert((snapshot.pair, snapshot.venue), snapshot));
    }

    /// The latest snapshot of the pool of `pair` on `venue`.
    pub fn get(&self, pair: usize, venue: Venue) -> (r: Option<ReserveSnapshot>)
        ensures
            r == self.entry(pair, venue),
    {
        broadcast use vstd::std_specs::hash::group_hash_axioms;

        let found = match venue {
            Venue::A => self.venue_a.get(&pair),
            Venue::B => self.venue_b.get(&pair),
        };
        match found {
            Some(s) => Some(*s),
            None => None,
        }
    }
}

} // verus!
