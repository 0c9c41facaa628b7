//! Assets, asset pairs, venues and the pools that trade a pair on a venue.

use vstd::prelude::*;

verus! {

/// One of the two venues that are compared. Venue A is the reference side of
/// every spread.
#[derive(Clone, Copy, Debug, PartialEq, Eq, Structural)]
pub enum Venue {
    A,
    B,
}

/// A 20-byte account or contract identifier.
#[derive(Clone, Copy, Debug, PartialEq, Eq)]
pub struct Address {
    pub bytes: [u8; 20],
}

impl Address {
    /// Whether every byte is zero: the identifier a venue answers with when it
    /// has no pool for a pair.
    pub open spec fn is_zero_spec(self) -> bool {
        forall|i: int| 0 <= i < 20 ==> self.bytes[i] == 0
    }

    /// The all-zero address.
    pub fn zero() -> (r: Self)
        ensures
            r.is_zero_spec(),
    {
        Address { bytes: [0u8; 20] }
    }

    /// Whether every byte is zero.
    pub fn is_zero(&self) -> (r: bool)
        ensures
            r == self.is_zero_spec(),
    {
        let mut i: usize = 0;
        while i < 20
            invariant
                i <= 20,
                forall|j: int| 0 <= j < i ==> self.bytes[j] == 0,
            decreases 20 - i,
        {
            if self.bytes[i] != 0 {
                return false;
            }
            i = i + 1;
        }
        true
    }
}

/// A tradable asset. Loaded once and never changed.
#[derive(Clone, Debug)]
pub struct Asset {
    pub symbol: String,
    pub address: Address,
    pub decimals: u8,
}

impl Asset {
    /// An asset of the given symbol, identifier and decimal precision.
    pub fn new(symbol: String, address: Address, decimals: u8) -> (r: Self)
        ensures
            r.symbol == symbol,
            r.address == address,
            r.decimals == decimals,
    {
        Asset { symbol, address, decimals }
    }
}

/// A pair of assets: the price of `base` is quoted in `quote`.
#[derive(Clone, Debug)]
pub struct Pair {
    pub base: Asset,
    pub quote: Asset,
}

/// The pool that trades pair number `pair` on `venue`.
#[derive(Clone, Copy, Debug)]
pub struct Pool {
    pub venue: Venue,
    pub pair: usize,
    pub address: Address,
}

/// The pools of one pair on both venues.
#[derive(Clone, Copy, Debug)]
pub struct PoolPair {
    pub on_a: Pool,
    pub on_b: Pool,
}

impl PoolPair {
    /// Whether these are existing pools of pair number `pair`, one on each venue.
    pub open spec fn resolved_for(self, pair: int) -> bool {
        &&& self.on_a.pair == pair
        &&& self.on_b.pair == pair
        &&& self.on_a.venue == Venue::A
        &&& self.on_b.venue == Venue::B
        &&& !self.on_a.address.is_zero_spec()
        &&& !self.on_b.address.is_zero_spec()
    }
}

/// The pairs under observation, numbered in the order they were registered.
pub struct PairRegistry {
    pairs: Vec<Pair>,
    pools: Vec<PoolPair>,
}

impl PairRegistry {
    /// The registered pairs, by number.
    pub closed spec fn pairs(&self) -> Seq<Pair> {
        self.pairs@
    }

    /// The pools of the registered pairs, by pair number.
    pub closed spec fn pools(&self) -> Seq<PoolPair> {
        self.pools@
    }

    /// Every pair has its pools, one on each venue, and both pools exist.
    pub closed spec fn wf(&self) -> bool {
        &&& self.pairs@.len() == self.pools@.len()
        &&& forall|i: int| 0 <= i < self.pools@.len() ==> (#[trigger] self.pools@[i]).resolved_for(i)
    }

    /// What `wf` says of one registered pair.
    pub proof fn lemma_wf_at(&self, i: int)
        requires
            self.wf(),
            0 <= i < self.pairs().len(),
        ensures
            self.pairs().len() == self.pools().len(),
            self.pools()[i].resolved_for(i),
    {
    }

    /// A registry without pairs.
    pub fn new() -> (r: Self)
        ensures
            r.wf(),
            r.pairs().len() == 0,
            r.pools().len() == 0,
    {
        PairRegistry { pairs: Vec::new(), pools: Vec::new() }
    }

    /// How many pairs are registered.
    pub fn len(&self) -> (n: usize)
        ensures
            n == self.pairs().len(),
    {
        self.pairs.len()
    }

    /// Registers `pair` with the pool identifiers that the two venues
    /// resolved it to, and returns its number.
    ///
    /// A pair without a pool on either venue is excluded: the registry stays
    /// as it was and the result is `None`.
    pub fn register(&mut self, pair: Pair, pool_a: Address, pool_b: Address) -> (r: Option<usize>)
        requires
            old(self).wf(),
        ensures
            final(self).wf(),
            r is Some <==> !pool_a.is_zero_spec() && !pool_b.is_zero_spec(),
            r is None ==> final(self).pairs() == old(self).pairs() && final(self).pools() == old(
                self,
            ).pools(),
            r matches Some(n) ==> {
                &&& n == old(self).pairs().len()
                &&& final(self).pairs() == old(self).pairs().push(pair)
                &&& final(self).pools().len() == n + 1
                &&& final(self).pools().take(n as int) == old(self).pools()
                &&& final(self).pools()[n as int].on_a.address == pool_a
                &&& final(self).pools()[n as int].on_b.address == pool_b
            },
    {
        if pool_a.is_zero() || pool_b.is_zero() {
            return None;
        }
        let n: usize = self.pairs.len();
        let pools = PoolPair {
            on_a: Pool { venue: Venue::A, pair: n, address: pool_a },
            on_b: Pool { venue: Venue::B, pair: n, address: pool_b },
        };
        self.pairs.push(pair);
        self.pools.push(pools);
        proof {
            assert(self.pools@.take(n as int) == old(self).pools@);
            assert forall|i: int| 0 <= i < self.pools@.len() implies (#[trigger] self.pools@[i]).resolved_for(
                i,
            ) by {
                if i < n {
                    assert(old(self).pools@[i].resolved_for(i));
                }
            }
        }
        Some(n)
    }

    /// The decimal precisions `(base, quote)` of pair number `pair`, or `None`
    /// where no such pair is registered.
    pub fn decimals(&self, pair: usize) -> (r: Option<(u8, u8)>)
        ensures
            r is Some <==> pair < self.pairs().len(),
            r matches Some(d) ==> d.0 == self.pairs()[pair as int].base.decimals && d.1
                == self.pairs()[pair as int].quote.decimals,
    {
        if pair < self.pairs.len() {
            Some((self.pairs[pair].base.decimals, self.pairs[pair].quote.decimals))
        } else {
            None
        }
    }

    /// The pools of pair number `pair`, or `None` where no such pair is registered.
    pub fn pools_of(&self, pair: usize) -> (r: Option<PoolPair>)
        ensures
            r is Some <==> pair < self.pools().len(),
            r matches Some(p) ==> p == self.pools()[pair as int],
    {
        if pair < self.pools.len() {
            Some(self.pools[pair])
        } else {
            None
        }
    }
}

} // verus!
