//! Strictly increasing nonce allocation for one signing identity.
//!
//! Every submission, whichever pair it is for, takes its nonce from the one
//! sequencer of its signer.

use vstd::prelude::*;

verus! {

/// The nonce that the allocation number `k` (counted from zero) of a
/// sequencer started at `start` returns.
pub open spec fn nth_nonce(start: nat, k: nat) -> nat
    decreases k,
{
    if k == 0 {
        start
    } else {
        nth_nonce(start, (k - 1) as nat) + 1
    }
}

/// The allocation number `k` returns `start + k`.
pub proof fn lemma_nth_nonce(start: nat, k: nat)
    ensures
        nth_nonce(start, k) == start + k,
    decreases k,
{
    if k > 0 {
        lemma_nth_nonce(start, (k - 1) as nat);
    }
}

/// Any two allocations of one sequencer return different nonces, the later
/// one the larger.
pub proof fn lemma_allocations_strictly_increase(start: nat, i: nat, j: nat)
    requires
        i < j,
    ensures
        nth_nonce(start, i) < nth_nonce(start, j),
{
    lemma_nth_nonce(start, i);
    lemma_nth_nonce(start, j);
}

/// Hands out nonces for a single signer, each one larger than the last.
pub struct NonceSequencer {
    next: u64,
}

impl NonceSequencer {
    /// The nonce that the next allocation returns.
    pub closed spec fn next_nonce(&self) -> nat {
        self.next as nat
    }

    /// A sequencer whose first allocation returns `start`.
    pub fn new(start: u64) -> (s: Self)
        ensures
            s.next_nonce() == start,
    {
        NonceSequencer { next: start }
    }

    /// The nonce that the next allocation returns.
    pub fn peek(&self) -> (n: u64)
        ensures
            n == self.next_nonce(),
    {
        self.next
    }

    /// Takes the next nonce.
    ///
    /// `None`, with the sequencer unchanged, once `u64::MAX` is reached: that
    /// value is never handed out, so no nonce is ever handed out twice.
    pub fn allocate(&mut self) -> (r: Option<u64>)
        ensures
            r is Some <==> old(self).next_nonce() < u64::MAX,
            r matches Some(n) ==> n == old(self).next_nonce() && final(self).next_nonce() == n + 1,
            r is None ==> final(self).next_nonce() == old(self).next_nonce(),
    {
        if self.next < u64::MAX {
            let n: u64 = self.next;
            self.next = n + 1;
            Some(n)
        } else {
            None
        }
    }

    /// Takes `count` nonces, one for each of `count` submissions.
    ///
    /// The result holds the nonces in the order they were taken: distinct and
    /// strictly increasing. Where fewer than `count` are left, none is taken.
    pub fn allocate_many(&mut self, count: usize) -> (r: Option<Vec<u64>>)
        ensures
            r is Some <==> old(self).next_nonce() + count <= u64::MAX,
            r is None ==> final(self).next_nonce() == old(self).next_nonce(),
            r matches Some(v) ==> {
                &&& v@.len() == count
                &&& final(self).next_nonce() == old(self).next_nonce() + count
                &&& forall|k: int|
                    0 <= k < count ==> #[trigger] v@[k] == nth_nonce(
                        old(self).next_nonce(),
                        k as nat,
                    )
                &&& forall|i: int, j: int| 0 <= i < j < count ==> v@[i] < v@[j]
            },
    {
        if count as u128 > (u64::MAX - self.next) as u128 {
            return None;
        }
        let mut taken: Vec<u64> = Vec::new();
        let mut k: usize = 0;
        while k < count
            invariant
                k <= count,
                old(self).next_nonce() + count <= u64::MAX,
                self.next_nonce() == old(self).next_nonce() + k,
                taken@.len() == k,
                forall|i: int|
                    0 <= i < k ==> #[trigger] taken@[i] == nth_nonce(
                        old(self).next_nonce(),
                        i as nat,
                    ),
            decreases count - k,
        {
            proof {
                lemma_nth_nonce(old(self).next_nonce(), k as nat);
            }
            let n: u64 = self.next;
            self.next = n + 1;
            taken.push(n);
            k = k + 1;
        }
        proof {
            assert forall|i: int, j: int| 0 <= i < j < count implies taken@[i] < taken@[j] by {
                lemma_allocations_strictly_increase(old(self).next_nonce(), i as nat, j as nat);
            }
        }
        Some(taken)
    }
}

} // verus!
