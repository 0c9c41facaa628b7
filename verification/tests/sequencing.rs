use spread_engine::guard::{ExecutionGuard, Outcome};
use spread_engine::nonce::NonceSequencer;

#[test]
fn nonces_of_one_sequencer_are_distinct_and_increasing() {
    let mut sequencer = NonceSequencer::new(41);
    assert_eq!(sequencer.peek(), 41);
    let mut taken = Vec::new();
    for _ in 0..100 {
        taken.push(sequencer.allocate().unwrap());
    }
    for (i, n) in taken.iter().enumerate() {
        assert_eq!(*n, 41 + i as u64);
    }
    assert_eq!(sequencer.peek(), 141);
}

#[test]
fn nonces_taken_alternately_by_several_pairs_never_repeat() {
    let mut sequencer = NonceSequencer::new(0);
    let mut by_pair: Vec<Vec<u64>> = vec![Vec::new(), Vec::new(), Vec::new()];
    for round in 0..30 {
        by_pair[round % 3].push(sequencer.allocate().unwrap());
    }
    let mut all: Vec<u64> = by_pair.concat();
    all.sort();
    all.dedup();
    assert_eq!(all.len(), 30);
    for nonces in &by_pair {
        assert!(nonces.windows(2).all(|w| w[0] < w[1]));
    }
}

#[test]
fn a_batch_of_nonces_is_distinct_and_increasing() {
    let mut sequencer = NonceSequencer::new(7);
    assert_eq!(sequencer.allocate_many(5), Some(vec![7, 8, 9, 10, 11]));
    assert_eq!(sequencer.allocate_many(0), Some(vec![]));
    assert_eq!(sequencer.allocate(), Some(12));
}

#[test]
fn the_last_nonce_is_never_handed_out() {
    let mut sequencer = NonceSequencer::new(u64::MAX - 2);
    assert_eq!(sequencer.allocate_many(3), None);
    assert_eq!(sequencer.peek(), u64::MAX - 2);
    assert_eq!(sequencer.allocate_many(2), Some(vec![u64::MAX - 2, u64::MAX - 1]));
    assert_eq!(sequencer.allocate(), None);
    assert_eq!(sequencer.allocate(), None);
    assert_eq!(sequencer.peek(), u64::MAX);
    assert_eq!(sequencer.allocate_many(1), None);
    assert_eq!(sequencer.allocate_many(0), Some(vec![]));
}

#[test]
fn guard_admits_one_execution_per_pair() {
    let mut guard = ExecutionGuard::new();
    assert!(!guard.is_pending(3));
    assert_eq!(guard.pending_for(3), None);
    assert!(guard.try_begin(3, 10));
    assert!(!guard.try_begin(3, 11));
    assert!(!guard.try_begin(3, 12));
    assert_eq!(guard.pending_for(3).unwrap().started_at, 10);
    // Another pair is not held back.
    assert!(guard.try_begin(4, 11));
    assert_eq!(guard.in_flight(), 2);
}

#[test]
fn guard_releases_a_pair_on_every_outcome() {
    for outcome in [Outcome::Confirmed, Outcome::Dropped, Outcome::Reverted] {
        let mut guard = ExecutionGuard::new();
        assert!(guard.try_begin(3, 10));
        assert!(guard.try_begin(4, 10));
        let released = guard.complete(3, outcome).unwrap();
        assert_eq!((released.pair, released.started_at), (3, 10));
        assert!(!guard.is_pending(3));
        assert!(guard.is_pending(4));
        assert!(guard.try_begin(3, 20));
        assert!(!guard.try_begin(4, 20));
    }
}

#[test]
fn completing_a_pair_that_is_not_pending_changes_nothing() {
    let mut guard = ExecutionGuard::new();
    assert!(guard.try_begin(1, 5));
    assert_eq!(guard.complete(2, Outcome::Dropped), None);
    assert_eq!(guard.in_flight(), 1);
    assert!(guard.is_pending(1));
}
