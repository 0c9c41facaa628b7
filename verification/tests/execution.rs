use spread_engine::calldata::{assemble_call, encode_swap_exact_tokens};
use spread_engine::gas::{Escalation, GasPolicy};
use spread_engine::guard::{ExecutionGuard, Outcome};
use spread_engine::market::Address;
use spread_engine::submitter::{
    fire, settle, step, ExecutionConfig, SubmissionAction, SubmissionEvent, SubmissionState,
    Transition, BUY_DEADLINE_SECS, SELL_DEADLINE_SECS, SWAP_CALL_LEN,
};
use spread_engine::uint256::Uint256;

fn address(fill: u8) -> Address {
    Address { bytes: [fill; 20] }
}

fn word(value: u128) -> Vec<u8> {
    let mut w = vec![0u8; 16];
    w.extend_from_slice(&value.to_be_bytes());
    w
}

fn padded(a: &Address) -> Vec<u8> {
    let mut w = vec![0u8; 12];
    w.extend_from_slice(&a.bytes);
    w
}

fn expected_swap(amount_in: u128, amount_out_min: u128, path: &[Address], to: &Address, deadline: u64) -> Vec<u8> {
    let mut data = vec![0x38, 0xed, 0x17, 0x39];
    data.extend(word(amount_in));
    data.extend(word(amount_out_min));
    data.extend(word(160));
    data.extend(padded(to));
    data.extend(word(deadline as u128));
    data.extend(word(path.len() as u128));
    for hop in path {
        data.extend(padded(hop));
    }
    data
}

fn limits() -> ExecutionConfig {
    ExecutionConfig {
        threshold_bps: 50,
        loan_amount: Uint256::from_u64(10_000_000_000),
        min_profit: Uint256::from_u64(5_000_000),
        max_deviation_bps: Uint256::from_u64(100),
        gas_limit: 1_500_000,
    }
}

fn escalation() -> Escalation {
    Escalation { policy: GasPolicy::Percentage { percent: 15 }, max_price: None, max_resubmissions: 2 }
}

#[test]
fn swap_call_data_is_the_selector_and_the_encoded_arguments() {
    let path = vec![address(0xaa), address(0xbb)];
    let data = encode_swap_exact_tokens(
        Uint256::from_u64(10_000_000_000),
        Uint256::zero(),
        path.clone(),
        address(0xcc),
        1_700_000_120,
    );
    assert_eq!(data.len(), 4 + 8 * 32);
    assert_eq!(data, expected_swap(10_000_000_000, 0, &path, &address(0xcc), 1_700_000_120));
}

#[test]
fn swap_call_data_carries_amounts_of_256_bits() {
    let amount = Uint256 { w0: 1, w1: 2, w2: 3, w3: 4 };
    let min = Uint256 { w0: u64::MAX, w1: 0, w2: 0, w3: u64::MAX };
    let data = encode_swap_exact_tokens(amount, min, vec![address(1)], address(2), u64::MAX);
    assert_eq!(data.len(), 4 + 7 * 32);
    let mut first = Vec::new();
    for w in [4u64, 3, 2, 1] {
        first.extend_from_slice(&w.to_be_bytes());
    }
    assert_eq!(&data[4..36], &first[..]);
    let mut second = Vec::new();
    for w in [u64::MAX, 0, 0, u64::MAX] {
        second.extend_from_slice(&w.to_be_bytes());
    }
    assert_eq!(&data[36..68], &second[..]);
    assert_eq!(&data[132..164], &word(u64::MAX as u128)[..]);
}

#[test]
fn swap_call_data_with_an_empty_path() {
    let data = encode_swap_exact_tokens(Uint256::zero(), Uint256::zero(), vec![], address(9), 0);
    assert_eq!(data, expected_swap(0, 0, &[], &address(9), 0));
}

#[test]
fn assembled_call_is_selector_then_arguments() {
    assert_eq!(assemble_call([1, 2, 3, 4], vec![5, 6]), vec![1, 2, 3, 4, 5, 6]);
    assert_eq!(assemble_call([9, 8, 7, 6], vec![]), vec![9, 8, 7, 6]);
}

#[test]
fn fire_builds_both_swaps_from_the_configuration() {
    let arb = address(0x11);
    let usdt = address(0x22);
    let xaut = address(0x33);
    let now = 1_700_000_000;
    let call = fire(&limits(), arb, address(0x44), address(0x55), usdt, xaut, 50, now).unwrap();
    assert_eq!(BUY_DEADLINE_SECS, 120);
    assert_eq!(SELL_DEADLINE_SECS, 180);
    assert_eq!(call.buy_router, address(0x44));
    assert_eq!(call.sell_router, address(0x55));
    assert_eq!(call.buy_data, expected_swap(10_000_000_000, 0, &[usdt, xaut], &arb, now + 120));
    assert_eq!(call.sell_data, expected_swap(0, 0, &[xaut, usdt], &arb, now + 180));
    assert_eq!(call.loan_amount, Uint256::from_u64(10_000_000_000));
    assert_eq!(call.min_profit, Uint256::from_u64(5_000_000));
    assert_eq!(call.max_deviation_bps, Uint256::from_u64(100));
    assert_eq!(call.gas_limit, 1_500_000);
    assert_eq!(SWAP_CALL_LEN, 260);
    assert_eq!(call.buy_data.len(), SWAP_CALL_LEN);
    assert_eq!(call.sell_data.len(), SWAP_CALL_LEN);
}

#[test]
fn fire_spends_the_configured_loan_whatever_the_spread() {
    let a = address(1);
    let mut limits = limits();
    limits.loan_amount = Uint256 { w0: 7, w1: 6, w2: 5, w3: 4 };
    limits.min_profit = Uint256 { w0: 1, w1: 2, w2: 3, w3: 4 };
    limits.max_deviation_bps = Uint256 { w0: u64::MAX, w1: 0, w2: 0, w3: 0 };
    let mut word = Vec::new();
    for w in [4u64, 5, 6, 7] {
        word.extend_from_slice(&w.to_be_bytes());
    }
    for spread in [50u32, 51, 300, 10_000, u32::MAX] {
        let call = fire(&limits, a, a, a, a, a, spread, 1_700_000_000).unwrap();
        assert_eq!(call.loan_amount, limits.loan_amount);
        assert_eq!(call.min_profit, limits.min_profit);
        assert_eq!(call.max_deviation_bps, limits.max_deviation_bps);
        assert_eq!(&call.buy_data[4..36], &word[..]);
        assert_eq!(&call.sell_data[4..36], &[0u8; 32][..]);
    }
}

#[test]
fn fire_does_nothing_below_the_threshold() {
    let a = address(1);
    assert!(fire(&limits(), a, a, a, a, a, 49, 0).is_none());
    assert!(fire(&limits(), a, a, a, a, a, 0, 0).is_none());
    assert!(fire(&limits(), a, a, a, a, a, 50, 0).is_some());
    assert!(fire(&limits(), a, a, a, a, a, u32::MAX, u64::MAX - 180).is_some());
}

#[test]
fn a_submission_runs_from_building_to_confirmed() {
    let e = escalation();
    let t = step(SubmissionState::Building, SubmissionEvent::SignedOk, &e, 1_000);
    assert_eq!(t, Transition { next: SubmissionState::Signed, action: SubmissionAction::Send { gas_price: 1_000 } });
    let t = step(t.next, SubmissionEvent::Sent, &e, 1_000);
    assert_eq!(t, Transition { next: SubmissionState::Submitted, action: SubmissionAction::Wait });
    let t = step(t.next, SubmissionEvent::Mined, &e, 1_000);
    assert_eq!(
        t,
        Transition { next: SubmissionState::Confirmed, action: SubmissionAction::Finish { outcome: Outcome::Confirmed } }
    );
}

#[test]
fn a_submission_is_resent_at_rising_prices_until_the_budget_is_spent() {
    let e = escalation();
    let t1 = step(SubmissionState::Submitted, SubmissionEvent::CadenceTick, &e, 1_000);
    assert_eq!(
        t1,
        Transition {
            next: SubmissionState::Escalated { resubmissions: 1 },
            action: SubmissionAction::Resend { gas_price: 1_150 }
        }
    );
    let t2 = step(t1.next, SubmissionEvent::CadenceTick, &e, 1_000);
    assert_eq!(
        t2,
        Transition {
            next: SubmissionState::Escalated { resubmissions: 2 },
            action: SubmissionAction::Resend { gas_price: 1_300 }
        }
    );
    let t3 = step(t2.next, SubmissionEvent::CadenceTick, &e, 1_000);
    assert_eq!(
        t3,
        Transition { next: SubmissionState::Dropped, action: SubmissionAction::Finish { outcome: Outcome::Dropped } }
    );
}

#[test]
fn a_submission_without_a_budget_is_dropped_on_the_first_tick() {
    let e = Escalation { policy: GasPolicy::Linear { increment: 1 }, max_price: None, max_resubmissions: 0 };
    let t = step(SubmissionState::Submitted, SubmissionEvent::CadenceTick, &e, 1_000);
    assert_eq!(t.next, SubmissionState::Dropped);
}

#[test]
fn an_escalated_submission_can_still_end_in_any_outcome() {
    let e = escalation();
    let escalated = SubmissionState::Escalated { resubmissions: 1 };
    assert_eq!(step(escalated, SubmissionEvent::Mined, &e, 1).next, SubmissionState::Confirmed);
    assert_eq!(step(escalated, SubmissionEvent::RevertedOnChain, &e, 1).next, SubmissionState::Reverted);
    assert_eq!(step(escalated, SubmissionEvent::DroppedByNode, &e, 1).next, SubmissionState::Dropped);
    assert_eq!(step(escalated, SubmissionEvent::Failed, &e, 1).next, SubmissionState::Dropped);
    assert_eq!(
        step(SubmissionState::Submitted, SubmissionEvent::RevertedOnChain, &e, 1).action,
        SubmissionAction::Finish { outcome: Outcome::Reverted }
    );
}

#[test]
fn failures_before_sending_drop_the_submission() {
    let e = escalation();
    for state in [SubmissionState::Building, SubmissionState::Signed] {
        assert_eq!(
            step(state, SubmissionEvent::Failed, &e, 1),
            Transition { next: SubmissionState::Dropped, action: SubmissionAction::Finish { outcome: Outcome::Dropped } }
        );
    }
}

#[test]
fn final_states_take_no_step() {
    let e = escalation();
    let events = [
        SubmissionEvent::SignedOk,
        SubmissionEvent::Sent,
        SubmissionEvent::CadenceTick,
        SubmissionEvent::Mined,
        SubmissionEvent::RevertedOnChain,
        SubmissionEvent::DroppedByNode,
        SubmissionEvent::Failed,
    ];
    for state in [SubmissionState::Confirmed, SubmissionState::Dropped, SubmissionState::Reverted] {
        for event in events {
            assert_eq!(step(state, event, &e, 1), Transition { next: state, action: SubmissionAction::Ignore });
        }
    }
}

#[test]
fn events_out_of_turn_are_ignored() {
    let e = escalation();
    let ignore = |state| Transition { next: state, action: SubmissionAction::Ignore };
    assert_eq!(step(SubmissionState::Building, SubmissionEvent::Mined, &e, 1), ignore(SubmissionState::Building));
    assert_eq!(step(SubmissionState::Building, SubmissionEvent::CadenceTick, &e, 1), ignore(SubmissionState::Building));
    assert_eq!(step(SubmissionState::Building, SubmissionEvent::DroppedByNode, &e, 1), ignore(SubmissionState::Building));
    assert_eq!(step(SubmissionState::Signed, SubmissionEvent::SignedOk, &e, 1), ignore(SubmissionState::Signed));
    assert_eq!(step(SubmissionState::Signed, SubmissionEvent::CadenceTick, &e, 1), ignore(SubmissionState::Signed));
    assert_eq!(step(SubmissionState::Submitted, SubmissionEvent::Sent, &e, 1), ignore(SubmissionState::Submitted));
}

#[test]
fn settling_a_final_state_releases_the_pair() {
    let cases = [
        (SubmissionState::Confirmed, Outcome::Confirmed),
        (SubmissionState::Dropped, Outcome::Dropped),
        (SubmissionState::Reverted, Outcome::Reverted),
    ];
    for (state, outcome) in cases {
        let mut guard = ExecutionGuard::new();
        assert!(guard.try_begin(0, 1));
        assert_eq!(state.terminal_outcome(), Some(outcome));
        assert_eq!(settle(&mut guard, 0, state), Some(outcome));
        assert!(!guard.is_pending(0));
        assert!(guard.try_begin(0, 2));
    }
}

#[test]
fn settling_an_open_state_changes_nothing() {
    let open = [
        SubmissionState::Building,
        SubmissionState::Signed,
        SubmissionState::Submitted,
        SubmissionState::Escalated { resubmissions: 1 },
    ];
    for state in open {
        let mut guard = ExecutionGuard::new();
        assert!(guard.try_begin(0, 1));
        assert_eq!(state.terminal_outcome(), None);
        assert_eq!(settle(&mut guard, 0, state), None);
        assert!(guard.is_pending(0));
    }
}
