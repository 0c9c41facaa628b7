//! What a submission consists of, and the states it passes through.

use crate::calldata::{
    abi_word, all_addresses, encode_swap_exact_tokens, lemma_abi_word_round_trip,
    lemma_swap_arguments_layout, path_bytes, swap_call_data,
};
use crate::detector::Opportunity;
use crate::gas::{offered_price, offered_price_spec, Escalation};
use crate::guard::{admits, complete_spec, ExecutionGuard, Outcome};
use crate::market::{Address, Venue};
use crate::uint256::{be_value, Uint256};
use vstd::prelude::*;

verus! {

/// Seconds from now until the buy swap expires.
pub const BUY_DEADLINE_SECS: u64 = 120;

/// Seconds from now until the sell swap expires.
pub const SELL_DEADLINE_SECS: u64 = 180;

/// The length of the call data of a swap along two assets: the selector and
/// eight words.
pub const SWAP_CALL_LEN: usize = 260;

/// The limits that every execution is sent with. They are taken from
/// configuration as they stand; the size of an opportunity changes none of them.
#[derive(Clone, Copy, Debug, PartialEq, Eq, Structural)]
pub struct ExecutionConfig {
    /// The smallest spread, in basis points, that is executed.
    pub threshold_bps: u32,
    /// The amount borrowed, in the quote asset's smallest unit.
    pub loan_amount: Uint256,
    /// The profit below which the contract must reject the execution.
    pub min_profit: Uint256,
    /// The price deviation, in basis points, above which the contract must
    /// reject the execution.
    pub max_deviation_bps: Uint256,
    /// The gas limit of the transaction.
    pub gas_limit: u64,
}

/// The routers of the two venues.
#[derive(Clone, Copy, Debug)]
pub struct VenueRouters {
    pub router_a: Address,
    pub router_b: Address,
}

/// The arguments of one call of the arbitrage contract.
#[derive(Debug)]
pub struct ArbitrageCall {
    /// Router of the venue on which the base asset is bought.
    pub buy_router: Address,
    /// Call data of the buy swap.
    pub buy_data: Vec<u8>,
    /// Router of the venue on which the base asset is sold.
    pub sell_router: Address,
    /// Call data of the sell swap.
    pub sell_data: Vec<u8>,
    /// The amount borrowed.
    pub loan_amount: Uint256,
    /// The profit floor.
    pub min_profit: Uint256,
    /// The deviation cap, in basis points.
    pub max_deviation_bps: Uint256,
    /// The gas limit.
    pub gas_limit: u64,
}

/// A path of two assets.
pub open spec fn two_hop(from: Address, to: Address) -> Seq<Seq<u8>> {
    seq![from.bytes@, to.bytes@]
}

/// Whether `call` is the execution that `config` prescribes at `now`: the
/// loan is swapped from the quote asset into the base asset on the buy
/// router, and everything is swapped back on the sell router, both with a
/// minimum output of zero and with the arbitrage contract as recipient.
pub open spec fn is_execution_of(
    call: ArbitrageCall,
    config: ExecutionConfig,
    arb_contract: Address,
    buy_router: Address,
    sell_router: Address,
    quote_asset: Address,
    base_asset: Address,
    now: u64,
) -> bool {
    &&& call.buy_router == buy_router
    &&& call.sell_router == sell_router
    &&& call.buy_data@ == swap_call_data(
        config.loan_amount.value(),
        0,
        two_hop(quote_asset, base_asset),
        arb_contract.bytes@,
        (now + BUY_DEADLINE_SECS) as nat,
    )
    &&& call.sell_data@ == swap_call_data(
        0,
        0,
        two_hop(base_asset, quote_asset),
        arb_contract.bytes@,
        (now + SELL_DEADLINE_SECS) as nat,
    )
    &&& call.loan_amount == config.loan_amount
    &&& call.min_profit == config.min_profit
    &&& call.max_deviation_bps == config.max_deviation_bps
    &&& call.gas_limit == config.gas_limit
}

/// Whether the buy swap of `call` spends exactly the configured loan: the
/// word after the selector is the loan amount, whatever the spread was.
pub open spec fn spends_the_loan(call: ArbitrageCall, config: ExecutionConfig) -> bool {
    &&& call.buy_data@.subrange(4, 36) == abi_word(config.loan_amount.value())
    &&& be_value(call.buy_data@.subrange(4, 36)) == config.loan_amount.value()
}

/// A path of two assets.
fn path_of(from: Address, to: Address) -> (path: Vec<Address>)
    ensures
        path@.len() == 2,
        path_bytes(path@) == two_hop(from, to),
{
    let mut path: Vec<Address> = Vec::new();
    path.push(from);
    path.push(to);
    assert(path_bytes(path@) =~= two_hop(from, to));
    path
}

/// Builds the execution for a spread of `spread_bps`, or nothing where the
/// spread is below the configured threshold.
pub fn fire(
    config: &ExecutionConfig,
    arb_contract: Address,
    buy_router: Address,
    sell_router: Address,
    quote_asset: Address,
    base_asset: Address,
    spread_bps: u32,
    now: u64,
) -> (r: Option<ArbitrageCall>)
    requires
        now + SELL_DEADLINE_SECS <= u64::MAX,
    ensures
        r is Some <==> spread_bps >= config.threshold_bps,
        r matches Some(call) ==> is_execution_of(
            call,
            *config,
            arb_contract,
            buy_router,
            sell_router,
            quote_asset,
            base_asset,
            now,
        ),
        r matches Some(call) ==> call.buy_data@.len() == SWAP_CALL_LEN && call.sell_data@.len()
            == SWAP_CALL_LEN,
        r matches Some(call) ==> spends_the_loan(call, *config),
{
    broadcast use vstd::array::group_array_axioms;

    if spread_bps < config.threshold_bps {
        return None;
    }
    let buy_data = encode_swap_exact_tokens(
        config.loan_amount,
        Uint256::zero(),
        path_of(quote_asset, base_asset),
        arb_contract,
        now + BUY_DEADLINE_SECS,
    );
    let sell_data = encode_swap_exact_tokens(
        Uint256::zero(),
        Uint256::zero(),
        path_of(base_asset, quote_asset),
        arb_contract,
        now + SELL_DEADLINE_SECS,
    );
    proof {
        let arguments = crate::calldata::swap_arguments_encoding(
            config.loan_amount.value(),
            0,
            two_hop(quote_asset, base_asset),
            arb_contract.bytes@,
            (now + BUY_DEADLINE_SECS) as nat,
        );
        assert(all_addresses(two_hop(quote_asset, base_asset)));
        lemma_swap_arguments_layout(
            config.loan_amount.value(),
            0,
            two_hop(quote_asset, base_asset),
            arb_contract.bytes@,
            (now + BUY_DEADLINE_SECS) as nat,
        );
        lemma_abi_word_round_trip(config.loan_amount.value());
        assert(buy_data@.subrange(4, 36) =~= arguments.subrange(0, 32));
    }
    Some(
        ArbitrageCall {
            buy_router,
            buy_data,
            sell_router,
            sell_data,
            loan_amount: config.loan_amount,
            min_profit: config.min_profit,
            max_deviation_bps: config.max_deviation_bps,
            gas_limit: config.gas_limit,
        },
    )
}

/// The router of `venue`.
pub open spec fn router_of(routers: VenueRouters, venue: Venue) -> Address {
    match venue {
        Venue::A => routers.router_a,
        Venue::B => routers.router_b,
    }
}

/// The venue that is not `venue`.
pub open spec fn other_venue(venue: Venue) -> Venue {
    match venue {
        Venue::A => Venue::B,
        Venue::B => Venue::A,
    }
}

/// A spread as the 32-bit number that `fire` takes, capped at `u32::MAX`.
pub open spec fn spread_as_u32(spread_bps: u64) -> u32 {
    if spread_bps <= u32::MAX {
        spread_bps as u32
    } else {
        u32::MAX
    }
}

/// Builds the execution for `opportunity`: the base asset is bought on the
/// cheaper venue and sold on the other one.
///
/// `None` where `now` is so late that a deadline would not fit in 64 bits, or
/// where the spread is below the execution threshold.
pub fn plan_execution(
    config: &ExecutionConfig,
    arb_contract: Address,
    routers: &VenueRouters,
    quote_asset: Address,
    base_asset: Address,
    opportunity: &Opportunity,
    now: u64,
) -> (r: Option<ArbitrageCall>)
    ensures
        r is Some <==> now + SELL_DEADLINE_SECS <= u64::MAX && spread_as_u32(
            opportunity.spread_bps,
        ) >= config.threshold_bps,
        r matches Some(call) ==> is_execution_of(
            call,
            *config,
            arb_contract,
            router_of(*routers, opportunity.buy_on),
            router_of(*routers, other_venue(opportunity.buy_on)),
            quote_asset,
            base_asset,
            now,
        ),
        r matches Some(call) ==> call.buy_data@.len() == SWAP_CALL_LEN && call.sell_data@.len()
            == SWAP_CALL_LEN,
        r matches Some(call) ==> spends_the_loan(call, *config),
{
    if now > u64::MAX - SELL_DEADLINE_SECS {
        return None;
    }
    let (buy_router, sell_router) = match opportunity.buy_on {
        Venue::A => (routers.router_a, routers.router_b),
        Venue::B => (routers.router_b, routers.router_a),
    };
    let spread: u32 = if opportunity.spread_bps <= u32::MAX as u64 {
        opportunity.spread_bps as u32
    } else {
        u32::MAX
    };
    fire(config, arb_contract, buy_router, sell_router, quote_asset, base_asset, spread, now)
}

/// Where a submission stands.
#[derive(Clone, Copy, Debug, PartialEq, Eq, Structural)]
pub enum SubmissionState {
    /// The call is being put together.
    Building,
    /// The transaction is signed and not yet sent.
    Signed,
    /// The transaction is sent, at its initial price.
    Submitted,
    /// The transaction has been resent `resubmissions` times at a raised price.
    Escalated { resubmissions: u32 },
    /// Included and executed. Final.
    Confirmed,
    /// Never included. Final.
    Dropped,
    /// Included and rejected by the contract. Final.
    Reverted,
}

/// What happened to a submission.
#[derive(Clone, Copy, Debug, PartialEq, Eq, Structural)]
pub enum SubmissionEvent {
    /// The call has been built and signed.
    SignedOk,
    /// The node has accepted the signed transaction.
    Sent,
    /// The resubmission cadence has come round, for instance with a new block.
    CadenceTick,
    /// The transaction was included and executed.
    Mined,
    /// The transaction was included and the contract rejected it.
    RevertedOnChain,
    /// The node has dropped or replaced the transaction.
    DroppedByNode,
    /// Building, signing or sending failed.
    Failed,
}

/// What the caller has to do next.
#[derive(Clone, Copy, Debug, PartialEq, Eq, Structural)]
pub enum SubmissionAction {
    /// Send the signed transaction at `gas_price`.
    Send { gas_price: u128 },
    /// Send the transaction again at `gas_price`.
    Resend { gas_price: u128 },
    /// Keep waiting for the next event.
    Wait,
    /// Report `outcome` and release the pair.
    Finish { outcome: Outcome },
    /// Nothing: the event does not concern this state.
    Ignore,
}

/// One step of a submission.
#[derive(Clone, Copy, Debug, PartialEq, Eq, Structural)]
pub struct Transition {
    pub next: SubmissionState,
    pub action: SubmissionAction,
}

impl SubmissionState {
    /// Whether the submission has ended.
    pub open spec fn is_terminal(self) -> bool {
        self is Confirmed || self is Dropped || self is Reverted
    }

    /// The outcome that a final state stands for.
    pub open spec fn outcome(self) -> Option<Outcome> {
        match self {
            SubmissionState::Confirmed => Some(Outcome::Confirmed),
            SubmissionState::Dropped => Some(Outcome::Dropped),
            SubmissionState::Reverted => Some(Outcome::Reverted),
            _ => None,
        }
    }

    /// How often the transaction has been resent.
    pub open spec fn resubmissions(self) -> nat {
        match self {
            SubmissionState::Escalated { resubmissions } => resubmissions as nat,
            _ => 0,
        }
    }

    /// Whether the transaction is with the node.
    pub open spec fn in_flight(self) -> bool {
        self is Submitted || self is Escalated
    }

    /// Whether the submission has ended, and how.
    pub fn terminal_outcome(&self) -> (r: Option<Outcome>)
        ensures
            r == self.outcome(),
            r is Some <==> self.is_terminal(),
    {
        match self {
            SubmissionState::Confirmed => Some(Outcome::Confirmed),
            SubmissionState::Dropped => Some(Outcome::Dropped),
            SubmissionState::Reverted => Some(Outcome::Reverted),
            _ => None,
        }
    }
}

/// The step that `event` causes in `state`.
///
/// A transaction that is with the node is resent at the next price on every
/// tick until it has been resent `max_resubmissions` times; the tick after
/// that gives it up as dropped. Final states take no further step.
pub open spec fn step_spec(
    state: SubmissionState,
    event: SubmissionEvent,
    escalation: Escalation,
    initial_price: u128,
) -> Transition {
    match (state, event) {
        (SubmissionState::Building, SubmissionEvent::SignedOk) => Transition {
            next: SubmissionState::Signed,
            action: SubmissionAction::Send {
                gas_price: offered_price_spec(escalation, initial_price as nat, 0) as u128,
            },
        },
        (SubmissionState::Signed, SubmissionEvent::Sent) => Transition {
            next: SubmissionState::Submitted,
            action: SubmissionAction::Wait,
        },
        (SubmissionState::Building, SubmissionEvent::Failed)
        | (SubmissionState::Signed, SubmissionEvent::Failed)
        | (SubmissionState::Submitted, SubmissionEvent::Failed)
        | (SubmissionState::Escalated { .. }, SubmissionEvent::Failed)
        | (SubmissionState::Submitted, SubmissionEvent::DroppedByNode)
        | (SubmissionState::Escalated { .. }, SubmissionEvent::DroppedByNode) => Transition {
            next: SubmissionState::Dropped,
            action: SubmissionAction::Finish { outcome: Outcome::Dropped },
        },
        (SubmissionState::Submitted, SubmissionEvent::Mined)
        | (SubmissionState::Escalated { .. }, SubmissionEvent::Mined) => Transition {
            next: SubmissionState::Confirmed,
            action: SubmissionAction::Finish { outcome: Outcome::Confirmed },
        },
        (SubmissionState::Submitted, SubmissionEvent::RevertedOnChain)
        | (SubmissionState::Escalated { .. }, SubmissionEvent::RevertedOnChain) => Transition {
            next: SubmissionState::Reverted,
            action: SubmissionAction::Finish { outcome: Outcome::Reverted },
        },
        (SubmissionState::Submitted, SubmissionEvent::CadenceTick)
        | (SubmissionState::Escalated { .. }, SubmissionEvent::CadenceTick) => {
            if state.resubmissions() < escalation.max_resubmissions {
                Transition {
                    next: SubmissionState::Escalated {
                        resubmissions: (state.resubmissions() + 1) as u32,
                    },
                    action: SubmissionAction::Resend {
                        gas_price: offered_price_spec(
                            escalation,
                            initial_price as nat,
                            state.resubmissions() + 1,
                        ) as u128,
                    },
                }
            } else {
                Transition {
                    next: SubmissionState::Dropped,
                    action: SubmissionAction::Finish { outcome: Outcome::Dropped },
                }
            }
        },
        _ => Transition { next: state, action: SubmissionAction::Ignore },
    }
}

/// Takes one step of a submission.
pub fn step(
    state: SubmissionState,
    event: SubmissionEvent,
    escalation: &Escalation,
    initial_price: u128,
) -> (t: Transition)
    ensures
        t == step_spec(state, event, *escalation, initial_price),
{
    let resent: u32 = match state {
        SubmissionState::Escalated { resubmissions } => resubmissions,
        _ => 0,
    };
    let with_node: bool = match state {
        SubmissionState::Submitted => true,
        SubmissionState::Escalated { .. } => true,
        _ => false,
    };
    let before_node: bool = match state {
        SubmissionState::Building => true,
        SubmissionState::Signed => true,
        _ => false,
    };
    match event {
        SubmissionEvent::SignedOk => match state {
            SubmissionState::Building => Transition {
                next: SubmissionState::Signed,
                action: SubmissionAction::Send {
                    gas_price: offered_price(escalation, initial_price, 0),
                },
            },
            _ => Transition { next: state, action: SubmissionAction::Ignore },
        },
        SubmissionEvent::Sent => match state {
            SubmissionState::Signed => Transition {
                next: SubmissionState::Submitted,
                action: SubmissionAction::Wait,
            },
            _ => Transition { next: state, action: SubmissionAction::Ignore },
        },
        SubmissionEvent::Failed => if with_node || before_node {
            Transition {
                next: SubmissionState::Dropped,
                action: SubmissionAction::Finish { outcome: Outcome::Dropped },
            }
        } else {
            Transition { next: state, action: SubmissionAction::Ignore }
        },
        SubmissionEvent::DroppedByNode => if with_node {
            Transition {
                next: SubmissionState::Dropped,
                action: SubmissionAction::Finish { outcome: Outcome::Dropped },
            }
        } else {
            Transition { next: state, action: SubmissionAction::Ignore }
        },
        SubmissionEvent::Mined => if with_node {
            Transition {
                next: SubmissionState::Confirmed,
                action: SubmissionAction::Finish { outcome: Outcome::Confirmed },
            }
        } else {
            Transition { next: state, action: SubmissionAction::Ignore }
        },
        SubmissionEvent::RevertedOnChain => if with_node {
            Transition {
                next: SubmissionState::Reverted,
                action: SubmissionAction::Finish { outcome: Outcome::Reverted },
            }
        } else {
            Transition { next: state, action: SubmissionAction::Ignore }
        },
        SubmissionEvent::CadenceTick => if with_node {
            if resent < escalation.max_resubmissions {
                Transition {
                    next: SubmissionState::Escalated { resubmissions: resent + 1 },
                    action: SubmissionAction::Resend {
                        gas_price: offered_price(escalation, initial_price, resent + 1),
                    },
                }
            } else {
                Transition {
                    next: SubmissionState::Dropped,
                    action: SubmissionAction::Finish { outcome: Outcome::Dropped },
                }
            }
        } else {
            Transition { next: state, action: SubmissionAction::Ignore }
        },
    }
}

/// A final state takes no step, whatever the event.
pub proof fn lemma_terminal_is_final(
    state: SubmissionState,
    event: SubmissionEvent,
    escalation: Escalation,
    initial_price: u128,
)
    requires
        state.is_terminal(),
    ensures
        step_spec(state, event, escalation, initial_price) == (Transition {
            next: state,
            action: SubmissionAction::Ignore,
        }),
{
}

/// The outcome is reported exactly on the step that ends the submission, and
/// it is the outcome of the state reached.
pub proof fn lemma_finish_exactly_on_ending(
    state: SubmissionState,
    event: SubmissionEvent,
    escalation: Escalation,
    initial_price: u128,
)
    ensures
        ({
            let t = step_spec(state, event, escalation, initial_price);
            &&& (t.action is Finish <==> !state.is_terminal() && t.next.is_terminal())
            &&& (t.action matches SubmissionAction::Finish { outcome } ==> t.next.outcome() == Some(
                outcome,
            ))
        }),
{
}

/// A transaction is never resent more often than the budget allows, and a
/// tick on a transaction with the node either resends it or gives it up.
pub proof fn lemma_resubmissions_bounded(
    state: SubmissionState,
    event: SubmissionEvent,
    escalation: Escalation,
    initial_price: u128,
)
    requires
        state.resubmissions() <= escalation.max_resubmissions,
    ensures
        ({
            let t = step_spec(state, event, escalation, initial_price);
            &&& t.next.resubmissions() <= escalation.max_resubmissions
            &&& (state.in_flight() && event is CadenceTick ==> t.next is Dropped
                || t.next.resubmissions() == state.resubmissions() + 1)
            &&& (t.action matches SubmissionAction::Resend { gas_price } ==> gas_price
                == offered_price_spec(escalation, initial_price as nat, t.next.resubmissions()))
        }),
{
}

/// The pending set after a submission for `pair` that stands at `state` has
/// been settled: a final state releases the pair, any other changes nothing.
pub open spec fn settled_spec(pending: Map<usize, u64>, pair: usize, state: SubmissionState) -> Map<
    usize,
    u64,
> {
    if state.is_terminal() {
        complete_spec(pending, pair)
    } else {
        pending
    }
}

/// Once a submission has reached a final state and is settled, its pair is
/// admitted again, whichever of the three final states it is; the other
/// pairs stand as before.
pub proof fn lemma_settled_pair_is_eligible(
    pending: Map<usize, u64>,
    pair: usize,
    state: SubmissionState,
    other: usize,
)
    requires
        state.is_terminal(),
    ensures
        admits(settled_spec(pending, pair, state), pair),
        other != pair ==> (admits(settled_spec(pending, pair, state), other) <==> admits(
            pending,
            other,
        )),
{
}

/// Reports the end of the submission for `pair` to the guard.
///
/// In a final state the pair is released, whatever the outcome, and the
/// result is the outcome to log; in any other state nothing changes.
pub fn settle(guard: &mut ExecutionGuard, pair: usize, state: SubmissionState) -> (r: Option<Outcome>)
    ensures
        r == state.outcome(),
        final(guard)@ == settled_spec(old(guard)@, pair, state),
{
    match state.terminal_outcome() {
        Some(outcome) => {
            let _ = guard.complete(pair, outcome);
            Some(outcome)
        },
        None => None,
    }
}

} // verus!
