//! What one pool's listener does with the events of its subscription, and
//! how it comes back after the subscription is lost.

use crate::cache::ReserveSnapshot;
use crate::market::Venue;
use crate::uint256::{be_value, two_pow_128, Uint256};
use vstd::pervasive::unreached;
use vstd::prelude::*;
use vstd::slice::slice_subrange;

verus! {

/// The length of an update payload: two 32-byte words.
pub const PAYLOAD_LEN: usize = 64;

/// Why a payload was dropped.
#[derive(Clone, Copy, Debug, PartialEq, Eq, Structural)]
pub enum DecodeError {
    /// The payload is not `PAYLOAD_LEN` bytes long.
    BadLength,
    /// A word does not fit in the 128 bits of a reserve.
    ReserveOutOfRange,
}

/// The reserves `(base, quote)` that a payload holds: its two words, each a
/// big-endian number.
pub open spec fn decode_spec(payload: Seq<u8>) -> Result<(u128, u128), DecodeError> {
    if payload.len() != PAYLOAD_LEN {
        Err(DecodeError::BadLength)
    } else if be_value(payload.subrange(0, 32)) >= two_pow_128() || be_value(
        payload.subrange(32, 64),
    ) >= two_pow_128() {
        Err(DecodeError::ReserveOutOfRange)
    } else {
        Ok((be_value(payload.subrange(0, 32)) as u128, be_value(payload.subrange(32, 64)) as u128))
    }
}

/// One 32-byte word as a reserve.
fn decode_word(word: &[u8]) -> (r: Option<u128>)
    requires
        word@.len() == 32,
    ensures
        r is Some <==> be_value(word@) < two_pow_128(),
        r matches Some(v) ==> v == be_value(word@),
{
    let value = match Uint256::from_big_endian(word) {
        Some(v) => v,
        None => unreached(),
    };
    value.to_u128()
}

/// Decodes the payload of an update event into `(base reserve, quote reserve)`.
pub fn decode_reserves(payload: &[u8]) -> (r: Result<(u128, u128), DecodeError>)
    ensures
        r == decode_spec(payload@),
{
    if payload.len() != PAYLOAD_LEN {
        return Err(DecodeError::BadLength);
    }
    let first = decode_word(slice_subrange(payload, 0, 32));
    let second = decode_word(slice_subrange(payload, 32, 64));
    match (first, second) {
        (Some(base), Some(quote)) => Ok((base, quote)),
        _ => Err(DecodeError::ReserveOutOfRange),
    }
}

/// The snapshot that an update event of the pool of `pair` on `venue` stands
/// for, seen at `observed_at`.
pub fn snapshot_from_payload(pair: usize, venue: Venue, payload: &[u8], observed_at: u64) -> (r:
    Result<ReserveSnapshot, DecodeError>)
    ensures
        match decode_spec(payload@) {
            Ok(reserves) => r == Ok::<ReserveSnapshot, DecodeError>(
                ReserveSnapshot {
                    pair,
                    venue,
                    base_reserve: reserves.0,
                    quote_reserve: reserves.1,
                    observed_at,
                },
            ),
            Err(e) => r == Err::<ReserveSnapshot, DecodeError>(e),
        },
{
    match decode_reserves(payload) {
        Ok(reserves) => Ok(
            ReserveSnapshot {
                pair,
                venue,
                base_reserve: reserves.0,
                quote_reserve: reserves.1,
                observed_at,
            },
        ),
        Err(e) => Err(e),
    }
}

/// How long a listener waits before it subscribes again, and how often it tries.
#[derive(Clone, Copy, Debug, PartialEq, Eq, Structural)]
pub struct BackoffPolicy {
    /// The wait after the first failure, in milliseconds.
    pub base_delay_ms: u64,
    /// The longest wait, in milliseconds.
    pub max_delay_ms: u64,
    /// How many failures in a row are followed by another attempt.
    pub max_retries: u32,
}

/// `base`, doubled `times` times.
pub open spec fn doubled(base: nat, times: nat) -> nat
    decreases times,
{
    if times == 0 {
        base
    } else {
        2 * doubled(base, (times - 1) as nat)
    }
}

/// The wait after `failures` earlier failures in a row, before jitter: the
/// base delay doubled once per failure, held at the longest wait.
pub open spec fn backoff_ceiling(policy: BackoffPolicy, failures: nat) -> nat {
    if doubled(policy.base_delay_ms as nat, failures) <= policy.max_delay_ms {
        doubled(policy.base_delay_ms as nat, failures)
    } else {
        policy.max_delay_ms as nat
    }
}

/// A wait between half of `ceiling` and `ceiling`, picked by `entropy`.
pub open spec fn jittered(ceiling: nat, entropy: nat) -> nat {
    ceiling / 2 + entropy % (ceiling / 2 + 1)
}

/// The wait after `failures` earlier failures in a row, with jitter.
pub open spec fn backoff_delay_spec(policy: BackoffPolicy, failures: nat, entropy: nat) -> nat {
    jittered(backoff_ceiling(policy, failures), entropy)
}

/// Doubling never shrinks a delay.
pub proof fn lemma_doubled_grows(base: nat, i: nat, j: nat)
    requires
        i <= j,
    ensures
        doubled(base, i) <= doubled(base, j),
    decreases j,
{
    if i < j {
        lemma_doubled_grows(base, i, (j - 1) as nat);
    }
}

/// Every wait lies between half its ceiling and its ceiling, no ceiling is
/// above the longest wait, and ceilings do not shrink as failures add up.
pub proof fn lemma_backoff_bounded(policy: BackoffPolicy, i: nat, j: nat, entropy: nat)
    requires
        i <= j,
    ensures
        backoff_ceiling(policy, j) / 2 <= backoff_delay_spec(policy, j, entropy) <= backoff_ceiling(
            policy,
            j,
        ),
        backoff_ceiling(policy, j) <= policy.max_delay_ms,
        backoff_ceiling(policy, i) <= backoff_ceiling(policy, j),
{
    lemma_doubled_grows(policy.base_delay_ms as nat, i, j);
    let half = backoff_ceiling(policy, j) / 2;
    assert(entropy % (half + 1) <= half) by (nonlinear_arith)
        requires
            half >= 0,
    ;
}

/// The wait after `failures` earlier failures in a row. `entropy` is any
/// number drawn at random; it spreads the waits of listeners that lost their
/// subscriptions together.
pub fn backoff_delay_ms(policy: &BackoffPolicy, failures: u32, entropy: u64) -> (r: u64)
    ensures
        r == backoff_delay_spec(*policy, failures as nat, entropy as nat),
{
    let cap: u64 = policy.max_delay_ms;
    let mut ceiling: u64 = if policy.base_delay_ms <= cap {
        policy.base_delay_ms
    } else {
        cap
    };
    let mut k: u32 = 0;
    while k < failures && ceiling < cap
        invariant
            k <= failures,
            cap == policy.max_delay_ms,
            ceiling == backoff_ceiling(*policy, k as nat),
        decreases failures - k,
    {
        ceiling = match ceiling.checked_mul(2) {
            Some(d) => if d <= cap {
                d
            } else {
                cap
            },
            None => cap,
        };
        k = k + 1;
    }
    proof {
        if k < failures {
            lemma_doubled_grows(policy.base_delay_ms as nat, k as nat, failures as nat);
        }
    }
    let half: u64 = ceiling / 2;
    let spread: u64 = entropy % (half + 1);
    half + spread
}

/// Where a listener stands.
#[derive(Clone, Copy, Debug, PartialEq, Eq, Structural)]
pub enum ListenerState {
    /// Asking for the subscription, after `failures` failures in a row.
    Connecting { failures: u32 },
    /// Subscribed and passing updates on.
    Streaming,
    /// Waiting before the next attempt, after `failures` failures in a row.
    Waiting { failures: u32 },
    /// Given up for good. Other listeners are not affected.
    Abandoned,
}

/// What happened to a listener.
#[derive(Clone, Copy, Debug, PartialEq, Eq, Structural)]
pub enum ListenerEvent {
    /// The subscription was set up.
    Subscribed,
    /// The subscription could not be set up.
    SubscribeFailed,
    /// The subscription ended.
    StreamEnded,
    /// The wait is over.
    DelayElapsed,
}

/// What the listener's task has to do next.
#[derive(Clone, Copy, Debug, PartialEq, Eq, Structural)]
pub enum ListenerAction {
    /// Ask for the subscription.
    Subscribe,
    /// Read updates from the subscription.
    Listen,
    /// Wait for `delay_ms` milliseconds.
    Sleep { delay_ms: u64 },
    /// Log that the pool is given up, and end the task.
    Abandon,
    /// Nothing: the event does not concern this state.
    Ignore,
}

/// One step of a listener.
#[derive(Clone, Copy, Debug, PartialEq, Eq, Structural)]
pub struct ListenerStep {
    pub next: ListenerState,
    pub action: ListenerAction,
}

impl ListenerState {
    /// The failures in a row so far.
    pub open spec fn failures(self) -> nat {
        match self {
            ListenerState::Connecting { failures } => failures as nat,
            ListenerState::Waiting { failures } => failures as nat,
            _ => 0,
        }
    }

    /// The state of a listener that has just been started; its first action
    /// is to subscribe.
    pub fn start() -> (r: Self)
        ensures
            r == (ListenerState::Connecting { failures: 0 }),
    {
        ListenerState::Connecting { failures: 0 }
    }
}

/// What follows a failure after `failures` earlier failures in a row: another
/// wait while the retry budget lasts, the end once it is used up.
pub open spec fn after_failure(policy: BackoffPolicy, failures: nat, entropy: u64) -> ListenerStep {
    if failures >= policy.max_retries {
        ListenerStep { next: ListenerState::Abandoned, action: ListenerAction::Abandon }
    } else {
        ListenerStep {
            next: ListenerState::Waiting { failures: (failures + 1) as u32 },
            action: ListenerAction::Sleep {
                delay_ms: backoff_delay_spec(policy, failures, entropy as nat) as u64,
            },
        }
    }
}

/// The step that `event` causes in `state`.
pub open spec fn listener_step_spec(
    state: ListenerState,
    event: ListenerEvent,
    policy: BackoffPolicy,
    entropy: u64,
) -> ListenerStep {
    match (state, event) {
        (ListenerState::Connecting { .. }, ListenerEvent::Subscribed) => ListenerStep {
            next: ListenerState::Streaming,
            action: ListenerAction::Listen,
        },
        (ListenerState::Connecting { failures }, ListenerEvent::SubscribeFailed) => after_failure(
            policy,
            failures as nat,
            entropy,
        ),
        (ListenerState::Streaming, ListenerEvent::StreamEnded) => after_failure(policy, 0, entropy),
        (ListenerState::Waiting { failures }, ListenerEvent::DelayElapsed) => ListenerStep {
            next: ListenerState::Connecting { failures },
            action: ListenerAction::Subscribe,
        },
        _ => ListenerStep { next: state, action: ListenerAction::Ignore },
    }
}

/// What follows a failure after `failures` earlier failures in a row.
fn fail(policy: &BackoffPolicy, failures: u32, entropy: u64) -> (r: ListenerStep)
    ensures
        r == after_failure(*policy, failures as nat, entropy),
{
    if failures >= policy.max_retries {
        ListenerStep { next: ListenerState::Abandoned, action: ListenerAction::Abandon }
    } else {
        ListenerStep {
            next: ListenerState::Waiting { failures: failures + 1 },
            action: ListenerAction::Sleep { delay_ms: backoff_delay_ms(policy, failures, entropy) },
        }
    }
}

/// Takes one step of a listener. `entropy` is any number drawn at random.
pub fn listener_step(
    state: ListenerState,
    event: ListenerEvent,
    policy: &BackoffPolicy,
    entropy: u64,
) -> (r: ListenerStep)
    ensures
        r == listener_step_spec(state, event, *policy, entropy),
{
    match state {
        ListenerState::Connecting { failures } => match event {
            ListenerEvent::Subscribed => ListenerStep {
                next: ListenerState::Streaming,
                action: ListenerAction::Listen,
            },
            ListenerEvent::SubscribeFailed => fail(policy, failures, entropy),
            _ => ListenerStep { next: state, action: ListenerAction::Ignore },
        },
        ListenerState::Streaming => match event {
            ListenerEvent::StreamEnded => fail(policy, 0, entropy),
            _ => ListenerStep { next: state, action: ListenerAction::Ignore },
        },
        ListenerState::Waiting { failures } => match event {
            ListenerEvent::DelayElapsed => ListenerStep {
                next: ListenerState::Connecting { failures },
                action: ListenerAction::Subscribe,
            },
            _ => ListenerStep { next: state, action: ListenerAction::Ignore },
        },
        ListenerState::Abandoned => ListenerStep { next: state, action: ListenerAction::Ignore },
    }
}

/// A listener never counts more failures in a row than its budget, every
/// wait it asks for is at most the longest wait, and once abandoned it stays
/// abandoned.
pub proof fn lemma_listener_bounded(
    state: ListenerState,
    event: ListenerEvent,
    policy: BackoffPolicy,
    entropy: u64,
)
    requires
        state.failures() <= policy.max_retries,
    ensures
        ({
            let s = listener_step_spec(state, event, policy, entropy);
            &&& s.next.failures() <= policy.max_retries
            &&& (s.action matches ListenerAction::Sleep { delay_ms } ==> delay_ms
                <= policy.max_delay_ms)
            &&& (state is Abandoned ==> s.next is Abandoned && s.action is Ignore)
            &&& (s.action is Abandon <==> !(state is Abandoned) && s.next is Abandoned)
        }),
{
    lemma_backoff_bounded(policy, 0, state.failures(), entropy as nat);
    lemma_backoff_bounded(policy, 0, 0, entropy as nat);
}

} // verus!
