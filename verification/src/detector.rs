//! Decides whether the two venues' prices of a pair have diverged enough to act.

use crate::cache::ReserveSnapshot;
use crate::market::Venue;
use crate::price::{
    capped_bps, cheaper_venue, cheaper_venue_spec, lemma_cheaper_ignores_decimals,
    lemma_spread_ignores_decimals, normalized_price, price_of, price_ratio, reserve_spread_bps,
    spread_bps, spread_bps_spec, Price,
};
use vstd::pervasive::unreached;
use vstd::prelude::*;

verus! {

/// What the detector is configured with.
#[derive(Clone, Copy, Debug, PartialEq, Eq, Structural)]
pub struct DetectorConfig {
    /// The smallest spread, in basis points, that is acted on.
    pub threshold_bps: u32,
    /// Snapshots older than this many seconds are not compared.
    pub staleness_window_secs: u64,
}

/// Why an update led to no opportunity. None of these is an error.
#[derive(Clone, Copy, Debug, PartialEq, Eq, Structural)]
pub enum Skip {
    /// The update names a pair that is not registered.
    UnknownPair,
    /// One of the two venues has not reported the pair yet.
    MissingSnapshot,
    /// A snapshot is older than the staleness window.
    StaleSnapshot,
    /// A base reserve is zero, so a price would divide by zero.
    ZeroBaseReserve,
    /// Venue A's price is zero, so the spread would divide by zero.
    ZeroReferencePrice,
    /// The spread is below the configured threshold.
    BelowThreshold,
}

/// A spread at or above the threshold. Computed afresh on every update and
/// either acted on at once or dropped.
#[derive(Clone, Copy, Debug, PartialEq, Eq, Structural)]
pub struct Opportunity {
    /// Number of the pair.
    pub pair: usize,
    /// The pair's price on venue A.
    pub price_a: Price,
    /// The pair's price on venue B.
    pub price_b: Price,
    /// `|price_b - price_a| / price_a` in whole basis points, truncated
    /// toward zero and capped at `u64::MAX`.
    pub spread_bps: u64,
    /// The venue with the lower price, where the pair is bought; the pair is
    /// sold on the other one.
    pub buy_on: Venue,
    /// When the spread was detected, in seconds since the epoch.
    pub detected_at: u64,
}

/// Whether a snapshot seen at `observed_at` is too old to be compared at `now`.
pub open spec fn is_stale(observed_at: u64, now: u64, window_secs: u64) -> bool {
    now > observed_at && now - observed_at > window_secs
}

/// The exact spread between two snapshots of one pair, in basis points
/// truncated toward zero, from their prices normalised by the pair's decimals.
pub open spec fn snapshot_spread_bps(
    a: ReserveSnapshot,
    b: ReserveSnapshot,
    base_decimals: u8,
    quote_decimals: u8,
) -> nat {
    spread_bps_spec(
        price_ratio(
            a.base_reserve as nat,
            a.quote_reserve as nat,
            base_decimals as nat,
            quote_decimals as nat,
        ),
        price_ratio(
            b.base_reserve as nat,
            b.quote_reserve as nat,
            base_decimals as nat,
            quote_decimals as nat,
        ),
    )
}

/// The first reason, in the order of the checks, for which the two sides of
/// a pair give no opportunity; `None` where they give one.
pub open spec fn skip_reason(
    a: Option<ReserveSnapshot>,
    b: Option<ReserveSnapshot>,
    base_decimals: u8,
    quote_decimals: u8,
    now: u64,
    config: DetectorConfig,
) -> Option<Skip> {
    if a is None || b is None {
        Some(Skip::MissingSnapshot)
    } else {
        let sa = a->0;
        let sb = b->0;
        if is_stale(sa.observed_at, now, config.staleness_window_secs) || is_stale(
            sb.observed_at,
            now,
            config.staleness_window_secs,
        ) {
            Some(Skip::StaleSnapshot)
        } else if sa.base_reserve == 0 || sb.base_reserve == 0 {
            Some(Skip::ZeroBaseReserve)
        } else if sa.quote_reserve == 0 {
            Some(Skip::ZeroReferencePrice)
        } else if snapshot_spread_bps(sa, sb, base_decimals, quote_decimals)
            < config.threshold_bps {
            Some(Skip::BelowThreshold)
        } else {
            None
        }
    }
}

/// Whether `found` is the opportunity that snapshots `a` and `b` of pair
/// number `pair` give at `now`: both prices normalised by the pair's
/// decimals, their spread, and the venue with the lower price as the one to
/// buy on.
pub open spec fn is_opportunity_of(
    found: Opportunity,
    pair: usize,
    a: ReserveSnapshot,
    b: ReserveSnapshot,
    base_decimals: u8,
    quote_decimals: u8,
    now: u64,
) -> bool {
    &&& found.pair == pair
    &&& found.detected_at == now
    &&& found.price_a == price_of(a.base_reserve, a.quote_reserve, base_decimals, quote_decimals)
    &&& found.price_b == price_of(b.base_reserve, b.quote_reserve, base_decimals, quote_decimals)
    &&& found.spread_bps == capped_bps(snapshot_spread_bps(a, b, base_decimals, quote_decimals))
    &&& found.buy_on == cheaper_venue_spec(
        price_ratio(
            a.base_reserve as nat,
            a.quote_reserve as nat,
            base_decimals as nat,
            quote_decimals as nat,
        ),
        price_ratio(
            b.base_reserve as nat,
            b.quote_reserve as nat,
            base_decimals as nat,
            quote_decimals as nat,
        ),
    )
}

/// Whether `snapshot` is too old to be compared at `now`.
pub fn snapshot_is_stale(snapshot: &ReserveSnapshot, now: u64, window_secs: u64) -> (r: bool)
    ensures
        r == is_stale(snapshot.observed_at, now, window_secs),
{
    now > snapshot.observed_at && now - snapshot.observed_at > window_secs
}

/// Compares the latest snapshots of pair number `pair` on the two venues.
///
/// Gives an opportunity exactly when both venues have reported, neither
/// snapshot is stale, both prices are defined, venue A's price is not zero,
/// and the spread is at least the threshold (the threshold itself included).
pub fn evaluate(
    pair: usize,
    a: Option<ReserveSnapshot>,
    b: Option<ReserveSnapshot>,
    base_decimals: u8,
    quote_decimals: u8,
    now: u64,
    config: &DetectorConfig,
) -> (r: Result<Opportunity, Skip>)
    ensures
        r is Ok <==> skip_reason(a, b, base_decimals, quote_decimals, now, *config) is None,
        r matches Err(s) ==> skip_reason(a, b, base_decimals, quote_decimals, now, *config)
            == Some(s),
        r matches Ok(o) ==> {
            &&& skip_reason(a, b, base_decimals, quote_decimals, now, *config) is None
            &&& is_opportunity_of(o, pair, a->0, b->0, base_decimals, quote_decimals, now)
            &&& o.spread_bps >= config.threshold_bps
        },
{
    let (sa, sb) = match (a, b) {
        (Some(sa), Some(sb)) => (sa, sb),
        _ => {
            return Err(Skip::MissingSnapshot);
        },
    };
    if snapshot_is_stale(&sa, now, config.staleness_window_secs) || snapshot_is_stale(
        &sb,
        now,
        config.staleness_window_secs,
    ) {
        return Err(Skip::StaleSnapshot);
    }
    if sa.base_reserve == 0 || sb.base_reserve == 0 {
        return Err(Skip::ZeroBaseReserve);
    }
    if sa.quote_reserve == 0 {
        return Err(Skip::ZeroReferencePrice);
    }
    proof {
        lemma_spread_ignores_decimals(
            sa.base_reserve as nat,
            sa.quote_reserve as nat,
            sb.base_reserve as nat,
            sb.quote_reserve as nat,
            base_decimals as nat,
            quote_decimals as nat,
        );
    }
    let spread: u64 = match spread_bps(
        sa.base_reserve,
        sa.quote_reserve,
        sb.base_reserve,
        sb.quote_reserve,
    ) {
        Some(v) => v,
        None => unreached(),
    };
    if spread < config.threshold_bps as u64 {
        return Err(Skip::BelowThreshold);
    }
    let price_a = match normalized_price(
        sa.base_reserve,
        sa.quote_reserve,
        base_decimals,
        quote_decimals,
    ) {
        Some(p) => p,
        None => unreached(),
    };
    let price_b = match normalized_price(
        sb.base_reserve,
        sb.quote_reserve,
        base_decimals,
        quote_decimals,
    ) {
        Some(p) => p,
        None => unreached(),
    };
    proof {
        lemma_cheaper_ignores_decimals(
            sa.base_reserve as nat,
            sa.quote_reserve as nat,
            sb.base_reserve as nat,
            sb.quote_reserve as nat,
            base_decimals as nat,
            quote_decimals as nat,
        );
    }
    let buy_on = cheaper_venue(sa.base_reserve, sa.quote_reserve, sb.base_reserve, sb.quote_reserve);
    Ok(Opportunity { pair, price_a, price_b, spread_bps: spread, buy_on, detected_at: now })
}

/// With a snapshot from one venue only, no opportunity is found.
pub proof fn lemma_one_sided_never_triggers(
    a: Option<ReserveSnapshot>,
    b: Option<ReserveSnapshot>,
    base_decimals: u8,
    quote_decimals: u8,
    now: u64,
    config: DetectorConfig,
)
    requires
        a is None || b is None,
    ensures
        skip_reason(a, b, base_decimals, quote_decimals, now, config) is Some,
{
}

/// A snapshot with a zero base reserve has no price and gives no opportunity,
/// whichever venue it is from.
pub proof fn lemma_zero_base_never_triggers(
    a: Option<ReserveSnapshot>,
    b: Option<ReserveSnapshot>,
    base_decimals: u8,
    quote_decimals: u8,
    now: u64,
    config: DetectorConfig,
)
    requires
        (a matches Some(s) && s.base_reserve == 0) || (b matches Some(s) && s.base_reserve == 0),
    ensures
        skip_reason(a, b, base_decimals, quote_decimals, now, config) is Some,
{
}

/// The threshold is inclusive: fresh, priced snapshots give an opportunity
/// exactly when their spread is at least the threshold.
pub proof fn lemma_threshold_inclusive(
    a: ReserveSnapshot,
    b: ReserveSnapshot,
    base_decimals: u8,
    quote_decimals: u8,
    now: u64,
    config: DetectorConfig,
)
    requires
        !is_stale(a.observed_at, now, config.staleness_window_secs),
        !is_stale(b.observed_at, now, config.staleness_window_secs),
        a.base_reserve > 0,
        b.base_reserve > 0,
        a.quote_reserve > 0,
    ensures
        skip_reason(Some(a), Some(b), base_decimals, quote_decimals, now, config) is None
            <==> snapshot_spread_bps(a, b, base_decimals, quote_decimals) >= config.threshold_bps,
        skip_reason(Some(a), Some(b), base_decimals, quote_decimals, now, config) is None
            <==> reserve_spread_bps(
            a.base_reserve as nat,
            a.quote_reserve as nat,
            b.base_reserve as nat,
            b.quote_reserve as nat,
        ) >= config.threshold_bps,
{
    lemma_spread_ignores_decimals(
        a.base_reserve as nat,
        a.quote_reserve as nat,
        b.base_reserve as nat,
        b.quote_reserve as nat,
        base_decimals as nat,
        quote_decimals as nat,
    );
}

} // verus!
