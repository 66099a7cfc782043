//! Order monitoring and cancellation decisions.
//!
//! The hot monitoring loop runs at 1 kHz: it reads the published status
//! byte, copies a small order snapshot and the hedge-venue top of book,
//! and decides whether to request a cancel for age or for profit
//! deviation.  The surrounding process owns the timer, the atomic, the
//! mutexes and the bounded cancel queue; `monitor_tick` is the whole of
//! the decision it acts on each tick.
//!
//! The cancel handler drains those requests: `cancel_precheck` is its
//! decision whether to proceed (a request is dropped while backing off,
//! after the order left the `OrderPlaced` state, or when the order
//! already has fills), and `apply_cancel_success` is the state update
//! after the venue confirms the cancel.

use vstd::prelude::*;
use crate::evaluator::{OpportunityEvaluator, spec_abs_diff};
use crate::side::OrderSide;
use crate::state::{ActiveOrder, BotState, BotStatus};
use crate::{MAX_PRICE_MICRO, MAX_PROFIT_PPM_ABS, RATE_ONE};

verus! {

/// Minimal copy of the active order, read every tick by the monitor
/// without touching the larger state.
#[derive(Debug, Clone, Copy, PartialEq, Eq, Structural)]
pub struct OrderSnapshot {
    /// Side of the resting maker order.
    pub side: OrderSide,
    /// Limit price, in millionths of a USD.
    pub price: u64,
    /// Order size, in millionths of a base unit.
    pub size: u128,
    /// Profit captured at placement, in ppm.
    pub initial_profit_ppm: i128,
    /// Placement time, in milliseconds.
    pub placed_at_ms: u64,
}

/// The snapshot fields of an active order.
pub open spec fn snapshot_of(order: ActiveOrder) -> OrderSnapshot {
    OrderSnapshot {
        side: order.side,
        price: order.price,
        size: order.size,
        initial_profit_ppm: order.initial_profit_ppm,
        placed_at_ms: order.placed_at_ms,
    }
}

/// Holder for the shared order snapshot.  The surrounding process wraps
/// it in a short-critical-section mutex; placement installs a snapshot
/// here before publishing `OrderPlaced`, and every transition away from
/// `OrderPlaced` clears it.
#[derive(Debug)]
pub struct SharedOrderSnapshot {
    inner: Option<OrderSnapshot>,
}

impl SharedOrderSnapshot {
    /// The held snapshot, if any.
    pub closed spec fn snapshot(self) -> Option<OrderSnapshot> {
        self.inner
    }

    /// Empty holder.
    pub fn new() -> (r: Self)
        ensures
            r.snapshot() is None,
    {
        SharedOrderSnapshot { inner: None }
    }

    /// Copy the held snapshot out.
    pub fn get(&self) -> (r: Option<OrderSnapshot>)
        ensures
            r == self.snapshot(),
    {
        self.inner
    }

    /// Replace the held snapshot.
    pub fn set(&mut self, snapshot: Option<OrderSnapshot>)
        ensures
            final(self).snapshot() == snapshot,
    {
        self.inner = snapshot;
    }
}

/// Install the snapshot for a freshly placed order.
pub fn update_order_snapshot(
    snapshot: &mut SharedOrderSnapshot,
    side: OrderSide,
    price: u64,
    size: u128,
    initial_profit_ppm: i128,
    now_ms: u64,
)
    ensures
        final(snapshot).snapshot() == Some(
            OrderSnapshot { side, price, size, initial_profit_ppm, placed_at_ms: now_ms },
        ),
{
    snapshot.set(Some(OrderSnapshot { side, price, size, initial_profit_ppm, placed_at_ms: now_ms }));
}

/// Consistency of what concurrent readers observe: the state is well
/// formed, a snapshot is held exactly while the status byte says
/// `OrderPlaced`, and a held snapshot is the projection of the active
/// order.  Every transition in this crate preserves it, so a reader that
/// sees the byte equal to 1 may rely on the snapshot and the order.
pub open spec fn observation_consistent(state: BotState, snap: SharedOrderSnapshot) -> bool {
    &&& state.wf()
    &&& (snap.snapshot() is Some <==> state.status_atomic == 1)
    &&& match snap.snapshot() {
        Some(s) => match state.active_order {
            Some(o) => s == snapshot_of(o),
            None => false,
        },
        None => true,
    }
}

/// A reader that observes the status byte as `OrderPlaced` finds a
/// snapshot installed, an active order present, and the snapshot equal
/// to that order's projection: observations made through the lock-free
/// byte agree with the authoritative state.
pub proof fn lemma_order_placed_observation(state: BotState, snap: SharedOrderSnapshot)
    requires
        observation_consistent(state, snap),
        state.status_atomic == 1,
    ensures
        state.status == BotStatus::OrderPlaced,
        snap.snapshot() is Some,
        state.active_order is Some,
        snapshot_of(state.active_order.unwrap()) == snap.snapshot().unwrap(),
{
}

/// A cancel request emitted by the monitor, consumed by the cancel
/// handler.
#[derive(Debug)]
pub enum CancelRequest {
    /// The order outlived the refresh interval.
    AgeExpiry {
        /// Trading symbol to cancel on.
        symbol: String,
        /// Age of the order when the request was made, in milliseconds.
        age_ms: u64,
    },
    /// The recomputed profit drifted too far from the captured one.
    ProfitDeviation {
        /// Trading symbol to cancel on.
        symbol: String,
        /// Profit recomputed at the current hedge prices, in ppm.
        current_profit_ppm: i128,
        /// Absolute drift from the captured profit, in ppm.
        deviation_ppm: i128,
    },
}

/// One tick of the hot monitoring loop.
///
/// Emits nothing unless the status byte reads `OrderPlaced`, a snapshot
/// is installed, and both hedge-venue prices are populated (a `(0, 0)`
/// price cell suppresses every decision).  Then an order older than the
/// refresh interval requests an age cancel; otherwise the profit is
/// recomputed and a drift beyond the threshold requests a profit cancel,
/// carrying the recomputed profit and the drift.
pub fn monitor_tick(
    evaluator: &OpportunityEvaluator,
    status_atomic: u8,
    snapshot: Option<OrderSnapshot>,
    hl_bid: u64,
    hl_ask: u64,
    now_ms: u64,
    order_refresh_interval_secs: u64,
    profit_cancel_threshold_ppm: i128,
    symbol: String,
) -> (r: Option<CancelRequest>)
    requires
        evaluator.wf(),
        snapshot matches Some(s) ==> {
            &&& 1 <= s.price <= MAX_PRICE_MICRO
            &&& s.placed_at_ms <= now_ms
            &&& -MAX_PROFIT_PPM_ABS <= s.initial_profit_ppm <= MAX_PROFIT_PPM_ABS
        },
        hl_bid <= MAX_PRICE_MICRO,
        hl_ask <= MAX_PRICE_MICRO,
        order_refresh_interval_secs <= 1_000_000_000,
    ensures
        status_atomic != 1 ==> r is None,
        status_atomic == 1 && snapshot is None ==> r is None,
        (match snapshot {
            Some(s) => status_atomic == 1 ==> {
                let age_ms = now_ms - s.placed_at_ms;
                let current = evaluator.spec_profit(s.side, s.price as int, hl_bid as int, hl_ask as int);
                let deviation = spec_abs_diff(s.initial_profit_ppm as int, current);
                if hl_bid == 0 || hl_ask == 0 {
                    r is None
                } else if age_ms > order_refresh_interval_secs * 1000 {
                    r == Some(CancelRequest::AgeExpiry { symbol, age_ms: age_ms as u64 })
                } else if deviation > profit_cancel_threshold_ppm {
                    r == Some(CancelRequest::ProfitDeviation {
                        symbol,
                        current_profit_ppm: current as i128,
                        deviation_ppm: deviation as i128,
                    })
                } else {
                    r is None
                }
            },
            None => true,
        }),
{
    if status_atomic != 1 {
        return None;
    }
    let s = match snapshot {
        Some(s) => s,
        None => { return None; },
    };
    if hl_bid == 0 || hl_ask == 0 {
        return None;
    }
    let age_ms: u64 = now_ms - s.placed_at_ms;
    if age_ms > order_refresh_interval_secs * 1000 {
        return Some(CancelRequest::AgeExpiry { symbol, age_ms });
    }
    let current_profit: i128 = evaluator.recalculate_profit_raw(s.side, s.price, hl_bid, hl_ask);
    let deviation: i128 = if s.initial_profit_ppm >= current_profit {
        s.initial_profit_ppm - current_profit
    } else {
        current_profit - s.initial_profit_ppm
    };
    if deviation > profit_cancel_threshold_ppm {
        Some(CancelRequest::ProfitDeviation {
            symbol,
            current_profit_ppm: current_profit,
            deviation_ppm: deviation,
        })
    } else {
        None
    }
}

/// What the fill pre-check learned about the resting order from the
/// venue's open-order list.
#[derive(Debug)]
pub enum FillCheckResult {
    /// The order is listed with this filled amount, which is positive.
    HasFills(u128),
    /// The order is listed and nothing is filled.
    NoFills,
    /// The order is not in the open list: already filled or cancelled.
    NotFound,
    /// The list could not be fetched.
    CheckFailed(String),
}

/// Classify the venue's answer about our order: the whole open-order
/// fetch reduced to the filled amount of the order with our client id.
pub fn classify_fill_check(lookup: Result<Option<u128>, String>) -> (r: FillCheckResult)
    ensures
        match lookup {
            Ok(Some(filled)) => if filled > 0 {
                r == FillCheckResult::HasFills(filled)
            } else {
                r == FillCheckResult::NoFills
            },
            Ok(None) => r == FillCheckResult::NotFound,
            Err(e) => r == FillCheckResult::CheckFailed(e),
        },
{
    match lookup {
        Ok(Some(filled)) => {
            if filled > 0 {
                FillCheckResult::HasFills(filled)
            } else {
                FillCheckResult::NoFills
            }
        }
        Ok(None) => FillCheckResult::NotFound,
        Err(e) => FillCheckResult::CheckFailed(e),
    }
}

/// The cancel handler's verdict on one request.
#[derive(Debug, Clone, Copy, PartialEq, Eq, Structural)]
pub enum CancelDecision {
    /// A rate-limit backoff is active: skip without touching the venue.
    SkipBackoff,
    /// The order already left `OrderPlaced`: filled or cancelled.
    SkipStatusChanged,
    /// The order has fills: abort, the fill-detection path handles it.
    AbortHasFills,
    /// The order is no longer open: drop the request.
    DropNotFound,
    /// Safe (or safest) to cancel: proceed with the venue call.
    Proceed,
}

/// Decide whether to act on a cancel request.  The cancel proceeds only
/// while no backoff is active, the status byte still reads `OrderPlaced`,
/// and the pre-check found no fills (a failed pre-check also proceeds:
/// cancelling is safer than leaving a stale quote).  A positive filled
/// amount always aborts the cancel.
pub fn cancel_precheck(
    rate_limited: bool,
    status_atomic: u8,
    fill_check: &FillCheckResult,
) -> (r: CancelDecision)
    ensures
        r == (if rate_limited {
            CancelDecision::SkipBackoff
        } else if status_atomic != 1 {
            CancelDecision::SkipStatusChanged
        } else {
            match fill_check {
                FillCheckResult::HasFills(_) => CancelDecision::AbortHasFills,
                FillCheckResult::NotFound => CancelDecision::DropNotFound,
                FillCheckResult::NoFills => CancelDecision::Proceed,
                FillCheckResult::CheckFailed(_) => CancelDecision::Proceed,
            }
        }),
        (fill_check matches FillCheckResult::HasFills(_)) ==> r != CancelDecision::Proceed,
{
    if rate_limited {
        CancelDecision::SkipBackoff
    } else if status_atomic != 1 {
        CancelDecision::SkipStatusChanged
    } else {
        match fill_check {
            FillCheckResult::HasFills(_) => CancelDecision::AbortHasFills,
            FillCheckResult::NotFound => CancelDecision::DropNotFound,
            FillCheckResult::NoFills => CancelDecision::Proceed,
            FillCheckResult::CheckFailed(_) => CancelDecision::Proceed,
        }
    }
}

/// Apply a confirmed cancel: if the order is still `OrderPlaced`, clear
/// it (stamping the cancel time) and drop the snapshot; otherwise a fill
/// won the race and nothing changes.  Observation consistency survives
/// either way.
pub fn apply_cancel_success(state: &mut BotState, snap: &mut SharedOrderSnapshot, now_ms: u64)
    requires
        observation_consistent(*old(state), *old(snap)),
    ensures
        observation_consistent(*final(state), *final(snap)),
        old(state).status == BotStatus::OrderPlaced ==> {
            &&& final(state).status == BotStatus::Idle
            &&& final(state).active_order is None
            &&& final(state).status_atomic == 0
            &&& final(state).last_cancellation_time_ms == Some(now_ms)
            &&& final(snap).snapshot() is None
        },
        old(state).status != BotStatus::OrderPlaced ==> {
            &&& *final(state) == *old(state)
            &&& final(snap).snapshot() == old(snap).snapshot()
        },
        final(state).position == old(state).position,
{
    let still_placed = match &state.status {
        BotStatus::OrderPlaced => true,
        _ => false,
    };
    if still_placed {
        state.clear_active_order(now_ms);
        snap.set(None);
    }
}

/// A periodic, purely observational profit report for the logger task.
#[derive(Debug, Clone, Copy, PartialEq, Eq, Structural)]
pub struct ProfitReport {
    /// Profit recomputed at the current hedge prices, in ppm.
    pub current_profit_ppm: i128,
    /// Profit captured at placement, in ppm.
    pub initial_profit_ppm: i128,
    /// `current - initial`, in ppm.
    pub profit_change_ppm: i128,
    /// The maker order's limit price.
    pub pacifica_price: u64,
    /// The hedge price the order would be offset at: the bid for a buy,
    /// the ask for a sell.
    pub hedge_price: u64,
    /// Age of the order, in milliseconds.
    pub age_ms: u64,
}

/// Compute the profit logger's report: the same read pattern as the
/// monitor, with no decision attached.  Returns nothing unless an order
/// is resting and both hedge prices are populated.
pub fn profit_observation(
    evaluator: &OpportunityEvaluator,
    status_atomic: u8,
    snapshot: Option<OrderSnapshot>,
    hl_bid: u64,
    hl_ask: u64,
    now_ms: u64,
) -> (r: Option<ProfitReport>)
    requires
        evaluator.wf(),
        snapshot matches Some(s) ==> {
            &&& 1 <= s.price <= MAX_PRICE_MICRO
            &&& s.placed_at_ms <= now_ms
            &&& -MAX_PROFIT_PPM_ABS <= s.initial_profit_ppm <= MAX_PROFIT_PPM_ABS
        },
        hl_bid <= MAX_PRICE_MICRO,
        hl_ask <= MAX_PRICE_MICRO,
    ensures
        ({
            match snapshot {
                Some(s) => {
                    let current = evaluator.spec_profit(s.side, s.price as int, hl_bid as int, hl_ask as int);
                    if status_atomic == 1 && hl_bid != 0 && hl_ask != 0 {
                        r == Some(ProfitReport {
                            current_profit_ppm: current as i128,
                            initial_profit_ppm: s.initial_profit_ppm,
                            profit_change_ppm: (current - s.initial_profit_ppm) as i128,
                            pacifica_price: s.price,
                            hedge_price: (match s.side {
                                OrderSide::Buy => hl_bid,
                                OrderSide::Sell => hl_ask,
                            }),
                            age_ms: (now_ms - s.placed_at_ms) as u64,
                        })
                    } else {
                        r is None
                    }
                },
                None => r is None,
            }
        }),
{
    if status_atomic != 1 {
        return None;
    }
    let s = match snapshot {
        Some(s) => s,
        None => { return None; },
    };
    if hl_bid == 0 || hl_ask == 0 {
        return None;
    }
    let current_profit: i128 = evaluator.recalculate_profit_raw(s.side, s.price, hl_bid, hl_ask);
    let hedge_price: u64 = match s.side {
        OrderSide::Buy => hl_bid,
        OrderSide::Sell => hl_ask,
    };
    Some(ProfitReport {
        current_profit_ppm: current_profit,
        initial_profit_ppm: s.initial_profit_ppm,
        profit_change_ppm: current_profit - s.initial_profit_ppm,
        pacifica_price: s.price,
        hedge_price,
        age_ms: now_ms - s.placed_at_ms,
    })
}

} // verus!
