//! Order placement: the gating rule and the state update on success.
//!
//! Placement is serialized by the surrounding process (a bounded request
//! channel of depth one; a new request is dropped while one is in
//! flight).  Before calling the venue, the placer checks under the write
//! lock that the bot is idle and the grace period since the last cancel
//! has elapsed; on a confirmed placement it installs the active order,
//! the monitor snapshot, and a cleared processed-fill set in one critical
//! section.

use vstd::prelude::*;
use crate::evaluator::Opportunity;
use crate::fills::{FillKey, ProcessedFills};
use crate::monitor::{observation_consistent, snapshot_of, SharedOrderSnapshot};
use crate::state::{ActiveOrder, BotState, BotStatus};

verus! {

/// A request for the placement task: the opportunity to quote and the
/// maker-venue top of book it was evaluated against, handed to the venue
/// as price hints.
#[derive(Debug, Clone, Copy, PartialEq, Eq, Structural)]
pub struct OrderPlacementRequest {
    /// The opportunity to quote.
    pub opportunity: Opportunity,
    /// Maker-venue best bid at evaluation time.
    pub pac_bid: u64,
    /// Maker-venue best ask at evaluation time.
    pub pac_ask: u64,
}

/// The placement precondition, checked under the write lock before the
/// venue is called: the bot is idle and the grace period since the last
/// cancel has elapsed.  Within the grace period placement is refused, to
/// avoid re-quote thrash right after a cancel.
pub fn placement_allowed(state: &BotState, cancel_grace_period_secs: u64, now_ms: u64) -> (r:
    bool)
    requires
        state.last_cancellation_time_ms matches Some(t) ==> t <= now_ms,
    ensures
        r == (state.status matches BotStatus::Idle
            && state.spec_grace_period_elapsed(cancel_grace_period_secs as int, now_ms as int)),
{
    state.is_idle() && state.grace_period_elapsed(cancel_grace_period_secs, now_ms)
}

/// Placement is refused within the grace period: while fewer than
/// `cancel_grace_period_secs` whole seconds have passed since the last
/// cancel, the placement precondition cannot hold, whatever the status.
pub proof fn lemma_placement_refused_within_grace(
    state: BotState,
    cancel_grace_period_secs: u64,
    now_ms: u64,
)
    requires
        state.last_cancellation_time_ms matches Some(t) ==> {
            &&& t <= now_ms
            &&& (now_ms - t) / 1000 < cancel_grace_period_secs
        },
        state.last_cancellation_time_ms is Some,
    ensures
        !(state.status matches BotStatus::Idle
            && state.spec_grace_period_elapsed(cancel_grace_period_secs as int, now_ms as int)),
{
}

/// Apply a confirmed placement: install the active order, move
/// `Idle -> OrderPlaced` (a transition only placement drives), publish
/// the snapshot, and clear the processed-fill set for the new quote's
/// lifetime.
pub fn apply_placement_success(
    state: &mut BotState,
    snap: &mut SharedOrderSnapshot,
    fills: &mut ProcessedFills,
    order: ActiveOrder,
)
    requires
        observation_consistent(*old(state), *old(snap)),
        old(state).status matches BotStatus::Idle,
    ensures
        observation_consistent(*final(state), *final(snap)),
        final(state).status == BotStatus::OrderPlaced,
        final(state).status_atomic == 1,
        final(state).active_order == Some(order),
        final(state).position == old(state).position,
        final(state).last_cancellation_time_ms == old(state).last_cancellation_time_ms,
        final(snap).snapshot() == Some(snapshot_of(order)),
        forall|k: FillKey| !final(fills).contains_key(k),
{
    fills.clear();
    snap.set(Some(crate::monitor::OrderSnapshot {
        side: order.side,
        price: order.price,
        size: order.size,
        initial_profit_ppm: order.initial_profit_ppm,
        placed_at_ms: order.placed_at_ms,
    }));
    state.set_active_order(order);
}

} // verus!
