//! Hedge execution and error reconciliation.
//!
//! The hedge executor drains hedge events one at a time (the queue holds
//! at most one).  For each event it moves the state `Filled -> Hedging`,
//! places a market/IOC order on the hedge venue on the side opposite the
//! maker fill, bounded by the configured slippage against the event's
//! reference price, and on confirmation moves `Hedging -> Complete ->
//! Idle`, settling the position.  On failure the state goes to `Error`;
//! reconciliation then cancels open maker orders, hedges any residual
//! position, and forces the state back to `Idle`.

use vstd::prelude::*;
use vstd::arithmetic::div_mod::{
    lemma_div_is_ordered, lemma_div_pos_is_pos, lemma_fundamental_div_mod,
};
use vstd::arithmetic::mul::lemma_mul_upper_bound;
use crate::fills::HedgeEvent;
use crate::monitor::{observation_consistent, SharedOrderSnapshot};
use crate::side::OrderSide;
use crate::state::{BotState, BotStatus};
use crate::{MAX_PRICE_MICRO, RATE_ONE};

verus! {

/// The taker order to place on the hedge venue.
#[derive(Debug, Clone, Copy, PartialEq, Eq, Structural)]
pub struct HedgeOrderParams {
    /// Side to send: the opposite of the maker fill.
    pub side: OrderSide,
    /// Size to hedge, in millionths of a base unit.
    pub size: u128,
    /// Worst acceptable price: a floor when selling, a cap when buying,
    /// in millionths of a USD.
    pub limit_price: u64,
}

/// Lowest acceptable price for a hedge sell: the reference price less
/// the slippage allowance, rounded up (tighter).
pub open spec fn spec_hedge_sell_floor(reference: int, slippage_ppm: int) -> int {
    (reference * (RATE_ONE - slippage_ppm) + RATE_ONE - 1) / (RATE_ONE as int)
}

/// Highest acceptable price for a hedge buy: the reference price plus
/// the slippage allowance, rounded down (tighter).
pub open spec fn spec_hedge_buy_cap(reference: int, slippage_ppm: int) -> int {
    (reference * (RATE_ONE + slippage_ppm)) / (RATE_ONE as int)
}

/// Parameters of the hedge order for a detected fill: the opposite side,
/// the filled size, and the slippage bound against the event's reference
/// price.
pub fn hedge_order_params(event: &HedgeEvent, slippage_ppm: u64) -> (r: HedgeOrderParams)
    requires
        event.reference_price <= MAX_PRICE_MICRO,
        slippage_ppm <= RATE_ONE,
    ensures
        r.side == event.side.spec_opposite(),
        r.size == event.size,
        event.side matches OrderSide::Buy ==> r.limit_price == spec_hedge_sell_floor(
            event.reference_price as int,
            slippage_ppm as int,
        ),
        event.side matches OrderSide::Sell ==> r.limit_price == spec_hedge_buy_cap(
            event.reference_price as int,
            slippage_ppm as int,
        ),
{
    let side = event.side.opposite();
    let reference = event.reference_price as u128;
    let one = RATE_ONE as u128;
    let limit_price: u64 = match side {
        OrderSide::Sell => {
            proof {
                lemma_mul_upper_bound(
                    event.reference_price as int,
                    MAX_PRICE_MICRO as int,
                    (RATE_ONE - slippage_ppm) as int,
                    RATE_ONE as int,
                );
                let n = event.reference_price as int * (RATE_ONE - slippage_ppm) as int;
                lemma_div_pos_is_pos(n + RATE_ONE - 1, RATE_ONE as int);
                lemma_div_is_ordered(
                    n + RATE_ONE - 1,
                    MAX_PRICE_MICRO as int * RATE_ONE as int + RATE_ONE - 1,
                    RATE_ONE as int,
                );
                lemma_fundamental_div_mod(
                    MAX_PRICE_MICRO as int * RATE_ONE as int + RATE_ONE - 1,
                    RATE_ONE as int,
                );
                assert((MAX_PRICE_MICRO as int * RATE_ONE as int + RATE_ONE - 1)
                    / (RATE_ONE as int) == MAX_PRICE_MICRO) by {
                    vstd::arithmetic::div_mod::lemma_fundamental_div_mod_converse_div(
                        MAX_PRICE_MICRO as int * RATE_ONE as int + RATE_ONE - 1,
                        RATE_ONE as int,
                        MAX_PRICE_MICRO as int,
                        RATE_ONE as int - 1,
                    );
                }
            }
            let q: u128 = (reference * (one - slippage_ppm as u128) + one - 1) / one;
            q as u64
        }
        OrderSide::Buy => {
            proof {
                lemma_mul_upper_bound(
                    event.reference_price as int,
                    MAX_PRICE_MICRO as int,
                    (RATE_ONE + slippage_ppm) as int,
                    2 * RATE_ONE as int,
                );
                let n = event.reference_price as int * (RATE_ONE + slippage_ppm) as int;
                lemma_div_pos_is_pos(n, RATE_ONE as int);
                lemma_div_is_ordered(
                    n,
                    MAX_PRICE_MICRO as int * (2 * RATE_ONE as int),
                    RATE_ONE as int,
                );
                assert((MAX_PRICE_MICRO as int * (2 * RATE_ONE as int))
                    / (RATE_ONE as int) == 2 * MAX_PRICE_MICRO) by {
                    vstd::arithmetic::div_mod::lemma_fundamental_div_mod_converse_div(
                        MAX_PRICE_MICRO as int * (2 * RATE_ONE as int),
                        RATE_ONE as int,
                        2 * MAX_PRICE_MICRO as int,
                        0,
                    );
                }
            }
            let q: u128 = (reference * (one + slippage_ppm as u128)) / one;
            q as u64
        }
    };
    HedgeOrderParams { side, size: event.size, limit_price }
}

/// Move `Filled -> Hedging`: only the hedge executor drives it, before
/// the hedge order is sent.
pub fn begin_hedge(state: &mut BotState, snap: &SharedOrderSnapshot)
    requires
        observation_consistent(*old(state), *snap),
        old(state).status matches BotStatus::Filled,
    ensures
        observation_consistent(*final(state), *snap),
        final(state).status == BotStatus::Hedging,
        final(state).status_atomic == 3,
        final(state).active_order == old(state).active_order,
        final(state).position == old(state).position,
        final(state).last_cancellation_time_ms == old(state).last_cancellation_time_ms,
{
    state.mark_hedging();
}

/// Apply a confirmed hedge: the position moves by the hedged size on the
/// hedge side (the opposite of the fill, so the net returns toward
/// zero), the order is cleared, and the state reaches `Complete`.
pub fn confirm_hedge(
    state: &mut BotState,
    snap: &SharedOrderSnapshot,
    hedge_side: OrderSide,
    size: u128,
)
    requires
        observation_consistent(*old(state), *snap),
        old(state).status matches BotStatus::Hedging,
        size <= i128::MAX,
        hedge_side matches OrderSide::Buy ==> old(state).position + size <= i128::MAX,
        hedge_side matches OrderSide::Sell ==> old(state).position - size >= i128::MIN,
    ensures
        observation_consistent(*final(state), *snap),
        final(state).status == BotStatus::Complete,
        final(state).status_atomic == 4,
        final(state).active_order is None,
        final(state).position == (match hedge_side {
            OrderSide::Buy => old(state).position + size,
            OrderSide::Sell => old(state).position - size,
        }),
        final(state).last_cancellation_time_ms == old(state).last_cancellation_time_ms,
{
    match hedge_side {
        OrderSide::Buy => {
            state.position = state.position + (size as i128);
        }
        OrderSide::Sell => {
            state.position = state.position - (size as i128);
        }
    }
    state.mark_complete();
}

/// Leave the transient `Complete` state for `Idle`, ready for the next
/// evaluation cycle.
pub fn finish_cycle(state: &mut BotState, snap: &SharedOrderSnapshot)
    requires
        observation_consistent(*old(state), *snap),
        old(state).status matches BotStatus::Complete,
    ensures
        observation_consistent(*final(state), *snap),
        final(state).status == BotStatus::Idle,
        final(state).status_atomic == 0,
        final(state).active_order is None,
        final(state).position == old(state).position,
        final(state).last_cancellation_time_ms == old(state).last_cancellation_time_ms,
{
    state.status = BotStatus::Idle;
    state.status_atomic = 0;
}

/// Record a hedge failure: the state goes to `Error` with the message,
/// and stays there until reconciliation returns it to `Idle`.
pub fn fail_hedge(state: &mut BotState, snap: &SharedOrderSnapshot, message: String)
    requires
        observation_consistent(*old(state), *snap),
        old(state).status matches BotStatus::Filled || old(state).status matches BotStatus::Hedging,
    ensures
        observation_consistent(*final(state), *snap),
        final(state).status == BotStatus::Error(message),
        final(state).status_atomic == 5,
        final(state).active_order == old(state).active_order,
        final(state).position == old(state).position,
        final(state).last_cancellation_time_ms == old(state).last_cancellation_time_ms,
{
    state.set_error(message);
}

/// What reconciliation must do about the current net position.
#[derive(Debug, Clone, Copy, PartialEq, Eq, Structural)]
pub enum ReconcileAction {
    /// The position is flat: nothing to hedge.
    NoPosition,
    /// Hedge the residual: a market order of this side and size.
    PlaceHedge {
        /// Side that flattens the position: sell a long, buy back a short.
        side: OrderSide,
        /// Magnitude of the position, in millionths of a base unit.
        size: u128,
    },
}

/// Decide the reconciliation trade for a net position: sell a long
/// position, buy back a short one, do nothing when flat.
pub fn reconcile_decision(position: i128) -> (r: ReconcileAction)
    requires
        position > i128::MIN,
    ensures
        position == 0 ==> r == ReconcileAction::NoPosition,
        position > 0 ==> r == (ReconcileAction::PlaceHedge {
            side: OrderSide::Sell,
            size: position as u128,
        }),
        position < 0 ==> r == (ReconcileAction::PlaceHedge {
            side: OrderSide::Buy,
            size: (-position) as u128,
        }),
{
    if position == 0 {
        ReconcileAction::NoPosition
    } else if position > 0 {
        ReconcileAction::PlaceHedge { side: OrderSide::Sell, size: position as u128 }
    } else {
        ReconcileAction::PlaceHedge { side: OrderSide::Buy, size: (-position) as u128 }
    }
}

/// Record the reconciliation trade: the position moves by the traded
/// size while the state stays in `Error`.
pub fn record_reconciliation_hedge(
    state: &mut BotState,
    snap: &SharedOrderSnapshot,
    side: OrderSide,
    size: u128,
)
    requires
        observation_consistent(*old(state), *snap),
        old(state).status matches BotStatus::Error(_),
        size <= i128::MAX,
        side matches OrderSide::Buy ==> old(state).position + size <= i128::MAX,
        side matches OrderSide::Sell ==> old(state).position - size >= i128::MIN,
    ensures
        observation_consistent(*final(state), *snap),
        final(state).status == old(state).status,
        final(state).position == (match side {
            OrderSide::Buy => old(state).position + size,
            OrderSide::Sell => old(state).position - size,
        }),
        final(state).active_order == old(state).active_order,
        final(state).last_cancellation_time_ms == old(state).last_cancellation_time_ms,
{
    match side {
        OrderSide::Buy => {
            state.position = state.position + (size as i128);
        }
        OrderSide::Sell => {
            state.position = state.position - (size as i128);
        }
    }
}

/// Finish reconciliation: force the state back to `Idle`, clearing any
/// leftover order record, so the next evaluation cycle may quote again.
pub fn force_idle(state: &mut BotState, snap: &SharedOrderSnapshot)
    requires
        observation_consistent(*old(state), *snap),
        old(state).status matches BotStatus::Error(_),
    ensures
        observation_consistent(*final(state), *snap),
        final(state).status == BotStatus::Idle,
        final(state).status_atomic == 0,
        final(state).active_order is None,
        final(state).position == old(state).position,
        final(state).last_cancellation_time_ms == old(state).last_cancellation_time_ms,
{
    state.active_order = None;
    state.status = BotStatus::Idle;
    state.status_atomic = 0;
}

} // verus!
