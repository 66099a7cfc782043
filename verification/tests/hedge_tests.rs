//! Tests of hedge execution, failure, and reconciliation.

use xemm_core::fills::{ws_detect_fill, HedgeEvent, ProcessedFills};
use xemm_core::hedge::{
    begin_hedge, confirm_hedge, fail_hedge, finish_cycle, force_idle, hedge_order_params,
    record_reconciliation_hedge, reconcile_decision, ReconcileAction,
};
use xemm_core::monitor::SharedOrderSnapshot;
use xemm_core::placement::{apply_placement_success, placement_allowed};
use xemm_core::side::OrderSide;
use xemm_core::state::{ActiveOrder, BotState, BotStatus};

fn filled_bot(side: OrderSide, size: u128) -> (BotState, SharedOrderSnapshot, ProcessedFills) {
    let mut state = BotState::new();
    let mut snap = SharedOrderSnapshot::new();
    let mut fills = ProcessedFills::new();
    let order = ActiveOrder {
        client_order_id: 11,
        symbol: String::from("SOL"),
        side,
        price: 99_860_000,
        size,
        initial_profit_ppm: 1051,
        placed_at_ms: 0,
    };
    apply_placement_success(&mut state, &mut snap, &mut fills, order);
    ws_detect_fill(&mut state, &mut snap, &mut fills, 11, size, size, 99_860_000, 1_000)
        .expect("fill expected");
    (state, snap, fills)
}

#[test]
fn test_hedge_order_params_inverts_side() {
    // A maker buy is hedged by a taker sell, floored at the reference
    // less 1% slippage; a maker sell by a taker buy, capped at plus 1%.
    let buy_fill = HedgeEvent {
        side: OrderSide::Buy,
        size: 1_001_401,
        reference_price: 100_000_000,
        detected_at_ms: 0,
    };
    let p = hedge_order_params(&buy_fill, 10_000);
    assert_eq!(p.side, OrderSide::Sell);
    assert_eq!(p.size, 1_001_401);
    assert_eq!(p.limit_price, 99_000_000);

    let sell_fill = HedgeEvent { side: OrderSide::Sell, ..buy_fill };
    let p = hedge_order_params(&sell_fill, 10_000);
    assert_eq!(p.side, OrderSide::Buy);
    assert_eq!(p.limit_price, 101_000_000);
}

#[test]
fn test_hedge_rounding_is_tighter() {
    // An awkward reference price: the sell floor rounds up, the buy cap
    // rounds down, both toward less slippage.  Reference 33.333333 USD,
    // slippage 150 ppm: the exact bounds are 33.32833300005 and
    // 33.33833299995 USD, so the floor lands one millionth above and the
    // cap one millionth below.
    let ev = HedgeEvent {
        side: OrderSide::Buy,
        size: 1,
        reference_price: 33_333_333,
        detected_at_ms: 0,
    };
    let p = hedge_order_params(&ev, 150);
    assert_eq!(p.limit_price, 33_328_334);
    let ev2 = HedgeEvent { side: OrderSide::Sell, ..ev };
    let p2 = hedge_order_params(&ev2, 150);
    assert_eq!(p2.limit_price, 33_338_332);
}

#[test]
fn test_hedge_happy_path_returns_to_idle() {
    let (mut state, snap, _fills) = filled_bot(OrderSide::Buy, 1_001_401);
    assert_eq!(state.position, 1_001_401);

    begin_hedge(&mut state, &snap);
    assert_eq!(state.status, BotStatus::Hedging);
    assert_eq!(state.get_status_atomic(), 3);

    // The hedge sell confirms: the position returns to flat.
    confirm_hedge(&mut state, &snap, OrderSide::Sell, 1_001_401);
    assert_eq!(state.status, BotStatus::Complete);
    assert_eq!(state.get_status_atomic(), 4);
    assert_eq!(state.position, 0);
    assert!(state.active_order.is_none());

    finish_cycle(&mut state, &snap);
    assert!(state.is_idle());
    assert_eq!(state.get_status_atomic(), 0);
}

#[test]
fn test_reconcile_decision() {
    assert_eq!(reconcile_decision(0), ReconcileAction::NoPosition);
    assert_eq!(
        reconcile_decision(750_000),
        ReconcileAction::PlaceHedge { side: OrderSide::Sell, size: 750_000 }
    );
    assert_eq!(
        reconcile_decision(-250_000),
        ReconcileAction::PlaceHedge { side: OrderSide::Buy, size: 250_000 }
    );
}

#[test]
fn test_hedge_failure_then_reconciliation() {
    // The hedge fails with a network error; the state goes to Error with
    // the position still long.  Reconciliation sells the residual,
    // forces Idle, and the next evaluation may quote again.
    let (mut state, snap, _fills) = filled_bot(OrderSide::Buy, 1_001_401);
    begin_hedge(&mut state, &snap);
    fail_hedge(&mut state, &snap, String::from("connection reset"));
    assert_eq!(state.status, BotStatus::Error(String::from("connection reset")));
    assert_eq!(state.get_status_atomic(), 5);
    assert_eq!(state.position, 1_001_401);

    match reconcile_decision(state.position) {
        ReconcileAction::PlaceHedge { side, size } => {
            assert_eq!(side, OrderSide::Sell);
            assert_eq!(size, 1_001_401);
            record_reconciliation_hedge(&mut state, &snap, side, size);
        }
        ReconcileAction::NoPosition => panic!("a residual position was expected"),
    }
    assert_eq!(state.position, 0);

    force_idle(&mut state, &snap);
    assert!(state.is_idle());
    assert_eq!(state.get_status_atomic(), 0);
    assert!(state.active_order.is_none());
    // No cancel was stamped along this path, so placement is allowed at
    // once.
    assert!(placement_allowed(&state, 10, 2_000));
}
