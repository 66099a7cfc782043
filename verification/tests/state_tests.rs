//! Tests of the lifecycle state machine, its atomic mirror, and the
//! grace-period rule.

use xemm_core::side::OrderSide;
use xemm_core::state::{ActiveOrder, AtomicBotStatus, BotState, BotStatus};
use xemm_core::state::sync_atomic_status;

fn sample_order() -> ActiveOrder {
    ActiveOrder {
        client_order_id: 42,
        symbol: String::from("SOL"),
        side: OrderSide::Buy,
        price: 99_860_000,
        size: 1_001_401,
        initial_profit_ppm: 1051,
        placed_at_ms: 1_000,
    }
}

#[test]
fn test_new_state_is_idle() {
    let state = BotState::new();
    assert!(state.is_idle());
    assert!(state.is_idle_fast());
    assert!(!state.has_active_order_fast());
    assert!(!state.is_terminal());
    assert_eq!(state.get_status_atomic(), 0);
    assert_eq!(state.position, 0);
    assert!(state.active_order.is_none());
}

#[test]
fn test_full_lifecycle_transitions() {
    let mut state = BotState::new();

    state.set_active_order(sample_order());
    assert_eq!(state.status, BotStatus::OrderPlaced);
    assert_eq!(state.get_status_atomic(), 1);
    assert!(state.has_active_order_fast());
    assert!(!state.is_idle());

    state.mark_filled(1_001_401, OrderSide::Buy);
    assert_eq!(state.status, BotStatus::Filled);
    assert_eq!(state.get_status_atomic(), 2);
    assert_eq!(state.position, 1_001_401);

    state.mark_hedging();
    assert_eq!(state.status, BotStatus::Hedging);
    assert_eq!(state.get_status_atomic(), 3);

    state.mark_complete();
    assert_eq!(state.status, BotStatus::Complete);
    assert_eq!(state.get_status_atomic(), 4);
    assert!(state.active_order.is_none());
    assert!(state.is_terminal());
}

#[test]
fn test_sell_fill_moves_position_short() {
    let mut state = BotState::new();
    state.set_active_order(ActiveOrder { side: OrderSide::Sell, ..sample_order() });
    state.mark_filled(500_000, OrderSide::Sell);
    assert_eq!(state.position, -500_000);
}

#[test]
fn test_cancel_returns_to_idle_and_stamps_time() {
    let mut state = BotState::new();
    state.set_active_order(sample_order());
    state.clear_active_order(5_000);
    assert!(state.is_idle());
    assert_eq!(state.get_status_atomic(), 0);
    assert!(state.active_order.is_none());
    assert_eq!(state.last_cancellation_time_ms, Some(5_000));
}

#[test]
fn test_error_status_and_atomic_codes() {
    let mut state = BotState::new();
    state.set_error(String::from("hedge timed out"));
    assert_eq!(state.status, BotStatus::Error(String::from("hedge timed out")));
    // The state's own byte gives the error its own code...
    assert_eq!(state.get_status_atomic(), 5);
    assert!(state.is_terminal());

    // ...while the monitoring encoding collapses an error to idle: the
    // monitor has nothing to watch during reconciliation.
    let mut cell: u8 = 9;
    sync_atomic_status(&mut cell, &state.status);
    assert_eq!(cell, 0);
    assert_eq!(AtomicBotStatus::from_status(&state.status), AtomicBotStatus::Idle);
    assert_eq!(AtomicBotStatus::from_status(&BotStatus::OrderPlaced).code(), 1);
    assert_eq!(AtomicBotStatus::from_status(&BotStatus::Filled).code(), 2);
    assert_eq!(AtomicBotStatus::from_status(&BotStatus::Hedging).code(), 3);
    assert_eq!(AtomicBotStatus::from_status(&BotStatus::Complete).code(), 4);
    assert_eq!(AtomicBotStatus::from_status(&BotStatus::Idle).code(), 0);
}

#[test]
fn test_grace_period_elapsed() {
    let mut state = BotState::new();
    // No cancel on record: always elapsed.
    assert!(state.grace_period_elapsed(10, 0));

    state.set_active_order(sample_order());
    state.clear_active_order(5_000);
    // 9.999 whole seconds since the cancel: not yet elapsed.
    assert!(!state.grace_period_elapsed(10, 14_999));
    // 10 whole seconds: elapsed.
    assert!(state.grace_period_elapsed(10, 15_000));
}

#[test]
fn test_default_matches_new() {
    let d = BotState::default();
    assert!(d.is_idle());
    assert_eq!(d.position, 0);
    assert!(d.active_order.is_none());
    assert!(d.last_cancellation_time_ms.is_none());
}
