//! Tests of the hot-path monitor decision, the cancel pre-check, and the
//! profit observation.

use xemm_core::evaluator::OpportunityEvaluator;
use xemm_core::monitor::{
    apply_cancel_success, cancel_precheck, classify_fill_check, monitor_tick,
    profit_observation, update_order_snapshot, CancelDecision, CancelRequest, FillCheckResult,
    OrderSnapshot, SharedOrderSnapshot,
};
use xemm_core::side::OrderSide;
use xemm_core::state::{ActiveOrder, BotState, BotStatus};

// A fee-free evaluator targeting 10 bps, so the recomputed profit of a
// buy at price p against bid b is exactly (b - p) * 1e6 / p.
fn flat_evaluator() -> OpportunityEvaluator {
    OpportunityEvaluator::new(0, 0, 1000, 10_000)
}

fn buy_snapshot(initial_profit_ppm: i128) -> OrderSnapshot {
    OrderSnapshot {
        side: OrderSide::Buy,
        price: 100_000_000,
        size: 1_000_000,
        initial_profit_ppm,
        placed_at_ms: 0,
    }
}

#[test]
fn test_monitor_idle_status_no_action() {
    let ev = flat_evaluator();
    let r = monitor_tick(&ev, 0, Some(buy_snapshot(800)), 100_040_000, 100_050_000, 500, 10, 300,
        String::from("SOL"));
    assert!(r.is_none());
}

#[test]
fn test_monitor_missing_snapshot_no_action() {
    let ev = flat_evaluator();
    let r = monitor_tick(&ev, 1, None, 100_040_000, 100_050_000, 500, 10, 300,
        String::from("SOL"));
    assert!(r.is_none());
}

#[test]
fn test_monitor_zero_prices_no_action() {
    // An unpopulated hedge price cell suppresses monitoring decisions.
    let ev = flat_evaluator();
    let snap = Some(buy_snapshot(800));
    let r = monitor_tick(&ev, 1, snap, 0, 100_050_000, 500, 10, 300, String::from("SOL"));
    assert!(r.is_none());
    let r = monitor_tick(&ev, 1, snap, 100_040_000, 0, 500, 10, 300, String::from("SOL"));
    assert!(r.is_none());
}

#[test]
fn test_monitor_age_expiry_boundary() {
    // Refresh interval 10 s, order placed at t = 0, prices that leave the
    // profit at its captured value: the first age cancel comes strictly
    // after 10 s and none before.
    let ev = flat_evaluator();
    // Recomputed profit: (100.04 - 100) / 100 = 400 ppm; captured 400.
    let snap = Some(buy_snapshot(400));
    let r = monitor_tick(&ev, 1, snap, 100_040_000, 100_050_000, 9_999, 10, 300,
        String::from("SOL"));
    assert!(r.is_none());
    let r = monitor_tick(&ev, 1, snap, 100_040_000, 100_050_000, 10_000, 10, 300,
        String::from("SOL"));
    assert!(r.is_none());
    let r = monitor_tick(&ev, 1, snap, 100_040_000, 100_050_000, 10_001, 10, 300,
        String::from("SOL"));
    match r {
        Some(CancelRequest::AgeExpiry { symbol, age_ms }) => {
            assert_eq!(symbol, "SOL");
            assert_eq!(age_ms, 10_001);
        }
        other => panic!("expected an age-expiry cancel, got {:?}", other),
    }
}

#[test]
fn test_monitor_profit_deviation() {
    // Captured profit 8 bps (800 ppm), threshold 3 bps (300 ppm); the
    // hedge bid moves so the recomputed profit is 4 bps (400 ppm):
    // deviation 400 > 300, so every tick requests a profit cancel until
    // the status byte leaves OrderPlaced.
    let ev = flat_evaluator();
    let snap = Some(buy_snapshot(800));
    for _ in 0..2 {
        let r = monitor_tick(&ev, 1, snap, 100_040_000, 100_050_000, 500, 10, 300,
            String::from("SOL"));
        match r {
            Some(CancelRequest::ProfitDeviation { symbol, current_profit_ppm, deviation_ppm }) => {
                assert_eq!(symbol, "SOL");
                assert_eq!(current_profit_ppm, 400);
                assert_eq!(deviation_ppm, 400);
            }
            other => panic!("expected a profit-deviation cancel, got {:?}", other),
        }
    }
    // The order filled: the byte reads 2, the monitor goes quiet.
    let r = monitor_tick(&ev, 2, snap, 100_040_000, 100_050_000, 500, 10, 300,
        String::from("SOL"));
    assert!(r.is_none());
}

#[test]
fn test_monitor_within_threshold_no_action() {
    let ev = flat_evaluator();
    // Deviation |800 - 600| = 200 <= 300: no cancel.
    let snap = Some(buy_snapshot(800));
    let r = monitor_tick(&ev, 1, snap, 100_060_000, 100_070_000, 500, 10, 300,
        String::from("SOL"));
    assert!(r.is_none());
}

#[test]
fn test_classify_fill_check() {
    assert!(matches!(classify_fill_check(Ok(Some(7))), FillCheckResult::HasFills(7)));
    assert!(matches!(classify_fill_check(Ok(Some(0))), FillCheckResult::NoFills));
    assert!(matches!(classify_fill_check(Ok(None)), FillCheckResult::NotFound));
    assert!(matches!(
        classify_fill_check(Err(String::from("timeout"))),
        FillCheckResult::CheckFailed(_)
    ));
}

#[test]
fn test_cancel_precheck_aborts_on_fills() {
    // A positive filled amount always aborts the cancel: the fill path
    // will handle the order.
    let r = cancel_precheck(false, 1, &FillCheckResult::HasFills(1));
    assert_eq!(r, CancelDecision::AbortHasFills);
    // Even the smallest fill aborts.
    let r = cancel_precheck(false, 1, &FillCheckResult::HasFills(u128::MAX));
    assert_eq!(r, CancelDecision::AbortHasFills);
}

#[test]
fn test_cancel_precheck_paths() {
    assert_eq!(cancel_precheck(true, 1, &FillCheckResult::NoFills), CancelDecision::SkipBackoff);
    assert_eq!(
        cancel_precheck(false, 0, &FillCheckResult::NoFills),
        CancelDecision::SkipStatusChanged
    );
    assert_eq!(
        cancel_precheck(false, 2, &FillCheckResult::NoFills),
        CancelDecision::SkipStatusChanged
    );
    assert_eq!(cancel_precheck(false, 1, &FillCheckResult::NotFound), CancelDecision::DropNotFound);
    assert_eq!(cancel_precheck(false, 1, &FillCheckResult::NoFills), CancelDecision::Proceed);
    // A failed pre-check proceeds: cancelling beats leaving a stale quote.
    assert_eq!(
        cancel_precheck(false, 1, &FillCheckResult::CheckFailed(String::from("io"))),
        CancelDecision::Proceed
    );
}

#[test]
fn test_apply_cancel_success_clears_only_when_placed() {
    let mut state = BotState::new();
    let mut snap = SharedOrderSnapshot::new();
    let order = ActiveOrder {
        client_order_id: 1,
        symbol: String::from("SOL"),
        side: OrderSide::Buy,
        price: 100_000_000,
        size: 1_000_000,
        initial_profit_ppm: 800,
        placed_at_ms: 0,
    };
    snap.set(Some(OrderSnapshot {
        side: order.side,
        price: order.price,
        size: order.size,
        initial_profit_ppm: order.initial_profit_ppm,
        placed_at_ms: order.placed_at_ms,
    }));
    state.set_active_order(order);

    apply_cancel_success(&mut state, &mut snap, 3_000);
    assert_eq!(state.status, BotStatus::Idle);
    assert_eq!(state.last_cancellation_time_ms, Some(3_000));
    assert!(snap.get().is_none());

    // Already idle: a second confirmation changes nothing.
    apply_cancel_success(&mut state, &mut snap, 9_000);
    assert_eq!(state.last_cancellation_time_ms, Some(3_000));
}

#[test]
fn test_snapshot_tracks_placement() {
    // What the lock-free readers rely on: while the byte reads
    // OrderPlaced, the snapshot is present and projects the order.
    let mut snap = SharedOrderSnapshot::new();
    assert!(snap.get().is_none());
    update_order_snapshot(&mut snap, OrderSide::Sell, 100_140_000, 998_601, 1049, 2_000);
    let s = snap.get().expect("snapshot expected");
    assert_eq!(s.side, OrderSide::Sell);
    assert_eq!(s.price, 100_140_000);
    assert_eq!(s.size, 998_601);
    assert_eq!(s.initial_profit_ppm, 1049);
    assert_eq!(s.placed_at_ms, 2_000);
}

#[test]
fn test_profit_observation_fields() {
    let ev = flat_evaluator();
    let snap = Some(buy_snapshot(800));
    let report = profit_observation(&ev, 1, snap, 100_040_000, 100_050_000, 1_500)
        .expect("report expected");
    assert_eq!(report.current_profit_ppm, 400);
    assert_eq!(report.initial_profit_ppm, 800);
    assert_eq!(report.profit_change_ppm, -400);
    assert_eq!(report.pacifica_price, 100_000_000);
    assert_eq!(report.hedge_price, 100_040_000);
    assert_eq!(report.age_ms, 1_500);

    // Quiet when nothing rests or a price cell is empty.
    assert!(profit_observation(&ev, 0, snap, 100_040_000, 100_050_000, 1_500).is_none());
    assert!(profit_observation(&ev, 1, None, 100_040_000, 100_050_000, 1_500).is_none());
    assert!(profit_observation(&ev, 1, snap, 0, 100_050_000, 1_500).is_none());
}
