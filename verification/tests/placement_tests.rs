//! Tests of the placement gate and the state update on a confirmed
//! placement.

use xemm_core::evaluator::Opportunity;
use xemm_core::fills::{FillKey, FillPhase, FillSource, ProcessedFills};
use xemm_core::monitor::SharedOrderSnapshot;
use xemm_core::placement::{apply_placement_success, placement_allowed, OrderPlacementRequest};
use xemm_core::side::OrderSide;
use xemm_core::state::{ActiveOrder, BotState, BotStatus};

fn sample_order(coid: u64) -> ActiveOrder {
    ActiveOrder {
        client_order_id: coid,
        symbol: String::from("SOL"),
        side: OrderSide::Buy,
        price: 99_860_000,
        size: 1_001_401,
        initial_profit_ppm: 1051,
        placed_at_ms: 4_000,
    }
}

#[test]
fn test_placement_allowed_when_idle_and_no_cancel() {
    let state = BotState::new();
    assert!(placement_allowed(&state, 10, 0));
}

#[test]
fn test_placement_refused_within_grace_period() {
    // A cancel at t = 5 s with a 10 s grace period refuses placement
    // until t = 15 s, even though the bot is idle.
    let mut state = BotState::new();
    state.set_active_order(sample_order(1));
    state.clear_active_order(5_000);
    assert!(state.is_idle());
    assert!(!placement_allowed(&state, 10, 5_000));
    assert!(!placement_allowed(&state, 10, 14_999));
    assert!(placement_allowed(&state, 10, 15_000));
}

#[test]
fn test_placement_refused_when_not_idle() {
    let mut state = BotState::new();
    state.set_active_order(sample_order(1));
    assert!(!placement_allowed(&state, 0, 100_000));
}

#[test]
fn test_apply_placement_installs_everything() {
    let mut state = BotState::new();
    let mut snap = SharedOrderSnapshot::new();
    let mut fills = ProcessedFills::new();
    // A leftover key from the previous quote's lifetime.
    fills.insert(FillKey { phase: FillPhase::Full, client_order_id: 9, source: FillSource::Ws });

    apply_placement_success(&mut state, &mut snap, &mut fills, sample_order(2));

    assert_eq!(state.status, BotStatus::OrderPlaced);
    assert_eq!(state.get_status_atomic(), 1);
    let o = state.active_order.as_ref().expect("order expected");
    assert_eq!(o.client_order_id, 2);

    // The snapshot projects the order for the monitor.
    let s = snap.get().expect("snapshot expected");
    assert_eq!(s.side, OrderSide::Buy);
    assert_eq!(s.price, 99_860_000);
    assert_eq!(s.size, 1_001_401);
    assert_eq!(s.initial_profit_ppm, 1051);
    assert_eq!(s.placed_at_ms, 4_000);

    // The processed-fill set starts the new lifetime empty.
    assert!(!fills.contains(&FillKey {
        phase: FillPhase::Full,
        client_order_id: 9,
        source: FillSource::Ws,
    }));
}

#[test]
fn test_placement_request_carries_hints() {
    let opportunity = Opportunity {
        direction: OrderSide::Buy,
        pacifica_price: 99_860_000,
        hyperliquid_price: 100_000_000,
        size: 1_001_401,
        initial_profit_ppm: 1051,
        timestamp: 0,
    };
    let req = OrderPlacementRequest { opportunity, pac_bid: 99_850_000, pac_ask: 99_870_000 };
    assert_eq!(req.opportunity.pacifica_price, 99_860_000);
    assert_eq!(req.pac_bid, 99_850_000);
    assert_eq!(req.pac_ask, 99_870_000);
}
