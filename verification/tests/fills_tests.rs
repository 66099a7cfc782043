//! Tests of fill classification, the processed-fill set, and the three
//! detection channels with their shared deduplication discipline.

use xemm_core::fills::{
    is_full_fill, position_delta_step, ws_detect_fill, FillKey, FillPhase, FillSource,
    OpenOrderView, ProcessedFills, RestFillDetector,
};
use xemm_core::monitor::SharedOrderSnapshot;
use xemm_core::placement::apply_placement_success;
use xemm_core::side::OrderSide;
use xemm_core::state::{ActiveOrder, BotState, BotStatus};

fn placed_bot(coid: u64, side: OrderSide) -> (BotState, SharedOrderSnapshot, ProcessedFills) {
    let mut state = BotState::new();
    let mut snap = SharedOrderSnapshot::new();
    let mut fills = ProcessedFills::new();
    let order = ActiveOrder {
        client_order_id: coid,
        symbol: String::from("SOL"),
        side,
        price: 99_860_000,
        size: 1_001_401,
        initial_profit_ppm: 1051,
        placed_at_ms: 0,
    };
    apply_placement_success(&mut state, &mut snap, &mut fills, order);
    (state, snap, fills)
}

#[test]
fn test_full_fill_tolerance_boundary() {
    // Full exactly when |filled - initial| < 0.0001 base units, i.e.
    // 100 millionths.
    assert!(is_full_fill(1_000_000, 1_000_000));
    assert!(is_full_fill(1_000_000, 1_000_099));
    assert!(is_full_fill(1_000_099, 1_000_000));
    assert!(!is_full_fill(1_000_000, 1_000_100));
    assert!(!is_full_fill(1_000_100, 1_000_000));
    assert!(!is_full_fill(500_000, 1_000_000));
}

#[test]
fn test_processed_fills_set() {
    let mut fills = ProcessedFills::new();
    let k1 = FillKey { phase: FillPhase::Full, client_order_id: 7, source: FillSource::Ws };
    let k2 = FillKey { phase: FillPhase::Partial, client_order_id: 7, source: FillSource::Ws };
    assert!(!fills.contains(&k1));
    fills.insert(k1);
    assert!(fills.contains(&k1));
    assert!(!fills.contains(&k2));
    // Re-inserting changes nothing.
    fills.insert(k1);
    assert!(fills.contains(&k1));
    fills.clear();
    assert!(!fills.contains(&k1));
}

#[test]
fn test_ws_full_fill_emits_once() {
    // The primary channel sees a full fill: exactly one hedge event, the
    // state moves to Filled, the position takes the maker side.
    let (mut state, mut snap, mut fills) = placed_bot(42, OrderSide::Buy);

    let ev = ws_detect_fill(&mut state, &mut snap, &mut fills, 42, 1_001_401, 1_001_401,
        99_860_000, 1_000)
        .expect("hedge event expected");
    assert_eq!(ev.side, OrderSide::Buy);
    assert_eq!(ev.size, 1_001_401);
    assert_eq!(ev.reference_price, 99_860_000);
    assert_eq!(ev.detected_at_ms, 1_000);
    assert_eq!(state.status, BotStatus::Filled);
    assert_eq!(state.get_status_atomic(), 2);
    assert_eq!(state.position, 1_001_401);
    assert!(snap.get().is_none());
    assert!(fills.contains(&FillKey {
        phase: FillPhase::Full,
        client_order_id: 42,
        source: FillSource::Ws,
    }));

    // The same trade delivered again: dropped.
    let again = ws_detect_fill(&mut state, &mut snap, &mut fills, 42, 1_001_401, 1_001_401,
        99_860_000, 1_050);
    assert!(again.is_none());
    assert_eq!(state.position, 1_001_401);
}

#[test]
fn test_ws_unknown_order_dropped() {
    // A fill for an unknown client order id is a logical inconsistency:
    // dropped, nothing changes.
    let (mut state, mut snap, mut fills) = placed_bot(42, OrderSide::Buy);
    let ev = ws_detect_fill(&mut state, &mut snap, &mut fills, 99, 1_001_401, 1_001_401,
        99_860_000, 1_000);
    assert!(ev.is_none());
    assert_eq!(state.status, BotStatus::OrderPlaced);
    assert!(snap.get().is_some());
}

#[test]
fn test_ws_dedup_set_blocks_replay_after_requote() {
    // The set itself blocks a replayed fill key even once the status byte
    // reads OrderPlaced again, as long as the set was not cleared.
    let (mut state, mut snap, mut fills) = placed_bot(42, OrderSide::Buy);
    ws_detect_fill(&mut state, &mut snap, &mut fills, 42, 1_001_401, 1_001_401, 99_860_000, 1_000)
        .expect("hedge event expected");

    // Hand-restore OrderPlaced without clearing the set (placement would
    // clear it and assign a fresh id).
    let order = state.active_order.clone().expect("order still recorded");
    state.set_active_order(order);
    snap.set(Some(xemm_core::monitor::OrderSnapshot {
        side: OrderSide::Buy,
        price: 99_860_000,
        size: 1_001_401,
        initial_profit_ppm: 1051,
        placed_at_ms: 0,
    }));

    let replay = ws_detect_fill(&mut state, &mut snap, &mut fills, 42, 1_001_401, 1_001_401,
        99_860_000, 2_000);
    assert!(replay.is_none());
    assert_eq!(state.status, BotStatus::OrderPlaced);
}

#[test]
fn test_ws_then_rest_single_event() {
    // The scenario the backup channel exists for, with the websocket
    // alive: the stream reports a full fill for order 7; 200 ms later the
    // poll still sees the same filled order.  Exactly one hedge event is
    // produced, and the set holds only the websocket's key.
    let (mut state, mut snap, mut fills) = placed_bot(7, OrderSide::Buy);

    let first = ws_detect_fill(&mut state, &mut snap, &mut fills, 7, 1_001_401, 1_001_401,
        99_860_000, 10_000);
    assert!(first.is_some());

    let mut rest = RestFillDetector::new();
    let listed = Some(OpenOrderView {
        client_order_id: 7,
        filled_amount: 1_001_401,
        initial_amount: 1_001_401,
        price: 99_860_000,
    });
    let second = rest.poll_step(&mut state, &mut snap, &mut fills, listed, 10_000_000, 10_200);
    assert!(second.is_none());

    assert!(fills.contains(&FillKey {
        phase: FillPhase::Full,
        client_order_id: 7,
        source: FillSource::Ws,
    }));
    assert!(!fills.contains(&FillKey {
        phase: FillPhase::Full,
        client_order_id: 7,
        source: FillSource::Rest,
    }));
}

#[test]
fn test_rest_detects_fill_alone() {
    // With the websocket silent, the poll is the only channel: it
    // detects the full fill and hedges it.
    let (mut state, mut snap, mut fills) = placed_bot(7, OrderSide::Buy);
    let mut rest = RestFillDetector::new();
    let listed = Some(OpenOrderView {
        client_order_id: 7,
        filled_amount: 1_001_401,
        initial_amount: 1_001_401,
        price: 99_860_000,
    });
    let ev = rest.poll_step(&mut state, &mut snap, &mut fills, listed, 10_000_000, 500)
        .expect("hedge event expected");
    assert_eq!(ev.side, OrderSide::Buy);
    assert_eq!(ev.size, 1_001_401);
    assert_eq!(rest.last_known_amount(), 1_001_401);
    assert_eq!(state.status, BotStatus::Filled);

    // The next poll sees no new quantity: nothing more.
    let again = rest.poll_step(&mut state, &mut snap, &mut fills, listed, 10_000_000, 1_000);
    assert!(again.is_none());
}

#[test]
fn test_rest_small_partial_below_notional_ignored() {
    // A partial fill whose new notional stays at or below the minimum is
    // left for later polls; the remembered amount still advances.
    let (mut state, mut snap, mut fills) = placed_bot(7, OrderSide::Buy);
    let mut rest = RestFillDetector::new();
    // 0.05 base units at ~99.86 USD: about 5 USD of notional, minimum 10.
    let listed = Some(OpenOrderView {
        client_order_id: 7,
        filled_amount: 50_000,
        initial_amount: 1_001_401,
        price: 99_860_000,
    });
    let ev = rest.poll_step(&mut state, &mut snap, &mut fills, listed, 10_000_000, 500);
    assert!(ev.is_none());
    assert_eq!(rest.last_known_amount(), 50_000);
    assert_eq!(state.status, BotStatus::OrderPlaced);
}

#[test]
fn test_rest_resets_when_order_leaves_list() {
    let (mut state, mut snap, mut fills) = placed_bot(7, OrderSide::Buy);
    let mut rest = RestFillDetector::new();
    let listed = Some(OpenOrderView {
        client_order_id: 7,
        filled_amount: 50_000,
        initial_amount: 1_001_401,
        price: 99_860_000,
    });
    rest.poll_step(&mut state, &mut snap, &mut fills, listed, 10_000_000, 500);
    assert_eq!(rest.last_known_amount(), 50_000);
    // The order left the open list: the remembered amount resets.
    let ev = rest.poll_step(&mut state, &mut snap, &mut fills, None, 10_000_000, 1_000);
    assert!(ev.is_none());
    assert_eq!(rest.last_known_amount(), 0);
}

#[test]
fn test_position_delta_detects_unexplained_fill() {
    // The tertiary channel: the venue reports a long position the state
    // cannot explain; a synthetic full-fill event is emitted.
    let (mut state, mut snap, mut fills) = placed_bot(7, OrderSide::Buy);
    let ev = position_delta_step(&mut state, &mut snap, &mut fills, 1_001_401, 99_860_000, 2_000)
        .expect("hedge event expected");
    assert_eq!(ev.side, OrderSide::Buy);
    assert_eq!(ev.size, 1_001_401);
    assert_eq!(state.status, BotStatus::Filled);
    assert_eq!(state.position, 1_001_401);
    assert!(fills.contains(&FillKey {
        phase: FillPhase::Full,
        client_order_id: 7,
        source: FillSource::PositionDelta,
    }));

    // The venue and the state agree now: nothing further.
    let again = position_delta_step(&mut state, &mut snap, &mut fills, 1_001_401, 99_860_000,
        3_000);
    assert!(again.is_none());
}

#[test]
fn test_ws_partial_fill_uses_partial_key() {
    // Half the order fills: the event carries the partial amount and the
    // dedup key records the partial phase.
    let (mut state, mut snap, mut fills) = placed_bot(8, OrderSide::Sell);
    let ev = ws_detect_fill(&mut state, &mut snap, &mut fills, 8, 500_000, 1_001_401,
        99_860_000, 700)
        .expect("hedge event expected");
    assert_eq!(ev.side, OrderSide::Sell);
    assert_eq!(ev.size, 500_000);
    assert_eq!(state.position, -500_000);
    assert!(fills.contains(&FillKey {
        phase: FillPhase::Partial,
        client_order_id: 8,
        source: FillSource::Ws,
    }));
    assert!(!fills.contains(&FillKey {
        phase: FillPhase::Full,
        client_order_id: 8,
        source: FillSource::Ws,
    }));
}

#[test]
fn test_rest_partial_fill_above_notional_emits() {
    // A partial fill worth more than the minimum hedge notional is acted
    // on at once, under the partial-phase key.
    let (mut state, mut snap, mut fills) = placed_bot(9, OrderSide::Buy);
    let mut rest = RestFillDetector::new();
    // 0.5 base units at ~99.86 USD: about 50 USD of new notional.
    let listed = Some(OpenOrderView {
        client_order_id: 9,
        filled_amount: 500_000,
        initial_amount: 1_001_401,
        price: 99_860_000,
    });
    let ev = rest.poll_step(&mut state, &mut snap, &mut fills, listed, 10_000_000, 900)
        .expect("hedge event expected");
    assert_eq!(ev.size, 500_000);
    assert!(fills.contains(&FillKey {
        phase: FillPhase::Partial,
        client_order_id: 9,
        source: FillSource::Rest,
    }));
}

#[test]
fn test_position_delta_without_order_dropped() {
    let mut state = BotState::new();
    let mut snap = SharedOrderSnapshot::new();
    let mut fills = ProcessedFills::new();
    let ev = position_delta_step(&mut state, &mut snap, &mut fills, 500_000, 99_860_000, 2_000);
    assert!(ev.is_none());
    assert_eq!(state.position, 0);
}
