//! Multi-channel fill detection with deduplication.
//!
//! Three independent detectors watch for fills of the resting maker order:
//! the venue's user-trade stream (primary), a poll of the open-order list
//! (backup), and a position-delta check (tertiary).  All three funnel into
//! one bounded hedge queue and share a processed-fill set keyed by fill
//! phase, client order id and source.  A detector emits a hedge event only
//! when the status byte still reads `OrderPlaced` and its key is not yet
//! in the set; the winner inserts its key and drives the transition to
//! `Filled` before the event is pushed, so the hedger may assume the
//! state is already `Filled` on receipt.
//!
//! The deduplication law is proved at the bottom over an abstract trace
//! of presented fills: however the detectors interleave, at most one
//! hedge event is ever emitted for a given key, and the first fill
//! presented while the order rests is emitted exactly once.

use vstd::prelude::*;
use crate::monitor::{observation_consistent, SharedOrderSnapshot};
use crate::side::OrderSide;
use crate::state::{BotState, BotStatus};
use crate::evaluator::spec_abs_diff;
use crate::{MAX_PRICE_MICRO, MAX_SIZE_MICRO, MAX_POSITION_ABS, RATE_ONE};

verus! {

/// Two amounts within this distance (in millionths of a base unit) count
/// as equal when classifying a fill as full.
pub const FULL_FILL_TOLERANCE_MICRO: u128 = 100;

/// Whether a fill filled the whole order.
#[derive(Debug, Clone, Copy, PartialEq, Eq, Structural)]
pub enum FillPhase {
    /// The filled amount reaches the initial amount, up to the tolerance.
    Full,
    /// Part of the order remains open.
    Partial,
}

/// Which detection channel saw the fill.
#[derive(Debug, Clone, Copy, PartialEq, Eq, Structural)]
pub enum FillSource {
    /// The user-trade stream.
    Ws,
    /// The open-order poll.
    Rest,
    /// The position-delta check.
    PositionDelta,
}

/// Deduplication key of one detected fill.
#[derive(Debug, Clone, Copy, PartialEq, Eq, Structural)]
pub struct FillKey {
    /// Full or partial fill.
    pub phase: FillPhase,
    /// Client order id of the filled order.
    pub client_order_id: u64,
    /// Channel that saw it.
    pub source: FillSource,
}

/// A detected fill bound for the hedge executor.  The side carried is the
/// side of the maker fill; the hedger inverts it.
#[derive(Debug, Clone, Copy, PartialEq, Eq, Structural)]
pub struct HedgeEvent {
    /// Side of the maker fill.
    pub side: OrderSide,
    /// Filled size, in millionths of a base unit.
    pub size: u128,
    /// Price to reference when bounding hedge slippage.
    pub reference_price: u64,
    /// When the fill was detected, in milliseconds.
    pub detected_at_ms: u64,
}

/// Full exactly when the filled amount is within the tolerance of the
/// initial amount.
pub open spec fn spec_fill_phase(filled: int, initial: int) -> FillPhase {
    if spec_abs_diff(filled, initial) < FULL_FILL_TOLERANCE_MICRO {
        FillPhase::Full
    } else {
        FillPhase::Partial
    }
}

/// The deduplication key a detector computes for a fill.
pub open spec fn spec_fill_key(
    client_order_id: u64,
    filled: int,
    initial: int,
    source: FillSource,
) -> FillKey {
    FillKey { phase: spec_fill_phase(filled, initial), client_order_id, source }
}

/// Whether a fill counts as full: the filled amount is within the
/// tolerance of the initial amount, in either direction.
pub fn is_full_fill(filled_amount: u128, initial_amount: u128) -> (r: bool)
    ensures
        r == (spec_abs_diff(filled_amount as int, initial_amount as int)
            < FULL_FILL_TOLERANCE_MICRO),
{
    if filled_amount >= initial_amount {
        filled_amount - initial_amount < FULL_FILL_TOLERANCE_MICRO
    } else {
        initial_amount - filled_amount < FULL_FILL_TOLERANCE_MICRO
    }
}

/// The shared processed-fill set.  Entries are never removed within a
/// quote's lifetime; placement of a new order clears the set.
#[derive(Debug)]
pub struct ProcessedFills {
    entries: Vec<FillKey>,
}

impl ProcessedFills {
    /// Whether a key has been recorded.
    pub closed spec fn contains_key(self, key: FillKey) -> bool {
        self.entries@.contains(key)
    }

    /// Empty set.
    pub fn new() -> (r: Self)
        ensures
            forall|k: FillKey| !r.contains_key(k),
    {
        let r = ProcessedFills { entries: Vec::new() };
        proof {
            assert forall|k: FillKey| !r.contains_key(k) by {
                assert(r.entries@.len() == 0);
            }
        }
        r
    }

    /// Whether the set holds this key.
    pub fn contains(&self, key: &FillKey) -> (r: bool)
        ensures
            r == self.contains_key(*key),
    {
        let mut i: usize = 0;
        while i < self.entries.len()
            invariant
                i <= self.entries.len(),
                forall|j: int| 0 <= j < i ==> self.entries@[j] != *key,
            decreases self.entries.len() - i,
        {
            if self.entries[i] == *key {
                return true;
            }
            i = i + 1;
        }
        false
    }

    /// Record a key; recording one already present changes nothing.
    pub fn insert(&mut self, key: FillKey)
        ensures
            forall|k: FillKey|
                final(self).contains_key(k) == (old(self).contains_key(k) || k == key),
    {
        if !self.contains(&key) {
            self.entries.push(key);
            proof {
                assert forall|k: FillKey|
                    self.contains_key(k) == (old(self).contains_key(k) || k == key) by {
                    if old(self).contains_key(k) || k == key {
                        if k == key {
                            assert(self.entries@[self.entries@.len() - 1] == k);
                        } else {
                            let j = choose|j: int|
                                0 <= j < old(self).entries@.len() && old(self).entries@[j] == k;
                            assert(self.entries@[j] == k);
                        }
                    } else {
                        if self.contains_key(k) {
                            let j = choose|j: int|
                                0 <= j < self.entries@.len() && self.entries@[j] == k;
                            assert(j < old(self).entries@.len() ==> old(self).entries@[j] == k);
                        }
                    }
                }
            }
        }
    }

    /// Forget every key: called when a new order is placed.
    pub fn clear(&mut self)
        ensures
            forall|k: FillKey| !final(self).contains_key(k),
    {
        self.entries = Vec::new();
        proof {
            assert forall|k: FillKey| !self.contains_key(k) by {
                assert(self.entries@.len() == 0);
            }
        }
    }
}

/// One step of the primary detector: a trade from the user-trade stream,
/// already matched by the caller to a client order id, filled amount,
/// initial amount and fill price.
///
/// Emits a hedge event exactly when the trade belongs to the active
/// order, the status byte still reads `OrderPlaced`, and the fill's key
/// is new; the emitting step records the key, moves the state to
/// `Filled` (shifting the position by the filled size on the maker
/// side), and clears the snapshot.  Any other trade changes nothing: a
/// fill for an unknown order is dropped, and the dedup set prevents
/// double action.
pub fn ws_detect_fill(
    state: &mut BotState,
    snap: &mut SharedOrderSnapshot,
    fills: &mut ProcessedFills,
    event_client_order_id: u64,
    filled_amount: u128,
    initial_amount: u128,
    fill_price: u64,
    now_ms: u64,
) -> (r: Option<HedgeEvent>)
    requires
        observation_consistent(*old(state), *old(snap)),
        filled_amount <= MAX_SIZE_MICRO,
        old(state).position + filled_amount <= i128::MAX,
        old(state).position - filled_amount >= i128::MIN,
    ensures
        observation_consistent(*final(state), *final(snap)),
        ({
            let key = spec_fill_key(
                event_client_order_id,
                filled_amount as int,
                initial_amount as int,
                FillSource::Ws,
            );
            let matching = match old(state).active_order {
                Some(o) => o.client_order_id == event_client_order_id,
                None => false,
            };
            let emits = matching && old(state).status_atomic == 1
                && !old(fills).contains_key(key);
            &&& (r is Some <==> emits)
            &&& if emits {
                let side = old(state).active_order.unwrap().side;
                &&& r == Some(HedgeEvent {
                    side,
                    size: filled_amount,
                    reference_price: fill_price,
                    detected_at_ms: now_ms,
                })
                &&& final(state).status == BotStatus::Filled
                &&& final(state).status_atomic == 2
                &&& final(state).active_order == old(state).active_order
                &&& final(state).position == (match side {
                    OrderSide::Buy => old(state).position + filled_amount,
                    OrderSide::Sell => old(state).position - filled_amount,
                })
                &&& final(snap).snapshot() is None
                &&& forall|k: FillKey|
                    final(fills).contains_key(k) == (old(fills).contains_key(k) || k == key)
            } else {
                &&& *final(state) == *old(state)
                &&& final(snap).snapshot() == old(snap).snapshot()
                &&& forall|k: FillKey|
                    final(fills).contains_key(k) == old(fills).contains_key(k)
            }
        }),
{
    if state.get_status_atomic() != 1 {
        return None;
    }
    let (side, active_coid): (OrderSide, u64) = match &state.active_order {
        Some(o) => (o.side, o.client_order_id),
        None => { return None; },
    };
    proof {
        crate::monitor::lemma_order_placed_observation(*state, *snap);
    }
    if active_coid != event_client_order_id {
        return None;
    }
    let phase = if is_full_fill(filled_amount, initial_amount) {
        FillPhase::Full
    } else {
        FillPhase::Partial
    };
    let key = FillKey { phase, client_order_id: event_client_order_id, source: FillSource::Ws };
    if fills.contains(&key) {
        return None;
    }
    fills.insert(key);
    state.mark_filled(filled_amount, side);
    snap.set(None);
    Some(HedgeEvent { side, size: filled_amount, reference_price: fill_price, detected_at_ms: now_ms })
}

/// What the open-order poll reports about the active order.
#[derive(Debug, Clone, Copy, PartialEq, Eq, Structural)]
pub struct OpenOrderView {
    /// Client order id of the listed order.
    pub client_order_id: u64,
    /// Amount filled so far, in millionths of a base unit.
    pub filled_amount: u128,
    /// Amount the order was placed with.
    pub initial_amount: u128,
    /// The order's limit price, in millionths of a USD.
    pub price: u64,
}

/// The backup detector: polls the open-order list for filled-quantity
/// deltas, remembering the last filled amount it saw across polls.
#[derive(Debug)]
pub struct RestFillDetector {
    last_known_filled_amount: u128,
}

impl RestFillDetector {
    /// The filled amount remembered from the previous poll.
    pub closed spec fn last_known(self) -> u128 {
        self.last_known_filled_amount
    }

    /// Fresh detector: nothing seen yet.
    pub fn new() -> (r: Self)
        ensures
            r.last_known() == 0,
    {
        RestFillDetector { last_known_filled_amount: 0 }
    }

    /// The filled amount remembered from the previous poll.
    pub fn last_known_amount(&self) -> (r: u128)
        ensures
            r == self.last_known(),
    {
        self.last_known_filled_amount
    }

    /// One poll of the backup detector.  `our_order` is the open-order
    /// entry whose client order id matches the active order, if listed.
    ///
    /// A listed order with a filled amount above the remembered one is a
    /// new fill; it is acted on when it is a full fill or the newly
    /// filled notional exceeds `min_hedge_notional_micro`.  Action then
    /// follows the shared discipline: emit only if the status byte still
    /// reads `OrderPlaced`, the entry matches the active order and the
    /// key is new; record the key, move to `Filled`, clear the snapshot.
    /// An order absent from the list resets the remembered amount to
    /// zero and emits nothing.
    pub fn poll_step(
        &mut self,
        state: &mut BotState,
        snap: &mut SharedOrderSnapshot,
        fills: &mut ProcessedFills,
        our_order: Option<OpenOrderView>,
        min_hedge_notional_micro: u64,
        now_ms: u64,
    ) -> (r: Option<HedgeEvent>)
        requires
            observation_consistent(*old(state), *old(snap)),
            our_order matches Some(o) ==> {
                &&& o.filled_amount <= MAX_SIZE_MICRO
                &&& o.initial_amount <= MAX_SIZE_MICRO
                &&& o.price <= MAX_PRICE_MICRO
            },
            min_hedge_notional_micro <= MAX_PRICE_MICRO,
            old(state).position + MAX_SIZE_MICRO <= i128::MAX,
            old(state).position - MAX_SIZE_MICRO >= i128::MIN,
        ensures
            observation_consistent(*final(state), *final(snap)),
            ({
                match our_order {
                    None => {
                        &&& r is None
                        &&& final(self).last_known() == 0
                        &&& *final(state) == *old(state)
                        &&& final(snap).snapshot() == old(snap).snapshot()
                        &&& forall|k: FillKey|
                            final(fills).contains_key(k) == old(fills).contains_key(k)
                    },
                    Some(o) => {
                        let new_fill = o.filled_amount > old(self).last_known()
                            && o.filled_amount > 0;
                        let new_amount = o.filled_amount - old(self).last_known();
                        let significant = spec_fill_phase(
                            o.filled_amount as int,
                            o.initial_amount as int,
                        ) == FillPhase::Full
                            || new_amount * o.price
                                > min_hedge_notional_micro * RATE_ONE;
                        let key = spec_fill_key(
                            o.client_order_id,
                            o.filled_amount as int,
                            o.initial_amount as int,
                            FillSource::Rest,
                        );
                        let matching = match old(state).active_order {
                            Some(a) => a.client_order_id == o.client_order_id,
                            None => false,
                        };
                        let emits = new_fill && significant && matching
                            && old(state).status_atomic == 1
                            && !old(fills).contains_key(key);
                        &&& final(self).last_known() == (if new_fill {
                            o.filled_amount
                        } else {
                            old(self).last_known()
                        })
                        &&& (r is Some <==> emits)
                        &&& if emits {
                            let side = old(state).active_order.unwrap().side;
                            &&& r == Some(HedgeEvent {
                                side,
                                size: o.filled_amount,
                                reference_price: o.price,
                                detected_at_ms: now_ms,
                            })
                            &&& final(state).status == BotStatus::Filled
                            &&& final(state).status_atomic == 2
                            &&& final(state).active_order == old(state).active_order
                            &&& final(state).position == (match side {
                                OrderSide::Buy => old(state).position + o.filled_amount,
                                OrderSide::Sell => old(state).position - o.filled_amount,
                            })
                            &&& final(snap).snapshot() is None
                            &&& forall|k: FillKey|
                                final(fills).contains_key(k)
                                    == (old(fills).contains_key(k) || k == key)
                        } else {
                            &&& *final(state) == *old(state)
                            &&& final(snap).snapshot() == old(snap).snapshot()
                            &&& forall|k: FillKey|
                                final(fills).contains_key(k) == old(fills).contains_key(k)
                        }
                    },
                }
            }),
    {
        let o = match our_order {
            Some(o) => o,
            None => {
                self.last_known_filled_amount = 0;
                return None;
            },
        };
        if !(o.filled_amount > self.last_known_filled_amount && o.filled_amount > 0) {
            return None;
        }
        let new_amount: u128 = o.filled_amount - self.last_known_filled_amount;
        self.last_known_filled_amount = o.filled_amount;
        let full = is_full_fill(o.filled_amount, o.initial_amount);
        proof {
            vstd::arithmetic::mul::lemma_mul_upper_bound(
                new_amount as int,
                MAX_SIZE_MICRO as int,
                o.price as int,
                MAX_PRICE_MICRO as int,
            );
            vstd::arithmetic::mul::lemma_mul_upper_bound(
                min_hedge_notional_micro as int,
                MAX_PRICE_MICRO as int,
                RATE_ONE as int,
                RATE_ONE as int,
            );
        }
        let notional_scaled: u128 = new_amount * (o.price as u128);
        let min_scaled: u128 = (min_hedge_notional_micro as u128) * (RATE_ONE as u128);
        if !(full || notional_scaled > min_scaled) {
            return None;
        }
        if state.get_status_atomic() != 1 {
            return None;
        }
        let (side, active_coid): (OrderSide, u64) = match &state.active_order {
            Some(a) => (a.side, a.client_order_id),
            None => { return None; },
        };
        if active_coid != o.client_order_id {
            return None;
        }
        let phase = if full {
            FillPhase::Full
        } else {
            FillPhase::Partial
        };
        let key = FillKey { phase, client_order_id: o.client_order_id, source: FillSource::Rest };
        if fills.contains(&key) {
            return None;
        }
        fills.insert(key);
        state.mark_filled(o.filled_amount, side);
        snap.set(None);
        Some(HedgeEvent {
            side,
            size: o.filled_amount,
            reference_price: o.price,
            detected_at_ms: now_ms,
        })
    }
}

/// One step of the tertiary detector: compare the venue-reported net
/// position with the position the state tracks from known fills.  An
/// unexplained delta while an order rests is treated as a fill of that
/// delta: a positive delta as a maker buy, a negative one as a maker
/// sell, full when the delta reaches the active order's size.  The same
/// discipline applies: emit only while the status byte reads
/// `OrderPlaced` and the key is new, record the key, move to `Filled`,
/// clear the snapshot.  A delta with no active order is dropped.
pub fn position_delta_step(
    state: &mut BotState,
    snap: &mut SharedOrderSnapshot,
    fills: &mut ProcessedFills,
    venue_position: i128,
    reference_price: u64,
    now_ms: u64,
) -> (r: Option<HedgeEvent>)
    requires
        observation_consistent(*old(state), *old(snap)),
        -MAX_POSITION_ABS <= venue_position <= MAX_POSITION_ABS,
        -MAX_POSITION_ABS <= old(state).position <= MAX_POSITION_ABS,
    ensures
        observation_consistent(*final(state), *final(snap)),
        ({
            let delta = venue_position - old(state).position;
            let size = spec_abs_diff(venue_position as int, old(state).position as int);
            let matching = old(state).active_order is Some;
            let key = (match old(state).active_order {
                Some(a) => spec_fill_key(
                    a.client_order_id,
                    size,
                    a.size as int,
                    FillSource::PositionDelta,
                ),
                None => FillKey {
                    phase: FillPhase::Partial,
                    client_order_id: 0,
                    source: FillSource::PositionDelta,
                },
            });
            let emits = delta != 0 && matching && old(state).status_atomic == 1
                && !old(fills).contains_key(key);
            &&& (r is Some <==> emits)
            &&& if emits {
                let side = if delta > 0 { OrderSide::Buy } else { OrderSide::Sell };
                &&& r == Some(HedgeEvent {
                    side,
                    size: size as u128,
                    reference_price,
                    detected_at_ms: now_ms,
                })
                &&& final(state).status == BotStatus::Filled
                &&& final(state).status_atomic == 2
                &&& final(state).active_order == old(state).active_order
                &&& final(state).position == venue_position
                &&& final(snap).snapshot() is None
                &&& forall|k: FillKey|
                    final(fills).contains_key(k) == (old(fills).contains_key(k) || k == key)
            } else {
                &&& *final(state) == *old(state)
                &&& final(snap).snapshot() == old(snap).snapshot()
                &&& forall|k: FillKey|
                    final(fills).contains_key(k) == old(fills).contains_key(k)
            }
        }),
{
    if venue_position == state.position {
        return None;
    }
    if state.get_status_atomic() != 1 {
        return None;
    }
    let (side, active_coid, active_size): (OrderSide, u64, u128) = match &state.active_order {
        Some(a) => (a.side, a.client_order_id, a.size),
        None => { return None; },
    };
    let delta_positive = venue_position > state.position;
    let fill_side = if delta_positive { OrderSide::Buy } else { OrderSide::Sell };
    let size: u128 = if delta_positive {
        (venue_position - state.position) as u128
    } else {
        (state.position - venue_position) as u128
    };
    let phase = if is_full_fill(size, active_size) {
        FillPhase::Full
    } else {
        FillPhase::Partial
    };
    let key = FillKey {
        phase,
        client_order_id: active_coid,
        source: FillSource::PositionDelta,
    };
    if fills.contains(&key) {
        return None;
    }
    fills.insert(key);
    state.mark_filled(size, fill_side);
    snap.set(None);
    Some(HedgeEvent { side: fill_side, size, reference_price, detected_at_ms: now_ms })
}

/// Whether a detector step acts on a fill with this key: the status byte
/// still reads `OrderPlaced` and the key is not yet recorded.  Every
/// emitting branch of the three detectors above requires exactly this of
/// the shared state, moves the byte to `Filled` and records the key, and
/// every non-emitting branch leaves both untouched; so any interleaving
/// of detector steps folds into the trace semantics below.
pub open spec fn detector_emits(status_atomic: u8, processed: Set<FillKey>, key: FillKey) -> bool {
    status_atomic == 1 && !processed.contains(key)
}

/// The number of hedge events emitted for `key` when the fills in
/// `trace` (already matched to the active order and past their channel's
/// significance checks) are presented in order to the detectors, starting
/// from the given status byte and processed set.
pub open spec fn emission_count(
    trace: Seq<FillKey>,
    status_atomic: u8,
    processed: Set<FillKey>,
    key: FillKey,
) -> nat
    decreases trace.len(),
{
    if trace.len() == 0 {
        0
    } else {
        let k0 = trace[0];
        if detector_emits(status_atomic, processed, k0) {
            (if k0 == key {
                1nat
            } else {
                0nat
            }) + emission_count(trace.drop_first(), 2, processed.insert(k0), key)
        } else {
            emission_count(trace.drop_first(), status_atomic, processed, key)
        }
    }
}

/// A key already recorded is never emitted again, whatever else happens:
/// entries are never removed within a quote's lifetime.
pub proof fn lemma_no_emission_when_processed(
    trace: Seq<FillKey>,
    status_atomic: u8,
    processed: Set<FillKey>,
    key: FillKey,
)
    requires
        processed.contains(key),
    ensures
        emission_count(trace, status_atomic, processed, key) == 0,
    decreases trace.len(),
{
    if trace.len() > 0 {
        let k0 = trace[0];
        if detector_emits(status_atomic, processed, k0) {
            lemma_no_emission_when_processed(trace.drop_first(), 2, processed.insert(k0), key);
        } else {
            lemma_no_emission_when_processed(trace.drop_first(), status_atomic, processed, key);
        }
    }
}

/// Nothing is emitted unless the order rests: once the status byte has
/// left `OrderPlaced`, every later presentation is dropped.
pub proof fn lemma_no_emission_when_not_placed(
    trace: Seq<FillKey>,
    status_atomic: u8,
    processed: Set<FillKey>,
    key: FillKey,
)
    requires
        status_atomic != 1,
    ensures
        emission_count(trace, status_atomic, processed, key) == 0,
    decreases trace.len(),
{
    if trace.len() > 0 {
        lemma_no_emission_when_not_placed(trace.drop_first(), status_atomic, processed, key);
    }
}

/// Deduplication: for any sequence of fills presented to the three
/// detectors in any interleaving, at most one hedge event is emitted for
/// a given key — the set catches repeats of the same key, and the move
/// to `Filled` silences every later presentation besides.
pub proof fn lemma_at_most_one_emission(
    trace: Seq<FillKey>,
    status_atomic: u8,
    processed: Set<FillKey>,
    key: FillKey,
)
    ensures
        emission_count(trace, status_atomic, processed, key) <= 1,
    decreases trace.len(),
{
    if trace.len() > 0 {
        let k0 = trace[0];
        if detector_emits(status_atomic, processed, k0) {
            lemma_no_emission_when_not_placed(trace.drop_first(), 2, processed.insert(k0), key);
        } else {
            lemma_at_most_one_emission(trace.drop_first(), status_atomic, processed, key);
        }
    }
}

/// Liveness of the winning channel: while the order rests and a fill's
/// key is not yet recorded, the first detector to present it emits the
/// hedge event, and the count for that key over the whole trace is then
/// exactly one.
pub proof fn lemma_first_fill_emitted_exactly_once(
    trace: Seq<FillKey>,
    processed: Set<FillKey>,
    key: FillKey,
)
    requires
        trace.len() > 0,
        trace[0] == key,
        !processed.contains(key),
    ensures
        emission_count(trace, 1, processed, key) == 1,
{
    lemma_no_emission_when_not_placed(trace.drop_first(), 2, processed.insert(key), key);
}

} // verus!
