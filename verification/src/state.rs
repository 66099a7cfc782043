//! Order lifecycle state machine and its lock-free status mirror.
//!
//! `BotState` is the authoritative record: the active order, the net
//! position, the current status, and the time of the last cancel.  The
//! status is encoded redundantly in `status_atomic`, a byte that the
//! surrounding process publishes through an atomic so the hot monitoring
//! path can classify the state without taking a lock; every transition
//! updates the byte in the same critical section as the status itself,
//! and `BotState::wf` pins the byte to the status at all times.
//!
//! Timestamps are milliseconds on a monotonic clock passed in by callers;
//! sizes are in millionths of a base unit, prices in millionths of a USD.

use vstd::prelude::*;
use crate::side::OrderSide;

verus! {

/// Lifecycle status of the single quoted order.
#[derive(Debug, Clone, PartialEq, Eq)]
pub enum BotStatus {
    /// Waiting for an opportunity.
    Idle,
    /// A maker order is resting on the venue.
    OrderPlaced,
    /// The maker order was filled; a hedge is owed.
    Filled,
    /// The hedge order is being executed.
    Hedging,
    /// Fill and hedge both done; transient, returns to `Idle`.
    Complete,
    /// Something failed; recovered by reconciliation.
    Error(String),
}

/// Status byte stored by `BotState` itself: every variant has its own code.
pub open spec fn status_code(status: BotStatus) -> u8 {
    match status {
        BotStatus::Idle => 0,
        BotStatus::OrderPlaced => 1,
        BotStatus::Filled => 2,
        BotStatus::Hedging => 3,
        BotStatus::Complete => 4,
        BotStatus::Error(_) => 5,
    }
}

/// Coarser status used by the monitoring tasks.  An error counts as idle
/// here: the monitor has nothing to watch while the bot reconciles, and a
/// separate flag must be consulted for alerting.
#[derive(Debug, Clone, Copy, PartialEq, Eq, Structural)]
pub enum AtomicBotStatus {
    Idle,
    OrderPlaced,
    Filled,
    Hedging,
    Complete,
}

impl AtomicBotStatus {
    /// The monitoring status corresponding to a lifecycle status;
    /// `Error` collapses to `Idle`.
    pub open spec fn spec_from_status(status: BotStatus) -> AtomicBotStatus {
        match status {
            BotStatus::Idle => AtomicBotStatus::Idle,
            BotStatus::OrderPlaced => AtomicBotStatus::OrderPlaced,
            BotStatus::Filled => AtomicBotStatus::Filled,
            BotStatus::Hedging => AtomicBotStatus::Hedging,
            BotStatus::Complete => AtomicBotStatus::Complete,
            BotStatus::Error(_) => AtomicBotStatus::Idle,
        }
    }

    /// Compute the monitoring status of a lifecycle status.
    pub fn from_status(status: &BotStatus) -> (r: AtomicBotStatus)
        ensures
            r == AtomicBotStatus::spec_from_status(*status),
    {
        match status {
            BotStatus::Idle => AtomicBotStatus::Idle,
            BotStatus::OrderPlaced => AtomicBotStatus::OrderPlaced,
            BotStatus::Filled => AtomicBotStatus::Filled,
            BotStatus::Hedging => AtomicBotStatus::Hedging,
            BotStatus::Complete => AtomicBotStatus::Complete,
            BotStatus::Error(_) => AtomicBotStatus::Idle,
        }
    }

    /// The byte published for this monitoring status.
    pub open spec fn spec_code(self) -> u8 {
        match self {
            AtomicBotStatus::Idle => 0,
            AtomicBotStatus::OrderPlaced => 1,
            AtomicBotStatus::Filled => 2,
            AtomicBotStatus::Hedging => 3,
            AtomicBotStatus::Complete => 4,
        }
    }

    /// Encode this monitoring status as its byte.
    pub fn code(self) -> (r: u8)
        ensures
            r == self.spec_code(),
    {
        match self {
            AtomicBotStatus::Idle => 0,
            AtomicBotStatus::OrderPlaced => 1,
            AtomicBotStatus::Filled => 2,
            AtomicBotStatus::Hedging => 3,
            AtomicBotStatus::Complete => 4,
        }
    }
}

/// Write the monitoring byte for `status` into a status cell.  The caller
/// publishes the cell through an atomic with release ordering, in the same
/// critical section as the status change itself.
pub fn sync_atomic_status(atomic: &mut u8, status: &BotStatus)
    ensures
        *final(atomic) == AtomicBotStatus::spec_from_status(*status).spec_code(),
{
    *atomic = AtomicBotStatus::from_status(status).code();
}

/// Immutable record of the order resting on the maker venue, created on
/// successful placement.
#[derive(Debug, Clone)]
pub struct ActiveOrder {
    /// Client-assigned order id, unique per placement.
    pub client_order_id: u64,
    /// Trading symbol.
    pub symbol: String,
    /// Side of the maker order.
    pub side: OrderSide,
    /// Limit price, in millionths of a USD.
    pub price: u64,
    /// Order size, in millionths of a base unit.
    pub size: u128,
    /// Profit captured at placement time, in ppm, for deviation checks.
    pub initial_profit_ppm: i128,
    /// When the order was placed, in milliseconds.
    pub placed_at_ms: u64,
}

/// The bot's shared state.  The surrounding process guards it with a
/// readers-writer lock and holds the write lock only across these small
/// mutations, never across I/O.
#[derive(Debug)]
pub struct BotState {
    /// The order currently resting on the maker venue, if any.
    pub active_order: Option<ActiveOrder>,
    /// Net position in millionths of a base unit: positive is long.
    pub position: i128,
    /// Authoritative lifecycle status.
    pub status: BotStatus,
    /// Byte mirror of `status`, published through an atomic for lock-free
    /// reads on the hot path; always equals `status_code(status)`.
    pub status_atomic: u8,
    /// When the last cancel completed, in milliseconds; placement is
    /// refused for a grace period after it.
    pub last_cancellation_time_ms: Option<u64>,
}

impl BotState {
    /// The status byte mirrors the status, an order is present whenever
    /// one is supposed to be resting, and no order lingers in the states
    /// that have none.
    pub open spec fn wf(self) -> bool {
        &&& self.status_atomic == status_code(self.status)
        &&& (self.status matches BotStatus::OrderPlaced ==> self.active_order is Some)
        &&& (self.status matches BotStatus::Idle ==> self.active_order is None)
        &&& (self.status matches BotStatus::Complete ==> self.active_order is None)
    }

    /// Fresh state: idle, flat, no order, no cancel on record.
    pub fn new() -> (r: Self)
        ensures
            r.wf(),
            r.active_order is None,
            r.position == 0,
            r.status == BotStatus::Idle,
            r.status_atomic == 0,
            r.last_cancellation_time_ms is None,
    {
        BotState {
            active_order: None,
            position: 0,
            status: BotStatus::Idle,
            status_atomic: 0,
            last_cancellation_time_ms: None,
        }
    }

    /// Install a freshly placed order: the transition `Idle -> OrderPlaced`,
    /// driven only by order placement.
    pub fn set_active_order(&mut self, order: ActiveOrder)
        ensures
            final(self).active_order == Some(order),
            final(self).status == BotStatus::OrderPlaced,
            final(self).status_atomic == 1,
            final(self).position == old(self).position,
            final(self).last_cancellation_time_ms == old(self).last_cancellation_time_ms,
            final(self).wf(),
    {
        self.active_order = Some(order);
        self.status = BotStatus::OrderPlaced;
        self.status_atomic = 1;
    }

    /// Drop the resting order and return to `Idle`, stamping the cancel
    /// time: the transition `OrderPlaced -> Idle`, driven only by the
    /// cancel handler.
    pub fn clear_active_order(&mut self, now_ms: u64)
        ensures
            final(self).active_order is None,
            final(self).status == BotStatus::Idle,
            final(self).status_atomic == 0,
            final(self).position == old(self).position,
            final(self).last_cancellation_time_ms == Some(now_ms),
            final(self).wf(),
    {
        self.active_order = None;
        self.status = BotStatus::Idle;
        self.status_atomic = 0;
        self.last_cancellation_time_ms = Some(now_ms);
    }

    /// Record a fill: the transition to `Filled`, driven only by a fill
    /// detector.  The position moves by the filled size in the direction
    /// of the maker order.
    pub fn mark_filled(&mut self, filled_size: u128, side: OrderSide)
        requires
            filled_size <= i128::MAX,
            side matches OrderSide::Buy ==> old(self).position + filled_size <= i128::MAX,
            side matches OrderSide::Sell ==> old(self).position - filled_size >= i128::MIN,
        ensures
            final(self).status == BotStatus::Filled,
            final(self).status_atomic == 2,
            final(self).position == (match side {
                OrderSide::Buy => old(self).position + filled_size,
                OrderSide::Sell => old(self).position - filled_size,
            }),
            final(self).active_order == old(self).active_order,
            final(self).last_cancellation_time_ms == old(self).last_cancellation_time_ms,
            old(self).wf() ==> final(self).wf(),
    {
        self.status = BotStatus::Filled;
        self.status_atomic = 2;
        match side {
            OrderSide::Buy => {
                self.position = self.position + (filled_size as i128);
            }
            OrderSide::Sell => {
                self.position = self.position - (filled_size as i128);
            }
        }
    }

    /// Record that the hedge order is in flight: `Filled -> Hedging`,
    /// driven only by the hedge executor.
    pub fn mark_hedging(&mut self)
        ensures
            final(self).status == BotStatus::Hedging,
            final(self).status_atomic == 3,
            final(self).active_order == old(self).active_order,
            final(self).position == old(self).position,
            final(self).last_cancellation_time_ms == old(self).last_cancellation_time_ms,
            final(self).wf(),
    {
        self.status = BotStatus::Hedging;
        self.status_atomic = 3;
    }

    /// Record hedge confirmation: `Hedging -> Complete`, clearing the
    /// order; driven only by the hedge executor.
    pub fn mark_complete(&mut self)
        ensures
            final(self).status == BotStatus::Complete,
            final(self).status_atomic == 4,
            final(self).active_order is None,
            final(self).position == old(self).position,
            final(self).last_cancellation_time_ms == old(self).last_cancellation_time_ms,
            final(self).wf(),
    {
        self.status = BotStatus::Complete;
        self.status_atomic = 4;
        self.active_order = None;
    }

    /// Record a failure; recovery goes through reconciliation.
    pub fn set_error(&mut self, error: String)
        ensures
            final(self).status == BotStatus::Error(error),
            final(self).status_atomic == 5,
            final(self).active_order == old(self).active_order,
            final(self).position == old(self).position,
            final(self).last_cancellation_time_ms == old(self).last_cancellation_time_ms,
            final(self).wf(),
    {
        self.status = BotStatus::Error(error);
        self.status_atomic = 5;
    }

    /// Whether the cycle has ended, in success or failure.
    pub fn is_terminal(&self) -> (r: bool)
        ensures
            r == (self.status matches BotStatus::Complete
                || self.status matches BotStatus::Error(_)),
    {
        match &self.status {
            BotStatus::Complete => true,
            BotStatus::Error(_) => true,
            _ => false,
        }
    }

    /// Whether the bot is idle, read from the authoritative status.
    pub fn is_idle(&self) -> (r: bool)
        ensures
            r == (self.status matches BotStatus::Idle),
    {
        match &self.status {
            BotStatus::Idle => true,
            _ => false,
        }
    }

    /// Whether the bot is idle, read from the status byte alone, as the
    /// lock-free readers do.
    pub fn is_idle_fast(&self) -> (r: bool)
        ensures
            r == (self.status_atomic == 0),
    {
        self.status_atomic == 0
    }

    /// Whether an order is resting, read from the status byte alone.
    pub fn has_active_order_fast(&self) -> (r: bool)
        ensures
            r == (self.status_atomic == 1),
    {
        self.status_atomic == 1
    }

    /// The status byte as the lock-free readers see it.
    pub fn get_status_atomic(&self) -> (r: u8)
        ensures
            r == self.status_atomic,
    {
        self.status_atomic
    }

    /// Whether the grace period since the last cancel has elapsed: true
    /// when no cancel is on record or at least `grace_period_secs` whole
    /// seconds have passed since it.
    pub fn grace_period_elapsed(&self, grace_period_secs: u64, now_ms: u64) -> (r: bool)
        requires
            self.last_cancellation_time_ms matches Some(t) ==> t <= now_ms,
        ensures
            r == self.spec_grace_period_elapsed(grace_period_secs as int, now_ms as int),
    {
        match self.last_cancellation_time_ms {
            None => true,
            Some(last_cancel_ms) => (now_ms - last_cancel_ms) / 1000 >= grace_period_secs,
        }
    }

    /// Grace-period condition: no cancel on record, or the elapsed whole
    /// seconds since it reach the configured grace period.
    pub open spec fn spec_grace_period_elapsed(self, grace_period_secs: int, now_ms: int) -> bool {
        match self.last_cancellation_time_ms {
            None => true,
            Some(last_cancel_ms) => (now_ms - last_cancel_ms) / 1000 >= grace_period_secs,
        }
    }
}

impl Default for BotState {
    /// Same state as `BotState::new`.
    fn default() -> (r: Self)
        ensures
            r.wf(),
            r.active_order is None,
            r.position == 0,
            r.status == BotStatus::Idle,
            r.status_atomic == 0,
            r.last_cancellation_time_ms is None,
    {
        BotState::new()
    }
}

} // verus!
