//! Verified core of a cross-exchange market-making engine.
//!
//! The engine quotes a limit order on a maker venue at a price that, if
//! filled, can be offset at once by an opposite taker trade on a hedge venue
//! for a configured profit after all fees.  This crate holds the parts whose
//! behaviour is worth proving: the fee-aware quote arithmetic, the order
//! lifecycle state machine with its lock-free status mirror, the monitor and
//! cancel decision logic, the multi-channel fill-detection pipeline with its
//! deduplication guarantee, the hedge and reconciliation transitions, the
//! rate-limit backoff tracker, and configuration validation.
//!
//! All quantities are fixed-point integers: prices and notional amounts in
//! millionths of a USD, sizes in millionths of a base unit, and rates
//! (fees, profit, slippage) in parts per million (1 basis point = 100 ppm).
//! Timestamps are milliseconds on a monotonic clock supplied by the caller.
//! The surrounding process owns the clock, the venue connectors, and the
//! task scheduling; every decision those tasks act on is computed here.

pub mod side;
pub mod evaluator;
pub mod state;
pub mod monitor;
pub mod fills;
pub mod placement;
pub mod hedge;
pub mod backoff;
pub mod config;
pub mod prices;

use vstd::prelude::*;

verus! {

/// Rate scale: the fixed-point unit for fees, profit rates and slippage.
/// One part per million; one basis point is 100 of these.
pub const RATE_ONE: u64 = 1_000_000;

/// Upper bound on prices, notional amounts and tick sizes, in millionths
/// of a USD (one billion USD).  Keeping inputs under this bound lets every
/// intermediate product fit comfortably in 128 bits.
pub const MAX_PRICE_MICRO: u64 = 1_000_000_000_000_000;

/// Upper bound on fee and profit rates: one half, in parts per million.
/// Keeps the sell denominator `RATE_ONE - maker - profit` positive and
/// bounds the sell quote by a small multiple of the hedge price.
pub const MAX_RATE_PPM: u64 = 500_000;

/// Every profit computed from in-range prices and rates lies within this
/// bound (in ppm), so differences of two such profits stay far inside
/// `i128`.
pub const MAX_PROFIT_PPM_ABS: i128 = 4_000_000_000_000_000_000_000_000_000;

/// Upper bound on order sizes and fill amounts, in millionths of a base
/// unit.  No size computed from an in-range notional and a positive price
/// exceeds it, and any amount under it times any in-range price fits in
/// 128 bits.
pub const MAX_SIZE_MICRO: u128 = 1_000_000_000_000_000_000_000;

/// Upper bound on the magnitude of a net position, in millionths of a
/// base unit.  Keeps position deltas and their application to the
/// position within `i128`.
pub const MAX_POSITION_ABS: i128 = 40_000_000_000_000_000_000_000_000_000_000_000_000;

} // verus!
