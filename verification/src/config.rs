//! Configuration record and its validation.
//!
//! The surrounding process parses its configuration file and environment
//! into this flat record (converting decimal inputs into the crate's
//! fixed-point units) and must see `validate` succeed before building
//! any component.  The bounds checked here are exactly the preconditions
//! the evaluator and the monitor need.

use vstd::prelude::*;
use crate::{MAX_PRICE_MICRO, MAX_PROFIT_PPM_ABS, MAX_RATE_PPM, RATE_ONE};

verus! {

/// The recognized options, in the crate's fixed-point units: amounts in
/// millionths of a USD, rates in ppm (1 bps = 100 ppm), intervals in
/// seconds.
#[derive(Debug, Clone)]
pub struct Config {
    /// Symbol quoted on the maker venue.
    pub symbol: String,
    /// Notional per order, in millionths of a USD.
    pub order_notional_usd_micro: u64,
    /// Maker-venue fee, in ppm.
    pub pacifica_maker_fee_ppm: u64,
    /// Hedge-venue taker fee, in ppm.
    pub hyperliquid_taker_fee_ppm: u64,
    /// Target net profit, in ppm.
    pub profit_rate_ppm: u64,
    /// Profit drift that triggers a cancel, in ppm.
    pub profit_cancel_threshold_ppm: i128,
    /// Maximum age of a quote, in seconds.
    pub order_refresh_interval_secs: u64,
    /// Cadence of the backup fill detector, in seconds.
    pub pacifica_rest_poll_interval_secs: u64,
    /// Slippage allowed on hedge orders, in ppm.
    pub hyperliquid_slippage_ppm: u64,
    /// Order-book aggregation bucket on the maker venue.
    pub agg_level: u32,
    /// Minimum interval between a cancel and the next placement, in
    /// seconds.
    pub cancel_grace_period_secs: u64,
}

/// Why a configuration was rejected.
#[derive(Debug, Clone, Copy, PartialEq, Eq, Structural)]
pub enum ConfigError {
    /// The order notional must be positive.
    NonPositiveNotional,
    /// The order notional exceeds the representable price range.
    NotionalTooLarge,
    /// The target profit rate must be positive.
    NonPositiveProfitRate,
    /// Maker fee plus profit rate exceeds the supported rate range.
    MakerRateTooLarge,
    /// The taker fee exceeds the supported rate range.
    TakerRateTooLarge,
    /// The cancel threshold must be positive.
    NonPositiveCancelThreshold,
    /// The cancel threshold exceeds any reachable profit drift.
    CancelThresholdTooLarge,
    /// The refresh interval is beyond the supported range.
    RefreshIntervalTooLarge,
    /// The hedge slippage exceeds one.
    SlippageTooLarge,
}

impl ConfigError {
    /// A short description of the rejection.
    pub fn message(&self) -> (r: &'static str)
        ensures
            r@ == self.spec_message(),
    {
        match self {
            ConfigError::NonPositiveNotional => "order_notional_usd must be positive",
            ConfigError::NotionalTooLarge => "order_notional_usd is too large",
            ConfigError::NonPositiveProfitRate => "profit_rate_bps must be positive",
            ConfigError::MakerRateTooLarge => "pacifica_maker_fee_bps plus profit_rate_bps is too large",
            ConfigError::TakerRateTooLarge => "hyperliquid_taker_fee_bps is too large",
            ConfigError::NonPositiveCancelThreshold => "profit_cancel_threshold_bps must be positive",
            ConfigError::CancelThresholdTooLarge => "profit_cancel_threshold_bps is too large",
            ConfigError::RefreshIntervalTooLarge => "order_refresh_interval_secs is too large",
            ConfigError::SlippageTooLarge => "hyperliquid_slippage must not exceed 1",
        }
    }

    /// The description `message` returns.
    pub open spec fn spec_message(self) -> Seq<char> {
        match self {
            ConfigError::NonPositiveNotional => "order_notional_usd must be positive"@,
            ConfigError::NotionalTooLarge => "order_notional_usd is too large"@,
            ConfigError::NonPositiveProfitRate => "profit_rate_bps must be positive"@,
            ConfigError::MakerRateTooLarge => "pacifica_maker_fee_bps plus profit_rate_bps is too large"@,
            ConfigError::TakerRateTooLarge => "hyperliquid_taker_fee_bps is too large"@,
            ConfigError::NonPositiveCancelThreshold => "profit_cancel_threshold_bps must be positive"@,
            ConfigError::CancelThresholdTooLarge => "profit_cancel_threshold_bps is too large"@,
            ConfigError::RefreshIntervalTooLarge => "order_refresh_interval_secs is too large"@,
            ConfigError::SlippageTooLarge => "hyperliquid_slippage must not exceed 1"@,
        }
    }
}

impl Config {
    /// A configuration every component accepts: positive notional and
    /// profit, rates within the fixed-point range, a positive cancel
    /// threshold, and intervals and slippage within their ranges.
    pub open spec fn spec_valid(self) -> bool {
        &&& 1 <= self.order_notional_usd_micro <= MAX_PRICE_MICRO
        &&& self.profit_rate_ppm >= 1
        &&& self.pacifica_maker_fee_ppm + self.profit_rate_ppm <= MAX_RATE_PPM
        &&& self.hyperliquid_taker_fee_ppm <= MAX_RATE_PPM
        &&& 1 <= self.profit_cancel_threshold_ppm <= MAX_PROFIT_PPM_ABS
        &&& self.order_refresh_interval_secs <= 1_000_000_000
        &&& self.hyperliquid_slippage_ppm <= RATE_ONE
    }

    /// Check the configuration, reporting the first rule it breaks, in
    /// the order of `ConfigError`'s variants.
    pub fn validate(&self) -> (r: Result<(), ConfigError>)
        ensures
            r is Ok <==> self.spec_valid(),
            r == (if self.order_notional_usd_micro < 1 {
                Err::<(), ConfigError>(ConfigError::NonPositiveNotional)
            } else if self.order_notional_usd_micro > MAX_PRICE_MICRO {
                Err::<(), ConfigError>(ConfigError::NotionalTooLarge)
            } else if self.profit_rate_ppm < 1 {
                Err::<(), ConfigError>(ConfigError::NonPositiveProfitRate)
            } else if self.pacifica_maker_fee_ppm + self.profit_rate_ppm > MAX_RATE_PPM {
                Err::<(), ConfigError>(ConfigError::MakerRateTooLarge)
            } else if self.hyperliquid_taker_fee_ppm > MAX_RATE_PPM {
                Err::<(), ConfigError>(ConfigError::TakerRateTooLarge)
            } else if self.profit_cancel_threshold_ppm < 1 {
                Err::<(), ConfigError>(ConfigError::NonPositiveCancelThreshold)
            } else if self.profit_cancel_threshold_ppm > MAX_PROFIT_PPM_ABS {
                Err::<(), ConfigError>(ConfigError::CancelThresholdTooLarge)
            } else if self.order_refresh_interval_secs > 1_000_000_000 {
                Err::<(), ConfigError>(ConfigError::RefreshIntervalTooLarge)
            } else if self.hyperliquid_slippage_ppm > RATE_ONE {
                Err::<(), ConfigError>(ConfigError::SlippageTooLarge)
            } else {
                Ok::<(), ConfigError>(())
            }),
    {
        if self.order_notional_usd_micro < 1 {
            Err(ConfigError::NonPositiveNotional)
        } else if self.order_notional_usd_micro > MAX_PRICE_MICRO {
            Err(ConfigError::NotionalTooLarge)
        } else if self.profit_rate_ppm < 1 {
            Err(ConfigError::NonPositiveProfitRate)
        } else if self.pacifica_maker_fee_ppm > MAX_RATE_PPM
            || self.profit_rate_ppm > MAX_RATE_PPM
            || self.pacifica_maker_fee_ppm + self.profit_rate_ppm > MAX_RATE_PPM {
            Err(ConfigError::MakerRateTooLarge)
        } else if self.hyperliquid_taker_fee_ppm > MAX_RATE_PPM {
            Err(ConfigError::TakerRateTooLarge)
        } else if self.profit_cancel_threshold_ppm < 1 {
            Err(ConfigError::NonPositiveCancelThreshold)
        } else if self.profit_cancel_threshold_ppm > MAX_PROFIT_PPM_ABS {
            Err(ConfigError::CancelThresholdTooLarge)
        } else if self.order_refresh_interval_secs > 1_000_000_000 {
            Err(ConfigError::RefreshIntervalTooLarge)
        } else if self.hyperliquid_slippage_ppm > RATE_ONE {
            Err(ConfigError::SlippageTooLarge)
        } else {
            Ok(())
        }
    }
}

} // verus!
