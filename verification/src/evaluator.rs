//! Fee-aware opportunity evaluation.
//!
//! Pure arithmetic over fixed-point integers: the ideal maker quote that
//! leaves the configured profit after maker and taker fees, conservative
//! rounding to the venue tick, order sizing from a notional amount, and
//! recomputation of the realized profit as hedge-venue prices move.
//!
//! Prices and notional amounts are in millionths of a USD, sizes in
//! millionths of a base unit, and rates in parts per million (ppm);
//! one basis point is 100 ppm.  Profit values are signed ppm of cost.

use vstd::prelude::*;
use vstd::arithmetic::div_mod::{
    lemma_fundamental_div_mod, lemma_fundamental_div_mod_converse_div, lemma_div_is_ordered,
    lemma_div_nonincreasing, lemma_mod_multiples_basic, lemma_div_pos_is_pos,
    lemma_basic_div,
};
use vstd::arithmetic::mul::{
    lemma_mul_inequality, lemma_mul_left_inequality, lemma_mul_inequality_converse,
    lemma_mul_upper_bound,
    lemma_mul_is_commutative, lemma_mul_is_associative, lemma_mul_is_distributive_add,
    lemma_mul_is_distributive_sub, lemma_mul_nonnegative, lemma_mul_strictly_positive,
    lemma_mul_by_zero_is_zero, lemma_mul_unary_negation,
};
use crate::side::OrderSide;
use crate::{RATE_ONE, MAX_PRICE_MICRO, MAX_RATE_PPM, MAX_PROFIT_PPM_ABS};

verus! {

/// A profitable quoting opportunity on the maker venue, as produced by the
/// evaluator and consumed by order placement.
#[derive(Debug, Clone, Copy, PartialEq, Eq, Structural)]
pub struct Opportunity {
    /// Direction of the maker order.
    pub direction: OrderSide,
    /// Limit price for the maker order, in millionths of a USD.
    pub pacifica_price: u64,
    /// Hedge-venue reference price the quote was computed from.
    pub hyperliquid_price: u64,
    /// Order size, in millionths of a base unit.
    pub size: u128,
    /// Profit at evaluation time, in ppm of cost (100 ppm = 1 bps).
    pub initial_profit_ppm: i128,
    /// When the opportunity was evaluated, in milliseconds.
    pub timestamp: u64,
}

/// Fee factors precomputed at construction and used in every evaluation,
/// all in ppm (so `RATE_ONE` stands for 1.0).
#[derive(Debug, Clone, Copy, PartialEq, Eq, Structural)]
pub struct FeeFactors {
    /// `1 + maker_fee`.
    pub one_plus_maker: u64,
    /// `1 - maker_fee`.
    pub one_minus_maker: u64,
    /// `1 + taker_fee`.
    pub one_plus_taker: u64,
    /// `1 - taker_fee`.
    pub one_minus_taker: u64,
    /// `1 + maker_fee + profit_rate`: divisor of the ideal buy quote.
    pub buy_denominator: u64,
    /// `1 - maker_fee - profit_rate`: divisor of the ideal sell quote.
    pub sell_denominator: u64,
}

/// Stateless evaluator for quoting opportunities.
#[derive(Debug, Clone, Copy, PartialEq, Eq, Structural)]
pub struct OpportunityEvaluator {
    /// Maker-venue fee, in ppm.
    pub maker_fee_ppm: u64,
    /// Hedge-venue taker fee, in ppm.
    pub taker_fee_ppm: u64,
    /// Target net profit rate, in ppm.
    pub profit_rate_ppm: u64,
    /// Maker-venue minimum price increment, in millionths of a USD.
    pub pacifica_tick_size: u64,
    /// Factors derived from the three rates.
    pub fee_factors: FeeFactors,
}

/// Floor of `(rev - cost) / cost`, scaled to ppm: the profit earned per
/// unit of cost.  `rev` and `cost` are in matching fixed-point units.
pub open spec fn spec_profit_ppm(rev: int, cost: int) -> int
    recommends
        cost > 0,
{
    ((rev - cost) * (RATE_ONE as int)) / cost
}

/// The buy quote: the ideal price `hl_bid * (1 - taker) / (1 + maker + profit)`
/// rounded down to a multiple of `tick`.
pub open spec fn spec_buy_quote(hl_bid: int, one_minus_taker: int, buy_denominator: int, tick: int) -> int
    recommends
        buy_denominator > 0,
        tick > 0,
{
    tick * ((hl_bid * one_minus_taker) / (buy_denominator * tick))
}

/// The sell quote: the ideal price `hl_ask * (1 + taker) / (1 - maker - profit)`
/// rounded up to a multiple of `tick`.
pub open spec fn spec_sell_quote(hl_ask: int, one_plus_taker: int, sell_denominator: int, tick: int) -> int
    recommends
        sell_denominator > 0,
        tick > 0,
{
    tick * ((hl_ask * one_plus_taker + sell_denominator * tick - 1) / (sell_denominator * tick))
}

impl OpportunityEvaluator {
    /// The evaluator's rates are in range and its factors are the ones
    /// derived from them.
    pub open spec fn wf(self) -> bool {
        &&& self.maker_fee_ppm + self.profit_rate_ppm <= MAX_RATE_PPM
        &&& self.taker_fee_ppm <= MAX_RATE_PPM
        &&& 1 <= self.pacifica_tick_size <= MAX_PRICE_MICRO
        &&& self.fee_factors.one_plus_maker == RATE_ONE + self.maker_fee_ppm
        &&& self.fee_factors.one_minus_maker == RATE_ONE - self.maker_fee_ppm
        &&& self.fee_factors.one_plus_taker == RATE_ONE + self.taker_fee_ppm
        &&& self.fee_factors.one_minus_taker == RATE_ONE - self.taker_fee_ppm
        &&& self.fee_factors.buy_denominator == RATE_ONE + self.maker_fee_ppm + self.profit_rate_ppm
        &&& self.fee_factors.sell_denominator == RATE_ONE - self.maker_fee_ppm - self.profit_rate_ppm
    }

    /// Create an evaluator from the three rates and the venue tick size.
    ///
    /// Rates are in ppm (1 bps = 100 ppm); the tick is in millionths of a
    /// USD.  The bounds keep the sell denominator positive and every
    /// intermediate product of an evaluation within 128 bits.
    pub fn new(
        maker_fee_ppm: u64,
        taker_fee_ppm: u64,
        profit_rate_ppm: u64,
        pacifica_tick_size: u64,
    ) -> (r: Self)
        requires
            maker_fee_ppm + profit_rate_ppm <= MAX_RATE_PPM,
            taker_fee_ppm <= MAX_RATE_PPM,
            1 <= pacifica_tick_size <= MAX_PRICE_MICRO,
        ensures
            r.wf(),
            r.maker_fee_ppm == maker_fee_ppm,
            r.taker_fee_ppm == taker_fee_ppm,
            r.profit_rate_ppm == profit_rate_ppm,
            r.pacifica_tick_size == pacifica_tick_size,
    {
        let fee_factors = FeeFactors {
            one_plus_maker: RATE_ONE + maker_fee_ppm,
            one_minus_maker: RATE_ONE - maker_fee_ppm,
            one_plus_taker: RATE_ONE + taker_fee_ppm,
            one_minus_taker: RATE_ONE - taker_fee_ppm,
            buy_denominator: RATE_ONE + maker_fee_ppm + profit_rate_ppm,
            sell_denominator: RATE_ONE - maker_fee_ppm - profit_rate_ppm,
        };
        OpportunityEvaluator {
            maker_fee_ppm,
            taker_fee_ppm,
            profit_rate_ppm,
            pacifica_tick_size,
            fee_factors,
        }
    }

    /// Cost of a filled maker buy at price `p`: `p * (1 + maker)`.
    pub open spec fn spec_buy_cost(self, p: int) -> int {
        p * (self.fee_factors.one_plus_maker as int)
    }

    /// Revenue of the hedging taker sell: `hl_bid * (1 - taker)`.
    pub open spec fn spec_buy_revenue(self, hl_bid: int) -> int {
        hl_bid * (self.fee_factors.one_minus_taker as int)
    }

    /// Revenue of a filled maker sell at price `p`: `p * (1 - maker)`.
    pub open spec fn spec_sell_revenue(self, p: int) -> int {
        p * (self.fee_factors.one_minus_maker as int)
    }

    /// Cost of the hedging taker buy: `hl_ask * (1 + taker)`.
    pub open spec fn spec_sell_cost(self, hl_ask: int) -> int {
        hl_ask * (self.fee_factors.one_plus_taker as int)
    }

    /// The evaluator's buy quote for a hedge-venue bid.
    pub open spec fn spec_buy_quote_of(self, hl_bid: int) -> int {
        spec_buy_quote(
            hl_bid,
            self.fee_factors.one_minus_taker as int,
            self.fee_factors.buy_denominator as int,
            self.pacifica_tick_size as int,
        )
    }

    /// The evaluator's sell quote for a hedge-venue ask.
    pub open spec fn spec_sell_quote_of(self, hl_ask: int) -> int {
        spec_sell_quote(
            hl_ask,
            self.fee_factors.one_plus_taker as int,
            self.fee_factors.sell_denominator as int,
            self.pacifica_tick_size as int,
        )
    }

    /// Profit, in ppm of cost, of holding a maker order at price `p` in the
    /// given direction while the hedge venue quotes `(hl_bid, hl_ask)`.
    pub open spec fn spec_profit(self, direction: OrderSide, p: int, hl_bid: int, hl_ask: int) -> int {
        match direction {
            OrderSide::Buy => spec_profit_ppm(self.spec_buy_revenue(hl_bid), self.spec_buy_cost(p)),
            OrderSide::Sell => spec_profit_ppm(self.spec_sell_revenue(p), self.spec_sell_cost(hl_ask)),
        }
    }

    /// The value `evaluate_buy_opportunity` returns: an opportunity at the
    /// rounded quote exactly when the quote is positive and profitable.
    pub open spec fn spec_evaluate_buy(self, hl_bid: int, notional_usd: int, timestamp_ms: u64) -> Option<Opportunity> {
        let p = self.spec_buy_quote_of(hl_bid);
        let rev = self.spec_buy_revenue(hl_bid);
        let cost = self.spec_buy_cost(p);
        if p >= 1 && rev > cost {
            Some(Opportunity {
                direction: OrderSide::Buy,
                pacifica_price: p as u64,
                hyperliquid_price: hl_bid as u64,
                size: ((notional_usd * RATE_ONE) / p) as u128,
                initial_profit_ppm: spec_profit_ppm(rev, cost) as i128,
                timestamp: timestamp_ms,
            })
        } else {
            None
        }
    }

    /// The value `evaluate_sell_opportunity` returns.
    pub open spec fn spec_evaluate_sell(self, hl_ask: int, notional_usd: int, timestamp_ms: u64) -> Option<Opportunity> {
        let p = self.spec_sell_quote_of(hl_ask);
        let rev = self.spec_sell_revenue(p);
        let cost = self.spec_sell_cost(hl_ask);
        if p >= 1 && rev > cost {
            Some(Opportunity {
                direction: OrderSide::Sell,
                pacifica_price: p as u64,
                hyperliquid_price: hl_ask as u64,
                size: ((notional_usd * RATE_ONE) / p) as u128,
                initial_profit_ppm: spec_profit_ppm(rev, cost) as i128,
                timestamp: timestamp_ms,
            })
        } else {
            None
        }
    }
}

/// The value `pick_best_opportunity` returns: with both sides present,
/// the one whose price lies closer to the maker mid, ties broken by
/// profit and then toward the sell.
pub open spec fn spec_pick_best(
    buy_opp: Option<Opportunity>,
    sell_opp: Option<Opportunity>,
    pac_mid: int,
) -> Option<Opportunity> {
    match (buy_opp, sell_opp) {
        (Some(b), Some(s)) => {
            let bd = spec_abs_diff(pac_mid, b.pacifica_price as int);
            let sd = spec_abs_diff(s.pacifica_price as int, pac_mid);
            if bd < sd {
                Some(b)
            } else if sd < bd {
                Some(s)
            } else if b.initial_profit_ppm > s.initial_profit_ppm {
                Some(b)
            } else {
                Some(s)
            }
        },
        (Some(b), None) => Some(b),
        (None, Some(s)) => Some(s),
        (None, None) => None,
    }
}

/// For a positive numerator and divisor, the quotient rounded up.
/// Helper fact: `-num / cost` (which floors toward minus infinity)
/// equals the negated rounded-up quotient of `num / cost`.
proof fn lemma_neg_div_floor(num: int, cost: int)
    requires
        num >= 0,
        cost > 0,
    ensures
        (-num) / cost == -((num + cost - 1) / cost),
{
    let q = num / cost;
    let r = num % cost;
    lemma_fundamental_div_mod(num, cost);
    assert(num == q * cost + r);
    if r == 0 {
        assert(num + cost - 1 == q * cost + (cost - 1));
        lemma_fundamental_div_mod_converse_div(num + cost - 1, cost, q, cost - 1);
        assert(-num == (-q) * cost + 0) by {
            lemma_mul_is_distributive_sub(cost, 0, q);
            lemma_mul_is_commutative(cost, q);
            lemma_mul_is_commutative(cost, -q);
        }
        lemma_fundamental_div_mod_converse_div(-num, cost, -q, 0);
    } else {
        assert(num + cost - 1 == (q + 1) * cost + (r - 1)) by {
            lemma_mul_is_distributive_add(cost, q, 1);
            lemma_mul_is_commutative(cost, q);
            lemma_mul_is_commutative(cost, q + 1);
        }
        lemma_fundamental_div_mod_converse_div(num + cost - 1, cost, q + 1, r - 1);
        assert(-num == (-q - 1) * cost + (cost - r)) by {
            lemma_mul_is_distributive_sub(cost, -q, 1);
            lemma_mul_is_commutative(cost, -q);
            lemma_mul_is_commutative(cost, -q - 1);
            lemma_mul_is_distributive_sub(cost, 0, q);
        }
        lemma_fundamental_div_mod_converse_div(-num, cost, -q - 1, cost - r);
    }
}

/// Compute `spec_profit_ppm(rev, cost)` exactly in executable code.
///
/// The bound on `rev` and `cost` keeps the scaled numerator within `u128`;
/// every value arising from in-range prices and rates is far below it.
pub fn profit_ppm_exec(rev: u128, cost: u128) -> (r: i128)
    requires
        1 <= cost,
        rev <= 0x1_0000_0000_0000_0000_0000_0000,
        cost <= 0x1_0000_0000_0000_0000_0000_0000,
    ensures
        r == spec_profit_ppm(rev as int, cost as int),
{
    if rev >= cost {
        proof {
            lemma_mul_upper_bound(
                rev as int - cost as int,
                0x1_0000_0000_0000_0000_0000_0000,
                RATE_ONE as int,
                RATE_ONE as int,
            );
        }
        let num: u128 = (rev - cost) * (RATE_ONE as u128);
        let q: u128 = num / cost;
        proof {
            lemma_div_nonincreasing(num as int, cost as int);
            lemma_div_is_ordered(0, num as int, cost as int);
        }
        q as i128
    } else {
        proof {
            lemma_mul_upper_bound(
                cost as int - rev as int,
                0x1_0000_0000_0000_0000_0000_0000,
                RATE_ONE as int,
                RATE_ONE as int,
            );
        }
        let num: u128 = (cost - rev) * (RATE_ONE as u128);
        let q: u128 = (num + cost - 1) / cost;
        proof {
            lemma_neg_div_floor(num as int, cost as int);
            assert((rev - cost) * (RATE_ONE as int) == -(num as int)) by {
                lemma_mul_is_distributive_sub((RATE_ONE as int), cost as int, rev as int);
                lemma_mul_is_commutative(rev as int - cost as int, RATE_ONE as int);
                lemma_mul_is_commutative(cost as int - rev as int, RATE_ONE as int);
            }
            lemma_div_nonincreasing(num as int + cost - 1, cost as int);
            lemma_div_is_ordered(0, num as int + cost - 1, cost as int);
        }
        -(q as i128)
    }
}

/// A profit stays non-negative (indeed positive revenue margin keeps the
/// floored ppm value at or above zero) whenever revenue exceeds cost.
/// This is the sense in which a returned opportunity is never loss-making.
pub proof fn lemma_profit_nonneg(rev: int, cost: int)
    requires
        0 < cost < rev,
    ensures
        spec_profit_ppm(rev, cost) >= 0,
{
    lemma_mul_nonnegative(rev - cost, RATE_ONE as int);
    lemma_div_is_ordered(0, (rev - cost) * (RATE_ONE as int), cost);
}

/// Bounds on the profit value: a non-negative revenue over a positive
/// cost yields at least minus one whole unit (all of the cost lost) and
/// at most the revenue itself scaled to ppm.
pub proof fn lemma_profit_ppm_bounds(rev: int, cost: int)
    requires
        0 <= rev,
        1 <= cost,
    ensures
        -(RATE_ONE as int) <= spec_profit_ppm(rev, cost),
        spec_profit_ppm(rev, cost) <= rev * (RATE_ONE as int),
{
    let one = RATE_ONE as int;
    assert(-(RATE_ONE as int) <= spec_profit_ppm(rev, cost)) by {
        lemma_mul_inequality(-cost, rev - cost, one);
        lemma_div_is_ordered((-cost) * one, (rev - cost) * one, cost);
        assert((-cost) * one == (-one) * cost + 0) by {
            lemma_mul_is_commutative(-cost, one);
            lemma_mul_is_commutative(-one, cost);
            lemma_mul_unary_negation(one, cost);
            lemma_mul_unary_negation(cost, one);
        }
        lemma_fundamental_div_mod_converse_div((-cost) * one, cost, -one, 0);
    }
    assert(spec_profit_ppm(rev, cost) <= rev * one) by {
        if rev >= cost {
            lemma_mul_inequality(rev - cost, rev, one);
            lemma_div_nonincreasing((rev - cost) * one, cost);
            lemma_mul_nonnegative(rev - cost, one);
            lemma_mul_nonnegative(rev, one);
        } else {
            lemma_mul_inequality(rev - cost, 0, one);
            lemma_mul_by_zero_is_zero(one);
            lemma_div_is_ordered((rev - cost) * one, 0, cost);
            assert((0 as int) / cost == 0) by {
                lemma_basic_div(0, cost);
            }
            lemma_mul_nonnegative(rev, one);
        }
    }
}

/// Profit is monotone in revenue: raising revenue at fixed cost never
/// lowers the returned ppm value.
pub proof fn lemma_profit_monotone_in_revenue(rev1: int, rev2: int, cost: int)
    requires
        cost > 0,
        rev1 <= rev2,
    ensures
        spec_profit_ppm(rev1, cost) <= spec_profit_ppm(rev2, cost),
{
    lemma_mul_inequality(rev1 - cost, rev2 - cost, RATE_ONE as int);
    lemma_div_is_ordered((rev1 - cost) * (RATE_ONE as int), (rev2 - cost) * (RATE_ONE as int), cost);
}

/// The buy quote is rounded conservatively: it is a multiple of the tick,
/// it never exceeds the unrounded ideal (stated multiplied out:
/// `quote * denominator <= hl_bid * (1 - taker)`), and it never exceeds
/// the hedge bid itself.
pub proof fn lemma_buy_quote_conservative(hl_bid: int, omt: int, denom: int, tick: int)
    requires
        hl_bid >= 0,
        0 < omt <= denom,
        tick > 0,
    ensures
        spec_buy_quote(hl_bid, omt, denom, tick) % tick == 0,
        spec_buy_quote(hl_bid, omt, denom, tick) * denom <= hl_bid * omt,
        0 <= spec_buy_quote(hl_bid, omt, denom, tick) <= hl_bid,
{
    let n = hl_bid * omt;
    let d = denom * tick;
    let q = n / d;
    let p = tick * q;
    lemma_mul_nonnegative(hl_bid, omt);
    lemma_mul_strictly_positive(denom, tick);
    lemma_div_pos_is_pos(n, d);
    lemma_mul_nonnegative(tick, q);
    assert(p % tick == 0) by {
        lemma_mul_is_commutative(tick, q);
        lemma_mod_multiples_basic(q, tick);
    }
    assert(p * denom <= n) by {
        lemma_fundamental_div_mod(n, d);
        assert(n == d * q + n % d);
        assert(0 <= n % d);
        assert(d * q == p * denom) by {
            lemma_mul_is_associative(denom, tick, q);
            lemma_mul_is_commutative(denom, tick * q);
            lemma_mul_is_commutative(tick, q);
            lemma_mul_is_commutative(q * tick, denom);
            lemma_mul_is_commutative(tick * q, denom);
        }
    }
    assert(p <= hl_bid) by {
        lemma_mul_inequality(omt, denom, hl_bid);
        lemma_mul_is_commutative(omt, hl_bid);
        lemma_mul_is_commutative(denom, hl_bid);
        assert(p * denom <= hl_bid * denom);
        lemma_mul_inequality_converse(p, hl_bid, denom);
    }
}

/// The sell quote is rounded conservatively: it is a multiple of the tick
/// and it never falls below the unrounded ideal (stated multiplied out:
/// `quote * denominator >= hl_ask * (1 + taker)`).  The last clause bounds
/// the quote from above: rounding up adds at most one tick to the ideal.
pub proof fn lemma_sell_quote_conservative(hl_ask: int, opt: int, sdenom: int, tick: int)
    requires
        hl_ask >= 0,
        opt > 0,
        sdenom > 0,
        tick > 0,
    ensures
        spec_sell_quote(hl_ask, opt, sdenom, tick) % tick == 0,
        spec_sell_quote(hl_ask, opt, sdenom, tick) * sdenom >= hl_ask * opt,
        spec_sell_quote(hl_ask, opt, sdenom, tick) >= 0,
        spec_sell_quote(hl_ask, opt, sdenom, tick) * sdenom <= hl_ask * opt + sdenom * tick,
{
    let n = hl_ask * opt;
    let d = sdenom * tick;
    let m = n + d - 1;
    let q = m / d;
    let p = tick * q;
    lemma_mul_nonnegative(hl_ask, opt);
    lemma_mul_strictly_positive(sdenom, tick);
    lemma_div_pos_is_pos(m, d);
    lemma_mul_nonnegative(tick, q);
    assert(p % tick == 0) by {
        lemma_mul_is_commutative(tick, q);
        lemma_mod_multiples_basic(q, tick);
    }
    assert(d * q == p * sdenom) by {
        lemma_mul_is_associative(sdenom, tick, q);
        lemma_mul_is_commutative(sdenom, tick * q);
        lemma_mul_is_commutative(tick * q, sdenom);
    }
    lemma_fundamental_div_mod(m, d);
    assert(m == d * q + m % d);
    assert(0 <= m % d < d) by {
        lemma_remainder_bounds(m, d);
    }
    assert(p * sdenom == d * q);
    assert(d * q >= m - (d - 1));
    assert(d * q <= m);
}

/// Remainder bounds for a non-negative dividend and positive divisor.
proof fn lemma_remainder_bounds(x: int, d: int)
    requires
        x >= 0,
        d > 0,
    ensures
        0 <= x % d < d,
{
}

/// Absolute difference of two integers.
pub open spec fn spec_abs_diff(a: int, b: int) -> int {
    if a >= b {
        a - b
    } else {
        b - a
    }
}

impl OpportunityEvaluator {
    /// Evaluate a buy opportunity: quote a maker buy whose fill is hedged
    /// by a taker sell at the hedge-venue bid.
    ///
    /// Returns the opportunity exactly when the tick-rounded quote is a
    /// positive price and the hedge revenue strictly exceeds the maker
    /// cost, i.e. the realized profit after rounding is positive.  The
    /// returned record carries the rounded price, the size bought for the
    /// requested notional at that price, and the realized profit in ppm.
    pub fn evaluate_buy_opportunity(
        &self,
        hl_bid: u64,
        notional_usd: u64,
        timestamp_ms: u64,
    ) -> (r: Option<Opportunity>)
        requires
            self.wf(),
            hl_bid <= MAX_PRICE_MICRO,
            notional_usd <= MAX_PRICE_MICRO,
        ensures
            r == self.spec_evaluate_buy(hl_bid as int, notional_usd as int, timestamp_ms),
            ({
                let p = self.spec_buy_quote_of(hl_bid as int);
                let rev = self.spec_buy_revenue(hl_bid as int);
                match r {
                    Some(o) => {
                        &&& p >= 1
                        &&& rev > self.spec_buy_cost(p)
                        &&& o.direction == OrderSide::Buy
                        &&& o.pacifica_price == p
                        &&& o.hyperliquid_price == hl_bid
                        &&& o.size == (notional_usd as int * RATE_ONE as int) / p
                        &&& o.initial_profit_ppm == spec_profit_ppm(rev, self.spec_buy_cost(p))
                        &&& o.initial_profit_ppm >= 0
                        &&& o.timestamp == timestamp_ms
                    },
                    None => p < 1 || rev <= self.spec_buy_cost(p),
                }
            }),
    {
        let tick = self.pacifica_tick_size;
        let omt = self.fee_factors.one_minus_taker;
        let denom = self.fee_factors.buy_denominator;
        proof {
            lemma_mul_upper_bound(hl_bid as int, MAX_PRICE_MICRO as int, omt as int, RATE_ONE as int);
            lemma_mul_upper_bound(denom as int, 2 * RATE_ONE as int, tick as int, MAX_PRICE_MICRO as int);
            lemma_mul_strictly_positive(denom as int, tick as int);
        }
        let n: u128 = (hl_bid as u128) * (omt as u128);
        let d: u128 = (denom as u128) * (tick as u128);
        let q: u128 = n / d;
        proof {
            lemma_buy_quote_conservative(hl_bid as int, omt as int, denom as int, tick as int);
            lemma_mul_is_commutative(tick as int, q as int);
        }
        let p128: u128 = q * (tick as u128);
        let p: u64 = p128 as u64;
        if p == 0 {
            return None;
        }
        let rev: u128 = n;
        proof {
            lemma_mul_upper_bound(p as int, MAX_PRICE_MICRO as int, self.fee_factors.one_plus_maker as int, 2 * RATE_ONE as int);
        }
        let cost: u128 = (p as u128) * (self.fee_factors.one_plus_maker as u128);
        if rev > cost {
            proof {
                lemma_mul_strictly_positive(p as int, self.fee_factors.one_plus_maker as int);
                lemma_mul_upper_bound(notional_usd as int, MAX_PRICE_MICRO as int, RATE_ONE as int, RATE_ONE as int);
            }
            let size: u128 = (notional_usd as u128) * (RATE_ONE as u128) / (p as u128);
            let profit: i128 = profit_ppm_exec(rev, cost);
            proof {
                lemma_profit_nonneg(rev as int, cost as int);
            }
            Some(Opportunity {
                direction: OrderSide::Buy,
                pacifica_price: p,
                hyperliquid_price: hl_bid,
                size,
                initial_profit_ppm: profit,
                timestamp: timestamp_ms,
            })
        } else {
            None
        }
    }

    /// Evaluate a sell opportunity: quote a maker sell whose fill is hedged
    /// by a taker buy at the hedge-venue ask.
    ///
    /// Returns the opportunity exactly when the tick-rounded quote is a
    /// positive price and the maker revenue strictly exceeds the hedge
    /// cost, i.e. the realized profit after rounding is positive.
    pub fn evaluate_sell_opportunity(
        &self,
        hl_ask: u64,
        notional_usd: u64,
        timestamp_ms: u64,
    ) -> (r: Option<Opportunity>)
        requires
            self.wf(),
            hl_ask <= MAX_PRICE_MICRO,
            notional_usd <= MAX_PRICE_MICRO,
        ensures
            r == self.spec_evaluate_sell(hl_ask as int, notional_usd as int, timestamp_ms),
            ({
                let p = self.spec_sell_quote_of(hl_ask as int);
                let cost = self.spec_sell_cost(hl_ask as int);
                match r {
                    Some(o) => {
                        &&& p >= 1
                        &&& self.spec_sell_revenue(p) > cost
                        &&& o.direction == OrderSide::Sell
                        &&& o.pacifica_price == p
                        &&& o.hyperliquid_price == hl_ask
                        &&& o.size == (notional_usd as int * RATE_ONE as int) / p
                        &&& o.initial_profit_ppm == spec_profit_ppm(self.spec_sell_revenue(p), cost)
                        &&& o.initial_profit_ppm >= 0
                        &&& o.timestamp == timestamp_ms
                    },
                    None => p < 1 || self.spec_sell_revenue(p) <= cost,
                }
            }),
    {
        let tick = self.pacifica_tick_size;
        let opt = self.fee_factors.one_plus_taker;
        let sdenom = self.fee_factors.sell_denominator;
        proof {
            lemma_mul_upper_bound(hl_ask as int, MAX_PRICE_MICRO as int, opt as int, 2 * RATE_ONE as int);
            lemma_mul_upper_bound(sdenom as int, RATE_ONE as int, tick as int, MAX_PRICE_MICRO as int);
            lemma_mul_strictly_positive(sdenom as int, tick as int);
        }
        let n: u128 = (hl_ask as u128) * (opt as u128);
        let d: u128 = (sdenom as u128) * (tick as u128);
        let m: u128 = n + d - 1;
        let q: u128 = m / d;
        proof {
            lemma_sell_quote_conservative(hl_ask as int, opt as int, sdenom as int, tick as int);
            lemma_mul_is_commutative(tick as int, q as int);
            // The quote times a divisor at least RATE_ONE - MAX_RATE_PPM is
            // bounded by ideal plus one tick, so the quote fits in u64.
            let pp = spec_sell_quote(hl_ask as int, opt as int, sdenom as int, tick as int);
            assert(pp * (500_000 as int) <= pp * (sdenom as int)) by {
                if pp > 0 {
                    lemma_mul_left_inequality(pp, 500_000 as int, sdenom as int);
                    lemma_mul_is_commutative(pp, 500_000 as int);
                    lemma_mul_is_commutative(pp, sdenom as int);
                    lemma_mul_is_commutative(500_000 as int, pp);
                    lemma_mul_is_commutative(sdenom as int, pp);
                } else {
                    lemma_mul_is_commutative(pp, 500_000 as int);
                    lemma_mul_is_commutative(pp, sdenom as int);
                    lemma_mul_inequality(500_000 as int, sdenom as int, pp);
                }
            }
            assert(pp <= 6_000_000_000_000_000) by {
                assert(pp * (500_000 as int) <= 3_000_000_000_000_000_000_000);
                assert((6_000_000_000_000_000 as int) * (500_000 as int) == 3_000_000_000_000_000_000_000);
                lemma_mul_inequality_converse(pp, 6_000_000_000_000_000, 500_000 as int);
            }
        }
        let p128: u128 = q * (tick as u128);
        let p: u64 = p128 as u64;
        if p == 0 {
            return None;
        }
        proof {
            // A positive quote forces a positive ask: revenue to divide by
            // below is then positive as well.
            if hl_ask == 0 {
                lemma_mul_by_zero_is_zero(opt as int);
                assert(n == 0);
                assert(m == d - 1);
                lemma_basic_div(m as int, d as int);
                assert(q == 0);
                lemma_mul_by_zero_is_zero(tick as int);
                assert(p128 == 0);
                assert(false);
            }
            lemma_mul_strictly_positive(hl_ask as int, opt as int);
            lemma_mul_upper_bound(p as int, 6_000_000_000_000_000, self.fee_factors.one_minus_maker as int, RATE_ONE as int);
        }
        let rev: u128 = (p as u128) * (self.fee_factors.one_minus_maker as u128);
        let cost: u128 = n;
        if rev > cost {
            proof {
                lemma_mul_upper_bound(notional_usd as int, MAX_PRICE_MICRO as int, RATE_ONE as int, RATE_ONE as int);
            }
            let size: u128 = (notional_usd as u128) * (RATE_ONE as u128) / (p as u128);
            let profit: i128 = profit_ppm_exec(rev, cost);
            proof {
                lemma_profit_nonneg(rev as int, cost as int);
            }
            Some(Opportunity {
                direction: OrderSide::Sell,
                pacifica_price: p,
                hyperliquid_price: hl_ask,
                size,
                initial_profit_ppm: profit,
                timestamp: timestamp_ms,
            })
        } else {
            None
        }
    }

    /// Recompute the profit, in ppm of cost, of holding a maker order at
    /// `pacifica_price` while the hedge venue quotes the given top of book.
    /// Used by the monitor without materializing an `Opportunity`.
    pub fn recalculate_profit_raw(
        &self,
        direction: OrderSide,
        pacifica_price: u64,
        current_hl_bid: u64,
        current_hl_ask: u64,
    ) -> (r: i128)
        requires
            self.wf(),
            1 <= pacifica_price <= MAX_PRICE_MICRO,
            current_hl_bid <= MAX_PRICE_MICRO,
            current_hl_ask <= MAX_PRICE_MICRO,
            direction matches OrderSide::Sell ==> current_hl_ask >= 1,
        ensures
            r == self.spec_profit(
                direction,
                pacifica_price as int,
                current_hl_bid as int,
                current_hl_ask as int,
            ),
            -(RATE_ONE as int) <= r <= MAX_PROFIT_PPM_ABS,
    {
        match direction {
            OrderSide::Buy => {
                proof {
                    lemma_mul_upper_bound(current_hl_bid as int, MAX_PRICE_MICRO as int, self.fee_factors.one_minus_taker as int, RATE_ONE as int);
                    lemma_mul_upper_bound(pacifica_price as int, MAX_PRICE_MICRO as int, self.fee_factors.one_plus_maker as int, 2 * RATE_ONE as int);
                    lemma_mul_strictly_positive(pacifica_price as int, self.fee_factors.one_plus_maker as int);
                    lemma_mul_nonnegative(current_hl_bid as int, self.fee_factors.one_minus_taker as int);
                    lemma_profit_ppm_bounds(
                        current_hl_bid as int * self.fee_factors.one_minus_taker as int,
                        pacifica_price as int * self.fee_factors.one_plus_maker as int,
                    );
                    lemma_mul_upper_bound(
                        current_hl_bid as int * self.fee_factors.one_minus_taker as int,
                        MAX_PRICE_MICRO as int * RATE_ONE as int,
                        RATE_ONE as int,
                        RATE_ONE as int,
                    );
                }
                let buy_revenue: u128 = (current_hl_bid as u128) * (self.fee_factors.one_minus_taker as u128);
                let buy_cost: u128 = (pacifica_price as u128) * (self.fee_factors.one_plus_maker as u128);
                profit_ppm_exec(buy_revenue, buy_cost)
            }
            OrderSide::Sell => {
                proof {
                    lemma_mul_upper_bound(pacifica_price as int, MAX_PRICE_MICRO as int, self.fee_factors.one_minus_maker as int, RATE_ONE as int);
                    lemma_mul_upper_bound(current_hl_ask as int, MAX_PRICE_MICRO as int, self.fee_factors.one_plus_taker as int, 2 * RATE_ONE as int);
                    lemma_mul_strictly_positive(current_hl_ask as int, self.fee_factors.one_plus_taker as int);
                    lemma_mul_nonnegative(pacifica_price as int, self.fee_factors.one_minus_maker as int);
                    lemma_profit_ppm_bounds(
                        pacifica_price as int * self.fee_factors.one_minus_maker as int,
                        current_hl_ask as int * self.fee_factors.one_plus_taker as int,
                    );
                    lemma_mul_upper_bound(
                        pacifica_price as int * self.fee_factors.one_minus_maker as int,
                        MAX_PRICE_MICRO as int * RATE_ONE as int,
                        RATE_ONE as int,
                        RATE_ONE as int,
                    );
                }
                let sell_revenue: u128 = (pacifica_price as u128) * (self.fee_factors.one_minus_maker as u128);
                let sell_cost: u128 = (current_hl_ask as u128) * (self.fee_factors.one_plus_taker as u128);
                profit_ppm_exec(sell_revenue, sell_cost)
            }
        }
    }

    /// Recompute the profit of an existing opportunity against current
    /// hedge-venue prices.  Returns the same value as
    /// `recalculate_profit_raw` on the opportunity's direction and price.
    pub fn recalculate_profit(
        &self,
        opportunity: &Opportunity,
        current_hl_bid: u64,
        current_hl_ask: u64,
    ) -> (r: i128)
        requires
            self.wf(),
            1 <= opportunity.pacifica_price <= MAX_PRICE_MICRO,
            current_hl_bid <= MAX_PRICE_MICRO,
            current_hl_ask <= MAX_PRICE_MICRO,
            opportunity.direction matches OrderSide::Sell ==> current_hl_ask >= 1,
        ensures
            r == self.spec_profit(
                opportunity.direction,
                opportunity.pacifica_price as int,
                current_hl_bid as int,
                current_hl_ask as int,
            ),
    {
        self.recalculate_profit_raw(
            opportunity.direction,
            opportunity.pacifica_price,
            current_hl_bid,
            current_hl_ask,
        )
    }

    /// Pick the better of a buy and a sell opportunity: the one whose
    /// price is closer to the maker-venue mid; on an exact tie, the one
    /// with the higher profit, preferring the sell on a full tie.
    pub fn pick_best_opportunity(
        buy_opp: Option<Opportunity>,
        sell_opp: Option<Opportunity>,
        pac_mid: u64,
    ) -> (r: Option<Opportunity>)
        ensures
            r == spec_pick_best(buy_opp, sell_opp, pac_mid as int),
            ({
                match (buy_opp, sell_opp) {
                    (Some(b), Some(s)) => {
                        let bd = spec_abs_diff(pac_mid as int, b.pacifica_price as int);
                        let sd = spec_abs_diff(s.pacifica_price as int, pac_mid as int);
                        if bd < sd {
                            r == Some(b)
                        } else if sd < bd {
                            r == Some(s)
                        } else if b.initial_profit_ppm > s.initial_profit_ppm {
                            r == Some(b)
                        } else {
                            r == Some(s)
                        }
                    },
                    (Some(b), None) => r == Some(b),
                    (None, Some(s)) => r == Some(s),
                    (None, None) => r is None,
                }
            }),
    {
        match (buy_opp, sell_opp) {
            (Some(b), Some(s)) => {
                let buy_distance: u64 = if pac_mid >= b.pacifica_price {
                    pac_mid - b.pacifica_price
                } else {
                    b.pacifica_price - pac_mid
                };
                let sell_distance: u64 = if s.pacifica_price >= pac_mid {
                    s.pacifica_price - pac_mid
                } else {
                    pac_mid - s.pacifica_price
                };
                if buy_distance < sell_distance {
                    Some(b)
                } else if sell_distance < buy_distance {
                    Some(s)
                } else {
                    if b.initial_profit_ppm > s.initial_profit_ppm {
                        Some(b)
                    } else {
                        Some(s)
                    }
                }
            }
            (Some(b), None) => Some(b),
            (None, Some(s)) => Some(s),
            (None, None) => None,
        }
    }
}

impl OpportunityEvaluator {
    /// One pass of the evaluation path, run on each price tick: evaluate
    /// a buy against the hedge bid and a sell against the hedge ask, and
    /// pick the one closer to the maker mid.  An unpopulated price cell
    /// on either venue suppresses the evaluation entirely.
    pub fn evaluate_cycle(
        &self,
        pac_bid: u64,
        pac_ask: u64,
        hl_bid: u64,
        hl_ask: u64,
        notional_usd: u64,
        timestamp_ms: u64,
    ) -> (r: Option<Opportunity>)
        requires
            self.wf(),
            pac_bid <= MAX_PRICE_MICRO,
            pac_ask <= MAX_PRICE_MICRO,
            hl_bid <= MAX_PRICE_MICRO,
            hl_ask <= MAX_PRICE_MICRO,
            notional_usd <= MAX_PRICE_MICRO,
        ensures
            pac_bid == 0 || pac_ask == 0 || hl_bid == 0 || hl_ask == 0 ==> r is None,
            pac_bid != 0 && pac_ask != 0 && hl_bid != 0 && hl_ask != 0 ==> r == spec_pick_best(
                self.spec_evaluate_buy(hl_bid as int, notional_usd as int, timestamp_ms),
                self.spec_evaluate_sell(hl_ask as int, notional_usd as int, timestamp_ms),
                ((pac_bid + pac_ask) / 2) as int,
            ),
    {
        if pac_bid == 0 || pac_ask == 0 || hl_bid == 0 || hl_ask == 0 {
            return None;
        }
        let buy_opp = self.evaluate_buy_opportunity(hl_bid, notional_usd, timestamp_ms);
        let sell_opp = self.evaluate_sell_opportunity(hl_ask, notional_usd, timestamp_ms);
        let pac_mid: u64 = (pac_bid + pac_ask) / 2;
        Self::pick_best_opportunity(buy_opp, sell_opp, pac_mid)
    }
}

/// Rounding is conservative on the buy side: the evaluator's buy quote
/// is a multiple of the venue tick, never exceeds the unrounded ideal
/// (stated multiplied out over the stored factors), and never exceeds
/// the hedge bid itself.
pub proof fn lemma_buy_quote_rounding(ev: OpportunityEvaluator, hl_bid: int)
    requires
        ev.wf(),
        hl_bid >= 0,
    ensures
        ev.spec_buy_quote_of(hl_bid) % (ev.pacifica_tick_size as int) == 0,
        ev.spec_buy_quote_of(hl_bid) * (ev.fee_factors.buy_denominator as int)
            <= hl_bid * (ev.fee_factors.one_minus_taker as int),
        0 <= ev.spec_buy_quote_of(hl_bid) <= hl_bid,
{
    lemma_buy_quote_conservative(
        hl_bid,
        ev.fee_factors.one_minus_taker as int,
        ev.fee_factors.buy_denominator as int,
        ev.pacifica_tick_size as int,
    );
}

/// Rounding is conservative on the sell side: the evaluator's sell quote
/// is a multiple of the venue tick and never falls below the unrounded
/// ideal; rounding up costs at most one tick.
pub proof fn lemma_sell_quote_rounding(ev: OpportunityEvaluator, hl_ask: int)
    requires
        ev.wf(),
        hl_ask >= 0,
    ensures
        ev.spec_sell_quote_of(hl_ask) % (ev.pacifica_tick_size as int) == 0,
        ev.spec_sell_quote_of(hl_ask) * (ev.fee_factors.sell_denominator as int)
            >= hl_ask * (ev.fee_factors.one_plus_taker as int),
        ev.spec_sell_quote_of(hl_ask) * (ev.fee_factors.sell_denominator as int)
            <= hl_ask * (ev.fee_factors.one_plus_taker as int)
                + (ev.fee_factors.sell_denominator as int) * (ev.pacifica_tick_size as int),
        ev.spec_sell_quote_of(hl_ask) >= 0,
{
    lemma_sell_quote_conservative(
        hl_ask,
        ev.fee_factors.one_plus_taker as int,
        ev.fee_factors.sell_denominator as int,
        ev.pacifica_tick_size as int,
    );
}

/// The buy quote leaves the full profit margin whenever the maker fee and
/// the profit rate are not both positive: written multiplied out,
/// `quote * (1 + maker) * (1 + profit) <= hl_bid * (1 - taker) * 1`.
/// With both rates positive the inequality can fail by the cross term
/// `maker * profit` when the ideal price lands exactly on a tick.
pub proof fn lemma_buy_quote_fee_bound(ev: OpportunityEvaluator, hl_bid: int)
    requires
        ev.wf(),
        hl_bid >= 0,
        ev.maker_fee_ppm * ev.profit_rate_ppm == 0,
    ensures
        ev.spec_buy_quote_of(hl_bid) * ((RATE_ONE + ev.maker_fee_ppm) as int) * ((RATE_ONE + ev.profit_rate_ppm) as int)
            <= hl_bid * ((RATE_ONE - ev.taker_fee_ppm) as int) * (RATE_ONE as int),
{
    let p = ev.spec_buy_quote_of(hl_bid);
    let maker = ev.maker_fee_ppm as int;
    let profit = ev.profit_rate_ppm as int;
    let one = RATE_ONE as int;
    let denom = ev.fee_factors.buy_denominator as int;
    let omt = ev.fee_factors.one_minus_taker as int;
    lemma_buy_quote_conservative(hl_bid, omt, denom, ev.pacifica_tick_size as int);
    assert(p * denom <= hl_bid * omt);
    assert((one + maker) * (one + profit) == one * denom) by (nonlinear_arith)
        requires
            maker * profit == 0,
            denom == one + maker + profit,
    ;
    assert(p * (one + maker) * (one + profit) == (p * denom) * one) by (nonlinear_arith)
        requires
            (one + maker) * (one + profit) == one * denom,
    ;
    lemma_mul_inequality(p * denom, hl_bid * omt, one);
}

/// Raising the hedge bid never lowers the recomputed buy-side profit:
/// the monitor's deviation check reacts monotonically to price moves.
pub proof fn lemma_buy_profit_monotone(
    ev: OpportunityEvaluator,
    p: int,
    bid1: int,
    bid2: int,
    ask: int,
)
    requires
        ev.wf(),
        p >= 1,
        0 <= bid1 <= bid2,
    ensures
        ev.spec_profit(OrderSide::Buy, p, bid1, ask) <= ev.spec_profit(OrderSide::Buy, p, bid2, ask),
{
    let omt = ev.fee_factors.one_minus_taker as int;
    let opm = ev.fee_factors.one_plus_maker as int;
    lemma_mul_inequality(bid1, bid2, omt);
    lemma_mul_strictly_positive(p, opm);
    lemma_profit_monotone_in_revenue(bid1 * omt, bid2 * omt, p * opm);
}

} // verus!
