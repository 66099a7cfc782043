//! Order side on the maker venue, and its inverse for hedging.

use vstd::prelude::*;

verus! {

/// Side of an order: buy or sell.
#[derive(Debug, Clone, Copy, PartialEq, Eq, Structural)]
pub enum OrderSide {
    Buy,
    Sell,
}

impl OrderSide {
    /// String form used in order submissions and logs.
    pub fn as_str(&self) -> (r: &'static str)
        ensures
            *self matches OrderSide::Buy ==> r@ == "BUY"@,
            *self matches OrderSide::Sell ==> r@ == "SELL"@,
    {
        match self {
            OrderSide::Buy => "BUY",
            OrderSide::Sell => "SELL",
        }
    }

    /// The opposite side: a fill on one side is hedged by a taker order
    /// on the other.
    pub fn opposite(&self) -> (r: OrderSide)
        ensures
            r == self.spec_opposite(),
    {
        match self {
            OrderSide::Buy => OrderSide::Sell,
            OrderSide::Sell => OrderSide::Buy,
        }
    }

    /// The opposite side, as a specification-level function.
    pub open spec fn spec_opposite(self) -> OrderSide {
        match self {
            OrderSide::Buy => OrderSide::Sell,
            OrderSide::Sell => OrderSide::Buy,
        }
    }
}

} // verus!
