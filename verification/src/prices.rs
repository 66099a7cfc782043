//! Shared top-of-book price cells.
//!
//! One cell per venue, holding the best bid and ask in millionths of a
//! USD.  `(0, 0)` means "not yet populated"; an unpopulated cell
//! suppresses evaluation, monitoring and cancel decisions alike.  The
//! surrounding process guards each cell with a short-critical-section
//! mutex and writes it from the venue's book stream, broadcasting a tick
//! to wake the evaluators.

use vstd::prelude::*;
use crate::MAX_PRICE_MICRO;

verus! {

/// Top of book of one venue: `(bid, ask)` in millionths of a USD.
#[derive(Debug, Clone, Copy, PartialEq, Eq, Structural)]
pub struct PriceCell {
    /// Best bid; zero until the first update.
    pub bid: u64,
    /// Best ask; zero until the first update.
    pub ask: u64,
}

impl PriceCell {
    /// Both sides have been populated.
    pub open spec fn spec_populated(self) -> bool {
        self.bid != 0 && self.ask != 0
    }

    /// Fresh cell: not yet populated.
    pub fn new() -> (r: Self)
        ensures
            r.bid == 0,
            r.ask == 0,
            !r.spec_populated(),
    {
        PriceCell { bid: 0, ask: 0 }
    }

    /// Overwrite both sides with a fresh top of book.
    pub fn update(&mut self, bid: u64, ask: u64)
        ensures
            final(self).bid == bid,
            final(self).ask == ask,
    {
        self.bid = bid;
        self.ask = ask;
    }

    /// Whether both sides have been populated.
    pub fn is_populated(&self) -> (r: bool)
        ensures
            r == self.spec_populated(),
    {
        self.bid != 0 && self.ask != 0
    }

    /// The midpoint of bid and ask, rounded down.
    pub fn mid(&self) -> (r: u64)
        requires
            self.bid <= MAX_PRICE_MICRO,
            self.ask <= MAX_PRICE_MICRO,
        ensures
            r == (self.bid + self.ask) / 2,
    {
        (self.bid + self.ask) / 2
    }
}

} // verus!
