use vstd::prelude::*;

verus! {

/// One book-ticker observation: the best bid and ask with their sizes.
///
/// Prices and quantities are fixed-point 64-bit integers (the caller
/// picks the tick size). A row is immutable once constructed and has
/// plain value semantics.
#[derive(Debug, Clone, Copy, PartialEq, Eq, Structural)]
pub struct TickerRow {
    /// Best bid price.
    pub bid_price: i64,
    /// Quantity offered at the best bid.
    pub bid_qty: i64,
    /// Best ask price.
    pub ask_price: i64,
    /// Quantity offered at the best ask.
    pub ask_qty: i64,
}

impl TickerRow {
    /// Builds a row from its four fields.
    pub fn new(bid_price: i64, bid_qty: i64, ask_price: i64, ask_qty: i64) -> (r: Self)
        ensures
            r == (TickerRow { bid_price, bid_qty, ask_price, ask_qty }),
    {
        Self { bid_price, bid_qty, ask_price, ask_qty }
    }

    /// Best bid price.
    pub fn bid_price(&self) -> (v: i64)
        ensures
            v == self.bid_price,
    {
        self.bid_price
    }

    /// Quantity offered at the best bid.
    pub fn bid_qty(&self) -> (v: i64)
        ensures
            v == self.bid_qty,
    {
        self.bid_qty
    }

    /// Best ask price.
    pub fn ask_price(&self) -> (v: i64)
        ensures
            v == self.ask_price,
    {
        self.ask_price
    }

    /// Quantity offered at the best ask.
    pub fn ask_qty(&self) -> (v: i64)
        ensures
            v == self.ask_qty,
    {
        self.ask_qty
    }
}

} // verus!
