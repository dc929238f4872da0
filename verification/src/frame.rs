use vstd::prelude::*;

use crate::kline::Kline;
use crate::kline_row::KlineRow;
use crate::ticker::Ticker;
use crate::ticker_row::TickerRow;

verus! {

/// The top-level container: an optional trade-bar stream and an
/// optional book-ticker stream.
///
/// The two streams record different event flows, so their lengths are
/// independent; the only invariant is each stream's own
/// well-formedness.
#[derive(Debug, Clone)]
pub struct DataFrame {
    /// The trade-bar stream, if this frame carries one.
    pub kline: Option<Kline>,
    /// The book-ticker stream, if this frame carries one.
    pub ticker: Option<Ticker>,
}

impl DataFrame {
    /// Well-formed: each stream that is present is well-formed.
    pub open spec fn wf(&self) -> bool {
        &&& match self.kline {
            Some(k) => k.wf(),
            None => true,
        }
        &&& match self.ticker {
            Some(t) => t.wf(),
            None => true,
        }
    }

    /// A frame holding a single-row trade-bar stream and no book-ticker
    /// stream.
    pub fn from_kline_row(row: KlineRow) -> (d: Self)
        ensures
            d.wf(),
            d.kline is Some,
            d.kline->0@ == seq![row],
            d.ticker is None,
    {
        DataFrame { kline: Some(Kline::from_row(row)), ticker: None }
    }

    /// A frame holding a single-row book-ticker stream and no trade-bar
    /// stream.
    pub fn from_ticker_row(row: TickerRow) -> (d: Self)
        ensures
            d.wf(),
            d.ticker is Some,
            d.ticker->0@ == seq![row],
            d.kline is None,
    {
        DataFrame { kline: None, ticker: Some(Ticker::from_row(row)) }
    }
}

} // verus!

