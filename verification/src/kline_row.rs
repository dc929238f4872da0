use vstd::prelude::*;

verus! {

/// One trade-bar observation: open/high/low/close/volume over the time
/// interval `[start_time, end_time]`.
///
/// Prices and the volume are fixed-point 64-bit integers (the caller
/// picks the tick size); the timestamps are 64-bit integers. A row is
/// immutable once constructed and has plain value semantics.
#[derive(Debug, Clone, Copy, PartialEq, Eq, Structural)]
pub struct KlineRow {
    /// Closing price of the interval.
    pub close: i64,
    /// Opening price of the interval.
    pub open: i64,
    /// Highest price seen in the interval.
    pub high: i64,
    /// Lowest price seen in the interval.
    pub low: i64,
    /// Traded volume over the interval.
    pub volume: i64,
    /// Start of the interval.
    pub start_time: i64,
    /// End of the interval.
    pub end_time: i64,
}

impl KlineRow {
    /// Builds a row from its seven fields.
    pub fn new(
        close: i64,
        open: i64,
        high: i64,
        low: i64,
        volume: i64,
        start_time: i64,
        end_time: i64,
    ) -> (r: Self)
        ensures
            r == (KlineRow { close, open, high, low, volume, start_time, end_time }),
    {
        Self { close, open, high, low, volume, start_time, end_time }
    }

    /// Start of the interval.
    pub fn start_time(&self) -> (v: i64)
        ensures
            v == self.start_time,
    {
        self.start_time
    }

    /// End of the interval.
    pub fn end_time(&self) -> (v: i64)
        ensures
            v == self.end_time,
    {
        self.end_time
    }

    /// Opening price of the interval.
    pub fn open(&self) -> (v: i64)
        ensures
            v == self.open,
    {
        self.open
    }

    /// Highest price seen in the interval.
    pub fn high(&self) -> (v: i64)
        ensures
            v == self.high,
    {
        self.high
    }

    /// Lowest price seen in the interval.
    pub fn low(&self) -> (v: i64)
        ensures
            v == self.low,
    {
        self.low
    }

    /// Closing price of the interval.
    pub fn close(&self) -> (v: i64)
        ensures
            v == self.close,
    {
        self.close
    }

    /// Traded volume over the interval.
    pub fn volume(&self) -> (v: i64)
        ensures
            v == self.volume,
    {
        self.volume
    }
}

} // verus!
