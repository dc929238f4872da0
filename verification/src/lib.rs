//! A small columnar store for market data.
//!
//! Trade bars and book-ticker quotes are kept as time-aligned columns
//! (`Series`) bundled into aggregates (`Kline`, `Ticker`, `DataFrame`)
//! that stay length-synchronized under every mutation. Prices and
//! quantities are carried as fixed-point 64-bit integers (a caller picks
//! the tick size), so that every operation, including the crossing-signal
//! detection, has an exact arithmetic meaning.

mod frame;
mod kline;
mod kline_row;
mod scalar;
mod series;
mod ticker;
mod ticker_row;

pub use frame::DataFrame;
pub use kline::Kline;
pub use kline_row::KlineRow;
pub use scalar::Scalar;
pub use series::Series;
pub use ticker::Ticker;
pub use ticker_row::TickerRow;
