use market_frame::{DataFrame, KlineRow, TickerRow};

#[test]
fn from_kline_row_carries_only_the_bar_stream() {
    let row = KlineRow::new(10, 9, 12, 7, 100, 0, 60);
    let df = DataFrame::from_kline_row(row);
    let kline = df.kline.expect("the bar stream must be present");
    assert_eq!(kline.length(), 1);
    assert_eq!(kline.rows()[0], row);
    assert!(df.ticker.is_none());
}

#[test]
fn from_ticker_row_carries_only_the_quote_stream() {
    let row = TickerRow::new(99, 50, 101, 60);
    let df = DataFrame::from_ticker_row(row);
    let ticker = df.ticker.expect("the quote stream must be present");
    assert_eq!(ticker.length(), 1);
    assert_eq!(ticker.rows()[0], row);
    assert!(df.kline.is_none());
}

#[test]
fn the_two_streams_grow_independently() {
    let bar = KlineRow::new(10, 9, 12, 7, 100, 0, 60);
    let mut df = DataFrame::from_kline_row(bar);
    let mut kline = df.kline.take().expect("the bar stream must be present");
    kline.extend(KlineRow::new(20, 19, 22, 17, 100, 60, 120));
    kline.extend(KlineRow::new(30, 29, 32, 27, 100, 120, 180));
    df.kline = Some(kline);
    assert_eq!(df.kline.as_ref().map(|k| k.length()), Some(3));
    assert!(df.ticker.is_none());
}
