use market_frame::{Ticker, TickerRow};

fn quote(bid: i64, ask: i64) -> TickerRow {
    TickerRow::new(bid, 50, ask, 60)
}

#[test]
fn ticker_from_row_starts_at_length_one() {
    let row = quote(99, 101);
    let t = Ticker::from_row(row);
    assert_eq!(t.length(), 1);
    assert_eq!(t.height(), 1);
    assert_eq!(t.rows().len(), 1);
    assert_eq!(t.rows()[0], row);
}

#[test]
fn ticker_extend_appends_the_row_everywhere() {
    let mut t = Ticker::from_row(quote(99, 101));
    t.extend(quote(100, 102));
    assert_eq!(t.length(), 2);
    assert_eq!(t.height(), 2);
    assert_eq!(t.rows()[1], quote(100, 102));
    assert_eq!(t.bid_price().values(), vec![99, 100]);
    assert_eq!(t.ask_price().values(), vec![101, 102]);
    assert_eq!(t.bid_qty().values(), vec![50, 50]);
    assert_eq!(t.ask_qty().values(), vec![60, 60]);
}

#[test]
fn ticker_replace_touches_exactly_one_position() {
    let mut t = Ticker::from_row(quote(99, 101));
    t.extend(quote(100, 102));
    t.extend(quote(101, 103));
    t.replace(1, quote(98, 104));
    assert_eq!(t.rows()[0], quote(99, 101));
    assert_eq!(t.rows()[1], quote(98, 104));
    assert_eq!(t.rows()[2], quote(101, 103));
    assert_eq!(t.bid_price().values(), vec![99, 98, 101]);
    assert_eq!(t.length(), 3);
}

#[test]
fn ticker_slice_narrows_rows_and_columns_together() {
    let mut t = Ticker::from_row(quote(99, 101));
    t.extend(quote(100, 102));
    t.extend(quote(101, 103));
    t.slice(1, 3);
    assert_eq!(t.length(), 2);
    assert_eq!(t.height(), 2);
    assert_eq!(t.rows()[0], quote(100, 102));
    assert_eq!(t.ask_price().values(), vec![102, 103]);
}

#[test]
fn ticker_slice_to_the_empty_window_succeeds() {
    let mut t = Ticker::from_row(quote(99, 101));
    t.slice(0, 0);
    assert_eq!(t.length(), 0);
    assert_eq!(t.height(), 0);
    assert!(t.rows().is_empty());
}

#[test]
fn ticker_lengths_agree_after_any_mutation_sequence() {
    let mut t = Ticker::from_row(quote(99, 101));
    t.extend(quote(100, 102));
    t.replace(0, quote(97, 105));
    t.slice(0, 1);
    t.extend(quote(96, 106));
    assert_eq!(t.length(), t.height());
    assert_eq!(t.length(), t.rows().len());
    assert_eq!(t.bid_qty().length(), t.length());
}

#[test]
fn ticker_row_accessors_return_the_fields() {
    let row = TickerRow::new(1, 2, 3, 4);
    assert_eq!(row.bid_price(), 1);
    assert_eq!(row.bid_qty(), 2);
    assert_eq!(row.ask_price(), 3);
    assert_eq!(row.ask_qty(), 4);
}
