use market_frame::{Kline, KlineRow};

fn bar(close: i64, start_time: i64) -> KlineRow {
    KlineRow::new(close, close - 1, close + 2, close - 3, 100, start_time, start_time + 60)
}

#[test]
fn from_row_starts_at_length_one() {
    let row = bar(10, 0);
    let k = Kline::from_row(row);
    assert_eq!(k.length(), 1);
    assert_eq!(k.height(), 1);
    assert_eq!(k.rows().len(), 1);
    assert_eq!(k.rows()[0], row);
}

#[test]
fn extend_appends_the_row_everywhere() {
    let first = bar(10, 0);
    let second = bar(20, 60);
    let mut k = Kline::from_row(first);
    k.extend(second);
    assert_eq!(k.length(), 2);
    assert_eq!(k.height(), 2);
    assert_eq!(k.rows().len(), 2);
    assert_eq!(k.rows()[1], second);
    assert_eq!(k.close().values(), vec![10, 20]);
    assert_eq!(k.open().values(), vec![9, 19]);
    assert_eq!(k.high().values(), vec![12, 22]);
    assert_eq!(k.low().values(), vec![7, 17]);
    assert_eq!(k.volume().values(), vec![100, 100]);
    assert_eq!(k.start_time().values(), vec![0, 60]);
    assert_eq!(k.end_time().values(), vec![60, 120]);
}

#[test]
fn replace_touches_exactly_one_position() {
    let mut k = Kline::from_row(bar(10, 0));
    k.extend(bar(20, 60));
    k.extend(bar(30, 120));
    let fix = bar(25, 60);
    k.replace(1, fix);
    assert_eq!(k.rows()[0], bar(10, 0));
    assert_eq!(k.rows()[1], fix);
    assert_eq!(k.rows()[2], bar(30, 120));
    assert_eq!(k.close().values(), vec![10, 25, 30]);
    assert_eq!(k.start_time().values(), vec![0, 60, 120]);
    assert_eq!(k.length(), 3);
    assert_eq!(k.height(), 3);
}

#[test]
fn slice_narrows_rows_and_columns_together() {
    let mut k = Kline::from_row(bar(10, 0));
    k.extend(bar(20, 60));
    k.extend(bar(30, 120));
    k.extend(bar(40, 180));
    k.slice(1, 3);
    assert_eq!(k.length(), 2);
    assert_eq!(k.height(), 2);
    assert_eq!(k.rows()[0], bar(20, 60));
    assert_eq!(k.rows()[1], bar(30, 120));
    assert_eq!(k.close().values(), vec![20, 30]);
    assert_eq!(k.end_time().values(), vec![120, 180]);
}

#[test]
fn slice_to_the_empty_window_succeeds() {
    let mut k = Kline::from_row(bar(10, 0));
    k.slice(0, 0);
    assert_eq!(k.length(), 0);
    assert_eq!(k.height(), 0);
    assert!(k.rows().is_empty());
}

#[test]
fn lengths_agree_after_any_mutation_sequence() {
    let mut k = Kline::from_row(bar(10, 0));
    k.extend(bar(20, 60));
    k.extend(bar(30, 120));
    k.replace(0, bar(11, 0));
    k.slice(0, 2);
    k.extend(bar(40, 180));
    assert_eq!(k.length(), k.height());
    assert_eq!(k.length(), k.rows().len());
    assert_eq!(k.close().length(), k.length());
    assert_eq!(k.volume().length(), k.length());
}

#[test]
fn row_accessors_return_the_fields() {
    let row = KlineRow::new(1, 2, 3, 4, 5, 6, 7);
    assert_eq!(row.close(), 1);
    assert_eq!(row.open(), 2);
    assert_eq!(row.high(), 3);
    assert_eq!(row.low(), 4);
    assert_eq!(row.volume(), 5);
    assert_eq!(row.start_time(), 6);
    assert_eq!(row.end_time(), 7);
}
