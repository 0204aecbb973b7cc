use tradebot::backtest_data::{load_backtest_bars, parse_amount, row_to_bar};
use tradebot::price::PRICE_SCALE;

#[test]
fn parse_amount_whole_numbers() {
    assert_eq!(parse_amount(b"0"), Some(0));
    assert_eq!(parse_amount(b"7"), Some(7 * PRICE_SCALE));
    assert_eq!(parse_amount(b"123"), Some(123 * PRICE_SCALE));
    assert_eq!(parse_amount(b"007"), Some(7 * PRICE_SCALE));
}

#[test]
fn parse_amount_decimals() {
    assert_eq!(parse_amount(b"10.5"), Some(105_000));
    assert_eq!(parse_amount(b"123.4567"), Some(1_234_567));
    assert_eq!(parse_amount(b"0.0001"), Some(1));
    assert_eq!(parse_amount(b"2.25"), Some(22_500));
}

#[test]
fn parse_amount_truncates_past_four_places() {
    assert_eq!(parse_amount(b"123.45678"), Some(1_234_567));
    assert_eq!(parse_amount(b"0.00009"), Some(0));
}

#[test]
fn parse_amount_rejects_malformed_fields() {
    assert_eq!(parse_amount(b""), None);
    assert_eq!(parse_amount(b"."), None);
    assert_eq!(parse_amount(b".5"), None);
    assert_eq!(parse_amount(b"12."), None);
    assert_eq!(parse_amount(b"1.2.3"), None);
    assert_eq!(parse_amount(b"12a"), None);
    assert_eq!(parse_amount(b"-5"), None);
    assert_eq!(parse_amount(b"1e5"), None);
    assert_eq!(parse_amount(b" 12"), None);
}

#[test]
fn parse_amount_rejects_out_of_range_values() {
    // The largest representable price is one million dollars.
    assert_eq!(parse_amount(b"1000000"), Some(1_000_000 * PRICE_SCALE));
    assert_eq!(parse_amount(b"1000001"), None);
    assert_eq!(parse_amount(b"1000000.0001"), None);
    assert_eq!(parse_amount(b"99999999999999999999"), None);
}

#[test]
fn row_with_six_fields_becomes_a_bar() {
    let row: Vec<Vec<u8>> = vec![
        b"2021-03-01".to_vec(),
        b"10".to_vec(),
        b"11.5".to_vec(),
        b"9.25".to_vec(),
        b"10.75".to_vec(),
        b"123456".to_vec(),
    ];
    let bar = row_to_bar(&row).expect("well-formed row");
    assert_eq!(bar.open, 100_000);
    assert_eq!(bar.high, 115_000);
    assert_eq!(bar.low, 92_500);
    assert_eq!(bar.close, 107_500);
    assert_eq!(bar.volume, 123456 * PRICE_SCALE);
}

#[test]
fn row_with_zero_close_is_rejected() {
    let row: Vec<Vec<u8>> = vec![
        b"2021-03-01".to_vec(),
        b"10".to_vec(),
        b"11".to_vec(),
        b"9".to_vec(),
        b"0".to_vec(),
        b"100".to_vec(),
    ];
    assert!(row_to_bar(&row).is_none());
}

#[test]
fn row_with_wrong_field_count_is_rejected() {
    let row: Vec<Vec<u8>> = vec![b"2021-03-01".to_vec(), b"10".to_vec()];
    assert!(row_to_bar(&row).is_none());
}

#[test]
fn csv_file_loads_into_bars() {
    let data = b"Date,Open,High,Low,Close,Volume\n\
2021-03-01,10,11.5,9.25,10.75,123456\n\
2021-03-02,10.75,12,10,11.5,98765\n";
    let bars = load_backtest_bars(data).expect("well-formed file");
    assert_eq!(bars.len(), 2);
    assert_eq!(bars[0].close, 107_500);
    assert_eq!(bars[1].close, 115_000);
    assert_eq!(bars[1].open, 107_500);
    assert_eq!(bars[1].volume, 98765 * PRICE_SCALE);
}

#[test]
fn csv_header_only_file_is_empty() {
    let bars = load_backtest_bars(b"Date,Open,High,Low,Close,Volume\n").expect("header only");
    assert!(bars.is_empty());
}

#[test]
fn csv_with_bad_price_field_is_rejected() {
    let data = b"Date,Open,High,Low,Close,Volume\n2021-03-01,ten,11,9,10,100\n";
    assert!(load_backtest_bars(data).is_none());
}
