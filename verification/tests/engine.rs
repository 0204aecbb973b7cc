use tradebot::alpaca_api::{refresh_ledger, APIThreadReq, BrokerOrder, OrderSide};
use tradebot::config::{ApiKeys, BotConfig, EngineConfig, Stock};
use tradebot::price::{affordable_qty, check_pct_move_at_least, check_pct_move_at_most, PRICE_SCALE};
use tradebot::snapshot::{decode_snapshot, encode_snapshot};
use tradebot::stock_monitor::StockMonitor;
use tradebot::stock_ticker_loop::{market_day, time_check, Pacer};

#[test]
fn pacer_pauses_after_every_window() {
    // Ten queued items against a pacing window of four: exactly four
    // dispatches go out before the first pause, and pauses recur at every
    // further multiple of four.
    let mut pacer = Pacer::new(4);
    let mut pauses: Vec<bool> = Vec::new();
    for _ in 0..10 {
        pauses.push(pacer.step());
    }
    assert_eq!(
        pauses,
        vec![false, false, false, false, true, false, false, false, true, false]
    );
}

#[test]
fn pacer_window_of_one_paces_every_further_item() {
    let mut pacer = Pacer::new(1);
    assert!(!pacer.step());
    assert!(pacer.step());
    assert!(pacer.step());
}

#[test]
fn market_day_gates_weekends() {
    assert!(market_day(0));
    assert!(market_day(4));
    assert!(!market_day(5));
    assert!(!market_day(6));
}

#[test]
fn time_check_reports_clock_consistently() {
    let (open, reading) = time_check();
    assert!(reading.weekday_from_monday <= 6);
    assert!(reading.hour <= 23);
    assert_eq!(open, reading.weekday_from_monday <= 4);
}

#[test]
fn buy_request_becomes_buy_order() {
    let req = APIThreadReq::ApiBuyStock { symbol: "AAPL".to_string(), quantity: 7 };
    let BrokerOrder { symbol, side, quantity } = req.to_order();
    assert_eq!(symbol, "AAPL");
    assert_eq!(side, OrderSide::Buy);
    assert_eq!(quantity, 7);
}

#[test]
fn sell_request_becomes_sell_order() {
    let req = APIThreadReq::ApiSellStock { symbol: "MSFT".to_string(), quantity: 3 };
    let order = req.to_order();
    assert_eq!(order.symbol, "MSFT");
    assert_eq!(order.side, OrderSide::Sell);
    assert_eq!(order.quantity, 3);
}

#[test]
fn ledger_takes_fetched_balance() {
    let mut assets: i64 = 5 * PRICE_SCALE;
    refresh_ledger(&mut assets, Some(123 * PRICE_SCALE));
    assert_eq!(assets, 123 * PRICE_SCALE);
}

#[test]
fn ledger_keeps_balance_when_fetch_fails() {
    let mut assets: i64 = 5 * PRICE_SCALE;
    refresh_ledger(&mut assets, None);
    assert_eq!(assets, 5 * PRICE_SCALE);
    refresh_ledger(&mut assets, Some(-1));
    assert_eq!(assets, 5 * PRICE_SCALE);
}

#[test]
fn percentage_guards_are_exact_at_the_threshold() {
    let basis = 100 * PRICE_SCALE;
    // -5% of 100 is exactly 95.
    assert!(check_pct_move_at_most(basis, 95 * PRICE_SCALE, -5 * PRICE_SCALE));
    assert!(!check_pct_move_at_most(basis, 95 * PRICE_SCALE + 1, -5 * PRICE_SCALE));
    assert!(check_pct_move_at_least(basis, 150 * PRICE_SCALE, 50 * PRICE_SCALE));
    assert!(!check_pct_move_at_least(basis, 150 * PRICE_SCALE - 1, 50 * PRICE_SCALE));
}

#[test]
fn affordable_qty_floors_and_caps() {
    assert_eq!(affordable_qty(1000 * PRICE_SCALE, 300 * PRICE_SCALE, 10), 3);
    assert_eq!(affordable_qty(1000 * PRICE_SCALE, 300 * PRICE_SCALE, 2), 2);
    assert_eq!(affordable_qty(299 * PRICE_SCALE, 300 * PRICE_SCALE, 10), 0);
}

#[test]
fn stored_snapshot_bytes_roundtrip() {
    let m = StockMonitor::new(
        "AAPL".to_string(),
        false,
        "Support and Resist".to_string(),
        5 * PRICE_SCALE,
        None,
        10,
    );
    let snap = m.save_state();
    let bytes = encode_snapshot(&snap);
    let decoded = decode_snapshot(bytes.as_slice()).expect("own encoding must decode");
    assert_eq!(decoded.bought_stock, snap.bought_stock);
    assert_eq!(decoded.buy_price, snap.buy_price);
    assert_eq!(decoded.strat_bytes, snap.strat_bytes);
    assert_eq!(decoded.strat_name, snap.strat_name);
    assert_eq!(decoded.buy_time, snap.buy_time);
    assert_eq!(decoded.how_much, snap.how_much);
}

#[test]
fn garbage_snapshot_bytes_decode_to_none() {
    assert!(decode_snapshot(&[]).is_none());
    assert!(decode_snapshot(&[7; 10]).is_none());
    assert!(decode_snapshot(&[255; 64]).is_none());
}

#[test]
fn configured_stock_becomes_its_monitor() {
    let stock = Stock {
        symbol: "AAPL".to_string(),
        strategy: "Two Moving Averages".to_string(),
        emergency_limit: 5 * PRICE_SCALE,
        upper_limit: Some(20 * PRICE_SCALE),
        intensity: 4,
    };
    assert_eq!(stock.get_symbol(), "AAPL");
    let m = stock.convert(true);
    assert_eq!(m.symbol, "AAPL");
    assert!(m.backtest_mode);
    assert!(!m.bought_stock);
    assert_eq!(m.emergency_margin_limit, -5 * PRICE_SCALE);
    assert_eq!(m.upper_limit, Some(20 * PRICE_SCALE));
    assert_eq!(m.intensity, 4);
}

#[test]
fn bot_config_holds_plain_values() {
    let config = BotConfig {
        keys: ApiKeys {
            alpaca_key_id: "key".to_string(),
            alpaca_key_secret: "secret".to_string(),
            alpaca_base_url: "https://example.invalid".to_string(),
        },
        stocks: vec![Stock {
            symbol: "AAPL".to_string(),
            strategy: "Fibonacci".to_string(),
            emergency_limit: 5 * PRICE_SCALE,
            upper_limit: None,
            intensity: 1,
        }],
        stock_engine_config: EngineConfig { backtest_money: 1_000 * PRICE_SCALE, threads: 4 },
        testing_mode: true,
    };
    assert_eq!(config.stocks.len(), 1);
    assert_eq!(config.stock_engine_config.threads, 4);
    assert!(config.testing_mode);
}
