use tradebot::alpaca_api::{APIThreadReq, APIThreadRes};
use tradebot::price::{Bar, PRICE_SCALE};
use tradebot::stock_monitor::{RunError, SetStateError, StockMonitor};

fn bar(close: i64) -> Bar {
    Bar { open: close, high: close, low: close, close, volume: 1000 * PRICE_SCALE }
}

fn dollars(x: i64) -> i64 {
    x * PRICE_SCALE
}

fn pct(x: i64) -> i64 {
    x * PRICE_SCALE
}

fn sma_monitor() -> StockMonitor {
    StockMonitor::new(
        "AAPL".to_string(),
        false,
        "Single Moving Average".to_string(),
        pct(5),
        Some(pct(50)),
        10,
    )
}

/// Drive a fresh monitor into a held position: prime the average, then a
/// rising close produces a buy, which the gateway processes.
fn holding_monitor(today: i32) -> StockMonitor {
    let mut m = sma_monitor();
    let r = m.run(dollars(10_000), Some(&bar(dollars(100))), today, 0, 10);
    assert!(matches!(r, Ok(None)));
    let pending = m
        .run(dollars(10_000), Some(&bar(dollars(110))), today, 0, 10)
        .unwrap()
        .expect("rising close should buy");
    match &pending.request {
        APIThreadReq::ApiBuyStock { symbol, quantity } => {
            assert_eq!(symbol, "AAPL");
            assert_eq!(*quantity, 10);
        }
        _ => panic!("expected a buy request"),
    }
    m.settle(pending, &APIThreadRes::ApiProcessed);
    assert!(m.bought_stock);
    assert_eq!(m.bought_at, dollars(110));
    assert_eq!(m.buy_time, today);
    assert_eq!(m.how_much_bought, 10);
    m
}

#[test]
fn missing_bar_in_live_mode_is_an_error() {
    let mut m = sma_monitor();
    let r = m.run(dollars(10_000), None, 100, 0, 10);
    assert!(matches!(r, Err(RunError::MissingBarData)));
}

#[test]
fn swing_trade_guard_skips_same_day_runs() {
    let mut m = holding_monitor(200);
    let before_strategy = m.stock_strategy;
    // Any bar on the day the position was opened is a successful no-op.
    let r = m.run(dollars(10_000), Some(&bar(dollars(1))), 200, 0, 10);
    assert!(matches!(r, Ok(None)));
    assert!(m.bought_stock);
    assert_eq!(m.stock_strategy, before_strategy);
}

#[test]
fn no_double_buy_while_holding() {
    let mut m = holding_monitor(200);
    // The next day keeps rising: the strategy says Buy, but the monitor
    // already holds, so no request goes out.
    let r = m.run(dollars(10_000), Some(&bar(dollars(120))), 201, 0, 10);
    assert!(matches!(r, Ok(None)));
    assert!(m.bought_stock);
}

#[test]
fn no_sell_without_position() {
    let mut m = sma_monitor();
    m.run(dollars(10_000), Some(&bar(dollars(100))), 100, 0, 10).unwrap();
    // A falling close asks to sell, but nothing is held: a no-op.
    let r = m.run(dollars(10_000), Some(&bar(dollars(90))), 100, 0, 10);
    assert!(matches!(r, Ok(None)));
    assert!(!m.bought_stock);
    assert_eq!(m.how_much_bought, 0);
}

#[test]
fn failed_reply_changes_nothing() {
    let mut m = sma_monitor();
    m.run(dollars(10_000), Some(&bar(dollars(100))), 100, 0, 10).unwrap();
    let pending = m
        .run(dollars(10_000), Some(&bar(dollars(110))), 100, 0, 10)
        .unwrap()
        .expect("rising close should buy");
    m.settle(
        pending,
        &APIThreadRes::ApiError { error: "insufficient buying power".to_string() },
    );
    assert!(!m.bought_stock);
    assert_eq!(m.bought_at, 0);
    assert_eq!(m.how_much_bought, 0);
    assert_eq!(m.buy_time, 0);
}

#[test]
fn emergency_drawdown_forces_liquidation() {
    let mut m = holding_monitor(200);
    // Basis 110, close 100: a -9.09% move breaches the -5% limit.  The
    // strategy itself would say Sell here too, but the guard fires first
    // and sells the whole position.
    let pending = m
        .run(dollars(10_000), Some(&bar(dollars(100))), 201, 0, 10)
        .unwrap()
        .expect("drawdown breach should liquidate");
    match &pending.request {
        APIThreadReq::ApiSellStock { symbol, quantity } => {
            assert_eq!(symbol, "AAPL");
            assert_eq!(*quantity, 10);
        }
        _ => panic!("expected a sell request"),
    }
    m.settle(pending, &APIThreadRes::ApiProcessed);
    assert!(!m.bought_stock);
    assert_eq!(m.how_much_bought, 0);
}

#[test]
fn small_dip_does_not_trigger_drawdown() {
    let mut m = holding_monitor(200);
    // Basis 110, close 105: a -4.5% move stays above the -5% limit, and
    // the close below the average says Sell, which the position allows.
    let pending = m
        .run(dollars(10_000), Some(&bar(dollars(105))), 201, 0, 10)
        .unwrap()
        .expect("strategy sell");
    assert!(matches!(pending.request, APIThreadReq::ApiSellStock { .. }));
}

#[test]
fn take_profit_forces_liquidation() {
    let mut m = holding_monitor(200);
    // Basis 110, close 170: +54.5% breaches the +50% take-profit limit.
    // (The rising average would say Buy, which holding would skip — only
    // the guard produces this sell.)
    let pending = m
        .run(dollars(10_000), Some(&bar(dollars(170))), 201, 0, 10)
        .unwrap()
        .expect("take-profit breach should liquidate");
    assert!(matches!(pending.request, APIThreadReq::ApiSellStock { .. }));
}

#[test]
fn friday_evening_liquidates_before_weekend() {
    let mut m = holding_monitor(200);
    // Next day is Friday 18:00 and the close keeps rising: the weekly
    // risk-off guard sells even though the strategy says Buy.
    let pending = m
        .run(dollars(10_000), Some(&bar(dollars(120))), 201, 4, 18)
        .unwrap()
        .expect("friday evening should liquidate");
    assert!(matches!(pending.request, APIThreadReq::ApiSellStock { .. }));
}

#[test]
fn buy_quantity_respects_ledger_and_cap() {
    let mut m = sma_monitor();
    m.run(dollars(1_000), Some(&bar(dollars(100))), 100, 0, 10).unwrap();
    // Cap is 10 but the ledger covers only 3 shares at 300.
    let pending = m
        .run(dollars(1_000), Some(&bar(dollars(300))), 100, 0, 10)
        .unwrap()
        .expect("affordable buy");
    match pending.request {
        APIThreadReq::ApiBuyStock { quantity, .. } => assert_eq!(quantity, 3),
        _ => panic!("expected a buy request"),
    }
}

#[test]
fn unaffordable_buy_is_skipped() {
    let mut m = sma_monitor();
    m.run(dollars(1), Some(&bar(dollars(100))), 100, 0, 10).unwrap();
    let r = m.run(dollars(1), Some(&bar(dollars(200))), 100, 0, 10);
    assert!(matches!(r, Ok(None)));
}

#[test]
fn set_state_with_unknown_strategy_fails_loudly() {
    let mut m = sma_monitor();
    let mut snap = m.save_state();
    snap.strat_name = "Mean Reversion".to_string();
    assert_eq!(m.set_state(snap), Err(SetStateError::UnknownStrategy));
}

#[test]
fn set_state_with_corrupt_payload_fails_loudly() {
    let mut m = sma_monitor();
    let mut snap = m.save_state();
    snap.strat_bytes = vec![1, 2, 3];
    assert_eq!(m.set_state(snap), Err(SetStateError::CorruptSnapshot));
}

#[test]
fn set_state_discards_mismatched_strategy_memory() {
    let mut source = StockMonitor::new(
        "AAPL".to_string(),
        false,
        "Fibonacci".to_string(),
        pct(5),
        None,
        10,
    );
    source.run(dollars(10_000), Some(&bar(dollars(100))), 100, 0, 10).unwrap();
    let snap = source.save_state();
    // The configuration now selects a different strategy: the stored
    // Fibonacci memory is discarded, not merged.
    let mut m = sma_monitor();
    let fresh_strategy = m.stock_strategy;
    assert_eq!(m.set_state(snap), Ok(()));
    assert_eq!(m.stock_strategy, fresh_strategy);
}

#[test]
fn zero_quantity_on_held_snapshot_is_corrected() {
    let m = holding_monitor(200);
    let mut snap = m.save_state();
    snap.how_much = 0;
    let mut target = sma_monitor();
    assert_eq!(target.set_state(snap), Ok(()));
    assert!(target.bought_stock);
    assert_eq!(target.how_much_bought, 1);
}

#[test]
fn snapshot_roundtrip_reproduces_subsequent_directives() {
    let mut original = holding_monitor(200);
    let snap = original.save_state();
    let mut restored = sma_monitor();
    assert_eq!(restored.set_state(snap), Ok(()));
    assert_eq!(restored.bought_stock, original.bought_stock);
    assert_eq!(restored.bought_at, original.bought_at);
    assert_eq!(restored.buy_time, original.buy_time);
    assert_eq!(restored.how_much_bought, original.how_much_bought);
    assert_eq!(restored.stock_strategy, original.stock_strategy);
    // The two monitors now behave identically on the same inputs.
    let a = original.run(dollars(10_000), Some(&bar(dollars(50))), 201, 0, 10).unwrap();
    let b = restored.run(dollars(10_000), Some(&bar(dollars(50))), 201, 0, 10).unwrap();
    match (a, b) {
        (Some(x), Some(y)) => {
            match (&x.request, &y.request) {
                (
                    APIThreadReq::ApiSellStock { symbol: s1, quantity: q1 },
                    APIThreadReq::ApiSellStock { symbol: s2, quantity: q2 },
                ) => {
                    assert_eq!(s1, s2);
                    assert_eq!(q1, q2);
                }
                _ => panic!("expected matching sell requests"),
            }
        }
        _ => panic!("expected both monitors to decide the same order"),
    }
}

#[test]
fn backtest_trades_against_virtual_ledger() {
    let mut m = StockMonitor::new(
        "AAPL".to_string(),
        true,
        "Single Moving Average".to_string(),
        pct(90),
        None,
        1,
    );
    let bars = vec![bar(dollars(10)), bar(dollars(20)), bar(dollars(30)), bar(dollars(5))];
    let mut assets: i128 = dollars(100) as i128;
    // Bar 1 primes; bar 2 buys one share at 20; bar 3 would buy again but
    // the position is held; bar 4 falls below the average and sells at 5.
    let made = m.run_backtest(&bars, &mut assets, 0);
    assert_eq!(made, (dollars(5) - dollars(20)) as i128);
    assert_eq!(assets, (dollars(100) - dollars(20) + dollars(5)) as i128);
    assert!(!m.bought_stock);
    assert_eq!(m.how_much_bought, 0);
}

#[test]
fn backtest_emergency_margin_liquidates() {
    let mut m = StockMonitor::new(
        "AAPL".to_string(),
        true,
        "Single Moving Average".to_string(),
        pct(5),
        None,
        1,
    );
    let bars = vec![bar(dollars(100)), bar(dollars(200)), bar(dollars(150))];
    let mut assets: i128 = dollars(1_000) as i128;
    // Buy at 200; 150 is -25% from basis, breaching -5%: forced sale
    // credits the full position.
    let made = m.run_backtest(&bars, &mut assets, 0);
    assert_eq!(made, (dollars(150) - dollars(200)) as i128);
    assert!(!m.bought_stock);
}

#[test]
fn backtest_skips_buys_on_fridays() {
    let mut m = StockMonitor::new(
        "AAPL".to_string(),
        true,
        "Single Moving Average".to_string(),
        pct(90),
        None,
        1,
    );
    let bars = vec![bar(dollars(10)), bar(dollars(20)), bar(dollars(30))];
    let mut assets: i128 = dollars(100) as i128;
    let made = m.run_backtest(&bars, &mut assets, 4);
    assert_eq!(made, 0);
    assert!(!m.bought_stock);
    assert_eq!(assets, dollars(100) as i128);
}
