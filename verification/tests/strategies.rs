use tradebot::market_strategies::{
    strategy_from_name, FibonacciRetracement, SingleMovingAverage, Strategy, StrategyOutput,
    SupportNResist, TwoMovingAverages,
};
use tradebot::price::{Bar, PRICE_SCALE};

fn bar(close: i64) -> Bar {
    Bar { open: close, high: close, low: close, close, volume: 1000 * PRICE_SCALE }
}

fn dollars(x: i64) -> i64 {
    x * PRICE_SCALE
}

#[test]
fn sma_first_bar_holds() {
    let mut s = SingleMovingAverage::new();
    assert_eq!(s.run(&bar(dollars(100))), StrategyOutput::Hold);
}

#[test]
fn sma_rising_sequence_buys() {
    let mut s = SingleMovingAverage::new();
    assert_eq!(s.run(&bar(dollars(100))), StrategyOutput::Hold);
    for i in 1..50i64 {
        assert_eq!(s.run(&bar(dollars(100 + i))), StrategyOutput::Buy);
    }
}

#[test]
fn sma_falling_sequence_sells() {
    let mut s = SingleMovingAverage::new();
    assert_eq!(s.run(&bar(dollars(100))), StrategyOutput::Hold);
    for i in 1..50i64 {
        assert_eq!(s.run(&bar(dollars(100 - i))), StrategyOutput::Sell);
    }
}

#[test]
fn sma_equal_close_holds() {
    let mut s = SingleMovingAverage::new();
    s.run(&bar(dollars(100)));
    assert_eq!(s.run(&bar(dollars(100))), StrategyOutput::Hold);
}

#[test]
fn two_moving_averages_crossover() {
    let mut s = TwoMovingAverages::new();
    assert_eq!(s.run(&bar(dollars(100))), StrategyOutput::Hold);
    // A jump up moves the fast average above the slow one.
    assert_eq!(s.run(&bar(dollars(200))), StrategyOutput::Buy);
    let mut t = TwoMovingAverages::new();
    t.run(&bar(dollars(100)));
    // An unchanged close keeps the averages equal.
    assert_eq!(t.run(&bar(dollars(100))), StrategyOutput::Hold);
    let mut u = TwoMovingAverages::new();
    u.run(&bar(dollars(100)));
    assert_eq!(u.run(&bar(dollars(50))), StrategyOutput::Sell);
}

fn primed_snr() -> SupportNResist {
    let mut s = SupportNResist::new();
    let first = Bar {
        open: dollars(100),
        high: dollars(110),
        low: dollars(90),
        close: dollars(100),
        volume: 1000 * PRICE_SCALE,
    };
    assert_eq!(s.run(&first), StrategyOutput::Hold);
    s
}

#[test]
fn support_n_resist_first_call_holds_and_records() {
    let s = primed_snr();
    assert!(s.ran_before);
    assert_eq!(s.past_high, dollars(110));
    assert_eq!(s.past_low, dollars(90));
    assert_eq!(s.past_close, dollars(100));
}

#[test]
fn support_n_resist_above_pivot_buys() {
    // pivot = 100, resistance = 110: a close of 105 sits between them.
    let mut s = primed_snr();
    assert_eq!(s.run(&bar(dollars(105))), StrategyOutput::Buy);
}

#[test]
fn support_n_resist_above_resistance_sells() {
    let mut s = primed_snr();
    assert_eq!(s.run(&bar(dollars(115))), StrategyOutput::Sell);
}

#[test]
fn support_n_resist_below_pivot_holds() {
    let mut s = primed_snr();
    assert_eq!(s.run(&bar(dollars(95))), StrategyOutput::Hold);
}

#[test]
fn support_n_resist_rolls_window_forward() {
    let mut s = primed_snr();
    let second = Bar {
        open: dollars(100),
        high: dollars(220),
        low: dollars(180),
        close: dollars(200),
        volume: 1000 * PRICE_SCALE,
    };
    s.run(&second);
    assert_eq!(s.past_high, dollars(220));
    assert_eq!(s.past_low, dollars(180));
    assert_eq!(s.past_close, dollars(200));
}

#[test]
fn fibonacci_uptrend_window_buys_and_retraces_to_sell() {
    let mut s = FibonacciRetracement::new();
    // Bar 1 records the window's start.
    assert_eq!(s.run(&bar(dollars(100))), StrategyOutput::Hold);
    // Bars 2..459 only accumulate.
    for _ in 2..460 {
        assert_eq!(s.run(&bar(dollars(120))), StrategyOutput::Hold);
    }
    // Bar 460 closes the window: 100 -> 150 is an uptrend, so it buys and
    // starts monitoring with the profit band at the 0.236 retracement of
    // the rise, widened by +-0.05 of the rise: [135.70, 140.70].
    assert_eq!(s.run(&bar(dollars(150))), StrategyOutput::Buy);
    assert!(s.monitoring_mode);
    assert!(s.stock_going_up);
    assert_eq!(s.bar_start, dollars(100));
    assert_eq!(s.bar_end, dollars(150));
    assert_eq!(s.profit_price_lower, 1_357_000);
    assert_eq!(s.profit_price_upper, 1_407_000);
    // A close of 140 falls inside the profit band: sell and reset.
    assert_eq!(s.run(&bar(dollars(140))), StrategyOutput::Sell);
    assert!(!s.monitoring_mode);
    assert_eq!(s.current_bar, 0);
}

#[test]
fn fibonacci_downtrend_window_resets_without_monitoring() {
    let mut s = FibonacciRetracement::new();
    s.run(&bar(dollars(100)));
    for _ in 2..460 {
        s.run(&bar(dollars(90)));
    }
    assert_eq!(s.run(&bar(dollars(80))), StrategyOutput::Hold);
    assert!(!s.monitoring_mode);
    assert!(!s.stock_going_up);
    assert_eq!(s.current_bar, 0);
}

#[test]
fn fibonacci_monitoring_outside_bands_holds() {
    let mut s = FibonacciRetracement::new();
    s.run(&bar(dollars(100)));
    for _ in 2..460 {
        s.run(&bar(dollars(120)));
    }
    assert_eq!(s.run(&bar(dollars(150))), StrategyOutput::Buy);
    // 150 is above every band: keep holding, stay in monitoring.
    assert_eq!(s.run(&bar(dollars(150))), StrategyOutput::Hold);
    assert!(s.monitoring_mode);
}

#[test]
fn fibonacci_failure_band_stops_loss() {
    let mut s = FibonacciRetracement::new();
    s.run(&bar(dollars(100)));
    for _ in 2..460 {
        s.run(&bar(dollars(120)));
    }
    assert_eq!(s.run(&bar(dollars(150))), StrategyOutput::Buy);
    // failure band: [150 - 50*0.668, 150 - 50*0.568] = [116.60, 121.60].
    assert_eq!(s.failure_price_lower, 1_166_000);
    assert_eq!(s.failure_price_upper, 1_216_000);
    assert_eq!(s.run(&bar(dollars(120))), StrategyOutput::Sell);
    assert!(!s.monitoring_mode);
}

#[test]
fn strategy_selection_by_name() {
    assert!(matches!(
        strategy_from_name(&"Single Moving Average".to_string()),
        Some(Strategy::SingleMovingAverage(_))
    ));
    assert!(matches!(
        strategy_from_name(&"Two Moving Averages".to_string()),
        Some(Strategy::TwoMovingAverages(_))
    ));
    assert!(matches!(
        strategy_from_name(&"Support and Resist".to_string()),
        Some(Strategy::SupportNResist(_))
    ));
    assert!(matches!(
        strategy_from_name(&"Fibonacci".to_string()),
        Some(Strategy::FibonacciRetracement(_))
    ));
    assert!(strategy_from_name(&"Mean Reversion".to_string()).is_none());
}
