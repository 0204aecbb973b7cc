//! The pluggable per-instrument decision strategies.
//!
//! The engine supports a closed set of four strategies, so they form a tagged
//! union ([`Strategy`]) rather than an open trait: exhaustive matching keeps
//! selection and snapshot restoration type-checked.  Each variant owns only
//! the numeric memory it needs, holds it as fixed-point values (see
//! [`crate::price`]) and steps deterministically: its transition and its
//! output are given by spec functions that the executable code provably
//! implements.

use vstd::prelude::*;

use crate::price::{amount_wf, Bar, MAX_PRICE};

verus! {

/// A strategy's decision for one bar.
#[derive(Clone, Copy, Debug, PartialEq, Eq, Structural)]
pub enum StrategyOutput {
    Buy,
    Sell,
    Hold,
}

/// One exponential moving average of the close, smoothing period 2.
///
/// The first bar primes the average with its close and holds.  Afterwards
/// the average moves by `ema' = (2*close + ema) / 3` (the period-2 smoothing
/// factor 2/3) and the directive compares the close against the updated
/// average.  Because `close - (2*close + ema)/3` has the sign of
/// `close - ema`, that comparison is decided exactly by comparing the close
/// with the stored average, even though the stored average itself is kept
/// rounded (the division truncates, and the state never goes negative).
#[derive(Clone, Copy, Debug, PartialEq, Eq, Structural)]
pub struct SingleMovingAverage {
    pub ema: i64,
    pub primed: bool,
}

impl SingleMovingAverage {
    pub open spec fn wf(self) -> bool {
        amount_wf(self.ema)
    }

    /// The stored average, for stating laws about runs of bars.
    pub open spec fn spec_ema(self) -> i64 {
        self.ema
    }

    pub open spec fn spec_primed(self) -> bool {
        self.primed
    }

    /// State after consuming one close.
    pub open spec fn spec_step(self, close: i64) -> SingleMovingAverage {
        if !self.primed {
            SingleMovingAverage { ema: close, primed: true }
        } else {
            SingleMovingAverage {
                ema: ((2 * (close as int) + self.ema as int) / 3) as i64,
                primed: true,
            }
        }
    }

    /// Directive for one close: Buy when the close lies above the updated
    /// average, Sell when below, Hold on equality (always Hold on the
    /// priming bar, whose average equals its close).
    pub open spec fn spec_output(self, close: i64) -> StrategyOutput {
        if !self.primed {
            StrategyOutput::Hold
        } else if close > self.ema {
            StrategyOutput::Buy
        } else if close < self.ema {
            StrategyOutput::Sell
        } else {
            StrategyOutput::Hold
        }
    }

    pub fn new() -> (s: SingleMovingAverage)
        ensures
            s == (SingleMovingAverage { ema: 0i64, primed: false }),
    {
        SingleMovingAverage { ema: 0, primed: false }
    }

    pub fn run(&mut self, data: &Bar) -> (out: StrategyOutput)
        requires
            old(self).wf(),
            data.wf(),
        ensures
            final(self).wf(),
            *final(self) == old(self).spec_step(data.close),
            out == old(self).spec_output(data.close),
    {
        if !self.primed {
            self.primed = true;
            self.ema = data.close;
            StrategyOutput::Hold
        } else {
            let out = if data.close > self.ema {
                StrategyOutput::Buy
            } else if data.close < self.ema {
                StrategyOutput::Sell
            } else {
                StrategyOutput::Hold
            };
            self.ema = (2 * data.close + self.ema) / 3;
            out
        }
    }
}

/// Two exponential moving averages of the close, periods 2 (fast) and 6
/// (slow): a crossover strategy.
///
/// The first bar primes both averages with its close and holds.  Afterwards
/// `fast' = (2*close + fast) / 3` and `slow' = (2*close + 5*slow) / 7`, and
/// the directive compares the updated averages.  Cross-multiplying,
/// `fast' > slow'` exactly when `8*close + 7*fast > 15*slow`, so the
/// directive is exact even though the stored averages are rounded.
#[derive(Clone, Copy, Debug, PartialEq, Eq, Structural)]
pub struct TwoMovingAverages {
    pub ema_one: i64,
    pub ema_two: i64,
    pub primed: bool,
}

impl TwoMovingAverages {
    pub open spec fn wf(self) -> bool {
        amount_wf(self.ema_one) && amount_wf(self.ema_two)
    }

    pub open spec fn spec_step(self, close: i64) -> TwoMovingAverages {
        if !self.primed {
            TwoMovingAverages { ema_one: close, ema_two: close, primed: true }
        } else {
            TwoMovingAverages {
                ema_one: ((2 * (close as int) + self.ema_one as int) / 3) as i64,
                ema_two: ((2 * (close as int) + 5 * (self.ema_two as int)) / 7) as i64,
                primed: true,
            }
        }
    }

    /// Buy when the updated fast average lies above the updated slow one,
    /// Sell when below, Hold on equality (and on the priming bar, where the
    /// two averages coincide).
    pub open spec fn spec_output(self, close: i64) -> StrategyOutput {
        if !self.primed {
            StrategyOutput::Hold
        } else {
            let fast_num = 8 * (close as int) + 7 * (self.ema_one as int);
            let slow_num = 15 * (self.ema_two as int);
            if fast_num > slow_num {
                StrategyOutput::Buy
            } else if fast_num < slow_num {
                StrategyOutput::Sell
            } else {
                StrategyOutput::Hold
            }
        }
    }

    pub fn new() -> (s: TwoMovingAverages)
        ensures
            s == (TwoMovingAverages { ema_one: 0i64, ema_two: 0i64, primed: false }),
    {
        TwoMovingAverages { ema_one: 0, ema_two: 0, primed: false }
    }

    pub fn run(&mut self, data: &Bar) -> (out: StrategyOutput)
        requires
            old(self).wf(),
            data.wf(),
        ensures
            final(self).wf(),
            *final(self) == old(self).spec_step(data.close),
            out == old(self).spec_output(data.close),
    {
        if !self.primed {
            self.primed = true;
            self.ema_one = data.close;
            self.ema_two = data.close;
            StrategyOutput::Hold
        } else {
            let fast_num: i64 = 8 * data.close + 7 * self.ema_one;
            let slow_num: i64 = 15 * self.ema_two;
            let out = if fast_num > slow_num {
                StrategyOutput::Buy
            } else if fast_num < slow_num {
                StrategyOutput::Sell
            } else {
                StrategyOutput::Hold
            };
            self.ema_one = (2 * data.close + self.ema_one) / 3;
            self.ema_two = (2 * data.close + 5 * self.ema_two) / 7;
            out
        }
    }
}

/// Pivot-point support and resistance against the previous bar.
///
/// The first bar only records its high, low and close and holds.  Each later
/// bar is judged against the recorded values — with
/// `pivot = (high + low + close) / 3` and `resistance = 2*pivot - low`, it
/// sells at or above the resistance, buys above the pivot, and holds
/// otherwise — and then the window rolls forward: the bar's own high, low
/// and close replace the recorded ones.  (Comparisons are cross-multiplied
/// by 3, so the thirds are exact.)
#[derive(Clone, Copy, Debug, PartialEq, Eq, Structural)]
pub struct SupportNResist {
    pub past_high: i64,
    pub past_low: i64,
    pub past_close: i64,
    pub ran_before: bool,
}

impl SupportNResist {
    pub open spec fn wf(self) -> bool {
        amount_wf(self.past_high) && amount_wf(self.past_low) && amount_wf(self.past_close)
    }

    pub open spec fn spec_step(self, data: Bar) -> SupportNResist {
        SupportNResist {
            past_high: data.high,
            past_low: data.low,
            past_close: data.close,
            ran_before: true,
        }
    }

    /// `close >= resistance` is `3*close >= 2*high - low + 2*past_close`;
    /// `close > pivot` is `3*close > high + low + past_close`.
    pub open spec fn spec_output(self, close: i64) -> StrategyOutput {
        if !self.ran_before {
            StrategyOutput::Hold
        } else if 3 * (close as int) >= 2 * (self.past_high as int) - self.past_low as int + 2 * (
        self.past_close as int) {
            StrategyOutput::Sell
        } else if 3 * (close as int) > self.past_high as int + self.past_low as int
            + self.past_close as int {
            StrategyOutput::Buy
        } else {
            StrategyOutput::Hold
        }
    }

    pub fn new() -> (s: SupportNResist)
        ensures
            s == (SupportNResist {
                past_high: 0i64,
                past_low: 0i64,
                past_close: 0i64,
                ran_before: false,
            }),
    {
        SupportNResist { past_high: 0, past_low: 0, past_close: 0, ran_before: false }
    }

    pub fn run(&mut self, data: &Bar) -> (out: StrategyOutput)
        requires
            old(self).wf(),
            data.wf(),
        ensures
            final(self).wf(),
            *final(self) == old(self).spec_step(*data),
            out == old(self).spec_output(data.close),
    {
        let out = if !self.ran_before {
            StrategyOutput::Hold
        } else if 3 * data.close >= 2 * self.past_high - self.past_low + 2 * self.past_close {
            StrategyOutput::Sell
        } else if 3 * data.close > self.past_high + self.past_low + self.past_close {
            StrategyOutput::Buy
        } else {
            StrategyOutput::Hold
        };
        self.ran_before = true;
        self.past_high = data.high;
        self.past_low = data.low;
        self.past_close = data.close;
        out
    }
}

/// How many bars the retracement accumulates before evaluating a window.
pub const MAXBARS: u16 = 460;

/// Retracement ratios and the band half-width, in thousandths.
pub const RATIO_PROFIT: i64 = 236;

pub const RATIO_HALF_BACK: i64 = 500;

pub const RATIO_FAILURE: i64 = 618;

/// How much leeway the close has around each retracement level.
pub const ERROR_MARGIN: i64 = 50;

/// Lower edge of the band around `end - diff * ratio / 1000`, `diff > 0`.
pub open spec fn spec_band_lo(end: int, diff: int, ratio: int) -> int {
    end - diff * (ratio + ERROR_MARGIN as int) / 1000
}

/// Upper edge of the band around `end - diff * ratio / 1000`, `diff > 0`.
pub open spec fn spec_band_hi(end: int, diff: int, ratio: int) -> int {
    end - diff * (ratio - ERROR_MARGIN as int) / 1000
}

/// Fibonacci retracement: a two-phase state machine over windows of
/// [`MAXBARS`] bars.
///
/// While accumulating it records the close of the window's first bar; the
/// window closes on its 460th bar, whose close becomes `bar_end`.  On an
/// uptrend (`bar_end > bar_start`) it computes three retracement bands below
/// `bar_end` — at the ratios 0.236 (profit), 0.5 (half-way back) and 0.618
/// (failure) of the rise, each widened by ±0.05 of the rise — buys, and
/// switches to monitoring.  On a downtrend it resets and holds.  While
/// monitoring, a close inside the profit band or the failure band sells and
/// returns to accumulation; a close inside the half-way-back band, or in
/// none of the bands, holds.
///
/// Each band is stored as an ordered `lower <= upper` pair, and the two
/// evaluation paths of the engine share this one transition, so the band
/// arithmetic cannot diverge between live trading and backtesting.
#[derive(Clone, Copy, Debug, PartialEq, Eq, Structural)]
pub struct FibonacciRetracement {
    pub bar_start: i64,
    pub bar_end: i64,
    pub current_bar: u16,
    pub monitoring_mode: bool,
    pub half_way_back_price_upper: i64,
    pub half_way_back_price_lower: i64,
    pub failure_price_upper: i64,
    pub failure_price_lower: i64,
    pub profit_price_upper: i64,
    pub profit_price_lower: i64,
    pub stock_going_up: bool,
}

impl FibonacciRetracement {
    pub open spec fn wf(self) -> bool {
        &&& amount_wf(self.bar_start)
        &&& amount_wf(self.bar_end)
        &&& self.current_bar < MAXBARS
        &&& amount_wf(self.half_way_back_price_upper)
        &&& amount_wf(self.half_way_back_price_lower)
        &&& amount_wf(self.failure_price_upper)
        &&& amount_wf(self.failure_price_lower)
        &&& amount_wf(self.profit_price_upper)
        &&& amount_wf(self.profit_price_lower)
    }

    /// The state entered when a window closes on an uptrend.
    pub open spec fn spec_enter_monitoring(self, close: i64) -> FibonacciRetracement {
        let end = close as int;
        let diff = close as int - self.bar_start as int;
        FibonacciRetracement {
            bar_end: close,
            current_bar: 0,
            monitoring_mode: true,
            stock_going_up: true,
            profit_price_lower: spec_band_lo(end, diff, RATIO_PROFIT as int) as i64,
            profit_price_upper: spec_band_hi(end, diff, RATIO_PROFIT as int) as i64,
            half_way_back_price_lower: spec_band_lo(end, diff, RATIO_HALF_BACK as int) as i64,
            half_way_back_price_upper: spec_band_hi(end, diff, RATIO_HALF_BACK as int) as i64,
            failure_price_lower: spec_band_lo(end, diff, RATIO_FAILURE as int) as i64,
            failure_price_upper: spec_band_hi(end, diff, RATIO_FAILURE as int) as i64,
            ..self
        }
    }

    pub open spec fn spec_step(self, close: i64) -> FibonacciRetracement {
        if self.monitoring_mode {
            if self.profit_price_lower <= close <= self.profit_price_upper {
                FibonacciRetracement { monitoring_mode: false, current_bar: 0, ..self }
            } else if self.half_way_back_price_lower <= close <= self.half_way_back_price_upper {
                self
            } else if self.failure_price_lower <= close <= self.failure_price_upper {
                FibonacciRetracement { monitoring_mode: false, current_bar: 0, ..self }
            } else {
                self
            }
        } else {
            let started = if self.current_bar == 0 {
                FibonacciRetracement { bar_start: close, ..self }
            } else {
                self
            };
            if self.current_bar + 1 == MAXBARS {
                if close > started.bar_start {
                    started.spec_enter_monitoring(close)
                } else {
                    FibonacciRetracement {
                        bar_end: close,
                        current_bar: 0,
                        monitoring_mode: false,
                        stock_going_up: false,
                        ..started
                    }
                }
            } else {
                FibonacciRetracement { current_bar: (self.current_bar + 1) as u16, ..started }
            }
        }
    }

    /// Sell when a monitored close falls in the profit band (the uptrend
    /// retraced as hoped) or in the failure band (stop-loss); Buy on the
    /// bar that closes a window on an uptrend; Hold otherwise.
    pub open spec fn spec_output(self, close: i64) -> StrategyOutput {
        if self.monitoring_mode {
            if self.profit_price_lower <= close <= self.profit_price_upper {
                StrategyOutput::Sell
            } else if self.half_way_back_price_lower <= close <= self.half_way_back_price_upper {
                StrategyOutput::Hold
            } else if self.failure_price_lower <= close <= self.failure_price_upper {
                StrategyOutput::Sell
            } else {
                StrategyOutput::Hold
            }
        } else {
            let start = if self.current_bar == 0 {
                close
            } else {
                self.bar_start
            };
            if self.current_bar + 1 == MAXBARS && close > start {
                StrategyOutput::Buy
            } else {
                StrategyOutput::Hold
            }
        }
    }

    pub fn new() -> (s: FibonacciRetracement)
        ensures
            s == FibonacciRetracement::spec_new(),
    {
        FibonacciRetracement {
            bar_start: 0,
            bar_end: 0,
            current_bar: 0,
            monitoring_mode: false,
            half_way_back_price_upper: 0,
            half_way_back_price_lower: 0,
            failure_price_upper: 0,
            failure_price_lower: 0,
            profit_price_upper: 0,
            profit_price_lower: 0,
            stock_going_up: false,
        }
    }

    /// The all-zero accumulating state.
    pub open spec fn spec_new() -> FibonacciRetracement {
        FibonacciRetracement {
            bar_start: 0i64,
            bar_end: 0i64,
            current_bar: 0u16,
            monitoring_mode: false,
            half_way_back_price_upper: 0i64,
            half_way_back_price_lower: 0i64,
            failure_price_upper: 0i64,
            failure_price_lower: 0i64,
            profit_price_upper: 0i64,
            profit_price_lower: 0i64,
            stock_going_up: false,
        }
    }

    /// The band edges of a closing uptrend window stay within price range.
    proof fn lemma_band_bounds(end: int, diff: int, ratio: int)
        requires
            0 < end <= MAX_PRICE,
            0 < diff <= end,
            0 < ratio - ERROR_MARGIN,
            ratio + ERROR_MARGIN <= 1000,
        ensures
            0 <= spec_band_lo(end, diff, ratio) <= spec_band_hi(end, diff, ratio) <= MAX_PRICE,
    {
        let lo_num = diff * (ratio + ERROR_MARGIN as int);
        let hi_num = diff * (ratio - ERROR_MARGIN as int);
        assert(0 <= hi_num <= lo_num <= 1000 * diff) by (nonlinear_arith)
            requires
                0 < diff,
                0 < ratio - 50,
                ratio + 50 <= 1000,
                lo_num == diff * (ratio + 50),
                hi_num == diff * (ratio - 50),
        ;
        assert(0 <= hi_num / 1000 <= lo_num / 1000 <= diff) by (nonlinear_arith)
            requires
                0 <= hi_num <= lo_num <= 1000 * diff,
        ;
    }

    pub fn run(&mut self, data: &Bar) -> (out: StrategyOutput)
        requires
            old(self).wf(),
            data.wf(),
        ensures
            final(self).wf(),
            *final(self) == old(self).spec_step(data.close),
            out == old(self).spec_output(data.close),
    {
        let close = data.close;
        if self.monitoring_mode {
            if self.profit_price_lower <= close && close <= self.profit_price_upper {
                self.monitoring_mode = false;
                self.current_bar = 0;
                return StrategyOutput::Sell;
            }
            if self.half_way_back_price_lower <= close && close <= self.half_way_back_price_upper {
                return StrategyOutput::Hold;
            }
            if self.failure_price_lower <= close && close <= self.failure_price_upper {
                self.monitoring_mode = false;
                self.current_bar = 0;
                return StrategyOutput::Sell;
            }
            return StrategyOutput::Hold;
        }
        if self.current_bar == 0 {
            self.bar_start = close;
        }
        if self.current_bar + 1 == MAXBARS {
            self.bar_end = close;
            let difference: i64 = self.bar_end - self.bar_start;
            self.stock_going_up = difference > 0;
            if self.stock_going_up {
                proof {
                    FibonacciRetracement::lemma_band_bounds(
                        close as int,
                        difference as int,
                        RATIO_PROFIT as int,
                    );
                    FibonacciRetracement::lemma_band_bounds(
                        close as int,
                        difference as int,
                        RATIO_HALF_BACK as int,
                    );
                    FibonacciRetracement::lemma_band_bounds(
                        close as int,
                        difference as int,
                        RATIO_FAILURE as int,
                    );
                }
                self.profit_price_lower = self.bar_end - difference * (RATIO_PROFIT + ERROR_MARGIN)
                    / 1000;
                self.profit_price_upper = self.bar_end - difference * (RATIO_PROFIT - ERROR_MARGIN)
                    / 1000;
                self.half_way_back_price_lower = self.bar_end - difference * (RATIO_HALF_BACK
                    + ERROR_MARGIN) / 1000;
                self.half_way_back_price_upper = self.bar_end - difference * (RATIO_HALF_BACK
                    - ERROR_MARGIN) / 1000;
                self.failure_price_lower = self.bar_end - difference * (RATIO_FAILURE
                    + ERROR_MARGIN) / 1000;
                self.failure_price_upper = self.bar_end - difference * (RATIO_FAILURE
                    - ERROR_MARGIN) / 1000;
                self.monitoring_mode = true;
                self.current_bar = 0;
                return StrategyOutput::Buy;
            } else {
                self.current_bar = 0;
                self.monitoring_mode = false;
                return StrategyOutput::Hold;
            }
        }
        self.current_bar = self.current_bar + 1;
        StrategyOutput::Hold
    }
}

/// The closed set of strategies, selected by configured name.
#[derive(Clone, Copy, Debug, PartialEq, Eq, Structural)]
pub enum Strategy {
    SingleMovingAverage(SingleMovingAverage),
    TwoMovingAverages(TwoMovingAverages),
    SupportNResist(SupportNResist),
    FibonacciRetracement(FibonacciRetracement),
}

impl Strategy {
    pub open spec fn wf(self) -> bool {
        match self {
            Strategy::SingleMovingAverage(s) => s.wf(),
            Strategy::TwoMovingAverages(s) => s.wf(),
            Strategy::SupportNResist(s) => s.wf(),
            Strategy::FibonacciRetracement(s) => s.wf(),
        }
    }

    pub open spec fn spec_step(self, data: Bar) -> Strategy {
        match self {
            Strategy::SingleMovingAverage(s) => Strategy::SingleMovingAverage(
                s.spec_step(data.close),
            ),
            Strategy::TwoMovingAverages(s) => Strategy::TwoMovingAverages(s.spec_step(data.close)),
            Strategy::SupportNResist(s) => Strategy::SupportNResist(s.spec_step(data)),
            Strategy::FibonacciRetracement(s) => Strategy::FibonacciRetracement(
                s.spec_step(data.close),
            ),
        }
    }

    pub open spec fn spec_output(self, data: Bar) -> StrategyOutput {
        match self {
            Strategy::SingleMovingAverage(s) => s.spec_output(data.close),
            Strategy::TwoMovingAverages(s) => s.spec_output(data.close),
            Strategy::SupportNResist(s) => s.spec_output(data.close),
            Strategy::FibonacciRetracement(s) => s.spec_output(data.close),
        }
    }

    /// The name that tags this strategy's snapshots and selects it in the
    /// configuration.
    pub open spec fn spec_name(self) -> Seq<char> {
        match self {
            Strategy::SingleMovingAverage(_) => "Single Moving Average"@,
            Strategy::TwoMovingAverages(_) => "Two Moving Averages"@,
            Strategy::SupportNResist(_) => "Support and Resist"@,
            Strategy::FibonacciRetracement(_) => "Fibonacci"@,
        }
    }

    pub fn name(&self) -> (r: String)
        ensures
            r@ == self.spec_name(),
    {
        match self {
            Strategy::SingleMovingAverage(_) => String::from_str("Single Moving Average"),
            Strategy::TwoMovingAverages(_) => String::from_str("Two Moving Averages"),
            Strategy::SupportNResist(_) => String::from_str("Support and Resist"),
            Strategy::FibonacciRetracement(_) => String::from_str("Fibonacci"),
        }
    }

    /// Consume one bar: advance the strategy's memory and return its
    /// directive for the bar.
    pub fn run(&mut self, data: &Bar) -> (out: StrategyOutput)
        requires
            old(self).wf(),
            data.wf(),
        ensures
            final(self).wf(),
            *final(self) == old(self).spec_step(*data),
            out == old(self).spec_output(*data),
    {
        match self {
            Strategy::SingleMovingAverage(s) => s.run(data),
            Strategy::TwoMovingAverages(s) => s.run(data),
            Strategy::SupportNResist(s) => s.run(data),
            Strategy::FibonacciRetracement(s) => s.run(data),
        }
    }
}

/// The single-moving-average state after consuming a run of closes.
pub open spec fn spec_sma_after(s: SingleMovingAverage, closes: Seq<i64>) -> SingleMovingAverage
    decreases closes.len(),
{
    if closes.len() == 0 {
        s
    } else {
        spec_sma_after(s.spec_step(closes[0]), closes.skip(1))
    }
}

/// Along a run of closes, the stored average stays at or below the last
/// close seen when the closes never fall, and at or above it when they
/// never rise.
proof fn lemma_sma_after_tracks(s: SingleMovingAverage, closes: Seq<i64>, k: int)
    requires
        !s.primed,
        1 <= k <= closes.len(),
    ensures
        spec_sma_after(s, closes.take(k)).primed,
        (forall|j: int| 0 <= j < k - 1 ==> #[trigger] closes[j] < closes[j + 1]) ==> spec_sma_after(
            s,
            closes.take(k),
        ).ema <= closes[k - 1],
        (forall|j: int| 0 <= j < k - 1 ==> #[trigger] closes[j] > closes[j + 1]) ==> spec_sma_after(
            s,
            closes.take(k),
        ).ema >= closes[k - 1],
    decreases k,
{
    lemma_sma_after_snoc(s, closes, k);
    if k == 1 {
        assert(spec_sma_after(s, closes.take(0)) == s) by {
            assert(closes.take(0) =~= Seq::<i64>::empty());
        }
    } else {
        lemma_sma_after_tracks(s, closes, k - 1);
        let prev = spec_sma_after(s, closes.take(k - 1));
        let c = closes[k - 1];
        // One smoothing step keeps the average between the old average and
        // the new close.
        if prev.ema < c {
            lemma_ema_step_le(c as int, prev.ema as int);
        }
        if prev.ema > c {
            lemma_ema_step_ge(c as int, prev.ema as int);
        }
    }
}

/// Unrolling one step at the end of a run.
proof fn lemma_sma_after_snoc(s: SingleMovingAverage, closes: Seq<i64>, k: int)
    requires
        1 <= k <= closes.len(),
    ensures
        spec_sma_after(s, closes.take(k)) == spec_sma_after(s, closes.take(k - 1)).spec_step(
            closes[k - 1],
        ),
    decreases k,
{
    if k == 1 {
        assert(closes.take(1)[0] == closes[0]);
        assert(closes.take(1).skip(1) =~= Seq::<i64>::empty());
        assert(closes.take(0) =~= Seq::<i64>::empty());
        assert(spec_sma_after(s, Seq::<i64>::empty()) == s);
        assert(spec_sma_after(s.spec_step(closes[0]), Seq::<i64>::empty()) == s.spec_step(
            closes[0],
        ));
        assert(spec_sma_after(s, closes.take(1)) == spec_sma_after(
            s.spec_step(closes[0]),
            closes.take(1).skip(1),
        ));
    } else {
        let t = closes.take(k);
        let s1 = s.spec_step(closes[0]);
        assert(t[0] == closes[0]);
        lemma_sma_after_snoc(s1, closes.skip(1), k - 1);
        assert(t.skip(1) =~= closes.skip(1).take(k - 1));
        assert(closes.take(k - 1).skip(1) =~= closes.skip(1).take(k - 2));
        assert(closes.take(k - 1)[0] == closes[0]);
        assert(closes.skip(1)[k - 2] == closes[k - 1]);
        assert(spec_sma_after(s, t) == spec_sma_after(s1, closes.skip(1).take(k - 1)));
        assert(spec_sma_after(s1, closes.skip(1).take(k - 1)) == spec_sma_after(
            s1,
            closes.skip(1).take(k - 2),
        ).spec_step(closes[k - 1]));
        assert(spec_sma_after(s, closes.take(k - 1)) == spec_sma_after(
            s1,
            closes.skip(1).take(k - 2),
        ));
    }
}

/// `(2c + e) / 3 < c` when `e < c`.
proof fn lemma_ema_step_le(c: int, e: int)
    requires
        e < c,
    ensures
        (2 * c + e) / 3 < c,
{
    assert((3 * c - 1) / 3 == c - 1) by {
        vstd::arithmetic::div_mod::lemma_fundamental_div_mod_converse(3 * c - 1, 3, c - 1, 2);
    }
    vstd::arithmetic::div_mod::lemma_div_is_ordered(2 * c + e, 3 * c - 1, 3);
}

/// `(2c + e) / 3 >= c` when `e > c`.
proof fn lemma_ema_step_ge(c: int, e: int)
    requires
        e > c,
    ensures
        (2 * c + e) / 3 >= c,
{
    assert((3 * c + 1) / 3 == c) by {
        vstd::arithmetic::div_mod::lemma_fundamental_div_mod_converse(3 * c + 1, 3, c, 1);
    }
    vstd::arithmetic::div_mod::lemma_div_is_ordered(3 * c + 1, 2 * c + e, 3);
}

/// Feeding a strictly increasing close sequence to a fresh single moving
/// average yields Buy on every bar after the first: the average can never
/// catch up to a close that keeps rising above it.  (The first bar only
/// primes the average and holds.)
pub proof fn lemma_single_moving_average_rising(s: SingleMovingAverage, closes: Seq<i64>, k: int)
    requires
        !s.primed,
        forall|j: int| 0 <= j < closes.len() - 1 ==> #[trigger] closes[j] < closes[j + 1],
        1 <= k < closes.len(),
    ensures
        spec_sma_after(s, closes.take(k)).spec_output(closes[k]) == StrategyOutput::Buy,
{
    lemma_sma_after_tracks(s, closes, k);
    assert(closes[k - 1] < closes[k]);
}

/// Feeding a strictly decreasing close sequence to a fresh single moving
/// average yields Sell on every bar after the first: the average always
/// stays above a close that keeps falling below it.
pub proof fn lemma_single_moving_average_falling(s: SingleMovingAverage, closes: Seq<i64>, k: int)
    requires
        !s.primed,
        forall|j: int| 0 <= j < closes.len() - 1 ==> #[trigger] closes[j] > closes[j + 1],
        1 <= k < closes.len(),
    ensures
        spec_sma_after(s, closes.take(k)).spec_output(closes[k]) == StrategyOutput::Sell,
{
    lemma_sma_after_tracks(s, closes, k);
    assert(closes[k - 1] > closes[k]);
}

/// The configured name selects one of the four strategies.
pub open spec fn is_known_strategy(name: Seq<char>) -> bool {
    ||| name == "Single Moving Average"@
    ||| name == "Two Moving Averages"@
    ||| name == "Support and Resist"@
    ||| name == "Fibonacci"@
}

/// The freshly-constructed strategy a known name selects.
pub open spec fn spec_strategy_of_name(name: Seq<char>) -> Strategy
    recommends
        is_known_strategy(name),
{
    if name == "Single Moving Average"@ {
        Strategy::SingleMovingAverage(SingleMovingAverage { ema: 0i64, primed: false })
    } else if name == "Two Moving Averages"@ {
        Strategy::TwoMovingAverages(TwoMovingAverages { ema_one: 0i64, ema_two: 0i64, primed: false })
    } else if name == "Support and Resist"@ {
        Strategy::SupportNResist(
            SupportNResist { past_high: 0i64, past_low: 0i64, past_close: 0i64, ran_before: false },
        )
    } else {
        Strategy::FibonacciRetracement(FibonacciRetracement::spec_new())
    }
}

/// Select a strategy by its configured name; an unknown name is a fatal
/// configuration error, reported as `None`.
pub fn strategy_from_name(name: &String) -> (r: Option<Strategy>)
    ensures
        match r {
            Some(s) => is_known_strategy(name@) && s == spec_strategy_of_name(name@) && s.wf(),
            None => !is_known_strategy(name@),
        },
{
    proof {
        reveal_strlit("Single Moving Average");
        reveal_strlit("Two Moving Averages");
        reveal_strlit("Support and Resist");
        reveal_strlit("Fibonacci");
    }
    if *name == String::from_str("Single Moving Average") {
        Some(Strategy::SingleMovingAverage(SingleMovingAverage::new()))
    } else if *name == String::from_str("Two Moving Averages") {
        Some(Strategy::TwoMovingAverages(TwoMovingAverages::new()))
    } else if *name == String::from_str("Support and Resist") {
        Some(Strategy::SupportNResist(SupportNResist::new()))
    } else if *name == String::from_str("Fibonacci") {
        Some(Strategy::FibonacciRetracement(FibonacciRetracement::new()))
    } else {
        None
    }
}

} // verus!
