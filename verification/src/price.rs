//! Fixed-point model of prices, cash amounts and percentage thresholds.
//!
//! Every monetary quantity in the engine is an `i64` holding the value
//! multiplied by [`PRICE_SCALE`], i.e. with four decimal places.  All
//! decision rules compare such quantities by cross-multiplication, so no
//! rounding enters a comparison.

use vstd::prelude::*;

verus! {

/// A price or cash value is the real amount times this factor.
pub const PRICE_SCALE: i64 = 10_000;

/// Largest representable bar price: one million dollars.
pub const MAX_PRICE: i64 = 10_000_000_000;

/// Largest cash balance the ledger may report: ten billion dollars.
pub const MAX_CASH: i64 = 100_000_000_000_000;

/// Largest share count a monitor may commit to one order.
pub const MAX_QTY: u32 = 1_000_000;

/// Largest configurable percentage threshold: one thousand percent
/// (stored scaled by [`PRICE_SCALE`] like every other quantity).
pub const MAX_PCT: i64 = 10_000_000;

/// A bar component (open, high, low, close or volume) is in range.
pub open spec fn amount_wf(x: i64) -> bool {
    0 <= x <= MAX_PRICE
}

/// A cash balance is in range.
pub open spec fn cash_wf(c: i64) -> bool {
    0 <= c <= MAX_CASH
}

/// A configured percentage threshold is in range.
pub open spec fn pct_wf(p: i64) -> bool {
    -MAX_PCT <= p <= MAX_PCT
}

/// One OHLCV price sample for an interval, in fixed-point form.
#[derive(Clone, Copy, Debug)]
pub struct Bar {
    pub open: i64,
    pub high: i64,
    pub low: i64,
    pub close: i64,
    pub volume: i64,
}

impl Bar {
    /// Components are in range and the close is a positive price, so that
    /// share counts can be derived from it.
    pub open spec fn wf(self) -> bool {
        &&& amount_wf(self.open)
        &&& amount_wf(self.high)
        &&& amount_wf(self.low)
        &&& amount_wf(self.close)
        &&& amount_wf(self.volume)
        &&& self.close > 0
    }
}

/// The percentage move from `basis` to `close` is at most `limit`:
/// `(close - basis) / basis * 100 <= limit`, stated without division
/// (`basis` is positive, so cross-multiplying keeps the order).
pub open spec fn pct_move_at_most(basis: int, close: int, limit: int) -> bool
    recommends
        basis > 0,
{
    (close - basis) * 100 * (PRICE_SCALE as int) <= limit * basis
}

/// The percentage move from `basis` to `close` is at least `limit`.
pub open spec fn pct_move_at_least(basis: int, close: int, limit: int) -> bool
    recommends
        basis > 0,
{
    (close - basis) * 100 * (PRICE_SCALE as int) >= limit * basis
}

/// Decides `(close - basis) / basis * 100 <= limit` exactly.
pub fn check_pct_move_at_most(basis: i64, close: i64, limit: i64) -> (r: bool)
    requires
        0 < basis <= MAX_PRICE,
        amount_wf(close),
        pct_wf(limit),
    ensures
        r == pct_move_at_most(basis as int, close as int, limit as int),
{
    proof {
        lemma_mul_bound(limit as int, basis as int, MAX_PCT as int, MAX_PRICE as int);
    }
    (close - basis) * 100 * PRICE_SCALE <= limit * basis
}

/// Decides `(close - basis) / basis * 100 >= limit` exactly.
pub fn check_pct_move_at_least(basis: i64, close: i64, limit: i64) -> (r: bool)
    requires
        0 < basis <= MAX_PRICE,
        amount_wf(close),
        pct_wf(limit),
    ensures
        r == pct_move_at_least(basis as int, close as int, limit as int),
{
    proof {
        lemma_mul_bound(limit as int, basis as int, MAX_PCT as int, MAX_PRICE as int);
    }
    (close - basis) * 100 * PRICE_SCALE >= limit * basis
}

/// `|a * b| <= abound * bbound` when the factors are bounded.
pub proof fn lemma_mul_bound(a: int, b: int, abound: int, bbound: int)
    requires
        -abound <= a <= abound,
        -bbound <= b <= bbound,
        0 <= abound,
        0 <= bbound,
    ensures
        -(abound * bbound) <= a * b <= abound * bbound,
{
    assert(-(abound * bbound) <= a * b <= abound * bbound) by (nonlinear_arith)
        requires
            -abound <= a <= abound,
            -bbound <= b <= bbound,
            0 <= abound,
            0 <= bbound,
    ;
}

/// How many whole shares a buy may commit: the configured cap, or fewer
/// when the ledger cannot cover the cap at the given price.
pub open spec fn spec_affordable_qty(cash: int, close: int, cap: int) -> int
    recommends
        close > 0,
{
    let possible = cash / close;
    if cap <= possible {
        cap
    } else {
        possible
    }
}

/// Computes `min(cap, floor(cash / close))`.
pub fn affordable_qty(cash: i64, close: i64, cap: u32) -> (q: u32)
    requires
        cash_wf(cash),
        0 < close,
        cap <= MAX_QTY,
    ensures
        q == spec_affordable_qty(cash as int, close as int, cap as int),
        q <= cap,
{
    let possible: i64 = cash / close;
    if (cap as i64) <= possible {
        cap
    } else {
        possible as u32
    }
}

} // verus!
