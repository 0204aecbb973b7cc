//! Engine configuration values.
//!
//! The configuration file itself is read and parsed by the surrounding
//! binary, which converts it into these plain values; each instrument entry
//! then becomes a monitor via [`Stock::convert`].

use vstd::prelude::*;

use crate::market_strategies::{is_known_strategy, spec_strategy_of_name};
use crate::price::{MAX_CASH, MAX_PCT, MAX_QTY};
use crate::stock_monitor::StockMonitor;

verus! {

/// Broker credentials, passed through to the session setup.
pub struct ApiKeys {
    pub alpaca_key_id: String,
    pub alpaca_key_secret: String,
    pub alpaca_base_url: String,
}

/// Engine-wide knobs.
pub struct EngineConfig {
    /// Starting virtual balance for backtests (fixed-point).
    pub backtest_money: i64,
    /// Worker pool size.
    pub threads: usize,
}

impl EngineConfig {
    pub open spec fn wf(self) -> bool {
        &&& 0 <= self.backtest_money <= MAX_CASH
        &&& 0 < self.threads
    }
}

/// One instrument's configuration.
pub struct Stock {
    pub symbol: String,
    pub strategy: String,
    /// Drawdown magnitude that forces liquidation (positive, scaled
    /// percent).
    pub emergency_limit: i64,
    /// Optional take-profit threshold (scaled percent).
    pub upper_limit: Option<i64>,
    /// Most shares one buy may commit.
    pub intensity: u32,
}

impl Stock {
    /// A usable instrument entry: a known strategy name and thresholds in
    /// range.
    pub open spec fn wf(self) -> bool {
        &&& is_known_strategy(self.strategy@)
        &&& 0 <= self.emergency_limit <= MAX_PCT
        &&& (self.upper_limit matches Some(u) ==> 0 <= u <= MAX_PCT)
        &&& self.intensity <= MAX_QTY
    }

    pub fn get_symbol(&self) -> (r: String)
        ensures
            r@ == self.symbol@,
    {
        self.symbol.clone()
    }

    /// Turn a configured instrument into its monitor.
    pub fn convert(self, backtest_mode: bool) -> (m: StockMonitor)
        requires
            self.wf(),
        ensures
            m.wf(),
            m.symbol@ == self.symbol@,
            m.stock_strategy == spec_strategy_of_name(self.strategy@),
            m.backtest_mode == backtest_mode,
            !m.bought_stock,
            m.how_much_bought == 0,
            m.emergency_margin_limit == -self.emergency_limit,
            m.upper_limit == self.upper_limit,
            m.intensity == self.intensity,
    {
        StockMonitor::new(
            self.symbol,
            backtest_mode,
            self.strategy,
            self.emergency_limit,
            self.upper_limit,
            self.intensity,
        )
    }
}

/// The whole configuration: credentials, instruments, engine knobs, and
/// whether the engine backtests instead of trading live.
pub struct BotConfig {
    pub keys: ApiKeys,
    pub stocks: Vec<Stock>,
    pub stock_engine_config: EngineConfig,
    pub testing_mode: bool,
}

impl BotConfig {
    pub open spec fn wf(self) -> bool {
        &&& (forall|i: int| 0 <= i < self.stocks@.len() ==> (#[trigger] self.stocks@[i]).wf())
        &&& self.stock_engine_config.wf()
    }
}

} // verus!
