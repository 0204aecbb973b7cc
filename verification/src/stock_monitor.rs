//! The per-instrument monitor state machine.
//!
//! One monitor owns one symbol's trading state: whether a position is held,
//! its cost basis and share count, the day it was opened, and the configured
//! risk guards.  A live tick is a two-phase exchange with the order gateway:
//! [`StockMonitor::run`] applies the swing-trade guard, steps the strategy,
//! applies the risk guards and decides the order to submit, if any — without
//! touching the trading state; [`StockMonitor::settle`] applies the
//! gateway's reply, mutating the trading state only on a processed order, so
//! a failed order leaves the monitor exactly as it was and the next eligible
//! tick retries.  The monitor therefore never holds an unacknowledged order
//! across a state change.

use vstd::prelude::*;

use crate::alpaca_api::APIThreadReq;
use crate::alpaca_api::APIThreadRes;
use crate::market_strategies::{
    is_known_strategy, spec_strategy_of_name, strategy_from_name, Strategy, StrategyOutput,
};
use crate::snapshot::{spec_restore_strategy, spec_strategy_bytes};
use crate::price::{
    cash_wf, lemma_mul_bound, pct_move_at_least, pct_move_at_most, spec_affordable_qty, Bar,
    MAX_CASH, MAX_PCT, MAX_PRICE, MAX_QTY,
};
use crate::price::{affordable_qty, check_pct_move_at_least, check_pct_move_at_most};

verus! {

/// Why a live run aborted without a decision.
#[derive(Clone, Copy, Debug, PartialEq, Eq, Structural)]
pub enum RunError {
    /// Live mode requires a price bar; only backtesting may omit it.
    MissingBarData,
}

impl RunError {
    /// A log-ready description of the error.
    pub fn message(&self) -> (r: String)
        ensures
            r@ == "No bar data provided and not in backtest mode!"@,
    {
        String::from_str("No bar data provided and not in backtest mode!")
    }
}

/// Why a stored snapshot was rejected on rehydration.
#[derive(Clone, Copy, Debug, PartialEq, Eq, Structural)]
pub enum SetStateError {
    /// The snapshot names none of the known strategies.
    UnknownStrategy,
    /// The strategy payload does not decode, or a trading figure is out of
    /// range.
    CorruptSnapshot,
}

/// The essential data persisted for a monitor: its trading state and its
/// strategy's serialized memory, tagged with the strategy's name.
pub struct SimplifiedDBMonitor {
    pub bought_stock: bool,
    pub buy_price: i64,
    pub strat_bytes: Vec<u8>,
    pub strat_name: String,
    pub buy_time: i32,
    pub how_much: u32,
}

impl SimplifiedDBMonitor {
    /// A snapshot a monitor accepts: the strategy payload decodes under its
    /// name and the trading figures are in range.
    pub open spec fn valid(self) -> bool {
        &&& spec_restore_strategy(self.strat_name@, self.strat_bytes@) is Some
        &&& 0 <= self.buy_price <= MAX_PRICE
        &&& (self.bought_stock ==> 0 < self.buy_price)
        &&& 0 <= self.buy_time
        &&& self.how_much <= MAX_QTY
    }

    /// The share count rehydration installs: zero without a position, and
    /// at least one share with one (a held position recorded with zero
    /// shares is corrected to one).
    pub open spec fn spec_restored_qty(self) -> u32 {
        if !self.bought_stock {
            0u32
        } else if self.how_much == 0 {
            1u32
        } else {
            self.how_much
        }
    }
}

/// An order decided by [`StockMonitor::run`], awaiting the gateway's reply.
/// It carries the bar close and calendar day the decision was made with, so
/// that settling a processed buy records the right cost basis and open day.
pub struct PendingOrder {
    pub request: APIThreadReq,
    pub close: i64,
    pub today: i32,
}

/// One traded instrument's monitor.
pub struct StockMonitor {
    pub symbol: String,
    pub stock_strategy: Strategy,
    pub backtest_mode: bool,
    pub bought_stock: bool,
    /// Negated configured drawdown threshold (scaled percent, so -5% is
    /// -50_000): a move at or below it forces liquidation.
    pub emergency_margin_limit: i64,
    pub bought_at: i64,
    /// Day-of-era the current position was opened.
    pub buy_time: i32,
    /// Optional take-profit threshold (scaled percent): a move at or above
    /// it forces liquidation.
    pub upper_limit: Option<i64>,
    /// Most shares one buy may commit.
    pub intensity: u32,
    pub how_much_bought: u32,
}

/// Friday at or past 18:00 UTC: the trading week's risk-off window.
pub open spec fn spec_friday_near_end(weekday: u8, hour: u8) -> bool {
    weekday >= 4 && hour >= 18
}

/// Committing at most `floor(cash / close)` shares never overdraws.
proof fn lemma_qty_cost_le_cash(q: int, close: int, cash: int)
    requires
        0 < close,
        0 <= cash,
        0 <= q <= cash / close,
    ensures
        q * close <= cash,
{
    vstd::arithmetic::div_mod::lemma_fundamental_div_mod(cash, close);
    vstd::arithmetic::div_mod::lemma_mod_bound(cash, close);
    vstd::arithmetic::mul::lemma_mul_inequality(q, cash / close, close);
}

impl StockMonitor {
    /// The monitor's invariant.  In particular: no position means no shares
    /// held, and a held position has a positive cost basis and share count.
    pub open spec fn wf(self) -> bool {
        &&& self.stock_strategy.wf()
        &&& -MAX_PCT <= self.emergency_margin_limit <= 0
        &&& (self.upper_limit matches Some(u) ==> 0 <= u <= MAX_PCT)
        &&& self.intensity <= MAX_QTY
        &&& 0 <= self.bought_at <= MAX_PRICE
        &&& 0 <= self.buy_time
        &&& (!self.bought_stock ==> self.how_much_bought == 0)
        &&& (self.bought_stock ==> 1 <= self.how_much_bought <= MAX_QTY)
        &&& (self.bought_stock ==> 0 < self.bought_at)
    }

    /// The current position was opened today, so the swing-trade guard
    /// makes this run a no-op.
    pub open spec fn spec_same_trade_buy_day(self, today: i32) -> bool {
        self.bought_stock && self.buy_time == today
    }

    /// A risk guard overrides the strategy's directive and liquidates:
    /// emergency drawdown, take-profit, or the weekly risk-off window.
    pub open spec fn spec_forced_sale(self, close: i64, weekday: u8, hour: u8) -> bool
        recommends
            self.bought_stock,
    {
        ||| pct_move_at_most(
            self.bought_at as int,
            close as int,
            self.emergency_margin_limit as int,
        )
        ||| (self.upper_limit matches Some(u) && pct_move_at_least(
            self.bought_at as int,
            close as int,
            u as int,
        ))
        ||| spec_friday_near_end(weekday, hour)
    }

    /// The order a run submits, if any, as a function of the monitor, the
    /// bar and its context.  `None` is a no-op run: held position opened
    /// today, a directive the current position cannot act on, a buy the
    /// ledger cannot fund, or a plain Hold.
    pub open spec fn spec_action(
        self,
        bar: Bar,
        today: i32,
        weekday: u8,
        hour: u8,
        cash: i64,
    ) -> Option<APIThreadReq> {
        if self.spec_same_trade_buy_day(today) {
            None
        } else if self.bought_stock && self.spec_forced_sale(bar.close, weekday, hour) {
            Some(self.spec_sell_request())
        } else {
            match self.stock_strategy.spec_output(bar) {
                StrategyOutput::Buy => {
                    if self.bought_stock {
                        None
                    } else {
                        let q = spec_affordable_qty(
                            cash as int,
                            bar.close as int,
                            self.intensity as int,
                        );
                        if q == 0 {
                            None
                        } else {
                            Some(
                                APIThreadReq::ApiBuyStock {
                                    symbol: self.symbol,
                                    quantity: q as usize,
                                },
                            )
                        }
                    }
                },
                StrategyOutput::Sell => {
                    if !self.bought_stock {
                        None
                    } else {
                        Some(self.spec_sell_request())
                    }
                },
                StrategyOutput::Hold => None,
            }
        }
    }

    /// Liquidate the whole held position.
    pub open spec fn spec_sell_request(self) -> APIThreadReq {
        APIThreadReq::ApiSellStock {
            symbol: self.symbol,
            quantity: self.how_much_bought as usize,
        }
    }

    /// A pending order is consistent with this monitor: a buy only while
    /// not holding, a sell of exactly the held shares only while holding,
    /// both for this monitor's symbol and made at a positive close.
    pub open spec fn pending_wf(self, p: PendingOrder) -> bool {
        &&& 0 < p.close <= MAX_PRICE
        &&& 0 <= p.today
        &&& match p.request {
            APIThreadReq::ApiBuyStock { symbol, quantity } => {
                &&& !self.bought_stock
                &&& symbol@ == self.symbol@
                &&& 1 <= quantity <= self.intensity
            },
            APIThreadReq::ApiSellStock { symbol, quantity } => {
                &&& self.bought_stock
                &&& symbol@ == self.symbol@
                &&& quantity == self.how_much_bought
            },
        }
    }

    /// The run's result carries exactly the expected request, together with
    /// the close and day it was decided on.
    pub open spec fn spec_run_result(
        act: Option<PendingOrder>,
        expected: Option<APIThreadReq>,
        close: i64,
        today: i32,
    ) -> bool {
        match (act, expected) {
            (Some(p), Some(req)) => p.request.matches(req) && p.close == close && p.today == today,
            (None, None) => true,
            _ => false,
        }
    }

    /// One live tick's decision phase.
    ///
    /// Steps the strategy (unless the swing-trade guard holds) and returns
    /// the order to submit to the gateway, if any; the trading state is not
    /// touched until the gateway's reply is settled.  Fails exactly when no
    /// bar was supplied, leaving the monitor unchanged.
    pub fn run(
        &mut self,
        assets: i64,
        bar_data: Option<&Bar>,
        today: i32,
        weekday: u8,
        hour: u8,
    ) -> (r: Result<Option<PendingOrder>, RunError>)
        requires
            old(self).wf(),
            !old(self).backtest_mode,
            cash_wf(assets),
            (bar_data matches Some(b) ==> b.wf()),
            0 <= today,
        ensures
            final(self).wf(),
            r is Err <==> bar_data is None,
            bar_data is None ==> *final(self) == *old(self) && r matches Err(
                RunError::MissingBarData,
            ),
            // The swing-trade guard makes the whole run a no-op.
            (bar_data is Some && old(self).spec_same_trade_buy_day(today)) ==> (*final(self)
                == *old(self) && r matches Ok(None)),
            // A run only ever advances the strategy's memory; the trading
            // state waits for the gateway's reply.
            bar_data matches Some(b) ==> *final(self) == (StockMonitor {
                stock_strategy: if old(self).spec_same_trade_buy_day(today) {
                    old(self).stock_strategy
                } else {
                    old(self).stock_strategy.spec_step(*b)
                },
                ..*old(self)
            }),
            // The decision is exactly `spec_action`.
            bar_data matches Some(b) ==> (r matches Ok(act) && StockMonitor::spec_run_result(
                act,
                old(self).spec_action(*b, today, weekday, hour, assets),
                b.close,
                today,
            )),
            // Never a buy while holding, never a sell while not holding.
            (r matches Ok(Some(p)) && p.request is ApiBuyStock) ==> !old(self).bought_stock,
            (r matches Ok(Some(p)) && p.request is ApiSellStock) ==> old(self).bought_stock,
            // Whatever was decided can be settled against this monitor.
            r matches Ok(Some(p)) ==> final(self).pending_wf(p),
    {
        let bar = match bar_data {
            Some(b) => b,
            None => {
                return Err(RunError::MissingBarData);
            },
        };

        if self.same_trade_buy_day(today) {
            return Ok(None);
        }

        let strat_result = self.stock_strategy.run(bar);
        let close = bar.close;

        if self.bought_stock {
            let forced = {
                if check_pct_move_at_most(self.bought_at, close, self.emergency_margin_limit) {
                    true
                } else {
                    let upper_hit = match self.upper_limit {
                        Some(u) => check_pct_move_at_least(self.bought_at, close, u),
                        None => false,
                    };
                    if upper_hit {
                        true
                    } else {
                        StockMonitor::friday_near_end_of_trading_day(weekday, hour)
                    }
                }
            };
            if forced {
                return Ok(
                    Some(
                        PendingOrder {
                            request: APIThreadReq::ApiSellStock {
                                symbol: self.symbol.clone(),
                                quantity: self.how_much_bought as usize,
                            },
                            close,
                            today,
                        },
                    ),
                );
            }
        }

        match strat_result {
            StrategyOutput::Buy => {
                if self.bought_stock {
                    return Ok(None);
                }
                let quantity = affordable_qty(assets, close, self.intensity);
                if quantity == 0 {
                    return Ok(None);
                }
                Ok(
                    Some(
                        PendingOrder {
                            request: APIThreadReq::ApiBuyStock {
                                symbol: self.symbol.clone(),
                                quantity: quantity as usize,
                            },
                            close,
                            today,
                        },
                    ),
                )
            },
            StrategyOutput::Sell => {
                if !self.bought_stock {
                    return Ok(None);
                }
                Ok(
                    Some(
                        PendingOrder {
                            request: APIThreadReq::ApiSellStock {
                                symbol: self.symbol.clone(),
                                quantity: self.how_much_bought as usize,
                            },
                            close,
                            today,
                        },
                    ),
                )
            },
            StrategyOutput::Hold => Ok(None),
        }
    }

    /// One live tick's settlement phase: apply the gateway's reply to the
    /// order `run` decided.
    ///
    /// Only a processed order changes the trading state — a processed buy
    /// opens the position at the decision's close and day, a processed sell
    /// empties it.  A failed order leaves the monitor exactly as it was.
    pub fn settle(&mut self, pending: PendingOrder, response: &APIThreadRes)
        requires
            old(self).wf(),
            old(self).pending_wf(pending),
        ensures
            final(self).wf(),
            // A failed order changes nothing.
            response matches APIThreadRes::ApiError { .. } ==> *final(self) == *old(self),
            response is ApiProcessed ==> (pending.request matches APIThreadReq::ApiBuyStock {
                quantity,
                ..
            } ==> *final(self) == (StockMonitor {
                bought_stock: true,
                bought_at: pending.close,
                buy_time: pending.today,
                how_much_bought: quantity as u32,
                ..*old(self)
            })),
            (response is ApiProcessed && pending.request is ApiSellStock) ==> *final(self)
                == (StockMonitor { bought_stock: false, how_much_bought: 0u32, ..*old(self) }),
            // No position, no shares.
            !final(self).bought_stock ==> final(self).how_much_bought == 0,
    {
        match response {
            APIThreadRes::ApiProcessed => {
                match pending.request {
                    APIThreadReq::ApiBuyStock { symbol: _, quantity } => {
                        self.bought_stock = true;
                        self.bought_at = pending.close;
                        self.buy_time = pending.today;
                        self.how_much_bought = quantity as u32;
                    },
                    APIThreadReq::ApiSellStock { symbol: _, quantity: _ } => {
                        self.bought_stock = false;
                        self.how_much_bought = 0;
                    },
                }
            },
            APIThreadRes::ApiError { .. } => {},
        }
    }

    /// One backtest bar applied to the monitor, the virtual ledger and the
    /// running profit.  The strategy always steps; a drawdown breach
    /// liquidates before the directive is considered; a buy is skipped at
    /// the week's end, when already holding, or when the ledger cannot fund
    /// a single share; a sell without a position is a no-op.  Trades move
    /// the ledger and the profit by the full position's worth.
    pub open spec fn spec_backtest_step(
        self,
        cash: int,
        made: int,
        bar: Bar,
        weekday: u8,
    ) -> (StockMonitor, int, int) {
        let stepped = StockMonitor { stock_strategy: self.stock_strategy.spec_step(bar), ..self };
        let out = self.stock_strategy.spec_output(bar);
        let credit = self.how_much_bought * bar.close;
        if self.bought_stock && pct_move_at_most(
            self.bought_at as int,
            bar.close as int,
            self.emergency_margin_limit as int,
        ) {
            (
                StockMonitor { bought_stock: false, how_much_bought: 0u32, ..stepped },
                cash + credit,
                made + credit,
            )
        } else {
            match out {
                StrategyOutput::Buy => {
                    if self.bought_stock || weekday >= 4 {
                        (stepped, cash, made)
                    } else {
                        let q = spec_affordable_qty(cash, bar.close as int, self.intensity as int);
                        if q == 0 {
                            (stepped, cash, made)
                        } else {
                            let cost = q * bar.close;
                            (
                                StockMonitor {
                                    bought_stock: true,
                                    bought_at: bar.close,
                                    how_much_bought: q as u32,
                                    ..stepped
                                },
                                cash - cost,
                                made - cost,
                            )
                        }
                    }
                },
                StrategyOutput::Sell => {
                    if !self.bought_stock {
                        (stepped, cash, made)
                    } else {
                        (
                            StockMonitor { bought_stock: false, how_much_bought: 0u32, ..stepped },
                            cash + credit,
                            made + credit,
                        )
                    }
                },
                StrategyOutput::Hold => (stepped, cash, made),
            }
        }
    }

    /// A whole backtest run, bar by bar.
    pub open spec fn spec_backtest_fold(
        self,
        cash: int,
        made: int,
        bars: Seq<Bar>,
        weekday: u8,
    ) -> (StockMonitor, int, int)
        decreases bars.len(),
    {
        if bars.len() == 0 {
            (self, cash, made)
        } else {
            let s = self.spec_backtest_step(cash, made, bars[0], weekday);
            s.0.spec_backtest_fold(s.1, s.2, bars.skip(1), weekday)
        }
    }

    /// Replay historical bars against the strategy and the risk guards,
    /// trading against a virtual ledger.  Returns the net profit; the
    /// ledger is left at its final balance.  The run is exactly the fold of
    /// [`StockMonitor::spec_backtest_step`] over the bars.
    pub fn run_backtest(&mut self, bars: &Vec<Bar>, assets: &mut i128, weekday: u8) -> (money_made:
        i128)
        requires
            old(self).wf(),
            0 <= *old(assets) <= MAX_CASH,
            forall|i: int| 0 <= i < bars@.len() ==> (#[trigger] bars@[i]).wf(),
        ensures
            final(self).wf(),
            ({
                let f = old(self).spec_backtest_fold(*old(assets) as int, 0, bars@, weekday);
                &&& *final(self) == f.0
                &&& *final(assets) as int == f.1
                &&& money_made as int == f.2
            }),
            // No position, no shares: the invariant survives the whole run.
            !final(self).bought_stock ==> final(self).how_much_bought == 0,
    {
        let ghost m0 = *old(self);
        let ghost c0 = *old(assets) as int;
        let mut made: i128 = 0;
        let n = bars.len();
        let mut i: usize = 0;
        proof {
            assert(bars@.skip(0) =~= bars@);
        }
        while i < n
            invariant
                0 <= i <= n,
                n == bars@.len(),
                forall|k: int| 0 <= k < n ==> (#[trigger] bars@[k]).wf(),
                self.wf(),
                0 <= *assets <= MAX_CASH + (i as int) * 10_000_000_000_000_000,
                -((i as int) * 10_000_000_000_000_000) <= made <= (i as int)
                    * 10_000_000_000_000_000,
                m0.spec_backtest_fold(c0, 0, bars@, weekday) == self.spec_backtest_fold(
                    *assets as int,
                    made as int,
                    bars@.skip(i as int),
                    weekday,
                ),
            decreases n - i,
        {
            let ghost m_i = *self;
            let ghost cash_i = *assets as int;
            let ghost made_i = made as int;
            let bar = bars[i];

            let out = self.stock_strategy.run(&bar);

            let forced = self.bought_stock && check_pct_move_at_most(
                self.bought_at,
                bar.close,
                self.emergency_margin_limit,
            );
            if forced {
                proof {
                    lemma_mul_bound(
                        self.how_much_bought as int,
                        bar.close as int,
                        MAX_QTY as int,
                        MAX_PRICE as int,
                    );
                }
                let credit: i128 = (self.how_much_bought as i128) * (bar.close as i128);
                *assets = *assets + credit;
                made = made + credit;
                self.bought_stock = false;
                self.how_much_bought = 0;
            } else {
                match out {
                    StrategyOutput::Buy => {
                        if !self.bought_stock && !StockMonitor::is_friday(weekday) {
                            let possible: i128 = *assets / (bar.close as i128);
                            let quantity: u32 = if (self.intensity as i128) <= possible {
                                self.intensity
                            } else {
                                possible as u32
                            };
                            if quantity > 0 {
                                proof {
                                    lemma_qty_cost_le_cash(
                                        quantity as int,
                                        bar.close as int,
                                        *assets as int,
                                    );
                                    lemma_mul_bound(
                                        quantity as int,
                                        bar.close as int,
                                        MAX_QTY as int,
                                        MAX_PRICE as int,
                                    );
                                }
                                let cost: i128 = (quantity as i128) * (bar.close as i128);
                                *assets = *assets - cost;
                                made = made - cost;
                                self.bought_stock = true;
                                self.bought_at = bar.close;
                                self.how_much_bought = quantity;
                            }
                        }
                    },
                    StrategyOutput::Sell => {
                        if self.bought_stock {
                            proof {
                                lemma_mul_bound(
                                    self.how_much_bought as int,
                                    bar.close as int,
                                    MAX_QTY as int,
                                    MAX_PRICE as int,
                                );
                            }
                            let credit: i128 = (self.how_much_bought as i128) * (bar.close
                                as i128);
                            *assets = *assets + credit;
                            made = made + credit;
                            self.bought_stock = false;
                            self.how_much_bought = 0;
                        }
                    },
                    StrategyOutput::Hold => {},
                }
            }

            proof {
                let s = m_i.spec_backtest_step(cash_i, made_i, bar, weekday);
                assert(bars@.skip(i as int)[0] == bars@[i as int]);
                assert((*self, *assets as int, made as int) == s);
                assert(bars@.skip(i as int).skip(1) =~= bars@.skip(i as int + 1));
            }
            i = i + 1;
        }
        proof {
            assert(bars@.skip(n as int) =~= Seq::<Bar>::empty());
        }
        made
    }

    /// The swing-trade guard: the held position was opened today.
    pub fn same_trade_buy_day(&self, today: i32) -> (r: bool)
        ensures
            r == self.spec_same_trade_buy_day(today),
    {
        self.bought_stock && self.buy_time == today
    }

    /// Build a monitor from its configuration.  The strategy name must be
    /// one of the four known strategies — an unknown name is a fatal
    /// configuration error, which [`strategy_from_name`] lets a caller
    /// detect before construction.  The configured drawdown threshold is
    /// given as a positive magnitude and stored negated.
    pub fn new(
        symbol: String,
        backtest_mode: bool,
        strategy: String,
        emergency_margin_limit: i64,
        upper_limit: Option<i64>,
        intensity: u32,
    ) -> (m: StockMonitor)
        requires
            is_known_strategy(strategy@),
            0 <= emergency_margin_limit <= MAX_PCT,
            (upper_limit matches Some(u) ==> 0 <= u <= MAX_PCT),
            intensity <= MAX_QTY,
        ensures
            m.wf(),
            m.symbol@ == symbol@,
            m.stock_strategy == spec_strategy_of_name(strategy@),
            m.backtest_mode == backtest_mode,
            !m.bought_stock,
            m.emergency_margin_limit == -emergency_margin_limit,
            m.bought_at == 0,
            m.buy_time == 0,
            m.upper_limit == upper_limit,
            m.intensity == intensity,
            m.how_much_bought == 0,
    {
        let strat = match strategy_from_name(&strategy) {
            Some(s) => s,
            None => {
                proof {
                    assert(false);
                }
                Strategy::SingleMovingAverage(crate::market_strategies::SingleMovingAverage::new())
            },
        };
        StockMonitor {
            symbol,
            stock_strategy: strat,
            backtest_mode,
            bought_stock: false,
            emergency_margin_limit: -emergency_margin_limit,
            bought_at: 0,
            buy_time: 0,
            upper_limit,
            intensity,
            how_much_bought: 0,
        }
    }

    /// The monitor's durable snapshot: the trading state plus the
    /// strategy's serialized memory, tagged with the strategy's name.
    pub fn save_state(&self) -> (r: SimplifiedDBMonitor)
        requires
            self.wf(),
        ensures
            r.bought_stock == self.bought_stock,
            r.buy_price == self.bought_at,
            r.strat_bytes@ == spec_strategy_bytes(self.stock_strategy),
            r.strat_name@ == self.stock_strategy.spec_name(),
            r.buy_time == self.buy_time,
            r.how_much == self.how_much_bought,
    {
        let strat_data = self.stock_strategy.save_state();
        SimplifiedDBMonitor {
            bought_stock: self.bought_stock,
            buy_price: self.bought_at,
            strat_bytes: strat_data.0,
            strat_name: strat_data.1,
            buy_time: self.buy_time,
            how_much: self.how_much_bought,
        }
    }

    /// Rehydrate the monitor from a stored snapshot.
    ///
    /// The snapshot's strategy memory is adopted only when its name matches
    /// the configured strategy — a snapshot of a different strategy is
    /// discarded, never merged.  An unknown name or an undecodable payload
    /// fails loudly, and a snapshot whose trading figures are out of range
    /// is rejected; in every failing case the monitor is left unchanged.
    /// A snapshot with no position always rehydrates to zero shares held,
    /// and a held position with a recorded count of zero is corrected to
    /// one share, so the monitor's invariant holds afterwards.
    pub fn set_state(&mut self, simple_mon: SimplifiedDBMonitor) -> (r: Result<(), SetStateError>)
        requires
            old(self).wf(),
        ensures
            final(self).wf(),
            r is Err ==> *final(self) == *old(self),
            (r matches Err(SetStateError::UnknownStrategy) <==> !is_known_strategy(
                simple_mon.strat_name@,
            )),
            r is Ok <==> simple_mon.valid(),
            r is Ok ==> *final(self) == (StockMonitor {
                bought_stock: simple_mon.bought_stock,
                bought_at: simple_mon.buy_price,
                buy_time: simple_mon.buy_time,
                how_much_bought: simple_mon.spec_restored_qty(),
                stock_strategy: if simple_mon.strat_name@
                    == old(self).stock_strategy.spec_name() {
                    spec_restore_strategy(simple_mon.strat_name@, simple_mon.strat_bytes@)->Some_0
                } else {
                    old(self).stock_strategy
                },
                ..*old(self)
            }),
    {
        if strategy_from_name(&simple_mon.strat_name).is_none() {
            return Err(SetStateError::UnknownStrategy);
        }
        let strat = match Strategy::restore(&simple_mon.strat_name, &simple_mon.strat_bytes) {
            Some(s) => s,
            None => {
                return Err(SetStateError::CorruptSnapshot);
            },
        };
        if !(0 <= simple_mon.buy_price && simple_mon.buy_price <= MAX_PRICE) {
            return Err(SetStateError::CorruptSnapshot);
        }
        if simple_mon.bought_stock && simple_mon.buy_price == 0 {
            return Err(SetStateError::CorruptSnapshot);
        }
        if simple_mon.buy_time < 0 {
            return Err(SetStateError::CorruptSnapshot);
        }
        if simple_mon.how_much > MAX_QTY {
            return Err(SetStateError::CorruptSnapshot);
        }

        // Adopt the stored strategy memory only when it belongs to the
        // configured strategy; otherwise the configuration wins.
        if simple_mon.strat_name == self.stock_strategy.name() {
            self.stock_strategy = strat;
        }
        self.bought_stock = simple_mon.bought_stock;
        self.bought_at = simple_mon.buy_price;
        self.buy_time = simple_mon.buy_time;
        self.how_much_bought = if !simple_mon.bought_stock {
            0
        } else if simple_mon.how_much == 0 {
            1
        } else {
            simple_mon.how_much
        };
        Ok(())
    }

    /// Friday (or later in the week) by day-of-week from Monday.
    pub fn is_friday(weekday: u8) -> (r: bool)
        ensures
            r == (weekday >= 4),
    {
        weekday >= 4
    }

    /// Friday at or past 18:00 UTC.
    pub fn friday_near_end_of_trading_day(weekday: u8, hour: u8) -> (r: bool)
        ensures
            r == spec_friday_near_end(weekday, hour),
    {
        weekday >= 4 && hour >= 18
    }
}

} // verus!
