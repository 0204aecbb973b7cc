//! Verified core of an automated stock-trading engine.
//!
//! The crate covers the per-instrument monitor state machine, the pluggable
//! strategy engine, the serialized order-gateway protocol, the
//! admission-controlled scheduling decisions, and the byte-level snapshots
//! that make monitor state recoverable across restarts.  Prices and cash
//! are fixed-point decimals, so every decision rule is exact integer
//! arithmetic with a proved contract.
//!
//! I/O stays outside this crate: the broker session, the market-data feed,
//! the durable snapshot store and configuration files are handled by the
//! surrounding binary, which feeds plain values in and carries order
//! requests out.

pub mod alpaca_api;
pub mod backtest_data;
pub mod clock;
pub mod config;
pub mod market_strategies;
pub mod price;
pub mod snapshot;
pub mod stock_monitor;
pub mod stock_ticker_loop;
