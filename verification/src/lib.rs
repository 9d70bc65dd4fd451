//! A backtesting engine for candle-based trading strategies.
//!
//! The core replays an ordered sequence of OHLCV candles through a
//! signal-generating strategy, turns the emitted buy/sell signals into
//! simulated trade executions under a fee model, and tracks the resulting
//! account state (cash, position, equity history) over the full replay.
//!
//! All monetary quantities are exact rationals, so every cost, fee and
//! quantity computation is carried out without rounding.

pub mod account;
pub mod backtest;
pub mod data;
pub mod indicators;
pub mod laws;
pub mod rational;
pub mod traders;

pub use rational::Rat;
