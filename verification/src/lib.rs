//! Adaptive execution engine for a single derivatives exchange.
//!
//! Price history is turned into a moving-average-deviation signal, orders are
//! sized from rolling volatility, and the trading cadence is re-tuned after
//! every trade to hold a target volatility and a target traded-volume quota.
//! All monetary quantities are fixed-point integers; ratios are carried in
//! parts per million.
pub mod types;
pub mod error;
pub mod num;
pub mod strategy;
pub mod signal;
pub mod rate;
pub mod strings;
pub mod trade;
pub mod monitor;
pub mod sign;
pub mod client;
pub mod ws;
pub mod frames;
pub mod channel;
