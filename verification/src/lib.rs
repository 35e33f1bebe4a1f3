//! Verified core of the CVDTrader trading bot: the decisions that the bot
//! takes on plain values (order and signal kinds, configuration rules,
//! circuit breaking, reconnect backoff, strategy and risk decisions, feed
//! parsing, and the steps of the main loop).

pub mod text;
pub mod types;
pub mod window;
pub mod circuit_breaker;
pub mod errors;
pub mod market_data;
pub mod config;
pub mod strategy;
pub mod risk;
pub mod execution;
pub mod health;
pub mod event_loop;
