//! A trading agent's decision core: market regime reports, trade planning,
//! order construction, the agent's tool-calling loop and the exchange
//! request preparation, each with its contract.

pub mod json;
pub mod kraken_types;
pub mod market_regimes;
pub mod text;
pub mod trade;
pub mod workflow;
pub mod tool;
pub mod llm;
pub mod agent;
pub mod utils;
pub mod ta;
pub mod kraken_futures;
pub mod polymarket;
pub mod config;
