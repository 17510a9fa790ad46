//! Simulated single-pair trading core: a cash/asset ledger with open-position
//! tracking, a moving-average-crossover signal engine over a rolling price
//! history, and an orchestrator that applies stop-loss/take-profit risk
//! control ahead of signal-driven orders.
//!
//! All money and asset amounts are fixed-point integers in micro-units
//! (one whole unit = `SCALE` micro-units), so every balance change, every
//! crossover comparison and every risk threshold is exact integer arithmetic.

pub mod config;
pub mod engine;
pub mod strategy;
pub mod wallet;

pub use wallet::SCALE;
