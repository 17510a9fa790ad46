//! Run-wide options, read once at startup and immutable for the run.

use vstd::prelude::*;

verus! {

use crate::strategy::MAX_WINDOW;
use crate::wallet::SCALE;

broadcast use vstd::string::to_string_from_display_ensures_for_str;

/// Options of one run. The two thresholds are micro-fractions: a value of
/// `n` means the fraction `n / SCALE`, so `20_000` is 2%.
#[derive(Debug, Clone)]
pub struct TradingConfig {
    /// Asset pair identifier, opaque to the core.
    pub pair: String,
    /// Sampling granularity label, opaque to the core.
    pub interval: String,
    /// Short moving-average window, in observations.
    pub sma_short_period: usize,
    /// Long moving-average window, in observations.
    pub sma_long_period: usize,
    /// Loss fraction (micro-fraction of the average entry) that forces a
    /// liquidation.
    pub stop_loss_micros: u64,
    /// Gain fraction (micro-fraction of the average entry) that forces a
    /// liquidation.
    pub take_profit_micros: u64,
    /// Starting cash, in micro-cash units.
    pub initial_balance: u64,
}

/// Positive windows small enough for exact comparison, thresholds that are
/// genuine fractions in (0, 1), and a positive starting balance.
pub open spec fn config_wf(c: TradingConfig) -> bool {
    &&& 1 <= c.sma_short_period <= MAX_WINDOW
    &&& 1 <= c.sma_long_period <= MAX_WINDOW
    &&& 1 <= c.stop_loss_micros < SCALE
    &&& 1 <= c.take_profit_micros < SCALE
    &&& 1 <= c.initial_balance
}

impl TradingConfig {
    /// The stock configuration: a 10/50 crossover on BTCUSDT one-minute
    /// candles, 2% stop loss, 5% take profit, 10,000 in starting cash.
    pub fn default() -> (c: TradingConfig)
        ensures
            config_wf(c),
            c.pair@ == "BTCUSDT"@,
            c.interval@ == "1m"@,
            c.sma_short_period == 10,
            c.sma_long_period == 50,
            c.stop_loss_micros == 20_000,
            c.take_profit_micros == 50_000,
            c.initial_balance == 10_000 * SCALE,
    {
        TradingConfig {
            pair: "BTCUSDT".to_string(),
            interval: "1m".to_string(),
            sma_short_period: 10,
            sma_long_period: 50,
            stop_loss_micros: 20_000,
            take_profit_micros: 50_000,
            initial_balance: 10_000 * SCALE,
        }
    }
}

} // verus!
