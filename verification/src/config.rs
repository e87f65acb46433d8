//! Configuration of the trading engine.
//!
//! The host loads these values from its environment and hands them over as
//! plain integers: percentages in basis points, amounts in cents,
//! multipliers in hundredths, position age in hundredths of an hour.

use vstd::prelude::*;
use crate::error::TradingError;
use crate::fixed::{MAX_AMOUNT, MAX_PERCENT};

verus! {

/// Trading engine configuration.
#[derive(Debug, Clone)]
pub struct Config {
    /// Environment name (production, staging, development).
    pub environment: String,
    /// Log level.
    pub log_level: String,
    /// Fallback take-profit distance, basis points.
    pub take_profit_percent: i64,
    /// Fallback stop-loss distance, basis points.
    pub stop_loss_percent: i64,
    /// Trailing-stop distance below the high water mark, basis points.
    pub trailing_stop_percent: i64,
    /// Stop-loss at this many hundredths of an ATR below entry.
    pub atr_sl_multiplier: i64,
    /// Take-profit at this many hundredths of an ATR above entry.
    pub atr_tp_multiplier: i64,
    /// Lower bound of the adaptive stop-loss distance, basis points.
    pub min_sl_percent: i64,
    /// Upper bound of the adaptive stop-loss distance, basis points.
    pub max_sl_percent: i64,
    /// Lower bound of the adaptive take-profit distance, basis points.
    pub min_tp_percent: i64,
    /// Upper bound of the adaptive take-profit distance, basis points.
    pub max_tp_percent: i64,
    /// Base risk budget per trade, basis points; tiers adjust it.
    pub max_risk_per_trade_percent: i64,
    /// Base cap per position, basis points of the portfolio; tiers adjust it.
    pub max_portfolio_per_position: i64,
    /// Smallest order the exchange accepts, cents.
    pub min_position_usd: i64,
    /// Share of the portfolio kept as cash, basis points.
    pub cash_reserve_percent: i64,
    /// Hard safety cap on open positions; tiers adjust it lower.
    pub max_total_positions: usize,
    /// Default fee tier, basis points.
    pub base_fee_percent: i64,
    /// Base score needed to enter, hundredths.
    pub base_entry_threshold: i64,
    /// Floor of the entry threshold, hundredths.
    pub min_entry_threshold: i64,
    /// Ceiling of the entry threshold, hundredths.
    pub max_entry_threshold: i64,
    pub cycle_interval_seconds: u64,
    /// Most trades allowed per UTC day.
    pub daily_trade_limit: u32,
    /// Consecutive cycle failures before the circuit breaker pauses trading.
    pub max_consecutive_errors: u32,
    /// Only buy dips in uptrends.
    pub enable_trend_filter: bool,
    /// Only trade high-volume coins.
    pub enable_volume_filter: bool,
    /// Only trade when the whole market is bullish.
    pub enable_market_regime_filter: bool,
    /// Minimum 24-hour volume in cents.
    pub min_volume_usd: i64,
    /// Time-based exit after this many hundredths of an hour; 0 disables it.
    pub max_position_age_hours: i64,
    /// Symbols to trade.
    pub symbols: Vec<String>,
}

impl Config {
    /// The numeric fields lie in the ranges the engine's arithmetic is
    /// specified for.
    pub open spec fn well_formed(self) -> bool {
        &&& 0 <= self.take_profit_percent <= MAX_PERCENT
        &&& 0 <= self.stop_loss_percent <= MAX_PERCENT
        &&& 0 <= self.trailing_stop_percent <= MAX_PERCENT
        &&& 0 <= self.atr_sl_multiplier <= MAX_PERCENT
        &&& 0 <= self.atr_tp_multiplier <= MAX_PERCENT
        &&& 0 <= self.min_sl_percent <= self.max_sl_percent <= MAX_PERCENT
        &&& 0 <= self.min_tp_percent <= self.max_tp_percent <= MAX_PERCENT
        &&& 0 <= self.max_risk_per_trade_percent <= MAX_PERCENT
        &&& 0 <= self.max_portfolio_per_position <= MAX_PERCENT
        &&& 0 <= self.min_position_usd <= MAX_AMOUNT
        &&& 0 <= self.cash_reserve_percent <= MAX_PERCENT
        &&& 0 <= self.min_volume_usd <= MAX_AMOUNT
        &&& 0 <= self.max_position_age_hours <= MAX_PERCENT
    }

    /// Validate the configuration, naming the first field that is out of
    /// bounds.
    pub fn validate(&self) -> (r: Result<(), TradingError>)
        ensures
            r is Ok <==> {
                &&& self.take_profit_percent > 0
                &&& self.stop_loss_percent > 0
                &&& 0 < self.max_risk_per_trade_percent <= 1_000
                &&& self.symbols@.len() > 0
            },
            self.take_profit_percent <= 0 ==> (r matches Err(TradingError::Config(m))
                && m@ == "take_profit_percent must be positive"@),
            self.take_profit_percent > 0 && self.stop_loss_percent <= 0 ==> (r matches Err(
                TradingError::Config(m),
            ) && m@ == "stop_loss_percent must be positive"@),
            self.take_profit_percent > 0 && self.stop_loss_percent > 0 && !(0
                < self.max_risk_per_trade_percent <= 1_000) ==> (r matches Err(
                TradingError::Config(m),
            ) && m@ == "max_risk_per_trade_percent must be 0-10%"@),
            self.take_profit_percent > 0 && self.stop_loss_percent > 0 && 0
                < self.max_risk_per_trade_percent <= 1_000 && self.symbols@.len() == 0 ==> (
            r matches Err(TradingError::Config(m)) && m@ == "At least one symbol required"@),
    {
        if self.take_profit_percent <= 0 {
            return Err(TradingError::Config("take_profit_percent must be positive".to_owned()));
        }
        if self.stop_loss_percent <= 0 {
            return Err(TradingError::Config("stop_loss_percent must be positive".to_owned()));
        }
        if self.max_risk_per_trade_percent <= 0 || self.max_risk_per_trade_percent > 1_000 {
            return Err(TradingError::Config("max_risk_per_trade_percent must be 0-10%".to_owned()));
        }
        if self.symbols.len() == 0 {
            return Err(TradingError::Config("At least one symbol required".to_owned()));
        }
        Ok(())
    }
}

impl Default for Config {
    /// The stock configuration the host falls back to when its environment
    /// sets nothing.
    fn default() -> (r: Self)
        ensures
            r.environment@ == "production"@,
            r.log_level@ == "info"@,
            r.take_profit_percent == 200,
            r.stop_loss_percent == 150,
            r.trailing_stop_percent == 75,
            r.atr_sl_multiplier == 100,
            r.atr_tp_multiplier == 200,
            r.min_sl_percent == 50,
            r.max_sl_percent == 500,
            r.min_tp_percent == 100,
            r.max_tp_percent == 1_000,
            r.max_risk_per_trade_percent == 200,
            r.max_portfolio_per_position == 2_500,
            r.min_position_usd == 1_000,
            r.cash_reserve_percent == 1_500,
            r.max_total_positions == 8,
            r.base_fee_percent == 60,
            r.base_entry_threshold == 6_000,
            r.min_entry_threshold == 4_000,
            r.max_entry_threshold == 8_500,
            r.cycle_interval_seconds == 15,
            r.daily_trade_limit == 30,
            r.max_consecutive_errors == 5,
            r.enable_trend_filter,
            r.enable_volume_filter,
            r.enable_market_regime_filter,
            r.min_volume_usd == 100_000_000,
            r.max_position_age_hours == 4_800,
            r.symbols@.len() == 3,
            r.symbols@[0]@ == "BTC-USD"@,
            r.symbols@[1]@ == "ETH-USD"@,
            r.symbols@[2]@ == "SOL-USD"@,
            r.well_formed(),
    {
        Config {
            environment: "production".to_owned(),
            log_level: "info".to_owned(),
            take_profit_percent: 200,
            stop_loss_percent: 150,
            trailing_stop_percent: 75,
            atr_sl_multiplier: 100,
            atr_tp_multiplier: 200,
            min_sl_percent: 50,
            max_sl_percent: 500,
            min_tp_percent: 100,
            max_tp_percent: 1_000,
            max_risk_per_trade_percent: 200,
            max_portfolio_per_position: 2_500,
            min_position_usd: 1_000,
            cash_reserve_percent: 1_500,
            max_total_positions: 8,
            base_fee_percent: 60,
            base_entry_threshold: 6_000,
            min_entry_threshold: 4_000,
            max_entry_threshold: 8_500,
            cycle_interval_seconds: 15,
            daily_trade_limit: 30,
            max_consecutive_errors: 5,
            enable_trend_filter: true,
            enable_volume_filter: true,
            enable_market_regime_filter: true,
            min_volume_usd: 100_000_000,
            max_position_age_hours: 4_800,
            symbols: vec!["BTC-USD".to_owned(), "ETH-USD".to_owned(), "SOL-USD".to_owned()],
        }
    }
}

} // verus!
