//! Trading strategy engine.
//!
//! A mean-reversion strategy: entry signals from the price's position in the
//! 24-hour range, take-profit and stop-loss exits, a trailing stop for
//! profit protection, and capital-tier-adaptive risk management.

use vstd::prelude::*;
use crate::capital_tier::{spec_tier_for, CapitalTier, TierParameters};
use crate::config::Config;
use crate::fixed::{
    apply_bp, div_trunc, lemma_diff_product_in_i128, lemma_div_trunc_bounded,
    lemma_i64_product_in_i128, lemma_product_bound, max_i64, min_i64, mul_div_trunc, spec_max_i64,
    unapply_bp, BP_WHOLE, MAX_AMOUNT,
};
use crate::timeparse::{parse_rfc3339_epoch, rfc3339_epoch};
use crate::types::Position;

verus! {

/// Trading signal for a symbol.
#[derive(Debug, Clone, Copy, PartialEq, Eq, Structural)]
pub enum TradingSignal {
    Buy,
    Sell,
    Hold,
}

/// Why the exit evaluator closes a position, in checking order.
#[derive(Debug, Clone, Copy, PartialEq, Eq, Structural)]
pub enum ExitReason {
    StopLoss,
    TakeProfit,
    TrailingStop,
    TimeExpired,
    Manual,
}

impl ExitReason {
    /// The reason spelled out.
    pub fn label(&self) -> (r: &'static str)
        ensures
            self is StopLoss ==> r@ == "Stop Loss"@,
            self is TakeProfit ==> r@ == "Take Profit"@,
            self is TrailingStop ==> r@ == "Trailing Stop"@,
            self is TimeExpired ==> r@ == "Time Expired"@,
            self is Manual ==> r@ == "Manual"@,
    {
        match self {
            ExitReason::StopLoss => "Stop Loss",
            ExitReason::TakeProfit => "Take Profit",
            ExitReason::TrailingStop => "Trailing Stop",
            ExitReason::TimeExpired => "Time Expired",
            ExitReason::Manual => "Manual",
        }
    }
}

/// Why a symbol was rejected before signalling, with its figures.
#[derive(Debug, Clone, Copy, PartialEq, Eq, Structural)]
pub enum RejectionReason {
    /// The price sits below its six-hour average.
    Downtrend,
    /// The 24-hour volume in cents is below the configured minimum.
    LowVolume { volume_usd: i64, minimum: i64 },
}

impl RejectionReason {
    /// The rejection spelled out.
    pub fn message(&self) -> (r: String)
        ensures
            self is Downtrend ==> r@ == "Downtrend (price below 6h avg)"@,
            self is LowVolume ==> r@ == "Low volume (below configured minimum)"@,
    {
        match self {
            RejectionReason::Downtrend => "Downtrend (price below 6h avg)".to_owned(),
            RejectionReason::LowVolume { .. } => "Low volume (below configured minimum)".to_owned(
            ),
        }
    }
}

/// Market analysis result for a symbol.
#[derive(Debug, Clone)]
pub struct MarketAnalysis {
    pub symbol: String,
    /// Cents.
    pub price: i64,
    /// 24-hour change in basis points.
    pub change_24h: i64,
    /// Position in the 24-hour range, hundredths of a point from 0 to 10000;
    /// lower is nearer the low.
    pub range_position: i64,
    pub signal: TradingSignal,
    /// Hundredths of a unit, 0 to 100.
    pub confidence: i64,
    /// Trend filter input: price above its six-hour average.
    pub is_uptrend: bool,
    /// 24-hour volume in cents.
    pub volume_24h: i64,
    /// Why the symbol was rejected, if it was.
    pub rejection_reason: Option<RejectionReason>,
}

/// Where the price sits in the 24-hour range, in hundredths of a point,
/// clamped to [0, 10000]; an empty or inverted range reads as the middle.
pub open spec fn spec_range_position(price: i64, high: i64, low: i64) -> int {
    if high > low {
        if price <= low {
            0
        } else if price >= high {
            10_000
        } else {
            (price - low) * 10_000 / (high - low)
        }
    } else {
        5_000
    }
}

/// 24-hour volume in cents: base-unit volume times price.
pub open spec fn spec_volume_usd(volume: i64, price: i64) -> int {
    div_trunc(volume * price, 100)
}

/// The filter rejection for a symbol, if any; a volume rejection takes
/// precedence over a trend rejection.
pub open spec fn spec_rejection(cfg: Config, is_uptrend: bool, volume_usd: i64) -> Option<
    RejectionReason,
> {
    if cfg.enable_volume_filter && volume_usd < cfg.min_volume_usd {
        Some(RejectionReason::LowVolume { volume_usd, minimum: cfg.min_volume_usd })
    } else if cfg.enable_trend_filter && !is_uptrend {
        Some(RejectionReason::Downtrend)
    } else {
        None
    }
}

/// Signal and confidence from the range position and the 24-hour change:
/// buys are dips in the lower quarter of the range, excluded during
/// freefalls and blow-off tops; sells are tops of the range or large moves.
pub open spec fn spec_signal_confidence(rejected: bool, range_position: int, change_24h: i64) -> (
    TradingSignal,
    i64,
) {
    if rejected {
        (TradingSignal::Hold, 0)
    } else if range_position < 2_500 && change_24h > -200 && change_24h < 300 {
        (TradingSignal::Buy, if range_position < 1_500 { 90 } else { 70 })
    } else if range_position > 8_000 || change_24h > 500 {
        (TradingSignal::Sell, 50)
    } else {
        (TradingSignal::Hold, 0)
    }
}

/// Clamp a value into a closed interval.
pub open spec fn spec_clamp(x: int, lo: int, hi: int) -> int
    recommends
        lo <= hi,
{
    if x < lo {
        lo
    } else if x > hi {
        hi
    } else {
        x
    }
}

/// The adaptive stop-loss distance in basis points: the ATR (half the
/// 24-hour range) times the configured multiplier, clamped to the bounds.
pub open spec fn spec_sl_percent(cfg: Config, volatility_percent: i64) -> int {
    spec_clamp(
        (volatility_percent / 2) * cfg.atr_sl_multiplier / 100,
        cfg.min_sl_percent as int,
        cfg.max_sl_percent as int,
    )
}

/// The adaptive take-profit distance in basis points.
pub open spec fn spec_tp_percent(cfg: Config, volatility_percent: i64) -> int {
    spec_clamp(
        (volatility_percent / 2) * cfg.atr_tp_multiplier / 100,
        cfg.min_tp_percent as int,
        cfg.max_tp_percent as int,
    )
}

/// The absolute stop-loss price the adaptive distance gives at entry.
pub open spec fn spec_sl_price(cfg: Config, entry_price: i64, volatility_percent: i64) -> int {
    div_trunc(entry_price * (10_000 - spec_sl_percent(cfg, volatility_percent)), BP_WHOLE as int)
}

/// The absolute take-profit price the adaptive distance gives at entry.
pub open spec fn spec_tp_price(cfg: Config, entry_price: i64, volatility_percent: i64) -> int {
    entry_price * (10_000 + spec_tp_percent(cfg, volatility_percent)) / (BP_WHOLE as int)
}

/// Whether the stop-loss rule fires: at or below the position's own
/// stop-loss price when one is set, else at a loss of at least the
/// configured percentage of entry.
pub open spec fn spec_stop_loss_hit(cfg: Config, p: Position, price: i64) -> bool {
    match p.stop_loss_price {
        Some(sl) => price <= sl,
        None => (price - p.entry_price) * 10_000 <= -(cfg.stop_loss_percent * p.entry_price),
    }
}

/// Whether the take-profit rule fires: at or above the position's own
/// take-profit price when one is set, else at a gain of at least the
/// configured percentage of entry.
pub open spec fn spec_take_profit_hit(cfg: Config, p: Position, price: i64) -> bool {
    match p.take_profit_price {
        Some(tp) => price >= tp,
        None => (price - p.entry_price) * 10_000 >= cfg.take_profit_percent * p.entry_price,
    }
}

/// Whether the trailing stop fires: at or below the trailing share of the
/// high water mark, regardless of current profitability.  Without a mark the
/// rule never fires.
pub open spec fn spec_trailing_hit(cfg: Config, p: Position, price: i64) -> bool {
    match p.high_water_mark {
        Some(hwm) => price * 10_000 <= hwm * (10_000 - cfg.trailing_stop_percent),
        None => false,
    }
}

/// Whether the time exit fires: the age limit is on, the entry time was
/// readable, and the position is at least that many hours old.  The age
/// limit is in hundredths of an hour, so 36 seconds each.
pub open spec fn spec_time_expired(cfg: Config, now_epoch: i64, entry_epoch: Option<i64>) -> bool {
    &&& cfg.max_position_age_hours > 0
    &&& entry_epoch matches Some(t) && now_epoch - t >= 36 * cfg.max_position_age_hours
}

/// The exit decision for a position at a price: stop-loss, take-profit,
/// trailing stop and time exit, checked in that fixed priority.
pub open spec fn spec_check_exit(
    cfg: Config,
    p: Position,
    price: i64,
    now_epoch: i64,
    entry_epoch: Option<i64>,
) -> Option<ExitReason> {
    if spec_stop_loss_hit(cfg, p, price) {
        Some(ExitReason::StopLoss)
    } else if spec_take_profit_hit(cfg, p, price) {
        Some(ExitReason::TakeProfit)
    } else if spec_trailing_hit(cfg, p, price) {
        Some(ExitReason::TrailingStop)
    } else if spec_time_expired(cfg, now_epoch, entry_epoch) {
        Some(ExitReason::TimeExpired)
    } else {
        None
    }
}

/// A position below both its stop-loss price and its trailing trigger exits
/// as a stop-loss: the stop-loss is checked first.
pub proof fn lemma_stop_loss_priority(
    cfg: Config,
    p: Position,
    price: i64,
    now_epoch: i64,
    entry_epoch: Option<i64>,
)
    requires
        spec_stop_loss_hit(cfg, p, price),
        spec_trailing_hit(cfg, p, price),
    ensures
        spec_check_exit(cfg, p, price, now_epoch, entry_epoch) == Some(ExitReason::StopLoss),
{
}

/// Malformed inputs degrade to "no exit this cycle": an unreadable entry
/// time never yields a time exit, and a missing high water mark never yields
/// a trailing stop.
pub proof fn lemma_malformed_inputs_degrade(
    cfg: Config,
    p: Position,
    price: i64,
    now_epoch: i64,
    entry_epoch: Option<i64>,
)
    ensures
        entry_epoch is None ==> spec_check_exit(cfg, p, price, now_epoch, entry_epoch) != Some(
            ExitReason::TimeExpired,
        ),
        p.high_water_mark is None ==> spec_check_exit(cfg, p, price, now_epoch, entry_epoch)
            != Some(ExitReason::TrailingStop),
{
}

/// Result of a position size calculation.  Every intermediate is kept for
/// inspection, not just the final size.
#[derive(Debug, Clone, PartialEq, Eq, Structural)]
pub struct PositionSizeResult {
    /// Final position size, cents.
    pub size: i64,
    /// Size from the risk budget alone, cents.
    pub risk_based: i64,
    /// After the volatility adjustment, cents.
    pub volatility_adjusted: i64,
    /// Tier cap per position, cents.
    pub max_per_position: i64,
    /// Cash available after the reserve, cents.
    pub available_after_reserve: i64,
    /// Whether a position may open.
    pub can_trade: bool,
    /// Why no position may open, if it may not.
    pub reason: Option<SizeRejection>,
    /// The capital tier the portfolio fell in.
    pub tier: Option<CapitalTier>,
}

/// Why the sizer refused to open a position.
#[derive(Debug, Clone, Copy, PartialEq, Eq, Structural)]
pub enum SizeRejection {
    /// The capital tier forbids trading altogether.
    TierCannotTrade(CapitalTier),
    /// The capped size fell below the exchange minimum, in cents.
    BelowMinimum { minimum: i64, tier: CapitalTier },
}

/// Cash available for trading once the configured reserve is held back.
pub open spec fn spec_available_after_reserve(cfg: Config, portfolio: i64) -> int {
    let reserved = portfolio * cfg.cash_reserve_percent / (BP_WHOLE as int);
    if portfolio - reserved >= 0 {
        portfolio - reserved
    } else {
        0
    }
}

/// Position size that risks exactly the tier's budget at the configured
/// stop-loss; a quarter of available cash when no stop-loss is configured.
pub open spec fn spec_risk_based(cfg: Config, portfolio: i64) -> int {
    let risk_amount = portfolio * spec_tier_for(portfolio as int).spec_risk_per_trade_percent() / (
    BP_WHOLE as int);
    if cfg.stop_loss_percent > 0 {
        risk_amount * (BP_WHOLE as int) / (cfg.stop_loss_percent as int)
    } else {
        spec_available_after_reserve(cfg, portfolio) / 4
    }
}

/// The risk-based size shrunk by the volatility factor, floored at one half.
pub open spec fn spec_vol_adjusted(cfg: Config, portfolio: i64, volatility_factor: i64) -> int {
    spec_risk_based(cfg, portfolio) * 100 / (spec_max_i64(volatility_factor, 50) as int)
}

/// The tier's cap on a single position, in cents.
pub open spec fn spec_max_per_position(portfolio: i64) -> int {
    portfolio * spec_tier_for(portfolio as int).spec_max_position_percent() / (BP_WHOLE as int)
}

pub open spec fn min2(a: int, b: int) -> int {
    if a <= b {
        a
    } else {
        b
    }
}

/// The volatility-adjusted size capped by the tier cap, the cash at hand and
/// the cash left after the reserve.
pub open spec fn spec_capped_size(
    cfg: Config,
    portfolio: i64,
    available_usd: i64,
    volatility_factor: i64,
) -> int {
    min2(
        min2(
            spec_vol_adjusted(cfg, portfolio, volatility_factor),
            spec_max_per_position(portfolio),
        ),
        min2(available_usd as int, spec_available_after_reserve(cfg, portfolio)),
    )
}

/// The capped size, or zero when it falls below the exchange minimum.
pub open spec fn spec_final_size(
    cfg: Config,
    portfolio: i64,
    available_usd: i64,
    volatility_factor: i64,
) -> int {
    if spec_capped_size(cfg, portfolio, available_usd, volatility_factor)
        >= cfg.min_position_usd {
        spec_capped_size(cfg, portfolio, available_usd, volatility_factor)
    } else {
        0
    }
}

/// The smaller of the tier's position cap and the configured hard cap.
pub open spec fn spec_effective_cap(cfg: Config, portfolio: i64) -> int {
    min2(
        spec_tier_for(portfolio as int).spec_max_positions() as int,
        cfg.max_total_positions as int,
    )
}

/// How many more positions may open: none at or over the effective cap;
/// under it, the capital-based count with every open slot assumed at the
/// tier cap, but always at least one.
pub open spec fn spec_max_new_positions(cfg: Config, portfolio: i64, current: int) -> int {
    let cap = spec_effective_cap(cfg, portfolio);
    if current >= cap {
        0
    } else {
        let mpp = spec_max_per_position(portfolio);
        let reserve = portfolio * cfg.cash_reserve_percent / (BP_WHOLE as int);
        let available_for_new = if portfolio - current * mpp - reserve >= 0 {
            portfolio - current * mpp - reserve
        } else {
            0
        };
        let capital_based = if mpp > cfg.min_position_usd {
            available_for_new / mpp
        } else {
            0
        };
        min2(cap - current, if capital_based >= 1 {
            capital_based
        } else {
            1
        })
    }
}

/// Trading strategy engine.
pub struct TradingStrategy {
    pub config: Config,
}

impl TradingStrategy {
    /// Create a strategy with the given configuration.
    pub fn new(config: Config) -> (r: Self)
        ensures
            r.config == config,
    {
        TradingStrategy { config }
    }

    /// Analyze market conditions for a symbol.  Prices and volume are taken
    /// as the exchange reported them; extreme values compare normally.
    pub fn analyze(
        &self,
        symbol: &str,
        price: i64,
        change_24h: i64,
        high_24h: i64,
        low_24h: i64,
        is_uptrend: bool,
        volume_24h: i64,
    ) -> (r: MarketAnalysis)
        requires
            i64::MIN <= spec_volume_usd(volume_24h, price) <= i64::MAX,
        ensures
            r.symbol@ == symbol@,
            r.price == price,
            r.change_24h == change_24h,
            r.is_uptrend == is_uptrend,
            r.volume_24h == spec_volume_usd(volume_24h, price),
            r.range_position == spec_range_position(price, high_24h, low_24h),
            0 <= r.range_position <= 10_000,
            high_24h == low_24h ==> r.range_position == 5_000,
            r.rejection_reason == spec_rejection(self.config, is_uptrend, r.volume_24h),
            r.signal == spec_signal_confidence(
                r.rejection_reason is Some,
                r.range_position as int,
                change_24h,
            ).0,
            r.confidence == spec_signal_confidence(
                r.rejection_reason is Some,
                r.range_position as int,
                change_24h,
            ).1,
    {
        let range_position = range_position_of(price, high_24h, low_24h);
        let volume_usd = mul_div_trunc(volume_24h, price, 100);
        let rejection_reason: Option<RejectionReason> = if self.config.enable_volume_filter
            && volume_usd < self.config.min_volume_usd {
            Some(RejectionReason::LowVolume { volume_usd, minimum: self.config.min_volume_usd })
        } else if self.config.enable_trend_filter && !is_uptrend {
            Some(RejectionReason::Downtrend)
        } else {
            None
        };
        let rejected = rejection_reason.is_some();
        let signal: TradingSignal;
        let confidence: i64;
        if rejected {
            signal = TradingSignal::Hold;
            confidence = 0;
        } else if range_position < 2_500 && change_24h > -200 && change_24h < 300 {
            signal = TradingSignal::Buy;
            confidence = if range_position < 1_500 {
                90
            } else {
                70
            };
        } else if range_position > 8_000 || change_24h > 500 {
            signal = TradingSignal::Sell;
            confidence = 50;
        } else {
            signal = TradingSignal::Hold;
            confidence = 0;
        }
        MarketAnalysis {
            symbol: symbol.to_owned(),
            price,
            change_24h,
            range_position,
            signal,
            confidence,
            is_uptrend,
            volume_24h: volume_usd,
            rejection_reason,
        }
    }

    /// Volatility-adaptive exit bands: stop-loss and take-profit distances
    /// from the approximate ATR (half the 24-hour range), clamped to the
    /// configured bounds, and the absolute prices they give at entry.
    /// Returns (stop-loss price, take-profit price, stop-loss basis points,
    /// take-profit basis points).
    pub fn calculate_dynamic_tp_sl(&self, entry_price: i64, volatility_percent: i64) -> (r: (
        i64,
        i64,
        i64,
        i64,
    ))
        requires
            self.config.well_formed(),
            0 <= entry_price <= MAX_AMOUNT,
            0 <= volatility_percent <= crate::fixed::MAX_PERCENT,
        ensures
            r.2 == spec_sl_percent(self.config, volatility_percent),
            r.3 == spec_tp_percent(self.config, volatility_percent),
            r.0 == spec_sl_price(self.config, entry_price, volatility_percent),
            r.1 == spec_tp_price(self.config, entry_price, volatility_percent),
    {
        let atr_percent = volatility_percent / 2;
        let raw_sl_percent = apply_bp(atr_percent * 100, self.config.atr_sl_multiplier);
        let raw_tp_percent = apply_bp(atr_percent * 100, self.config.atr_tp_multiplier);
        proof {
            vstd::arithmetic::div_mod::lemma_div_denominator(
                (atr_percent * 100) * self.config.atr_sl_multiplier,
                100,
                100,
            );
            vstd::arithmetic::div_mod::lemma_div_denominator(
                (atr_percent * 100) * self.config.atr_tp_multiplier,
                100,
                100,
            );
            assert((atr_percent * 100) * self.config.atr_sl_multiplier == (atr_percent
                * self.config.atr_sl_multiplier) * 100) by (nonlinear_arith);
            assert((atr_percent * 100) * self.config.atr_tp_multiplier == (atr_percent
                * self.config.atr_tp_multiplier) * 100) by (nonlinear_arith);
            vstd::arithmetic::div_mod::lemma_div_multiples_vanish(
                atr_percent * self.config.atr_sl_multiplier,
                100,
            );
            vstd::arithmetic::div_mod::lemma_div_multiples_vanish(
                atr_percent * self.config.atr_tp_multiplier,
                100,
            );
        }
        let sl_percent = clamp_i64(
            raw_sl_percent,
            self.config.min_sl_percent,
            self.config.max_sl_percent,
        );
        let tp_percent = clamp_i64(
            raw_tp_percent,
            self.config.min_tp_percent,
            self.config.max_tp_percent,
        );
        proof {
            lemma_product_bound(entry_price as int, 10_000 - sl_percent, MAX_AMOUNT as int, 1_000_000);
            lemma_div_trunc_bounded(
                entry_price * (10_000 - sl_percent),
                BP_WHOLE as int,
                10_000_000_000_000_000,
            );
            lemma_product_bound(entry_price as int, 10_000 + tp_percent, MAX_AMOUNT as int, 1_010_000);
            lemma_div_trunc_bounded(
                entry_price * (10_000 + tp_percent),
                BP_WHOLE as int,
                10_100_000_000_000_000,
            );
        }
        let stop_loss_price = mul_div_trunc(entry_price, 10_000 - sl_percent, BP_WHOLE);
        let take_profit_price = mul_div_trunc(entry_price, 10_000 + tp_percent, BP_WHOLE);
        (stop_loss_price, take_profit_price, sl_percent, tp_percent)
    }

    /// The exit decision for a position, taking the parsed entry epoch as an
    /// argument.  The decision is total: any price, mark or epoch compares
    /// numerically.
    pub fn exit_decision(
        &self,
        position: &Position,
        current_price: i64,
        now_epoch: i64,
        entry_epoch: Option<i64>,
    ) -> (r: Option<ExitReason>)
        ensures
            r == spec_check_exit(self.config, *position, current_price, now_epoch, entry_epoch),
    {
        let sl_hit: bool = match position.stop_loss_price {
            Some(sl) => current_price <= sl,
            None => {
                proof {
                    lemma_diff_product_in_i128(current_price - position.entry_price, 10_000);
                    lemma_i64_product_in_i128(
                        self.config.stop_loss_percent as int,
                        position.entry_price as int,
                    );
                }
                ((current_price as i128) - (position.entry_price as i128)) * 10_000 <= -((
                self.config.stop_loss_percent as i128) * (position.entry_price as i128))
            },
        };
        if sl_hit {
            return Some(ExitReason::StopLoss);
        }
        let tp_hit: bool = match position.take_profit_price {
            Some(tp) => current_price >= tp,
            None => {
                proof {
                    lemma_diff_product_in_i128(current_price - position.entry_price, 10_000);
                    lemma_i64_product_in_i128(
                        self.config.take_profit_percent as int,
                        position.entry_price as int,
                    );
                }
                ((current_price as i128) - (position.entry_price as i128)) * 10_000 >= (
                self.config.take_profit_percent as i128) * (position.entry_price as i128)
            },
        };
        if tp_hit {
            return Some(ExitReason::TakeProfit);
        }
        let trailing_hit: bool = match position.high_water_mark {
            Some(hwm) => {
                proof {
                    lemma_i64_product_in_i128(current_price as int, 10_000);
                    assert(i128::MIN <= (hwm as int) * (10_000 - self.config.trailing_stop_percent)
                        <= i128::MAX) by (nonlinear_arith)
                        requires
                            -0x8000_0000_0000_0000 <= hwm <= 0x7fff_ffff_ffff_ffff,
                            -0x8000_0000_0000_0000 <= self.config.trailing_stop_percent
                                <= 0x7fff_ffff_ffff_ffff,
                    ;
                }
                (current_price as i128) * 10_000 <= (hwm as i128) * (10_000i128 - (
                self.config.trailing_stop_percent as i128))
            },
            None => false,
        };
        if trailing_hit {
            return Some(ExitReason::TrailingStop);
        }
        let time_hit: bool = if self.config.max_position_age_hours > 0 {
            match entry_epoch {
                Some(t) => ((now_epoch as i128) - (t as i128)) >= 36i128 * (
                self.config.max_position_age_hours as i128),
                None => false,
            }
        } else {
            false
        };
        if time_hit {
            return Some(ExitReason::TimeExpired);
        }
        None
    }

    /// Whether a position should close: stop-loss, take-profit, trailing
    /// stop and time exit in fixed priority, with the position's own prices
    /// preferred over the configured percentages.  An unreadable entry time
    /// only disables the time exit.
    pub fn check_exit(&self, position: &Position, current_price: i64, now_epoch: i64) -> (r: Option<
        ExitReason,
    >)
        ensures
            r == spec_check_exit(
                self.config,
                *position,
                current_price,
                now_epoch,
                rfc3339_epoch(position.entry_time@),
            ),
    {
        let entry_epoch = parse_rfc3339_epoch(position.entry_time.as_str());
        self.exit_decision(position, current_price, now_epoch, entry_epoch)
    }

    /// Position size from the tier's risk budget, the volatility factor (in
    /// hundredths, floored at one half), the tier cap, the cash at hand and
    /// the cash reserve.  Sizes below the exchange minimum collapse to zero.
    pub fn calculate_position_size(
        &self,
        total_portfolio: i64,
        available_usd: i64,
        volatility_factor: i64,
    ) -> (r: PositionSizeResult)
        requires
            self.config.well_formed(),
            total_portfolio <= MAX_AMOUNT,
        ensures
            r.tier == Some(spec_tier_for(total_portfolio as int)),
            !spec_tier_for(total_portfolio as int).spec_can_trade() ==> {
                &&& !r.can_trade
                &&& r.size == 0
                &&& r.risk_based == 0
                &&& r.volatility_adjusted == 0
                &&& r.max_per_position == 0
                &&& r.available_after_reserve == 0
                &&& r.reason == Some(
                    SizeRejection::TierCannotTrade(spec_tier_for(total_portfolio as int)),
                )
            },
            spec_tier_for(total_portfolio as int).spec_can_trade() ==> {
                &&& r.available_after_reserve == spec_available_after_reserve(
                    self.config,
                    total_portfolio,
                )
                &&& r.risk_based == spec_risk_based(self.config, total_portfolio)
                &&& r.volatility_adjusted == spec_vol_adjusted(
                    self.config,
                    total_portfolio,
                    volatility_factor,
                )
                &&& r.max_per_position == spec_max_per_position(total_portfolio)
                &&& r.size == spec_final_size(
                    self.config,
                    total_portfolio,
                    available_usd,
                    volatility_factor,
                )
                &&& r.can_trade == (r.size >= self.config.min_position_usd)
                &&& r.reason == (if r.size < self.config.min_position_usd {
                    Some(
                        SizeRejection::BelowMinimum {
                            minimum: self.config.min_position_usd,
                            tier: spec_tier_for(total_portfolio as int),
                        },
                    )
                } else {
                    Option::<SizeRejection>::None
                })
            },
            r.size != 0 ==> r.size <= r.max_per_position && r.size <= available_usd && r.size
                <= r.available_after_reserve && r.size <= r.volatility_adjusted,
            total_portfolio < 10_000 ==> !r.can_trade && r.size == 0,
            0 <= r.size <= MAX_AMOUNT,
            0 <= r.max_per_position <= MAX_AMOUNT,
    {
        let tier_params = TierParameters::for_portfolio(total_portfolio);
        if !tier_params.can_trade {
            return PositionSizeResult {
                size: 0,
                risk_based: 0,
                volatility_adjusted: 0,
                max_per_position: 0,
                available_after_reserve: 0,
                can_trade: false,
                reason: Some(SizeRejection::TierCannotTrade(tier_params.tier)),
                tier: Some(tier_params.tier),
            };
        }
        let reserved = apply_bp(total_portfolio, self.config.cash_reserve_percent);
        let available_for_trading = max_i64(total_portfolio - reserved, 0);
        let risk_amount = apply_bp(total_portfolio, tier_params.risk_per_trade_percent);
        let risk_based: i64 = if self.config.stop_loss_percent > 0 {
            unapply_bp(risk_amount, self.config.stop_loss_percent)
        } else {
            available_for_trading / 4
        };
        let vf_floored = max_i64(volatility_factor, 50);
        proof {
            assert(risk_based * 100 <= 2_000_000_000_000_000_000 * (vf_floored as int))
                by (nonlinear_arith)
                requires
                    0 <= risk_based <= 1_000_000_000_000_000_000,
                    vf_floored >= 50,
            ;
            lemma_div_trunc_bounded(
                risk_based * 100,
                vf_floored as int,
                2_000_000_000_000_000_000,
            );
        }
        let volatility_adjusted = mul_div_trunc(risk_based, 100, vf_floored);
        let max_per_position = apply_bp(total_portfolio, tier_params.max_position_percent);
        let capped = min_i64(
            min_i64(volatility_adjusted, max_per_position),
            min_i64(available_usd, available_for_trading),
        );
        let final_size: i64 = if capped >= self.config.min_position_usd {
            capped
        } else {
            0
        };
        PositionSizeResult {
            size: final_size,
            risk_based,
            volatility_adjusted,
            max_per_position,
            available_after_reserve: available_for_trading,
            can_trade: final_size >= self.config.min_position_usd,
            reason: if final_size < self.config.min_position_usd {
                Some(
                    SizeRejection::BelowMinimum {
                        minimum: self.config.min_position_usd,
                        tier: tier_params.tier,
                    },
                )
            } else {
                None
            },
            tier: Some(tier_params.tier),
        }
    }

    /// How many more positions may open, from the tier cap, the hard cap and
    /// a conservative capital estimate that assumes every open slot is at
    /// the tier cap; always at least one while under the caps.
    pub fn max_new_positions(&self, total_portfolio: i64, current_positions: usize) -> (r: usize)
        requires
            self.config.well_formed(),
            total_portfolio <= MAX_AMOUNT,
        ensures
            r == spec_max_new_positions(self.config, total_portfolio, current_positions as int),
            current_positions as int >= spec_effective_cap(self.config, total_portfolio) ==> r
                == 0,
            (current_positions as int) < spec_effective_cap(self.config, total_portfolio) ==> 1
                <= r <= spec_effective_cap(self.config, total_portfolio) - current_positions,
    {
        let tier_params = TierParameters::for_portfolio(total_portfolio);
        let tier_max = tier_params.max_positions;
        let effective_cap = if tier_max < self.config.max_total_positions {
            tier_max
        } else {
            self.config.max_total_positions
        };
        if current_positions >= effective_cap {
            return 0;
        }
        let max_per_position = apply_bp(total_portfolio, tier_params.max_position_percent);
        let reserve = apply_bp(total_portfolio, self.config.cash_reserve_percent);
        let current_i: i64 = current_positions as i64;
        proof {
            lemma_product_bound(current_i as int, max_per_position as int, 5, MAX_AMOUNT as int);
        }
        let positions_value: i64 = current_i * max_per_position;
        let available_for_new = max_i64(total_portfolio - positions_value - reserve, 0);
        let capital_based: i64 = if max_per_position > self.config.min_position_usd {
            proof {
                lemma_div_trunc_bounded(
                    available_for_new as int,
                    max_per_position as int,
                    MAX_AMOUNT as int,
                );
            }
            available_for_new / max_per_position
        } else {
            0
        };
        let floor_one = max_i64(capital_based, 1);
        let remaining: i64 = (effective_cap - current_positions) as i64;
        let granted = min_i64(remaining, floor_one);
        granted as usize
    }

    /// Whether a new position should open for the analyzed symbol: a slot
    /// must be free and the signal a buy with confidence at least 0.60.
    pub fn should_enter(
        &self,
        analysis: &MarketAnalysis,
        current_positions: usize,
        total_portfolio: i64,
    ) -> (r: bool)
        requires
            self.config.well_formed(),
            total_portfolio <= MAX_AMOUNT,
        ensures
            r == (spec_max_new_positions(self.config, total_portfolio, current_positions as int)
                > 0 && analysis.signal is Buy && analysis.confidence >= 60),
    {
        if self.max_new_positions(total_portfolio, current_positions) == 0 {
            return false;
        }
        analysis.signal == TradingSignal::Buy && analysis.confidence >= 60
    }
}

/// Clamp a value between the given bounds.
pub fn clamp_i64(x: i64, lo: i64, hi: i64) -> (r: i64)
    requires
        lo <= hi,
    ensures
        r == spec_clamp(x as int, lo as int, hi as int),
{
    if x < lo {
        lo
    } else if x > hi {
        hi
    } else {
        x
    }
}

/// Where the price sits in the 24-hour range, clamped to [0, 10000].
fn range_position_of(price: i64, high: i64, low: i64) -> (r: i64)
    ensures
        r == spec_range_position(price, high, low),
        0 <= r <= 10_000,
{
    if high > low {
        if price <= low {
            0
        } else if price >= high {
            10_000
        } else {
            proof {
                lemma_diff_product_in_i128(price - low, 10_000);
                assert(0 <= (price - low) * 10_000 / (high - low) < 10_000) by (nonlinear_arith)
                    requires
                        low < price < high,
                ;
            }
            let num: i128 = ((price as i128) - (low as i128)) * 10_000;
            let den: i128 = (high as i128) - (low as i128);
            (num / den) as i64
        }
    } else {
        5_000
    }
}

} // verus!
