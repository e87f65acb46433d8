use coinbase_trader::capital_tier::CapitalTier;
use coinbase_trader::config::Config;
use coinbase_trader::strategy::{ExitReason, TradingSignal, TradingStrategy};
use coinbase_trader::types::Position;

fn test_config() -> Config {
    let mut config = Config::default();
    config.environment = "test".to_string();
    config.log_level = "debug".to_string();
    config.take_profit_percent = 150;
    config.stop_loss_percent = 100;
    config.trailing_stop_percent = 50;
    config.atr_sl_multiplier = 100;
    config.atr_tp_multiplier = 200;
    config.min_sl_percent = 50;
    config.max_sl_percent = 500;
    config.min_tp_percent = 100;
    config.max_tp_percent = 1_000;
    config.max_risk_per_trade_percent = 200;
    config.max_portfolio_per_position = 2_500;
    config.min_position_usd = 1_000;
    config.cash_reserve_percent = 1_500;
    config.max_total_positions = 8;
    config.base_fee_percent = 60;
    config.base_entry_threshold = 6_000;
    config.min_entry_threshold = 4_000;
    config.max_entry_threshold = 8_500;
    config.cycle_interval_seconds = 15;
    config.symbols = vec!["BTC-USD".to_string()];
    config.daily_trade_limit = 30;
    config.max_consecutive_errors = 5;
    config.enable_trend_filter = false;
    config.enable_volume_filter = false;
    config.enable_market_regime_filter = false;
    config.min_volume_usd = 100_000_000;
    config.max_position_age_hours = 4_800;
    config
}

fn position(entry_price: i64, entry_time: String) -> Position {
    Position {
        symbol: "BTC-USD".to_string(),
        quantity: 100_000,
        entry_price,
        entry_time,
        high_water_mark: None,
        stop_loss_price: None,
        take_profit_price: None,
        entry_volatility: None,
    }
}

fn now_epoch() -> i64 {
    chrono::Utc::now().timestamp()
}

#[test]
fn test_analyze_buy_signal() {
    let strategy = TradingStrategy::new(test_config());

    // Price very near 24h low (within 25% of range), modest decline, uptrend, good volume
    let analysis = strategy.analyze("BTC-USD", 4_950_000, -50, 5_200_000, 4_900_000, true, 10_000);

    assert_eq!(analysis.signal, TradingSignal::Buy);
    assert!(analysis.range_position < 2_500);
}

#[test]
fn test_analyze_avoid_falling_knife() {
    let strategy = TradingStrategy::new(test_config());

    // Price crashing hard (-5%)
    let analysis = strategy.analyze("BTC-USD", 4_800_000, -500, 5_200_000, 4_700_000, true, 10_000);

    assert_eq!(analysis.signal, TradingSignal::Hold);
}

#[test]
fn test_check_exit_stop_loss() {
    let strategy = TradingStrategy::new(test_config());
    let pos = position(5_000_000, "2024-01-01T00:00:00Z".to_string());

    // Price dropped 1.5% (below 1% SL)
    let exit = strategy.check_exit(&pos, 4_925_000, now_epoch());
    assert_eq!(exit, Some(ExitReason::StopLoss));
}

#[test]
fn test_check_exit_take_profit() {
    let strategy = TradingStrategy::new(test_config());
    let pos = position(5_000_000, "2024-01-01T00:00:00Z".to_string());

    // Price up 2% (above 1.5% TP)
    let exit = strategy.check_exit(&pos, 5_100_000, now_epoch());
    assert_eq!(exit, Some(ExitReason::TakeProfit));
}

#[test]
fn test_dynamic_tp_sl_calculation() {
    let strategy = TradingStrategy::new(test_config());

    // Entry at $50,000, volatility 4% (daily range): ATR is 2%,
    // SL = 1x ATR = 2%, TP = 2x ATR = 4%
    let (sl, tp, sl_pct, tp_pct) = strategy.calculate_dynamic_tp_sl(5_000_000, 400);
    assert_eq!(sl_pct, 200);
    assert_eq!(tp_pct, 400);
    assert_eq!(sl, 4_900_000);
    assert_eq!(tp, 5_200_000);

    // Low volatility: 1% range means 0.5% ATR, clamped to min (0.5% SL, 1% TP)
    let (_, _, sl_pct, tp_pct) = strategy.calculate_dynamic_tp_sl(5_000_000, 100);
    assert_eq!(sl_pct, 50);
    assert_eq!(tp_pct, 100);

    // High volatility: 12% range means 6% ATR, clamped to max (5% SL, 10% TP)
    let (_, _, sl_pct, tp_pct) = strategy.calculate_dynamic_tp_sl(5_000_000, 1_200);
    assert_eq!(sl_pct, 500);
    assert_eq!(tp_pct, 1_000);
}

#[test]
fn test_position_specific_sl_tp() {
    let strategy = TradingStrategy::new(test_config());

    // Position with custom SL at $49,000 (2% below $50k entry)
    let recent_time = chrono::Utc::now().to_rfc3339();
    let mut pos = position(5_000_000, recent_time);
    pos.stop_loss_price = Some(4_900_000);
    pos.take_profit_price = Some(5_200_000);
    pos.entry_volatility = Some(400);

    // Price below custom SL - should trigger
    let exit = strategy.check_exit(&pos, 4_890_000, now_epoch());
    assert_eq!(exit, Some(ExitReason::StopLoss));

    // Price above custom TP - should trigger
    let exit = strategy.check_exit(&pos, 5_210_000, now_epoch());
    assert_eq!(exit, Some(ExitReason::TakeProfit));

    // Price between SL and TP - no exit
    let exit = strategy.check_exit(&pos, 5_050_000, now_epoch());
    assert_eq!(exit, None);
}

#[test]
fn test_position_sizing_risk_based() {
    let strategy = TradingStrategy::new(test_config());

    // $1000 is SMALL tier: 1% risk, 50% max position
    // Risk = $10, Position = $10 / 1% = $1000, capped at 50% = $500
    let sizing = strategy.calculate_position_size(100_000, 100_000, 100);
    assert!(sizing.can_trade);
    assert_eq!(sizing.tier, Some(CapitalTier::Small));
    assert_eq!(sizing.risk_based, 100_000);
    assert_eq!(sizing.size, 50_000);

    // With $100 portfolio (TINY tier: 0.5% risk, 80% max position)
    // Risk = $0.50, Position = $0.50 / 1% = $50
    let sizing = strategy.calculate_position_size(10_000, 10_000, 100);
    assert!(sizing.can_trade);
    assert_eq!(sizing.tier, Some(CapitalTier::Tiny));
    assert_eq!(sizing.size, 5_000);

    // With $50 portfolio (MICRO tier: cannot trade)
    let sizing = strategy.calculate_position_size(5_000, 5_000, 100);
    assert!(!sizing.can_trade);
    assert_eq!(sizing.tier, Some(CapitalTier::Micro));

    // High volatility (2x) reduces position size
    let sizing_normal = strategy.calculate_position_size(100_000, 100_000, 100);
    let sizing_high_vol = strategy.calculate_position_size(100_000, 100_000, 200);
    assert!(sizing_high_vol.volatility_adjusted < sizing_normal.volatility_adjusted);
}

#[test]
fn test_max_new_positions() {
    let strategy = TradingStrategy::new(test_config());

    // With $1000 portfolio (SMALL tier: max 2 positions)
    assert!(strategy.max_new_positions(100_000, 0) >= 1);

    // SMALL tier max is 2, so at 2 positions, no more allowed
    assert_eq!(strategy.max_new_positions(100_000, 2), 0);

    // At hard cap (8) - no more positions regardless of tier
    assert_eq!(strategy.max_new_positions(1_000_000, 8), 0);

    // $5000 portfolio (STANDARD tier: max 4 positions), at 2 can open more
    assert!(strategy.max_new_positions(500_000, 2) >= 1);

    // MICRO portfolio (<$100) - cannot trade at all
    assert_eq!(strategy.max_new_positions(5_000, 0), 0);

    // TINY portfolio ($100-$500) - max 1 position
    assert!(strategy.max_new_positions(20_000, 0) >= 1);
    assert_eq!(strategy.max_new_positions(20_000, 1), 0);
}

#[test]
fn test_trend_filter_blocks_downtrend() {
    let mut config = test_config();
    config.enable_trend_filter = true;
    let strategy = TradingStrategy::new(config);

    // Good dip setup but in downtrend (price below 6h avg)
    let analysis = strategy.analyze("BTC-USD", 5_000_000, -50, 5_200_000, 4_900_000, false, 10_000);

    assert_eq!(analysis.signal, TradingSignal::Hold);
    assert!(analysis.rejection_reason.is_some());
    assert!(analysis
        .rejection_reason
        .expect("Should have rejection reason")
        .message()
        .contains("Downtrend"));
}

#[test]
fn test_volume_filter_blocks_low_volume() {
    let mut config = test_config();
    config.enable_volume_filter = true;
    config.min_volume_usd = 100_000_000;
    let strategy = TradingStrategy::new(config);

    // Good dip setup but low volume: 10 base units at $50,000 is $500k < $1M
    let analysis = strategy.analyze("BTC-USD", 5_000_000, -50, 5_200_000, 4_900_000, true, 1_000);

    assert_eq!(analysis.signal, TradingSignal::Hold);
    assert!(analysis.rejection_reason.is_some());
    assert!(analysis
        .rejection_reason
        .expect("Should have rejection reason")
        .message()
        .contains("Low volume"));
}

#[test]
fn test_time_based_exit() {
    let strategy = TradingStrategy::new(test_config());

    // Position opened 49 hours ago (over the 48h limit)
    let old_time = chrono::Utc::now() - chrono::Duration::hours(49);
    let pos = position(5_000_000, old_time.to_rfc3339());

    // Price hasn't moved much (no TP/SL hit)
    let exit = strategy.check_exit(&pos, 5_010_000, now_epoch());
    assert_eq!(exit, Some(ExitReason::TimeExpired));
}

#[test]
fn test_time_exit_not_triggered_before_limit() {
    let strategy = TradingStrategy::new(test_config());

    // Position opened 24 hours ago (under the 48h limit)
    let recent_time = chrono::Utc::now() - chrono::Duration::hours(24);
    let pos = position(5_000_000, recent_time.to_rfc3339());

    let exit = strategy.check_exit(&pos, 5_010_000, now_epoch());
    assert_eq!(exit, None);
}

#[test]
fn test_trailing_stop_triggers_when_profitable() {
    let strategy = TradingStrategy::new(test_config());
    let recent_time = chrono::Utc::now().to_rfc3339();

    // Entry at $50,000, rallied to $51,000 (HWM), trailing stop 0.5%:
    // trailing level = $51,000 * 0.995 = $50,745
    let mut pos = position(5_000_000, recent_time);
    pos.high_water_mark = Some(5_100_000);
    pos.stop_loss_price = Some(4_900_000);
    pos.take_profit_price = Some(5_200_000);

    // Price at $50,740, just below the trailing level: still profitable,
    // but the trailing stop triggers
    let exit = strategy.check_exit(&pos, 5_074_000, now_epoch());
    assert_eq!(exit, Some(ExitReason::TrailingStop));
}

#[test]
fn test_trailing_stop_triggers_even_when_negative_pnl() {
    let strategy = TradingStrategy::new(test_config());
    let recent_time = chrono::Utc::now().to_rfc3339();

    // Entry $50,000, rallied to $51,000 (HWM), crashed to $49,500.
    // Trailing level = $51,000 * 0.995 = $50,745; the price is below it
    // AND below entry (negative PnL).
    let mut pos = position(5_000_000, recent_time);
    pos.high_water_mark = Some(5_100_000);
    pos.stop_loss_price = Some(4_800_000);
    pos.take_profit_price = Some(5_300_000);

    let exit = strategy.check_exit(&pos, 4_950_000, now_epoch());
    assert_eq!(
        exit,
        Some(ExitReason::TrailingStop),
        "Trailing stop MUST trigger even when current PnL is negative"
    );
}

#[test]
fn test_trailing_stop_does_not_trigger_above_threshold() {
    let strategy = TradingStrategy::new(test_config());
    let recent_time = chrono::Utc::now().to_rfc3339();

    // Entry $50,000, HWM $51,000, trailing level $50,745
    let mut pos = position(5_000_000, recent_time);
    pos.high_water_mark = Some(5_100_000);
    pos.stop_loss_price = Some(4_800_000);
    pos.take_profit_price = Some(5_300_000);

    // Price at $50,800, above the trailing level
    let exit = strategy.check_exit(&pos, 5_080_000, now_epoch());
    assert_eq!(exit, None, "Should not exit when price is above trailing stop level");
}

#[test]
fn test_trailing_stop_no_hwm_no_trigger() {
    let strategy = TradingStrategy::new(test_config());
    let recent_time = chrono::Utc::now().to_rfc3339();

    // No high water mark set - trailing stop should not trigger
    let mut pos = position(5_000_000, recent_time);
    pos.stop_loss_price = Some(4_900_000);
    pos.take_profit_price = Some(5_200_000);

    let exit = strategy.check_exit(&pos, 5_050_000, now_epoch());
    assert_eq!(exit, None, "No trailing stop without HWM");
}

#[test]
fn test_trailing_stop_exact_boundary() {
    let strategy = TradingStrategy::new(test_config());
    let recent_time = chrono::Utc::now().to_rfc3339();

    // HWM $51,000, trailing 0.5% level $50,745
    let mut pos = position(5_000_000, recent_time);
    pos.high_water_mark = Some(5_100_000);
    pos.stop_loss_price = Some(4_800_000);
    pos.take_profit_price = Some(5_300_000);

    // Price exactly at the trailing level triggers (at-or-below comparison)
    let trailing_sl = 5_100_000 * (10_000 - 50) / 10_000;
    let exit = strategy.check_exit(&pos, trailing_sl, now_epoch());
    assert_eq!(
        exit,
        Some(ExitReason::TrailingStop),
        "Should trigger at exact trailing stop level"
    );
}

#[test]
fn test_trailing_stop_priority_over_time_exit() {
    let strategy = TradingStrategy::new(test_config());

    // Old position (would trigger time exit) but also under the trailing stop
    let old_time = chrono::Utc::now() - chrono::Duration::hours(50);
    let mut pos = position(5_000_000, old_time.to_rfc3339());
    pos.high_water_mark = Some(5_100_000);
    pos.stop_loss_price = Some(4_800_000);
    pos.take_profit_price = Some(5_300_000);

    let exit = strategy.check_exit(&pos, 5_000_000, now_epoch());
    assert_eq!(
        exit,
        Some(ExitReason::TrailingStop),
        "Trailing stop should trigger before time exit"
    );
}

#[test]
fn test_zero_entry_price_handling() {
    let strategy = TradingStrategy::new(test_config());
    let recent_time = chrono::Utc::now().to_rfc3339();

    // Edge case: zero entry price must not panic
    let pos = position(0, recent_time);

    let exit = strategy.check_exit(&pos, 10_000, now_epoch());
    assert!(exit.is_some() || exit.is_none());
}

#[test]
fn test_negative_price_handling() {
    let strategy = TradingStrategy::new(test_config());
    let recent_time = chrono::Utc::now().to_rfc3339();

    let mut pos = position(5_000_000, recent_time);
    pos.high_water_mark = Some(5_100_000);
    pos.stop_loss_price = Some(4_900_000);
    pos.take_profit_price = Some(5_200_000);

    // Negative price (invalid data) must not panic; it is below the stop loss
    let exit = strategy.check_exit(&pos, -10_000, now_epoch());
    assert_eq!(exit, Some(ExitReason::StopLoss));
}

#[test]
fn test_very_large_price_handling() {
    let strategy = TradingStrategy::new(test_config());
    let recent_time = chrono::Utc::now().to_rfc3339();

    let mut pos = position(5_000_000, recent_time);
    pos.stop_loss_price = Some(4_900_000);
    pos.take_profit_price = Some(5_200_000);

    // Very large price triggers the take profit
    let exit = strategy.check_exit(&pos, i64::MAX / 2, now_epoch());
    assert_eq!(exit, Some(ExitReason::TakeProfit));
}

#[test]
fn test_nan_and_infinity_resilience() {
    let strategy = TradingStrategy::new(test_config());
    let recent_time = chrono::Utc::now().to_rfc3339();

    // A non-finite stored mark reaches the engine as an absent mark, which
    // must not panic and must not trigger the trailing stop.
    let mut pos = position(5_000_000, recent_time);
    pos.high_water_mark = None;
    pos.stop_loss_price = Some(4_900_000);
    pos.take_profit_price = Some(5_200_000);

    let exit = strategy.check_exit(&pos, 5_050_000, now_epoch());
    assert_eq!(exit, None, "An invalid mark should not trigger trailing stop");
}

#[test]
fn test_invalid_entry_time_handling() {
    let strategy = TradingStrategy::new(test_config());

    // Invalid RFC 3339 timestamp
    let mut pos = position(5_000_000, "not-a-valid-timestamp".to_string());
    pos.stop_loss_price = Some(4_900_000);
    pos.take_profit_price = Some(5_200_000);

    let exit = strategy.check_exit(&pos, 5_050_000, now_epoch());
    assert_eq!(exit, None, "Invalid timestamp should not crash or trigger time exit");
}

#[test]
fn test_position_sizing_zero_portfolio() {
    let strategy = TradingStrategy::new(test_config());

    let sizing = strategy.calculate_position_size(0, 0, 100);
    assert!(!sizing.can_trade, "Should not be able to trade with zero portfolio");
    assert_eq!(sizing.size, 0);
}

#[test]
fn test_position_sizing_negative_values() {
    let strategy = TradingStrategy::new(test_config());

    // Negative portfolio (invalid state) is handled gracefully
    let sizing = strategy.calculate_position_size(-100_000, -100_000, 100);
    assert!(!sizing.can_trade || sizing.size <= 0);
}

#[test]
fn test_position_sizing_very_high_volatility() {
    let strategy = TradingStrategy::new(test_config());

    // Extreme volatility factor drastically reduces the position
    let sizing = strategy.calculate_position_size(100_000, 100_000, 10_000);
    assert!(
        sizing.volatility_adjusted < 10_000,
        "High volatility should drastically reduce position size"
    );
}

#[test]
fn test_analyze_zero_range() {
    let strategy = TradingStrategy::new(test_config());

    // High equals low (zero range): range position reads as the middle
    let analysis = strategy.analyze("BTC-USD", 5_000_000, 0, 5_000_000, 5_000_000, true, 10_000);

    assert_eq!(analysis.range_position, 5_000);
}

#[test]
fn test_max_positions_overflow_protection() {
    let strategy = TradingStrategy::new(test_config());

    // Current positions far beyond the hard cap of 8
    let max_new = strategy.max_new_positions(100_000, 100);
    assert_eq!(max_new, 0, "Should return 0 when already over cap");
}

#[test]
fn test_sizing_never_exceeds_caps() {
    let strategy = TradingStrategy::new(test_config());

    // The final size stays under every cap whenever a position may open.
    let cases = [
        (100_000i64, 100_000i64, 100i64),
        (100_000, 20_000, 100),
        (500_000, 500_000, 300),
        (2_500_000, 40_000, 50),
    ];
    for (portfolio, available, vol) in cases {
        let sizing = strategy.calculate_position_size(portfolio, available, vol);
        if sizing.size != 0 {
            assert!(sizing.size <= sizing.max_per_position);
            assert!(sizing.size <= available);
            assert!(sizing.size <= sizing.available_after_reserve);
        }
        if sizing.size < 1_000 {
            assert!(!sizing.can_trade && sizing.size == 0);
        }
    }
}

#[test]
fn test_exit_reason_labels() {
    assert_eq!(ExitReason::StopLoss.label(), "Stop Loss");
    assert_eq!(ExitReason::TakeProfit.label(), "Take Profit");
    assert_eq!(ExitReason::TrailingStop.label(), "Trailing Stop");
    assert_eq!(ExitReason::TimeExpired.label(), "Time Expired");
    assert_eq!(ExitReason::Manual.label(), "Manual");
}

#[test]
fn test_stop_loss_checked_before_trailing() {
    let strategy = TradingStrategy::new(test_config());
    let recent_time = chrono::Utc::now().to_rfc3339();

    // Below both the stop-loss price and the trailing level: stop loss wins.
    let mut pos = position(5_000_000, recent_time);
    pos.high_water_mark = Some(5_100_000);
    pos.stop_loss_price = Some(4_900_000);
    pos.take_profit_price = Some(5_300_000);

    let exit = strategy.check_exit(&pos, 4_850_000, now_epoch());
    assert_eq!(exit, Some(ExitReason::StopLoss));
}
