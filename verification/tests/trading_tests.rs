use coinbase_trader::client::{CashBalance, PricedCandle, ProductStats};
use coinbase_trader::client::{product_stats_from_candles, usd_cash_total};
use coinbase_trader::config::Config;
use coinbase_trader::strategy::TradingStrategy;
use coinbase_trader::trading::{
    close_position, cycle_gate, get_status, open_position, plan_entry, positions_value,
    positions_with_pnl, refresh_high_water_mark, CycleGate,
};
use coinbase_trader::types::{OrderSide, Position, TradingStateData};

fn test_config() -> Config {
    let mut config = Config::default();
    config.take_profit_percent = 150;
    config.stop_loss_percent = 100;
    config.trailing_stop_percent = 50;
    config.enable_trend_filter = false;
    config.enable_volume_filter = false;
    config.enable_market_regime_filter = false;
    config.symbols = vec!["BTC-USD".to_string()];
    config
}

fn sample_position() -> Position {
    Position {
        symbol: "BTC-USD".to_string(),
        quantity: 100_000,
        entry_price: 5_000_000,
        entry_time: "2024-01-01T00:00:00Z".to_string(),
        high_water_mark: None,
        stop_loss_price: Some(4_900_000),
        take_profit_price: Some(5_200_000),
        entry_volatility: Some(400),
    }
}

#[test]
fn test_cycle_gate_disabled() {
    let state = TradingStateData::default();
    assert_eq!(cycle_gate(&state, &test_config(), "2024-01-01"), CycleGate::Disabled);
}

#[test]
fn test_cycle_gate_paused_on_errors() {
    let mut state = TradingStateData::default();
    state.enabled = true;
    for _ in 0..5 {
        state.record_error();
    }
    assert_eq!(cycle_gate(&state, &test_config(), "2024-01-01"), CycleGate::Paused);
}

#[test]
fn test_cycle_gate_daily_limit() {
    let mut state = TradingStateData::default();
    state.enabled = true;
    state.daily_trades = 30;
    state.last_trade_day = Some("2024-01-01".to_string());
    assert_eq!(cycle_gate(&state, &test_config(), "2024-01-01"), CycleGate::DailyLimitReached);

    // A new day clears the budget
    assert_eq!(cycle_gate(&state, &test_config(), "2024-01-02"), CycleGate::Proceed);
}

#[test]
fn test_cycle_gate_proceeds() {
    let mut state = TradingStateData::default();
    state.enabled = true;
    assert_eq!(cycle_gate(&state, &test_config(), "2024-01-01"), CycleGate::Proceed);
}

#[test]
fn test_refresh_high_water_mark() {
    let mut state = TradingStateData::default();
    state.add_position(sample_position());

    refresh_high_water_mark(&mut state, "BTC-USD", 5_100_000);
    assert_eq!(state.positions[0].high_water_mark, Some(5_100_000));

    // A pullback keeps the mark
    refresh_high_water_mark(&mut state, "BTC-USD", 5_050_000);
    assert_eq!(state.positions[0].high_water_mark, Some(5_100_000));

    // An unknown symbol changes nothing
    refresh_high_water_mark(&mut state, "ETH-USD", 9_999_999);
    assert_eq!(state.positions.len(), 1);
    assert_eq!(state.positions[0].high_water_mark, Some(5_100_000));
}

#[test]
fn test_close_position_realizes_pnl() {
    let mut state = TradingStateData::default();
    state.enabled = true;
    state.add_position(sample_position());

    let trade = close_position(
        &mut state,
        "BTC-USD",
        5_100_000,
        "order-1".to_string(),
        "2024-01-02T00:00:00Z".to_string(),
        "2024-01-02",
    )
    .expect("the open position closes");

    assert_eq!(trade.side, OrderSide::Sell);
    assert_eq!(trade.symbol, "BTC-USD");
    assert_eq!(trade.quantity, 100_000);
    assert_eq!(trade.price, 5_100_000);
    assert_eq!(trade.pnl, Some(100));
    assert_eq!(trade.total_value, 5_100);

    assert!(state.positions.is_empty());
    assert_eq!(state.total_trades, 1);
    assert_eq!(state.total_pnl, 100);
    assert_eq!(state.daily_trades, 1);
}

#[test]
fn test_close_position_unknown_symbol() {
    let mut state = TradingStateData::default();
    state.add_position(sample_position());

    let trade = close_position(
        &mut state,
        "ETH-USD",
        5_100_000,
        "order-1".to_string(),
        "2024-01-02T00:00:00Z".to_string(),
        "2024-01-02",
    );
    assert!(trade.is_none());
    assert_eq!(state.positions.len(), 1);
    assert_eq!(state.total_trades, 0);
}

fn buy_stats() -> ProductStats {
    ProductStats {
        price: 4_950_000,
        change_24h: -50,
        high_24h: 5_200_000,
        low_24h: 4_900_000,
        volume_24h: 10_000,
        is_uptrend: true,
        avg_6h: 4_900_000,
    }
}

#[test]
fn test_plan_entry_sizes_and_bands() {
    let strategy = TradingStrategy::new(test_config());

    let plan = plan_entry(&strategy, "BTC-USD", &buy_stats(), 0, 100_000, 100_000)
        .expect("a dip in an uptrend with cash at hand plans an entry");

    assert_eq!(plan.symbol, "BTC-USD");
    assert_eq!(plan.price, 4_950_000);
    // SMALL tier: risk $10 at 1% stop gives $1000, capped at 50% = $500,
    // then shrunk by the volatility factor 2.0 to $500 exactly at the cap
    assert_eq!(plan.size, 50_000);
    assert_eq!(plan.quantity, 50_000i64 * 100_000_000 / 4_950_000);
    // Range is 612 bp of the low; ATR 306 bp; SL 1x, TP 2x
    assert_eq!(plan.range_percent, 612);
    assert_eq!(plan.stop_loss_price, 4_950_000 * (10_000 - 306) / 10_000);
    assert_eq!(plan.take_profit_price, 4_950_000 * (10_000 + 612) / 10_000);
}

#[test]
fn test_plan_entry_rejects_hold() {
    let strategy = TradingStrategy::new(test_config());

    // Price at the top of the range: no buy signal, no plan
    let mut stats = buy_stats();
    stats.price = 5_190_000;
    let plan = plan_entry(&strategy, "BTC-USD", &stats, 0, 100_000, 100_000);
    assert!(plan.is_none());
}

#[test]
fn test_plan_entry_rejects_below_minimum() {
    let strategy = TradingStrategy::new(test_config());

    // Only $5 of cash at hand: the capped size falls under the $10 minimum
    let plan = plan_entry(&strategy, "BTC-USD", &buy_stats(), 0, 100_000, 500);
    assert!(plan.is_none());
}

#[test]
fn test_plan_entry_rejects_micro_tier() {
    let strategy = TradingStrategy::new(test_config());

    // A $50 portfolio cannot trade whatever the signal says
    let plan = plan_entry(&strategy, "BTC-USD", &buy_stats(), 0, 5_000, 5_000);
    assert!(plan.is_none());
}

#[test]
fn test_open_position_records_entry() {
    let strategy = TradingStrategy::new(test_config());
    let mut state = TradingStateData::default();
    state.enabled = true;

    let plan = plan_entry(&strategy, "BTC-USD", &buy_stats(), 0, 100_000, 100_000).unwrap();
    let trade = open_position(
        &mut state,
        &plan,
        "2024-01-02T00:00:00Z".to_string(),
        "order-2".to_string(),
        "2024-01-02T00:00:00Z".to_string(),
        "2024-01-02",
    );

    assert_eq!(trade.side, OrderSide::Buy);
    assert_eq!(trade.total_value, plan.size);
    assert_eq!(trade.pnl, None);

    assert_eq!(state.positions.len(), 1);
    let p = &state.positions[0];
    assert_eq!(p.symbol, "BTC-USD");
    assert_eq!(p.entry_price, 4_950_000);
    assert_eq!(p.quantity, plan.quantity);
    assert_eq!(p.high_water_mark, None);
    assert_eq!(p.stop_loss_price, Some(plan.stop_loss_price));
    assert_eq!(p.take_profit_price, Some(plan.take_profit_price));
    assert_eq!(p.entry_volatility, Some(612));
    assert_eq!(state.total_trades, 1);
    assert_eq!(state.daily_trades, 1);
}

#[test]
fn test_positions_value_sums() {
    let positions = vec![sample_position(), {
        let mut p = sample_position();
        p.symbol = "ETH-USD".to_string();
        p.quantity = 200_000;
        p.entry_price = 300_000;
        p
    }];
    let prices = vec![5_100_000i64, 310_000i64];
    // 0.001 BTC at $51,000 = $51; 0.002 ETH at $3,100 = $6.20
    assert_eq!(positions_value(&positions, &prices), 5_100 + 620);
}

#[test]
fn test_positions_with_pnl_view() {
    let positions = vec![sample_position()];
    let prices = vec![5_100_000i64];
    let view = positions_with_pnl(&positions, &prices);
    assert_eq!(view.positions.len(), 1);
    assert_eq!(view.positions[0].symbol, "BTC-USD");
    assert_eq!(view.positions[0].current_price, 5_100_000);
    assert_eq!(view.positions[0].unrealized_pnl, 100);
    assert_eq!(view.positions[0].unrealized_pnl_percent, 200);
    assert_eq!(view.total_value, 5_100);
    assert_eq!(view.total_pnl, 100);
}

#[test]
fn test_get_status_view() {
    let mut state = TradingStateData::default();
    state.enabled = true;
    state.total_trades = 7;
    state.total_pnl = -42;
    state.daily_trades = 3;
    state.consecutive_errors = 1;
    state.last_cycle_time = Some("2024-01-02T00:00:00Z".to_string());
    state.add_position(sample_position());

    let status = get_status(&state);
    assert!(status.enabled);
    assert_eq!(status.positions_count, 1);
    assert_eq!(status.total_trades, 7);
    assert_eq!(status.total_pnl, -42);
    assert_eq!(status.daily_trades, 3);
    assert_eq!(status.consecutive_errors, 1);
    assert_eq!(status.last_cycle.as_deref(), Some("2024-01-02T00:00:00Z"));
}

#[test]
fn test_product_stats_from_candles_aggregates() {
    let candles = vec![
        PricedCandle { high: 5_200_000, low: 4_950_000, close: 5_000_000 },
        PricedCandle { high: 5_150_000, low: 4_900_000, close: 5_050_000 },
        PricedCandle { high: 5_100_000, low: 4_980_000, close: 5_010_000 },
        PricedCandle { high: 5_120_000, low: 4_990_000, close: 5_020_000 },
        PricedCandle { high: 5_130_000, low: 4_970_000, close: 5_030_000 },
        PricedCandle { high: 5_110_000, low: 4_960_000, close: 5_040_000 },
        PricedCandle { high: 9_999_999, low: 1_000, close: 9_999_999 },
    ];
    let stats = product_stats_from_candles(5_060_000, -50, 10_000, &candles);
    assert_eq!(stats.high_24h, 9_999_999);
    assert_eq!(stats.low_24h, 1_000);
    // The trend average uses only the six most recent candles
    let sum: i64 = 5_000_000 + 5_050_000 + 5_010_000 + 5_020_000 + 5_030_000 + 5_040_000;
    assert_eq!(stats.avg_6h, sum / 6);
    assert!(stats.is_uptrend);
}

#[test]
fn test_product_stats_without_candles() {
    let stats = product_stats_from_candles(5_000_000, 0, 10_000, &vec![]);
    // Fallback range: two percent around the price
    assert_eq!(stats.high_24h, 5_100_000);
    assert_eq!(stats.low_24h, 4_900_000);
    assert_eq!(stats.avg_6h, 5_000_000);
    assert!(!stats.is_uptrend);
}

#[test]
fn test_usd_cash_counts_usd_and_usdc() {
    let balances = vec![
        CashBalance { currency: "USD".to_string(), available: 10_000 },
        CashBalance { currency: "USDC".to_string(), available: 2_500 },
        CashBalance { currency: "BTC".to_string(), available: 99_999 },
    ];
    assert_eq!(usd_cash_total(&balances), 12_500);
}
