use coinbase_trader::watchdog::{check_health, evaluate_packet, MarketPacket, WatchdogAction};

#[test]
fn test_watchdog_no_heartbeat_no_action() {
    // Absence of any heartbeat reads as an initializing system
    assert_eq!(check_health(None, 1_000_000, 180_000), WatchdogAction::Initializing);
}

#[test]
fn test_watchdog_fresh_heartbeat_no_action() {
    // Elapsed below the threshold takes no action
    assert_eq!(check_health(Some(900_000), 1_000_000, 180_000), WatchdogAction::Alive);
}

#[test]
fn test_watchdog_stale_heartbeat_fires() {
    // Elapsed past the threshold demands the emergency liquidation
    assert_eq!(
        check_health(Some(100_000), 1_000_000, 180_000),
        WatchdogAction::CloseAllPositions
    );
}

#[test]
fn test_watchdog_fires_at_exact_threshold() {
    // Elapsed equal to the threshold already fires
    assert_eq!(check_health(Some(0), 180_000, 180_000), WatchdogAction::CloseAllPositions);
}

#[test]
fn test_watchdog_clock_behind_heartbeat() {
    // A clock behind the record reads as zero elapsed
    assert_eq!(check_health(Some(2_000_000), 1_000_000, 180_000), WatchdogAction::Alive);
}

fn packet(vix_level: i64, spread_percent: i64) -> MarketPacket {
    MarketPacket {
        symbol: "AAPL".to_string(),
        price: 20_000,
        volume: 1_000,
        spread_percent,
        vix_level,
    }
}

#[test]
fn test_edge_filter_rejects_high_vix() {
    let verdict = evaluate_packet(&packet(3_600, 10));
    assert!(!verdict.allow_execution);
    assert_eq!(verdict.score, 0);
    assert!(verdict.reason.contains("VIX too high"));
}

#[test]
fn test_edge_filter_rejects_wide_spread() {
    let verdict = evaluate_packet(&packet(2_000, 60));
    assert!(!verdict.allow_execution);
    assert_eq!(verdict.score, 10);
    assert!(verdict.reason.contains("Spread too wide"));
}

#[test]
fn test_edge_filter_passes_clean_signal() {
    let verdict = evaluate_packet(&packet(2_000, 10));
    assert!(verdict.allow_execution);
    assert_eq!(verdict.score, 95);
    assert!(verdict.reason.contains("Passed"));
}
