//! Dead-man's-switch safety monitor and edge filtering.
//!
//! A liveness reporter writes a heartbeat timestamp on every successful
//! trading cycle.  A separate scheduled monitor reads the latest heartbeat
//! and decides: no heartbeat at all reads as an initializing system and
//! takes no action; a fresh heartbeat takes none either; a stale one
//! demands one emergency liquidation of all positions this tick.  The host
//! performs the liquidation and does not retry within the tick; the next
//! scheduled run re-evaluates.

use vstd::prelude::*;

verus! {

/// The latest heartbeat written by the liveness reporter, epoch
/// milliseconds.
#[derive(Debug, Clone)]
pub struct Heartbeat {
    pub timestamp: u64,
}

/// What the watchdog does this tick.
#[derive(Debug, Clone, Copy, PartialEq, Eq, Structural)]
pub enum WatchdogAction {
    /// No heartbeat has ever been recorded; the system is initializing.
    Initializing,
    /// The last heartbeat is fresh.
    Alive,
    /// The last heartbeat is stale: close all positions, once.
    CloseAllPositions,
}

/// Milliseconds since the last heartbeat, clamped at zero for clocks that
/// run ahead of the record.
pub open spec fn spec_elapsed(now_ms: u64, last_ms: u64) -> int {
    if now_ms >= last_ms {
        now_ms - last_ms
    } else {
        0
    }
}

/// The watchdog decision: no heartbeat means no action, a fresh heartbeat
/// means no action, and a heartbeat at least the threshold old demands the
/// one emergency liquidation of the tick.
pub open spec fn spec_watchdog_action(
    last_heartbeat: Option<u64>,
    now_ms: u64,
    threshold_ms: u64,
) -> WatchdogAction {
    match last_heartbeat {
        None => WatchdogAction::Initializing,
        Some(last) => if spec_elapsed(now_ms, last) >= threshold_ms {
            WatchdogAction::CloseAllPositions
        } else {
            WatchdogAction::Alive
        },
    }
}

/// Decide the watchdog's action for this tick from the latest heartbeat,
/// the clock and the staleness threshold, all in epoch milliseconds.
pub fn check_health(last_heartbeat: Option<u64>, now_ms: u64, threshold_ms: u64) -> (r:
    WatchdogAction)
    ensures
        r == spec_watchdog_action(last_heartbeat, now_ms, threshold_ms),
        last_heartbeat is None ==> r is Initializing,
        (last_heartbeat matches Some(t) && spec_elapsed(now_ms, t) < threshold_ms) ==> r is Alive,
        (last_heartbeat matches Some(t) && spec_elapsed(now_ms, t) >= threshold_ms) ==> r
            is CloseAllPositions,
{
    match last_heartbeat {
        None => WatchdogAction::Initializing,
        Some(last) => {
            let elapsed: u64 = if now_ms >= last {
                now_ms - last
            } else {
                0
            };
            if elapsed >= threshold_ms {
                WatchdogAction::CloseAllPositions
            } else {
                WatchdogAction::Alive
            }
        },
    }
}

/// The watchdog never acts without a heartbeat, never acts on a fresh one,
/// and acts exactly when the elapsed time reaches the threshold.
pub proof fn lemma_watchdog_fires_exactly_when_stale(
    last_heartbeat: Option<u64>,
    now_ms: u64,
    threshold_ms: u64,
)
    ensures
        last_heartbeat is None ==> spec_watchdog_action(last_heartbeat, now_ms, threshold_ms)
            != WatchdogAction::CloseAllPositions,
        spec_watchdog_action(last_heartbeat, now_ms, threshold_ms)
            == WatchdogAction::CloseAllPositions <==> (last_heartbeat matches Some(t)
            && spec_elapsed(now_ms, t) >= threshold_ms),
{
}

/// A market packet handed to the edge filter, in fixed point: price in
/// cents, spread and volatility-index level in hundredths.
#[derive(Debug, Clone)]
pub struct MarketPacket {
    pub symbol: String,
    pub price: i64,
    pub volume: u64,
    pub spread_percent: i64,
    pub vix_level: i64,
}

/// The edge filter's verdict on a market packet.
#[derive(Debug, Clone)]
pub struct FilterResult {
    pub allow_execution: bool,
    pub reason: String,
    pub score: u32,
}

/// Filter a market packet at the edge: reject chaos (a volatility index
/// over 35) and illiquidity (a spread over half a percent), and pass the
/// rest on for analysis.
pub fn evaluate_packet(packet: &MarketPacket) -> (r: FilterResult)
    ensures
        packet.vix_level > 3_500 ==> !r.allow_execution && r.score == 0 && r.reason@
            == "VIX too high - Chaos Protected"@,
        packet.vix_level <= 3_500 && packet.spread_percent > 50 ==> !r.allow_execution && r.score
            == 10 && r.reason@ == "Spread too wide - Liquidity Protected"@,
        packet.vix_level <= 3_500 && packet.spread_percent <= 50 ==> r.allow_execution && r.score
            == 95 && r.reason@ == "Signal Passed Edge Filter"@,
{
    if packet.vix_level > 3_500 {
        FilterResult {
            allow_execution: false,
            reason: "VIX too high - Chaos Protected".to_owned(),
            score: 0,
        }
    } else if packet.spread_percent > 50 {
        FilterResult {
            allow_execution: false,
            reason: "Spread too wide - Liquidity Protected".to_owned(),
            score: 10,
        }
    } else {
        FilterResult {
            allow_execution: true,
            reason: "Signal Passed Edge Filter".to_owned(),
            score: 95,
        }
    }
}

} // verus!
