//! Shared data structures of the trading system.
//!
//! `TradingStateData` is the durable record of open positions and counters:
//! the single source of truth, mutated only by the cycle orchestrator.

use vstd::prelude::*;
use crate::fixed::{div_trunc, QUANTITY_SCALE};

verus! {

/// An open trading position.
///
/// `entry_time` is an RFC 3339 timestamp as the exchange reported it; a
/// malformed value only disables the time-based exit.  An absent
/// `high_water_mark` means no price above entry has been seen yet; the host
/// also maps a non-finite stored mark to `None`, which disables the trailing
/// stop for the cycle.
#[derive(Debug, Clone)]
pub struct Position {
    pub symbol: String,
    /// Hundred-millionths of a base unit; positive for a real position.
    pub quantity: i64,
    /// Cents; positive for a real position.
    pub entry_price: i64,
    pub entry_time: String,
    /// Highest price seen since entry, cents.
    pub high_water_mark: Option<i64>,
    /// Stop-loss price fixed at entry, cents.
    pub stop_loss_price: Option<i64>,
    /// Take-profit price fixed at entry, cents.
    pub take_profit_price: Option<i64>,
    /// 24-hour range at entry as basis points of the low, for reference.
    pub entry_volatility: Option<i64>,
}

/// Unrealized profit of a position at a price, in cents, rounded toward zero.
pub open spec fn spec_unrealized_pnl(p: Position, current_price: i64) -> int {
    div_trunc((current_price - p.entry_price) * p.quantity, QUANTITY_SCALE as int)
}

/// Unrealized profit of a position at a price, in basis points of the entry
/// price, rounded toward zero.
pub open spec fn spec_unrealized_pnl_percent(p: Position, current_price: i64) -> int {
    div_trunc((current_price - p.entry_price) * 10_000, p.entry_price as int)
}

/// The high water mark after seeing a price: set on the first price above
/// entry, ratcheted upward only, and never decreased.
pub open spec fn spec_updated_hwm(p: Position, current_price: i64) -> Option<i64> {
    match p.high_water_mark {
        Some(hwm) => if current_price > hwm {
            Some(current_price)
        } else {
            Some(hwm)
        },
        None => if current_price > p.entry_price {
            Some(current_price)
        } else {
            None
        },
    }
}

impl Position {
    /// Unrealized profit at the given price, in cents.
    pub fn unrealized_pnl(&self, current_price: i64) -> (r: i64)
        requires
            0 <= self.quantity,
            i64::MIN <= spec_unrealized_pnl(*self, current_price) <= i64::MAX,
        ensures
            r == spec_unrealized_pnl(*self, current_price),
    {
        crate::fixed::diff_mul_div_trunc(
            current_price,
            self.entry_price,
            self.quantity,
            QUANTITY_SCALE,
        )
    }

    /// Unrealized profit at the given price, in basis points of entry.
    pub fn unrealized_pnl_percent(&self, current_price: i64) -> (r: i64)
        requires
            0 < self.entry_price,
            i64::MIN <= spec_unrealized_pnl_percent(*self, current_price) <= i64::MAX,
        ensures
            r == spec_unrealized_pnl_percent(*self, current_price),
    {
        crate::fixed::diff_mul_div_trunc(current_price, self.entry_price, 10_000, self.entry_price)
    }

    /// Ratchet the high water mark for the trailing stop.
    pub fn update_high_water_mark(&mut self, current_price: i64)
        ensures
            final(self).high_water_mark == spec_updated_hwm(*old(self), current_price),
            final(self).symbol == old(self).symbol,
            final(self).quantity == old(self).quantity,
            final(self).entry_price == old(self).entry_price,
            final(self).entry_time == old(self).entry_time,
            final(self).stop_loss_price == old(self).stop_loss_price,
            final(self).take_profit_price == old(self).take_profit_price,
            final(self).entry_volatility == old(self).entry_volatility,
    {
        match self.high_water_mark {
            Some(hwm) => {
                if current_price > hwm {
                    self.high_water_mark = Some(current_price);
                }
            },
            None => {
                if current_price > self.entry_price {
                    self.high_water_mark = Some(current_price);
                }
            },
        }
    }
}

/// The mark never moves down: whatever price comes in, an updated mark is at
/// least the old one, and a mark only exists once a price above entry has
/// been seen.
pub proof fn lemma_hwm_ratchets(p: Position, current_price: i64)
    ensures
        p.high_water_mark matches Some(old_mark) ==> (spec_updated_hwm(p, current_price)
            matches Some(new_mark) && new_mark >= old_mark),
        p.high_water_mark is None && current_price <= p.entry_price ==> spec_updated_hwm(
            p,
            current_price,
        ) is None,
{
}

/// Order side.
#[derive(Debug, Clone, Copy, PartialEq, Eq, Structural)]
pub enum OrderSide {
    Buy,
    Sell,
}

impl OrderSide {
    /// The side as the exchange spells it.
    pub fn as_str(&self) -> (r: &'static str)
        ensures
            self is Buy ==> r@ == "BUY"@,
            self is Sell ==> r@ == "SELL"@,
    {
        match self {
            OrderSide::Buy => "BUY",
            OrderSide::Sell => "SELL",
        }
    }
}

/// A completed trade.
#[derive(Debug, Clone)]
pub struct Trade {
    pub id: String,
    pub symbol: String,
    pub side: OrderSide,
    /// Hundred-millionths of a base unit.
    pub quantity: i64,
    /// Cents.
    pub price: i64,
    /// Cents.
    pub total_value: i64,
    pub timestamp: String,
    /// Realized profit in cents; `None` on the buying side.
    pub pnl: Option<i64>,
}

/// Result of a trading cycle.
#[derive(Debug, Clone)]
pub struct TradingCycleResult {
    pub success: bool,
    pub message: String,
    pub positions_opened: usize,
    pub positions_closed: usize,
    pub trades: Vec<Trade>,
    pub cycle_time_ms: u64,
}

impl Default for TradingCycleResult {
    /// A cycle that did nothing.
    fn default() -> (r: Self)
        ensures
            r.success,
            r.message@ == "No action taken"@,
            r.positions_opened == 0,
            r.positions_closed == 0,
            r.trades@.len() == 0,
            r.cycle_time_ms == 0,
    {
        TradingCycleResult {
            success: true,
            message: "No action taken".to_owned(),
            positions_opened: 0,
            positions_closed: 0,
            trades: Vec::new(),
            cycle_time_ms: 0,
        }
    }
}

/// Index of the first position carrying the symbol, or -1 when none does.
pub open spec fn first_index_of(ps: Seq<Position>, symbol: Seq<char>) -> int
    decreases ps.len(),
{
    if ps.len() == 0 {
        -1
    } else if ps[0].symbol@ == symbol {
        0
    } else {
        let rest = first_index_of(ps.skip(1), symbol);
        if rest < 0 {
            -1
        } else {
            rest + 1
        }
    }
}

/// What the first index means: it points at the first position with the
/// symbol, and is negative exactly when no position carries it.
pub proof fn lemma_first_index_of(ps: Seq<Position>, symbol: Seq<char>)
    ensures
        first_index_of(ps, symbol) >= 0 ==> {
            &&& first_index_of(ps, symbol) < ps.len()
            &&& ps[first_index_of(ps, symbol)].symbol@ == symbol
            &&& forall|j: int|
                0 <= j < first_index_of(ps, symbol) ==> (#[trigger] ps[j]).symbol@ != symbol
        },
        first_index_of(ps, symbol) < 0 ==> forall|j: int|
            0 <= j < ps.len() ==> (#[trigger] ps[j]).symbol@ != symbol,
    decreases ps.len(),
{
    if ps.len() > 0 && ps[0].symbol@ != symbol {
        lemma_first_index_of(ps.skip(1), symbol);
        assert forall|j: int| 0 < j < ps.len() implies ps.skip(1)[j - 1] == ps[j] by {}
    }
}

/// No two positions carry the same symbol.
pub open spec fn unique_symbols(ps: Seq<Position>) -> bool {
    forall|i: int, j: int|
        0 <= i < j < ps.len() ==> (#[trigger] ps[i]).symbol@ != (#[trigger] ps[j]).symbol@
}

/// Durable trading state: the single source of truth for open positions and
/// lifetime counters.
#[derive(Debug, Clone)]
pub struct TradingStateData {
    /// Trading enabled flag.
    pub enabled: bool,
    /// Open positions, at most one per symbol.
    pub positions: Vec<Position>,
    /// Timestamp of the last trading cycle.
    pub last_cycle_time: Option<String>,
    /// Total number of trades executed.
    pub total_trades: u64,
    /// Total realized profit, cents.
    pub total_pnl: i64,
    /// Consecutive cycle errors.
    pub consecutive_errors: u32,
    /// Trades made on `last_trade_day`.
    pub daily_trades: u32,
    /// UTC day of the last trade, for the daily reset.
    pub last_trade_day: Option<String>,
}

impl Default for TradingStateData {
    /// The empty state created on first load.
    fn default() -> (r: Self)
        ensures
            !r.enabled,
            r.positions@.len() == 0,
            r.last_cycle_time is None,
            r.total_trades == 0,
            r.total_pnl == 0,
            r.consecutive_errors == 0,
            r.daily_trades == 0,
            r.last_trade_day is None,
    {
        TradingStateData {
            enabled: false,
            positions: Vec::new(),
            last_cycle_time: None,
            total_trades: 0,
            total_pnl: 0,
            consecutive_errors: 0,
            daily_trades: 0,
            last_trade_day: None,
        }
    }
}

impl TradingStateData {
    /// Whether the circuit breaker should pause trading.
    pub fn should_pause(&self, max_errors: u32) -> (r: bool)
        ensures
            r == (self.consecutive_errors >= max_errors),
    {
        self.consecutive_errors >= max_errors
    }

    /// Record a fully successful cycle: the error streak ends.
    pub fn record_success(&mut self)
        ensures
            final(self).consecutive_errors == 0,
            final(self).enabled == old(self).enabled,
            final(self).positions == old(self).positions,
            final(self).last_cycle_time == old(self).last_cycle_time,
            final(self).total_trades == old(self).total_trades,
            final(self).total_pnl == old(self).total_pnl,
            final(self).daily_trades == old(self).daily_trades,
            final(self).last_trade_day == old(self).last_trade_day,
    {
        self.consecutive_errors = 0;
    }

    /// Record a cycle-level error.
    pub fn record_error(&mut self)
        requires
            old(self).consecutive_errors < u32::MAX,
        ensures
            final(self).consecutive_errors == old(self).consecutive_errors + 1,
            final(self).enabled == old(self).enabled,
            final(self).positions == old(self).positions,
            final(self).last_cycle_time == old(self).last_cycle_time,
            final(self).total_trades == old(self).total_trades,
            final(self).total_pnl == old(self).total_pnl,
            final(self).daily_trades == old(self).daily_trades,
            final(self).last_trade_day == old(self).last_trade_day,
    {
        self.consecutive_errors = self.consecutive_errors + 1;
    }

    /// Whether the state's last trade day is the given day.
    pub open spec fn spec_same_day(self, today: Seq<char>) -> bool {
        self.last_trade_day matches Some(d) && d@ == today
    }

    /// Count a trade against today's budget, resetting the count on the
    /// first trade of a new day.
    pub fn increment_daily_trades(&mut self, today: &str)
        requires
            old(self).spec_same_day(today@) ==> old(self).daily_trades < u32::MAX,
        ensures
            old(self).spec_same_day(today@) ==> final(self).daily_trades == old(self).daily_trades
                + 1 && final(self).last_trade_day == old(self).last_trade_day,
            !old(self).spec_same_day(today@) ==> final(self).daily_trades == 1
                && (final(self).last_trade_day matches Some(d) && d@ == today@),
            final(self).enabled == old(self).enabled,
            final(self).positions == old(self).positions,
            final(self).last_cycle_time == old(self).last_cycle_time,
            final(self).total_trades == old(self).total_trades,
            final(self).total_pnl == old(self).total_pnl,
            final(self).consecutive_errors == old(self).consecutive_errors,
    {
        let today_owned: String = today.to_owned();
        let same = match &self.last_trade_day {
            Some(d) => *d == today_owned,
            None => false,
        };
        if !same {
            self.daily_trades = 0;
            self.last_trade_day = Some(today_owned);
        }
        self.daily_trades = self.daily_trades + 1;
    }

    /// Borrow the position for a symbol, if one is open.
    pub fn get_position<'a>(&'a self, symbol: &str) -> (r: Option<&'a Position>)
        ensures
            first_index_of(self.positions@, symbol@) < 0 <==> r is None,
            r matches Some(p) ==> *p == self.positions@[first_index_of(
                self.positions@,
                symbol@,
            )],
    {
        proof {
            lemma_first_index_of(self.positions@, symbol@);
        }
        let want: String = symbol.to_owned();
        let ghost target = first_index_of(self.positions@, symbol@);
        let mut i: usize = 0;
        while i < self.positions.len()
            invariant
                i <= self.positions@.len(),
                target == first_index_of(self.positions@, symbol@),
                want@ == symbol@,
                forall|j: int| 0 <= j < i ==> (#[trigger] self.positions@[j]).symbol@ != symbol@,
                target >= 0 ==> target >= i,
            decreases self.positions@.len() - i,
        {
            if self.positions[i].symbol == want {
                proof {
                    lemma_first_index_of(self.positions@, symbol@);
                }
                return Some(&self.positions[i]);
            }
            proof {
                lemma_first_index_of(self.positions@, symbol@);
            }
            i = i + 1;
        }
        None
    }

    /// Append a new position.  The cycle orchestrator only adds a position
    /// after finding none open for the symbol.
    pub fn add_position(&mut self, position: Position)
        ensures
            final(self).positions@ == old(self).positions@.push(position),
            final(self).enabled == old(self).enabled,
            final(self).last_cycle_time == old(self).last_cycle_time,
            final(self).total_trades == old(self).total_trades,
            final(self).total_pnl == old(self).total_pnl,
            final(self).consecutive_errors == old(self).consecutive_errors,
            final(self).daily_trades == old(self).daily_trades,
            final(self).last_trade_day == old(self).last_trade_day,
    {
        self.positions.push(position);
    }

    /// Remove and return the position for a symbol, leaving the rest in
    /// order; the state is untouched when no position carries the symbol.
    pub fn remove_position(&mut self, symbol: &str) -> (r: Option<Position>)
        ensures
            ({
                let idx = first_index_of(old(self).positions@, symbol@);
                &&& idx < 0 ==> r is None && final(self).positions@ == old(self).positions@
                &&& idx >= 0 ==> (r matches Some(p) && p == old(self).positions@[idx]
                    && final(self).positions@ == old(self).positions@.remove(idx))
            }),
            final(self).enabled == old(self).enabled,
            final(self).last_cycle_time == old(self).last_cycle_time,
            final(self).total_trades == old(self).total_trades,
            final(self).total_pnl == old(self).total_pnl,
            final(self).consecutive_errors == old(self).consecutive_errors,
            final(self).daily_trades == old(self).daily_trades,
            final(self).last_trade_day == old(self).last_trade_day,
    {
        proof {
            lemma_first_index_of(self.positions@, symbol@);
        }
        let want: String = symbol.to_owned();
        let ghost target = first_index_of(self.positions@, symbol@);
        let mut i: usize = 0;
        while i < self.positions.len()
            invariant
                i <= self.positions@.len(),
                self.positions@ == old(self).positions@,
                *self == *old(self),
                target == first_index_of(self.positions@, symbol@),
                want@ == symbol@,
                forall|j: int| 0 <= j < i ==> (#[trigger] self.positions@[j]).symbol@ != symbol@,
                target >= 0 ==> target >= i,
            decreases self.positions@.len() - i,
        {
            if self.positions[i].symbol == want {
                proof {
                    lemma_first_index_of(self.positions@, symbol@);
                }
                let removed = self.positions.remove(i);
                return Some(removed);
            }
            proof {
                lemma_first_index_of(self.positions@, symbol@);
            }
            i = i + 1;
        }
        None
    }
}

/// API response shape for the positions endpoint.
#[derive(Debug, Clone)]
pub struct PositionsResponse {
    pub positions: Vec<PositionWithPnl>,
    /// Cents.
    pub total_value: i64,
    /// Cents.
    pub total_pnl: i64,
}

/// A position with its live profit figures.
#[derive(Debug, Clone)]
pub struct PositionWithPnl {
    pub symbol: String,
    /// Hundred-millionths of a base unit.
    pub quantity: i64,
    /// Cents.
    pub entry_price: i64,
    /// Cents.
    pub current_price: i64,
    /// Cents.
    pub unrealized_pnl: i64,
    /// Basis points of the entry price.
    pub unrealized_pnl_percent: i64,
}

/// API response shape for the status endpoint.
#[derive(Debug, Clone)]
pub struct StatusResponse {
    pub enabled: bool,
    pub positions_count: usize,
    pub total_trades: u64,
    /// Cents.
    pub total_pnl: i64,
    pub daily_trades: u32,
    pub consecutive_errors: u32,
    pub last_cycle: Option<String>,
}

/// Health check response shape.
#[derive(Debug, Clone)]
pub struct HealthResponse {
    pub status: String,
    pub version: String,
    pub environment: String,
    pub uptime: String,
}

} // verus!
