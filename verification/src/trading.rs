//! Cycle orchestration: the decisions and state transitions of one
//! control-loop iteration.
//!
//! The host performs the outside work (quotes, orders, storage) and calls
//! these functions with plain values: the admission rule that may skip a
//! cycle, the high-water-mark refresh, the exit application, the entry plan,
//! and the derived views of the state.  Every mutation of `TradingStateData`
//! happens here or in its own methods.

use vstd::prelude::*;
use crate::capital_tier::spec_tier_for;
use crate::client::ProductStats;
use crate::config::Config;
use crate::fixed::{
    div_trunc, lemma_diff_product_in_i128, MAX_AMOUNT, MAX_PERCENT, QUANTITY_SCALE,
};
use crate::strategy::{
    clamp_i64, spec_clamp, spec_final_size, spec_max_new_positions, spec_range_position,
    spec_rejection, spec_signal_confidence, spec_sl_price, spec_tp_price, spec_volume_usd,
    TradingStrategy,
};
use crate::types::{
    first_index_of, lemma_first_index_of, spec_unrealized_pnl, spec_unrealized_pnl_percent,
    spec_updated_hwm, unique_symbols, OrderSide, Position, PositionWithPnl, PositionsResponse,
    StatusResponse, Trade, TradingStateData,
};

verus! {

/// Whether a cycle may proceed, and if not, why it is skipped.
#[derive(Debug, Clone, Copy, PartialEq, Eq, Structural)]
pub enum CycleGate {
    /// Trading is disabled.
    Disabled,
    /// The circuit breaker is open: too many consecutive errors.
    Paused,
    /// Today's trade budget is spent.
    DailyLimitReached,
    /// The cycle may run.
    Proceed,
}

/// The admission rule for one cycle: disabled, paused by the circuit
/// breaker, stopped by the daily budget, or free to proceed, in that order.
pub open spec fn spec_cycle_gate(state: TradingStateData, cfg: Config, today: Seq<char>) -> CycleGate {
    if !state.enabled {
        CycleGate::Disabled
    } else if state.consecutive_errors >= cfg.max_consecutive_errors {
        CycleGate::Paused
    } else if state.daily_trades >= cfg.daily_trade_limit && state.spec_same_day(today) {
        CycleGate::DailyLimitReached
    } else {
        CycleGate::Proceed
    }
}

/// Decide whether this cycle runs at all.
pub fn cycle_gate(state: &TradingStateData, config: &Config, today: &str) -> (r: CycleGate)
    ensures
        r == spec_cycle_gate(*state, *config, today@),
{
    if !state.enabled {
        return CycleGate::Disabled;
    }
    if state.should_pause(config.max_consecutive_errors) {
        return CycleGate::Paused;
    }
    if state.daily_trades >= config.daily_trade_limit {
        let today_owned: String = today.to_owned();
        let same = match &state.last_trade_day {
            Some(d) => *d == today_owned,
            None => false,
        };
        if same {
            return CycleGate::DailyLimitReached;
        }
    }
    CycleGate::Proceed
}

/// Ratchet the high water mark of the position for a symbol, if one is open.
pub fn refresh_high_water_mark(state: &mut TradingStateData, symbol: &str, current_price: i64)
    ensures
        ({
            let idx = first_index_of(old(state).positions@, symbol@);
            &&& idx < 0 ==> final(state).positions@ == old(state).positions@
            &&& idx >= 0 ==> final(state).positions@ == old(state).positions@.update(
                idx,
                (Position {
                    high_water_mark: spec_updated_hwm(old(state).positions@[idx], current_price),
                    ..old(state).positions@[idx]
                }),
            )
        }),
        final(state).enabled == old(state).enabled,
        final(state).last_cycle_time == old(state).last_cycle_time,
        final(state).total_trades == old(state).total_trades,
        final(state).total_pnl == old(state).total_pnl,
        final(state).consecutive_errors == old(state).consecutive_errors,
        final(state).daily_trades == old(state).daily_trades,
        final(state).last_trade_day == old(state).last_trade_day,
{
    proof {
        lemma_first_index_of(state.positions@, symbol@);
    }
    let want: String = symbol.to_owned();
    let ghost target = first_index_of(state.positions@, symbol@);
    let mut i: usize = 0;
    while i < state.positions.len()
        invariant
            i <= state.positions@.len(),
            *state == *old(state),
            target == first_index_of(state.positions@, symbol@),
            want@ == symbol@,
            forall|j: int| 0 <= j < i ==> (#[trigger] state.positions@[j]).symbol@ != symbol@,
            target >= 0 ==> target >= i,
        decreases state.positions@.len() - i,
    {
        if state.positions[i].symbol == want {
            proof {
                lemma_first_index_of(state.positions@, symbol@);
            }
            let mut p = state.positions.remove(i);
            p.update_high_water_mark(current_price);
            state.positions.insert(i, p);
            proof {
                assert(state.positions@ =~= old(state).positions@.update(
                    i as int,
                    (Position {
                        high_water_mark: spec_updated_hwm(
                            old(state).positions@[i as int],
                            current_price,
                        ),
                        ..old(state).positions@[i as int]
                    }),
                ));
            }
            return ;
        }
        proof {
            lemma_first_index_of(state.positions@, symbol@);
        }
        i = i + 1;
    }
}

/// Close the open position for a symbol at an exit price: remove it, realize
/// its profit into the counters, count the trade against today's budget, and
/// return the closing trade.  Nothing changes when no position carries the
/// symbol.
pub fn close_position(
    state: &mut TradingStateData,
    symbol: &str,
    exit_price: i64,
    order_id: String,
    timestamp: String,
    today: &str,
) -> (r: Option<Trade>)
    requires
        ({
            let idx = first_index_of(old(state).positions@, symbol@);
            idx >= 0 ==> {
                let p = old(state).positions@[idx];
                &&& 0 <= p.quantity
                &&& i64::MIN <= spec_unrealized_pnl(p, exit_price) <= i64::MAX
                &&& i64::MIN <= old(state).total_pnl + spec_unrealized_pnl(p, exit_price)
                    <= i64::MAX
                &&& i64::MIN <= div_trunc(exit_price * p.quantity, QUANTITY_SCALE as int)
                    <= i64::MAX
                &&& old(state).total_trades < u64::MAX
                &&& (old(state).spec_same_day(today@) ==> old(state).daily_trades < u32::MAX)
            }
        }),
    ensures
        ({
            let idx = first_index_of(old(state).positions@, symbol@);
            &&& idx < 0 ==> {
                &&& r is None
                &&& final(state).positions@ == old(state).positions@
                &&& final(state).enabled == old(state).enabled
                &&& final(state).last_cycle_time == old(state).last_cycle_time
                &&& final(state).total_trades == old(state).total_trades
                &&& final(state).total_pnl == old(state).total_pnl
                &&& final(state).consecutive_errors == old(state).consecutive_errors
                &&& final(state).daily_trades == old(state).daily_trades
                &&& final(state).last_trade_day == old(state).last_trade_day
            }
            &&& idx >= 0 ==> {
                let p = old(state).positions@[idx];
                let pnl = spec_unrealized_pnl(p, exit_price);
                &&& (r matches Some(t) && {
                    &&& t.id == order_id
                    &&& t.symbol == p.symbol
                    &&& t.side is Sell
                    &&& t.quantity == p.quantity
                    &&& t.price == exit_price
                    &&& t.total_value == div_trunc(exit_price * p.quantity, QUANTITY_SCALE as int)
                    &&& t.timestamp == timestamp
                    &&& t.pnl matches Some(x) && x == pnl
                })
                &&& final(state).positions@ == old(state).positions@.remove(idx)
                &&& final(state).total_trades == old(state).total_trades + 1
                &&& final(state).total_pnl == old(state).total_pnl + pnl
                &&& (old(state).spec_same_day(today@) ==> final(state).daily_trades == old(
                    state,
                ).daily_trades + 1)
                &&& (!old(state).spec_same_day(today@) ==> final(state).daily_trades == 1 && (
                final(state).last_trade_day matches Some(d) && d@ == today@))
                &&& final(state).enabled == old(state).enabled
                &&& final(state).last_cycle_time == old(state).last_cycle_time
                &&& final(state).consecutive_errors == old(state).consecutive_errors
            }
        }),
        unique_symbols(old(state).positions@) ==> unique_symbols(final(state).positions@),
{
    proof {
        lemma_first_index_of(old(state).positions@, symbol@);
        let idx = first_index_of(old(state).positions@, symbol@);
        if idx >= 0 && unique_symbols(old(state).positions@) {
            assert(forall|i: int, j: int|
                0 <= i < j < old(state).positions@.remove(idx).len() ==> (#[trigger] old(
                    state,
                ).positions@.remove(idx)[i]).symbol@ != (#[trigger] old(state).positions@.remove(
                    idx,
                )[j]).symbol@);
        }
    }
    match state.remove_position(symbol) {
        None => None,
        Some(p) => {
            let pnl = p.unrealized_pnl(exit_price);
            let total_value = crate::fixed::diff_mul_div_trunc(
                exit_price,
                0,
                p.quantity,
                QUANTITY_SCALE,
            );
            state.total_trades = state.total_trades + 1;
            state.total_pnl = state.total_pnl + pnl;
            state.increment_daily_trades(today);
            Some(
                Trade {
                    id: order_id,
                    symbol: p.symbol,
                    side: OrderSide::Sell,
                    quantity: p.quantity,
                    price: exit_price,
                    total_value,
                    timestamp,
                    pnl: Some(pnl),
                },
            )
        },
    }
}

/// The 24-hour range as basis points of the low, clamped to the specified
/// percent range; a non-positive low reads as maximal volatility whenever
/// the high is positive.
pub open spec fn spec_range_percent(high: i64, low: i64) -> int {
    if low > 0 {
        let raw = div_trunc((high - low) * 10_000, low as int);
        if raw < 0 {
            0
        } else if raw > MAX_PERCENT {
            MAX_PERCENT as int
        } else {
            raw
        }
    } else if high > 0 {
        MAX_PERCENT as int
    } else {
        0
    }
}

/// The volatility factor in hundredths: the range normalized around a three
/// percent day, clamped to [0.5, 2].
pub open spec fn spec_volatility_factor(high: i64, low: i64) -> int {
    spec_clamp(spec_range_percent(high, low) / 3, 50, 200)
}

/// The 24-hour range as basis points of the low.
pub fn range_percent_of(high: i64, low: i64) -> (r: i64)
    ensures
        r == spec_range_percent(high, low),
        0 <= r <= MAX_PERCENT,
{
    if low > 0 {
        proof {
            lemma_diff_product_in_i128(high - low, 10_000);
        }
        let raw: i128 = (((high as i128) - (low as i128)) * 10_000) / (low as i128);
        if raw < 0 {
            0
        } else if raw > (MAX_PERCENT as i128) {
            MAX_PERCENT
        } else {
            raw as i64
        }
    } else if high > 0 {
        MAX_PERCENT
    } else {
        0
    }
}

/// A planned entry for a symbol: what to buy and the exit bands to store.
#[derive(Debug, Clone)]
pub struct EntryPlan {
    pub symbol: String,
    /// Entry price, cents.
    pub price: i64,
    /// Order size, cents.
    pub size: i64,
    /// Hundred-millionths of a base unit.
    pub quantity: i64,
    /// Cents.
    pub stop_loss_price: i64,
    /// Cents.
    pub take_profit_price: i64,
    /// The 24-hour range at entry, basis points of the low.
    pub range_percent: i64,
    /// Signal confidence, hundredths.
    pub confidence: i64,
}

/// Whether the strategy wants to enter the symbol: a slot free under the
/// caps and a buy signal with confidence at least 0.60.
pub open spec fn spec_wants_entry(
    cfg: Config,
    stats: ProductStats,
    current: int,
    portfolio: i64,
) -> bool {
    let rp = spec_range_position(stats.price, stats.high_24h, stats.low_24h);
    let rejected = spec_rejection(
        cfg,
        stats.is_uptrend,
        spec_volume_usd(stats.volume_24h, stats.price) as i64,
    ) is Some;
    &&& spec_max_new_positions(cfg, portfolio, current) > 0
    &&& spec_signal_confidence(rejected, rp, stats.change_24h).0 is Buy
    &&& spec_signal_confidence(rejected, rp, stats.change_24h).1 >= 60
}

/// Whether an entry comes out of the planner: the strategy wants it, the
/// sized order reaches the exchange minimum, and the price is positive with
/// a representable quantity.
pub open spec fn spec_entry_planned(
    cfg: Config,
    stats: ProductStats,
    current: int,
    portfolio: i64,
    usd_balance: i64,
) -> bool {
    let vf = spec_volatility_factor(stats.high_24h, stats.low_24h) as i64;
    &&& spec_wants_entry(cfg, stats, current, portfolio)
    &&& spec_tier_for(portfolio as int).spec_can_trade()
    &&& spec_final_size(cfg, portfolio, usd_balance, vf) >= cfg.min_position_usd
    &&& stats.price > 0
    &&& div_trunc(
        spec_final_size(cfg, portfolio, usd_balance, vf) * (QUANTITY_SCALE as int),
        stats.price as int,
    ) <= i64::MAX
}

/// Plan an entry for a symbol from its market stats: analyze, check the
/// entry conditions, size the position, and fix the exit bands.  `None`
/// means no position opens for the symbol this cycle.
pub fn plan_entry(
    strategy: &TradingStrategy,
    symbol: &str,
    stats: &ProductStats,
    current_positions: usize,
    total_portfolio: i64,
    usd_balance: i64,
) -> (r: Option<EntryPlan>)
    requires
        strategy.config.well_formed(),
        total_portfolio <= MAX_AMOUNT,
        stats.price <= MAX_AMOUNT,
        i64::MIN <= spec_volume_usd(stats.volume_24h, stats.price) <= i64::MAX,
    ensures
        r is Some <==> spec_entry_planned(
            strategy.config,
            *stats,
            current_positions as int,
            total_portfolio,
            usd_balance,
        ),
        r matches Some(pl) ==> ({
            let vf = spec_volatility_factor(stats.high_24h, stats.low_24h) as i64;
            let range = spec_range_percent(stats.high_24h, stats.low_24h) as i64;
            &&& pl.symbol@ == symbol@
            &&& pl.price == stats.price
            &&& pl.size == spec_final_size(strategy.config, total_portfolio, usd_balance, vf)
            &&& pl.quantity == div_trunc(
                pl.size * (QUANTITY_SCALE as int),
                stats.price as int,
            )
            &&& pl.stop_loss_price == spec_sl_price(strategy.config, stats.price, range)
            &&& pl.take_profit_price == spec_tp_price(strategy.config, stats.price, range)
            &&& pl.range_percent == range
            &&& pl.quantity >= 0
        }),
{
    let analysis = strategy.analyze(
        symbol,
        stats.price,
        stats.change_24h,
        stats.high_24h,
        stats.low_24h,
        stats.is_uptrend,
        stats.volume_24h,
    );
    if !strategy.should_enter(&analysis, current_positions, total_portfolio) {
        return None;
    }
    let range_percent = range_percent_of(stats.high_24h, stats.low_24h);
    let volatility_factor = clamp_i64(range_percent / 3, 50, 200);
    let sizing = strategy.calculate_position_size(
        total_portfolio,
        usd_balance,
        volatility_factor,
    );
    if !sizing.can_trade {
        return None;
    }
    if stats.price <= 0 {
        return None;
    }
    let wide: i128 = (sizing.size as i128) * (QUANTITY_SCALE as i128);
    let q: i128 = wide / (stats.price as i128);
    if q > (i64::MAX as i128) {
        return None;
    }
    let quantity: i64 = q as i64;
    let bands = strategy.calculate_dynamic_tp_sl(stats.price, range_percent);
    Some(
        EntryPlan {
            symbol: symbol.to_owned(),
            price: stats.price,
            size: sizing.size,
            quantity,
            stop_loss_price: bands.0,
            take_profit_price: bands.1,
            range_percent,
            confidence: analysis.confidence,
        },
    )
}

/// Open the planned position: record it with its exit bands, count the trade
/// and return the buying trade.  The caller only plans an entry for a symbol
/// without an open position.
pub fn open_position(
    state: &mut TradingStateData,
    plan: &EntryPlan,
    entry_time: String,
    order_id: String,
    timestamp: String,
    today: &str,
) -> (r: Trade)
    requires
        first_index_of(old(state).positions@, plan.symbol@) < 0,
        old(state).total_trades < u64::MAX,
        old(state).spec_same_day(today@) ==> old(state).daily_trades < u32::MAX,
    ensures
        final(state).positions@ == old(state).positions@.push(
            (Position {
                symbol: plan.symbol,
                quantity: plan.quantity,
                entry_price: plan.price,
                entry_time: entry_time,
                high_water_mark: None,
                stop_loss_price: Some(plan.stop_loss_price),
                take_profit_price: Some(plan.take_profit_price),
                entry_volatility: Some(plan.range_percent),
            }),
        ),
        final(state).total_trades == old(state).total_trades + 1,
        old(state).spec_same_day(today@) ==> final(state).daily_trades == old(state).daily_trades
            + 1,
        !old(state).spec_same_day(today@) ==> final(state).daily_trades == 1
            && (final(state).last_trade_day matches Some(d) && d@ == today@),
        final(state).enabled == old(state).enabled,
        final(state).last_cycle_time == old(state).last_cycle_time,
        final(state).total_pnl == old(state).total_pnl,
        final(state).consecutive_errors == old(state).consecutive_errors,
        r.id == order_id,
        r.symbol == plan.symbol,
        r.side is Buy,
        r.quantity == plan.quantity,
        r.price == plan.price,
        r.total_value == plan.size,
        r.timestamp == timestamp,
        r.pnl is None,
        unique_symbols(old(state).positions@) ==> unique_symbols(final(state).positions@),
{
    proof {
        lemma_first_index_of(old(state).positions@, plan.symbol@);
    }
    let position = Position {
        symbol: plan.symbol.clone(),
        quantity: plan.quantity,
        entry_price: plan.price,
        entry_time,
        high_water_mark: None,
        stop_loss_price: Some(plan.stop_loss_price),
        take_profit_price: Some(plan.take_profit_price),
        entry_volatility: Some(plan.range_percent),
    };
    state.add_position(position);
    state.total_trades = state.total_trades + 1;
    state.increment_daily_trades(today);
    let trade = Trade {
        id: order_id,
        symbol: plan.symbol.clone(),
        side: OrderSide::Buy,
        quantity: plan.quantity,
        price: plan.price,
        total_value: plan.size,
        timestamp,
        pnl: None,
    };
    proof {
        if unique_symbols(old(state).positions@) {
            let ps = old(state).positions@;
            let q = ps.push(
                (Position {
                    symbol: plan.symbol,
                    quantity: plan.quantity,
                    entry_price: plan.price,
                    entry_time: entry_time,
                    high_water_mark: None,
                    stop_loss_price: Some(plan.stop_loss_price),
                    take_profit_price: Some(plan.take_profit_price),
                    entry_volatility: Some(plan.range_percent),
                }),
            );
            assert(forall|i: int, j: int|
                0 <= i < j < q.len() ==> (#[trigger] q[i]).symbol@ != (#[trigger] q[j]).symbol@);
        }
    }
    trade
}

/// The combined value of the positions at the given prices, in cents.
pub open spec fn spec_positions_value(ps: Seq<Position>, prices: Seq<i64>) -> int
    decreases ps.len(),
{
    if ps.len() == 0 {
        0
    } else {
        spec_positions_value(ps.drop_last(), prices.drop_last()) + div_trunc(
            prices.last() * ps.last().quantity,
            QUANTITY_SCALE as int,
        )
    }
}

/// The combined unrealized profit of the positions at the given prices.
pub open spec fn spec_positions_pnl(ps: Seq<Position>, prices: Seq<i64>) -> int
    decreases ps.len(),
{
    if ps.len() == 0 {
        0
    } else {
        spec_positions_pnl(ps.drop_last(), prices.drop_last()) + spec_unrealized_pnl(
            ps.last(),
            prices.last(),
        )
    }
}

/// The value of the open positions at live prices, one price per position,
/// in cents.
pub fn positions_value(positions: &Vec<Position>, prices: &Vec<i64>) -> (r: i64)
    requires
        positions@.len() == prices@.len(),
        positions@.len() <= 10_000,
        forall|i: int|
            0 <= i < positions@.len() ==> 0 <= div_trunc(
                (#[trigger] prices@[i]) * positions@[i].quantity,
                QUANTITY_SCALE as int,
            ) <= MAX_AMOUNT,
        forall|i: int| 0 <= i < positions@.len() ==> 0 <= (#[trigger] positions@[i]).quantity,
    ensures
        r == spec_positions_value(positions@, prices@),
{
    let mut total: i64 = 0;
    let mut i: usize = 0;
    while i < positions.len()
        invariant
            i <= positions@.len(),
            positions@.len() == prices@.len(),
            positions@.len() <= 10_000,
            total == spec_positions_value(positions@.take(i as int), prices@.take(i as int)),
            0 <= total <= i * MAX_AMOUNT,
            forall|k: int|
                0 <= k < positions@.len() ==> 0 <= div_trunc(
                    (#[trigger] prices@[k]) * positions@[k].quantity,
                    QUANTITY_SCALE as int,
                ) <= MAX_AMOUNT,
            forall|k: int| 0 <= k < positions@.len() ==> 0 <= (#[trigger] positions@[k]).quantity,
        decreases positions@.len() - i,
    {
        proof {
            assert(positions@.take(i + 1).drop_last() == positions@.take(i as int));
            assert(prices@.take(i + 1).drop_last() == prices@.take(i as int));
            assert(positions@.take(i + 1).last() == positions@[i as int]);
            assert(prices@.take(i + 1).last() == prices@[i as int]);
        }
        let value = crate::fixed::diff_mul_div_trunc(
            prices[i],
            0,
            positions[i].quantity,
            QUANTITY_SCALE,
        );
        total = total + value;
        i = i + 1;
    }
    proof {
        assert(positions@.take(positions@.len() as int) == positions@);
        assert(prices@.take(prices@.len() as int) == prices@);
    }
    total
}

/// The open positions with their live profit figures and the totals.
pub fn positions_with_pnl(positions: &Vec<Position>, prices: &Vec<i64>) -> (r: PositionsResponse)
    requires
        positions@.len() == prices@.len(),
        positions@.len() <= 10_000,
        forall|i: int|
            0 <= i < positions@.len() ==> {
                &&& 0 < (#[trigger] positions@[i]).entry_price
                &&& 0 <= positions@[i].quantity
                &&& 0 <= div_trunc(
                    prices@[i] * positions@[i].quantity,
                    QUANTITY_SCALE as int,
                ) <= MAX_AMOUNT
                &&& -MAX_AMOUNT <= spec_unrealized_pnl(positions@[i], prices@[i]) <= MAX_AMOUNT
                &&& i64::MIN <= spec_unrealized_pnl_percent(positions@[i], prices@[i]) <= i64::MAX
            },
    ensures
        r.positions@.len() == positions@.len(),
        forall|i: int|
            0 <= i < positions@.len() ==> {
                &&& (#[trigger] r.positions@[i]).symbol == positions@[i].symbol
                &&& r.positions@[i].quantity == positions@[i].quantity
                &&& r.positions@[i].entry_price == positions@[i].entry_price
                &&& r.positions@[i].current_price == prices@[i]
                &&& r.positions@[i].unrealized_pnl == spec_unrealized_pnl(
                    positions@[i],
                    prices@[i],
                )
                &&& r.positions@[i].unrealized_pnl_percent == spec_unrealized_pnl_percent(
                    positions@[i],
                    prices@[i],
                )
            },
        r.total_value == spec_positions_value(positions@, prices@),
        r.total_pnl == spec_positions_pnl(positions@, prices@),
{
    let mut out: Vec<PositionWithPnl> = Vec::new();
    let mut total_value: i64 = 0;
    let mut total_pnl: i64 = 0;
    let mut i: usize = 0;
    while i < positions.len()
        invariant
            i <= positions@.len(),
            positions@.len() == prices@.len(),
            positions@.len() <= 10_000,
            out@.len() == i,
            total_value == spec_positions_value(positions@.take(i as int), prices@.take(i as int)),
            total_pnl == spec_positions_pnl(positions@.take(i as int), prices@.take(i as int)),
            0 <= total_value <= i * MAX_AMOUNT,
            -(i * MAX_AMOUNT) <= total_pnl <= i * MAX_AMOUNT,
            forall|k: int|
                0 <= k < i ==> {
                    &&& (#[trigger] out@[k]).symbol == positions@[k].symbol
                    &&& out@[k].quantity == positions@[k].quantity
                    &&& out@[k].entry_price == positions@[k].entry_price
                    &&& out@[k].current_price == prices@[k]
                    &&& out@[k].unrealized_pnl == spec_unrealized_pnl(positions@[k], prices@[k])
                    &&& out@[k].unrealized_pnl_percent == spec_unrealized_pnl_percent(
                        positions@[k],
                        prices@[k],
                    )
                },
            forall|k: int|
                0 <= k < positions@.len() ==> {
                    &&& 0 < (#[trigger] positions@[k]).entry_price
                    &&& 0 <= positions@[k].quantity
                    &&& 0 <= div_trunc(
                        prices@[k] * positions@[k].quantity,
                        QUANTITY_SCALE as int,
                    ) <= MAX_AMOUNT
                    &&& -MAX_AMOUNT <= spec_unrealized_pnl(positions@[k], prices@[k]) <= MAX_AMOUNT
                    &&& i64::MIN <= spec_unrealized_pnl_percent(positions@[k], prices@[k])
                        <= i64::MAX
                },
        decreases positions@.len() - i,
    {
        proof {
            assert(positions@.take(i + 1).drop_last() == positions@.take(i as int));
            assert(prices@.take(i + 1).drop_last() == prices@.take(i as int));
            assert(positions@.take(i + 1).last() == positions@[i as int]);
            assert(prices@.take(i + 1).last() == prices@[i as int]);
        }
        let p = &positions[i];
        let current_price = prices[i];
        let pnl = p.unrealized_pnl(current_price);
        let pnl_percent = p.unrealized_pnl_percent(current_price);
        let value = crate::fixed::diff_mul_div_trunc(
            current_price,
            0,
            p.quantity,
            QUANTITY_SCALE,
        );
        out.push(
            PositionWithPnl {
                symbol: p.symbol.clone(),
                quantity: p.quantity,
                entry_price: p.entry_price,
                current_price,
                unrealized_pnl: pnl,
                unrealized_pnl_percent: pnl_percent,
            },
        );
        total_value = total_value + value;
        total_pnl = total_pnl + pnl;
        i = i + 1;
    }
    proof {
        assert(positions@.take(positions@.len() as int) == positions@);
        assert(prices@.take(prices@.len() as int) == prices@);
    }
    PositionsResponse { positions: out, total_value, total_pnl }
}

/// The status view of the trading state.
pub fn get_status(state: &TradingStateData) -> (r: StatusResponse)
    ensures
        r.enabled == state.enabled,
        r.positions_count == state.positions@.len(),
        r.total_trades == state.total_trades,
        r.total_pnl == state.total_pnl,
        r.daily_trades == state.daily_trades,
        r.consecutive_errors == state.consecutive_errors,
        r.last_cycle == state.last_cycle_time,
{
    let last_cycle: Option<String> = match &state.last_cycle_time {
        Some(s) => Some(s.clone()),
        None => None,
    };
    StatusResponse {
        enabled: state.enabled,
        positions_count: state.positions.len(),
        total_trades: state.total_trades,
        total_pnl: state.total_pnl,
        daily_trades: state.daily_trades,
        consecutive_errors: state.consecutive_errors,
        last_cycle,
    }
}

} // verus!
