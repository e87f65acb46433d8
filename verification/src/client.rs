//! Exchange data shapes and the pure computations over them.
//!
//! The request and response shapes mirror the exchange's endpoints; the host
//! moves them over the wire and parses the decimal strings, while the
//! aggregations over parsed values are computed and verified here.

use vstd::prelude::*;
use crate::fixed::{div_trunc, MAX_AMOUNT, QUANTITY_SCALE};

verus! {

/// Accounts endpoint response.
#[derive(Debug, Clone)]
pub struct AccountsResponse {
    pub accounts: Vec<Account>,
}

/// One account at the exchange.
#[derive(Debug, Clone)]
pub struct Account {
    pub uuid: String,
    pub name: String,
    pub currency: String,
    pub available_balance: Balance,
    pub hold: Balance,
}

/// A balance as the exchange reports it: a decimal string.
#[derive(Debug, Clone)]
pub struct Balance {
    pub value: String,
    pub currency: String,
}

/// Product (trading pair) info as the exchange reports it.
#[derive(Debug, Clone)]
pub struct Product {
    pub product_id: String,
    pub price: String,
    pub price_percentage_change_24h: String,
    pub volume_24h: String,
    pub base_min_size: String,
    pub base_max_size: String,
    pub quote_increment: String,
    pub base_increment: String,
}

/// Candles endpoint response.
#[derive(Debug, Clone)]
pub struct CandlesResponse {
    pub candles: Vec<Candle>,
}

/// An OHLCV candle as the exchange reports it.
#[derive(Debug, Clone)]
pub struct Candle {
    pub start: String,
    pub low: String,
    pub high: String,
    pub open: String,
    pub close: String,
    pub volume: String,
}

/// An order request body.
#[derive(Debug, Clone)]
pub struct OrderRequest {
    pub client_order_id: String,
    pub product_id: String,
    pub side: String,
    pub order_configuration: OrderConfiguration,
}

/// An order configuration body.
#[derive(Debug, Clone)]
pub enum OrderConfiguration {
    MarketMarketIoc { quote_size: Option<String>, base_size: Option<String> },
    LimitLimitGtc { base_size: String, limit_price: String, post_only: bool },
}

/// An order response body.
#[derive(Debug, Clone)]
pub struct OrderResponse {
    pub success: bool,
    pub order_id: Option<String>,
    pub error_response: Option<ErrorResponse>,
}

/// An error response body.
#[derive(Debug, Clone)]
pub struct ErrorResponse {
    pub error: String,
    pub message: String,
    pub error_details: Option<String>,
}

/// A candle with its figures parsed, in cents.
#[derive(Debug, Clone, Copy, PartialEq, Eq, Structural)]
pub struct PricedCandle {
    pub high: i64,
    pub low: i64,
    pub close: i64,
}

/// Product stats with the 24-hour range and trend data, in fixed point.
#[derive(Debug, Clone, PartialEq, Eq, Structural)]
pub struct ProductStats {
    /// Cents.
    pub price: i64,
    /// Basis points.
    pub change_24h: i64,
    /// Cents.
    pub high_24h: i64,
    /// Cents.
    pub low_24h: i64,
    /// Base units, in hundredths.
    pub volume_24h: i64,
    /// Whether the price is above its six-hour average.
    pub is_uptrend: bool,
    /// Six-hour average price, cents.
    pub avg_6h: i64,
}

/// The highest candle high, folded from the minimum possible value.
pub open spec fn spec_max_high(cs: Seq<PricedCandle>) -> int
    decreases cs.len(),
{
    if cs.len() == 0 {
        i64::MIN as int
    } else {
        let rest = spec_max_high(cs.drop_last());
        if cs.last().high > rest {
            cs.last().high as int
        } else {
            rest
        }
    }
}

/// The lowest candle low, folded from the maximum possible value.
pub open spec fn spec_min_low(cs: Seq<PricedCandle>) -> int
    decreases cs.len(),
{
    if cs.len() == 0 {
        i64::MAX as int
    } else {
        let rest = spec_min_low(cs.drop_last());
        if cs.last().low < rest {
            cs.last().low as int
        } else {
            rest
        }
    }
}

/// The sum of the candles' closes.
pub open spec fn spec_sum_closes(cs: Seq<PricedCandle>) -> int
    decreases cs.len(),
{
    if cs.len() == 0 {
        0
    } else {
        spec_sum_closes(cs.drop_last()) + cs.last().close
    }
}

/// Derive product stats from the last day of hourly candles, most recent
/// first: the range is the extremes of the candles, or two percent around
/// the price when no candles came back; the trend average is over the six
/// most recent candles, or neutral when fewer came back.
pub fn product_stats_from_candles(
    price: i64,
    change_24h: i64,
    volume_24h: i64,
    candles: &Vec<PricedCandle>,
) -> (r: ProductStats)
    requires
        0 <= price <= MAX_AMOUNT,
        forall|i: int|
            0 <= i < candles@.len() ==> {
                &&& 0 <= (#[trigger] candles@[i]).high <= MAX_AMOUNT
                &&& 0 <= candles@[i].low <= MAX_AMOUNT
                &&& 0 <= candles@[i].close <= MAX_AMOUNT
            },
    ensures
        r.price == price,
        r.change_24h == change_24h,
        r.volume_24h == volume_24h,
        candles@.len() == 0 ==> r.high_24h == price * 102 / 100 && r.low_24h == price * 98 / 100,
        candles@.len() > 0 ==> r.high_24h == spec_max_high(candles@) && r.low_24h == spec_min_low(
            candles@,
        ),
        candles@.len() >= 6 ==> r.avg_6h == spec_sum_closes(candles@.take(6)) / 6,
        candles@.len() < 6 ==> r.avg_6h == price,
        r.is_uptrend == (price > r.avg_6h),
{
    let high_24h: i64;
    let low_24h: i64;
    if candles.len() == 0 {
        high_24h = crate::fixed::mul_div_trunc(price, 102, 100);
        low_24h = crate::fixed::mul_div_trunc(price, 98, 100);
        proof {
            assert(price * 102 / 100 == div_trunc(price * 102, 100));
            assert(price * 98 / 100 == div_trunc(price * 98, 100));
        }
    } else {
        let mut hi: i64 = i64::MIN;
        let mut lo: i64 = i64::MAX;
        let mut i: usize = 0;
        while i < candles.len()
            invariant
                i <= candles@.len(),
                hi == spec_max_high(candles@.take(i as int)),
                lo == spec_min_low(candles@.take(i as int)),
                forall|k: int|
                    0 <= k < candles@.len() ==> {
                        &&& 0 <= (#[trigger] candles@[k]).high <= MAX_AMOUNT
                        &&& 0 <= candles@[k].low <= MAX_AMOUNT
                        &&& 0 <= candles@[k].close <= MAX_AMOUNT
                    },
            decreases candles@.len() - i,
        {
            proof {
                assert(candles@.take(i + 1).drop_last() == candles@.take(i as int));
                assert(candles@.take(i + 1).last() == candles@[i as int]);
            }
            if candles[i].high > hi {
                hi = candles[i].high;
            }
            if candles[i].low < lo {
                lo = candles[i].low;
            }
            i = i + 1;
        }
        proof {
            assert(candles@.take(candles@.len() as int) == candles@);
        }
        high_24h = hi;
        low_24h = lo;
    }
    let avg_6h: i64;
    if candles.len() >= 6 {
        let mut sum: i64 = 0;
        let mut i: usize = 0;
        while i < 6
            invariant
                i <= 6,
                candles@.len() >= 6,
                sum == spec_sum_closes(candles@.take(6).take(i as int)),
                0 <= sum <= i * MAX_AMOUNT,
                forall|k: int|
                    0 <= k < candles@.len() ==> 0 <= (#[trigger] candles@[k]).close <= MAX_AMOUNT,
            decreases 6 - i,
        {
            proof {
                assert(candles@.take(6).take(i + 1).drop_last() == candles@.take(6).take(i as int));
                assert(candles@.take(6).take(i + 1).last() == candles@[i as int]);
            }
            sum = sum + candles[i].close;
            i = i + 1;
        }
        proof {
            assert(candles@.take(6).take(6) == candles@.take(6));
        }
        avg_6h = sum / 6;
    } else {
        avg_6h = price;
    }
    ProductStats {
        price,
        change_24h,
        high_24h,
        low_24h,
        volume_24h,
        is_uptrend: price > avg_6h,
        avg_6h,
    }
}

/// A parsed cash balance: the currency and its available amount in cents.
#[derive(Debug, Clone)]
pub struct CashBalance {
    pub currency: String,
    /// Cents.
    pub available: i64,
}

/// The sum of the available dollar cash: USD and USDC both count.
pub open spec fn spec_usd_cash(bs: Seq<CashBalance>) -> int
    decreases bs.len(),
{
    if bs.len() == 0 {
        0
    } else {
        spec_usd_cash(bs.drop_last()) + if bs.last().currency@ == "USD"@ || bs.last().currency@
            == "USDC"@ {
            bs.last().available as int
        } else {
            0
        }
    }
}

/// Total available dollar cash over the parsed balances; USD and USDC both
/// count as cash.
pub fn usd_cash_total(balances: &Vec<CashBalance>) -> (r: i64)
    requires
        forall|i: int| 0 <= i < balances@.len() ==> 0 <= (#[trigger] balances@[i]).available <= MAX_AMOUNT,
        balances@.len() <= 10_000,
    ensures
        r == spec_usd_cash(balances@),
{
    let usd: String = "USD".to_owned();
    let usdc: String = "USDC".to_owned();
    let mut total: i64 = 0;
    let mut i: usize = 0;
    while i < balances.len()
        invariant
            i <= balances@.len(),
            balances@.len() <= 10_000,
            usd@ == "USD"@,
            usdc@ == "USDC"@,
            total == spec_usd_cash(balances@.take(i as int)),
            0 <= total <= i * MAX_AMOUNT,
            forall|k: int|
                0 <= k < balances@.len() ==> 0 <= (#[trigger] balances@[k]).available <= MAX_AMOUNT,
        decreases balances@.len() - i,
    {
        proof {
            assert(balances@.take(i + 1).drop_last() == balances@.take(i as int));
            assert(balances@.take(i + 1).last() == balances@[i as int]);
        }
        if balances[i].currency == usd || balances[i].currency == usdc {
            total = total + balances[i].available;
        }
        i = i + 1;
    }
    proof {
        assert(balances@.take(balances@.len() as int) == balances@);
    }
    total
}

} // verus!
