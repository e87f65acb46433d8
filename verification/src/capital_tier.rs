//! Adaptive capital tier management.
//!
//! Automatically adjusts risk parameters based on portfolio size.
//! Small accounts require more conservative settings due to the higher
//! relative impact of fees, less room for diversification, and the need
//! for capital preservation to grow.

use vstd::prelude::*;

verus! {

/// Capital tier classification, ordered by portfolio size in USD.
#[derive(Debug, Clone, Copy, PartialEq, Eq, Structural)]
pub enum CapitalTier {
    /// Below $100: insufficient capital, trading disabled.
    Micro,
    /// $100 to $500: ultra conservative, one position at most.
    Tiny,
    /// $500 to $2,000: conservative, two positions at most.
    Small,
    /// $2,000 to $5,000: balanced approach.
    Medium,
    /// $5,000 to $25,000: standard parameters.
    Standard,
    /// $25,000 and above: full trading capabilities.
    Large,
}

/// The tier selected by a portfolio value in cents.
pub open spec fn spec_tier_for(value: int) -> CapitalTier {
    if value < 10_000 {
        CapitalTier::Micro
    } else if value < 50_000 {
        CapitalTier::Tiny
    } else if value < 200_000 {
        CapitalTier::Small
    } else if value < 500_000 {
        CapitalTier::Medium
    } else if value < 2_500_000 {
        CapitalTier::Standard
    } else {
        CapitalTier::Large
    }
}

impl CapitalTier {
    /// Determine tier from portfolio value in cents.
    pub fn from_portfolio(value: i64) -> (r: Self)
        ensures
            r == spec_tier_for(value as int),
    {
        if value < 10_000 {
            CapitalTier::Micro
        } else if value < 50_000 {
            CapitalTier::Tiny
        } else if value < 200_000 {
            CapitalTier::Small
        } else if value < 500_000 {
            CapitalTier::Medium
        } else if value < 2_500_000 {
            CapitalTier::Standard
        } else {
            CapitalTier::Large
        }
    }

    /// Maximum open positions allowed for this tier.
    pub open spec fn spec_max_positions(self) -> usize {
        match self {
            CapitalTier::Micro => 0,
            CapitalTier::Tiny => 1,
            CapitalTier::Small => 2,
            CapitalTier::Medium => 3,
            CapitalTier::Standard => 4,
            CapitalTier::Large => 5,
        }
    }

    /// Maximum open positions allowed for this tier.
    pub fn max_positions(&self) -> (r: usize)
        ensures
            r == self.spec_max_positions(),
    {
        match self {
            CapitalTier::Micro => 0,
            CapitalTier::Tiny => 1,
            CapitalTier::Small => 2,
            CapitalTier::Medium => 3,
            CapitalTier::Standard => 4,
            CapitalTier::Large => 5,
        }
    }

    /// Maximum share of the portfolio in a single position, in basis points.
    pub open spec fn spec_max_position_percent(self) -> i64 {
        match self {
            CapitalTier::Micro => 0,
            CapitalTier::Tiny => 8_000,
            CapitalTier::Small => 5_000,
            CapitalTier::Medium => 3_500,
            CapitalTier::Standard => 2_500,
            CapitalTier::Large => 2_000,
        }
    }

    /// Maximum share of the portfolio in a single position, in basis points.
    pub fn max_position_percent(&self) -> (r: i64)
        ensures
            r == self.spec_max_position_percent(),
    {
        match self {
            CapitalTier::Micro => 0,
            CapitalTier::Tiny => 8_000,
            CapitalTier::Small => 5_000,
            CapitalTier::Medium => 3_500,
            CapitalTier::Standard => 2_500,
            CapitalTier::Large => 2_000,
        }
    }

    /// Risk budget per trade, in basis points of the portfolio.
    pub open spec fn spec_risk_per_trade_percent(self) -> i64 {
        match self {
            CapitalTier::Micro => 0,
            CapitalTier::Tiny => 50,
            CapitalTier::Small => 100,
            CapitalTier::Medium => 150,
            CapitalTier::Standard => 200,
            CapitalTier::Large => 200,
        }
    }

    /// Risk budget per trade, in basis points of the portfolio.
    pub fn risk_per_trade_percent(&self) -> (r: i64)
        ensures
            r == self.spec_risk_per_trade_percent(),
    {
        match self {
            CapitalTier::Micro => 0,
            CapitalTier::Tiny => 50,
            CapitalTier::Small => 100,
            CapitalTier::Medium => 150,
            CapitalTier::Standard => 200,
            CapitalTier::Large => 200,
        }
    }

    /// Whether trading is allowed at this tier.
    pub open spec fn spec_can_trade(self) -> bool {
        !(self is Micro)
    }

    /// Whether trading is allowed at this tier.
    pub fn can_trade(&self) -> (r: bool)
        ensures
            r == self.spec_can_trade(),
    {
        !matches!(self, CapitalTier::Micro)
    }

    /// Entry threshold multiplier in hundredths; higher means more selective.
    pub open spec fn spec_entry_threshold_multiplier(self) -> i64 {
        match self {
            CapitalTier::Micro => 150,
            CapitalTier::Tiny => 130,
            CapitalTier::Small => 115,
            CapitalTier::Medium => 100,
            CapitalTier::Standard => 100,
            CapitalTier::Large => 95,
        }
    }

    /// Entry threshold multiplier in hundredths; higher means more selective.
    pub fn entry_threshold_multiplier(&self) -> (r: i64)
        ensures
            r == self.spec_entry_threshold_multiplier(),
    {
        match self {
            CapitalTier::Micro => 150,
            CapitalTier::Tiny => 130,
            CapitalTier::Small => 115,
            CapitalTier::Medium => 100,
            CapitalTier::Standard => 100,
            CapitalTier::Large => 95,
        }
    }

    /// Tier recommendation message.
    pub fn recommendation(&self) -> (r: &'static str)
        ensures
            self is Micro ==> r@ == "MICRO (<$100): Insufficient capital. Add funds to begin trading."@,
            self is Tiny ==> r@ == "TINY ($100-$500): Ultra-conservative mode. Single position, tight risk controls."@,
            self is Small ==> r@ == "SMALL ($500-$2K): Conservative mode. Focus on capital preservation."@,
            self is Medium ==> r@ == "MEDIUM ($2K-$5K): Balanced mode. Good risk/reward with moderate diversification."@,
            self is Standard ==> r@ == "STANDARD ($5K-$25K): Full trading capabilities. Standard risk parameters."@,
            self is Large ==> r@ == "LARGE ($25K+): Full capabilities with enhanced diversification."@,
    {
        match self {
            CapitalTier::Micro => "MICRO (<$100): Insufficient capital. Add funds to begin trading.",
            CapitalTier::Tiny => "TINY ($100-$500): Ultra-conservative mode. Single position, tight risk controls.",
            CapitalTier::Small => "SMALL ($500-$2K): Conservative mode. Focus on capital preservation.",
            CapitalTier::Medium => "MEDIUM ($2K-$5K): Balanced mode. Good risk/reward with moderate diversification.",
            CapitalTier::Standard => "STANDARD ($5K-$25K): Full trading capabilities. Standard risk parameters.",
            CapitalTier::Large => "LARGE ($25K+): Full capabilities with enhanced diversification.",
        }
    }

    /// Tier name.
    pub fn name(&self) -> (r: &'static str)
        ensures
            self is Micro ==> r@ == "MICRO"@,
            self is Tiny ==> r@ == "TINY"@,
            self is Small ==> r@ == "SMALL"@,
            self is Medium ==> r@ == "MEDIUM"@,
            self is Standard ==> r@ == "STANDARD"@,
            self is Large ==> r@ == "LARGE"@,
    {
        match self {
            CapitalTier::Micro => "MICRO",
            CapitalTier::Tiny => "TINY",
            CapitalTier::Small => "SMALL",
            CapitalTier::Medium => "MEDIUM",
            CapitalTier::Standard => "STANDARD",
            CapitalTier::Large => "LARGE",
        }
    }
}

/// The tier selected for a larger portfolio never allows fewer positions or
/// a smaller per-trade risk budget, and the tier below $100 forbids trading
/// and allows no positions.
pub proof fn lemma_tier_monotonic(v1: int, v2: int)
    requires
        v1 <= v2,
    ensures
        spec_tier_for(v1).spec_max_positions() <= spec_tier_for(v2).spec_max_positions(),
        spec_tier_for(v1).spec_risk_per_trade_percent()
            <= spec_tier_for(v2).spec_risk_per_trade_percent(),
        v1 < 10_000 ==> !spec_tier_for(v1).spec_can_trade()
            && spec_tier_for(v1).spec_max_positions() == 0,
{
}

/// Tier-adjusted parameters for trading.
#[derive(Debug, Clone)]
pub struct TierParameters {
    pub tier: CapitalTier,
    pub max_positions: usize,
    /// Basis points of the portfolio.
    pub max_position_percent: i64,
    /// Basis points of the portfolio.
    pub risk_per_trade_percent: i64,
    pub can_trade: bool,
    /// Hundredths of a unit.
    pub entry_threshold_multiplier: i64,
    pub recommendation: String,
}

impl TierParameters {
    /// Calculate tier parameters for a given portfolio value in cents.
    pub fn for_portfolio(value: i64) -> (r: Self)
        ensures
            r.tier == spec_tier_for(value as int),
            r.max_positions == r.tier.spec_max_positions(),
            r.max_position_percent == r.tier.spec_max_position_percent(),
            r.risk_per_trade_percent == r.tier.spec_risk_per_trade_percent(),
            r.can_trade == r.tier.spec_can_trade(),
            r.entry_threshold_multiplier == r.tier.spec_entry_threshold_multiplier(),
    {
        let tier = CapitalTier::from_portfolio(value);
        TierParameters {
            tier,
            max_positions: tier.max_positions(),
            max_position_percent: tier.max_position_percent(),
            risk_per_trade_percent: tier.risk_per_trade_percent(),
            can_trade: tier.can_trade(),
            entry_threshold_multiplier: tier.entry_threshold_multiplier(),
            recommendation: tier.recommendation().to_owned(),
        }
    }
}

/// Fee tier based on 30-day trading volume; fees in basis points.
#[derive(Debug, Clone, Copy, PartialEq, Eq, Structural)]
pub struct FeeTier {
    pub taker_fee_percent: i64,
    pub maker_fee_percent: i64,
}

/// The fee tier selected by a 30-day volume in cents.
pub open spec fn spec_fee_tier(volume_30d: int) -> FeeTier {
    if volume_30d < 100_000 {
        FeeTier { taker_fee_percent: 60, maker_fee_percent: 40 }
    } else if volume_30d < 1_000_000 {
        FeeTier { taker_fee_percent: 40, maker_fee_percent: 25 }
    } else if volume_30d < 5_000_000 {
        FeeTier { taker_fee_percent: 25, maker_fee_percent: 15 }
    } else {
        FeeTier { taker_fee_percent: 20, maker_fee_percent: 10 }
    }
}

/// Round-trip fee (buy plus sell) of a fee tier, in basis points.
pub open spec fn spec_round_trip(ft: FeeTier) -> int {
    2 * ft.taker_fee_percent
}

/// Take-profit percentage needed to net `target` after round-trip fees.
pub open spec fn spec_min_profitable_tp(ft: FeeTier, target: int) -> int {
    spec_round_trip(ft) + target
}

impl FeeTier {
    /// Get fee tier from 30-day volume in cents.
    pub fn from_volume(volume_30d: i64) -> (r: Self)
        ensures
            r == spec_fee_tier(volume_30d as int),
    {
        if volume_30d < 100_000 {
            FeeTier { taker_fee_percent: 60, maker_fee_percent: 40 }
        } else if volume_30d < 1_000_000 {
            FeeTier { taker_fee_percent: 40, maker_fee_percent: 25 }
        } else if volume_30d < 5_000_000 {
            FeeTier { taker_fee_percent: 25, maker_fee_percent: 15 }
        } else {
            FeeTier { taker_fee_percent: 20, maker_fee_percent: 10 }
        }
    }

    /// Round-trip fee (buy plus sell) in basis points.
    pub fn round_trip_percent(&self) -> (r: i64)
        requires
            0 <= self.taker_fee_percent <= crate::fixed::MAX_PERCENT,
        ensures
            r == spec_round_trip(*self),
    {
        self.taker_fee_percent * 2
    }

    /// The take-profit percentage (basis points) needed to net the given
    /// profit percentage after round-trip fees.
    pub fn min_profitable_tp(&self, target_net_profit_percent: i64) -> (r: i64)
        requires
            0 <= self.taker_fee_percent <= crate::fixed::MAX_PERCENT,
            0 <= target_net_profit_percent <= crate::fixed::MAX_PERCENT,
        ensures
            r == spec_min_profitable_tp(*self, target_net_profit_percent as int),
    {
        self.round_trip_percent() + target_net_profit_percent
    }

    /// The smallest position size in cents whose expected move nets at least
    /// the given profit in cents after fees, or `None` when the expected move
    /// does not cover the round-trip fee at any size.
    pub fn min_position_for_profit(&self, expected_move_percent: i64, min_profit_usd: i64) -> (r:
        Option<i64>)
        requires
            0 <= self.taker_fee_percent <= crate::fixed::MAX_PERCENT,
            0 <= expected_move_percent <= crate::fixed::MAX_PERCENT,
            0 <= min_profit_usd <= crate::fixed::MAX_AMOUNT,
        ensures
            expected_move_percent <= spec_round_trip(*self) <==> r is None,
            r is Some ==> r->0 == min_profit_usd * (crate::fixed::BP_WHOLE as int) / (
            expected_move_percent - spec_round_trip(*self)) as int,
    {
        let net_profit_percent = expected_move_percent - self.round_trip_percent();
        if net_profit_percent <= 0 {
            None
        } else {
            Some(crate::fixed::unapply_bp(min_profit_usd, net_profit_percent))
        }
    }
}

/// For every 30-day volume, the selected fee tier's round-trip cost is twice
/// its taker fee, and the take-profit floor for a target net profit is that
/// round trip plus the target.
pub proof fn lemma_round_trip(volume_30d: int, target_net_profit_percent: int)
    ensures
        spec_round_trip(spec_fee_tier(volume_30d)) == 2 * spec_fee_tier(
            volume_30d,
        ).taker_fee_percent,
        spec_min_profitable_tp(spec_fee_tier(volume_30d), target_net_profit_percent)
            == spec_round_trip(spec_fee_tier(volume_30d)) + target_net_profit_percent,
{
}

} // verus!
