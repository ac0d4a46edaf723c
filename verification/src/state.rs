//! The per-asset order lifecycle record.
use vstd::prelude::*;

use crate::{MARKET_DURATION_SECS, MAX_TS};

verus! {

/// Number of tracked assets (BTC, ETH, SOL, XRP).
pub const ASSET_COUNT: usize = 4;

/// One outcome side of a two-outcome market.
#[derive(Clone, Copy, Debug, PartialEq, Eq, Structural)]
pub enum Side {
    Up,
    Down,
}

/// Lifecycle record of one pair of resting limit orders; at most one exists
/// per asset.
#[derive(Clone, Copy, Debug)]
pub struct PreLimitOrderState {
    /// Index of the asset in the fixed asset table.
    pub asset: usize,
    pub condition_id: u64,
    pub up_token_id: u64,
    pub down_token_id: u64,
    pub up_order_id: Option<u64>,
    pub down_order_id: Option<u64>,
    /// Limit price of the up order, in mills.
    pub up_order_price: u64,
    /// Limit price of the down order, in mills.
    pub down_order_price: u64,
    /// Monotone: set when the up order fills, never cleared.
    pub up_matched: bool,
    /// Monotone: set when the down order fills, never cleared.
    pub down_matched: bool,
    /// The position was resolved early: one side sold, the other held.
    pub merged: bool,
    /// When the record is discarded: end of the market period.
    pub expiry: i64,
    /// The matched side was sold off by the early-exit logic.
    pub risk_sold: bool,
    pub order_placed_at: i64,
    pub market_period_start: i64,
    /// First instant at which exactly one side was matched.
    pub one_side_matched_at: Option<i64>,
}

impl PreLimitOrderState {
    /// Structural invariant: a risk-sold position is always merged, the
    /// expiry sits one period after the period start, and every number is
    /// within the bounds the arithmetic needs.
    pub open spec fn wf(&self) -> bool {
        &&& self.asset < ASSET_COUNT
        &&& (self.risk_sold ==> self.merged)
        &&& self.expiry == self.market_period_start + MARKET_DURATION_SECS
        &&& 0 <= self.market_period_start <= MAX_TS
        &&& 0 <= self.order_placed_at <= MAX_TS
        &&& self.up_order_price <= crate::price::PRICE_SCALE
        &&& self.down_order_price <= crate::price::PRICE_SCALE
        &&& match self.one_side_matched_at {
            Some(t) => 0 <= t <= MAX_TS,
            None => true,
        }
    }

    /// Exactly one side has filled.
    pub open spec fn only_one_matched(&self) -> bool {
        (self.up_matched && !self.down_matched) || (self.down_matched && !self.up_matched)
    }

    /// Both sides have filled.
    pub open spec fn both_matched(&self) -> bool {
        self.up_matched && self.down_matched
    }

    /// An unresolved one-sided position that still needs the early-exit
    /// logic: exactly one side matched, neither merged nor risk-sold.
    pub open spec fn needs_danger_handling(&self) -> bool {
        !self.merged && !self.risk_sold && self.only_one_matched()
    }
}

/// Ticker symbol of a tracked asset.
pub open spec fn spec_asset_ticker(i: int) -> Seq<char> {
    if i == 0 {
        "BTC"@
    } else if i == 1 {
        "ETH"@
    } else if i == 2 {
        "SOL"@
    } else {
        "XRP"@
    }
}

/// Ticker symbol of a tracked asset.
pub fn asset_ticker(i: usize) -> (r: &'static str)
    requires
        i < ASSET_COUNT,
    ensures
        r@ == spec_asset_ticker(i as int),
{
    if i == 0 {
        "BTC"
    } else if i == 1 {
        "ETH"
    } else if i == 2 {
        "SOL"
    } else {
        "XRP"
    }
}

/// A risk-sold position is always merged.
///
/// Law: `risk_sold` implies `merged` in every well-formed lifecycle record;
/// the untouched side of a risk-sold position is never sold again.
pub proof fn lemma_risk_sold_implies_merged(s: &PreLimitOrderState)
    requires
        s.wf(),
    ensures
        s.risk_sold ==> s.merged,
{
}

} // verus!
