//! The strategy engine: per-asset order lifecycle, risk mitigation, and the
//! reconciliation entry points.
//!
//! The engine owns all shared state — one lifecycle slot per asset plus the
//! redemption books — and advances it through decision and commit methods.
//! The surrounding application drives the tick and reconciliation loops: it
//! asks a decision method what to do, performs the exchange calls, and hands
//! the results to the matching commit method.  Every decision is a function
//! of the engine state, the clock value passed in, and the collaborator
//! verdicts passed in.
use vstd::prelude::*;

use crate::books::{
    cycle_trade_holding_both, cycle_trade_holding_winner, sat_add_i64, spec_sat_add, spec_settle,
    spec_settle_report, Books, SettleReport,
};
use crate::config::{Config, SignalConfig, StrategyConfig};
use crate::price::{spec_price_hits_limit, PRICE_SCALE};
use crate::signal::RiskMode;
use crate::state::{PreLimitOrderState, Side, ASSET_COUNT};
use crate::{MARKET_DURATION_SECS, MAX_TS};

verus! {

/// How the fill state of an asset's orders should be refreshed this tick.
#[derive(Clone, Copy, Debug, PartialEq, Eq, Structural)]
pub enum FillCheckPlan {
    /// No lifecycle record exists for the asset.
    NoState,
    /// The record's market period has not started; leave the flags alone.
    TooEarly,
    /// Ask the exchange whether the two orders are filled.
    QueryExchange(u64, u64),
    /// Infer fills by comparing current prices to the limits.
    InferFromPrice,
}

/// A sell-opposite decision: the high-priced winner is held, the loser is
/// sold at market.
#[derive(Clone, Copy, Debug, PartialEq, Eq, Structural)]
pub struct SellOppositePlan {
    pub winner: Side,
    pub loser: Side,
    /// Token of the losing side, to be sold at market.
    pub token_to_sell: u64,
    /// What the losing side was bought at, in mills.
    pub purchase_price: u64,
}

/// Signed seconds-to-minutes conversion truncating toward zero, as the
/// remaining-time displays and thresholds use it.
pub open spec fn spec_mins_trunc(secs: int) -> int {
    if secs >= 0 {
        secs / 60
    } else {
        -((-secs) / 60)
    }
}

/// Converts seconds to whole minutes, truncating toward zero.
pub fn mins_trunc(secs: i64) -> (r: i64)
    requires
        secs > i64::MIN,
    ensures
        r == spec_mins_trunc(secs as int),
{
    if secs >= 0 {
        ((secs as u64) / 60) as i64
    } else {
        -((((-secs) as u64) / 60) as i64)
    }
}

/// The strategy engine: configuration, one lifecycle slot per asset, and
/// the redemption books.
pub struct PreLimitStrategy {
    pub config: Config,
    /// Slot `a` holds the lifecycle record of asset `a`, when one exists.
    pub states: Vec<Option<PreLimitOrderState>>,
    pub books: Books,
}

impl PreLimitStrategy {
    pub open spec fn wf(&self) -> bool {
        &&& self.config.wf()
        &&& self.states@.len() == ASSET_COUNT
        &&& (forall|i: int|
            0 <= i < self.states@.len() ==> match #[trigger] self.states@[i] {
                Some(s) => s.wf() && s.asset == i,
                None => true,
            })
        &&& self.books.wf()
    }

    /// The lifecycle record of asset `a`.
    pub open spec fn state_of(&self, a: int) -> Option<PreLimitOrderState> {
        self.states@[a]
    }

    pub open spec fn cfg(&self) -> StrategyConfig {
        self.config.strategy
    }

    pub open spec fn sig(&self) -> SignalConfig {
        self.config.strategy.signal
    }

    /// A fresh engine: no lifecycle records, empty books.
    pub fn new(config: Config) -> (r: PreLimitStrategy)
        requires
            config.wf(),
        ensures
            r.wf(),
            r.config == config,
            forall|a: int| 0 <= a < ASSET_COUNT ==> r.state_of(a) is None,
            r.books.model().trades =~= Map::<u64, crate::books::CycleTrade>::empty(),
            r.books.model().checked =~= Set::<u64>::empty(),
            r.books.model().total == 0,
            r.books.model().period == 0,
    {
        let mut states: Vec<Option<PreLimitOrderState>> = Vec::new();
        let mut i: usize = 0;
        while i < ASSET_COUNT
            invariant
                i <= ASSET_COUNT,
                states@.len() == i,
                forall|a: int| 0 <= a < i ==> states@[a] is None,
            decreases ASSET_COUNT - i,
        {
            states.push(None);
            i = i + 1;
        }
        PreLimitStrategy { config, states, books: Books::new() }
    }

    /// All-time realized profit, in mills.
    pub fn get_total_profit(&self) -> (r: i64)
        ensures
            r as int == self.books.model().total,
    {
        self.books.get_total_profit()
    }

    /// Current-period realized profit, in mills.
    pub fn get_period_profit(&self) -> (r: i64)
        ensures
            r as int == self.books.model().period,
    {
        self.books.get_period_profit()
    }

    /// A read-only copy of an asset's lifecycle record.
    pub fn state_snapshot(&self, asset: usize) -> (r: Option<PreLimitOrderState>)
        requires
            self.wf(),
            asset < ASSET_COUNT,
        ensures
            r == self.state_of(asset as int),
    {
        self.states[asset]
    }
}

/// Whether a record already covers the next period: its expiry is one
/// period past the next boundary.
pub open spec fn spec_next_prepared(st: Option<PreLimitOrderState>, next_period_start: int) -> bool {
    match st {
        Some(s) => s.expiry == next_period_start + MARKET_DURATION_SECS,
        None => false,
    }
}

impl PreLimitStrategy {
    /// Pre-placement applies when the next period is close enough, is not
    /// already prepared, and no unresolved one-sided position demands the
    /// early-exit logic first.
    pub open spec fn spec_should_preplace(&self, a: int, now: int, current_period: int) -> bool {
        let next = current_period + MARKET_DURATION_SECS;
        &&& next - now <= self.cfg().place_order_before_mins * 60
        &&& !spec_next_prepared(self.state_of(a), next)
        &&& !(match self.state_of(a) {
            Some(s) => s.needs_danger_handling(),
            None => false,
        })
    }

    /// Whether this tick should evaluate the placement signal and, on a
    /// good verdict, pre-place the next period's orders.
    pub fn should_consider_preplacement(&self, asset: usize, now: i64, current_period: i64) -> (r:
        bool)
        requires
            self.wf(),
            asset < ASSET_COUNT,
            0 <= now <= MAX_TS,
            0 <= current_period <= MAX_TS,
        ensures
            r == self.spec_should_preplace(asset as int, now as int, current_period as int),
    {
        let next = current_period + MARKET_DURATION_SECS;
        let lead_secs = (self.config.strategy.place_order_before_mins * 60) as i64;
        if next - now > lead_secs {
            return false;
        }
        let prepared = match &self.states[asset] {
            Some(s) => s.expiry == next + MARKET_DURATION_SECS,
            None => false,
        };
        let danger = match &self.states[asset] {
            Some(s) => !s.merged && !s.risk_sold && ((s.up_matched && !s.down_matched) || (
            s.down_matched && !s.up_matched)),
            None => false,
        };
        !prepared && !danger
    }

    /// Records the freshly pre-placed order pair for the next period,
    /// replacing the asset's record: both sides at the configured limit
    /// price, no fills, expiring one period after the next boundary.
    pub fn commit_preplacement(
        &mut self,
        asset: usize,
        condition_id: u64,
        up_token_id: u64,
        down_token_id: u64,
        up_order_id: Option<u64>,
        down_order_id: Option<u64>,
        now: i64,
        next_period_start: i64,
    )
        requires
            old(self).wf(),
            asset < ASSET_COUNT,
            0 <= now <= MAX_TS,
            0 <= next_period_start <= MAX_TS,
        ensures
            final(self).wf(),
            final(self).config == old(self).config,
            final(self).books == old(self).books,
            forall|b: int|
                0 <= b < ASSET_COUNT && b != asset ==> final(self).state_of(b) == old(
                    self,
                ).state_of(b),
            final(self).state_of(asset as int) == Some(
                (PreLimitOrderState {
                    asset,
                    condition_id,
                    up_token_id,
                    down_token_id,
                    up_order_id,
                    down_order_id,
                    up_order_price: old(self).cfg().price_limit,
                    down_order_price: old(self).cfg().price_limit,
                    up_matched: false,
                    down_matched: false,
                    merged: false,
                    expiry: (next_period_start + MARKET_DURATION_SECS) as i64,
                    risk_sold: false,
                    order_placed_at: now,
                    market_period_start: next_period_start,
                    one_side_matched_at: None,
                }),
            ),
    {
        let price_limit = self.config.strategy.price_limit;
        let st = PreLimitOrderState {
            asset,
            condition_id,
            up_token_id,
            down_token_id,
            up_order_id,
            down_order_id,
            up_order_price: price_limit,
            down_order_price: price_limit,
            up_matched: false,
            down_matched: false,
            merged: false,
            expiry: next_period_start + MARKET_DURATION_SECS,
            risk_sold: false,
            order_placed_at: now,
            market_period_start: next_period_start,
            one_side_matched_at: None,
        };
        self.states.set(asset, Some(st));
    }

    /// How fill state should be refreshed: not before the record's market
    /// has started; against the exchange in live mode when both order ids
    /// are known; by price inference otherwise.
    pub fn fill_check_plan(&self, asset: usize, now: i64) -> (r: FillCheckPlan)
        requires
            self.wf(),
            asset < ASSET_COUNT,
        ensures
            r == (match self.state_of(asset as int) {
                None => FillCheckPlan::NoState,
                Some(s) => {
                    if now < s.market_period_start {
                        FillCheckPlan::TooEarly
                    } else if !self.cfg().simulation_mode && s.up_order_id is Some
                        && s.down_order_id is Some {
                        FillCheckPlan::QueryExchange(
                            s.up_order_id.unwrap(),
                            s.down_order_id.unwrap(),
                        )
                    } else {
                        FillCheckPlan::InferFromPrice
                    }
                },
            }),
    {
        match &self.states[asset] {
            None => FillCheckPlan::NoState,
            Some(s) => {
                if now < s.market_period_start {
                    FillCheckPlan::TooEarly
                } else if !self.config.strategy.simulation_mode && s.up_order_id.is_some()
                    && s.down_order_id.is_some() {
                    FillCheckPlan::QueryExchange(
                        s.up_order_id.unwrap(),
                        s.down_order_id.unwrap(),
                    )
                } else {
                    FillCheckPlan::InferFromPrice
                }
            },
        }
    }

    /// Applies an authoritative fill report from the exchange.  Fill flags
    /// are monotone: a true flag is never cleared.
    pub fn apply_fill_report(&mut self, asset: usize, up_filled: bool, down_filled: bool)
        requires
            old(self).wf(),
            asset < ASSET_COUNT,
        ensures
            final(self).wf(),
            final(self).config == old(self).config,
            final(self).books == old(self).books,
            forall|b: int|
                0 <= b < ASSET_COUNT && b != asset ==> final(self).state_of(b) == old(
                    self,
                ).state_of(b),
            final(self).state_of(asset as int) == (match old(self).state_of(asset as int) {
                None => None,
                Some(s) => Some(
                    (PreLimitOrderState {
                        up_matched: s.up_matched || up_filled,
                        down_matched: s.down_matched || down_filled,
                        ..s
                    }),
                ),
            }),
            (old(self).state_of(asset as int) matches Some(s) && s.up_matched) ==> final(self).state_of(
                asset as int,
            ).unwrap().up_matched,
            (old(self).state_of(asset as int) matches Some(s) && s.down_matched) ==> final(self).state_of(
                asset as int,
            ).unwrap().down_matched,
    {
        let st = match &self.states[asset] {
            None => {
                return ;
            },
            Some(s) => PreLimitOrderState {
                up_matched: s.up_matched || up_filled,
                down_matched: s.down_matched || down_filled,
                ..*s
            },
        };
        self.states.set(asset, Some(st));
    }

    /// Infers fills from current sell prices: a side whose price is at or
    /// below its limit counts as filled.  A side with no price reading is
    /// left alone.  Fill flags are monotone.
    pub fn apply_price_fill_inference(
        &mut self,
        asset: usize,
        up_price: Option<u64>,
        down_price: Option<u64>,
    )
        requires
            old(self).wf(),
            asset < ASSET_COUNT,
        ensures
            final(self).wf(),
            final(self).config == old(self).config,
            final(self).books == old(self).books,
            forall|b: int|
                0 <= b < ASSET_COUNT && b != asset ==> final(self).state_of(b) == old(
                    self,
                ).state_of(b),
            final(self).state_of(asset as int) == (match old(self).state_of(asset as int) {
                None => None,
                Some(s) => Some(
                    (PreLimitOrderState {
                        up_matched: s.up_matched || (match up_price {
                            Some(p) => spec_price_hits_limit(p as int, s.up_order_price as int),
                            None => false,
                        }),
                        down_matched: s.down_matched || (match down_price {
                            Some(p) => spec_price_hits_limit(p as int, s.down_order_price as int),
                            None => false,
                        }),
                        ..s
                    }),
                ),
            }),
            (old(self).state_of(asset as int) matches Some(s) && s.up_matched) ==> final(self).state_of(
                asset as int,
            ).unwrap().up_matched,
            (old(self).state_of(asset as int) matches Some(s) && s.down_matched) ==> final(self).state_of(
                asset as int,
            ).unwrap().down_matched,
    {
        let st = match &self.states[asset] {
            None => {
                return ;
            },
            Some(s) => {
                let up_hit = match up_price {
                    Some(p) => p <= s.up_order_price,
                    None => false,
                };
                let down_hit = match down_price {
                    Some(p) => p <= s.down_order_price,
                    None => false,
                };
                PreLimitOrderState {
                    up_matched: s.up_matched || up_hit,
                    down_matched: s.down_matched || down_hit,
                    ..*s
                }
            },
        };
        self.states.set(asset, Some(st));
    }

    /// Records the first instant at which exactly one side was matched.
    pub fn note_one_side_matched(&mut self, asset: usize, now: i64)
        requires
            old(self).wf(),
            asset < ASSET_COUNT,
            0 <= now <= MAX_TS,
        ensures
            final(self).wf(),
            final(self).config == old(self).config,
            final(self).books == old(self).books,
            forall|b: int|
                0 <= b < ASSET_COUNT && b != asset ==> final(self).state_of(b) == old(
                    self,
                ).state_of(b),
            final(self).state_of(asset as int) == (match old(self).state_of(asset as int) {
                None => None,
                Some(s) => {
                    if s.only_one_matched() && s.one_side_matched_at is None {
                        Some((PreLimitOrderState { one_side_matched_at: Some(now), ..s }))
                    } else {
                        Some(s)
                    }
                },
            }),
    {
        let st = match &self.states[asset] {
            None => {
                return ;
            },
            Some(s) => {
                let only_one = (s.up_matched && !s.down_matched) || (s.down_matched
                    && !s.up_matched);
                if only_one && s.one_side_matched_at.is_none() {
                    PreLimitOrderState { one_side_matched_at: Some(now), ..*s }
                } else {
                    return ;
                }
            },
        };
        self.states.set(asset, Some(st));
    }
}

/// The sell-opposite decision on a record: when both sides are filled and
/// not merged, one side's sell price reaches the threshold, and the time
/// remaining in the holding period (in whole minutes, inclusive) is at most
/// the configured window, the other side is sold; the winner is returned.
pub open spec fn spec_sell_opposite(
    s: PreLimitOrderState,
    cfg: StrategyConfig,
    up_price: int,
    down_price: int,
    now: int,
) -> Option<Side> {
    if !(s.both_matched() && !s.merged) {
        None
    } else {
        let winner = if up_price >= cfg.sell_opposite_above {
            Some(Side::Up)
        } else if down_price >= cfg.sell_opposite_above {
            Some(Side::Down)
        } else {
            None
        };
        match winner {
            None => None,
            Some(w) => {
                let remaining_mins = spec_mins_trunc(
                    s.market_period_start + MARKET_DURATION_SECS - now,
                );
                if remaining_mins <= cfg.sell_opposite_time_remaining {
                    Some(w)
                } else {
                    None
                }
            },
        }
    }
}

/// The danger verdict on a record: only a one-sided position can be in
/// danger; mode Price follows the external danger verdict on the matched
/// side's price, mode Time fires once the position has been one-sided for
/// at least the configured minutes (inclusive), mode Disabled never fires.
pub open spec fn spec_danger_candidate(
    s: PreLimitOrderState,
    sig: SignalConfig,
    now: int,
    price_danger: bool,
) -> bool {
    s.only_one_matched() && match sig.one_side_buy_risk_management {
        RiskMode::Price => price_danger,
        RiskMode::Time => match s.one_side_matched_at {
            Some(t) => now - t >= sig.danger_time_passed * 60,
            None => false,
        },
        RiskMode::Disabled => false,
    }
}

impl PreLimitStrategy {
    /// Decides whether to sell the losing side: both filled, one price at
    /// or above the threshold, and little enough time remaining.  Returns
    /// the plan naming the loser's token and entry price.
    pub fn sell_opposite_check(&self, asset: usize, up_price: u64, down_price: u64, now: i64) -> (r:
        Option<SellOppositePlan>)
        requires
            self.wf(),
            asset < ASSET_COUNT,
            0 <= now <= MAX_TS,
        ensures
            r == (match self.state_of(asset as int) {
                None => None::<SellOppositePlan>,
                Some(s) => match spec_sell_opposite(
                    s,
                    self.cfg(),
                    up_price as int,
                    down_price as int,
                    now as int,
                ) {
                    None => None::<SellOppositePlan>,
                    Some(w) => Some(
                        (SellOppositePlan {
                            winner: w,
                            loser: if w == Side::Up {
                                Side::Down
                            } else {
                                Side::Up
                            },
                            token_to_sell: if w == Side::Up {
                                s.down_token_id
                            } else {
                                s.up_token_id
                            },
                            purchase_price: if w == Side::Up {
                                s.down_order_price
                            } else {
                                s.up_order_price
                            },
                        }),
                    ),
                },
            }),
    {
        let s = match &self.states[asset] {
            None => {
                return None;
            },
            Some(s) => s,
        };
        if !(s.up_matched && s.down_matched && !s.merged) {
            return None;
        }
        let threshold = self.config.strategy.sell_opposite_above;
        let winner = if up_price >= threshold {
            Side::Up
        } else if down_price >= threshold {
            Side::Down
        } else {
            return None;
        };
        let remaining_mins = mins_trunc(s.market_period_start + MARKET_DURATION_SECS - now);
        if remaining_mins <= self.config.strategy.sell_opposite_time_remaining as i64 {
            match winner {
                Side::Up => Some(
                    SellOppositePlan {
                        winner: Side::Up,
                        loser: Side::Down,
                        token_to_sell: s.down_token_id,
                        purchase_price: s.down_order_price,
                    },
                ),
                Side::Down => Some(
                    SellOppositePlan {
                        winner: Side::Down,
                        loser: Side::Up,
                        token_to_sell: s.up_token_id,
                        purchase_price: s.up_order_price,
                    },
                ),
            }
        } else {
            None
        }
    }

    /// Books the sell of the losing side and merges the position: the loss
    /// (entry minus sale, times shares) is subtracted from the all-time
    /// accumulator when a sale price is known, the record is marked merged,
    /// and in live mode the surviving winner side is registered for
    /// redemption.  A `None` sale means the market sell failed: nothing is
    /// booked, but the position still counts as merged.
    pub fn commit_sell_opposite(&mut self, asset: usize, winner: Side, sale_price: Option<u64>) -> (
    loss: Option<i64>)
        requires
            old(self).wf(),
            asset < ASSET_COUNT,
            old(self).state_of(asset as int) is Some,
            old(self).state_of(asset as int).unwrap().both_matched(),
            !old(self).state_of(asset as int).unwrap().merged,
            match sale_price {
                Some(p) => p <= PRICE_SCALE,
                None => true,
            },
        ensures
            final(self).wf(),
            final(self).config == old(self).config,
            forall|b: int|
                0 <= b < ASSET_COUNT && b != asset ==> final(self).state_of(b) == old(
                    self,
                ).state_of(b),
            final(self).state_of(asset as int) == Some(
                (PreLimitOrderState { merged: true, ..old(self).state_of(asset as int).unwrap() }),
            ),
            loss == (match sale_price {
                Some(p) => {
                    let s = old(self).state_of(asset as int).unwrap();
                    let purchase = if winner == Side::Up {
                        s.down_order_price
                    } else {
                        s.up_order_price
                    };
                    Some(((purchase - p) * old(self).cfg().shares) as i64)
                },
                None => None::<i64>,
            }),
            final(self).books.model().total == (match loss {
                Some(l) => spec_sat_add(old(self).books.model().total, -l),
                None => old(self).books.model().total,
            }),
            final(self).books.model().period == old(self).books.model().period,
            final(self).books.model().checked == old(self).books.model().checked,
            final(self).books.model().trades =~= (if !old(self).cfg().simulation_mode {
                let s = old(self).state_of(asset as int).unwrap();
                old(self).books.model().trades.insert(
                    s.condition_id,
                    spec_holding_winner_trade(s, winner, old(self).cfg().shares),
                )
            } else {
                old(self).books.model().trades
            }),
    {
        let s = match &self.states[asset] {
            Some(s) => *s,
            None => {
                proof {
                    assert(false);
                }
                return None;
            },
        };
        let shares = self.config.strategy.shares;
        let loss: Option<i64> = match sale_price {
            Some(p) => {
                let purchase = match winner {
                    Side::Up => s.down_order_price,
                    Side::Down => s.up_order_price,
                };
                let diff: i64 = purchase as i64 - p as i64;
                proof {
                    assert(-1_000_000_000_000 <= diff * shares && diff * shares
                        <= 1_000_000_000_000) by (nonlinear_arith)
                        requires
                            -1000 <= diff <= 1000,
                            0 <= shares <= 1_000_000_000,
                    ;
                }
                let l: i64 = diff * shares as i64;
                self.books.total_profit = sat_add_i64(self.books.total_profit, -l);
                Some(l)
            },
            None => None,
        };
        let st = PreLimitOrderState { merged: true, ..s };
        self.states.set(asset, Some(st));
        if !self.config.strategy.simulation_mode {
            let trade = cycle_trade_holding_winner(&st, winner, shares);
            self.books.register_trade(trade);
        }
        loss
    }

    /// Evaluates the danger verdict for a one-sided position, before any
    /// live re-verification.  `price_danger` is the external danger verdict
    /// on the matched side's current price (false when no price could be
    /// read); it only matters in mode Price.
    pub fn danger_candidate(&self, asset: usize, now: i64, price_danger: bool) -> (r: bool)
        requires
            self.wf(),
            asset < ASSET_COUNT,
            0 <= now <= MAX_TS,
        ensures
            r == (match self.state_of(asset as int) {
                None => false,
                Some(s) => spec_danger_candidate(s, self.sig(), now as int, price_danger),
            }),
    {
        let s = match &self.states[asset] {
            None => {
                return false;
            },
            Some(s) => s,
        };
        let only_one = (s.up_matched && !s.down_matched) || (s.down_matched && !s.up_matched);
        if !only_one {
            return false;
        }
        match self.config.strategy.signal.one_side_buy_risk_management {
            RiskMode::Price => price_danger,
            RiskMode::Time => match s.one_side_matched_at {
                Some(t) => now - t >= (self.config.strategy.signal.danger_time_passed * 60) as i64,
                None => false,
            },
            RiskMode::Disabled => false,
        }
    }

    /// Re-verifies fill state before an early exit: when the exchange
    /// reports both orders filled, both flags are set and the exit is
    /// aborted (the both-matched logic takes over next tick); otherwise
    /// nothing changes and the exit proceeds.  Fill flags are monotone.
    pub fn verify_fills_before_risk_sell(&mut self, asset: usize, up_filled: bool, down_filled:
        bool) -> (proceed: bool)
        requires
            old(self).wf(),
            asset < ASSET_COUNT,
        ensures
            final(self).wf(),
            final(self).config == old(self).config,
            final(self).books == old(self).books,
            forall|b: int|
                0 <= b < ASSET_COUNT && b != asset ==> final(self).state_of(b) == old(
                    self,
                ).state_of(b),
            proceed == !(up_filled && down_filled),
            final(self).state_of(asset as int) == (if up_filled && down_filled {
                match old(self).state_of(asset as int) {
                    None => None::<PreLimitOrderState>,
                    Some(s) => Some(
                        (PreLimitOrderState { up_matched: true, down_matched: true, ..s }),
                    ),
                }
            } else {
                old(self).state_of(asset as int)
            }),
            (old(self).state_of(asset as int) matches Some(s) && s.up_matched) ==> final(self).state_of(
                asset as int,
            ).unwrap().up_matched,
            (old(self).state_of(asset as int) matches Some(s) && s.down_matched) ==> final(self).state_of(
                asset as int,
            ).unwrap().down_matched,
    {
        if up_filled && down_filled {
            let st = match &self.states[asset] {
                None => {
                    return false;
                },
                Some(s) => PreLimitOrderState { up_matched: true, down_matched: true, ..*s },
            };
            self.states.set(asset, Some(st));
            false
        } else {
            true
        }
    }

    /// The final gate before a risk sell: an unmerged, not yet risk-sold
    /// record whose danger verdict holds.
    pub fn risk_sell_due(&self, asset: usize, now: i64, price_danger: bool) -> (r: bool)
        requires
            self.wf(),
            asset < ASSET_COUNT,
            0 <= now <= MAX_TS,
        ensures
            r == (match self.state_of(asset as int) {
                None => false,
                Some(s) => !s.merged && !s.risk_sold && spec_danger_candidate(
                    s,
                    self.sig(),
                    now as int,
                    price_danger,
                ),
            }),
    {
        let gate = match &self.states[asset] {
            None => false,
            Some(s) => !s.merged && !s.risk_sold,
        };
        gate && self.danger_candidate(asset, now, price_danger)
    }

    /// Books the early sale of the matched side of a one-sided position:
    /// the loss (entry minus sale, times shares) is subtracted from the
    /// all-time accumulator when a sale price is known, and the record is
    /// marked risk-sold and merged.  The unmatched side's resting order is
    /// cancelled by the caller, best-effort.  A `None` sale means the
    /// market sell failed: nothing is booked, but the record is still
    /// marked.
    pub fn commit_risk_sell(&mut self, asset: usize, sale_price: Option<u64>) -> (loss: Option<i64>)
        requires
            old(self).wf(),
            asset < ASSET_COUNT,
            old(self).state_of(asset as int) is Some,
            old(self).state_of(asset as int).unwrap().only_one_matched(),
            !old(self).state_of(asset as int).unwrap().merged,
            !old(self).state_of(asset as int).unwrap().risk_sold,
            match sale_price {
                Some(p) => p <= PRICE_SCALE,
                None => true,
            },
        ensures
            final(self).wf(),
            final(self).config == old(self).config,
            forall|b: int|
                0 <= b < ASSET_COUNT && b != asset ==> final(self).state_of(b) == old(
                    self,
                ).state_of(b),
            final(self).state_of(asset as int) == Some(
                (PreLimitOrderState {
                    risk_sold: true,
                    merged: true,
                    ..old(self).state_of(asset as int).unwrap()
                }),
            ),
            loss == (match sale_price {
                Some(p) => {
                    let s = old(self).state_of(asset as int).unwrap();
                    let purchase = if s.up_matched {
                        s.up_order_price
                    } else {
                        s.down_order_price
                    };
                    Some(((purchase - p) * old(self).cfg().shares) as i64)
                },
                None => None::<i64>,
            }),
            final(self).books.model().total == (match loss {
                Some(l) => spec_sat_add(old(self).books.model().total, -l),
                None => old(self).books.model().total,
            }),
            final(self).books.model().period == old(self).books.model().period,
            final(self).books.model().checked == old(self).books.model().checked,
            final(self).books.model().trades == old(self).books.model().trades,
    {
        let s = match &self.states[asset] {
            Some(s) => *s,
            None => {
                proof {
                    assert(false);
                }
                return None;
            },
        };
        let shares = self.config.strategy.shares;
        let loss: Option<i64> = match sale_price {
            Some(p) => {
                let purchase = if s.up_matched {
                    s.up_order_price
                } else {
                    s.down_order_price
                };
                let diff: i64 = purchase as i64 - p as i64;
                proof {
                    assert(-1_000_000_000_000 <= diff * shares && diff * shares
                        <= 1_000_000_000_000) by (nonlinear_arith)
                        requires
                            -1000 <= diff <= 1000,
                            0 <= shares <= 1_000_000_000,
                    ;
                }
                let l: i64 = diff * shares as i64;
                self.books.total_profit = sat_add_i64(self.books.total_profit, -l);
                Some(l)
            },
            None => None,
        };
        let st = PreLimitOrderState { risk_sold: true, merged: true, ..s };
        self.states.set(asset, Some(st));
        loss
    }

    /// Clears an expired record.  A position whose both sides were held to
    /// expiry without merging is first registered for redemption in live
    /// mode.  Returns whether the record expired.
    pub fn expire_if_due(&mut self, asset: usize, now: i64) -> (expired: bool)
        requires
            old(self).wf(),
            asset < ASSET_COUNT,
        ensures
            final(self).wf(),
            final(self).config == old(self).config,
            forall|b: int|
                0 <= b < ASSET_COUNT && b != asset ==> final(self).state_of(b) == old(
                    self,
                ).state_of(b),
            expired == (match old(self).state_of(asset as int) {
                None => false,
                Some(s) => now > s.expiry,
            }),
            final(self).state_of(asset as int) == (if expired {
                None::<PreLimitOrderState>
            } else {
                old(self).state_of(asset as int)
            }),
            final(self).books.model().total == old(self).books.model().total,
            final(self).books.model().period == old(self).books.model().period,
            final(self).books.model().checked == old(self).books.model().checked,
            final(self).books.model().trades =~= (match old(self).state_of(asset as int) {
                Some(s) => {
                    if now > s.expiry && !old(self).cfg().simulation_mode && s.up_matched
                        && s.down_matched && !s.risk_sold && !s.merged {
                        old(self).books.model().trades.insert(
                            s.condition_id,
                            spec_holding_both_trade(s, old(self).cfg().shares),
                        )
                    } else {
                        old(self).books.model().trades
                    }
                },
                None => old(self).books.model().trades,
            }),
    {
        let s = match &self.states[asset] {
            Some(s) => *s,
            None => {
                return false;
            },
        };
        if now <= s.expiry {
            return false;
        }
        if !self.config.strategy.simulation_mode && s.up_matched && s.down_matched && !s.risk_sold
            && !s.merged {
            let trade = cycle_trade_holding_both(&s, self.config.strategy.shares);
            self.books.register_trade(trade);
        }
        self.states.set(asset, None);
        true
    }

    /// Whether mid-market placement may run this tick: no record exists,
    /// the pre-placement window has not opened, mid-market placement is
    /// enabled, and enough time remains in the current period to survive
    /// the danger-time window.
    pub fn mid_market_window(&self, asset: usize, now: i64, current_period: i64) -> (r: bool)
        requires
            self.wf(),
            asset < ASSET_COUNT,
            0 <= now <= MAX_TS,
            0 <= current_period <= MAX_TS,
        ensures
            r == {
                let remaining = current_period + MARKET_DURATION_SECS - now;
                &&& self.state_of(asset as int) is None
                &&& remaining > self.cfg().place_order_before_mins * 60
                &&& self.sig().mid_market_enabled
                &&& remaining >= self.sig().danger_time_passed * 60
            },
    {
        let has_state = self.states[asset].is_some();
        let remaining = current_period + MARKET_DURATION_SECS - now;
        let lead_secs = (self.config.strategy.place_order_before_mins * 60) as i64;
        let min_remaining = (self.config.strategy.signal.danger_time_passed * 60) as i64;
        !has_state && remaining > lead_secs && self.config.strategy.signal.mid_market_enabled
            && remaining >= min_remaining
    }

    /// Records a freshly placed mid-market order pair for the current
    /// period.
    pub fn commit_mid_market(
        &mut self,
        asset: usize,
        condition_id: u64,
        up_token_id: u64,
        down_token_id: u64,
        up_order_id: Option<u64>,
        down_order_id: Option<u64>,
        up_order_price: u64,
        down_order_price: u64,
        now: i64,
        current_period: i64,
    )
        requires
            old(self).wf(),
            asset < ASSET_COUNT,
            0 <= now <= MAX_TS,
            0 <= current_period <= MAX_TS,
            up_order_price <= PRICE_SCALE,
            down_order_price <= PRICE_SCALE,
        ensures
            final(self).wf(),
            final(self).config == old(self).config,
            final(self).books == old(self).books,
            forall|b: int|
                0 <= b < ASSET_COUNT && b != asset ==> final(self).state_of(b) == old(
                    self,
                ).state_of(b),
            final(self).state_of(asset as int) == Some(
                (PreLimitOrderState {
                    asset,
                    condition_id,
                    up_token_id,
                    down_token_id,
                    up_order_id,
                    down_order_id,
                    up_order_price,
                    down_order_price,
                    up_matched: false,
                    down_matched: false,
                    merged: false,
                    expiry: (current_period + MARKET_DURATION_SECS) as i64,
                    risk_sold: false,
                    order_placed_at: now,
                    market_period_start: current_period,
                    one_side_matched_at: None,
                }),
            ),
    {
        let st = PreLimitOrderState {
            asset,
            condition_id,
            up_token_id,
            down_token_id,
            up_order_id,
            down_order_id,
            up_order_price,
            down_order_price,
            up_matched: false,
            down_matched: false,
            merged: false,
            expiry: current_period + MARKET_DURATION_SECS,
            risk_sold: false,
            order_placed_at: now,
            market_period_start: current_period,
            one_side_matched_at: None,
        };
        self.states.set(asset, Some(st));
    }

    /// Condition ids whose markets have ended and are not yet reconciled.
    pub fn check_market_closure_due(&self, now: u64) -> (r: Vec<u64>)
        requires
            self.wf(),
        ensures
            forall|j: int|
                0 <= j < r@.len() ==> {
                    &&& self.books.model().trades.dom().contains(r@[j])
                    &&& crate::books::spec_trade_due(self.books.model().trades[r@[j]], now)
                    &&& !self.books.model().checked.contains(r@[j])
                },
            forall|i: int|
                0 <= i < self.books.trades@.len() && crate::books::spec_trade_due(
                    #[trigger] self.books.trades@[i],
                    now,
                ) && !self.books.model().checked.contains(self.books.trades@[i].condition_id)
                    ==> r@.contains(self.books.trades@[i].condition_id),
    {
        self.books.due_trade_ids(now)
    }

    /// Reconciles one condition id against the winner flags the exchange
    /// reported; see [`Books::settle`].
    pub fn settle_market_closure(&mut self, cid: u64, up_wins: bool, down_wins: bool) -> (r: Option<
        SettleReport,
    >)
        requires
            old(self).wf(),
        ensures
            final(self).wf(),
            final(self).config == old(self).config,
            forall|b: int|
                0 <= b < ASSET_COUNT ==> final(self).state_of(b) == old(self).state_of(b),
            final(self).books.model() =~= spec_settle(
                old(self).books.model(),
                cid,
                up_wins,
                down_wins,
            ),
            (r is Some) == (old(self).books.model().trades.dom().contains(cid) && !old(
                self,
            ).books.model().checked.contains(cid)),
            r matches Some(rep) ==> rep == spec_settle_report(
                old(self).books.model().trades[cid],
                up_wins,
                down_wins,
            ),
    {
        self.books.settle(cid, up_wins, down_wins)
    }
}

/// What the periodic status display shows of one asset: a pure, read-only
/// projection of its record.  Fill refresh is a separate, explicit step.
#[derive(Clone, Copy, Debug, PartialEq, Eq, Structural)]
pub struct StatusLine {
    pub market_period_start: i64,
    /// Whole minutes remaining in the period, zero once it has ended.
    pub minutes: i64,
    /// Leftover seconds remaining in the period, zero once it has ended.
    pub seconds: i64,
    pub up_matched: bool,
    pub down_matched: bool,
}

impl PreLimitStrategy {
    /// Read-only status projection of one asset's record; changes nothing.
    pub fn status_projection(&self, asset: usize, now: i64) -> (r: Option<StatusLine>)
        requires
            self.wf(),
            asset < ASSET_COUNT,
            0 <= now <= MAX_TS,
        ensures
            r == (match self.state_of(asset as int) {
                None => None::<StatusLine>,
                Some(s) => {
                    let remaining = s.market_period_start + MARKET_DURATION_SECS - now;
                    Some(
                        (StatusLine {
                            market_period_start: s.market_period_start,
                            minutes: (if remaining > 0 {
                                remaining / 60
                            } else {
                                0
                            }) as i64,
                            seconds: (if remaining > 0 {
                                remaining % 60
                            } else {
                                0
                            }) as i64,
                            up_matched: s.up_matched,
                            down_matched: s.down_matched,
                        }),
                    )
                },
            }),
    {
        let s = match &self.states[asset] {
            None => {
                return None;
            },
            Some(s) => s,
        };
        let remaining = s.market_period_start + MARKET_DURATION_SECS - now;
        let (minutes, seconds) = if remaining > 0 {
            (((remaining as u64) / 60) as i64, ((remaining as u64) % 60) as i64)
        } else {
            (0i64, 0i64)
        };
        Some(
            StatusLine {
                market_period_start: s.market_period_start,
                minutes,
                seconds,
                up_matched: s.up_matched,
                down_matched: s.down_matched,
            },
        )
    }
}

/// The holding-winner trade a merged position registers.
pub open spec fn spec_holding_winner_trade(
    s: PreLimitOrderState,
    winner: Side,
    shares: u64,
) -> crate::books::CycleTrade {
    crate::books::CycleTrade {
        condition_id: s.condition_id,
        period_timestamp: s.market_period_start as u64,
        market_duration_secs: crate::MARKET_DURATION_SECS_U64,
        up_token_id: Some(s.up_token_id),
        down_token_id: Some(s.down_token_id),
        up_shares: if winner == Side::Up {
            shares
        } else {
            0
        },
        down_shares: if winner == Side::Up {
            0
        } else {
            shares
        },
        up_avg_price: if winner == Side::Up {
            s.up_order_price
        } else {
            0
        },
        down_avg_price: if winner == Side::Up {
            0
        } else {
            s.down_order_price
        },
    }
}

/// The holding-both trade an expired double-filled position registers.
pub open spec fn spec_holding_both_trade(s: PreLimitOrderState, shares: u64) -> crate::books::CycleTrade {
    crate::books::CycleTrade {
        condition_id: s.condition_id,
        period_timestamp: s.market_period_start as u64,
        market_duration_secs: crate::MARKET_DURATION_SECS_U64,
        up_token_id: Some(s.up_token_id),
        down_token_id: Some(s.down_token_id),
        up_shares: shares,
        down_shares: shares,
        up_avg_price: s.up_order_price,
        down_avg_price: s.down_order_price,
    }
}

/// The sell-opposite time boundary is inclusive.
///
/// Law: with both sides filled and unmerged and one side's price at or
/// above the threshold, the sale triggers whenever the whole minutes
/// remaining are at most the configured window — in particular when they
/// equal it exactly.
pub proof fn lemma_sell_opposite_boundary_inclusive(
    s: PreLimitOrderState,
    cfg: StrategyConfig,
    up_price: int,
    down_price: int,
    now: int,
)
    requires
        s.both_matched(),
        !s.merged,
        up_price >= cfg.sell_opposite_above || down_price >= cfg.sell_opposite_above,
        spec_mins_trunc(s.market_period_start + MARKET_DURATION_SECS - now)
            <= cfg.sell_opposite_time_remaining,
    ensures
        spec_sell_opposite(s, cfg, up_price, down_price, now) is Some,
{
}

/// The danger-time boundary is inclusive.
///
/// Law: in mode Time, a position that has been one-sided for exactly the
/// configured number of minutes is already in danger.
pub proof fn lemma_danger_time_boundary_inclusive(
    s: PreLimitOrderState,
    sig: SignalConfig,
    t0: int,
    price_danger: bool,
)
    requires
        s.only_one_matched(),
        s.one_side_matched_at == Some(t0 as i64),
        i64::MIN <= t0 <= i64::MAX,
        sig.one_side_buy_risk_management == RiskMode::Time,
    ensures
        spec_danger_candidate(s, sig, t0 + sig.danger_time_passed * 60, price_danger),
{
}

/// Two live lifecycle records always belong to two different assets.
///
/// Law: there is at most one lifecycle record per asset at any time — each
/// asset owns exactly one slot, and a record always sits in its own asset's
/// slot.
pub proof fn lemma_at_most_one_state_per_asset(e: &PreLimitStrategy, i: int, j: int)
    requires
        e.wf(),
        0 <= i < ASSET_COUNT,
        0 <= j < ASSET_COUNT,
        i != j,
        e.state_of(i) is Some,
        e.state_of(j) is Some,
    ensures
        e.state_of(i).unwrap().asset != e.state_of(j).unwrap().asset,
{
}

} // verus!
