//! Redemption bookkeeping.
//!
//! A [`CycleTrade`] records a position that survived to merge or expiry and
//! awaits reconciliation.  [`Books`] owns the registered trades, the set of
//! condition ids already reconciled, and the two profit accumulators, and
//! guarantees at-most-once settlement per condition id.
use vstd::prelude::*;

use crate::price::PRICE_SCALE;
use crate::state::{PreLimitOrderState, Side};
use crate::MARKET_DURATION_SECS_U64;

verus! {

/// A registered position awaiting reconciliation, keyed by condition id.
#[derive(Clone, Copy, Debug)]
pub struct CycleTrade {
    pub condition_id: u64,
    pub period_timestamp: u64,
    pub market_duration_secs: u64,
    pub up_token_id: Option<u64>,
    pub down_token_id: Option<u64>,
    pub up_shares: u64,
    pub down_shares: u64,
    /// Average entry price of the up shares, in mills.
    pub up_avg_price: u64,
    /// Average entry price of the down shares, in mills.
    pub down_avg_price: u64,
}

impl CycleTrade {
    pub open spec fn wf(&self) -> bool {
        &&& self.up_shares <= crate::config::MAX_SHARES
        &&& self.down_shares <= crate::config::MAX_SHARES
        &&& self.up_avg_price <= PRICE_SCALE
        &&& self.down_avg_price <= PRICE_SCALE
    }
}

/// The trade registered when the losing side was sold early: the winner side
/// is held to expiry, the other side carries no shares.
pub fn cycle_trade_holding_winner(s: &PreLimitOrderState, winner: Side, shares: u64) -> (t:
    CycleTrade)
    requires
        s.wf(),
        0 <= s.market_period_start,
        shares <= crate::config::MAX_SHARES,
    ensures
        t.wf(),
        t.condition_id == s.condition_id,
        t.period_timestamp == s.market_period_start as u64,
        t.market_duration_secs == MARKET_DURATION_SECS_U64,
        t.up_token_id == Some(s.up_token_id),
        t.down_token_id == Some(s.down_token_id),
        winner == Side::Up ==> t.up_shares == shares && t.down_shares == 0 && t.up_avg_price
            == s.up_order_price && t.down_avg_price == 0,
        winner == Side::Down ==> t.up_shares == 0 && t.down_shares == shares && t.up_avg_price == 0
            && t.down_avg_price == s.down_order_price,
{
    let (up_shares, down_shares, up_avg, down_avg) = match winner {
        Side::Up => (shares, 0u64, s.up_order_price, 0u64),
        Side::Down => (0u64, shares, 0u64, s.down_order_price),
    };
    CycleTrade {
        condition_id: s.condition_id,
        period_timestamp: s.market_period_start as u64,
        market_duration_secs: MARKET_DURATION_SECS_U64,
        up_token_id: Some(s.up_token_id),
        down_token_id: Some(s.down_token_id),
        up_shares,
        down_shares,
        up_avg_price: up_avg,
        down_avg_price: down_avg,
    }
}

/// The trade registered when both sides were held to expiry.
pub fn cycle_trade_holding_both(s: &PreLimitOrderState, shares: u64) -> (t: CycleTrade)
    requires
        s.wf(),
        0 <= s.market_period_start,
        shares <= crate::config::MAX_SHARES,
    ensures
        t.wf(),
        t.condition_id == s.condition_id,
        t.period_timestamp == s.market_period_start as u64,
        t.market_duration_secs == MARKET_DURATION_SECS_U64,
        t.up_token_id == Some(s.up_token_id),
        t.down_token_id == Some(s.down_token_id),
        t.up_shares == shares,
        t.down_shares == shares,
        t.up_avg_price == s.up_order_price,
        t.down_avg_price == s.down_order_price,
{
    CycleTrade {
        condition_id: s.condition_id,
        period_timestamp: s.market_period_start as u64,
        market_duration_secs: MARKET_DURATION_SECS_U64,
        up_token_id: Some(s.up_token_id),
        down_token_id: Some(s.down_token_id),
        up_shares: shares,
        down_shares: shares,
        up_avg_price: s.up_order_price,
        down_avg_price: s.down_order_price,
    }
}

/// No two trades share a condition id.
pub open spec fn unique_cids(ts: Seq<CycleTrade>) -> bool {
    forall|i: int, j: int|
        0 <= i < j < ts.len() ==> ts[i].condition_id != ts[j].condition_id
}

/// The registered trades as a map keyed by condition id; a later entry with
/// the same id shadows an earlier one.
pub open spec fn trades_map(ts: Seq<CycleTrade>) -> Map<u64, CycleTrade>
    decreases ts.len(),
{
    if ts.len() == 0 {
        Map::empty()
    } else {
        trades_map(ts.drop_last()).insert(ts.last().condition_id, ts.last())
    }
}

/// Mathematical state of the bookkeeping.
#[verifier::ext_equal]
pub struct BooksModel {
    pub trades: Map<u64, CycleTrade>,
    pub checked: Set<u64>,
    pub total: int,
    pub period: int,
}

/// Registered trades, the closure-checked dedup set, and the two profit
/// accumulators (mills).
pub struct Books {
    pub trades: Vec<CycleTrade>,
    pub closure_checked: Vec<u64>,
    pub total_profit: i64,
    pub period_profit: i64,
}

impl Books {
    pub open spec fn model(&self) -> BooksModel {
        BooksModel {
            trades: trades_map(self.trades@),
            checked: self.closure_checked@.to_set(),
            total: self.total_profit as int,
            period: self.period_profit as int,
        }
    }

    pub open spec fn wf(&self) -> bool {
        &&& unique_cids(self.trades@)
        &&& (forall|i: int| 0 <= i < self.trades@.len() ==> (#[trigger] self.trades@[i]).wf())
        &&& (forall|i: int, j: int|
            0 <= i < j < self.closure_checked@.len() ==> self.closure_checked@[i]
                != self.closure_checked@[j])
    }

    pub fn new() -> (r: Books)
        ensures
            r.wf(),
            r.model().trades =~= Map::<u64, CycleTrade>::empty(),
            r.model().checked =~= Set::<u64>::empty(),
            r.model().total == 0,
            r.model().period == 0,
    {
        let r = Books {
            trades: Vec::new(),
            closure_checked: Vec::new(),
            total_profit: 0,
            period_profit: 0,
        };
        proof {
            assert(r.closure_checked@.to_set() =~= Set::<u64>::empty());
        }
        r
    }

    /// Index of the trade registered under `cid`, if any.
    fn find_trade(&self, cid: u64) -> (r: Option<usize>)
        ensures
            match r {
                Some(i) => i < self.trades@.len() && self.trades@[i as int].condition_id == cid,
                None => forall|i: int|
                    0 <= i < self.trades@.len() ==> (#[trigger] self.trades@[i]).condition_id
                        != cid,
            },
    {
        let mut i: usize = 0;
        while i < self.trades.len()
            invariant
                i <= self.trades@.len(),
                forall|j: int|
                    0 <= j < i ==> (#[trigger] self.trades@[j]).condition_id != cid,
            decreases self.trades@.len() - i,
        {
            if self.trades[i].condition_id == cid {
                return Some(i);
            }
            i = i + 1;
        }
        None
    }

    /// Whether `cid` has already been reconciled.
    pub fn is_closure_checked(&self, cid: u64) -> (r: bool)
        ensures
            r == self.model().checked.contains(cid),
    {
        let mut i: usize = 0;
        while i < self.closure_checked.len()
            invariant
                i <= self.closure_checked@.len(),
                forall|j: int| 0 <= j < i ==> self.closure_checked@[j] != cid,
            decreases self.closure_checked@.len() - i,
        {
            if self.closure_checked[i] == cid {
                proof {
                    assert(self.closure_checked@.contains(cid));
                }
                return true;
            }
            i = i + 1;
        }
        proof {
            assert(!self.closure_checked@.contains(cid));
        }
        false
    }

    /// Registers a trade for later reconciliation, replacing any trade
    /// already registered under the same condition id.
    pub fn register_trade(&mut self, t: CycleTrade)
        requires
            old(self).wf(),
            t.wf(),
        ensures
            final(self).wf(),
            final(self).model().trades =~= old(self).model().trades.insert(t.condition_id, t),
            final(self).model().checked == old(self).model().checked,
            final(self).model().total == old(self).model().total,
            final(self).model().period == old(self).model().period,
    {
        proof {
            lemma_trades_map_props(self.trades@);
        }
        match self.find_trade(t.condition_id) {
            Some(i) => {
                proof {
                    lemma_trades_map_update(self.trades@, i as int, t);
                }
                self.trades.set(i, t);
            },
            None => {
                proof {
                    lemma_trades_map_push(self.trades@, t);
                }
                self.trades.push(t);
            },
        }
    }

    /// A snapshot of the registered trades.
    pub fn trades_snapshot(&self) -> (r: Vec<CycleTrade>)
        ensures
            r@ == self.trades@,
    {
        let mut r: Vec<CycleTrade> = Vec::new();
        let mut i: usize = 0;
        while i < self.trades.len()
            invariant
                i <= self.trades@.len(),
                r@ =~= self.trades@.subrange(0, i as int),
            decreases self.trades@.len() - i,
        {
            r.push(self.trades[i]);
            proof {
                assert(self.trades@.subrange(0, i + 1) =~= self.trades@.subrange(0, i as int).push(
                    self.trades@[i as int]));
            }
            i = i + 1;
        }
        proof {
            assert(self.trades@.subrange(0, self.trades@.len() as int) =~= self.trades@);
        }
        r
    }

    pub fn get_total_profit(&self) -> (r: i64)
        ensures
            r as int == self.model().total,
    {
        self.total_profit
    }

    pub fn get_period_profit(&self) -> (r: i64)
        ensures
            r as int == self.model().period,
    {
        self.period_profit
    }
}

/// Whether a registered trade's market period has ended by `now`.
pub open spec fn spec_trade_due(t: CycleTrade, now: u64) -> bool {
    t.period_timestamp + t.market_duration_secs <= now
}

impl Books {
    /// Condition ids of registered trades whose market has ended and that
    /// have not been reconciled yet.
    pub fn due_trade_ids(&self, now: u64) -> (r: Vec<u64>)
        requires
            self.wf(),
        ensures
            forall|j: int|
                0 <= j < r@.len() ==> {
                    &&& self.model().trades.dom().contains(r@[j])
                    &&& spec_trade_due(self.model().trades[r@[j]], now)
                    &&& !self.model().checked.contains(r@[j])
                },
            forall|i: int|
                0 <= i < self.trades@.len() && spec_trade_due(#[trigger] self.trades@[i], now)
                    && !self.model().checked.contains(self.trades@[i].condition_id) ==> r@.contains(
                    self.trades@[i].condition_id,
                ),
    {
        proof {
            lemma_trades_map_props(self.trades@);
        }
        let mut r: Vec<u64> = Vec::new();
        let mut i: usize = 0;
        while i < self.trades.len()
            invariant
                self.wf(),
                i <= self.trades@.len(),
                forall|j: int|
                    0 <= j < r@.len() ==> {
                        &&& self.model().trades.dom().contains(r@[j])
                        &&& spec_trade_due(self.model().trades[r@[j]], now)
                        &&& !self.model().checked.contains(r@[j])
                    },
                forall|k: int|
                    0 <= k < i && spec_trade_due(#[trigger] self.trades@[k], now)
                        && !self.model().checked.contains(self.trades@[k].condition_id)
                        ==> r@.contains(self.trades@[k].condition_id),
            decreases self.trades@.len() - i,
        {
            proof {
                lemma_trades_map_props(self.trades@);
            }
            let t = &self.trades[i];
            let end_ok = t.period_timestamp <= u64::MAX - t.market_duration_secs
                && t.period_timestamp + t.market_duration_secs <= now;
            if end_ok && !self.is_closure_checked(t.condition_id) {
                let ghost old_r = r@;
                r.push(t.condition_id);
                proof {
                    assert(forall|j: int| 0 <= j < old_r.len() ==> r@[j] == old_r[j]);
                    assert(r@[r@.len() - 1] == self.trades@[i as int].condition_id);
                }
            }
            i = i + 1;
        }
        r
    }
}

/// The winning side, as flagged by the exchange.
pub open spec fn spec_winner(up_wins: bool, down_wins: bool) -> Option<Side> {
    if up_wins {
        Some(Side::Up)
    } else if down_wins {
        Some(Side::Down)
    } else {
        None
    }
}

/// Total cost of a registered trade, in mills.
pub open spec fn spec_cost(t: CycleTrade) -> int {
    t.up_shares * t.up_avg_price + t.down_shares * t.down_avg_price
}

/// Payout of a registered trade once resolved: one dollar per winning share.
pub open spec fn spec_payout(t: CycleTrade, up_wins: bool, down_wins: bool) -> int {
    if up_wins {
        t.up_shares * PRICE_SCALE
    } else if down_wins {
        t.down_shares * PRICE_SCALE
    } else {
        0
    }
}

/// Realized profit and loss of a resolved trade, in mills.
pub open spec fn spec_pnl(t: CycleTrade, up_wins: bool, down_wins: bool) -> int {
    spec_payout(t, up_wins, down_wins) - spec_cost(t)
}

/// Token redeemed for a resolved trade: the winning side's token where one
/// exists, preferring the up token when it won and carries shares.
pub open spec fn spec_redeem_target(t: CycleTrade, up_wins: bool, down_wins: bool) -> Option<
    (Option<u64>, Side),
> {
    if up_wins || down_wins {
        if up_wins && t.up_shares > 0 {
            Some((t.up_token_id, Side::Up))
        } else {
            Some((t.down_token_id, Side::Down))
        }
    } else {
        None
    }
}

/// Saturating signed addition.
pub open spec fn spec_sat_add(a: int, b: int) -> int {
    let s = a + b;
    if s > i64::MAX {
        i64::MAX as int
    } else if s < i64::MIN {
        i64::MIN as int
    } else {
        s
    }
}

/// Adds two accumulator values, saturating at the i64 range.
pub fn sat_add_i64(a: i64, b: i64) -> (r: i64)
    ensures
        r as int == spec_sat_add(a as int, b as int),
{
    if b >= 0 {
        if a > i64::MAX - b {
            i64::MAX
        } else {
            a + b
        }
    } else {
        if a < i64::MIN - b {
            i64::MIN
        } else {
            a + b
        }
    }
}

/// What one reconciliation pass reports about a resolved trade.
#[derive(Clone, Copy, Debug)]
pub struct SettleReport {
    /// The consumed trade.
    pub trade: CycleTrade,
    pub winner: Option<Side>,
    /// Cost, payout and realized profit, in mills.
    pub cost: i64,
    pub payout: i64,
    pub pnl: i64,
    /// Token to redeem, with its side, where a winner exists.
    pub redeem: Option<(Option<u64>, Side)>,
}

/// The report produced by settling `t`.
pub open spec fn spec_settle_report(t: CycleTrade, up_wins: bool, down_wins: bool) -> SettleReport {
    SettleReport {
        trade: t,
        winner: spec_winner(up_wins, down_wins),
        cost: spec_cost(t) as i64,
        payout: spec_payout(t, up_wins, down_wins) as i64,
        pnl: spec_pnl(t, up_wins, down_wins) as i64,
        redeem: spec_redeem_target(t, up_wins, down_wins),
    }
}

/// Settlement transition: a registered, not-yet-checked condition id has its
/// profit booked into both accumulators, is marked closure-checked, and its
/// trade is removed; anything else leaves the books unchanged.
pub open spec fn spec_settle(m: BooksModel, cid: u64, up_wins: bool, down_wins: bool) -> BooksModel {
    if m.trades.dom().contains(cid) && !m.checked.contains(cid) {
        let pnl = spec_pnl(m.trades[cid], up_wins, down_wins);
        BooksModel {
            trades: m.trades.remove(cid),
            checked: m.checked.insert(cid),
            total: spec_sat_add(m.total, pnl),
            period: spec_sat_add(m.period, pnl),
        }
    } else {
        m
    }
}

impl Books {
    /// Reconciles one condition id against the winner flags the exchange
    /// reported.  Returns the settlement report when the id was registered
    /// and not yet closure-checked; otherwise changes nothing.
    pub fn settle(&mut self, cid: u64, up_wins: bool, down_wins: bool) -> (r: Option<SettleReport>)
        requires
            old(self).wf(),
        ensures
            final(self).wf(),
            final(self).model() =~= spec_settle(old(self).model(), cid, up_wins, down_wins),
            (r is Some) == (old(self).model().trades.dom().contains(cid) && !old(
                self,
            ).model().checked.contains(cid)),
            r matches Some(rep) ==> rep == spec_settle_report(
                old(self).model().trades[cid],
                up_wins,
                down_wins,
            ),
    {
        proof {
            lemma_trades_map_props(self.trades@);
        }
        let idx = match self.find_trade(cid) {
            Some(i) => i,
            None => {
                return None;
            },
        };
        if self.is_closure_checked(cid) {
            return None;
        }
        let t = self.trades[idx];
        proof {
            assert(self.trades@[idx as int].wf());
            assert(self.model().trades[cid] == self.trades@[idx as int]);
            assert(t.up_shares * t.up_avg_price <= 1_000_000_000_000) by (nonlinear_arith)
                requires
                    t.up_shares <= 1_000_000_000,
                    t.up_avg_price <= 1000,
            ;
            assert(t.down_shares * t.down_avg_price <= 1_000_000_000_000) by (nonlinear_arith)
                requires
                    t.down_shares <= 1_000_000_000,
                    t.down_avg_price <= 1000,
            ;
            assert(t.up_shares * PRICE_SCALE <= 1_000_000_000_000) by (nonlinear_arith)
                requires
                    t.up_shares <= 1_000_000_000,
            ;
            assert(t.down_shares * PRICE_SCALE <= 1_000_000_000_000) by (nonlinear_arith)
                requires
                    t.down_shares <= 1_000_000_000,
            ;
        }
        let cost: i64 = (t.up_shares as i64) * (t.up_avg_price as i64) + (t.down_shares as i64)
            * (t.down_avg_price as i64);
        let payout: i64 = if up_wins {
            (t.up_shares as i64) * (PRICE_SCALE as i64)
        } else if down_wins {
            (t.down_shares as i64) * (PRICE_SCALE as i64)
        } else {
            0
        };
        let pnl: i64 = payout - cost;
        let winner = if up_wins {
            Some(Side::Up)
        } else if down_wins {
            Some(Side::Down)
        } else {
            None
        };
        let redeem = if up_wins || down_wins {
            if up_wins && t.up_shares > 0 {
                Some((t.up_token_id, Side::Up))
            } else {
                Some((t.down_token_id, Side::Down))
            }
        } else {
            None
        };
        self.total_profit = sat_add_i64(self.total_profit, pnl);
        self.period_profit = sat_add_i64(self.period_profit, pnl);
        let ghost old_checked = self.closure_checked@;
        self.closure_checked.push(cid);
        proof {
            old_checked.lemma_push_to_set_commute(cid);
        }
        let ghost old_trades = self.trades@;
        proof {
            lemma_trades_map_remove(old_trades, idx as int);
        }
        self.trades.remove(idx);
        Some(
            SettleReport {
                trade: t,
                winner,
                cost,
                payout,
                pnl,
                redeem,
            },
        )
    }
}

/// Domain and values of the trades map, from the underlying sequence.
proof fn lemma_trades_map_props(ts: Seq<CycleTrade>)
    requires
        unique_cids(ts),
    ensures
        forall|c: u64|
            #[trigger] trades_map(ts).dom().contains(c) <==> exists|i: int|
                0 <= i < ts.len() && (#[trigger] ts[i]).condition_id == c,
        forall|i: int|
            0 <= i < ts.len() ==> trades_map(ts)[(#[trigger] ts[i]).condition_id] == ts[i],
    decreases ts.len(),
{
    if ts.len() > 0 {
        let prefix = ts.drop_last();
        lemma_trades_map_props(prefix);
        assert forall|i: int| 0 <= i < ts.len() implies trades_map(ts)[(#[trigger] ts[i]).condition_id]
            == ts[i] by {
            if i < ts.len() - 1 {
                assert(ts[i] == prefix[i]);
                assert(ts[i].condition_id != ts.last().condition_id);
            }
        }
        assert forall|c: u64| #[trigger] trades_map(ts).dom().contains(c) implies exists|i: int|
            0 <= i < ts.len() && (#[trigger] ts[i]).condition_id == c by {
            if c == ts.last().condition_id {
                assert(ts[ts.len() - 1].condition_id == c);
            } else {
                assert(trades_map(prefix).dom().contains(c));
                let i = choose|i: int| 0 <= i < prefix.len() && (#[trigger] prefix[i]).condition_id
                    == c;
                assert(ts[i] == prefix[i]);
                assert(ts[i].condition_id == c);
            }
        }
        assert forall|c: u64| (exists|i: int|
            0 <= i < ts.len() && (#[trigger] ts[i]).condition_id == c) implies #[trigger] trades_map(
            ts,
        ).dom().contains(c) by {
            let i = choose|i: int| 0 <= i < ts.len() && (#[trigger] ts[i]).condition_id == c;
            if i < ts.len() - 1 {
                assert(prefix[i].condition_id == c);
            }
        }
    }
}

/// Removing the trade at one index removes exactly its condition id from the
/// map.
proof fn lemma_trades_map_remove(ts: Seq<CycleTrade>, i: int)
    requires
        unique_cids(ts),
        0 <= i < ts.len(),
    ensures
        unique_cids(ts.remove(i)),
        trades_map(ts.remove(i)) =~= trades_map(ts).remove(ts[i].condition_id),
    decreases ts.len(),
{
    lemma_trades_map_props(ts);
    let removed = ts.remove(i);
    assert(forall|k: int|
        0 <= k < removed.len() ==> removed[k] == (if k < i {
            ts[k]
        } else {
            ts[k + 1]
        }));
    if i == ts.len() - 1 {
        assert(removed =~= ts.drop_last());
        lemma_trades_map_props(removed);
        assert(!trades_map(removed).dom().contains(ts[i].condition_id));
        assert(trades_map(removed) =~= trades_map(ts).remove(ts[i].condition_id));
    } else {
        let prefix = ts.drop_last();
        lemma_trades_map_remove(prefix, i);
        assert(removed.last() == ts.last());
        assert(removed.drop_last() =~= prefix.remove(i));
        assert(trades_map(removed) =~= trades_map(prefix.remove(i)).insert(
            ts.last().condition_id,
            ts.last(),
        ));
        assert(ts[i].condition_id != ts.last().condition_id);
        assert(trades_map(removed) =~= trades_map(ts).remove(ts[i].condition_id));
    }
}

/// Replacing the trade at an index by one with the same condition id updates
/// exactly that entry of the map.
proof fn lemma_trades_map_update(ts: Seq<CycleTrade>, i: int, t: CycleTrade)
    requires
        unique_cids(ts),
        0 <= i < ts.len(),
        t.condition_id == ts[i].condition_id,
    ensures
        unique_cids(ts.update(i, t)),
        trades_map(ts.update(i, t)) =~= trades_map(ts).insert(t.condition_id, t),
    decreases ts.len(),
{
    lemma_trades_map_props(ts);
    let updated = ts.update(i, t);
    if i == ts.len() - 1 {
        assert(updated.drop_last() =~= ts.drop_last());
        assert(updated.last() == t);
        assert(trades_map(updated) =~= trades_map(ts.drop_last()).insert(t.condition_id, t));
        assert(trades_map(ts) =~= trades_map(ts.drop_last()).insert(
            ts.last().condition_id,
            ts.last(),
        ));
        assert(trades_map(updated) =~= trades_map(ts).insert(t.condition_id, t));
    } else {
        let prefix = ts.drop_last();
        lemma_trades_map_update(prefix, i, t);
        assert(updated.last() == ts.last());
        assert(updated.drop_last() =~= prefix.update(i, t));
        assert(trades_map(updated) =~= trades_map(prefix.update(i, t)).insert(
            ts.last().condition_id,
            ts.last(),
        ));
        assert(t.condition_id != ts.last().condition_id);
        assert(trades_map(updated) =~= trades_map(ts).insert(t.condition_id, t));
    }
}

/// Appending a trade with a fresh condition id inserts exactly that entry.
proof fn lemma_trades_map_push(ts: Seq<CycleTrade>, t: CycleTrade)
    requires
        unique_cids(ts),
        forall|i: int| 0 <= i < ts.len() ==> (#[trigger] ts[i]).condition_id != t.condition_id,
    ensures
        unique_cids(ts.push(t)),
        trades_map(ts.push(t)) =~= trades_map(ts).insert(t.condition_id, t),
{
    let pushed = ts.push(t);
    assert(pushed.drop_last() =~= ts);
    assert(pushed.last() == t);
    assert(forall|k: int| 0 <= k < ts.len() ==> pushed[k] == ts[k]);
}

/// Whether the exchange flags the token with this id as the winner.
pub open spec fn spec_token_wins(id: Option<u64>, toks: Seq<crate::discovery::MarketToken>) -> bool {
    match id {
        Some(tid) => exists|k: int|
            0 <= k < toks.len() && (#[trigger] toks[k]).token_id == tid && toks[k].winner,
        None => false,
    }
}

/// Winner flags of a registered trade's two sides, from a market's token
/// list as the exchange reports it.
pub fn winner_flags(t: &CycleTrade, tokens: &Vec<crate::discovery::MarketToken>) -> (r: (
    bool,
    bool,
))
    ensures
        r.0 == spec_token_wins(t.up_token_id, tokens@),
        r.1 == spec_token_wins(t.down_token_id, tokens@),
{
    let mut up_wins = false;
    let mut down_wins = false;
    let mut i: usize = 0;
    while i < tokens.len()
        invariant
            i <= tokens@.len(),
            up_wins == (match t.up_token_id {
                Some(tid) => exists|k: int|
                    0 <= k < i && (#[trigger] tokens@[k]).token_id == tid && tokens@[k].winner,
                None => false,
            }),
            down_wins == (match t.down_token_id {
                Some(tid) => exists|k: int|
                    0 <= k < i && (#[trigger] tokens@[k]).token_id == tid && tokens@[k].winner,
                None => false,
            }),
        decreases tokens@.len() - i,
    {
        let tok = &tokens[i];
        if tok.winner {
            match t.up_token_id {
                Some(tid) => {
                    if tok.token_id == tid {
                        up_wins = true;
                    }
                },
                None => {},
            }
            match t.down_token_id {
                Some(tid) => {
                    if tok.token_id == tid {
                        down_wins = true;
                    }
                },
                None => {},
            }
        }
        i = i + 1;
    }
    (up_wins, down_wins)
}

/// Settling the same condition id twice changes nothing the second time.
///
/// Law: each condition id is added to the closure-checked set exactly once,
/// and the accumulators are updated exactly once per condition id — a second
/// settlement of an id finds it either unregistered or already checked and
/// leaves trades, checked set and both accumulators untouched.
pub proof fn lemma_settle_at_most_once(
    m: BooksModel,
    cid: u64,
    up1: bool,
    down1: bool,
    up2: bool,
    down2: bool,
)
    ensures
        spec_settle(spec_settle(m, cid, up1, down1), cid, up2, down2) =~= spec_settle(
            m,
            cid,
            up1,
            down1,
        ),
{
    let m1 = spec_settle(m, cid, up1, down1);
    if m.trades.dom().contains(cid) && !m.checked.contains(cid) {
        assert(m1.checked.contains(cid));
    }
}

} // verus!
