use prelimit::books::{sat_add_i64, winner_flags, Books, CycleTrade};
use prelimit::discovery::MarketToken;
use prelimit::state::Side;

fn trade_both_sides(cid: u64) -> CycleTrade {
    CycleTrade {
        condition_id: cid,
        period_timestamp: 1_699_999_200,
        market_duration_secs: 900,
        up_token_id: Some(11),
        down_token_id: Some(12),
        up_shares: 5,
        down_shares: 5,
        up_avg_price: 450,
        down_avg_price: 450,
    }
}

fn winner_token(id: u64, outcome: &str, winner: bool) -> MarketToken {
    MarketToken { token_id: id, outcome: String::from(outcome), winner }
}

#[test]
fn scenario_c_settlement_books_pnl_once() {
    // 5 Up @ 0.45 and 5 Down @ 0.45; the market resolves Up: cost 4.50,
    // payout 5.00, pnl +0.50 added to both accumulators, the up token is
    // redeemed, the id is closure-checked and the trade removed.
    let mut b = Books::new();
    b.register_trade(trade_both_sides(9));
    let rep = b.settle(9, true, false).unwrap();
    assert_eq!(rep.cost, 4500);
    assert_eq!(rep.payout, 5000);
    assert_eq!(rep.pnl, 500);
    assert_eq!(rep.winner, Some(Side::Up));
    assert_eq!(rep.redeem, Some((Some(11), Side::Up)));
    assert_eq!(b.get_total_profit(), 500);
    assert_eq!(b.get_period_profit(), 500);
    assert!(b.is_closure_checked(9));
    assert!(b.trades_snapshot().is_empty());
}

#[test]
fn settlement_is_at_most_once() {
    let mut b = Books::new();
    b.register_trade(trade_both_sides(9));
    assert!(b.settle(9, true, false).is_some());
    // A second pass finds the id closure-checked and changes nothing, even
    // if the trade were somehow re-registered.
    assert!(b.settle(9, true, false).is_none());
    b.register_trade(trade_both_sides(9));
    assert!(b.settle(9, false, true).is_none());
    assert_eq!(b.get_total_profit(), 500);
    assert_eq!(b.get_period_profit(), 500);
}

#[test]
fn settlement_of_unknown_id_does_nothing() {
    let mut b = Books::new();
    assert!(b.settle(1, true, false).is_none());
    assert_eq!(b.get_total_profit(), 0);
    assert!(!b.is_closure_checked(1));
}

#[test]
fn settlement_with_no_winner_pays_nothing() {
    let mut b = Books::new();
    b.register_trade(trade_both_sides(3));
    let rep = b.settle(3, false, false).unwrap();
    assert_eq!(rep.payout, 0);
    assert_eq!(rep.pnl, -4500);
    assert_eq!(rep.winner, None);
    assert_eq!(rep.redeem, None);
    assert_eq!(b.get_total_profit(), -4500);
}

#[test]
fn settlement_down_winner_redeems_down_token() {
    let mut b = Books::new();
    b.register_trade(trade_both_sides(4));
    let rep = b.settle(4, false, true).unwrap();
    assert_eq!(rep.payout, 5000);
    assert_eq!(rep.winner, Some(Side::Down));
    assert_eq!(rep.redeem, Some((Some(12), Side::Down)));
}

#[test]
fn settlement_up_winner_without_up_shares_redeems_down_token() {
    let mut b = Books::new();
    let mut t = trade_both_sides(5);
    t.up_shares = 0;
    t.up_avg_price = 0;
    b.register_trade(t);
    let rep = b.settle(5, true, false).unwrap();
    // Payout follows the up side (zero shares), the redeem pick falls back
    // to the down token.
    assert_eq!(rep.payout, 0);
    assert_eq!(rep.redeem, Some((Some(12), Side::Down)));
}

#[test]
fn register_trade_replaces_same_condition_id() {
    let mut b = Books::new();
    b.register_trade(trade_both_sides(6));
    let mut t = trade_both_sides(6);
    t.up_shares = 7;
    b.register_trade(t);
    let trades = b.trades_snapshot();
    assert_eq!(trades.len(), 1);
    assert_eq!(trades[0].up_shares, 7);
}

#[test]
fn due_trade_ids_filters_by_end_time_and_checked() {
    let mut b = Books::new();
    b.register_trade(trade_both_sides(1));
    let mut late = trade_both_sides(2);
    late.period_timestamp = 1_700_005_000;
    b.register_trade(late);
    let now = 1_700_000_200u64;  // past 1_699_999_200 + 900, before the late one
    let due = b.due_trade_ids(now);
    assert_eq!(due, vec![1]);
    assert!(b.settle(1, true, false).is_some());
    assert!(b.due_trade_ids(now).is_empty());
}

#[test]
fn winner_flags_match_token_ids() {
    let t = trade_both_sides(1);
    let tokens = vec![
        winner_token(11, "Up", true),
        winner_token(12, "Down", false),
    ];
    assert_eq!(winner_flags(&t, &tokens), (true, false));
    let tokens = vec![
        winner_token(11, "Up", false),
        winner_token(12, "Down", true),
    ];
    assert_eq!(winner_flags(&t, &tokens), (false, true));
    // A winner flag on an unrelated token counts for neither side.
    let tokens = vec![winner_token(99, "Up", true)];
    assert_eq!(winner_flags(&t, &tokens), (false, false));
}

#[test]
fn sat_add_saturates_at_the_ends() {
    assert_eq!(sat_add_i64(1, 2), 3);
    assert_eq!(sat_add_i64(i64::MAX, 1), i64::MAX);
    assert_eq!(sat_add_i64(i64::MIN, -1), i64::MIN);
    assert_eq!(sat_add_i64(i64::MAX, -1), i64::MAX - 1);
}
