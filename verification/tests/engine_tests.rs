use prelimit::config::Config;
use prelimit::engine::{mins_trunc, FillCheckPlan, PreLimitStrategy};
use prelimit::signal::RiskMode;
use prelimit::state::Side;

const PERIOD: i64 = 1_699_999_200;
const NEXT: i64 = PERIOD + 900;

fn live_config() -> Config {
    // The stock configuration is live mode with a 45-cent limit and five
    // shares; enable everything the scenarios need.
    let mut c = Config::default();
    c.strategy.signal.mid_market_enabled = true;
    c
}

/// Sets up an engine whose asset 0 holds a pre-placed pair for the current
/// period (the placement happened one period earlier, for what was then the
/// next period).
fn engine_with_state(c: Config) -> PreLimitStrategy {
    let mut e = PreLimitStrategy::new(c);
    e.commit_preplacement(0, 7, 11, 12, Some(101), Some(102), PERIOD - 120, PERIOD);
    e
}

#[test]
fn mins_trunc_truncates_toward_zero() {
    assert_eq!(mins_trunc(659), 10);
    assert_eq!(mins_trunc(600), 10);
    assert_eq!(mins_trunc(59), 0);
    assert_eq!(mins_trunc(-59), 0);
    assert_eq!(mins_trunc(-61), -1);
}

#[test]
fn scenario_a_preplacement_records_fresh_state() {
    // Lead time 3min, limit 0.45, shares 5: the window opens 180s before
    // the next boundary, and the fresh record expires one period after it.
    let mut e = PreLimitStrategy::new(live_config());
    let now = NEXT - 120;
    assert!(e.should_consider_preplacement(0, now, PERIOD));
    e.commit_preplacement(0, 7, 11, 12, Some(101), Some(102), now, NEXT);
    let s = e.state_snapshot(0).unwrap();
    assert_eq!(s.expiry, NEXT + 900);
    assert_eq!(s.up_order_price, 450);
    assert_eq!(s.down_order_price, 450);
    assert_eq!(s.condition_id, 7);
    assert!(!s.up_matched && !s.down_matched && !s.merged && !s.risk_sold);
    assert_eq!(s.market_period_start, NEXT);
    assert_eq!(s.order_placed_at, now);
    // The other assets are untouched.
    assert!(e.state_snapshot(1).is_none());
}

#[test]
fn preplacement_window_not_open_early() {
    let e = PreLimitStrategy::new(live_config());
    assert!(!e.should_consider_preplacement(0, NEXT - 181, PERIOD));
    assert!(e.should_consider_preplacement(0, NEXT - 180, PERIOD));
}

#[test]
fn preplacement_skipped_when_next_prepared() {
    let mut e = PreLimitStrategy::new(live_config());
    e.commit_preplacement(0, 7, 11, 12, None, None, NEXT - 120, NEXT);
    // The record's expiry is NEXT + 900, so the next period is prepared.
    assert!(!e.should_consider_preplacement(0, NEXT - 60, PERIOD));
}

#[test]
fn preplacement_skipped_on_unresolved_one_sided_state() {
    let mut e = engine_with_state(live_config());
    e.apply_fill_report(0, true, false);
    assert!(!e.should_consider_preplacement(0, NEXT - 60, PERIOD));
}

#[test]
fn fill_check_plan_branches() {
    let mut e = engine_with_state(live_config());
    assert_eq!(e.fill_check_plan(1, PERIOD), FillCheckPlan::NoState);
    assert_eq!(e.fill_check_plan(0, PERIOD - 1), FillCheckPlan::TooEarly);
    assert_eq!(e.fill_check_plan(0, PERIOD), FillCheckPlan::QueryExchange(101, 102));
    e.config.strategy.simulation_mode = true;
    assert_eq!(e.fill_check_plan(0, PERIOD), FillCheckPlan::InferFromPrice);
}

#[test]
fn fill_flags_are_monotone() {
    let mut e = engine_with_state(live_config());
    e.apply_fill_report(0, true, false);
    assert!(e.state_snapshot(0).unwrap().up_matched);
    // A later report that says "not filled" never clears the flag.
    e.apply_fill_report(0, false, false);
    let s = e.state_snapshot(0).unwrap();
    assert!(s.up_matched);
    assert!(!s.down_matched);
    e.apply_price_fill_inference(0, None, None);
    assert!(e.state_snapshot(0).unwrap().up_matched);
}

#[test]
fn price_inference_fills_at_or_below_limit() {
    let mut e = engine_with_state(live_config());
    // Limit is 450: 451 does not fill, 450 does; a missing price changes
    // nothing.
    e.apply_price_fill_inference(0, Some(451), None);
    let s = e.state_snapshot(0).unwrap();
    assert!(!s.up_matched && !s.down_matched);
    e.apply_price_fill_inference(0, Some(450), Some(30));
    let s = e.state_snapshot(0).unwrap();
    assert!(s.up_matched && s.down_matched);
}

#[test]
fn one_side_matched_timestamp_recorded_once() {
    let mut e = engine_with_state(live_config());
    e.apply_fill_report(0, true, false);
    e.note_one_side_matched(0, PERIOD + 10);
    assert_eq!(e.state_snapshot(0).unwrap().one_side_matched_at, Some(PERIOD + 10));
    // A later tick does not move the timestamp.
    e.note_one_side_matched(0, PERIOD + 500);
    assert_eq!(e.state_snapshot(0).unwrap().one_side_matched_at, Some(PERIOD + 10));
}

#[test]
fn sell_opposite_triggers_inside_window() {
    // Up price 0.96 >= threshold 0.95 with 10 minutes remaining and a
    // 15-minute window: the down side is sold.
    let mut e = engine_with_state(live_config());
    e.apply_fill_report(0, true, true);
    let now = NEXT - 600;
    let plan = e.sell_opposite_check(0, 960, 100, now).unwrap();
    assert_eq!(plan.winner, Side::Up);
    assert_eq!(plan.loser, Side::Down);
    assert_eq!(plan.token_to_sell, 12);
    assert_eq!(plan.purchase_price, 450);
}

#[test]
fn sell_opposite_boundary_is_inclusive() {
    // With a 10-minute window, exactly 10 whole minutes remaining triggers.
    let mut c = live_config();
    c.strategy.sell_opposite_time_remaining = 10;
    let mut e = engine_with_state(c);
    e.apply_fill_report(0, true, true);
    assert!(e.sell_opposite_check(0, 960, 100, NEXT - 600).is_some());
    // 659 seconds is still 10 whole minutes.
    assert!(e.sell_opposite_check(0, 960, 100, NEXT - 659).is_some());
    // 11 whole minutes remaining does not trigger.
    assert!(e.sell_opposite_check(0, 960, 100, NEXT - 660).is_none());
}

#[test]
fn sell_opposite_needs_price_threshold() {
    let mut e = engine_with_state(live_config());
    e.apply_fill_report(0, true, true);
    assert!(e.sell_opposite_check(0, 949, 949, NEXT - 600).is_none());
    // Down side reaching the threshold names Down the winner.
    let plan = e.sell_opposite_check(0, 100, 950, NEXT - 600).unwrap();
    assert_eq!(plan.winner, Side::Down);
    assert_eq!(plan.token_to_sell, 11);
}

#[test]
fn sell_opposite_needs_both_matched_and_unmerged() {
    let mut e = engine_with_state(live_config());
    e.apply_fill_report(0, true, false);
    assert!(e.sell_opposite_check(0, 960, 100, NEXT - 600).is_none());
    e.apply_fill_report(0, true, true);
    let _ = e.commit_sell_opposite(0, Side::Up, Some(300));
    assert!(e.sell_opposite_check(0, 960, 100, NEXT - 600).is_none());
}

#[test]
fn scenario_b_sell_opposite_books_loss_and_registers_winner() {
    // Both sides filled at 0.45; the up side trades at 0.97 with ten
    // minutes left.  The down side is sold at 0.03: loss (0.45-0.03)*5 =
    // 2.10, merged set, and the winner-only trade registered (live mode).
    let mut e = engine_with_state(live_config());
    e.apply_fill_report(0, true, true);
    let plan = e.sell_opposite_check(0, 970, 30, NEXT - 600).unwrap();
    assert_eq!(plan.winner, Side::Up);
    let loss = e.commit_sell_opposite(0, plan.winner, Some(30));
    assert_eq!(loss, Some(2100));
    assert_eq!(e.get_total_profit(), -2100);
    assert_eq!(e.get_period_profit(), 0);
    let s = e.state_snapshot(0).unwrap();
    assert!(s.merged);
    assert!(!s.risk_sold);
    let trades = e.books.trades_snapshot();
    assert_eq!(trades.len(), 1);
    let t = &trades[0];
    assert_eq!(t.condition_id, 7);
    assert_eq!(t.up_shares, 5);
    assert_eq!(t.down_shares, 0);
    assert_eq!(t.up_avg_price, 450);
    assert_eq!(t.down_avg_price, 0);
    assert_eq!(t.up_token_id, Some(11));
    assert_eq!(t.down_token_id, Some(12));
}

#[test]
fn sell_opposite_in_simulation_registers_nothing() {
    let mut c = live_config();
    c.strategy.simulation_mode = true;
    let mut e = engine_with_state(c);
    e.apply_fill_report(0, true, true);
    let loss = e.commit_sell_opposite(0, Side::Up, Some(30));
    assert_eq!(loss, Some(2100));
    assert!(e.books.trades_snapshot().is_empty());
}

#[test]
fn sell_opposite_failed_sale_books_nothing_but_merges() {
    let mut e = engine_with_state(live_config());
    e.apply_fill_report(0, true, true);
    let loss = e.commit_sell_opposite(0, Side::Up, None);
    assert_eq!(loss, None);
    assert_eq!(e.get_total_profit(), 0);
    assert!(e.state_snapshot(0).unwrap().merged);
}

#[test]
fn danger_time_mode_boundary_is_inclusive() {
    // one_side_matched_at = T0, threshold 30min: exactly T0 + 30min is in
    // danger.
    let mut c = live_config();
    c.strategy.signal.one_side_buy_risk_management = RiskMode::Time;
    c.strategy.signal.danger_time_passed = 30;
    let mut e = engine_with_state(c);
    e.apply_fill_report(0, true, false);
    let t0 = PERIOD + 10;
    e.note_one_side_matched(0, t0);
    assert!(!e.danger_candidate(0, t0 + 30 * 60 - 1, false));
    assert!(e.danger_candidate(0, t0 + 30 * 60, false));
}

#[test]
fn danger_price_mode_follows_external_verdict() {
    let mut c = live_config();
    c.strategy.signal.one_side_buy_risk_management = RiskMode::Price;
    let mut e = engine_with_state(c);
    e.apply_fill_report(0, true, false);
    assert!(e.danger_candidate(0, PERIOD + 10, true));
    assert!(!e.danger_candidate(0, PERIOD + 10, false));
}

#[test]
fn danger_needs_exactly_one_side() {
    let mut c = live_config();
    c.strategy.signal.one_side_buy_risk_management = RiskMode::Price;
    let mut e = engine_with_state(c);
    assert!(!e.danger_candidate(0, PERIOD + 10, true));
    e.apply_fill_report(0, true, true);
    assert!(!e.danger_candidate(0, PERIOD + 10, true));
}

#[test]
fn danger_disabled_mode_never_fires() {
    let mut c = live_config();
    c.strategy.signal.one_side_buy_risk_management = RiskMode::Disabled;
    let mut e = engine_with_state(c);
    e.apply_fill_report(0, true, false);
    e.note_one_side_matched(0, PERIOD + 10);
    assert!(!e.danger_candidate(0, PERIOD + 100_000, true));
}

#[test]
fn verify_fills_aborts_exit_when_both_filled() {
    let mut e = engine_with_state(live_config());
    e.apply_fill_report(0, true, false);
    assert!(e.verify_fills_before_risk_sell(0, true, false));
    assert!(!e.state_snapshot(0).unwrap().down_matched);
    assert!(!e.verify_fills_before_risk_sell(0, true, true));
    let s = e.state_snapshot(0).unwrap();
    assert!(s.up_matched && s.down_matched);
}

#[test]
fn risk_sell_books_loss_and_marks_record() {
    let mut c = live_config();
    c.strategy.signal.one_side_buy_risk_management = RiskMode::Price;
    let mut e = engine_with_state(c);
    e.apply_fill_report(0, true, false);
    assert!(e.risk_sell_due(0, PERIOD + 10, true));
    // Up side bought at 0.45, sold at 0.10: loss (0.45-0.10)*5 = 1.75.
    let loss = e.commit_risk_sell(0, Some(100));
    assert_eq!(loss, Some(1750));
    assert_eq!(e.get_total_profit(), -1750);
    let s = e.state_snapshot(0).unwrap();
    assert!(s.risk_sold);
    assert!(s.merged);
    // No trade is registered on a risk sell.
    assert!(e.books.trades_snapshot().is_empty());
    // Once risk-sold, no further early exit is due.
    assert!(!e.risk_sell_due(0, PERIOD + 20, true));
}

#[test]
fn expiry_clears_record_and_registers_held_pair() {
    let mut e = engine_with_state(live_config());
    e.apply_fill_report(0, true, true);
    assert!(!e.expire_if_due(0, NEXT));
    assert!(e.expire_if_due(0, NEXT + 1));
    assert!(e.state_snapshot(0).is_none());
    let trades = e.books.trades_snapshot();
    assert_eq!(trades.len(), 1);
    assert_eq!(trades[0].up_shares, 5);
    assert_eq!(trades[0].down_shares, 5);
    assert_eq!(trades[0].up_avg_price, 450);
    assert_eq!(trades[0].down_avg_price, 450);
}

#[test]
fn expiry_of_merged_record_registers_nothing_again() {
    let mut e = engine_with_state(live_config());
    e.apply_fill_report(0, true, true);
    let _ = e.commit_sell_opposite(0, Side::Up, Some(30));
    assert_eq!(e.books.trades_snapshot().len(), 1);
    assert!(e.expire_if_due(0, NEXT + 1));
    // Still only the merge-time registration.
    assert_eq!(e.books.trades_snapshot().len(), 1);
    assert_eq!(e.books.trades_snapshot()[0].down_shares, 0);
}

#[test]
fn expiry_of_one_sided_record_registers_nothing() {
    let mut e = engine_with_state(live_config());
    e.apply_fill_report(0, true, false);
    assert!(e.expire_if_due(0, NEXT + 1));
    assert!(e.books.trades_snapshot().is_empty());
}

#[test]
fn mid_market_window_needs_room_and_no_state() {
    let mut c = live_config();
    c.strategy.signal.one_side_buy_risk_management = RiskMode::Time;
    c.strategy.signal.danger_time_passed = 30;
    let mut e = PreLimitStrategy::new(c);
    // Remaining time is 1800s = 30min: above the 3min lead window and at
    // the 30min danger window.
    let now = PERIOD - 900;
    assert!(e.mid_market_window(0, now, PERIOD));
    // Exactly at the danger window boundary it still places.
    assert!(e.mid_market_window(0, PERIOD - 900, PERIOD));
    // Below the danger window it does not.
    assert!(!e.mid_market_window(0, PERIOD - 899, PERIOD));
    // Inside the pre-placement lead window it does not.
    assert!(!e.mid_market_window(0, NEXT - 180, PERIOD));
    // With a record present it does not.
    e.commit_preplacement(0, 7, 11, 12, None, None, PERIOD - 1000, PERIOD);
    assert!(!e.mid_market_window(0, now, PERIOD));
}

#[test]
fn mid_market_commit_records_current_period() {
    let mut e = PreLimitStrategy::new(live_config());
    let now = PERIOD + 60;
    e.commit_mid_market(0, 9, 21, 22, Some(301), Some(302), 400, 580, now, PERIOD);
    let s = e.state_snapshot(0).unwrap();
    assert_eq!(s.market_period_start, PERIOD);
    assert_eq!(s.expiry, NEXT);
    assert_eq!(s.up_order_price, 400);
    assert_eq!(s.down_order_price, 580);
    assert_eq!(s.condition_id, 9);
}

#[test]
fn two_assets_keep_separate_records() {
    let mut e = PreLimitStrategy::new(live_config());
    e.commit_preplacement(0, 7, 11, 12, None, None, PERIOD - 120, PERIOD);
    e.commit_preplacement(1, 8, 13, 14, None, None, PERIOD - 120, PERIOD);
    e.apply_fill_report(0, true, true);
    assert!(e.state_snapshot(0).unwrap().up_matched);
    assert!(!e.state_snapshot(1).unwrap().up_matched);
    assert_eq!(e.state_snapshot(0).unwrap().asset, 0);
    assert_eq!(e.state_snapshot(1).unwrap().asset, 1);
}

#[test]
fn status_projection_reads_without_mutating() {
    let mut e = engine_with_state(live_config());
    e.apply_fill_report(0, true, false);
    let line = e.status_projection(0, PERIOD + 100).unwrap();
    assert_eq!(line.market_period_start, PERIOD);
    assert_eq!(line.minutes, 13);
    assert_eq!(line.seconds, 20);
    assert!(line.up_matched);
    assert!(!line.down_matched);
    // Past the period end the countdown reads zero.
    let line = e.status_projection(0, NEXT + 5).unwrap();
    assert_eq!((line.minutes, line.seconds), (0, 0));
    assert!(e.status_projection(1, PERIOD).is_none());
}
