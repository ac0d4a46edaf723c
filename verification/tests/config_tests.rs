use prelimit::config::{
    default_clear_remaining_mins, default_danger_time_passed,
    default_market_closure_check_interval_seconds, default_one_side_buy_risk_management,
    default_sell_opposite_above, default_sell_opposite_time_remaining, default_stable_max,
    default_stable_min, default_true, Config,
};
use prelimit::signal::RiskMode;

#[test]
fn stock_configuration_values() {
    let c = Config::default();
    assert_eq!(c.strategy.price_limit, 450);
    assert_eq!(c.strategy.shares, 5);
    assert_eq!(c.strategy.place_order_before_mins, 3);
    assert_eq!(c.strategy.check_interval_ms, 2000);
    assert!(!c.strategy.simulation_mode);
    assert_eq!(c.strategy.sell_opposite_above, 950);
    assert_eq!(c.strategy.sell_opposite_time_remaining, 15);
    assert_eq!(c.strategy.market_closure_check_interval_seconds, 120);
    // The stock signal block is all zeros: per-field defaults apply only
    // to fields missing from a configuration file.
    assert!(!c.strategy.signal.enabled);
    assert_eq!(c.strategy.signal.one_side_buy_risk_management, RiskMode::Disabled);
    assert!(!c.strategy.signal.mid_market_enabled);
    assert!(c.check_wf());
}

#[test]
fn serde_field_defaults() {
    assert!(default_true());
    assert_eq!(default_stable_min(), 350);
    assert_eq!(default_stable_max(), 650);
    assert_eq!(default_clear_remaining_mins(), 15);
    assert_eq!(default_danger_time_passed(), 30);
    assert_eq!(default_one_side_buy_risk_management(), RiskMode::Price);
    assert_eq!(default_sell_opposite_above(), 950);
    assert_eq!(default_sell_opposite_time_remaining(), 15);
    assert_eq!(default_market_closure_check_interval_seconds(), 120);
}

#[test]
fn out_of_range_configuration_is_rejected() {
    let mut c = Config::default();
    c.strategy.price_limit = 1001;
    assert!(!c.check_wf());
    let mut c = Config::default();
    c.strategy.shares = 1_000_000_001;
    assert!(!c.check_wf());
}
