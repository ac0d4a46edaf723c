use prelimit::signal::{parse_risk_mode, RiskMode};

#[test]
fn parse_risk_mode_price_words() {
    assert_eq!(parse_risk_mode("price"), RiskMode::Price);
    assert_eq!(parse_risk_mode("PRICE"), RiskMode::Price);
    assert_eq!(parse_risk_mode("Sell_At_Danger_Price"), RiskMode::Price);
}

#[test]
fn parse_risk_mode_time_words() {
    assert_eq!(parse_risk_mode("time"), RiskMode::Time);
    assert_eq!(parse_risk_mode("TIME"), RiskMode::Time);
    assert_eq!(parse_risk_mode("sell_after_danger_time_passed"), RiskMode::Time);
}

#[test]
fn parse_risk_mode_anything_else_disables() {
    assert_eq!(parse_risk_mode(""), RiskMode::Disabled);
    assert_eq!(parse_risk_mode("none"), RiskMode::Disabled);
    assert_eq!(parse_risk_mode("prices"), RiskMode::Disabled);
}
