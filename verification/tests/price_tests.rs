use prelimit::price::{mid_market_prices, price_hits_limit, round_price};

#[test]
fn round_price_clamps_low() {
    // 0.004 rounds to 0.00 and clamps up to 0.01.
    assert_eq!(round_price(4), 10);
}

#[test]
fn round_price_clamps_high() {
    // 0.997 rounds to 1.00 and clamps down to 0.99.
    assert_eq!(round_price(997), 990);
}

#[test]
fn round_price_rounds_to_nearest_cent() {
    // 0.456 rounds to 0.46.
    assert_eq!(round_price(456), 460);
}

#[test]
fn round_price_half_rounds_up() {
    // 0.455 rounds half away from zero to 0.46.
    assert_eq!(round_price(455), 460);
}

#[test]
fn round_price_zero_and_negative() {
    assert_eq!(round_price(0), 10);
    assert_eq!(round_price(-250), 10);
}

#[test]
fn round_price_interior_values() {
    assert_eq!(round_price(450), 450);
    assert_eq!(round_price(444), 440);
    assert_eq!(round_price(985), 990);
    assert_eq!(round_price(990), 990);
}

#[test]
fn mid_market_prices_up_cheaper() {
    // up=0.40 <= down=0.60: up at 0.40, down at round(0.98-0.40)=0.58.
    assert_eq!(mid_market_prices(400, 600), (400, 580));
}

#[test]
fn mid_market_prices_down_cheaper() {
    assert_eq!(mid_market_prices(700, 300), (680, 300));
}

#[test]
fn mid_market_prices_rounds_and_clamps() {
    // 0.98 - 0.004 = 0.976 rounds to 0.98, clamped nowhere; the cheap side
    // clamps up to 0.01.
    assert_eq!(mid_market_prices(4, 996), (10, 980));
}

#[test]
fn price_hits_limit_at_or_below() {
    assert!(price_hits_limit(450, 450));
    assert!(price_hits_limit(449, 450));
    assert!(!price_hits_limit(451, 450));
}
