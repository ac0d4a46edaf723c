use prelimit::discovery::{DiscoveryError, MarketDiscovery, MarketToken};

fn token(id: u64, outcome: &str) -> MarketToken {
    MarketToken { token_id: id, outcome: String::from(outcome), winner: false }
}

#[test]
fn build_15m_slug_format() {
    assert_eq!(
        MarketDiscovery::build_15m_slug("BTC", 1700000000),
        "btc-updown-15m-1700000000"
    );
    assert_eq!(MarketDiscovery::build_15m_slug("eth", 900), "eth-updown-15m-900");
}

#[test]
fn build_1h_slug_format() {
    // 1700000000 is 2023-11-14 22:13:20 UTC, i.e. 17:13:20 Eastern (EST);
    // the hour period renders as 5pm.
    assert_eq!(
        MarketDiscovery::build_1h_slug("bitcoin", 1700000000),
        "bitcoin-up-or-down-november-14-5pm-et"
    );
    // 1688212800 is 2023-07-01 12:00:00 UTC, i.e. 8:00 am Eastern (EDT).
    assert_eq!(
        MarketDiscovery::build_1h_slug("ethereum", 1688212800),
        "ethereum-up-or-down-july-1-8am-et"
    );
}

#[test]
fn period_floor_15m_known_instant() {
    // 17:13:20 Eastern floors to 17:00, which is 1700000000 - 13*60 - 20.
    assert_eq!(MarketDiscovery::period_floor_15m_at(1700000000), Some(1699999200));
    // A boundary instant floors to itself.
    assert_eq!(MarketDiscovery::period_floor_15m_at(1699999200), Some(1699999200));
}

#[test]
fn period_floor_1h_known_instant() {
    assert_eq!(MarketDiscovery::period_floor_1h_at(1700000000), Some(1699999200));
    // 17:59:59 Eastern floors to 17:00 as well.
    assert_eq!(MarketDiscovery::period_floor_1h_at(1700002799), Some(1699999200));
}

#[test]
fn current_15m_period_start_is_recent_boundary() {
    let now = std::time::SystemTime::now()
        .duration_since(std::time::UNIX_EPOCH)
        .unwrap()
        .as_secs() as i64;
    let start = MarketDiscovery::current_15m_period_start_et().unwrap();
    assert_eq!(start % 60, 0);
    assert!(start <= now);
    assert!(start > now - 2 * 900);
}

#[test]
fn market_tokens_up_and_down() {
    let tokens = vec![token(11, "Up"), token(12, "Down")];
    assert_eq!(MarketDiscovery::get_market_tokens(&tokens), Ok((11, 12)));
}

#[test]
fn market_tokens_numeric_labels() {
    let tokens = vec![token(5, "0"), token(4, "1")];
    assert_eq!(MarketDiscovery::get_market_tokens(&tokens), Ok((4, 5)));
}

#[test]
fn market_tokens_case_insensitive_and_substring() {
    let tokens = vec![token(1, "bitcoin up"), token(2, "bitcoin down")];
    assert_eq!(MarketDiscovery::get_market_tokens(&tokens), Ok((1, 2)));
}

#[test]
fn market_tokens_updown_label_counts_as_up() {
    let tokens = vec![token(1, "updown"), token(2, "down")];
    assert_eq!(MarketDiscovery::get_market_tokens(&tokens), Ok((1, 2)));
}

#[test]
fn market_tokens_last_match_wins() {
    let tokens = vec![token(1, "Up"), token(2, "Down"), token(3, "UP")];
    assert_eq!(MarketDiscovery::get_market_tokens(&tokens), Ok((3, 2)));
}

#[test]
fn market_tokens_missing_up() {
    let tokens = vec![token(2, "Down")];
    assert_eq!(
        MarketDiscovery::get_market_tokens(&tokens),
        Err(DiscoveryError::UpTokenNotFound)
    );
    assert_eq!(
        MarketDiscovery::get_market_tokens(&Vec::new()),
        Err(DiscoveryError::UpTokenNotFound)
    );
}

#[test]
fn market_tokens_missing_down() {
    let tokens = vec![token(1, "Up")];
    assert_eq!(
        MarketDiscovery::get_market_tokens(&tokens),
        Err(DiscoveryError::DownTokenNotFound)
    );
}
