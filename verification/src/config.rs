//! Configuration model.
//!
//! Prices are mills (thousandths of a dollar); shares are whole shares.
//! The free-form risk-management word of the configuration file is validated
//! into [`RiskMode`] when the file is loaded, before any tick runs.
use vstd::prelude::*;
use vstd::string::StringExecFns;

use crate::signal::RiskMode;

verus! {

/// Largest share count the bookkeeping reasons about.
pub const MAX_SHARES: u64 = 1_000_000_000;

/// Largest minute count accepted for the configured time windows.
pub const MAX_MINS: u64 = 1_000_000;

/// Command-line arguments.
pub struct Args {
    /// Path of the configuration file.
    pub config: String,
    /// Redeem-only mode: claim resolved positions and exit.
    pub redeem: bool,
    /// Single condition id to redeem in redeem-only mode.
    pub condition_id: Option<String>,
}

/// Connection and credential settings for the exchange.
pub struct PolymarketConfig {
    pub gamma_api_url: String,
    pub clob_api_url: String,
    pub api_key: Option<String>,
    pub api_secret: Option<String>,
    pub api_passphrase: Option<String>,
    pub private_key: Option<String>,
    pub proxy_wallet_address: Option<String>,
    pub signature_type: Option<u8>,
}

/// Signal thresholds and the early-exit mode.
pub struct SignalConfig {
    pub enabled: bool,
    /// Lower bound of the stable price band, in mills.
    pub stable_min: u64,
    /// Upper bound of the stable price band, in mills.
    pub stable_max: u64,
    /// Price that counts as a clear winner, in mills.
    pub clear_threshold: u64,
    pub clear_remaining_mins: u64,
    /// Price at or below which a matched side is in danger, in mills.
    pub danger_price: u64,
    /// Minutes a position may stay one-sided before the time mode exits.
    pub danger_time_passed: u64,
    pub one_side_buy_risk_management: RiskMode,
    pub mid_market_enabled: bool,
}

/// Strategy parameters.
pub struct StrategyConfig {
    /// Limit price of each pre-placed order, in mills.
    pub price_limit: u64,
    /// Shares bought per side.
    pub shares: u64,
    /// Lead time before the next period in which orders are pre-placed.
    pub place_order_before_mins: u64,
    pub check_interval_ms: u64,
    pub simulation_mode: bool,
    pub signal: SignalConfig,
    /// Sell-opposite price threshold, in mills.
    pub sell_opposite_above: u64,
    /// Largest remaining time, in minutes, at which sell-opposite fires.
    pub sell_opposite_time_remaining: u64,
    pub market_closure_check_interval_seconds: u64,
}

/// Full configuration.
pub struct Config {
    pub polymarket: PolymarketConfig,
    pub strategy: StrategyConfig,
}

impl SignalConfig {
    /// Prices within scale and time windows small enough for the period
    /// arithmetic.
    pub open spec fn wf(&self) -> bool {
        &&& self.stable_min <= crate::price::PRICE_SCALE
        &&& self.stable_max <= crate::price::PRICE_SCALE
        &&& self.clear_threshold <= crate::price::PRICE_SCALE
        &&& self.danger_price <= crate::price::PRICE_SCALE
        &&& self.clear_remaining_mins <= MAX_MINS
        &&& self.danger_time_passed <= MAX_MINS
    }
}

impl StrategyConfig {
    /// Prices within scale, bounded shares, bounded time windows.
    pub open spec fn wf(&self) -> bool {
        &&& self.price_limit <= crate::price::PRICE_SCALE
        &&& self.sell_opposite_above <= crate::price::PRICE_SCALE
        &&& self.shares <= MAX_SHARES
        &&& self.place_order_before_mins <= MAX_MINS
        &&& self.sell_opposite_time_remaining <= MAX_MINS
        &&& self.signal.wf()
    }
}

impl Config {
    pub open spec fn wf(&self) -> bool {
        self.strategy.wf()
    }

    /// Whether every numeric field is within the bounds the bookkeeping
    /// needs; loading rejects a configuration for which this is false.
    pub fn check_wf(&self) -> (r: bool)
        ensures
            r == self.wf(),
    {
        let s = &self.strategy;
        s.price_limit <= crate::price::PRICE_SCALE && s.sell_opposite_above
            <= crate::price::PRICE_SCALE && s.shares <= MAX_SHARES && s.place_order_before_mins
            <= MAX_MINS && s.sell_opposite_time_remaining <= MAX_MINS && s.signal.stable_min
            <= crate::price::PRICE_SCALE && s.signal.stable_max <= crate::price::PRICE_SCALE
            && s.signal.clear_threshold <= crate::price::PRICE_SCALE && s.signal.danger_price
            <= crate::price::PRICE_SCALE && s.signal.clear_remaining_mins <= MAX_MINS
            && s.signal.danger_time_passed <= MAX_MINS
    }
}

pub fn default_true() -> (r: bool)
    ensures
        r == true,
{
    true
}

/// Default lower bound of the stable band: 35 cents.
pub fn default_stable_min() -> (r: u64)
    ensures
        r == 350,
{
    350
}

/// Default upper bound of the stable band: 65 cents.
pub fn default_stable_max() -> (r: u64)
    ensures
        r == 650,
{
    650
}

/// Default clear-winner threshold: 99 cents.
pub fn default_clear_threshold() -> (r: u64)
    ensures
        r == 990,
{
    990
}

pub fn default_clear_remaining_mins() -> (r: u64)
    ensures
        r == 15,
{
    15
}

/// Default danger price: 15 cents.
pub fn default_danger_price() -> (r: u64)
    ensures
        r == 150,
{
    150
}

pub fn default_danger_time_passed() -> (r: u64)
    ensures
        r == 30,
{
    30
}

pub fn default_one_side_buy_risk_management() -> (r: RiskMode)
    ensures
        r == RiskMode::Price,
{
    RiskMode::Price
}

/// Default sell-opposite threshold: 95 cents.
pub fn default_sell_opposite_above() -> (r: u64)
    ensures
        r == 950,
{
    950
}

pub fn default_sell_opposite_time_remaining() -> (r: u64)
    ensures
        r == 15,
{
    15
}

pub fn default_market_closure_check_interval_seconds() -> (r: u64)
    ensures
        r == 120,
{
    120
}

impl Default for SignalConfig {
    /// All-zero signal settings: signals and mid-market placement disabled,
    /// early exit off.  The per-field defaults above apply only to fields
    /// missing from a configuration file.
    fn default() -> (r: Self)
        ensures
            r.enabled == false,
            r.stable_min == 0,
            r.stable_max == 0,
            r.clear_threshold == 0,
            r.clear_remaining_mins == 0,
            r.danger_price == 0,
            r.danger_time_passed == 0,
            r.one_side_buy_risk_management == RiskMode::Disabled,
            r.mid_market_enabled == false,
            r.wf(),
    {
        SignalConfig {
            enabled: false,
            stable_min: 0,
            stable_max: 0,
            clear_threshold: 0,
            clear_remaining_mins: 0,
            danger_price: 0,
            danger_time_passed: 0,
            one_side_buy_risk_management: RiskMode::Disabled,
            mid_market_enabled: false,
        }
    }
}

impl Default for Config {
    /// The stock configuration: 45-cent limit orders, five shares a side,
    /// three minutes of lead time, production endpoints and no credentials.
    fn default() -> (r: Self)
        ensures
            r.strategy.price_limit == 450,
            r.strategy.shares == 5,
            r.strategy.place_order_before_mins == 3,
            r.strategy.check_interval_ms == 2000,
            r.strategy.simulation_mode == false,
            r.strategy.sell_opposite_above == 950,
            r.strategy.sell_opposite_time_remaining == 15,
            r.strategy.market_closure_check_interval_seconds == 120,
            r.strategy.signal.enabled == false,
            r.strategy.signal.stable_min == 0,
            r.strategy.signal.stable_max == 0,
            r.strategy.signal.clear_threshold == 0,
            r.strategy.signal.clear_remaining_mins == 0,
            r.strategy.signal.danger_price == 0,
            r.strategy.signal.danger_time_passed == 0,
            r.strategy.signal.one_side_buy_risk_management == RiskMode::Disabled,
            r.strategy.signal.mid_market_enabled == false,
            r.polymarket.gamma_api_url@ == "https://gamma-api.polymarket.com"@,
            r.polymarket.clob_api_url@ == "https://clob.polymarket.com"@,
            r.polymarket.api_key is None,
            r.polymarket.api_secret is None,
            r.polymarket.api_passphrase is None,
            r.polymarket.private_key is None,
            r.polymarket.proxy_wallet_address is None,
            r.polymarket.signature_type is None,
            r.wf(),
    {
        Config {
            polymarket: PolymarketConfig {
                gamma_api_url: String::from_str("https://gamma-api.polymarket.com"),
                clob_api_url: String::from_str("https://clob.polymarket.com"),
                api_key: None,
                api_secret: None,
                api_passphrase: None,
                private_key: None,
                proxy_wallet_address: None,
                signature_type: None,
            },
            strategy: StrategyConfig {
                price_limit: 450,
                shares: 5,
                place_order_before_mins: 3,
                check_interval_ms: 2000,
                simulation_mode: false,
                signal: SignalConfig::default(),
                sell_opposite_above: 950,
                sell_opposite_time_remaining: 15,
                market_closure_check_interval_seconds: 120,
            },
        }
    }
}

} // verus!
