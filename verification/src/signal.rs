//! Signal verdicts and the risk-management mode selector.
//!
//! The signal heuristics themselves are external collaborators; the library
//! only fixes their verdict vocabulary and validates the free-form mode word
//! into a closed enumeration once, at configuration load.
use vstd::prelude::*;
use vstd::string::StringSliceAdditionalSpecFns;

use crate::ascii::{bytes_eq, spec_lower_bytes, to_lower_bytes};

verus! {

/// Placement verdict for a market period.
#[derive(Clone, Copy, Debug, PartialEq, Eq, Structural)]
pub enum MarketSignal {
    Good,
    Bad,
    Unknown,
}

/// How a one-sided position is exited early.
#[derive(Clone, Copy, Debug, PartialEq, Eq, Structural)]
pub enum RiskMode {
    /// Sell the matched side when its price reaches the danger threshold.
    Price,
    /// Sell the matched side once it has been one-sided for too long.
    Time,
    /// Never exit early.
    Disabled,
}

/// The mode word that selects each risk mode, compared after ASCII
/// lower-casing; any unrecognised word disables early exit.
pub open spec fn spec_parse_risk_mode(s: Seq<u8>) -> RiskMode {
    let l = spec_lower_bytes(s);
    if l == "price".spec_bytes() || l == "sell_at_danger_price".spec_bytes() {
        RiskMode::Price
    } else if l == "time".spec_bytes() || l == "sell_after_danger_time_passed".spec_bytes() {
        RiskMode::Time
    } else {
        RiskMode::Disabled
    }
}

/// Validates a configured risk-management mode word.
pub fn parse_risk_mode(s: &str) -> (m: RiskMode)
    ensures
        m == spec_parse_risk_mode(s.spec_bytes()),
{
    let low = to_lower_bytes(s.as_bytes());
    if bytes_eq(low.as_slice(), "price".as_bytes()) || bytes_eq(
        low.as_slice(),
        "sell_at_danger_price".as_bytes(),
    ) {
        RiskMode::Price
    } else if bytes_eq(low.as_slice(), "time".as_bytes()) || bytes_eq(
        low.as_slice(),
        "sell_after_danger_time_passed".as_bytes(),
    ) {
        RiskMode::Time
    } else {
        RiskMode::Disabled
    }
}

} // verus!
