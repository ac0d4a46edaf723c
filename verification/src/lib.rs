//! Hedged order placement for short-duration two-outcome prediction markets.
//!
//! The library holds the verified core of the strategy: the per-asset order
//! lifecycle state machine, fill tracking, risk-mitigation decisions, and the
//! redemption reconciliation pass.  Prices are fixed-point mills (thousandths
//! of a dollar), timestamps are Unix seconds.  Exchange and discovery calls
//! are made by the surrounding application, which feeds their results into
//! the decision functions here.
use vstd::prelude::*;

pub mod ascii;
pub mod books;
pub mod clock;
pub mod config;
pub mod discovery;
pub mod engine;
pub mod price;
pub mod signal;
pub mod state;

verus! {

/// Length of one 15-minute market period, in seconds.
pub const MARKET_DURATION_SECS: i64 = 900;

/// Length of one 15-minute market period, in seconds, unsigned.
pub const MARKET_DURATION_SECS_U64: u64 = 900;

/// Latest timestamp the library reasons about (start of year 10000).
pub const MAX_TS: i64 = 253402300800;

} // verus!
