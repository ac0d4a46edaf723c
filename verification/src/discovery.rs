//! Market discovery: period boundaries, market slugs, and outcome-token
//! classification.
//!
//! Period boundaries live in the exchange's calendar (America/New_York); the
//! conversions go through the trusted clock wrappers and everything around
//! them is verified.  The market lookup itself is an exchange call made by
//! the surrounding application, which hands the token list back to
//! [`MarketDiscovery::get_market_tokens`].
use vstd::prelude::*;
use vstd::string::{StrSliceExecFns, StringExecFns, StringSliceAdditionalSpecFns};

use crate::ascii::{
    lemma_dec_bytes_ascii, lemma_dec_digits_ascii, i64_to_dec_bytes, spec_chars_of_bytes,
    spec_contains_bytes, spec_dec_bytes, spec_dec_digits, spec_lower_bytes, spec_upper_bytes,
    contains_bytes, string_from_ascii, to_lower_bytes, to_upper_bytes, bytes_eq, u64_to_dec_bytes,
};
use crate::clock::{et_civil, et_civil_of, et_instant, et_instant_of, now_timestamp};
use crate::MAX_TS;

verus! {

/// Why a market's outcome tokens could not be classified.
#[derive(Clone, Copy, Debug, PartialEq, Eq, Structural)]
pub enum DiscoveryError {
    /// No outcome label matched the up side.
    UpTokenNotFound,
    /// No outcome label matched the down side.
    DownTokenNotFound,
}

/// One outcome token of a market, as the exchange reports it.
#[derive(Clone, Debug)]
pub struct MarketToken {
    pub token_id: u64,
    /// Outcome label, such as "Up" or "Down".
    pub outcome: String,
    /// Whether the exchange has flagged this outcome as the winner.
    pub winner: bool,
}

/// Resolves markets and their outcome tokens.
pub struct MarketDiscovery {}

/// Whether an outcome label names the up side: upper-cased it contains "UP"
/// or equals "1".
pub open spec fn spec_is_up_label(l: Seq<char>) -> bool {
    let u = spec_upper_bytes(vstd::utf8::encode_utf8(l));
    spec_contains_bytes(u, "UP".spec_bytes()) || u == "1".spec_bytes()
}

/// Whether an outcome label names the down side: not the up side, and
/// upper-cased it contains "DOWN" or equals "0".
pub open spec fn spec_is_down_label(l: Seq<char>) -> bool {
    let u = spec_upper_bytes(vstd::utf8::encode_utf8(l));
    !spec_is_up_label(l) && (spec_contains_bytes(u, "DOWN".spec_bytes()) || u == "0".spec_bytes())
}

/// Token id of the last token whose label names the up side.
pub open spec fn spec_up_token(s: Seq<MarketToken>) -> Option<u64>
    decreases s.len(),
{
    if s.len() == 0 {
        None
    } else if spec_is_up_label(s.last().outcome@) {
        Some(s.last().token_id)
    } else {
        spec_up_token(s.drop_last())
    }
}

/// Token id of the last token whose label names the down side.
pub open spec fn spec_down_token(s: Seq<MarketToken>) -> Option<u64>
    decreases s.len(),
{
    if s.len() == 0 {
        None
    } else if spec_is_down_label(s.last().outcome@) {
        Some(s.last().token_id)
    } else {
        spec_down_token(s.drop_last())
    }
}

/// The up and down token ids of a token list, or the error naming the
/// missing side (the up side is reported first).
pub open spec fn spec_market_tokens(s: Seq<MarketToken>) -> Result<(u64, u64), DiscoveryError> {
    match (spec_up_token(s), spec_down_token(s)) {
        (Some(u), Some(d)) => Ok((u, d)),
        (None, _) => Err(DiscoveryError::UpTokenNotFound),
        (Some(_), None) => Err(DiscoveryError::DownTokenNotFound),
    }
}

/// Whether `l` names the up side.
fn is_up_label(l: &str) -> (r: bool)
    ensures
        r == spec_is_up_label(l@),
{
    let u = to_upper_bytes(l.as_bytes());
    contains_bytes(u.as_slice(), "UP".as_bytes()) || bytes_eq(u.as_slice(), "1".as_bytes())
}

/// Whether `l` names the down side.
fn is_down_label(l: &str) -> (r: bool)
    ensures
        r == spec_is_down_label(l@),
{
    let u = to_upper_bytes(l.as_bytes());
    !is_up_label(l) && (contains_bytes(u.as_slice(), "DOWN".as_bytes()) || bytes_eq(
        u.as_slice(),
        "0".as_bytes(),
    ))
}

impl MarketDiscovery {
    pub fn new() -> (r: MarketDiscovery) {
        MarketDiscovery {  }
    }

    /// Classifies a market's outcome tokens into (up token id, down token
    /// id); when several labels match a side, the last one wins.
    pub fn get_market_tokens(tokens: &Vec<MarketToken>) -> (r: Result<(u64, u64), DiscoveryError>)
        ensures
            r == spec_market_tokens(tokens@),
    {
        let mut up: Option<u64> = None;
        let mut down: Option<u64> = None;
        let mut i: usize = 0;
        while i < tokens.len()
            invariant
                i <= tokens@.len(),
                up == spec_up_token(tokens@.subrange(0, i as int)),
                down == spec_down_token(tokens@.subrange(0, i as int)),
            decreases tokens@.len() - i,
        {
            let ghost prefix = tokens@.subrange(0, i as int);
            let t = &tokens[i];
            if is_up_label(t.outcome.as_str()) {
                up = Some(t.token_id);
            } else if is_down_label(t.outcome.as_str()) {
                down = Some(t.token_id);
            }
            i = i + 1;
            proof {
                let ext = tokens@.subrange(0, i as int);
                assert(ext.drop_last() =~= prefix);
                assert(ext.last() == tokens@[i - 1]);
            }
        }
        proof {
            assert(tokens@.subrange(0, tokens@.len() as int) =~= tokens@);
        }
        match (up, down) {
            (Some(u), Some(d)) => Ok((u, d)),
            (None, _) => Err(DiscoveryError::UpTokenNotFound),
            (Some(_), None) => Err(DiscoveryError::DownTokenNotFound),
        }
    }

    /// Slug of a 15-minute market: the lower-cased ticker, "-updown-15m-",
    /// and the period start timestamp.
    pub fn build_15m_slug(asset_ticker: &str, period_start_et: i64) -> (r: String)
        requires
            asset_ticker.is_ascii(),
            period_start_et > i64::MIN,
        ensures
            r@ == spec_chars_of_bytes(spec_lower_bytes(asset_ticker.spec_bytes()))
                + "-updown-15m-"@ + spec_chars_of_bytes(
                spec_dec_bytes(period_start_et as int),
            ),
    {
        proof {
            vstd::string::is_ascii_spec_bytes(asset_ticker);
            vstd::utf8::is_ascii_chars_nat_bound(asset_ticker@);
        }
        let lower = to_lower_bytes(asset_ticker.as_bytes());
        let mut s = string_from_ascii(lower);
        s.append("-updown-15m-");
        let dec = i64_to_dec_bytes(period_start_et);
        proof {
            lemma_dec_bytes_ascii(period_start_et as int);
        }
        let tail = string_from_ascii(dec);
        s.append(tail.as_str());
        s
    }

    /// English month name of a month number; out-of-range numbers fall back
    /// to January, as the slug format never leaves them meaningful.
    fn month_name(m: u32) -> (r: &'static str)
        ensures
            r@ == spec_month_name(m as int),
    {
        match m {
            1 => "january",
            2 => "february",
            3 => "march",
            4 => "april",
            5 => "may",
            6 => "june",
            7 => "july",
            8 => "august",
            9 => "september",
            10 => "october",
            11 => "november",
            12 => "december",
            _ => "january",
        }
    }

    /// Slug of a one-hour market: the asset slug, "-up-or-down-", and the
    /// Eastern-Time month name, day and 12-hour clock time of the period
    /// start.
    pub fn build_1h_slug(asset_slug: &str, period_start_et: i64) -> (r: String)
        requires
            0 <= period_start_et <= MAX_TS,
        ensures
            r@ == spec_slug_1h(asset_slug@, period_start_et as int),
    {
        let (_y, mo, d, h, _mi) = et_civil(period_start_et);
        let mut s = String::from_str(asset_slug);
        s.append("-up-or-down-");
        s.append(Self::month_name(mo));
        s.append("-");
        let day_digits = u64_to_dec_bytes(d as u64);
        proof {
            lemma_dec_digits_ascii(d as nat);
        }
        let day = string_from_ascii(day_digits);
        s.append(day.as_str());
        s.append("-");
        let (h12, pm) = if h == 0 {
            (12u32, false)
        } else if h <= 11 {
            (h, false)
        } else if h == 12 {
            (12u32, true)
        } else {
            (h - 12, true)
        };
        let hour_digits = u64_to_dec_bytes(h12 as u64);
        proof {
            lemma_dec_digits_ascii(h12 as nat);
        }
        let hour = string_from_ascii(hour_digits);
        s.append(hour.as_str());
        s.append(if pm {
            "pm"
        } else {
            "am"
        });
        s.append("-et");
        s
    }

    /// Start of the 15-minute period containing `now`: the Eastern-Time
    /// civil time of `now` with its minute floored to a quarter hour.
    pub fn period_floor_15m_at(now: i64) -> (r: Option<i64>)
        requires
            0 <= now <= MAX_TS,
        ensures
            match r {
                Some(t) => spec_period_floor_15m(now as int) == Some(t as int),
                None => spec_period_floor_15m(now as int) is None,
            },
    {
        let (y, mo, d, h, mi) = et_civil(now);
        et_instant(y, mo, d, h, (mi / 15) * 15)
    }

    /// Start of the hour period containing `now`, in Eastern Time.
    pub fn period_floor_1h_at(now: i64) -> (r: Option<i64>)
        requires
            0 <= now <= MAX_TS,
        ensures
            match r {
                Some(t) => spec_period_floor_1h(now as int) == Some(t as int),
                None => spec_period_floor_1h(now as int) is None,
            },
    {
        let (y, mo, d, h, _mi) = et_civil(now);
        et_instant(y, mo, d, h, 0)
    }

    /// Start of the current 15-minute period (Eastern Time), from the wall
    /// clock; `None` when the clock is out of range or the local time is
    /// ambiguous.
    pub fn current_15m_period_start_et() -> (r: Option<i64>)
        ensures
            r matches Some(t) ==> exists|n: int|
                0 <= n <= MAX_TS && #[trigger] spec_period_floor_15m(n) == Some(t as int),
    {
        let now = now_timestamp();
        if now < 0 || now > MAX_TS {
            return None;
        }
        let r = Self::period_floor_15m_at(now);
        proof {
            if r is Some {
                assert(spec_period_floor_15m(now as int) == Some(r.unwrap() as int));
            }
        }
        r
    }

    /// Start of the current hour period (Eastern Time), from the wall
    /// clock.
    pub fn current_1h_period_start_et() -> (r: Option<i64>)
        ensures
            r matches Some(t) ==> exists|n: int|
                0 <= n <= MAX_TS && #[trigger] spec_period_floor_1h(n) == Some(t as int),
    {
        let now = now_timestamp();
        if now < 0 || now > MAX_TS {
            return None;
        }
        let r = Self::period_floor_1h_at(now);
        proof {
            if r is Some {
                assert(spec_period_floor_1h(now as int) == Some(r.unwrap() as int));
            }
        }
        r
    }
}

/// The 15-minute period boundary at or before an instant, through the
/// Eastern-Time calendar.
pub open spec fn spec_period_floor_15m(now: int) -> Option<int> {
    let c = et_civil_of(now);
    et_instant_of(c.0, c.1, c.2, c.3, (c.4 / 15) * 15)
}

/// The hour boundary at or before an instant, through the Eastern-Time
/// calendar.
pub open spec fn spec_period_floor_1h(now: int) -> Option<int> {
    let c = et_civil_of(now);
    et_instant_of(c.0, c.1, c.2, c.3, 0)
}

/// The month name used in one-hour slugs.
pub open spec fn spec_month_name(m: int) -> Seq<char> {
    if m == 1 {
        "january"@
    } else if m == 2 {
        "february"@
    } else if m == 3 {
        "march"@
    } else if m == 4 {
        "april"@
    } else if m == 5 {
        "may"@
    } else if m == 6 {
        "june"@
    } else if m == 7 {
        "july"@
    } else if m == 8 {
        "august"@
    } else if m == 9 {
        "september"@
    } else if m == 10 {
        "october"@
    } else if m == 11 {
        "november"@
    } else if m == 12 {
        "december"@
    } else {
        "january"@
    }
}

/// A 24-hour clock hour on the 12-hour clock.
pub open spec fn spec_hour12(h24: int) -> int {
    if h24 == 0 {
        12
    } else if 1 <= h24 <= 11 {
        h24
    } else if h24 == 12 {
        12
    } else {
        h24 - 12
    }
}

/// The "am"/"pm" marker of a 24-hour clock hour.
pub open spec fn spec_ampm(h24: int) -> Seq<char> {
    if h24 < 12 {
        "am"@
    } else {
        "pm"@
    }
}

/// The one-hour market slug of an instant, over its Eastern-Time calendar
/// fields.
pub open spec fn spec_slug_1h(asset_slug: Seq<char>, ts: int) -> Seq<char> {
    let c = et_civil_of(ts);
    asset_slug + "-up-or-down-"@ + spec_month_name(c.1) + "-"@ + spec_chars_of_bytes(
        spec_dec_digits(c.2 as nat),
    ) + "-"@ + spec_chars_of_bytes(spec_dec_digits(spec_hour12(c.3) as nat)) + spec_ampm(c.3)
        + "-et"@
}

} // verus!
