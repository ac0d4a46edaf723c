//! Fixed-point prices.
//!
//! A price is a number of mills (thousandths of a dollar); a whole share pays
//! out `PRICE_SCALE` mills when its outcome wins.  Order prices are rounded
//! to the nearest cent and clamped to [0.01, 0.99], i.e. [10, 990] mills.
use vstd::prelude::*;

verus! {

/// Mills per dollar: one share of a winning outcome pays this much.
pub const PRICE_SCALE: u64 = 1000;

/// Lowest order price: one cent.
pub const PRICE_MIN: u64 = 10;

/// Highest order price: 99 cents.
pub const PRICE_MAX: u64 = 990;

/// Price of the two-sided mid-market pair: 98 cents, split between the sides.
pub const PAIR_TARGET: i64 = 980;

/// Rounds a price in mills to the nearest cent (half away from zero) and
/// clamps it to [PRICE_MIN, PRICE_MAX].
pub open spec fn spec_round_price(p: int) -> int {
    let cents10 = if p >= 0 {
        ((p + 5) / 10) * 10
    } else {
        0
    };
    if cents10 < PRICE_MIN {
        PRICE_MIN as int
    } else if cents10 > PRICE_MAX {
        PRICE_MAX as int
    } else {
        cents10
    }
}

/// Rounds a price to the nearest cent and clamps it to [0.01, 0.99].
pub fn round_price(p: i64) -> (r: u64)
    requires
        p < i64::MAX - 5,
    ensures
        r == spec_round_price(p as int),
        PRICE_MIN <= r <= PRICE_MAX,
{
    if p < 10 {
        PRICE_MIN
    } else {
        let cents10 = ((p + 5) / 10) * 10;
        if cents10 > PRICE_MAX as i64 {
            PRICE_MAX
        } else {
            cents10 as u64
        }
    }
}

/// A resting buy order at `limit` is treated as filled once the market price
/// is at or below the limit.  (A sub-mill closeness tolerance would collapse
/// to equality at mill resolution, so none is needed.)
pub open spec fn spec_price_hits_limit(price: int, limit: int) -> bool {
    price <= limit
}

/// Whether a market price at `price` fills a resting buy order at `limit`.
pub fn price_hits_limit(price: u64, limit: u64) -> (r: bool)
    ensures
        r == spec_price_hits_limit(price as int, limit as int),
{
    price <= limit
}

/// Mid-market pair pricing: the cheaper side at its market price, the other
/// side at the 98-cent pair target minus that price, both rounded and
/// clamped.  Result is (up order price, down order price).
pub open spec fn spec_mid_market_prices(up_price: int, down_price: int) -> (int, int) {
    if up_price <= down_price {
        (spec_round_price(up_price), spec_round_price(PAIR_TARGET - up_price))
    } else {
        (spec_round_price(PAIR_TARGET - down_price), spec_round_price(down_price))
    }
}

/// Prices the two sides of a mid-market pair from their current market
/// prices, in mills.
pub fn mid_market_prices(up_price: u64, down_price: u64) -> (r: (u64, u64))
    requires
        up_price <= PRICE_SCALE,
        down_price <= PRICE_SCALE,
    ensures
        (r.0 as int, r.1 as int) == spec_mid_market_prices(up_price as int, down_price as int),
        PRICE_MIN <= r.0 <= PRICE_MAX,
        PRICE_MIN <= r.1 <= PRICE_MAX,
{
    if up_price <= down_price {
        (round_price(up_price as i64), round_price(PAIR_TARGET - up_price as i64))
    } else {
        (round_price(PAIR_TARGET - down_price as i64), round_price(down_price as i64))
    }
}

} // verus!
