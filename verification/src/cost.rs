//! Accumulated session cost: rounding to whole dollars and the severity
//! color attached to the rounded amount.

use vstd::prelude::*;

verus! {

/// Accumulated session cost, held in integral micro-dollars
/// (one dollar is 1_000_000 units); absent input defaults to zero.
pub struct Cost {
    pub total_micro_usd: u64,
}

/// `n / d` rounded to the nearest integer, halves rounded up,
/// for a non-negative dividend.
pub open spec fn spec_div_round_nearest(n: int, d: int) -> int
    recommends
        n >= 0,
        d > 0,
{
    n / d + if 2 * (n % d) >= d {
        1int
    } else {
        0int
    }
}

/// The cost in whole dollars, rounded to the nearest dollar.
pub open spec fn spec_cost_rounded(c: &Cost) -> int {
    spec_div_round_nearest(c.total_micro_usd as int, 1_000_000)
}

impl Cost {
    /// The cost rounded to the nearest whole dollar (halves up).
    pub fn rounded(&self) -> (r: i64)
        ensures
            r == spec_cost_rounded(self),
    {
        let q: u64 = self.total_micro_usd / 1_000_000;
        let rem: u64 = self.total_micro_usd % 1_000_000;
        let whole: u64 = if rem >= 500_000 {
            q + 1
        } else {
            q
        };
        whole as i64
    }
}

impl Default for Cost {
    /// The default cost: zero.
    fn default() -> (r: Cost)
        ensures
            r.total_micro_usd == 0,
    {
        Cost { total_micro_usd: 0 }
    }
}

/// The severity color for a rounded dollar amount: green for the low tier
/// (up to five dollars), yellow for the medium tier (six to twenty), orange
/// beyond twenty.
pub open spec fn spec_price_color(cost: int) -> (u8, u8, u8) {
    if cost <= 5 {
        (158u8, 206u8, 106u8)
    } else if cost <= 20 {
        (224u8, 175u8, 104u8)
    } else {
        (255u8, 158u8, 100u8)
    }
}

/// RGB color for the price, by cost tier.
pub fn price_color(cost: i64) -> (r: (u8, u8, u8))
    ensures
        r == spec_price_color(cost as int),
{
    if cost <= 5 {
        (158, 206, 106)
    } else if cost <= 20 {
        (224, 175, 104)
    } else {
        (255, 158, 100)
    }
}

} // verus!
