//! Context-window usage metrics: kilotoken figures back-computed from the
//! used percentage, and the integer percentage shown on the status line.

use vstd::prelude::*;
use crate::cost::spec_div_round_nearest;

verus! {

/// Default context-window size in tokens, used when the snapshot gives none.
pub const DEFAULT_CONTEXT_WINDOW: u64 = 200_000;

/// Context-window usage as decoded from a session snapshot. The used
/// fraction is held in signed parts per million of the window
/// (one percent is 10_000 units), unclamped: out-of-range readings pass
/// through unchanged.
pub struct ContextWindow {
    pub context_window_size: u64,
    pub used_ppm: i64,
}

/// The window size in tokens, with the fixed default substituted for a
/// missing (zero) size.
pub open spec fn spec_max_tokens(cw: &ContextWindow) -> int {
    if cw.context_window_size > 0 {
        cw.context_window_size as int
    } else {
        200_000
    }
}

/// The used token count, back-computed from the used fraction and rounded
/// to the nearest token; non-positive fractions give zero.
pub open spec fn spec_used_tokens(cw: &ContextWindow) -> int {
    if cw.used_ppm <= 0 {
        0
    } else {
        spec_div_round_nearest(spec_max_tokens(cw) * cw.used_ppm, 1_000_000)
    }
}

/// Used kilotokens: the used token count rounded once more, to the nearest
/// thousand.
pub open spec fn spec_used_k(cw: &ContextWindow) -> int {
    spec_div_round_nearest(spec_used_tokens(cw), 1000)
}

/// Window size in kilotokens, rounded to the nearest thousand.
pub open spec fn spec_max_k(cw: &ContextWindow) -> int {
    spec_div_round_nearest(spec_max_tokens(cw), 1000)
}

/// `n / d` rounded to the nearest integer, halves up, in wide arithmetic.
fn div_round_nearest_u128(n: u128, d: u128) -> (r: u128)
    requires
        d >= 2,
    ensures
        r == spec_div_round_nearest(n as int, d as int),
{
    let q: u128 = n / d;
    let rem: u128 = n % d;
    proof {
        vstd::arithmetic::div_mod::lemma_div_is_ordered_by_denominator(n as int, 2, d as int);
    }
    if rem >= d - rem {
        q + 1
    } else {
        q
    }
}

impl ContextWindow {
    /// Display metrics `(used kilotokens, max kilotokens, used ppm)`.
    ///
    /// The used token count is rounded once at token granularity and once at
    /// kilotoken granularity; the used-kilotoken figure saturates at
    /// `u64::MAX`. The used fraction is passed through unchanged.
    pub fn stats(&self) -> (r: (u64, u64, i64))
        ensures
            r.0 == if spec_used_k(self) > u64::MAX {
                u64::MAX as int
            } else {
                spec_used_k(self)
            },
            r.1 == spec_max_k(self),
            r.2 == self.used_ppm,
    {
        let max: u64 = if self.context_window_size > 0 {
            self.context_window_size
        } else {
            DEFAULT_CONTEXT_WINDOW
        };
        let used_tokens: u128 = if self.used_ppm <= 0 {
            0
        } else {
            proof {
                vstd::arithmetic::mul::lemma_mul_upper_bound(
                    max as int,
                    u64::MAX as int,
                    self.used_ppm as int,
                    i64::MAX as int,
                );
            }
            let prod: u128 = (max as u128) * (self.used_ppm as u128);
            div_round_nearest_u128(prod, 1_000_000)
        };
        let used_k_wide: u128 = div_round_nearest_u128(used_tokens, 1000);
        let used_k: u64 = if used_k_wide > u64::MAX as u128 {
            u64::MAX
        } else {
            used_k_wide as u64
        };
        let max_k: u64 = div_round_nearest_u128(max as u128, 1000) as u64;
        (used_k, max_k, self.used_ppm)
    }
}

impl Default for ContextWindow {
    /// The default usage: no size (the fixed default applies) and nothing
    /// used.
    fn default() -> (r: ContextWindow)
        ensures
            r.context_window_size == 0,
            r.used_ppm == 0,
    {
        ContextWindow { context_window_size: 0, used_ppm: 0 }
    }
}

/// `n / d` rounded to the nearest integer with halves to even, for a
/// non-negative dividend and even positive divisor.
pub open spec fn spec_div_round_half_even(n: int, d: int) -> int
    recommends
        n >= 0,
        d >= 2,
        d % 2 == 0,
{
    let q = n / d;
    let rem = n % d;
    if 2 * rem > d {
        q + 1
    } else if 2 * rem == d {
        q + q % 2
    } else {
        q
    }
}

/// The whole percentage shown on the status line: the used fraction
/// converted to percent and rounded to the nearest integer, halves to even;
/// negative fractions round by magnitude.
pub open spec fn spec_rounded_percent(ppm: int) -> int {
    if ppm >= 0 {
        spec_div_round_half_even(ppm, 10_000)
    } else {
        -spec_div_round_half_even(-ppm, 10_000)
    }
}

/// The used fraction as a whole percentage, rounded half-to-even.
pub fn rounded_percent(ppm: i64) -> (r: i64)
    ensures
        r == spec_rounded_percent(ppm as int),
{
    let neg: bool = ppm < 0;
    let m: u64 = if ppm < 0 {
        (-(ppm as i128)) as u64
    } else {
        ppm as u64
    };
    let q: u64 = m / 10_000;
    let rem: u64 = m % 10_000;
    let mag: u64 = if rem > 5_000 {
        q + 1
    } else if rem == 5_000 {
        q + q % 2
    } else {
        q
    };
    if neg {
        -(mag as i64)
    } else {
        mag as i64
    }
}

} // verus!
