//! The row of the table that stands for one rate limit.

use vstd::prelude::*;

verus! {

/// One token, in the unit in which tokens are counted.
///
/// The unit is 10^-27 of a token, and counts are `i128`: they go up to about
/// 1.7 * 10^11 tokens.
pub const TOKEN: i128 = 1_000_000_000_000_000_000_000_000_000;

/// One token per second, in the unit of refill rates.
///
/// The unit is 10^-21 of a token per second. At that rate one unit of tokens comes
/// back every microsecond, so that every refill is a whole number of units. Rates
/// are `i128`: they go up to about 1.7 * 10^17 tokens per second.
pub const TOKEN_PER_SEC: i128 = 1_000_000_000_000_000_000_000;

/// A row of the table `underway.global_rate_limit`, without its key.
///
/// Points in time are microseconds since the start of the year 2000, as the
/// database counts them.
#[derive(Debug, Clone, Copy, PartialEq, Eq, Structural)]
pub struct BucketState {
    /// How many tokens were used, in units of 10^-27 tokens.
    pub tokens_used: i128,
    /// When the window started, when the tokens were last counted, or the
    /// theoretical arrival time, as the algorithm has it.
    pub window_start: i64,
}

/// `span` is the distance between two points in time, in microseconds.
pub open spec fn is_span(span: int) -> bool {
    i64::MIN - i64::MAX <= span <= i64::MAX - i64::MIN
}

/// The microseconds from `start` to `now`. They are negative where `start` was
/// taken from a later clock reading than `now`.
pub fn elapsed_micros(start: i64, now: i64) -> (span: i128)
    ensures
        span == now - start,
        is_span(span as int),
{
    now as i128 - start as i128
}

} // verus!
