//! The fixed window: so many tasks, and then none until the window is over.
//!
//! A window opens with the first request and lasts for a fixed time. Every
//! request in it is counted, the refused ones too, and the count starts again
//! with the first request after its end.

use crate::bucket::{elapsed_micros, is_span, BucketState, TOKEN};
use crate::duration::{Duration, MAX_NANOS};
use crate::task::RateLimitDecision;
use vstd::prelude::*;

verus! {

/// The window that opened at `start` is over at `now`, if it lasts for `window`
/// nanoseconds.
pub open spec fn window_is_over(start: int, now: int, window: nat) -> bool {
    (now - start) * 1000 >= window
}

/// One more than `tokens_used`, up to the largest count that there is.
pub open spec fn one_more(tokens_used: i128) -> i128 {
    if tokens_used + TOKEN <= i128::MAX {
        (tokens_used + TOKEN) as i128
    } else {
        i128::MAX
    }
}

/// The bucket after a request at `now`: a new window with this request in it if
/// there is none yet or the last one is over, else the same window with one
/// request more.
pub open spec fn fixed_window_next(row: Option<BucketState>, now: i64, window: nat) -> BucketState {
    match row {
        Some(b) if !window_is_over(b.window_start as int, now as int, window) => BucketState {
            tokens_used: one_more(b.tokens_used),
            window_start: b.window_start,
        },
        _ => BucketState { tokens_used: TOKEN, window_start: now },
    }
}

/// Of a request that was counted as number `tokens_used` of its window,
/// `elapsed` microseconds into it: `None` if it may run, else the nanoseconds
/// until the window is over.
pub open spec fn fixed_window_wait(
    max_tokens: int,
    window: nat,
    tokens_used: int,
    elapsed: int,
) -> Option<nat> {
    if tokens_used <= max_tokens * TOKEN {
        None
    } else if window <= elapsed * 1000 {
        Some(0)
    } else {
        Some((window - elapsed * 1000) as nat)
    }
}

/// Counts a request at `now`.
pub fn fixed_window_upsert(row: Option<BucketState>, now: i64, window: &Duration) -> (b: BucketState)
    ensures
        b == fixed_window_next(row, now, window@),
{
    match row {
        Some(b) => {
            let elapsed: i128 = elapsed_micros(b.window_start, now);
            if elapsed * 1000 >= window.as_nanos() as i128 {
                BucketState { tokens_used: TOKEN, window_start: now }
            } else if b.tokens_used <= i128::MAX - TOKEN {
                BucketState { tokens_used: b.tokens_used + TOKEN, window_start: b.window_start }
            } else {
                BucketState { tokens_used: i128::MAX, window_start: b.window_start }
            }
        },
        None => BucketState { tokens_used: TOKEN, window_start: now },
    }
}

/// Tells whether [`fixed_window_decision`] can be made: the time to wait, if
/// there is one, is short enough for a [`Duration`].
pub fn fixed_window_wait_fits(
    max_tokens: i32,
    window: &Duration,
    tokens_used: i128,
    elapsed: i128,
) -> (fits: bool)
    requires
        is_span(elapsed as int),
    ensures
        fits == (fixed_window_wait(
            max_tokens as int,
            window@,
            tokens_used as int,
            elapsed as int,
        ) matches Some(n) ==> n <= MAX_NANOS),
{
    let remaining: i128 = window.as_nanos() as i128 - elapsed * 1000;
    tokens_used <= max_tokens as i128 * TOKEN || remaining <= MAX_NANOS as i128
}

/// Decides on a request that was counted as number `tokens_used` of its window,
/// `elapsed` microseconds into it.
pub fn fixed_window_decision(
    max_tokens: i32,
    window: &Duration,
    tokens_used: i128,
    elapsed: i128,
) -> (decision: RateLimitDecision)
    requires
        is_span(elapsed as int),
        fixed_window_wait(max_tokens as int, window@, tokens_used as int, elapsed as int) matches
            Some(n) ==> n <= MAX_NANOS,
    ensures
        decision@ == fixed_window_wait(
            max_tokens as int,
            window@,
            tokens_used as int,
            elapsed as int,
        ),
{
    if tokens_used > max_tokens as i128 * TOKEN {
        let remaining: i128 = window.as_nanos() as i128 - elapsed * 1000;
        if remaining <= 0 {
            RateLimitDecision::Limited { retry_after: Duration::from_nanos(0) }
        } else {
            RateLimitDecision::Limited { retry_after: Duration::from_nanos(remaining as u128) }
        }
    } else {
        RateLimitDecision::Allowed
    }
}

} // verus!
