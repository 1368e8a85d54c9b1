//! The token bucket: tasks use tokens, and tokens come back at a constant rate.
//!
//! The bucket counts the tokens that are out. A request at a later time first
//! takes back what was refilled since, and may run if one token more can be out
//! without going over the capacity.
//!
//! Tokens are counted in the unit of [`TOKEN`], and refill rates are given in that
//! of [`crate::bucket::TOKEN_PER_SEC`].

use crate::bucket::{elapsed_micros, BucketState, TOKEN};
use crate::duration::{Duration, MAX_NANOS};
use crate::rounding::{divide_thousandfold_nearest, nearest};
use crate::task::RateLimitDecision;
use vstd::pervasive::unreached;
use vstd::prelude::*;

verus! {

/// The tokens that are out at `now` before the request is served: never less than
/// none, and otherwise never more than the capacity. A bucket that does not exist
/// yet has none out.
pub open spec fn tokens_out(
    row: Option<BucketState>,
    now: i64,
    max_capacity: i128,
    refill_rate_per_sec: i128,
) -> int {
    match row {
        Some(b) => {
            let unclamped = b.tokens_used - (now - b.window_start) * refill_rate_per_sec;
            if unclamped < 0 || max_capacity < 0 {
                0
            } else if unclamped > max_capacity {
                max_capacity as int
            } else {
                unclamped
            }
        },
        None => 0,
    }
}

/// With `out` tokens out, the capacity leaves room for one token more.
pub open spec fn has_room(out: int, max_capacity: i128) -> bool {
    out + TOKEN <= max_capacity
}

/// What a request at `now` writes: the count with its token in it, or nothing if
/// it is refused.
pub open spec fn token_bucket_write(
    row: Option<BucketState>,
    now: i64,
    max_capacity: i128,
    refill_rate_per_sec: i128,
) -> Option<BucketState> {
    let out = tokens_out(row, now, max_capacity, refill_rate_per_sec);
    if has_room(out, max_capacity) {
        Some(BucketState { tokens_used: (out + TOKEN) as i128, window_start: now })
    } else {
        None
    }
}

/// Of a request that found `out` tokens out: `None` if it may run, else the
/// nanoseconds until the tokens that are missing have come back, rounded to the
/// nearest. With a negative rate they never do, and no wait is asked for.
/// Without refill there is no such time.
pub open spec fn token_bucket_wait(
    max_capacity: i128,
    refill_rate_per_sec: i128,
    out: int,
) -> Option<nat>
    recommends
        has_room(out, max_capacity) || refill_rate_per_sec != 0,
{
    if has_room(out, max_capacity) {
        None
    } else if refill_rate_per_sec < 0 {
        Some(0)
    } else {
        Some(nearest(((out + TOKEN - max_capacity) * 1000) as nat, refill_rate_per_sec as nat))
    }
}

/// There is an answer to a request that found `out` tokens out: it may run, or
/// there is a time to wait and a [`Duration`] can hold it.
pub open spec fn token_bucket_has_answer(
    max_capacity: i128,
    refill_rate_per_sec: i128,
    out: int,
) -> bool {
    match token_bucket_wait(max_capacity, refill_rate_per_sec, out) {
        Some(n) => refill_rate_per_sec != 0 && n <= MAX_NANOS,
        None => true,
    }
}

/// A count of tokens that [`tokens_out`] can come to.
pub open spec fn is_tokens_out(out: int, max_capacity: i128) -> bool {
    0 <= out && (out == 0 || out <= max_capacity)
}

/// The distance of `x` from zero.
fn magnitude(x: i128) -> (m: u128)
    ensures
        m == if x < 0 {
            -x
        } else {
            x as int
        },
{
    if x < 0 {
        (-(x + 1)) as u128 + 1
    } else {
        x as u128
    }
}

/// Counts the tokens that are out at `now` before the request is served.
pub fn count_tokens_out(
    row: Option<BucketState>,
    now: i64,
    max_capacity: i128,
    refill_rate_per_sec: i128,
) -> (out: i128)
    ensures
        out == tokens_out(row, now, max_capacity, refill_rate_per_sec),
        is_tokens_out(out as int, max_capacity),
{
    match row {
        Some(b) => {
            let elapsed: i128 = elapsed_micros(b.window_start, now);
            if max_capacity < 0 {
                return 0;
            }
            let ghost product = elapsed * refill_rate_per_sec;
            assert(product > 0 <==> (elapsed > 0 && refill_rate_per_sec > 0) || (elapsed < 0
                && refill_rate_per_sec < 0)) by (nonlinear_arith)
                requires
                    product == elapsed * refill_rate_per_sec,
            ;
            assert(product < 0 <==> (elapsed > 0 && refill_rate_per_sec < 0) || (elapsed < 0
                && refill_rate_per_sec > 0)) by (nonlinear_arith)
                requires
                    product == elapsed * refill_rate_per_sec,
            ;
            match elapsed.checked_mul(refill_rate_per_sec) {
                None => if (elapsed > 0) == (refill_rate_per_sec > 0) {
                    // More than any count of tokens comes back.
                    0
                } else {
                    let a: u128 = magnitude(elapsed);
                    let r: u128 = magnitude(refill_rate_per_sec);
                    assert(a * r == -product) by (nonlinear_arith)
                        requires
                            product == elapsed * refill_rate_per_sec,
                            product <= 0,
                            a == elapsed || a == -elapsed,
                            r == refill_rate_per_sec || r == -refill_rate_per_sec,
                            a >= 0,
                            r >= 0,
                    ;
                    match a.checked_mul(r) {
                        Some(taken) if b.tokens_used < 0 && taken - magnitude(b.tokens_used)
                            <= max_capacity as u128 => (taken - magnitude(b.tokens_used)) as i128,
                        _ => max_capacity,
                    }
                },
                Some(refilled) => if b.tokens_used < refilled {
                    0
                } else {
                    match b.tokens_used.checked_sub(refilled) {
                        Some(out) if out <= max_capacity => out,
                        _ => max_capacity,
                    }
                },
            }
        },
        None => 0,
    }
}

/// Tells whether there is room for one token more with `out` tokens out.
pub fn finds_room(out: i128, max_capacity: i128) -> (r: bool)
    requires
        is_tokens_out(out as int, max_capacity),
    ensures
        r == has_room(out as int, max_capacity),
{
    max_capacity >= TOKEN && out <= max_capacity - TOKEN
}

/// Serves a request at `now` from a bucket with `out` tokens out. Returns what to
/// write.
pub fn token_bucket_upsert(out: i128, now: i64, max_capacity: i128) -> (write: Option<BucketState>)
    requires
        is_tokens_out(out as int, max_capacity),
    ensures
        write is Some <==> has_room(out as int, max_capacity),
        write matches Some(b) ==> b == (BucketState {
            tokens_used: (out + TOKEN) as i128,
            window_start: now,
        }),
{
    if finds_room(out, max_capacity) {
        Some(BucketState { tokens_used: out + TOKEN, window_start: now })
    } else {
        None
    }
}

/// Answers a request that found `out` tokens out, or returns `None` if there is no
/// answer.
pub fn token_bucket_answer(
    max_capacity: i128,
    refill_rate_per_sec: i128,
    out: i128,
) -> (decision: Option<RateLimitDecision>)
    requires
        is_tokens_out(out as int, max_capacity),
    ensures
        decision is Some <==> token_bucket_has_answer(
            max_capacity,
            refill_rate_per_sec,
            out as int,
        ),
        decision matches Some(d) ==> d@ == token_bucket_wait(
            max_capacity,
            refill_rate_per_sec,
            out as int,
        ),
{
    if finds_room(out, max_capacity) {
        Some(RateLimitDecision::Allowed)
    } else if refill_rate_per_sec < 0 {
        Some(RateLimitDecision::Limited { retry_after: Duration::from_nanos(0) })
    } else if refill_rate_per_sec == 0 {
        None
    } else {
        let missing: u128 = if max_capacity < 0 {
            TOKEN as u128 + magnitude(max_capacity)
        } else {
            (out - max_capacity + TOKEN) as u128
        };
        match divide_thousandfold_nearest(missing, refill_rate_per_sec as u128, MAX_NANOS) {
            Some(n) => Some(RateLimitDecision::Limited { retry_after: Duration::from_nanos(n) }),
            None => None,
        }
    }
}

/// Decides on a request that found `out` tokens out.
pub fn token_bucket_decision(
    max_capacity: i128,
    refill_rate_per_sec: i128,
    out: i128,
) -> (decision: RateLimitDecision)
    requires
        is_tokens_out(out as int, max_capacity),
        token_bucket_has_answer(max_capacity, refill_rate_per_sec, out as int),
    ensures
        decision@ == token_bucket_wait(max_capacity, refill_rate_per_sec, out as int),
{
    match token_bucket_answer(max_capacity, refill_rate_per_sec, out) {
        Some(decision) => decision,
        None => unreached(),
    }
}

} // verus!
