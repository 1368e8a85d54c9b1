//! What holds of rate limits as a whole.
//!
//! The laws speak of requests on one bucket, one after the other, as the lock
//! makes them come.

use crate::bucket::{BucketState, TOKEN};
use crate::duration::Duration;
use crate::fixed_window::window_is_over;
use crate::gcra::{is_timestamp, new_arrival_time, overshoot, reach, to_micros};
use crate::rate_limit::{
    can_come, check_next, out_of_range_text, ActionView, CheckStage, Event, RateLimitAlgorithm,
};
use crate::rounding::{lemma_nearest, lemma_nearest_shift};
use crate::statement::{StatementView, Table};
use crate::token_bucket::tokens_out;
use vstd::prelude::*;

verus! {

/// [`RateLimitAlgorithm::FixedWindow`].
pub open spec fn fixed_window(max_tokens: i32, window: Duration) -> RateLimitAlgorithm {
    RateLimitAlgorithm::FixedWindow { max_tokens, window }
}

/// [`RateLimitAlgorithm::TokenBucket`].
pub open spec fn token_bucket(max_capacity: i128, refill_rate_per_sec: i128) -> RateLimitAlgorithm {
    RateLimitAlgorithm::TokenBucket { max_capacity, refill_rate_per_sec }
}

/// [`RateLimitAlgorithm::GCRA`].
pub open spec fn gcra(
    emission_interval: Duration,
    delay_variation_tolerance: Duration,
) -> RateLimitAlgorithm {
    RateLimitAlgorithm::GCRA { emission_interval, delay_variation_tolerance }
}

/// The request at `now` may run.
pub open spec fn admits(
    algorithm: RateLimitAlgorithm,
    row: Option<BucketState>,
    now: i64,
) -> bool {
    algorithm.is_in_range(row, now) && wait_at(algorithm, row, now) is None
}

/// The nanoseconds that the request at `now` is told to wait, or `None` if it may
/// run.
pub open spec fn wait_at(
    algorithm: RateLimitAlgorithm,
    row: Option<BucketState>,
    now: i64,
) -> Option<nat> {
    algorithm.wait(algorithm.reply(row, now))
}

/// The bucket after the request at `now`. A request that the database cannot
/// serve leaves no trace.
pub open spec fn row_after(
    algorithm: RateLimitAlgorithm,
    row: Option<BucketState>,
    now: i64,
) -> Option<BucketState> {
    if algorithm.is_in_range(row, now) && algorithm.write(row, now) is Some {
        algorithm.write(row, now)
    } else {
        row
    }
}

/// The bucket after requests at `times`, in this order.
pub open spec fn row_after_all(
    algorithm: RateLimitAlgorithm,
    row: Option<BucketState>,
    times: Seq<i64>,
) -> Option<BucketState>
    decreases times.len(),
{
    if times.len() == 0 {
        row
    } else {
        row_after(algorithm, row_after_all(algorithm, row, times.drop_last()), times.last())
    }
}

/// How many of the requests at `times`, in this order, may run.
pub open spec fn admitted(
    algorithm: RateLimitAlgorithm,
    row: Option<BucketState>,
    times: Seq<i64>,
) -> nat
    decreases times.len(),
{
    if times.len() == 0 {
        0
    } else {
        let before = row_after_all(algorithm, row, times.drop_last());
        admitted(algorithm, row, times.drop_last()) + if admits(algorithm, before, times.last()) {
            1nat
        } else {
            0nat
        }
    }
}

/// The smaller of two numbers.
pub open spec fn min(a: int, b: int) -> int {
    if a < b {
        a
    } else {
        b
    }
}

/// A window caps the tasks that run within it. Of the requests from the one that
/// opens the window up to its end, exactly the first `max_tokens` may run.
pub proof fn law_fixed_window_caps_a_window(
    max_tokens: i32,
    window: Duration,
    row: Option<BucketState>,
    times: Seq<i64>,
)
    requires
        times.len() > 0,
        row matches Some(b) ==> window_is_over(b.window_start as int, times[0] as int, window@),
        forall|i: int|
            0 < i < times.len() ==> !window_is_over(
                times[0] as int,
                #[trigger] times[i] as int,
                window@,
            ),
    ensures
        admitted(fixed_window(max_tokens, window), row, times) == min(
            times.len() as int,
            if max_tokens < 0 {
                0
            } else {
                max_tokens as int
            },
        ),
        row_after_all(fixed_window(max_tokens, window), row, times) == Some(
            BucketState {
                tokens_used: min(times.len() * TOKEN, i128::MAX as int) as i128,
                window_start: times[0],
            },
        ),
    decreases times.len(),
{
    let algorithm = fixed_window(max_tokens, window);
    let before = row_after_all(algorithm, row, times.drop_last());
    if times.len() == 1 {
        assert(before == row);
        assert(admitted(algorithm, row, times.drop_last()) == 0);
    } else {
        law_fixed_window_caps_a_window(max_tokens, window, row, times.drop_last());
        assert(!window_is_over(times[0] as int, times[times.len() - 1] as int, window@));
    }
}

/// Fixed windows hold their rate. Of requests between `first` and `last`, in whatever
/// order they come and however many windows they fall into, no more may run than
/// `max_tokens` for each `window` of that time, and twice as many on top for the
/// windows at the two ends.
pub proof fn law_fixed_window_holds_its_rate(
    max_tokens: i32,
    window: Duration,
    row: Option<BucketState>,
    times: Seq<i64>,
    first: i64,
    last: i64,
)
    requires
        max_tokens >= 0,
        times.len() > 0,
        row matches Some(b) ==> b.tokens_used >= 0,
        forall|i: int| 0 <= i < times.len() ==> first <= #[trigger] times[i] <= last,
    ensures
        (admitted(fixed_window(max_tokens, window), row, times) - 2 * max_tokens) * window@
            <= max_tokens * ((last - first) * 1000),
{
    let k = lemma_fixed_window_accounts(max_tokens, window, row, times, first, last);
    let n = admitted(fixed_window(max_tokens, window), row, times) as int;
    let m = max_tokens as int;
    let w = window@ as int;
    let span = (last - first) * 1000;
    assert(first <= times[0] <= last);
    if k < 0 {
        assert((n - 2 * m) * w <= 0) by (nonlinear_arith)
            requires
                n - 2 * m <= 0,
                w >= 0,
        ;
        assert(m * span >= 0) by (nonlinear_arith)
            requires
                m >= 0,
                span >= 0,
        ;
    } else {
        assert(m * (k + 1) == m * k + m) by (nonlinear_arith);
        assert((n - 2 * m) * w <= m * k * w) by (nonlinear_arith)
            requires
                n - 2 * m <= m * k,
                w >= 0,
        ;
        assert(m * k * w <= m * span) by (nonlinear_arith)
            requires
                m >= 0,
                k * w <= span,
        ;
    }
}

/// Accounts for all requests that may run: `max_tokens` for each window that was
/// left behind, and those in the last one. Returns how many of the windows that
/// were left behind were opened by one of the requests, or -1 if the last one was
/// not opened by one either.
proof fn lemma_fixed_window_accounts(
    max_tokens: i32,
    window: Duration,
    row: Option<BucketState>,
    times: Seq<i64>,
    first: i64,
    last: i64,
) -> (k: int)
    requires
        max_tokens >= 0,
        times.len() > 0,
        row matches Some(b) ==> b.tokens_used >= 0,
        forall|i: int| 0 <= i < times.len() ==> first <= #[trigger] times[i] <= last,
    ensures
        k >= -1,
        ({
            let algorithm = fixed_window(max_tokens, window);
            &&& row_after_all(algorithm, row, times) matches Some(b)
            &&& b.tokens_used >= 0
            &&& k >= 0 ==> first * 1000 + k * window@ <= b.window_start * 1000
                && b.window_start <= last
            &&& admitted(algorithm, row, times) <= max_tokens * (k + 1) + min(
                max_tokens as int,
                b.tokens_used / TOKEN,
            )
        }),
    decreases times.len(),
{
    let algorithm = fixed_window(max_tokens, window);
    let earlier = times.drop_last();
    let now = times.last();
    let before = row_after_all(algorithm, row, earlier);
    assert(first <= times[times.len() - 1] <= last);
    if earlier.len() == 0 {
        assert(before == row);
        assert(admitted(algorithm, row, earlier) == 0);
        assert(0 * window@ == 0);
        assert(max_tokens * 0 == 0);
        if row matches Some(b) && !window_is_over(b.window_start as int, now as int, window@) {
            -1
        } else {
            assert(max_tokens * 1 == max_tokens);
            0
        }
    } else {
        let k = lemma_fixed_window_accounts(max_tokens, window, row, earlier, first, last);
        let b = before.unwrap();
        if window_is_over(b.window_start as int, now as int, window@) {
            assert((k + 1) * window@ == k * window@ + window@) by (nonlinear_arith);
            assert(0 * window@ == 0);
            assert(max_tokens * (k + 2) == max_tokens * (k + 1) + max_tokens)
                by (nonlinear_arith);
            k + 1
        } else {
            k
        }
    }
}

/// A request that a window has no place for is told exactly how long the window
/// lasts. The next request may run if and only if it comes after that time, and
/// until then the requests that come in vain do not put it off.
pub proof fn law_fixed_window_wait_is_exact(
    max_tokens: i32,
    window: Duration,
    row: Option<BucketState>,
    now: i64,
    later: i64,
)
    requires
        max_tokens >= 1,
        wait_at(fixed_window(max_tokens, window), row, now) is Some,
    ensures
        ({
            let algorithm = fixed_window(max_tokens, window);
            let n = wait_at(algorithm, row, now).unwrap();
            let after = row_after(algorithm, row, now);
            &&& admits(algorithm, after, later) <==> (later - now) * 1000 >= n
            &&& (later - now) * 1000 < n ==> wait_at(algorithm, after, later) == Some(
                (n - (later - now) * 1000) as nat,
            )
        }),
{
}

/// A token bucket holds its rate. Of requests between `first` and `last`, in whatever
/// order they come, no more may run than the capacity and what is refilled in that
/// time.
pub proof fn law_token_bucket_holds_its_rate(
    max_capacity: i128,
    refill_rate_per_sec: i128,
    row: Option<BucketState>,
    times: Seq<i64>,
    first: i64,
    last: i64,
)
    requires
        refill_rate_per_sec >= 0,
        forall|i: int| 0 <= i < times.len() ==> first <= #[trigger] times[i] <= last,
    ensures
        ({
            let n = admitted(token_bucket(max_capacity, refill_rate_per_sec), row, times);
            n > 0 ==> n * TOKEN <= max_capacity + (last - first) * refill_rate_per_sec
        }),
{
    let r = refill_rate_per_sec as int;
    lemma_token_bucket_accounts(max_capacity, refill_rate_per_sec, row, times, first, last);
    let algorithm = token_bucket(max_capacity, refill_rate_per_sec);
    if admitted(algorithm, row, times) > 0 {
        let b = row_after_all(algorithm, row, times).unwrap();
        assert((b.window_start - first) * r <= (last - first) * r) by (nonlinear_arith)
            requires
                b.window_start <= last,
                r >= 0,
        ;
    }
}

/// Once a request may run, the bucket accounts for all that did, as tokens that are
/// out or were refilled.
proof fn lemma_token_bucket_accounts(
    max_capacity: i128,
    refill_rate_per_sec: i128,
    row: Option<BucketState>,
    times: Seq<i64>,
    first: i64,
    last: i64,
)
    requires
        refill_rate_per_sec >= 0,
        forall|i: int| 0 <= i < times.len() ==> first <= #[trigger] times[i] <= last,
    ensures
        ({
            let algorithm = token_bucket(max_capacity, refill_rate_per_sec);
            let n = admitted(algorithm, row, times);
            n > 0 ==> {
                &&& row_after_all(algorithm, row, times) matches Some(b)
                &&& b.tokens_used <= max_capacity
                &&& first <= b.window_start <= last
                &&& n * TOKEN <= b.tokens_used + (b.window_start - first) * refill_rate_per_sec
            }
        }),
    decreases times.len(),
{
    let r = refill_rate_per_sec as int;
    let algorithm = token_bucket(max_capacity, refill_rate_per_sec);
    if times.len() > 0 {
        let earlier = times.drop_last();
        let before = row_after_all(algorithm, row, earlier);
        let now = times.last();
        lemma_token_bucket_accounts(max_capacity, refill_rate_per_sec, row, earlier, first, last);
        assert(first <= times[times.len() - 1] <= last);
        if admitted(algorithm, row, earlier) > 0 {
            // A count that is cut at the capacity leaves no room, so that a request
            // which may run found all that is still out.
            let s = before.unwrap().window_start as int;
            assert((s - first) * r + (now - s) * r == (now - first) * r) by (nonlinear_arith);
        }
        assert((now - first) * r >= 0) by (nonlinear_arith)
            requires
                now >= first,
                r >= 0,
        ;
    }
}

/// A fresh token bucket takes a burst of as many tasks as its capacity holds whole
/// tokens, and no more.
pub proof fn law_token_bucket_burst(
    max_capacity: i128,
    refill_rate_per_sec: i128,
    now: i64,
    times: Seq<i64>,
)
    requires
        max_capacity >= 0,
        forall|i: int| 0 <= i < times.len() ==> times[i] == now,
    ensures
        admitted(
            token_bucket(max_capacity, refill_rate_per_sec),
            None,
            times,
        ) == min(times.len() as int, max_capacity as int / TOKEN as int),
        row_after_all(
            token_bucket(max_capacity, refill_rate_per_sec),
            None,
            times,
        ) == if min(times.len() as int, max_capacity as int / TOKEN as int) == 0 {
            None
        } else {
            Some(
                BucketState {
                    tokens_used: (min(times.len() as int, max_capacity as int / TOKEN as int)
                        * TOKEN) as i128,
                    window_start: now,
                },
            )
        },
    decreases times.len(),
{
    if times.len() > 0 {
        law_token_bucket_burst(max_capacity, refill_rate_per_sec, now, times.drop_last());
        assert((now - now) * refill_rate_per_sec == 0);
    }
}

/// A token bucket that was left alone takes a burst of as many tasks as there are whole
/// tokens free by then. All that was refilled counts, however long it took, until no
/// token is out: from then on a burst of the whole capacity may run again.
pub proof fn law_token_bucket_burst_after_idle_time(
    max_capacity: i128,
    refill_rate_per_sec: i128,
    b: BucketState,
    now: i64,
    times: Seq<i64>,
)
    requires
        max_capacity >= 0,
        b.tokens_used - (now - b.window_start) * refill_rate_per_sec <= max_capacity,
        forall|i: int| 0 <= i < times.len() ==> times[i] == now,
    ensures
        ({
            let algorithm = token_bucket(max_capacity, refill_rate_per_sec);
            let left = b.tokens_used - (now - b.window_start) * refill_rate_per_sec;
            let free = if left <= 0 {
                max_capacity as int
            } else {
                max_capacity - left
            };
            let n = min(times.len() as int, free / TOKEN as int);
            &&& admitted(algorithm, Some(b), times) == n
            &&& left <= 0 ==> admitted(algorithm, Some(b), times) == min(
                times.len() as int,
                max_capacity as int / TOKEN as int,
            )
            &&& n == 0 ==> row_after_all(algorithm, Some(b), times) == Some(b)
            &&& n > 0 ==> row_after_all(algorithm, Some(b), times) == Some(
                BucketState {
                    tokens_used: (max_capacity - free + n * TOKEN) as i128,
                    window_start: now,
                },
            )
        }),
    decreases times.len(),
{
    if times.len() > 0 {
        law_token_bucket_burst_after_idle_time(
            max_capacity,
            refill_rate_per_sec,
            b,
            now,
            times.drop_last(),
        );
        assert((now - now) * refill_rate_per_sec == 0);
    }
}

/// A request that a token bucket has no token for is told when the token is there.
/// Rounding to a nanosecond aside, a later request may run if and only if it comes
/// after that time, and until then it is told exactly what is left of it.
///
/// This needs a bucket that can hold a token, and a count that is not cut at the
/// capacity: with more than that out, more has to come back than the wait says.
pub proof fn law_token_bucket_wait_is_exact(
    max_capacity: i128,
    refill_rate_per_sec: i128,
    b: BucketState,
    now: i64,
    later: i64,
)
    requires
        refill_rate_per_sec > 0,
        max_capacity >= TOKEN,
        b.tokens_used - (now - b.window_start) * refill_rate_per_sec <= max_capacity,
        wait_at(
            token_bucket(max_capacity, refill_rate_per_sec),
            Some(b),
            now,
        ) is Some,
    ensures
        ({
            let algorithm = token_bucket(max_capacity, refill_rate_per_sec);
            let n = wait_at(algorithm, Some(b), now).unwrap();
            let missing = tokens_out(Some(b), now, max_capacity, refill_rate_per_sec) + TOKEN
                - max_capacity;
            let after = row_after(algorithm, Some(b), now);
            &&& (later - now) * 1000 > n ==> admits(algorithm, after, later)
            &&& (later - now) * 1000 < n ==> !admits(algorithm, after, later)
            &&& (later - now) * 1000 == n ==> (admits(algorithm, after, later) <==> n
                * refill_rate_per_sec >= missing * 1000)
            &&& now <= later && !admits(algorithm, after, later) ==> wait_at(
                algorithm,
                after,
                later,
            ) == Some((n - (later - now) * 1000) as nat)
        }),
{
    let r = refill_rate_per_sec as int;
    let algorithm = token_bucket(max_capacity, refill_rate_per_sec);
    let n = wait_at(algorithm, Some(b), now).unwrap();
    let missing = tokens_out(Some(b), now, max_capacity, refill_rate_per_sec) + TOKEN - max_capacity;
    let dt = later - now;
    let e = now - b.window_start;
    assert((later - b.window_start) * r == e * r + dt * r) by (nonlinear_arith)
        requires
            e == now - b.window_start,
            dt == later - now,
    ;
    assert(dt >= 0 <==> dt * r >= 0) by (nonlinear_arith)
        requires
            r > 0,
    ;
    assert(admits(algorithm, Some(b), later) <==> dt * r >= missing);
    lemma_nearest((missing * 1000) as nat, r as nat);
    if 0 <= dt * r < missing {
        assert((dt * 1000) * r == dt * r * 1000) by (nonlinear_arith);
        assert((missing - dt * r) * 1000 == missing * 1000 - (dt * 1000) * r);
        lemma_nearest_shift((missing * 1000) as nat, r as nat, (dt * 1000) as nat);
    }
    if dt * 1000 > n {
        assert(dt * r * 1000 >= n * r + r) by (nonlinear_arith)
            requires
                dt * 1000 >= n + 1,
                r > 0,
        ;
    } else if dt * 1000 < n {
        assert(dt * r * 1000 <= n * r - r) by (nonlinear_arith)
            requires
                dt * 1000 <= n - 1,
                r > 0,
        ;
    } else {
        assert(dt * r * 1000 == n * r) by (nonlinear_arith)
            requires
                dt * 1000 == n,
        ;
    }
}

/// What a token bucket writes is never more than its capacity, and at least the
/// token of the request itself.
pub proof fn law_token_bucket_stays_within_capacity(
    max_capacity: i128,
    refill_rate_per_sec: i128,
    row: Option<BucketState>,
    now: i64,
)
    ensures
        token_bucket(max_capacity, refill_rate_per_sec).write(
            row,
            now,
        ) matches Some(b) ==> {
            &&& TOKEN <= b.tokens_used <= max_capacity
            &&& b.window_start == now
        },
{
}

/// The Generic Cell Rate Algorithm holds its rate. However many requests come
/// between `first` and `last`, those that may run take up no more than that time
/// and the bursts at its two ends.
pub proof fn law_gcra_holds_its_rate(
    emission_interval: Duration,
    delay_variation_tolerance: Duration,
    row: Option<BucketState>,
    times: Seq<i64>,
    first: i64,
    last: i64,
)
    requires
        forall|i: int| 0 <= i < times.len() ==> first <= #[trigger] times[i] <= last,
    ensures
        ({
            let algorithm = gcra(emission_interval, delay_variation_tolerance);
            let emission = to_micros(emission_interval@);
            let tolerance = to_micros(delay_variation_tolerance@);
            let n = admitted(algorithm, row, times);
            n > 0 ==> {
                &&& n * emission <= (last - first) + tolerance + reach(emission, tolerance)
                &&& row_after_all(algorithm, row, times) matches Some(b)
                &&& first - reach(emission, tolerance) + n * emission <= b.window_start <= last
                    + tolerance
            }
        }),
    decreases times.len(),
{
    let algorithm = gcra(emission_interval, delay_variation_tolerance);
    let emission = to_micros(emission_interval@);
    let tolerance = to_micros(delay_variation_tolerance@);
    if times.len() > 0 {
        let earlier = times.drop_last();
        law_gcra_holds_its_rate(
            emission_interval,
            delay_variation_tolerance,
            row,
            earlier,
            first,
            last,
        );
        let before = row_after_all(algorithm, row, earlier);
        let n = admitted(algorithm, row, earlier);
        assert(first <= times[times.len() - 1] <= last);
        assert((n + 1) * emission == n * emission + emission) by (nonlinear_arith);
        assert(0 * emission == 0);
    }
}

/// With a tolerance of zero tasks are strictly spaced: after a task that ran at
/// `now`, a later request may run if and only if it comes at least one emission
/// interval after it, whatever else was refused in between.
pub proof fn law_gcra_without_tolerance_is_strict_spacing(
    emission_interval: Duration,
    delay_variation_tolerance: Duration,
    row: Option<BucketState>,
    now: i64,
    later: i64,
)
    requires
        to_micros(delay_variation_tolerance@) == 0,
        admits(
            gcra(emission_interval, delay_variation_tolerance),
            row,
            now,
        ),
        ({
            let algorithm = gcra(emission_interval, delay_variation_tolerance);
            algorithm.is_in_range(row_after(algorithm, row, now), later)
        }),
    ensures
        ({
            let algorithm = gcra(emission_interval, delay_variation_tolerance);
            let after = row_after(algorithm, row, now);
            &&& admits(algorithm, after, later) <==> later - now >= to_micros(emission_interval@)
            &&& !admits(algorithm, after, later) ==> row_after(algorithm, after, later) == after
        }),
{
}

/// A fresh bucket takes a burst of as many tasks as the tolerance holds whole
/// emission intervals, and one more. So with a tolerance of zero it takes exactly
/// one.
///
/// This needs a tolerance that leaves room for a task: zero, or at least half of
/// the emission interval.
pub proof fn law_gcra_burst(
    emission_interval: Duration,
    delay_variation_tolerance: Duration,
    now: i64,
    times: Seq<i64>,
)
    requires
        0 < to_micros(emission_interval@) <= i64::MAX,
        to_micros(delay_variation_tolerance@) <= i64::MAX,
        to_micros(delay_variation_tolerance@) == 0 || to_micros(emission_interval@) <= 2
            * to_micros(delay_variation_tolerance@),
        is_timestamp(now - to_micros(emission_interval@)),
        is_timestamp(now - to_micros(delay_variation_tolerance@)),
        is_timestamp(
            now + to_micros(delay_variation_tolerance@) + to_micros(emission_interval@),
        ),
        forall|i: int| 0 <= i < times.len() ==> times[i] == now,
    ensures
        ({
            let algorithm = gcra(emission_interval, delay_variation_tolerance);
            let emission = to_micros(emission_interval@);
            let tolerance = to_micros(delay_variation_tolerance@);
            let n = min(times.len() as int, (tolerance / emission + 1) as int);
            let back = min(emission as int, reach(emission, tolerance) as int);
            &&& admitted(algorithm, None, times) == n
            &&& row_after_all(algorithm, None, times) == if n == 0 {
                None
            } else {
                Some(
                    BucketState {
                        tokens_used: 0,
                        window_start: (now - back + n * emission) as i64,
                    },
                )
            }
        }),
    decreases times.len(),
{
    let algorithm = gcra(emission_interval, delay_variation_tolerance);
    let emission = to_micros(emission_interval@);
    let tolerance = to_micros(delay_variation_tolerance@);
    let back = min(emission as int, reach(emission, tolerance) as int);
    if times.len() > 0 {
        let earlier = times.drop_last();
        law_gcra_burst(emission_interval, delay_variation_tolerance, now, earlier);
        let before = row_after_all(algorithm, None, earlier);
        let most = (tolerance / emission + 1) as int;
        let n = min(earlier.len() as int, most);
        assert((most - 1) * emission <= tolerance < most * emission) by (nonlinear_arith)
            requires
                emission > 0,
                most == tolerance / emission + 1,
        ;
        assert(most >= 1) by (nonlinear_arith)
            requires
                emission > 0,
                most == tolerance / emission + 1,
        ;
        assert(n < most ==> n * emission <= (most - 1) * emission) by (nonlinear_arith)
            requires
                emission > 0,
        ;
        assert((n + 1) * emission == n * emission + emission) by (nonlinear_arith);
        assert((most - 1) * emission == most * emission - emission) by (nonlinear_arith);
        assert(n >= 1 ==> n * emission >= emission) by (nonlinear_arith)
            requires
                emission > 0,
        ;
        assert(0 * emission == 0);
        assert(1 * emission == emission);
        assert(new_arrival_time(before, now, emission, tolerance) == now - back + (n + 1)
            * emission);
    }
}

/// A request that comes too early is told exactly how much. A later request may run
/// if and only if it comes after that time, and until then it is told exactly what
/// is left of it.
///
/// This needs a tolerance that leaves room for a task: zero, or at least half of
/// the emission interval.
pub proof fn law_gcra_wait_is_exact(
    emission_interval: Duration,
    delay_variation_tolerance: Duration,
    row: Option<BucketState>,
    now: i64,
    later: i64,
)
    requires
        to_micros(delay_variation_tolerance@) == 0 || to_micros(emission_interval@) <= 2
            * to_micros(delay_variation_tolerance@),
        ({
            let algorithm = gcra(emission_interval, delay_variation_tolerance);
            &&& algorithm.is_in_range(row, now)
            &&& algorithm.is_in_range(row_after(algorithm, row, now), later)
            &&& wait_at(algorithm, row, now) is Some
        }),
    ensures
        ({
            let algorithm = gcra(emission_interval, delay_variation_tolerance);
            let n = wait_at(algorithm, row, now).unwrap();
            let after = row_after(algorithm, row, now);
            &&& after == row
            &&& admits(algorithm, after, later) <==> (later - now) * 1000 >= n
            &&& (later - now) * 1000 < n ==> wait_at(algorithm, after, later) == Some(
                (n - (later - now) * 1000) as nat,
            )
        }),
{
}

/// Under the Generic Cell Rate Algorithm `b`, and as a token bucket `c`, are full
/// again at the same time.
pub open spec fn full_at(
    emission_interval: Duration,
    delay_variation_tolerance: Duration,
    b: BucketState,
    refill_rate_per_sec: i128,
    c: BucketState,
) -> bool {
    c.tokens_used + c.window_start * refill_rate_per_sec == (b.window_start + reach(
        to_micros(emission_interval@),
        to_micros(delay_variation_tolerance@),
    )) * refill_rate_per_sec
}

/// The Generic Cell Rate Algorithm is a token bucket.
///
/// The token bucket refills one token per emission interval, and its capacity is
/// what it refills in the time that the theoretical arrival time can be ahead and
/// behind. Take a bucket of each that is full again at the same time: then both
/// answer a request alike, and are full again at the same time after it.
pub proof fn law_gcra_is_a_token_bucket(
    emission_interval: Duration,
    delay_variation_tolerance: Duration,
    max_capacity: i128,
    refill_rate_per_sec: i128,
    b: BucketState,
    c: BucketState,
    now: i64,
)
    requires
        to_micros(emission_interval@) * refill_rate_per_sec == TOKEN,
        max_capacity == (to_micros(delay_variation_tolerance@) + reach(
            to_micros(emission_interval@),
            to_micros(delay_variation_tolerance@),
        )) * refill_rate_per_sec,
        gcra(emission_interval, delay_variation_tolerance).is_in_range(
            Some(b),
            now,
        ),
        full_at(emission_interval, delay_variation_tolerance, b, refill_rate_per_sec, c),
        c.tokens_used - (now - c.window_start) * refill_rate_per_sec <= max_capacity,
    ensures
        ({
            let cells = gcra(emission_interval, delay_variation_tolerance);
            let bucket = token_bucket(max_capacity, refill_rate_per_sec);
            &&& wait_at(cells, Some(b), now) == wait_at(bucket, Some(c), now)
            &&& row_after(cells, Some(b), now) matches Some(b2)
            &&& row_after(bucket, Some(c), now) matches Some(c2)
            &&& full_at(emission_interval, delay_variation_tolerance, b2, refill_rate_per_sec, c2)
        }),
{
    let cells = gcra(emission_interval, delay_variation_tolerance);
    let bucket = token_bucket(max_capacity, refill_rate_per_sec);
    let r = refill_rate_per_sec as int;
    let emission = to_micros(emission_interval@) as int;
    let tolerance = to_micros(delay_variation_tolerance@) as int;
    let back = reach(emission as nat, tolerance as nat) as int;
    let ahead = b.window_start + back - now;
    let used = if ahead < 0 { 0 } else { ahead };
    assert(r > 0) by (nonlinear_arith)
        requires
            emission * r == TOKEN,
            emission >= 0,
            TOKEN > 0,
    ;
    assert(c.tokens_used - (now - c.window_start) * r == ahead * r) by (nonlinear_arith)
        requires
            c.tokens_used + c.window_start * r == (b.window_start + back) * r,
            ahead == b.window_start + back - now,
    ;
    assert(ahead < 0 <==> ahead * r < 0) by (nonlinear_arith)
        requires
            r > 0,
    ;
    assert((tolerance + back) * r >= 0) by (nonlinear_arith)
        requires
            tolerance + back >= 0,
            r > 0,
    ;
    let over = used + emission - (tolerance + back);
    assert(over * r == used * r + TOKEN - (tolerance + back) * r) by (nonlinear_arith)
        requires
            over == used + emission - (tolerance + back),
            emission * r == TOKEN,
    ;
    assert(0 * r == 0);
    assert(tokens_out(Some(c), now, max_capacity, refill_rate_per_sec) == used * r);
    assert(overshoot(Some(b), now, emission as nat, tolerance as nat) == over);
    assert(over <= 0 <==> over * r <= 0) by (nonlinear_arith)
        requires
            r > 0,
    ;
    if over > 0 {
        let n = (over * r * 1000) as nat;
        assert(over * r * 1000 == (over * 1000) * r) by (nonlinear_arith);
        assert(n % (r as nat) == 0 && n / (r as nat) == over * 1000) by {
            vstd::arithmetic::div_mod::lemma_fundamental_div_mod_converse(
                n as int,
                r,
                over * 1000,
                0,
            );
        }
        lemma_nearest(n, r as nat);
    } else {
        assert(new_arrival_time(Some(b), now, emission as nat, tolerance as nat) == used + emission
            - back + now);
        assert((used + emission + now) * r == used * r + TOKEN + now * r) by (nonlinear_arith)
            requires
                emission * r == TOKEN,
        ;
    }
}

/// The bucket `id` of the table, or `None` if it does not exist.
pub open spec fn lookup(table: Table, id: Seq<char>) -> Option<BucketState> {
    if table.contains_key(id) {
        Some(table[id])
    } else {
        None
    }
}

/// The database as a check sees it: the table that everyone sees, and the same
/// with the changes of the check's own transaction while that is open.
pub struct Session {
    /// The table that everyone sees.
    pub table: Table,
    /// The table as the open transaction sees it.
    pub open: Option<Table>,
}

impl Session {
    /// The table as the check sees it.
    pub open spec fn visible(self) -> Table {
        match self.open {
            Some(table) => table,
            None => self.table,
        }
    }

    /// The database after an action that succeeds. Others see the changes of the
    /// transaction only once it is committed.
    pub open spec fn after(self, action: ActionView) -> Session {
        match action {
            ActionView::Begin => Session { table: self.table, open: Some(self.table) },
            ActionView::Run(statement) => Session {
                table: self.table,
                open: Some(statement.apply(self.visible())),
            },
            ActionView::Commit => Session { table: self.visible(), open: None },
            ActionView::Return(_) => self,
        }
    }

    /// The database after an action that fails, and with it the transaction. Only a
    /// commit can take effect all the same, if what fails is to hear of it.
    pub open spec fn after_failure(self, action: ActionView, took_effect: bool) -> Session {
        if action == ActionView::Commit && took_effect {
            self.after(action)
        } else {
            Session { table: self.table, open: None }
        }
    }
}

/// A failure in the course of a check.
pub struct Failure {
    /// How many actions succeed before the one that fails.
    pub at: nat,
    /// The message that comes of it.
    pub message: String,
    /// A commit that fails took effect.
    pub took_effect: bool,
}

/// What comes of an action that succeeds, with the clock at `now`.
pub open spec fn event_of(action: ActionView, session: Session, now: i64) -> Event {
    match action {
        ActionView::Run(StatementView::ReadClock) => Event::Clock(now),
        ActionView::Run(StatementView::Load { id }) => Event::Row(lookup(session.visible(), id)),
        _ => Event::Done,
    }
}

/// The table that everyone sees and the last action of a check that stands at
/// `stage` with `action` to perform, after at most `steps` more actions.
pub open spec fn perform(
    id: Seq<char>,
    algorithm: RateLimitAlgorithm,
    stage: CheckStage,
    action: ActionView,
    session: Session,
    now: i64,
    failure: Option<Failure>,
    steps: nat,
) -> (Table, ActionView)
    decreases steps,
{
    if steps == 0 || action is Return {
        (session.table, action)
    } else {
        let fails = failure is Some && failure.unwrap().at == 0;
        let event = if fails {
            Event::Failed(failure.unwrap().message)
        } else {
            event_of(action, session, now)
        };
        let next = check_next(id, algorithm, stage, event);
        perform(
            id,
            algorithm,
            next.0,
            next.1,
            if fails {
                session.after_failure(action, failure.unwrap().took_effect)
            } else {
                session.after(action)
            },
            now,
            match failure {
                Some(f) if f.at > 0 => Some(Failure { at: (f.at - 1) as nat, ..f }),
                _ => None,
            },
            (steps - 1) as nat,
        )
    }
}

/// The table that everyone sees and the last action of a whole check.
pub open spec fn perform_check(
    id: Seq<char>,
    algorithm: RateLimitAlgorithm,
    table: Table,
    now: i64,
    failure: Option<Failure>,
) -> (Table, ActionView) {
    perform(
        id,
        algorithm,
        CheckStage::Beginning,
        ActionView::Begin,
        Session { table, open: None },
        now,
        failure,
        7,
    )
}

/// How many actions a check performs if none of them fails: it opens the
/// transaction, locks, reads the clock, loads, and then stores if there is
/// something to store, and commits if the database can hold the outcome.
pub open spec fn actions_of_check(
    algorithm: RateLimitAlgorithm,
    row: Option<BucketState>,
    now: i64,
) -> nat {
    if !algorithm.is_in_range(row, now) {
        4
    } else if algorithm.write(row, now) is Some {
        6
    } else {
        5
    }
}

/// A check that nothing goes wrong with applies the algorithm to its own bucket and
/// gives its answer, or the error that the database cannot hold the outcome. Every
/// other bucket stays as it is.
pub proof fn law_check_serves_its_bucket(
    id: Seq<char>,
    algorithm: RateLimitAlgorithm,
    table: Table,
    now: i64,
)
    requires
        algorithm.is_in_range(lookup(table, id), now) ==> algorithm.has_answer(
            algorithm.reply(lookup(table, id), now),
        ),
    ensures
        ({
            let row = lookup(table, id);
            let end = perform_check(id, algorithm, table, now, None);
            &&& end.1 == match algorithm.out_of_range(row, now) {
                None => ActionView::Return(Ok(wait_at(algorithm, row, now))),
                Some(what) => ActionView::Return(Err(out_of_range_text(what))),
            }
            &&& lookup(end.0, id) == row_after(algorithm, row, now)
            &&& forall|other: Seq<char>|
                other != id ==> #[trigger] lookup(end.0, other) == lookup(table, other)
        }),
{
    reveal_with_fuel(perform, 8);
}

/// A check that anything goes wrong with ends with the message that came, and is all
/// or nothing. If an action before the commit fails, the table stays as it was. If
/// the commit fails, the table is as it was, or as it is after a check that nothing
/// goes wrong with.
pub proof fn law_failed_check_is_all_or_nothing(
    id: Seq<char>,
    algorithm: RateLimitAlgorithm,
    table: Table,
    now: i64,
    failure: Failure,
)
    requires
        failure.at < actions_of_check(algorithm, lookup(table, id), now),
    ensures
        ({
            let row = lookup(table, id);
            let end = perform_check(id, algorithm, table, now, Some(failure));
            let commits = algorithm.is_in_range(row, now) && failure.at + 1 == actions_of_check(
                algorithm,
                row,
                now,
            );
            &&& end.1 == ActionView::Return(Err(failure.message@))
            &&& !commits ==> end.0 == table
            &&& commits ==> end.0 == table || end.0 == perform_check(
                id,
                algorithm,
                table,
                now,
                None,
            ).0
        }),
{
    reveal_with_fuel(perform, 8);
}

/// A check holds the lock whenever it reads the clock, reads the bucket, writes it
/// or commits: it comes to these only by way of the lock. It writes only its own
/// bucket, and only once it has read it.
pub proof fn law_check_holds_the_lock(
    id: Seq<char>,
    algorithm: RateLimitAlgorithm,
    stage: CheckStage,
    event: Event,
)
    requires
        can_come(stage, event),
    ensures
        ({
            let next = check_next(id, algorithm, stage, event);
            &&& next.0 is Locking <==> stage is Beginning && event is Done
            &&& next.0 is Locking ==> next.1 == ActionView::Run(StatementView::Lock { id })
            &&& next.0 is ReadingClock <==> stage is Locking && event is Done
            &&& next.0 is Loading <==> stage is ReadingClock && event is Clock
            &&& next.0 is Storing ==> stage is Loading && event is Row
            &&& next.0 is Committing ==> (stage is Loading && event is Row) || (stage is Storing
                && event is Done)
            &&& next.1 == ActionView::Commit <==> next.0 is Committing
            &&& next.1 matches ActionView::Run(statement) ==> {
                &&& statement is Store || statement is Advance <==> next.0 is Storing
                &&& forall|table: Table, other: Seq<char>|
                    other != id ==> #[trigger] lookup(statement.apply(table), other) == lookup(
                        table,
                        other,
                    )
            }
        }),
{
}

/// A check that anything goes wrong with ends at once with the message that came.
/// It runs no further statement and does not commit.
pub proof fn law_failure_ends_the_check(
    id: Seq<char>,
    algorithm: RateLimitAlgorithm,
    stage: CheckStage,
    message: String,
)
    ensures
        check_next(id, algorithm, stage, Event::Failed(message)) == (
            CheckStage::Finished,
            ActionView::Return(Err(message@)),
        ),
{
}

/// After a bucket was cleared, the next check on it finds a fresh bucket, and every
/// other bucket is as it was.
pub proof fn law_cleared_bucket_is_fresh(id: Seq<char>, table: Table)
    ensures
        ({
            let cleared = StatementView::Delete { id }.apply(table);
            &&& lookup(cleared, id) is None
            &&& forall|other: Seq<char>|
                other != id ==> #[trigger] lookup(cleared, other) == lookup(table, other)
        }),
{
}

} // verus!
