//! What a single request and a single step of a check come to, said in numbers and
//! texts.
//!
//! The laws of [`crate::laws`] speak of many requests. Those here speak of one, and
//! only in terms of what goes into it and what comes out: of the settings, the
//! bucket, the clock and the answer.

use crate::bucket::{BucketState, TOKEN, TOKEN_PER_SEC};
use crate::duration::{Duration, MAX_NANOS, NANOS_PER_SEC};
use crate::fixed_window::window_is_over;
use crate::gcra::{is_timestamp, to_micros, OutOfRange};
use crate::rate_limit::{
    can_come, check_next, is_answerable, is_stage_of, out_of_range_text, Action, ActionView,
    CheckStage, Event, RateLimitAlgorithm, Reply,
};
use crate::rounding::{lemma_nearest_is_monotonic, nearest};
use crate::statement::{Statement, StatementView, Table};
use crate::task::{Error, RateLimitDecision};
use crate::token_bucket::tokens_out;
use vstd::prelude::*;

verus! {

/// One token per second gives back one token in a million microseconds, and a
/// duration ends one nanosecond before it needs more seconds than a `u64` counts.
pub proof fn law_units()
    ensures
        TOKEN == 1_000_000_000_000_000_000_000_000_000,
        TOKEN_PER_SEC * 1_000_000 == TOKEN,
        NANOS_PER_SEC == 1_000_000_000,
        MAX_NANOS == 18_446_744_073_709_551_615 * 1_000_000_000 + 999_999_999,
{
}

/// Rounding goes to the nearest: what is lost or gained is at most half of the
/// divisor, and if it is just half, the result is even.
pub proof fn law_rounding_is_to_the_nearest(n: nat, d: nat)
    requires
        d > 0,
    ensures
        2 * n - d <= 2 * (nearest(n, d) * d) <= 2 * n + d,
        2 * (nearest(n, d) * d) == 2 * n - d ==> nearest(n, d) % 2 == 0,
        2 * (nearest(n, d) * d) == 2 * n + d ==> nearest(n, d) % 2 == 0,
{
    let q = n / d;
    let r = n % d;
    assert(n == q * d + r && r < d) by (nonlinear_arith)
        requires
            d > 0,
            q == n / d,
            r == n % d,
    ;
    assert((q + 1) * d == q * d + d) by (nonlinear_arith);
}

/// A setting in microseconds is within half a microsecond of the setting itself, and
/// a setting of whole microseconds is kept as it is.
pub proof fn law_settings_keep_their_length(nanos: nat)
    ensures
        2 * nanos - 1000 <= 2 * (to_micros(nanos) * 1000) <= 2 * nanos + 1000,
        nanos % 1000 == 0 ==> to_micros(nanos) * 1000 == nanos,
        nanos % 1000 == 500 ==> to_micros(nanos) % 2 == 0,
{
    law_rounding_is_to_the_nearest(nanos, 1000);
}

/// The database holds the points in time from the year 4713 BC to the year 294276.
pub proof fn law_timestamps(t: int)
    ensures
        is_timestamp(t) <==> -211_813_488_000_000_000 <= t < 9_223_371_331_200_000_000,
{
}

/// A window of `window` nanoseconds is over when these have passed since it opened.
pub proof fn law_a_window_lasts_for_its_length(start: int, now: int, window: nat)
    ensures
        window_is_over(start, now, window) <==> now * 1000 >= start * 1000 + window,
{
}

/// A request on a fixed window either opens a window, if there is none or it is over,
/// or it is the next one in the window that is open. It may run if it is not beyond
/// number `max_tokens` of its window, and has to wait for the end of that window if
/// it is.
pub proof fn law_fixed_window_request(
    max_tokens: i32,
    window: Duration,
    row: Option<BucketState>,
    now: i64,
)
    ensures
        ({
            let algorithm = RateLimitAlgorithm::FixedWindow { max_tokens, window };
            &&& algorithm.out_of_range(row, now) is None
            &&& algorithm.write(row, now) matches Some(b)
            // The window that the request is in, and its number there.
            &&& row is None ==> b.window_start == now && b.tokens_used == TOKEN
            &&& row matches Some(a) ==> {
                &&& a.window_start * 1000 + window@ <= now * 1000 ==> b.window_start == now
                    && b.tokens_used == TOKEN
                &&& now * 1000 < a.window_start * 1000 + window@ ==> {
                    &&& b.window_start == a.window_start
                    &&& a.tokens_used + TOKEN <= i128::MAX ==> b.tokens_used - a.tokens_used
                        == TOKEN
                    &&& a.tokens_used + TOKEN > i128::MAX ==> b.tokens_used == i128::MAX
                }
            }
            // What the request is told.
            &&& algorithm.reply(row, now) == (Reply::FixedWindow {
                tokens_used: b.tokens_used,
                elapsed: (now - b.window_start) as i128,
            })
            &&& algorithm.wait(algorithm.reply(row, now)) is None <==> b.tokens_used
                <= max_tokens * TOKEN
            &&& algorithm.wait(algorithm.reply(row, now)) matches Some(n) ==> {
                &&& now * 1000 < b.window_start * 1000 + window@ ==> now * 1000 + n
                    == b.window_start * 1000 + window@
                &&& now * 1000 >= b.window_start * 1000 + window@ ==> n == 0
            }
        }),
{
}

/// Whatever its number and its place in the window, a request on a fixed window may
/// run if it is not beyond `max_tokens`, and else waits for what is left. There is an
/// answer unless that is too long for a duration.
pub proof fn law_fixed_window_answer(
    max_tokens: i32,
    window: Duration,
    tokens_used: i128,
    elapsed: i128,
)
    ensures
        ({
            let algorithm = RateLimitAlgorithm::FixedWindow { max_tokens, window };
            let reply = Reply::FixedWindow { tokens_used, elapsed };
            &&& algorithm.wait(reply) is None <==> tokens_used <= max_tokens * TOKEN
            &&& algorithm.wait(reply) matches Some(n) ==> {
                &&& n == 0 || n + elapsed * 1000 == window@
                &&& n == 0 <==> window@ <= elapsed * 1000
            }
            &&& algorithm.has_answer(reply) <==> tokens_used <= max_tokens * TOKEN || window@
                - elapsed * 1000 <= MAX_NANOS
            &&& algorithm.can_find(reply) <==> -0x1_0000_0000_0000_0000 < elapsed
                < 0x1_0000_0000_0000_0000
        }),
{
}

/// A request on a token bucket finds the tokens that were out less all that came back
/// since the bucket was written, however long ago that was. The count ends at zero
/// and at the capacity, and nowhere between. If there is room, the request takes one
/// token on top of what it found, and if not, the bucket stays as it is.
pub proof fn law_token_bucket_request(
    max_capacity: i128,
    refill_rate_per_sec: i128,
    row: Option<BucketState>,
    now: i64,
)
    ensures
        ({
            let algorithm = RateLimitAlgorithm::TokenBucket { max_capacity, refill_rate_per_sec };
            &&& algorithm.out_of_range(row, now) is None
            &&& algorithm.reply(row, now) matches Reply::TokenBucket { current_tokens }
            // What the request finds.
            &&& row is None ==> current_tokens == 0
            &&& row matches Some(b) ==> {
                let left = b.tokens_used - (now - b.window_start) * refill_rate_per_sec;
                &&& left <= 0 ==> current_tokens == 0
                &&& max_capacity <= 0 ==> current_tokens == 0
                &&& 0 <= left <= max_capacity ==> current_tokens == left
                &&& 0 <= max_capacity <= left ==> current_tokens == max_capacity
            }
            // What it writes.
            &&& algorithm.write(row, now) is Some <==> current_tokens + TOKEN <= max_capacity
            &&& algorithm.write(row, now) matches Some(b) ==> b.window_start == now
                && b.tokens_used - current_tokens == TOKEN
            &&& algorithm.wait(algorithm.reply(row, now)) is None <==> algorithm.write(
                row,
                now,
            ) is Some
        }),
{
}

/// However many tokens a request finds out, it may run if the capacity holds one more.
/// If not, it waits until what is missing has come back, to the nearest nanosecond.
/// There is an answer unless nothing ever comes back, or only after a time that is
/// too long for a duration.
pub proof fn law_token_bucket_answer(
    max_capacity: i128,
    refill_rate_per_sec: i128,
    current_tokens: i128,
)
    ensures
        ({
            let algorithm = RateLimitAlgorithm::TokenBucket { max_capacity, refill_rate_per_sec };
            let reply = Reply::TokenBucket { current_tokens };
            let missing = current_tokens + TOKEN - max_capacity;
            let rate = refill_rate_per_sec as int;
            &&& algorithm.wait(reply) is None <==> missing <= 0
            &&& missing > 0 && rate < 0 ==> algorithm.wait(reply) == Some(0nat)
            &&& missing > 0 && rate > 0 ==> {
                &&& algorithm.wait(reply) matches Some(n)
                &&& 2 * (missing * 1000) - rate <= 2 * (n * rate) <= 2 * (missing * 1000) + rate
                &&& 2 * (n * rate) == 2 * (missing * 1000) - rate ==> n % 2 == 0
                &&& 2 * (n * rate) == 2 * (missing * 1000) + rate ==> n % 2 == 0
            }
            &&& missing <= 0 ==> algorithm.has_answer(reply)
            &&& missing > 0 && rate == 0 ==> !algorithm.has_answer(reply)
            &&& missing > 0 && rate != 0 ==> (algorithm.has_answer(reply) <==> algorithm.wait(
                reply,
            ).unwrap() <= MAX_NANOS)
            &&& algorithm.can_find(reply) <==> current_tokens == 0 || 0 < current_tokens
                <= max_capacity
        }),
{
    let missing = current_tokens + TOKEN - max_capacity;
    if missing > 0 && refill_rate_per_sec > 0 {
        law_rounding_is_to_the_nearest((missing * 1000) as nat, refill_rate_per_sec as nat);
    }
}

/// A request under the Generic Cell Rate Algorithm moves the theoretical arrival time
/// ahead by the emission interval, from where it was or from as far back as it may
/// lag, whichever is later. In a new bucket it was one emission interval back. The
/// request may run if that takes it no further ahead of the clock than the tolerance,
/// and else has to wait for just as long as it does.
pub proof fn law_gcra_request(
    emission_interval: Duration,
    delay_variation_tolerance: Duration,
    row: Option<BucketState>,
    now: i64,
)
    requires
        (RateLimitAlgorithm::GCRA { emission_interval, delay_variation_tolerance }).out_of_range(
            row,
            now,
        ) is None,
    ensures
        ({
            let algorithm = RateLimitAlgorithm::GCRA {
                emission_interval,
                delay_variation_tolerance,
            };
            let emission = to_micros(emission_interval@) as int;
            let tolerance = to_micros(delay_variation_tolerance@) as int;
            let lag = if tolerance == 0 { emission } else { tolerance };
            &&& algorithm.reply(row, now) matches Reply::GCRA { overshoot }
            // The new theoretical arrival time.
            &&& ({
                let tat = now + tolerance + overshoot;
                &&& row matches Some(b) ==> {
                    &&& b.window_start >= now - lag ==> tat == b.window_start + emission
                    &&& b.window_start <= now - lag ==> tat == now - lag + emission
                }
                &&& row is None && emission <= lag ==> tat == now
                &&& row is None && emission >= lag ==> tat == now - lag + emission
                // What the request writes.
                &&& row is None ==> algorithm.write(row, now) == Some(
                    BucketState { tokens_used: 0, window_start: tat as i64 },
                )
                &&& row matches Some(b) ==> tat <= now + tolerance ==> algorithm.write(row, now)
                    == Some(BucketState { tokens_used: b.tokens_used, window_start: tat as i64 })
                &&& row is Some && tat > now + tolerance ==> algorithm.write(row, now) is None
                // What it is told.
                &&& algorithm.wait(algorithm.reply(row, now)) is None <==> tat <= now + tolerance
                &&& algorithm.wait(algorithm.reply(row, now)) matches Some(n) ==> now * 1000 + n
                    == (tat - tolerance) * 1000
            })
        }),
{
}

/// However far a request overshoots, it may run if it does not, and else waits for
/// just that long. There is always an answer.
pub proof fn law_gcra_answer(
    emission_interval: Duration,
    delay_variation_tolerance: Duration,
    overshoot: i128,
)
    ensures
        ({
            let algorithm = RateLimitAlgorithm::GCRA {
                emission_interval,
                delay_variation_tolerance,
            };
            let reply = Reply::GCRA { overshoot };
            &&& algorithm.wait(reply) is None <==> overshoot <= 0
            &&& algorithm.wait(reply) matches Some(n) ==> n == overshoot * 1000
            &&& algorithm.has_answer(reply)
            &&& algorithm.can_find(reply) <==> -0x1_0000_0000_0000_0000 < overshoot
                < 0x1_0000_0000_0000_0000
        }),
{
}

/// A check under the Generic Cell Rate Algorithm is an error only where the database
/// has no such value. An interval is one that it does not have if it is longer than
/// `i64::MAX` microseconds. With both intervals, the points in time are those at which
/// the request may find and leave the theoretical arrival time, and that up to which
/// it may run.
pub proof fn law_gcra_error_needs_a_value_out_of_range(
    emission_interval: Duration,
    delay_variation_tolerance: Duration,
    row: Option<BucketState>,
    now: i64,
)
    ensures
        ({
            let algorithm = RateLimitAlgorithm::GCRA {
                emission_interval,
                delay_variation_tolerance,
            };
            let emission = to_micros(emission_interval@) as int;
            let tolerance = to_micros(delay_variation_tolerance@) as int;
            let error = algorithm.out_of_range(row, now);
            let earliest: int = -211_813_488_000_000_000;
            let end: int = 9_223_371_331_200_000_000;
            &&& error == Some(OutOfRange::Interval) <==> emission > 0x7fff_ffff_ffff_ffff
                || tolerance > 0x7fff_ffff_ffff_ffff
            &&& emission <= 0x7fff_ffff_ffff_ffff && tolerance <= 0x7fff_ffff_ffff_ffff ==> {
                // Where all of these exist, there is no error.
                &&& ({
                    &&& earliest <= now - emission
                    &&& earliest <= now - tolerance
                    &&& now + tolerance + emission < end
                    &&& row matches Some(b) ==> b.window_start + emission < end
                }) ==> error is None
                // There is one just where one of these does not.
                &&& ({
                    ||| now + tolerance >= end
                    ||| now + tolerance < earliest
                    ||| now - tolerance < earliest
                    ||| now - tolerance >= end
                    ||| row is None && now - emission < earliest
                    ||| tolerance == 0 && now - emission < earliest
                    ||| (row matches Some(b) && b.window_start + emission >= end)
                    ||| tolerance > 0 && now - tolerance + emission >= end
                }) <==> error == Some(OutOfRange::Timestamp)
            }
        }),
{
}

/// However long a bucket was idle, the next request may run, if the tolerance leaves
/// room for a task: zero, or at least half of the emission interval. It leaves the
/// theoretical arrival time one emission interval after the furthest that it may lag.
pub proof fn law_gcra_admits_after_idle_time(
    emission_interval: Duration,
    delay_variation_tolerance: Duration,
    b: BucketState,
    now: i64,
)
    requires
        ({
            let emission = to_micros(emission_interval@) as int;
            let tolerance = to_micros(delay_variation_tolerance@) as int;
            &&& emission <= 0x7fff_ffff_ffff_ffff
            &&& tolerance <= 0x7fff_ffff_ffff_ffff
            &&& -211_813_488_000_000_000 <= now - emission
            &&& -211_813_488_000_000_000 <= now - tolerance
            &&& now + tolerance + emission < 9_223_371_331_200_000_000
            &&& tolerance == 0 || emission <= 2 * tolerance
            &&& tolerance == 0 ==> b.window_start <= now - emission
            &&& tolerance > 0 ==> b.window_start <= now - tolerance
        }),
    ensures
        ({
            let algorithm = RateLimitAlgorithm::GCRA {
                emission_interval,
                delay_variation_tolerance,
            };
            let emission = to_micros(emission_interval@) as int;
            let tolerance = to_micros(delay_variation_tolerance@) as int;
            &&& algorithm.out_of_range(Some(b), now) is None
            &&& algorithm.wait(algorithm.reply(Some(b), now)) is None
            &&& algorithm.write(Some(b), now) == Some(
                BucketState {
                    tokens_used: b.tokens_used,
                    window_start: if tolerance == 0 {
                        now
                    } else {
                        (now - tolerance + emission) as i64
                    },
                },
            )
        }),
{
}

/// Only the time that has passed counts, and not what the clock says. A request finds
/// and is told the same if its clock and that of the bucket are both put on or back by
/// as much, and it writes the same, put on or back by as much.
pub proof fn law_only_passed_time_counts(
    algorithm: RateLimitAlgorithm,
    row: Option<BucketState>,
    now: i64,
    shift: int,
)
    requires
        i64::MIN <= now + shift <= i64::MAX,
        row matches Some(b) ==> i64::MIN <= b.window_start + shift <= i64::MAX,
    ensures
        ({
            let at = (now + shift) as i64;
            let shifted = match row {
                Some(b) => Some(
                    BucketState {
                        tokens_used: b.tokens_used,
                        window_start: (b.window_start + shift) as i64,
                    },
                ),
                None => None,
            };
            &&& algorithm.reply(shifted, at) == algorithm.reply(row, now)
            &&& algorithm.wait(algorithm.reply(shifted, at)) == algorithm.wait(
                algorithm.reply(row, now),
            )
            &&& algorithm.out_of_range(row, now) is None && algorithm.out_of_range(
                shifted,
                at,
            ) is None ==> match (algorithm.write(row, now), algorithm.write(shifted, at)) {
                (Some(a), Some(b)) => b.tokens_used == a.tokens_used && b.window_start
                    - a.window_start == shift,
                (None, None) => true,
                _ => false,
            }
        }),
{
    if let (
        RateLimitAlgorithm::TokenBucket { max_capacity, refill_rate_per_sec },
        Some(b),
    ) = (algorithm, row) {
        assert((now + shift) - (b.window_start + shift) == now - b.window_start);
    }
}

/// A request that comes later has no longer to wait, on a fixed window, on a token
/// bucket that is refilled, and under the Generic Cell Rate Algorithm.
pub proof fn law_waiting_helps(
    algorithm: RateLimitAlgorithm,
    row: Option<BucketState>,
    now: i64,
    later: i64,
)
    requires
        now <= later,
        algorithm matches RateLimitAlgorithm::FixedWindow { max_tokens, .. } ==> max_tokens >= 1,
        algorithm matches RateLimitAlgorithm::TokenBucket { refill_rate_per_sec, .. } ==>
            refill_rate_per_sec > 0,
        algorithm.out_of_range(row, now) is None,
        algorithm.out_of_range(row, later) is None,
        algorithm.wait(algorithm.reply(row, later)) is Some,
    ensures
        algorithm.wait(algorithm.reply(row, now)) matches Some(n) && algorithm.wait(
            algorithm.reply(row, later),
        )->0 <= n,
{
    if let RateLimitAlgorithm::TokenBucket { max_capacity, refill_rate_per_sec } = algorithm {
        let r = refill_rate_per_sec as int;
        if let Some(b) = row {
            assert((now - b.window_start) * r <= (later - b.window_start) * r)
                by (nonlinear_arith)
                requires
                    now <= later,
                    r > 0,
            ;
        }
        let missing = tokens_out(row, now, max_capacity, refill_rate_per_sec) + TOKEN - max_capacity;
        let missing_later = tokens_out(row, later, max_capacity, refill_rate_per_sec) + TOKEN
            - max_capacity;
        lemma_nearest_is_monotonic(
            (missing_later * 1000) as nat,
            (missing * 1000) as nat,
            refill_rate_per_sec as nat,
        );
    }
}

/// A bucket is written with its count, but under the Generic Cell Rate Algorithm only
/// with its point in time.
pub proof fn law_what_is_written(algorithm: RateLimitAlgorithm, id: Seq<char>, state: BucketState)
    ensures
        algorithm is GCRA ==> algorithm.store(id, state) == (StatementView::Advance {
            id,
            window_start: state.window_start,
        }),
        algorithm !is GCRA ==> algorithm.store(id, state) == (StatementView::Store { id, state }),
{
}

/// Two statements of one kind have the same text, whatever they carry, and it is the
/// one given here.
pub proof fn law_text_goes_by_kind(a: StatementView, b: StatementView)
    ensures
        ({
            ||| a is Lock && b is Lock
            ||| a is ReadClock && b is ReadClock
            ||| a is Load && b is Load
            ||| a is Store && b is Store
            ||| a is Advance && b is Advance
            ||| a is Delete && b is Delete
        }) ==> a.text() == b.text(),
        a is Lock ==> a.text() == "SELECT pg_advisory_xact_lock(hashtext($1))"@,
        a is ReadClock ==> a.text() == "SELECT now()"@,
        a is Load ==> a.text()
            == "SELECT tokens_used::float8, window_start FROM underway.global_rate_limit WHERE id = $1 FOR UPDATE"@,
        a is Store ==> a.text()
            == "INSERT INTO underway.global_rate_limit (id, tokens_used, window_start) VALUES ($1, $2, $3) ON CONFLICT (id) DO UPDATE SET tokens_used = EXCLUDED.tokens_used, window_start = EXCLUDED.window_start"@,
        a is Advance ==> a.text()
            == "INSERT INTO underway.global_rate_limit (id, tokens_used, window_start) VALUES ($1, 0, $2) ON CONFLICT (id) DO UPDATE SET window_start = EXCLUDED.window_start"@,
        a is Delete ==> a.text() == "DELETE FROM underway.global_rate_limit WHERE id = $1"@,
{
}

/// What a statement writes to a bucket is what the next one reads from it, and no
/// statement touches another bucket.
pub proof fn law_effect_of_a_statement(
    statement: StatementView,
    table: Table,
    id: Seq<char>,
    state: BucketState,
    window_start: i64,
    other: Seq<char>,
)
    requires
        other != id,
    ensures
        ({
            let after = StatementView::Store { id, state }.apply(table);
            &&& after.contains_key(id) && after[id] == state
            &&& after.contains_key(other) <==> table.contains_key(other)
            &&& table.contains_key(other) ==> after[other] == table[other]
        }),
        ({
            let after = StatementView::Advance { id, window_start }.apply(table);
            &&& after.contains_key(id) && after[id].window_start == window_start
            &&& table.contains_key(id) ==> after[id].tokens_used == table[id].tokens_used
            &&& !table.contains_key(id) ==> after[id].tokens_used == 0
            &&& after.contains_key(other) <==> table.contains_key(other)
            &&& table.contains_key(other) ==> after[other] == table[other]
        }),
        ({
            let after = StatementView::Delete { id }.apply(table);
            &&& !after.contains_key(id)
            &&& after.contains_key(other) <==> table.contains_key(other)
            &&& table.contains_key(other) ==> after[other] == table[other]
        }),
        statement is Lock || statement is ReadClock || statement is Load ==> statement.apply(table)
            == table,
{
}

/// A check opens a transaction, locks its bucket, reads the clock, reads its bucket,
/// writes it if there is something to write, commits, and then gives its answer: each
/// step follows when the one before it is done, and all of them are about one bucket.
pub proof fn law_course_of_a_check(
    id: Seq<char>,
    algorithm: RateLimitAlgorithm,
    now: i64,
    row: Option<BucketState>,
    reply: Reply,
)
    ensures
        check_next(id, algorithm, CheckStage::Beginning, Event::Done) == (
            CheckStage::Locking,
            ActionView::Run(StatementView::Lock { id }),
        ),
        check_next(id, algorithm, CheckStage::Locking, Event::Done) == (
            CheckStage::ReadingClock,
            ActionView::Run(StatementView::ReadClock),
        ),
        check_next(id, algorithm, CheckStage::ReadingClock, Event::Clock(now)) == (
            CheckStage::Loading { now },
            ActionView::Run(StatementView::Load { id }),
        ),
        ({
            let next = check_next(id, algorithm, CheckStage::Loading { now }, Event::Row(row));
            &&& algorithm.out_of_range(row, now) == Some(OutOfRange::Interval) ==> next == (
                CheckStage::Finished,
                ActionView::Return(
                    Err("error returned from database: interval out of range"@),
                ),
            )
            &&& algorithm.out_of_range(row, now) == Some(OutOfRange::Timestamp) ==> next == (
                CheckStage::Finished,
                ActionView::Return(
                    Err("error returned from database: timestamp out of range"@),
                ),
            )
            &&& algorithm.out_of_range(row, now) is None ==> match algorithm.write(row, now) {
                Some(state) => next == (
                    CheckStage::Storing { reply: algorithm.reply(row, now) },
                    ActionView::Run(algorithm.store(id, state)),
                ),
                None => next == (
                    CheckStage::Committing { reply: algorithm.reply(row, now) },
                    ActionView::Commit,
                ),
            }
        }),
        check_next(id, algorithm, CheckStage::Storing { reply }, Event::Done) == (
            CheckStage::Committing { reply },
            ActionView::Commit,
        ),
        check_next(id, algorithm, CheckStage::Committing { reply }, Event::Done) == (
            CheckStage::Finished,
            ActionView::Return(Ok(algorithm.wait(reply))),
        ),
{
}

/// A check takes every outcome of its actions: each can fail with any message, the
/// clock can be at any time, and the bucket can hold anything or not exist. Only a
/// check that is over takes nothing more.
pub proof fn law_every_outcome_is_taken(
    algorithm: RateLimitAlgorithm,
    stage: CheckStage,
    now: i64,
    row: Option<BucketState>,
    message: String,
)
    ensures
        can_come(stage, Event::Failed(message)) <==> stage !is Finished,
        can_come(stage, Event::Clock(now)) <==> stage is ReadingClock,
        can_come(stage, Event::Row(row)) <==> stage is Loading,
        can_come(stage, Event::Done) <==> stage is Beginning || stage is Locking
            || stage is Storing || stage is Committing,
        stage matches CheckStage::Storing { reply } ==> {
            &&& is_stage_of(algorithm, stage) <==> algorithm.can_find(reply)
            &&& is_answerable(algorithm, stage) <==> algorithm.has_answer(reply)
        },
        stage matches CheckStage::Committing { reply } ==> {
            &&& is_stage_of(algorithm, stage) <==> algorithm.can_find(reply)
            &&& is_answerable(algorithm, stage) <==> algorithm.has_answer(reply)
        },
        stage !is Storing && stage !is Committing ==> is_stage_of(algorithm, stage)
            && is_answerable(algorithm, stage),
{
}

/// The two errors of the database's range have one text each.
pub proof fn law_range_errors_have_their_text()
    ensures
        out_of_range_text(OutOfRange::Interval)
            == "error returned from database: interval out of range"@,
        out_of_range_text(OutOfRange::Timestamp)
            == "error returned from database: timestamp out of range"@,
{
}

/// The views of answers, errors, actions and statements show all that they hold.
pub proof fn law_views_show_everything(
    decision: RateLimitDecision,
    error: Error,
    action: Action,
    statement: Statement,
)
    ensures
        decision@ == match decision {
            RateLimitDecision::Allowed => None,
            RateLimitDecision::Limited { retry_after } => Some(retry_after@),
        },
        error matches Error::Retryable(message) ==> error@ == message@,
        action is Begin <==> action@ is Begin,
        action is Commit <==> action@ is Commit,
        action matches Action::Run(s) ==> action@ == ActionView::Run(s@),
        action matches Action::Return(Ok(d)) ==> action@ == ActionView::Return(Ok(d@)),
        action matches Action::Return(Err(e)) ==> action@ == ActionView::Return(Err(e@)),
        statement is ReadClock <==> statement@ is ReadClock,
        statement matches Statement::Lock { id } ==> statement@ == (StatementView::Lock { id: id@ }),
        statement matches Statement::Load { id } ==> statement@ == (StatementView::Load { id: id@ }),
        statement matches Statement::Store { id, state } ==> statement@ == (StatementView::Store {
            id: id@,
            state,
        }),
        statement matches Statement::Advance { id, window_start } ==> statement@ == (
        StatementView::Advance { id: id@, window_start }),
        statement matches Statement::Delete { id } ==> statement@ == (StatementView::Delete {
            id: id@,
        }),
{
}

} // verus!
