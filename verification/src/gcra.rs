//! The Generic Cell Rate Algorithm: a token bucket that keeps only one point in
//! time.
//!
//! The point is the theoretical arrival time, kept in the bucket's
//! `window_start`. Each task that runs moves it ahead by the emission interval.
//! A task may run if the new theoretical arrival time is at most the tolerance
//! ahead of the clock. A bucket that was idle does not save up without end: the
//! theoretical arrival time never counts as further back than the tolerance, or
//! than one emission interval if the tolerance is zero. With a tolerance of zero
//! tasks are thus spaced by the emission interval.

use crate::bucket::{elapsed_micros, is_span, BucketState};
use crate::duration::Duration;
use crate::rounding::{divide_nearest, nearest};
use crate::task::RateLimitDecision;
use vstd::prelude::*;

verus! {

/// The earliest point in time that the database can hold.
pub const MIN_TIMESTAMP: i64 = -211_813_488_000_000_000;

/// The first point in time that is too late for the database to hold.
pub const END_TIMESTAMP: i64 = 9_223_371_331_200_000_000;

/// The database can hold the point in time `t`.
pub open spec fn is_timestamp(t: int) -> bool {
    MIN_TIMESTAMP <= t < END_TIMESTAMP
}

/// A span of `nanos` nanoseconds in microseconds, rounded to the nearest: the
/// resolution of the database.
pub open spec fn to_micros(nanos: nat) -> nat {
    nearest(nanos, 1000)
}

/// How far behind the clock the theoretical arrival time may lag, in
/// microseconds.
pub open spec fn reach(emission: nat, tolerance: nat) -> nat {
    if tolerance == 0 {
        emission
    } else {
        tolerance
    }
}

/// The theoretical arrival time that a request at `now` finds. In a bucket that
/// does not exist yet it lies one emission interval back.
pub open spec fn arrival_time(row: Option<BucketState>, now: i64, emission: nat) -> int {
    match row {
        Some(b) => b.window_start as int,
        None => now - emission,
    }
}

/// The theoretical arrival time with the task of a request at `now` in it.
pub open spec fn new_arrival_time(
    row: Option<BucketState>,
    now: i64,
    emission: nat,
    tolerance: nat,
) -> int {
    let found = arrival_time(row, now, emission);
    let floor = now - reach(emission, tolerance);
    emission + if found < floor {
        floor
    } else {
        found
    }
}

/// How far the new theoretical arrival time overshoots what the tolerance allows,
/// in microseconds. The request may run if this is not positive.
pub open spec fn overshoot(
    row: Option<BucketState>,
    now: i64,
    emission: nat,
    tolerance: nat,
) -> int {
    new_arrival_time(row, now, emission, tolerance) - (now + tolerance)
}

/// What the database cannot hold.
#[derive(Debug, Clone, Copy, PartialEq, Eq)]
pub enum OutOfRange {
    /// The length of an interval.
    Interval,
    /// A point in time.
    Timestamp,
}

/// The database can hold every point in time that a request at `now` leads to.
pub open spec fn gcra_times_fit(
    row: Option<BucketState>,
    now: i64,
    emission: nat,
    tolerance: nat,
) -> bool {
    &&& row is None ==> is_timestamp(now - emission)
    &&& is_timestamp(now - reach(emission, tolerance))
    &&& is_timestamp(new_arrival_time(row, now, emission, tolerance))
    &&& is_timestamp(now + tolerance)
}

/// What a request at `now` leads to that the database cannot hold, if anything:
/// one of the two intervals, or else a point in time.
pub open spec fn gcra_out_of_range(
    row: Option<BucketState>,
    now: i64,
    emission: nat,
    tolerance: nat,
) -> Option<OutOfRange> {
    if emission > i64::MAX || tolerance > i64::MAX {
        Some(OutOfRange::Interval)
    } else if !gcra_times_fit(row, now, emission, tolerance) {
        Some(OutOfRange::Timestamp)
    } else {
        None
    }
}

/// What a request at `now` writes. A new bucket is written in any case. In one
/// that exists the theoretical arrival time is moved if the request may run, and
/// nothing is written if it may not.
pub open spec fn gcra_write(
    row: Option<BucketState>,
    now: i64,
    emission: nat,
    tolerance: nat,
) -> Option<BucketState> {
    let tat = new_arrival_time(row, now, emission, tolerance) as i64;
    match row {
        None => Some(BucketState { tokens_used: 0, window_start: tat }),
        Some(b) => if overshoot(row, now, emission, tolerance) <= 0 {
            Some(BucketState { tokens_used: b.tokens_used, window_start: tat })
        } else {
            None
        },
    }
}

/// Of a request that overshoots by `micros` microseconds: `None` if it may run,
/// else the nanoseconds until it may.
pub open spec fn gcra_wait(micros: int) -> Option<nat> {
    if micros <= 0 {
        None
    } else {
        Some((micros * 1000) as nat)
    }
}

/// What came of a request.
#[derive(Debug, Clone, Copy, PartialEq, Eq)]
pub struct GcraOutcome {
    /// What to write to the bucket, if anything.
    pub write: Option<BucketState>,
    /// The overshoot in microseconds.
    pub overshoot: i128,
}

/// The span in microseconds, or `None` if the database has no interval of that
/// length.
fn interval_micros(span: &Duration) -> (micros: Option<i64>)
    ensures
        micros is Some <==> to_micros(span@) <= i64::MAX,
        micros matches Some(m) ==> m == to_micros(span@),
{
    let micros: u128 = divide_nearest(span.as_nanos(), 1000);
    if micros <= i64::MAX as u128 {
        Some(micros as i64)
    } else {
        None
    }
}

/// The point in time as the database holds it, or `None` if it cannot.
fn timestamp(t: i128) -> (r: Option<i64>)
    ensures
        r is Some <==> is_timestamp(t as int),
        r matches Some(x) ==> x == t,
{
    if MIN_TIMESTAMP as i128 <= t && t < END_TIMESTAMP as i128 {
        Some(t as i64)
    } else {
        None
    }
}

/// Serves a request at `now`, unless it leads to something that the database cannot
/// hold.
pub fn gcra_upsert(
    row: Option<BucketState>,
    now: i64,
    emission_interval: &Duration,
    delay_variation_tolerance: &Duration,
) -> (outcome: Result<GcraOutcome, OutOfRange>)
    ensures
        gcra_out_of_range(
            row,
            now,
            to_micros(emission_interval@),
            to_micros(delay_variation_tolerance@),
        ) == match outcome {
            Ok(_) => None,
            Err(what) => Some(what),
        },
        outcome matches Ok(o) ==> {
            &&& o.write == gcra_write(
                row,
                now,
                to_micros(emission_interval@),
                to_micros(delay_variation_tolerance@),
            )
            &&& o.overshoot == overshoot(
                row,
                now,
                to_micros(emission_interval@),
                to_micros(delay_variation_tolerance@),
            )
            &&& is_span(o.overshoot as int)
        },
{
    let emission: i64 = match interval_micros(emission_interval) {
        Some(m) => m,
        None => return Err(OutOfRange::Interval),
    };
    let tolerance: i64 = match interval_micros(delay_variation_tolerance) {
        Some(m) => m,
        None => return Err(OutOfRange::Interval),
    };
    let back: i64 = if tolerance == 0 { emission } else { tolerance };
    let floor: i64 = match timestamp(now as i128 - back as i128) {
        Some(t) => t,
        None => return Err(OutOfRange::Timestamp),
    };
    let found: i64 = match row {
        Some(b) => b.window_start,
        None => match timestamp(now as i128 - emission as i128) {
            Some(t) => t,
            None => return Err(OutOfRange::Timestamp),
        },
    };
    let base: i64 = if found < floor { floor } else { found };
    let tat: i64 = match timestamp(base as i128 + emission as i128) {
        Some(t) => t,
        None => return Err(OutOfRange::Timestamp),
    };
    let allowance: i64 = match timestamp(now as i128 + tolerance as i128) {
        Some(t) => t,
        None => return Err(OutOfRange::Timestamp),
    };
    let write: Option<BucketState> = match row {
        None => Some(BucketState { tokens_used: 0, window_start: tat }),
        Some(b) => if tat <= allowance {
            Some(BucketState { tokens_used: b.tokens_used, window_start: tat })
        } else {
            None
        },
    };
    Ok(GcraOutcome { write, overshoot: elapsed_micros(allowance, tat) })
}

/// Decides on a request that overshoots by `overshoot` microseconds.
pub fn gcra_decision(overshoot: i128) -> (decision: RateLimitDecision)
    requires
        is_span(overshoot as int),
    ensures
        decision@ == gcra_wait(overshoot as int),
{
    if overshoot <= 0 {
        RateLimitDecision::Allowed
    } else {
        RateLimitDecision::Limited {
            retry_after: Duration::from_nanos(overshoot as u128 * 1000),
        }
    }
}

} // verus!
