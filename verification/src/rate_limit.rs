//! Global rate limits that all workers share.
//!
//! Tasks often call an outside service that accepts only so many requests, such
//! as 100 in a minute. A limit on how many tasks run at once does not help there.
//! What helps is a limit on how many start, and since there may be many workers
//! on many machines, they have to share it. They share it as a bucket in the
//! database.
//!
//! A worker that is about to run a task makes a check on the bucket. If the
//! bucket has nothing left, the worker is told how long it takes until it has,
//! and can sleep for just that time with the task in hand.
//!
//! A check is a conversation with the database, and this module holds the side
//! of it that decides. [`PostgresRateLimiter::check`] gives the first
//! [`Action`]. After each action [`PostgresRateLimiter::resume`] takes what came
//! of it as an [`Event`] and gives the next one, until [`Action::Return`] carries
//! the result of the check. Whoever performs the actions rolls the transaction
//! back if it is still open then.
//!
//! The lock on the bucket comes before everything that is read and lasts until
//! the transaction ends, so that checks on one bucket take turns.

use crate::bucket::{elapsed_micros, is_span, BucketState};
use crate::duration::{Duration, MAX_NANOS};
use crate::fixed_window::{
    fixed_window_decision, fixed_window_next, fixed_window_upsert, fixed_window_wait,
    fixed_window_wait_fits,
};
use crate::gcra::{
    gcra_decision, gcra_out_of_range, gcra_upsert, gcra_wait, gcra_write, overshoot, to_micros,
    OutOfRange,
};
use crate::statement::{Statement, StatementView, Table};
use crate::task::{Error, RateLimitDecision};
use crate::token_bucket::{
    count_tokens_out, is_tokens_out, token_bucket_answer, token_bucket_decision,
    token_bucket_has_answer, token_bucket_upsert, token_bucket_wait, token_bucket_write,
    tokens_out,
};
use vstd::pervasive::unreached;
use vstd::prelude::*;

verus! {

/// The algorithm of a rate limit, with its settings.
#[derive(Debug, Clone, PartialEq)]
#[non_exhaustive]
pub enum RateLimitAlgorithm {
    /// A fixed window that starts again exactly `window` after its first request.
    ///
    /// It caps the tasks within a window, which suits services with a limit such
    /// as 100 requests per minute.
    FixedWindow {
        /// How many tasks may run within the window.
        max_tokens: i32,
        /// How long the window lasts.
        window: Duration,
    },
    /// A token bucket: tasks use tokens, which come back at a constant rate.
    ///
    /// Tasks run smoothly at that rate, with short bursts of up to
    /// `max_capacity`.
    TokenBucket {
        /// How many tokens can be out at once, in units of 10^-27 tokens: a multiple
        /// of [`crate::bucket::TOKEN`]. This goes up to about 1.7 * 10^11 tokens.
        max_capacity: i128,
        /// How many tokens come back per second, in units of 10^-21 tokens per
        /// second: a multiple of [`crate::bucket::TOKEN_PER_SEC`]. This goes up to
        /// about 1.7 * 10^17 tokens per second.
        refill_rate_per_sec: i128,
    },
    /// The Generic Cell Rate Algorithm.
    ///
    /// It is equivalent to a token bucket, and keeps only a single point in time,
    /// the theoretical arrival time. Both settings are rounded to microseconds.
    GCRA {
        /// The cost of one task, such as 500 ms.
        emission_interval: Duration,
        /// How early tasks may come. Zero means that tasks are strictly spaced by
        /// the emission interval. Ten times the emission interval allows a burst
        /// of ten tasks at once. Anything but zero that is less than half of the
        /// emission interval leaves room for no task at all.
        delay_variation_tolerance: Duration,
    },
}

/// What a request found in the bucket.
#[derive(Debug, Clone, Copy, PartialEq, Eq)]
pub enum Reply {
    /// Of a fixed window.
    FixedWindow {
        /// The request's own number in its window, in units of 10^-27.
        tokens_used: i128,
        /// The microseconds since the window opened.
        elapsed: i128,
    },
    /// Of a token bucket.
    TokenBucket {
        /// The tokens that were out before the request, in units of 10^-27.
        current_tokens: i128,
    },
    /// Of the Generic Cell Rate Algorithm.
    GCRA {
        /// The microseconds by which the request overshoots the tolerance.
        overshoot: i128,
    },
}

/// What comes of a request on a bucket.
#[derive(Debug, Clone, Copy, PartialEq, Eq)]
pub struct Upsert {
    /// What to write to the bucket, if anything.
    pub write: Option<BucketState>,
    /// What the request found.
    pub reply: Reply,
}

impl RateLimitAlgorithm {
    /// What a request at `now` leads to that the database cannot hold, if anything.
    pub open spec fn out_of_range(self, row: Option<BucketState>, now: i64) -> Option<OutOfRange> {
        match self {
            RateLimitAlgorithm::GCRA { emission_interval, delay_variation_tolerance } =>
                gcra_out_of_range(
                    row,
                    now,
                    to_micros(emission_interval@),
                    to_micros(delay_variation_tolerance@),
                ),
            _ => None,
        }
    }

    /// The database can hold everything that a request at `now` leads to.
    pub open spec fn is_in_range(self, row: Option<BucketState>, now: i64) -> bool {
        self.out_of_range(row, now) is None
    }

    /// What a request at `now` writes to the bucket, if anything.
    pub open spec fn write(self, row: Option<BucketState>, now: i64) -> Option<BucketState> {
        match self {
            RateLimitAlgorithm::FixedWindow { max_tokens, window } => Some(
                fixed_window_next(row, now, window@),
            ),
            RateLimitAlgorithm::TokenBucket { max_capacity, refill_rate_per_sec } =>
                token_bucket_write(row, now, max_capacity, refill_rate_per_sec),
            RateLimitAlgorithm::GCRA { emission_interval, delay_variation_tolerance } => gcra_write(
                row,
                now,
                to_micros(emission_interval@),
                to_micros(delay_variation_tolerance@),
            ),
        }
    }

    /// The statement that writes `state` to the bucket `id`. The Generic Cell Rate
    /// Algorithm writes only the point in time.
    pub open spec fn store(self, id: Seq<char>, state: BucketState) -> StatementView {
        match self {
            RateLimitAlgorithm::GCRA { .. } => StatementView::Advance {
                id,
                window_start: state.window_start,
            },
            _ => StatementView::Store { id, state },
        }
    }

    /// What a request at `now` finds in the bucket.
    pub open spec fn reply(self, row: Option<BucketState>, now: i64) -> Reply {
        match self {
            RateLimitAlgorithm::FixedWindow { max_tokens, window } => {
                let b = fixed_window_next(row, now, window@);
                Reply::FixedWindow {
                    tokens_used: b.tokens_used,
                    elapsed: (now - b.window_start) as i128,
                }
            },
            RateLimitAlgorithm::TokenBucket { max_capacity, refill_rate_per_sec } =>
                Reply::TokenBucket {
                    current_tokens: tokens_out(
                        row,
                        now,
                        max_capacity,
                        refill_rate_per_sec,
                    ) as i128,
                },
            RateLimitAlgorithm::GCRA { emission_interval, delay_variation_tolerance } =>
                Reply::GCRA {
                    overshoot: overshoot(
                        row,
                        now,
                        to_micros(emission_interval@),
                        to_micros(delay_variation_tolerance@),
                    ) as i128,
                },
        }
    }

    /// A request can find `reply` in some bucket.
    pub open spec fn can_find(self, reply: Reply) -> bool {
        match (self, reply) {
            (
                RateLimitAlgorithm::FixedWindow { .. },
                Reply::FixedWindow { elapsed, .. },
            ) => is_span(elapsed as int),
            (
                RateLimitAlgorithm::TokenBucket { max_capacity, .. },
                Reply::TokenBucket { current_tokens },
            ) => is_tokens_out(current_tokens as int, max_capacity),
            (RateLimitAlgorithm::GCRA { .. }, Reply::GCRA { overshoot }) => is_span(
                overshoot as int,
            ),
            _ => false,
        }
    }

    /// How long a request that found `reply` has to wait, in nanoseconds, or
    /// `None` if it may run.
    pub open spec fn wait(self, reply: Reply) -> Option<nat>
        recommends
            self.can_find(reply),
    {
        match (self, reply) {
            (
                RateLimitAlgorithm::FixedWindow { max_tokens, window },
                Reply::FixedWindow { tokens_used, elapsed },
            ) => fixed_window_wait(max_tokens as int, window@, tokens_used as int, elapsed as int),
            (
                RateLimitAlgorithm::TokenBucket { max_capacity, refill_rate_per_sec },
                Reply::TokenBucket { current_tokens },
            ) => token_bucket_wait(max_capacity, refill_rate_per_sec, current_tokens as int),
            (RateLimitAlgorithm::GCRA { .. }, Reply::GCRA { overshoot }) => gcra_wait(
                overshoot as int,
            ),
            _ => None,
        }
    }

    /// There is an answer to a request that found `reply`: it may run, or the time
    /// to wait is one that a [`Duration`] can hold. There is none where a token
    /// bucket has no token left and is never refilled.
    pub open spec fn has_answer(self, reply: Reply) -> bool {
        match (self, reply) {
            (RateLimitAlgorithm::FixedWindow { .. }, _) => {
                self.wait(reply) matches Some(n) ==> n <= MAX_NANOS
            },
            (
                RateLimitAlgorithm::TokenBucket { max_capacity, refill_rate_per_sec },
                Reply::TokenBucket { current_tokens },
            ) => token_bucket_has_answer(
                max_capacity,
                refill_rate_per_sec,
                current_tokens as int,
            ),
            _ => true,
        }
    }

    /// Applies the algorithm to a request at `now`, unless that leads to something
    /// that the database cannot hold.
    pub fn upsert(&self, row: Option<BucketState>, now: i64) -> (u: Result<Upsert, OutOfRange>)
        ensures
            self.out_of_range(row, now) == match u {
                Ok(_) => None,
                Err(what) => Some(what),
            },
            u matches Ok(u) ==> {
                &&& u.write == self.write(row, now)
                &&& u.reply == self.reply(row, now)
                &&& self.can_find(u.reply)
            },
    {
        match self {
            RateLimitAlgorithm::FixedWindow { max_tokens: _, window } => {
                let b: BucketState = fixed_window_upsert(row, now, window);
                let elapsed: i128 = elapsed_micros(b.window_start, now);
                Ok(
                    Upsert {
                        write: Some(b),
                        reply: Reply::FixedWindow { tokens_used: b.tokens_used, elapsed },
                    },
                )
            },
            RateLimitAlgorithm::TokenBucket { max_capacity, refill_rate_per_sec } => {
                let out: i128 = count_tokens_out(row, now, *max_capacity, *refill_rate_per_sec);
                Ok(
                    Upsert {
                        write: token_bucket_upsert(out, now, *max_capacity),
                        reply: Reply::TokenBucket { current_tokens: out },
                    },
                )
            },
            RateLimitAlgorithm::GCRA { emission_interval, delay_variation_tolerance } => {
                match gcra_upsert(row, now, emission_interval, delay_variation_tolerance) {
                    Ok(o) => Ok(
                        Upsert { write: o.write, reply: Reply::GCRA { overshoot: o.overshoot } },
                    ),
                    Err(what) => Err(what),
                }
            },
        }
    }

    /// Tells whether there is an answer to a request that found `reply`.
    pub fn can_decide(&self, reply: Reply) -> (r: bool)
        requires
            self.can_find(reply),
        ensures
            r == self.has_answer(reply),
    {
        match (self, reply) {
            (
                RateLimitAlgorithm::FixedWindow { max_tokens, window },
                Reply::FixedWindow { tokens_used, elapsed },
            ) => fixed_window_wait_fits(*max_tokens, window, tokens_used, elapsed),
            (
                RateLimitAlgorithm::TokenBucket { max_capacity, refill_rate_per_sec },
                Reply::TokenBucket { current_tokens },
            ) => token_bucket_answer(*max_capacity, *refill_rate_per_sec, current_tokens).is_some(),
            _ => true,
        }
    }

    /// Answers a request that found `reply`.
    pub fn decide(&self, reply: Reply) -> (decision: RateLimitDecision)
        requires
            self.can_find(reply),
            self.has_answer(reply),
        ensures
            decision@ == self.wait(reply),
    {
        match (self, reply) {
            (
                RateLimitAlgorithm::FixedWindow { max_tokens, window },
                Reply::FixedWindow { tokens_used, elapsed },
            ) => fixed_window_decision(*max_tokens, window, tokens_used, elapsed),
            (
                RateLimitAlgorithm::TokenBucket { max_capacity, refill_rate_per_sec },
                Reply::TokenBucket { current_tokens },
            ) => token_bucket_decision(*max_capacity, *refill_rate_per_sec, current_tokens),
            (RateLimitAlgorithm::GCRA { .. }, Reply::GCRA { overshoot }) => gcra_decision(overshoot),
            _ => unreached(),
        }
    }
}

/// Where a check stands: what it waits for.
#[derive(Debug, Clone, Copy, PartialEq, Eq)]
pub enum CheckStage {
    /// The transaction is being opened.
    Beginning,
    /// The lock on the bucket is being waited for.
    Locking,
    /// The clock is being read.
    ReadingClock,
    /// The bucket is being read.
    Loading {
        /// The clock.
        now: i64,
    },
    /// The bucket is being written.
    Storing {
        /// What the request found.
        reply: Reply,
    },
    /// The transaction is being committed.
    Committing {
        /// What the request found.
        reply: Reply,
    },
    /// The check is over.
    Finished,
}

/// What to do next.
#[derive(Debug, PartialEq, Eq)]
pub enum Action {
    /// Open a transaction.
    Begin,
    /// Run a statement in the transaction.
    Run(Statement),
    /// Commit the transaction.
    Commit,
    /// Nothing more: this is the result of the check.
    Return(Result<RateLimitDecision, Error>),
}

/// An [`Action`] as contracts speak of it. The result of a check is the view of
/// the decision, or the message of the error.
pub enum ActionView {
    /// See [`Action::Begin`].
    Begin,
    /// See [`Action::Run`].
    Run(StatementView),
    /// See [`Action::Commit`].
    Commit,
    /// See [`Action::Return`].
    Return(Result<Option<nat>, Seq<char>>),
}

impl View for Action {
    type V = ActionView;

    open spec fn view(&self) -> ActionView {
        match *self {
            Action::Begin => ActionView::Begin,
            Action::Run(statement) => ActionView::Run(statement@),
            Action::Commit => ActionView::Commit,
            Action::Return(Ok(decision)) => ActionView::Return(Ok(decision@)),
            Action::Return(Err(error)) => ActionView::Return(Err(error@)),
        }
    }
}

/// What came of an action.
#[derive(Debug, PartialEq, Eq)]
pub enum Event {
    /// It was done, and there is nothing to tell of it.
    Done,
    /// The clock was read.
    Clock(i64),
    /// The bucket was read. `None` stands for a bucket that does not exist.
    Row(Option<BucketState>),
    /// It failed, with this message.
    Failed(String),
}

/// The message of the database that it cannot hold what came.
pub open spec fn out_of_range_text(what: OutOfRange) -> Seq<char> {
    match what {
        OutOfRange::Interval => "error returned from database: interval out of range"@,
        OutOfRange::Timestamp => "error returned from database: timestamp out of range"@,
    }
}

/// The message of the database that it cannot hold what came.
fn out_of_range_message(what: OutOfRange) -> (message: String)
    ensures
        message@ == out_of_range_text(what),
{
    match what {
        OutOfRange::Interval => "error returned from database: interval out of range".to_owned(),
        OutOfRange::Timestamp => "error returned from database: timestamp out of range".to_owned(),
    }
}

/// What a check on the bucket `id` does at `stage` when `event` comes: where it
/// stands then, and its next action. Any failure ends it with the message that
/// came.
pub open spec fn check_next(
    id: Seq<char>,
    algorithm: RateLimitAlgorithm,
    stage: CheckStage,
    event: Event,
) -> (CheckStage, ActionView) {
    match (stage, event) {
        (_, Event::Failed(message)) => (
            CheckStage::Finished,
            ActionView::Return(Err(message@)),
        ),
        (CheckStage::Beginning, _) => (
            CheckStage::Locking,
            ActionView::Run(StatementView::Lock { id }),
        ),
        (CheckStage::Locking, _) => (
            CheckStage::ReadingClock,
            ActionView::Run(StatementView::ReadClock),
        ),
        (CheckStage::ReadingClock, Event::Clock(now)) => (
            CheckStage::Loading { now },
            ActionView::Run(StatementView::Load { id }),
        ),
        (CheckStage::Loading { now }, Event::Row(row)) => {
            let reply = algorithm.reply(row, now);
            match (algorithm.out_of_range(row, now), algorithm.write(row, now)) {
                (Some(what), _) => (
                    CheckStage::Finished,
                    ActionView::Return(Err(out_of_range_text(what))),
                ),
                (None, Some(state)) => (
                    CheckStage::Storing { reply },
                    ActionView::Run(algorithm.store(id, state)),
                ),
                (None, None) => (CheckStage::Committing { reply }, ActionView::Commit),
            }
        },
        (CheckStage::Storing { reply }, _) => (
            CheckStage::Committing { reply },
            ActionView::Commit,
        ),
        (CheckStage::Committing { reply }, _) => (
            CheckStage::Finished,
            ActionView::Return(Ok(algorithm.wait(reply))),
        ),
        _ => arbitrary(),
    }
}

/// What a check carries along is something that a request can find.
pub open spec fn is_stage_of(algorithm: RateLimitAlgorithm, stage: CheckStage) -> bool {
    match stage {
        CheckStage::Storing { reply } | CheckStage::Committing { reply } => algorithm.can_find(
            reply,
        ),
        _ => true,
    }
}

/// There is an answer to what a check carries along.
pub open spec fn is_answerable(algorithm: RateLimitAlgorithm, stage: CheckStage) -> bool {
    match stage {
        CheckStage::Storing { reply } | CheckStage::Committing { reply } => algorithm.has_answer(
            reply,
        ),
        _ => true,
    }
}

/// `event` is what can come of the action that a check at `stage` waits for.
pub open spec fn can_come(stage: CheckStage, event: Event) -> bool {
    match stage {
        CheckStage::Beginning
        | CheckStage::Locking
        | CheckStage::Storing { .. }
        | CheckStage::Committing { .. } => event is Done || event is Failed,
        CheckStage::ReadingClock => event is Clock || event is Failed,
        CheckStage::Loading { .. } => event is Row || event is Failed,
        CheckStage::Finished => false,
    }
}

/// A rate limiter that keeps its bucket in a PostgreSQL database. Since all
/// workers use the same bucket, the limit holds for all of them together.
#[derive(Debug, Clone)]
pub struct PostgresRateLimiter {
    /// The bucket's id, such as `"stripe_api"`.
    id: String,
    /// The algorithm to apply.
    algorithm: RateLimitAlgorithm,
}

impl PostgresRateLimiter {
    /// The bucket's id.
    pub closed spec fn id(&self) -> Seq<char> {
        self.id@
    }

    /// The algorithm.
    pub closed spec fn algorithm(&self) -> RateLimitAlgorithm {
        self.algorithm
    }

    /// A rate limiter on the bucket `id`.
    pub fn new(id: &str, algorithm: RateLimitAlgorithm) -> (limiter: Self)
        ensures
            limiter.id() == id@,
            limiter.algorithm() == algorithm,
    {
        PostgresRateLimiter { id: id.to_owned(), algorithm }
    }

    /// The statement that makes checks on this bucket take turns.
    fn acquire_lock(&self) -> (statement: Statement)
        ensures
            statement@ == (StatementView::Lock { id: self.id() }),
    {
        Statement::Lock { id: self.id.clone() }
    }

    /// The statement that writes `state` to the bucket.
    fn store(&self, state: BucketState) -> (statement: Statement)
        ensures
            statement@ == self.algorithm().store(self.id(), state),
    {
        match self.algorithm {
            RateLimitAlgorithm::GCRA { .. } => Statement::Advance {
                id: self.id.clone(),
                window_start: state.window_start,
            },
            _ => Statement::Store { id: self.id.clone(), state },
        }
    }

    /// Starts a check for a task of any queue.
    pub fn check(&self, _queue_name: &str) -> (next: (CheckStage, Action))
        ensures
            next.0 == CheckStage::Beginning,
            next.1@ == ActionView::Begin,
    {
        (CheckStage::Beginning, Action::Begin)
    }

    /// Goes on with a check at `stage`, now that `event` came.
    pub fn resume(&self, stage: CheckStage, event: Event) -> (next: (CheckStage, Action))
        requires
            can_come(stage, event),
            is_stage_of(self.algorithm(), stage),
            stage is Committing && event is Done ==> is_answerable(self.algorithm(), stage),
        ensures
            (next.0, next.1@) == check_next(self.id(), self.algorithm(), stage, event),
            is_stage_of(self.algorithm(), next.0),
    {
        match (stage, event) {
            (_, Event::Failed(message)) => (
                CheckStage::Finished,
                Action::Return(Err(Error::Retryable(message))),
            ),
            (CheckStage::Beginning, _) => (CheckStage::Locking, Action::Run(self.acquire_lock())),
            (CheckStage::Locking, _) => (
                CheckStage::ReadingClock,
                Action::Run(Statement::ReadClock),
            ),
            (CheckStage::ReadingClock, Event::Clock(now)) => (
                CheckStage::Loading { now },
                Action::Run(Statement::Load { id: self.id.clone() }),
            ),
            (CheckStage::Loading { now }, Event::Row(row)) => {
                match self.algorithm.upsert(row, now) {
                    Err(what) => (
                        CheckStage::Finished,
                        Action::Return(Err(Error::Retryable(out_of_range_message(what)))),
                    ),
                    Ok(Upsert { write: Some(state), reply }) => (
                        CheckStage::Storing { reply },
                        Action::Run(self.store(state)),
                    ),
                    Ok(Upsert { write: None, reply }) => (
                        CheckStage::Committing { reply },
                        Action::Commit,
                    ),
                }
            },
            (CheckStage::Storing { reply }, _) => (
                CheckStage::Committing { reply },
                Action::Commit,
            ),
            (CheckStage::Committing { reply }, _) => (
                CheckStage::Finished,
                Action::Return(Ok(self.algorithm.decide(reply))),
            ),
            _ => unreached(),
        }
    }

    /// Tells whether there is an answer to a check at `stage`. There is none where
    /// the wait that it would ask for does not exist or is too long for a
    /// [`Duration`].
    pub fn can_answer(&self, stage: CheckStage) -> (r: bool)
        requires
            is_stage_of(self.algorithm(), stage),
        ensures
            r == is_answerable(self.algorithm(), stage),
    {
        match stage {
            CheckStage::Storing { reply } | CheckStage::Committing { reply } =>
                self.algorithm.can_decide(reply),
            _ => true,
        }
    }
}

/// The statement that resets the bucket `id`.
///
/// It deletes the bucket, so that the next check finds a fresh one. This is for
/// tests, and for a bucket that got stuck.
pub fn clear(id: &str) -> (statement: Statement)
    ensures
        statement@ == (StatementView::Delete { id: id@ }),
        statement matches Statement::Delete { id: cleared } && cleared@ == id@,
        forall|table: Table| #[trigger] statement@.apply(table) == table.remove(id@),
{
    Statement::Delete { id: id.to_owned() }
}

} // verus!
