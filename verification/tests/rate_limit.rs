use std::collections::HashMap;
use underway::bucket::{BucketState, TOKEN, TOKEN_PER_SEC};
use underway::duration::Duration;
use underway::gcra::{END_TIMESTAMP, MIN_TIMESTAMP};
use underway::rate_limit::{
    clear, Action, CheckStage, Event, PostgresRateLimiter, RateLimitAlgorithm,
};
use underway::statement::Statement;
use underway::task::{Error, RateLimitDecision};

const SECOND: i64 = 1_000_000;

/// A database in memory, with a clock that is set by hand.
struct Database {
    table: HashMap<String, BucketState>,
    now: i64,
    log: Vec<String>,
}

impl Database {
    fn new() -> Self {
        Database { table: HashMap::new(), now: 800_000_000 * SECOND, log: Vec::new() }
    }

    fn run(&mut self, statement: Statement) -> Event {
        self.log.push(statement.sql().to_string());
        match statement {
            Statement::Lock { .. } => Event::Done,
            Statement::ReadClock => Event::Clock(self.now),
            Statement::Load { id } => Event::Row(self.table.get(&id).copied()),
            Statement::Store { id, state } => {
                self.table.insert(id, state);
                Event::Done
            }
            Statement::Advance { id, window_start } => {
                let tokens_used = self.table.get(&id).map_or(0, |b| b.tokens_used);
                self.table.insert(id, BucketState { tokens_used, window_start });
                Event::Done
            }
            Statement::Delete { id } => {
                self.table.remove(&id);
                Event::Done
            }
        }
    }

    fn check(&mut self, limiter: &PostgresRateLimiter) -> Result<RateLimitDecision, Error> {
        let (mut stage, mut action) = limiter.check("test-rate-limit-queue");
        loop {
            let event = match action {
                Action::Begin => Event::Done,
                Action::Run(statement) => self.run(statement),
                Action::Commit => Event::Done,
                Action::Return(result) => return result,
            };
            assert!(limiter.can_answer(stage));
            let next = limiter.resume(stage, event);
            stage = next.0;
            action = next.1;
        }
    }

    fn allowed(&mut self, limiter: &PostgresRateLimiter) -> bool {
        self.check(limiter).unwrap() == RateLimitDecision::Allowed
    }

    fn wait(&mut self, limiter: &PostgresRateLimiter) -> u128 {
        match self.check(limiter).unwrap() {
            RateLimitDecision::Limited { retry_after } => retry_after.as_nanos(),
            RateLimitDecision::Allowed => panic!("the request may run"),
        }
    }

    fn burst(&mut self, limiter: &PostgresRateLimiter) -> usize {
        let mut n = 0;
        while n < 1000 && self.allowed(limiter) {
            n += 1;
        }
        n
    }
}

fn assert_rate_limiter_behavior(
    key: &str,
    algorithm: RateLimitAlgorithm,
    capacity: usize,
    expected_wait_min: u64,
    expected_wait_max: u64,
) {
    let mut db = Database::new();
    db.run(clear(key));
    let limiter = PostgresRateLimiter::new(key, algorithm);

    // The capacity can be used up.
    for _ in 0..capacity {
        let res = db.check(&limiter).unwrap();
        assert_eq!(res, RateLimitDecision::Allowed);
        db.now += 1_000;
    }

    // The next request is refused.
    let blocked = db.check(&limiter).unwrap();
    match blocked {
        RateLimitDecision::Limited { retry_after } => {
            assert!(
                retry_after.as_secs() >= expected_wait_min
                    && retry_after.as_secs() <= expected_wait_max,
                "Wait time {}s was not between {}s and {}s",
                retry_after.as_secs(),
                expected_wait_min,
                expected_wait_max
            );

            // After the wait and a little more the next one may run.
            db.now += (retry_after.as_nanos() / 1000) as i64 + 50_000;
            let recovered = db.check(&limiter).unwrap();
            assert_eq!(recovered, RateLimitDecision::Allowed);
        }
        _ => panic!("Expected request to be RateLimited! Got: {:?}", blocked),
    }
}

#[test]
fn generates_valid_postgres_global_rate_limit_fixed_window() {
    assert_rate_limiter_behavior(
        "test_api_fw",
        RateLimitAlgorithm::FixedWindow { max_tokens: 2, window: Duration::from_secs(10) },
        2,
        8,
        10,
    );
}

#[test]
fn generates_valid_postgres_global_rate_limit_token_bucket() {
    assert_rate_limiter_behavior(
        "test_api_tb",
        RateLimitAlgorithm::TokenBucket {
            max_capacity: 2 * TOKEN,
            refill_rate_per_sec: TOKEN_PER_SEC / 10, // 1 token every 10 seconds
        },
        2,
        9,
        10,
    );
}

#[test]
fn generates_valid_postgres_global_rate_limit_gcra() {
    assert_rate_limiter_behavior(
        "test_api_gcra",
        RateLimitAlgorithm::GCRA {
            emission_interval: Duration::from_secs(10),
            delay_variation_tolerance: Duration::from_secs(12),
        },
        2,
        7,
        12,
    );
}

fn fixed_window(max_tokens: i32, window: Duration) -> PostgresRateLimiter {
    PostgresRateLimiter::new("bucket", RateLimitAlgorithm::FixedWindow { max_tokens, window })
}

fn token_bucket(max_capacity: i128, refill_rate_per_sec: i128) -> PostgresRateLimiter {
    PostgresRateLimiter::new(
        "bucket",
        RateLimitAlgorithm::TokenBucket { max_capacity, refill_rate_per_sec },
    )
}

fn gcra(emission_interval: Duration, delay_variation_tolerance: Duration) -> PostgresRateLimiter {
    PostgresRateLimiter::new(
        "bucket",
        RateLimitAlgorithm::GCRA { emission_interval, delay_variation_tolerance },
    )
}

#[test]
fn a_window_admits_exactly_max_tokens() {
    let mut db = Database::new();
    let limiter = fixed_window(100, Duration::from_secs(60));
    assert_eq!(db.burst(&limiter), 100);
    // Refused requests are counted too.
    assert_eq!(db.table["bucket"].tokens_used, 101 * TOKEN);
    db.now += 60 * SECOND;
    assert_eq!(db.burst(&limiter), 100);
}

#[test]
fn a_window_ends_exactly_when_it_said() {
    let mut db = Database::new();
    let limiter = fixed_window(1, Duration::from_secs(4));
    let start = db.now;
    assert!(db.allowed(&limiter));
    db.now = start + SECOND;
    assert_eq!(db.wait(&limiter), 3_000_000_000);
    db.now = start + 2 * SECOND;
    assert_eq!(db.wait(&limiter), 2_000_000_000);
    db.now = start + 4 * SECOND - 1;
    assert_eq!(db.wait(&limiter), 1_000);
    db.now = start + 4 * SECOND;
    assert!(db.allowed(&limiter));
    assert_eq!(
        db.table["bucket"],
        BucketState { tokens_used: TOKEN, window_start: start + 4 * SECOND }
    );
}

#[test]
fn windows_in_a_row_hold_the_rate() {
    let mut db = Database::new();
    let limiter = fixed_window(2, Duration::from_secs(4));
    let mut admitted = 0;
    // One request a second, for ten windows.
    for _ in 0..40 {
        if db.allowed(&limiter) {
            admitted += 1;
        }
        db.now += SECOND;
    }
    assert_eq!(admitted, 20);
}

#[test]
fn a_window_between_microseconds_ends_after_the_fraction() {
    let mut db = Database::new();
    let limiter = fixed_window(1, Duration::new(0, 1_500));
    assert!(db.allowed(&limiter));
    db.now += 1;
    assert_eq!(db.wait(&limiter), 500);
    db.now += 1;
    assert!(db.allowed(&limiter));
}

#[test]
fn a_window_without_tokens_admits_nothing() {
    let mut db = Database::new();
    for max_tokens in [0, -3] {
        let limiter = fixed_window(max_tokens, Duration::from_secs(7));
        assert_eq!(db.wait(&limiter), 7_000_000_000);
    }
}

#[test]
fn an_empty_window_never_waits() {
    let mut db = Database::new();
    let limiter = fixed_window(1, Duration::from_secs(0));
    assert_eq!(db.burst(&limiter), 1000);
    let limiter = fixed_window(0, Duration::from_secs(0));
    assert_eq!(db.wait(&limiter), 0);
}

#[test]
fn a_window_that_opened_later_waits_longer() {
    let mut db = Database::new();
    let limiter = fixed_window(1, Duration::from_secs(10));
    assert!(db.allowed(&limiter));
    db.now -= 2 * SECOND;
    assert_eq!(db.wait(&limiter), 12_000_000_000);
}

#[test]
fn a_count_stops_at_its_maximum() {
    let mut db = Database::new();
    let window_start = db.now;
    let full = BucketState { tokens_used: i128::MAX - 1, window_start };
    db.table.insert("bucket".to_string(), full);
    let limiter = fixed_window(i32::MAX, Duration::from_secs(10));
    assert_eq!(db.wait(&limiter), 10_000_000_000);
    assert_eq!(db.table["bucket"].tokens_used, i128::MAX);
}

#[test]
fn a_wait_longer_than_any_duration_has_no_answer() {
    let limiter = fixed_window(1, Duration::new(u64::MAX, 999_999_999));
    let row = BucketState { tokens_used: TOKEN, window_start: 10 };
    let (stage, _) = limiter.resume(CheckStage::Loading { now: 9 }, Event::Row(Some(row)));
    assert!(!limiter.can_answer(stage));
    let (stage, _) = limiter.resume(CheckStage::Loading { now: 10 }, Event::Row(Some(row)));
    assert!(limiter.can_answer(stage));
}

#[test]
fn a_token_bucket_takes_a_burst_of_its_capacity() {
    let mut db = Database::new();
    let limiter = token_bucket(10 * TOKEN, 2 * TOKEN_PER_SEC);
    assert_eq!(db.burst(&limiter), 10);
    // Refused requests leave no trace.
    let full = BucketState { tokens_used: 10 * TOKEN, window_start: db.now };
    assert_eq!(db.table["bucket"], full);
    assert_eq!(db.wait(&limiter), 500_000_000);
    assert_eq!(db.table["bucket"], full);
}

#[test]
fn a_token_bucket_drips_at_its_rate() {
    let mut db = Database::new();
    let limiter = token_bucket(10 * TOKEN, 2 * TOKEN_PER_SEC);
    let mut admitted = 0;
    // Ten requests a second, for a minute.
    for _ in 0..600 {
        if db.allowed(&limiter) {
            admitted += 1;
        }
        db.now += SECOND / 10;
    }
    // The capacity, and two per second from the first request to the last.
    assert_eq!(admitted, 10 + 119);
}

#[test]
fn a_token_is_there_when_it_was_said_to_be() {
    let mut db = Database::new();
    let limiter = token_bucket(TOKEN, TOKEN_PER_SEC / 10);
    let start = db.now;
    assert!(db.allowed(&limiter));
    db.now = start + 4 * SECOND;
    assert_eq!(db.wait(&limiter), 6_000_000_000);
    db.now = start + 10 * SECOND - 1;
    assert_eq!(db.wait(&limiter), 1_000);
    db.now = start + 10 * SECOND;
    assert!(db.allowed(&limiter));
    assert_eq!(db.table["bucket"], BucketState { tokens_used: TOKEN, window_start: db.now });
}

#[test]
fn a_token_bucket_keeps_fractions() {
    let mut db = Database::new();
    let limiter = token_bucket(TOKEN * 5 / 2, TOKEN_PER_SEC / 4);
    assert_eq!(db.burst(&limiter), 2);
    // Half a token is free, and half of one is missing.
    assert_eq!(db.wait(&limiter), 2_000_000_000);
    db.now += 3 * SECOND;
    assert!(db.allowed(&limiter));
    assert_eq!(db.table["bucket"].tokens_used, TOKEN * 9 / 4);
}

#[test]
fn a_wait_for_tokens_is_rounded_to_the_nearest_nanosecond() {
    let mut db = Database::new();
    // One token takes 1/3 s, 2/3 s, 2.5 ns, 0.5 ns and just less than 1.5 ns.
    for (rate, nanos) in [
        (3 * TOKEN_PER_SEC, 333_333_333),
        (TOKEN_PER_SEC * 3 / 2, 666_666_667),
        (400_000_000 * TOKEN_PER_SEC, 2),
        (2_000_000_000 * TOKEN_PER_SEC, 0),
        (666_666_667 * TOKEN_PER_SEC, 1),
    ] {
        db.run(clear("bucket"));
        let limiter = token_bucket(TOKEN, rate);
        assert!(db.allowed(&limiter));
        assert_eq!(db.wait(&limiter), nanos);
    }
}

#[test]
fn a_bucket_that_is_too_full_counts_as_full() {
    let mut db = Database::new();
    let window_start = db.now;
    db.table.insert("bucket".to_string(), BucketState { tokens_used: 50 * TOKEN, window_start });
    let limiter = token_bucket(3 * TOKEN, TOKEN_PER_SEC);
    assert_eq!(db.wait(&limiter), 1_000_000_000);
    // A clock behind the bucket's cannot take out more than there is.
    db.table.insert("bucket".to_string(), BucketState { tokens_used: TOKEN, window_start });
    db.now -= 100 * SECOND;
    assert_eq!(db.wait(&limiter), 1_000_000_000);
    db.table.insert("bucket".to_string(), BucketState { tokens_used: i128::MAX, window_start });
    assert_eq!(db.wait(&limiter), 1_000_000_000);
}

#[test]
fn a_bucket_too_small_for_a_token_admits_nothing() {
    let mut db = Database::new();
    let limiter = token_bucket(TOKEN - TOKEN / 1_000_000_000, TOKEN_PER_SEC);
    assert_eq!(db.wait(&limiter), 1);
    let limiter = token_bucket(-TOKEN, TOKEN_PER_SEC);
    assert_eq!(db.wait(&limiter), 2_000_000_000);
    assert!(db.table.is_empty());
}

#[test]
fn a_negative_rate_asks_for_no_wait() {
    let mut db = Database::new();
    let limiter = token_bucket(TOKEN, -1);
    assert!(db.allowed(&limiter));
    assert_eq!(db.wait(&limiter), 0);
}

#[test]
fn an_empty_bucket_without_refill_has_no_answer() {
    let limiter = token_bucket(TOKEN, 0);
    let (stage, action) = limiter.resume(CheckStage::Loading { now: 5 }, Event::Row(None));
    assert!(limiter.can_answer(stage));
    let state = match action {
        Action::Run(Statement::Store { state, .. }) => state,
        other => panic!("not a store: {:?}", other),
    };
    let (stage, action) = limiter.resume(CheckStage::Loading { now: 5 }, Event::Row(Some(state)));
    assert_eq!(action, Action::Commit);
    assert!(!limiter.can_answer(stage));
}

#[test]
fn no_tolerance_spaces_tasks_strictly() {
    let mut db = Database::new();
    let limiter = gcra(Duration::from_secs(1), Duration::from_secs(0));
    let start = db.now;
    assert!(db.allowed(&limiter));
    assert_eq!(db.wait(&limiter), 1_000_000_000);
    db.now = start + SECOND - 1;
    assert_eq!(db.wait(&limiter), 1_000);
    db.now = start + SECOND;
    assert!(db.allowed(&limiter));
    // Idle time is not saved up.
    db.now = start + 100 * SECOND;
    assert_eq!(db.burst(&limiter), 1);
}

#[test]
fn a_tolerance_of_ten_intervals_takes_a_burst_of_ten() {
    let mut db = Database::new();
    let limiter = gcra(Duration::from_secs(1), Duration::from_secs(10));
    for _ in 0..10 {
        assert!(db.allowed(&limiter));
    }
    // A fresh bucket has one task more.
    assert!(db.allowed(&limiter));
    assert_eq!(db.wait(&limiter), 1_000_000_000);
    // A bucket that was idle reaches as far back as ahead.
    db.now += 1000 * SECOND;
    assert_eq!(db.burst(&limiter), 20);
}

#[test]
fn the_wait_of_an_early_request_is_exact() {
    let mut db = Database::new();
    let limiter = gcra(Duration::from_secs(10), Duration::from_secs(12));
    let start = db.now;
    assert_eq!(db.burst(&limiter), 2);
    assert_eq!(db.wait(&limiter), 8_000_000_000);
    db.now = start + 8 * SECOND - 1;
    assert_eq!(db.wait(&limiter), 1_000);
    db.now = start + 8 * SECOND;
    assert!(db.allowed(&limiter));
    assert_eq!(db.table["bucket"].window_start, start + 20 * SECOND);
}

#[test]
fn the_cell_rate_is_held() {
    let mut db = Database::new();
    let limiter = gcra(Duration::from_secs(2), Duration::from_secs(6));
    let mut admitted = 0;
    // Ten requests a second, for a minute.
    for _ in 0..600 {
        if db.allowed(&limiter) {
            admitted += 1;
        }
        db.now += SECOND / 10;
    }
    // One every two seconds, and a burst of four on a fresh bucket.
    assert_eq!(admitted, 4 + 29);
}

#[test]
fn cells_and_tokens_agree() {
    // One task per 0.5 s, and 2 s of room ahead and behind: eight tokens.
    let cells = PostgresRateLimiter::new(
        "cells",
        RateLimitAlgorithm::GCRA {
            emission_interval: Duration::new(0, 500_000_000),
            delay_variation_tolerance: Duration::from_secs(2),
        },
    );
    let tokens = PostgresRateLimiter::new(
        "tokens",
        RateLimitAlgorithm::TokenBucket {
            max_capacity: 8 * TOKEN,
            refill_rate_per_sec: 2 * TOKEN_PER_SEC,
        },
    );
    let mut db = Database::new();
    let idle = BucketState { tokens_used: 0, window_start: db.now - 2 * SECOND };
    db.table.insert("cells".to_string(), idle);
    let idle = BucketState { tokens_used: 0, window_start: db.now };
    db.table.insert("tokens".to_string(), idle);
    for step in 0..500 {
        db.now += (step * step * 7919) % 400_000;
        let answer = db.check(&cells);
        assert_eq!(answer, db.check(&tokens));
    }
}

#[test]
fn a_tolerance_below_half_an_interval_admits_nothing() {
    let mut db = Database::new();
    let limiter = gcra(Duration::from_secs(10), Duration::from_secs(1));
    let start = db.now;
    assert_eq!(db.wait(&limiter), 8_000_000_000);
    // The bucket is written all the same, as it is new.
    assert_eq!(
        db.table["bucket"],
        BucketState { tokens_used: 0, window_start: start + 9 * SECOND }
    );
    db.now += 1000 * SECOND;
    assert_eq!(db.wait(&limiter), 8_000_000_000);
    assert_eq!(db.table["bucket"].window_start, start + 9 * SECOND);
}

#[test]
fn intervals_are_rounded_to_microseconds() {
    let mut db = Database::new();
    for (nanos, micros) in [(499, 0), (500, 0), (501, 1), (1_500, 2), (2_500, 2), (2_501, 3)] {
        db.run(clear("bucket"));
        let start = db.now;
        let limiter = gcra(Duration::new(0, nanos), Duration::from_secs(0));
        assert!(db.allowed(&limiter));
        db.now = start + micros;
        assert!(db.allowed(&limiter));
        if micros > 0 {
            assert_eq!(db.wait(&limiter), micros as u128 * 1000);
        }
    }
}

#[test]
fn cells_keep_the_count_of_another_algorithm() {
    let mut db = Database::new();
    let window_start = db.now;
    db.table.insert("bucket".to_string(), BucketState { tokens_used: 7, window_start });
    let limiter = gcra(Duration::from_secs(1), Duration::from_secs(2));
    assert!(db.allowed(&limiter));
    assert_eq!(
        db.table["bucket"],
        BucketState { tokens_used: 7, window_start: window_start + SECOND }
    );
}

#[test]
fn times_out_of_range_are_an_error() {
    let interval = "error returned from database: interval out of range";
    let timestamp = "error returned from database: timestamp out of range";
    let hour = Duration::from_secs(3600);
    let never = Duration::new(u64::MAX, 0);
    let mut db = Database::new();
    for (emission_interval, tolerance, now, message) in [
        (never, hour, 0, interval),
        (hour, never, 0, interval),
        (never, hour, MIN_TIMESTAMP, interval),
        (hour, hour, MIN_TIMESTAMP, timestamp),
        (Duration::from_secs(0), hour, END_TIMESTAMP - 1, timestamp),
        (Duration::from_secs(9_223_372_036_854), hour, 0, timestamp),
        (Duration::from_secs(9_223_372_036_855), hour, 0, interval),
    ] {
        db.now = now;
        assert_eq!(
            db.check(&gcra(emission_interval, tolerance)),
            Err(Error::Retryable(message.to_string()))
        );
        assert!(db.table.is_empty());
    }
}

#[test]
fn a_slow_refill_is_a_long_wait() {
    let mut db = Database::new();
    // One token in ten billion seconds.
    let limiter = token_bucket(TOKEN, TOKEN_PER_SEC / 10_000_000_000);
    assert!(db.allowed(&limiter));
    assert_eq!(db.wait(&limiter), 10_000_000_000_000_000_000);
}

#[test]
fn a_fast_refill_is_no_wait() {
    let mut db = Database::new();
    let limiter = token_bucket(TOKEN, i128::MAX);
    assert!(db.allowed(&limiter));
    assert_eq!(db.wait(&limiter), 0);
    db.now += 1;
    assert!(db.allowed(&limiter));
    // More than a count can hold comes back.
    db.now += 1000 * SECOND;
    assert!(db.allowed(&limiter));
    assert_eq!(db.table["bucket"].tokens_used, TOKEN);
    // A clock behind the bucket's takes more out than a count can hold.
    db.now -= 1000 * SECOND;
    assert_eq!(db.wait(&limiter), 0);
    let slow = token_bucket(-TOKEN, i128::MAX);
    assert_eq!(db.wait(&slow), 0);
}

#[test]
fn a_large_capacity_is_not_cut() {
    let mut db = Database::new();
    let window_start = db.now;
    let tokens_used = 99_999_999_999 * TOKEN;
    db.table.insert("bucket".to_string(), BucketState { tokens_used, window_start });
    let limiter = token_bucket(100_000_000_000 * TOKEN, TOKEN_PER_SEC);
    assert_eq!(db.burst(&limiter), 1);
    assert_eq!(db.wait(&limiter), 1_000_000_000);
}

#[test]
fn a_negative_count_is_made_up_for() {
    let mut db = Database::new();
    let start = db.now;
    let empty = BucketState { tokens_used: i128::MIN, window_start: start };
    db.table.insert("bucket".to_string(), empty);
    // 2^127 + 2 * 10^27 - (2^127 mod 10^6) units are taken out again.
    db.now = start - SECOND;
    let rate = i128::MAX / 1_000_000 + 2 * TOKEN_PER_SEC;
    let limiter = token_bucket(10 * TOKEN, rate);
    assert!(db.allowed(&limiter));
    let found = db.table["bucket"].tokens_used - TOKEN;
    assert!(2 * TOKEN - 1_000_000 <= found && found <= 2 * TOKEN);
}

#[test]
fn a_wait_for_tokens_beyond_any_duration_has_no_answer() {
    let row = BucketState { tokens_used: TOKEN, window_start: 5 };
    for (rate, answer) in [(1, false), (54, false), (55, true), (0, false), (-1, true)] {
        let limiter = token_bucket(TOKEN, rate);
        let (stage, _) = limiter.resume(CheckStage::Loading { now: 5 }, Event::Row(Some(row)));
        assert_eq!(limiter.can_answer(stage), answer);
    }
}

#[test]
fn a_fresh_bucket_takes_one_task_within_a_small_tolerance() {
    for tolerance in [0, 5, 7, 9] {
        let mut db = Database::new();
        let limiter = gcra(Duration::from_secs(10), Duration::from_secs(tolerance));
        assert_eq!(db.burst(&limiter), 1);
    }
}

#[test]
fn a_retry_that_is_early_is_told_what_is_left() {
    let mut db = Database::new();
    let cells = gcra(Duration::from_secs(10), Duration::from_secs(12));
    assert_eq!(db.burst(&cells), 2);
    assert_eq!(db.wait(&cells), 8_000_000_000);
    db.now += 3 * SECOND;
    assert_eq!(db.wait(&cells), 5_000_000_000);
    db.run(clear("bucket"));
    let tokens = token_bucket(TOKEN, 3 * TOKEN_PER_SEC);
    assert!(db.allowed(&tokens));
    assert_eq!(db.wait(&tokens), 333_333_333);
    db.now += 100_001;
    assert_eq!(db.wait(&tokens), 233_332_333);
}

#[test]
fn cells_write_only_their_point_in_time() {
    let limiter = gcra(Duration::from_secs(1), Duration::from_secs(2));
    let row = BucketState { tokens_used: 7, window_start: 0 };
    let (stage, action) = limiter.resume(CheckStage::Loading { now: 0 }, Event::Row(Some(row)));
    let statement = match action {
        Action::Run(statement) => statement,
        other => panic!("not a statement: {:?}", other),
    };
    assert_eq!(
        statement,
        Statement::Advance { id: "bucket".to_string(), window_start: SECOND }
    );
    assert_eq!(
        statement.sql(),
        "INSERT INTO underway.global_rate_limit (id, tokens_used, window_start) VALUES ($1, 0, $2) ON CONFLICT (id) DO UPDATE SET window_start = EXCLUDED.window_start"
    );
    assert_eq!(limiter.resume(stage, Event::Done).1, Action::Commit);
}

#[test]
fn a_check_that_fails_before_its_commit_changes_nothing() {
    for fails in 0..5 {
        let mut db = Database::new();
        let limiter = fixed_window(1, Duration::from_secs(1));
        let (mut stage, mut action) = limiter.check("queue");
        let before = db.table.clone();
        let mut actions = 0;
        loop {
            if let Action::Return(result) = action {
                assert_eq!(result, Err(Error::Retryable("lost".to_string())));
                break;
            }
            let event = if actions == fails {
                db.table = before.clone();
                Event::Failed("lost".to_string())
            } else if let Action::Run(statement) = action {
                db.run(statement)
            } else {
                Event::Done
            };
            actions += 1;
            (stage, action) = limiter.resume(stage, event);
        }
        assert_eq!(actions, fails + 1);
        assert_eq!(db.table, before);
    }
}

#[test]
fn a_clock_that_jumps_back_and_forth_does_not_raise_the_rate() {
    // The clock is that of the start of a transaction, and the lock comes later.
    let jumps = [0, 3, 1, 4, 2, 6, 5, 9, 7, 8, 10, 0];
    let mut tokens = 0;
    let mut windows = 0;
    let mut db = Database::new();
    let start = db.now;
    let bucket = token_bucket(2 * TOKEN, TOKEN_PER_SEC);
    for jump in jumps {
        db.now = start + jump * SECOND;
        tokens += db.burst(&bucket);
    }
    // Two at 0, 3, 6 and 9, one at 4 and 10: no more than the capacity, and one per
    // second from the earliest to the latest.
    assert_eq!(tokens, 10);
    db.run(clear("bucket"));
    let window = fixed_window(2, Duration::from_secs(5));
    for jump in jumps {
        db.now = start + jump * SECOND;
        windows += db.burst(&window);
    }
    // The windows that open at 0, 6 and no other.
    assert_eq!(windows, 4);
}

#[test]
fn a_wait_holds_for_a_bucket_with_a_later_clock() {
    let mut db = Database::new();
    let start = db.now;
    let limiter = token_bucket(10 * TOKEN, TOKEN_PER_SEC);
    for _ in 0..8 {
        assert!(db.allowed(&limiter));
    }
    // Two seconds back, two tokens more are out.
    db.now = start - 2 * SECOND;
    assert_eq!(db.wait(&limiter), 1_000_000_000);
    db.now = start - 2 * SECOND + SECOND - 1;
    assert_eq!(db.wait(&limiter), 1_000);
    db.now = start - SECOND;
    assert!(db.allowed(&limiter));
}

#[test]
fn a_check_locks_reads_and_writes_in_order() {
    let mut db = Database::new();
    assert!(db.allowed(&fixed_window(1, Duration::from_secs(1))));
    assert_eq!(
        db.log,
        vec![
            "SELECT pg_advisory_xact_lock(hashtext($1))",
            "SELECT now()",
            "SELECT tokens_used::float8, window_start FROM underway.global_rate_limit WHERE id = $1 FOR UPDATE",
            "INSERT INTO underway.global_rate_limit (id, tokens_used, window_start) VALUES ($1, $2, $3) ON CONFLICT (id) DO UPDATE SET tokens_used = EXCLUDED.tokens_used, window_start = EXCLUDED.window_start",
        ]
    );
}

#[test]
fn a_check_names_its_bucket() {
    let limiter = fixed_window(1, Duration::from_secs(1));
    assert_eq!(limiter.check("queue"), (CheckStage::Beginning, Action::Begin));
    let (stage, action) = limiter.resume(CheckStage::Beginning, Event::Done);
    assert_eq!(action, Action::Run(Statement::Lock { id: "bucket".to_string() }));
    let (stage, action) = limiter.resume(stage, Event::Done);
    assert_eq!(action, Action::Run(Statement::ReadClock));
    let (stage, action) = limiter.resume(stage, Event::Clock(42));
    assert_eq!(stage, CheckStage::Loading { now: 42 });
    assert_eq!(action, Action::Run(Statement::Load { id: "bucket".to_string() }));
    let (stage, action) = limiter.resume(stage, Event::Row(None));
    let state = BucketState { tokens_used: TOKEN, window_start: 42 };
    assert_eq!(action, Action::Run(Statement::Store { id: "bucket".to_string(), state }));
    let (stage, action) = limiter.resume(stage, Event::Done);
    assert_eq!(action, Action::Commit);
    let (stage, action) = limiter.resume(stage, Event::Done);
    assert_eq!(stage, CheckStage::Finished);
    assert_eq!(action, Action::Return(Ok(RateLimitDecision::Allowed)));
}

#[test]
fn a_failure_at_any_stage_is_retryable() {
    let limiter = fixed_window(1, Duration::from_secs(1));
    let mut stage = CheckStage::Beginning;
    for event in [
        Event::Done,
        Event::Done,
        Event::Clock(0),
        Event::Row(None),
        Event::Done,
        Event::Done,
    ] {
        let failed = limiter.resume(stage, Event::Failed("no connection".to_string()));
        assert_eq!(
            failed,
            (
                CheckStage::Finished,
                Action::Return(Err(Error::Retryable("no connection".to_string())))
            )
        );
        stage = limiter.resume(stage, event).0;
    }
    assert_eq!(stage, CheckStage::Finished);
}

#[test]
fn clearing_resets_one_bucket() {
    let mut db = Database::new();
    let algorithm =
        RateLimitAlgorithm::FixedWindow { max_tokens: 1, window: Duration::from_secs(60) };
    let one = PostgresRateLimiter::new("one", algorithm.clone());
    let two = PostgresRateLimiter::new("two", algorithm);
    assert!(db.allowed(&one));
    assert!(db.allowed(&two));
    assert!(!db.allowed(&one));
    assert_eq!(clear("one").sql(), "DELETE FROM underway.global_rate_limit WHERE id = $1");
    assert_eq!(clear("one"), Statement::Delete { id: "one".to_string() });
    db.run(clear("one"));
    assert!(db.allowed(&one));
    assert!(!db.allowed(&two));
}
