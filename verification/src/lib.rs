//! Rate limiting for queues whose workers share one database table.
//!
//! Each rate limit is a *bucket*, one row of the table
//! `underway.global_rate_limit`. A worker that is about to run a task makes a
//! check: under a lock on the bucket it reads the database's clock and the row,
//! applies one of three algorithms, writes the row back, and either goes ahead or
//! learns how long to wait.
//!
//! This crate holds everything that such a check decides: the three algorithms
//! ([`fixed_window`], [`token_bucket`], [`gcra`]), and the order of the
//! statements, what each of them carries and what every reply leads to
//! ([`rate_limit`]). It never talks to the database itself. What holds of all of
//! it together is stated and proved in [`laws`], and what a single step comes to in
//! [`steps`].

pub mod bucket;
pub mod duration;
pub mod fixed_window;
pub mod gcra;
pub mod laws;
pub mod rate_limit;
pub mod rounding;
pub mod statement;
pub mod steps;
pub mod task;
pub mod token_bucket;
