# underway

Rate limits that all workers of a queue share through one PostgreSQL table,
written and verified in Verus.

* `src/` is the library. It holds what a check on a rate limit decides: the fixed
  window, the token bucket and the Generic Cell Rate Algorithm, and the
  conversation with the database that a check is. `src/laws.rs` states and proves
  what holds of rate limits as a whole: how many tasks may run, that the time to
  wait is exact, that a check serves its own bucket under the lock and leaves
  every other alone.
* `app/` performs the actions that the library asks for on a live database, and
  turns floating point and the time types of the database into the integers that
  the library counts in.
* `tests/` runs the library against a table in memory.

Tokens are counted in units of 10^-27, and refill rates in units of 10^-21 tokens
per second, so that all arithmetic is exact. Points in time are microseconds since
the start of the year 2000.
