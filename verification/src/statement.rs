//! The statements that the rate limiter runs on the database.

use crate::bucket::BucketState;
use vstd::prelude::*;

verus! {

/// What the table holds: the buckets by their ids.
pub type Table = Map<Seq<char>, BucketState>;

/// A statement, with the values that it carries.
///
/// The values are bound in the order of the fields, and the bucket's two columns
/// in theirs.
#[derive(Debug, PartialEq, Eq)]
pub enum Statement {
    /// Waits for the lock on the bucket, which lasts until the transaction ends.
    Lock {
        /// The bucket's id.
        id: String,
    },
    /// Reads the clock of the database as it was when the transaction began.
    ReadClock,
    /// Reads the bucket and keeps others from changing or deleting it until the
    /// transaction ends.
    Load {
        /// The bucket's id.
        id: String,
    },
    /// Writes the bucket, whether or not it exists.
    Store {
        /// The bucket's id.
        id: String,
        /// What the bucket holds from now on.
        state: BucketState,
    },
    /// Writes only the bucket's point in time. A bucket that does not exist yet gets
    /// a count of zero.
    Advance {
        /// The bucket's id.
        id: String,
        /// The bucket's point in time from now on.
        window_start: i64,
    },
    /// Deletes the bucket if it exists.
    Delete {
        /// The bucket's id.
        id: String,
    },
}

/// A [`Statement`] as contracts speak of it.
pub enum StatementView {
    /// See [`Statement::Lock`].
    Lock { id: Seq<char> },
    /// See [`Statement::ReadClock`].
    ReadClock,
    /// See [`Statement::Load`].
    Load { id: Seq<char> },
    /// See [`Statement::Store`].
    Store { id: Seq<char>, state: BucketState },
    /// See [`Statement::Advance`].
    Advance { id: Seq<char>, window_start: i64 },
    /// See [`Statement::Delete`].
    Delete { id: Seq<char> },
}

impl View for Statement {
    type V = StatementView;

    open spec fn view(&self) -> StatementView {
        match *self {
            Statement::Lock { id } => StatementView::Lock { id: id@ },
            Statement::ReadClock => StatementView::ReadClock,
            Statement::Load { id } => StatementView::Load { id: id@ },
            Statement::Store { id, state } => StatementView::Store { id: id@, state },
            Statement::Advance { id, window_start } => StatementView::Advance {
                id: id@,
                window_start,
            },
            Statement::Delete { id } => StatementView::Delete { id: id@ },
        }
    }
}

impl StatementView {
    /// The table after the statement.
    pub open spec fn apply(self, table: Table) -> Table {
        match self {
            StatementView::Store { id, state } => table.insert(id, state),
            StatementView::Advance { id, window_start } => table.insert(
                id,
                BucketState {
                    tokens_used: if table.contains_key(id) {
                        table[id].tokens_used
                    } else {
                        0
                    },
                    window_start,
                },
            ),
            StatementView::Delete { id } => table.remove(id),
            _ => table,
        }
    }

    /// The text of the statement.
    pub open spec fn text(self) -> Seq<char> {
        match self {
            StatementView::Lock { .. } => "SELECT pg_advisory_xact_lock(hashtext($1))"@,
            StatementView::ReadClock => "SELECT now()"@,
            StatementView::Load { .. } =>
                "SELECT tokens_used::float8, window_start FROM underway.global_rate_limit WHERE id = $1 FOR UPDATE"@,
            StatementView::Store { .. } =>
                "INSERT INTO underway.global_rate_limit (id, tokens_used, window_start) VALUES ($1, $2, $3) ON CONFLICT (id) DO UPDATE SET tokens_used = EXCLUDED.tokens_used, window_start = EXCLUDED.window_start"@,
            StatementView::Advance { .. } =>
                "INSERT INTO underway.global_rate_limit (id, tokens_used, window_start) VALUES ($1, 0, $2) ON CONFLICT (id) DO UPDATE SET window_start = EXCLUDED.window_start"@,
            StatementView::Delete { .. } =>
                "DELETE FROM underway.global_rate_limit WHERE id = $1"@,
        }
    }
}

impl Statement {
    /// The text of the statement.
    pub fn sql(&self) -> (text: &'static str)
        ensures
            text@ == self@.text(),
            self is Lock ==> text@ == "SELECT pg_advisory_xact_lock(hashtext($1))"@,
            self is ReadClock ==> text@ == "SELECT now()"@,
            self is Load ==> text@
                == "SELECT tokens_used::float8, window_start FROM underway.global_rate_limit WHERE id = $1 FOR UPDATE"@,
            self is Store ==> text@
                == "INSERT INTO underway.global_rate_limit (id, tokens_used, window_start) VALUES ($1, $2, $3) ON CONFLICT (id) DO UPDATE SET tokens_used = EXCLUDED.tokens_used, window_start = EXCLUDED.window_start"@,
            self is Advance ==> text@
                == "INSERT INTO underway.global_rate_limit (id, tokens_used, window_start) VALUES ($1, 0, $2) ON CONFLICT (id) DO UPDATE SET window_start = EXCLUDED.window_start"@,
            self is Delete ==> text@ == "DELETE FROM underway.global_rate_limit WHERE id = $1"@,
    {
        match self {
            Statement::Lock { .. } => "SELECT pg_advisory_xact_lock(hashtext($1))",
            Statement::ReadClock => "SELECT now()",
            Statement::Load { .. } =>
                "SELECT tokens_used::float8, window_start FROM underway.global_rate_limit WHERE id = $1 FOR UPDATE",
            Statement::Store { .. } =>
                "INSERT INTO underway.global_rate_limit (id, tokens_used, window_start) VALUES ($1, $2, $3) ON CONFLICT (id) DO UPDATE SET tokens_used = EXCLUDED.tokens_used, window_start = EXCLUDED.window_start",
            Statement::Advance { .. } =>
                "INSERT INTO underway.global_rate_limit (id, tokens_used, window_start) VALUES ($1, 0, $2) ON CONFLICT (id) DO UPDATE SET window_start = EXCLUDED.window_start",
            Statement::Delete { .. } => "DELETE FROM underway.global_rate_limit WHERE id = $1",
        }
    }
}

} // verus!
