//! The result-store client's verifiable half: the exact text of the three
//! statements sent to the historical test-record table, the reading of the
//! single row a count query hands back, and the bookkeeping of bounded
//! connection retries. The network transport itself lives outside the
//! library and exchanges plain values with these functions.

use vstd::prelude::*;

use crate::error::StoreError;

verus! {

/// `s` wrapped in single quotes, as a SQL string literal.
pub open spec fn quoted(s: Seq<char>) -> Seq<char> {
    seq!['\''] + s + seq!['\'']
}

/// The identifiers quoted and joined with `, `, as a SQL `IN` list.
pub open spec fn quoted_list(ids: Seq<Seq<char>>) -> Seq<char>
    decreases ids.len(),
{
    if ids.len() == 0 {
        Seq::empty()
    } else if ids.len() == 1 {
        quoted(ids[0])
    } else {
        quoted_list(ids.drop_last()) + seq![',', ' '] + quoted(ids.last())
    }
}

/// The statement that selects the configured database.
pub open spec fn spec_use_statement(database: Seq<char>) -> Seq<char> {
    "USE ["@ + database + "]"@
}

/// The query counting every historical test record of the one scanned
/// identifier, whatever its result.
pub open spec fn spec_total_query(id: Seq<char>) -> Seq<char> {
    "SELECT COUNT(*) FROM [dbo].[SMT_Test] WHERE [Serial_NMBR] = '"@ + id + "'"@
}

/// The query counting failed records per board over the sibling set,
/// largest count first; its first row is the panel's worst board.
pub open spec fn spec_panel_query(ids: Seq<Seq<char>>) -> Seq<char> {
    "SELECT COUNT(*) AS Fails FROM [dbo].[SMT_Test] WHERE [Serial_NMBR] IN ("@ + quoted_list(ids)
        + ") AND [Result] = 'Failed' GROUP BY [Serial_NMBR] ORDER BY Fails DESC;"@
}

/// Builds the statement that selects the configured database.
pub fn build_use_statement(database: &str) -> (q: String)
    ensures
        q@ == spec_use_statement(database@),
{
    let mut q = String::from_str("USE [");
    q.append(database);
    q.append("]");
    q
}

/// Builds the total-count query for the scanned identifier.
pub fn build_total_query(id: &str) -> (q: String)
    ensures
        q@ == spec_total_query(id@),
{
    let mut q = String::from_str("SELECT COUNT(*) FROM [dbo].[SMT_Test] WHERE [Serial_NMBR] = '");
    q.append(id);
    q.append("'");
    q
}

/// Builds the per-board failure-count query over the sibling set.
pub fn build_panel_query(ids: &Vec<String>) -> (q: String)
    ensures
        q@ == spec_panel_query(ids.deep_view()),
{
    let views = Ghost(ids.deep_view());
    let mut list = String::new();
    let mut i: usize = 0;
    proof {
        assert(views@.take(0) =~= Seq::<Seq<char>>::empty());
        assert(list@ =~= quoted_list(views@.take(0)));
    }
    while i < ids.len()
        invariant
            0 <= i <= ids@.len(),
            views@ == ids.deep_view(),
            views@.len() == ids@.len(),
            list@ == quoted_list(views@.take(i as int)),
        decreases ids@.len() - i,
    {
        proof {
            reveal_strlit("'");
            reveal_strlit(", ");
        }
        if i > 0 {
            list.append(", ");
        }
        list.append("'");
        list.append(ids[i].as_str());
        list.append("'");
        proof {
            let prev = views@.take(i as int);
            let cur = views@.take(i + 1);
            assert(cur.drop_last() =~= prev);
            assert(cur.last() == ids@[i as int]@);
            assert("'"@ =~= seq!['\'']);
            assert(", "@ =~= seq![',', ' ']);
            assert(list@ =~= quoted_list(cur));
        }
        i = i + 1;
    }
    proof {
        assert(views@.take(ids@.len() as int) =~= views@);
    }
    let mut q = String::from_str(
        "SELECT COUNT(*) AS Fails FROM [dbo].[SMT_Test] WHERE [Serial_NMBR] IN (",
    );
    q.append(list.as_str());
    q.append(") AND [Result] = 'Failed' GROUP BY [Serial_NMBR] ORDER BY Fails DESC;");
    q
}

/// Reads the row of the total-count query: the query owes exactly one row
/// whose first column is the count, so a missing row and a non-integer
/// column are both faults.
pub fn interpret_total_row(row: Option<Option<i32>>) -> (r: Result<i32, StoreError>)
    ensures
        match row {
            Some(Some(v)) => r == Ok::<i32, StoreError>(v),
            Some(None) => r == Err::<i32, StoreError>(StoreError::UnexpectedShape),
            None => r == Err::<i32, StoreError>(StoreError::NoResult),
        },
{
    match row {
        Some(Some(v)) => Ok(v),
        Some(None) => Err(StoreError::UnexpectedShape),
        None => Err(StoreError::NoResult),
    }
}

/// Reads the first row of the panel failure query. No row at all means no
/// board of the panel has ever failed, which is a count of zero, not a
/// fault; a row whose first column is not an integer is a fault.
pub fn interpret_panel_row(row: Option<Option<i32>>) -> (r: Result<i32, StoreError>)
    ensures
        match row {
            Some(Some(v)) => r == Ok::<i32, StoreError>(v),
            Some(None) => r == Err::<i32, StoreError>(StoreError::UnexpectedShape),
            None => r == Ok::<i32, StoreError>(0),
        },
{
    match row {
        Some(Some(v)) => Ok(v),
        Some(None) => Err(StoreError::UnexpectedShape),
        None => Ok(0),
    }
}

/// The bookkeeping of bounded connection retries: each failed attempt is
/// recorded, and a fresh attempt is allowed exactly while fewer than
/// `max_attempts` have failed. The caller opens one independent connection
/// per allowed attempt and stops at the first success.
#[derive(Debug, Clone, Copy, PartialEq, Eq, Structural)]
pub struct ConnectRetry {
    pub max_attempts: u32,
    pub failures: u32,
}

impl ConnectRetry {
    /// A fresh retry budget of `max_attempts` attempts.
    pub fn new(max_attempts: u32) -> (s: Self)
        ensures
            s.max_attempts == max_attempts,
            s.failures == 0,
    {
        ConnectRetry { max_attempts, failures: 0 }
    }

    /// Whether another connection attempt may be made: true exactly while
    /// fewer attempts have failed than the budget allows.
    pub fn may_attempt(&self) -> (b: bool)
        ensures
            b == (self.failures < self.max_attempts),
    {
        self.failures < self.max_attempts
    }

    /// Records one failed attempt.
    pub fn record_failure(&mut self)
        requires
            old(self).failures < old(self).max_attempts,
        ensures
            final(self).failures == old(self).failures + 1,
            final(self).max_attempts == old(self).max_attempts,
    {
        self.failures = self.failures + 1;
    }
}

} // verus!
