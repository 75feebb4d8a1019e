//! The write to the store: what is handed to it and what its answer means.
//!
//! The store itself is reached by the caller, who executes the statement
//! once with the four values of the row and reports how that ended.

use crate::subscriber::Row;
use vstd::prelude::*;

verus! {

/// The store could not take the row: it was unreachable, a constraint was
/// violated, or time ran out. The detail is what the store reported, in full.
#[derive(Debug, Clone)]
pub struct PersistenceError {
    pub detail: String,
}

/// The text of the statement that inserts one subscriber. Its four
/// parameters are, in order, the identifier, the email, the name and the time
/// of subscription.
pub open spec fn insert_text() -> Seq<char> {
    "INSERT INTO subscriptions (id, email, name, subscribed_at) VALUES ($1, $2, $3, $4)"@
}

/// The statement that inserts one subscriber.
pub fn insert_statement() -> (statement: &'static str)
    ensures
        statement@ == insert_text(),
{
    "INSERT INTO subscriptions (id, email, name, subscribed_at) VALUES ($1, $2, $3, $4)"
}

/// The rows of the table once a single insert of `row` has ended; `stored`
/// says whether the store reported it as done. An insert that is done has
/// added its row; one that failed has changed nothing.
pub open spec fn table_after_insert(before: Seq<Row>, row: Row, stored: bool) -> Seq<Row> {
    if stored {
        before.push(row)
    } else {
        before
    }
}

} // verus!
