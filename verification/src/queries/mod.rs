//! The decisions behind the feeder's database queries.
//!
//! The database itself is reached by the program around this library. Each
//! query function here says which rows to look up (a `...Query` value whose
//! `selects` states the rows it denotes) and what to do with the answer: return
//! it, or insert the new values and return what the insert gave back.
//!
//! The laws about running an operation twice, or one after another, are
//! stated over tables as sequences of rows, where an insert appends the row
//! that the database stores and a first-row lookup may answer any row it
//! selects (`is_lookup_answer`).

use vstd::prelude::*;

pub mod channels;
pub mod items;
pub mod read_items;
pub mod subscriptions;
pub mod users;

verus! {

/// A failed database call, with the driver's message.
#[derive(Clone, Debug, PartialEq)]
pub struct DbError {
    pub message: String,
}

/// The outcome of a database call.
pub type QueryResult<T> = Result<T, DbError>;

/// What to do once a lookup has answered.
#[derive(Debug, PartialEq)]
pub enum Next<T> {
    /// The operation is over, with this result.
    Done(QueryResult<T>),
    /// Insert the new values; the operation's result is what the insert gives.
    Insert,
}

/// The decision of every get-or-create: a row that the lookup found is the
/// result; when none was found the new values are inserted; a failed lookup
/// ends the operation with its error.
pub open spec fn spec_found_or_insert<T>(found: QueryResult<Option<T>>) -> Next<T> {
    match found {
        Ok(Some(row)) => Next::Done(Ok(row)),
        Ok(None) => Next::Insert,
        Err(e) => Next::Done(Err(e)),
    }
}

/// Decides a get-or-create once its lookup has answered.
pub fn found_or_insert<T>(found: QueryResult<Option<T>>) -> (next: Next<T>)
    ensures
        next == spec_found_or_insert(found),
{
    match found {
        Ok(Some(row)) => Next::Done(Ok(row)),
        Ok(None) => Next::Insert,
        Err(e) => Next::Done(Err(e)),
    }
}

/// Whether `answer` is a possible answer of a first-row lookup of the table:
/// one of the rows the lookup selects, whichever (the lookups carry no
/// order, so the database may give any of them), or nothing when the lookup
/// selects no row.
pub open spec fn is_lookup_answer<R>(
    table: Seq<R>,
    selected: spec_fn(R) -> bool,
    answer: Option<R>,
) -> bool {
    match answer {
        Some(r) => table.contains(r) && selected(r),
        None => forall|k: int| 0 <= k < table.len() ==> !selected(#[trigger] table[k]),
    }
}

/// The lookup selects at most one row of the table.
pub open spec fn at_most_one_selected<R>(table: Seq<R>, selected: spec_fn(R) -> bool) -> bool {
    forall|i: int, j: int|
        0 <= i < table.len() && 0 <= j < table.len() && selected(#[trigger] table[i]) && selected(
            #[trigger] table[j],
        ) ==> table[i] == table[j]
}

/// A get-or-create run against a table whose database calls all succeed:
/// the table after it and the row it gives, when its lookup answered
/// `answer`. An insert appends `inserted`, the row the database stores.
pub open spec fn run_get_or_create<R>(table: Seq<R>, answer: Option<R>, inserted: R) -> (Seq<R>, R) {
    match spec_found_or_insert::<R>(Ok(answer)) {
        Next::Done(Ok(row)) => (table, row),
        _ => (table.push(inserted), inserted),
    }
}

/// The row a get-or-create gives is a row of the table after it, and one
/// that its lookup selects.
pub proof fn lemma_run_get_or_create_row<R>(
    table: Seq<R>,
    selected: spec_fn(R) -> bool,
    answer: Option<R>,
    inserted: R,
)
    requires
        is_lookup_answer(table, selected, answer),
        selected(inserted),
    ensures
        ({
            let (t1, a) = run_get_or_create(table, answer, inserted);
            t1.contains(a) && selected(a)
        }),
{
    if answer is None {
        assert(table.push(inserted)[table.len() as int] == inserted);
    }
}

/// A second get-or-create of the same values gives the row the first gave
/// and leaves the table as the first left it, whichever selected row each
/// lookup answers, as long as the lookup selected at most one row before;
/// it still selects at most one after.
pub proof fn lemma_run_get_or_create_twice<R>(
    table: Seq<R>,
    selected: spec_fn(R) -> bool,
    first_answer: Option<R>,
    first_insert: R,
    second_answer: Option<R>,
    second_insert: R,
)
    requires
        at_most_one_selected(table, selected),
        selected(first_insert),
        is_lookup_answer(table, selected, first_answer),
        is_lookup_answer(
            run_get_or_create(table, first_answer, first_insert).0,
            selected,
            second_answer,
        ),
    ensures
        ({
            let (t1, a) = run_get_or_create(table, first_answer, first_insert);
            let (t2, b) = run_get_or_create(t1, second_answer, second_insert);
            &&& t2 == t1
            &&& b == a
            &&& at_most_one_selected(t1, selected)
        }),
{
    let n = table.len() as int;
    match first_answer {
        Some(r) => {
            let i = choose|i: int| 0 <= i < n && table[i] == r;
            match second_answer {
                Some(r2) => {
                    let j = choose|j: int| 0 <= j < n && table[j] == r2;
                    assert(selected(table[i]) && selected(table[j]));
                },
                None => {
                    assert(!selected(table[i]));
                },
            }
        },
        None => {
            let t1 = table.push(first_insert);
            assert(t1[n] == first_insert);
            match second_answer {
                Some(r2) => {
                    let j = choose|j: int| 0 <= j < t1.len() && t1[j] == r2;
                    if j < n {
                        assert(t1[j] == table[j]);
                        assert(!selected(table[j]));
                    }
                },
                None => {
                    assert(!selected(t1[n]));
                },
            }
            assert forall|i: int, j: int|
                0 <= i < t1.len() && 0 <= j < t1.len() && selected(#[trigger] t1[i]) && selected(
                    #[trigger] t1[j],
                ) implies t1[i] == t1[j] by {
                if i < n {
                    assert(t1[i] == table[i]);
                    assert(!selected(table[i]));
                }
                if j < n {
                    assert(t1[j] == table[j]);
                    assert(!selected(table[j]));
                }
            }
        },
    }
}

} // verus!
