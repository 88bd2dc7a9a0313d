//! Queries on `read_items`: marking items read.

use vstd::prelude::*;
use crate::models::{Item, NewReadItem, ReadItem, Subscription};
use crate::queries::{
    DbError, QueryResult, at_most_one_selected, is_lookup_answer, lemma_run_get_or_create_row,
    lemma_run_get_or_create_twice, run_get_or_create,
};
use crate::queries::items::{
    ItemQuery, lemma_subscribed_item_rows_answer, lemma_unread_ids_contains,
    spec_subscribed_item_rows, spec_unread_ids, spec_user_item,
};

verus! {

/// A selection of rows of `read_items`: the marks of this user on this item.
#[derive(Clone, Copy, Debug, PartialEq, Eq)]
pub struct ReadItemQuery {
    pub user_id: i32,
    pub item_id: i32,
}

impl ReadItemQuery {
    /// Whether the selection holds the read mark `r`.
    pub open spec fn selects(self, r: ReadItem) -> bool {
        r.user_id == self.user_id && r.item_id == self.item_id
    }
}

impl NewReadItem {
    /// Whether `r` is a row that holds these values (under any id).
    pub open spec fn stored_as(self, r: ReadItem) -> bool {
        r.user_id == self.user_id && r.item_id == self.item_id
    }
}

/// The lookup that starts a get-or-create of a read mark: one per user and
/// item. Its answer goes to `crate::queries::found_or_insert`.
pub open spec fn spec_get_or_create(read_item: NewReadItem) -> ReadItemQuery {
    ReadItemQuery { user_id: read_item.user_id, item_id: read_item.item_id }
}

/// The lookup that starts a get-or-create of `read_item`.
pub fn get_or_create(read_item: &NewReadItem) -> (q: ReadItemQuery)
    ensures
        q == spec_get_or_create(*read_item),
{
    ReadItemQuery { user_id: read_item.user_id, item_id: read_item.item_id }
}

/// A read mark inserted by a get-or-create is found by the next
/// get-or-create of the same user and item: marking twice stores one mark.
pub proof fn lemma_get_or_create_finds_inserted(read_item: NewReadItem, row: ReadItem)
    requires
        read_item.stored_as(row),
    ensures
        spec_get_or_create(read_item).selects(row),
{
}

/// Once a user's read mark on an item is stored, every user's list of items
/// (`crate::queries::items::get_all_for`, turned into what the user sees by
/// `crate::queries::items::user_items`) shows that item read.
pub proof fn lemma_read_shows_read(
    user_id: i32,
    item_id: i32,
    mark: ReadItem,
    reader: i32,
    row: (Item, Option<ReadItem>),
    items: Seq<Item>,
    subscriptions: Seq<Subscription>,
    read_items: Seq<ReadItem>,
)
    requires
        (NewReadItem { user_id, item_id }).stored_as(mark),
        read_items.contains(mark),
        row.0.id == item_id,
        ItemQuery::SubscribedBy(reader).answers(row, items, subscriptions, read_items),
    ensures
        spec_user_item(row).read,
{
    if row.1 is None {
        let k = choose|k: int| 0 <= k < read_items.len() && read_items[k] == mark;
        assert(read_items[k].item_id == row.0.id);
    }
}

/// Marking one item read: the read mark to get-or-create; the outcome then
/// goes to `read_done`.
pub fn read(user_id: i32, item_id: i32) -> (mark: NewReadItem)
    ensures
        mark == (NewReadItem { user_id, item_id }),
{
    NewReadItem { user_id, item_id }
}

/// The outcome of marking one item read: nothing, or the error of the
/// get-or-create.
pub fn read_done(r: QueryResult<ReadItem>) -> (done: QueryResult<()>)
    ensures
        match r {
            Ok(_) => done == Ok::<(), DbError>(()),
            Err(e) => done == Err::<(), DbError>(e),
        },
{
    match r {
        Ok(_) => Ok(()),
        Err(e) => Err(e),
    }
}

/// Marking every unread item read for a user. The caller runs `query`,
/// hands its answer (the ids of the items that nobody has read) to
/// `on_unread`, inserts each read mark that a step asks for and hands the
/// insert's outcome to `on_inserted`, until a step finishes.
#[derive(Clone, Debug, PartialEq)]
pub struct ReadAll {
    pub user_id: i32,
    /// The ids of the items to mark, as the lookup gave them.
    pub unread: Vec<i32>,
    /// How many of them are marked.
    pub next: usize,
}

/// What the caller of a `ReadAll` does next.
#[derive(Debug, PartialEq)]
pub enum ReadAllStep {
    /// Insert this read mark.
    Insert(NewReadItem),
    /// The operation is over, with this result.
    Finish(QueryResult<()>),
}

/// The step once `next` of the unread items are marked: mark the next one,
/// or finish when all are.
pub open spec fn spec_step_at(user_id: i32, unread: Seq<i32>, next: int) -> ReadAllStep {
    if 0 <= next < unread.len() {
        ReadAllStep::Insert(NewReadItem { user_id, item_id: unread[next] })
    } else {
        ReadAllStep::Finish(Ok(()))
    }
}

/// The count of marked items after one more insert succeeded.
pub open spec fn spec_next_after_insert(len: int, next: int) -> int {
    if next < len {
        next + 1
    } else {
        next
    }
}

/// The count of marked items after `k` more inserts succeeded.
pub open spec fn spec_next_after(len: int, next: int, k: nat) -> int
    decreases k,
{
    if k == 0 {
        next
    } else {
        spec_next_after(len, spec_next_after_insert(len, next), (k - 1) as nat)
    }
}

/// Starts marking every unread item read for `user_id`.
pub fn read_all(user_id: i32) -> (s: ReadAll)
    ensures
        s.user_id == user_id,
        s.unread@ == Seq::<i32>::empty(),
        s.next == 0,
{
    ReadAll { user_id, unread: Vec::new(), next: 0 }
}

impl ReadAll {
    /// The lookup of the unread items (their ids).
    pub fn query(&self) -> (q: ItemQuery<'static>)
        ensures
            q == ItemQuery::NeverRead,
    {
        ItemQuery::NeverRead
    }

    /// Takes the answer of `query`: a failed lookup ends the operation with
    /// its error; otherwise the items to mark are those ids, in that order.
    pub fn on_unread(&mut self, unread: QueryResult<Vec<i32>>) -> (step: ReadAllStep)
        ensures
            match unread {
                Err(e) => {
                    &&& step == ReadAllStep::Finish(Err(e))
                    &&& *final(self) == *old(self)
                },
                Ok(ids) => {
                    &&& final(self).user_id == old(self).user_id
                    &&& final(self).unread@ == ids@
                    &&& final(self).next == 0
                    &&& step == spec_step_at(old(self).user_id, ids@, 0)
                },
            },
    {
        match unread {
            Err(e) => ReadAllStep::Finish(Err(e)),
            Ok(ids) => {
                self.unread = ids;
                self.next = 0;
                self.step()
            },
        }
    }

    /// Takes the outcome of the insert that the last step asked for: a failed
    /// insert ends the operation with its error; otherwise one more item is
    /// marked.
    pub fn on_inserted(&mut self, created: QueryResult<ReadItem>) -> (step: ReadAllStep)
        ensures
            match created {
                Err(e) => {
                    &&& step == ReadAllStep::Finish(Err(e))
                    &&& *final(self) == *old(self)
                },
                Ok(_) => {
                    &&& final(self).user_id == old(self).user_id
                    &&& final(self).unread@ == old(self).unread@
                    &&& final(self).next == spec_next_after_insert(
                        old(self).unread@.len() as int,
                        old(self).next as int,
                    )
                    &&& step == spec_step_at(
                        old(self).user_id,
                        old(self).unread@,
                        final(self).next as int,
                    )
                },
            },
    {
        match created {
            Err(e) => ReadAllStep::Finish(Err(e)),
            Ok(_) => {
                if self.next < self.unread.len() {
                    self.next = self.next + 1;
                }
                self.step()
            },
        }
    }

    fn step(&self) -> (step: ReadAllStep)
        ensures
            step == spec_step_at(self.user_id, self.unread@, self.next as int),
    {
        if self.next < self.unread.len() {
            ReadAllStep::Insert(NewReadItem { user_id: self.user_id, item_id: self.unread[self.next] })
        } else {
            ReadAllStep::Finish(Ok(()))
        }
    }
}

/// Marking all unread items read asks, after the lookup answered `unread`
/// and `k` inserts succeeded, for the mark of the user on `unread[k]` while
/// `k` is below the number of unread items, and finishes with `Ok(())`
/// after the last: one mark per unread item, in the lookup's order.
pub proof fn lemma_read_all_marks_each_unread(user_id: i32, unread: Seq<i32>, k: nat)
    ensures
        spec_next_after(unread.len() as int, 0, k) == (if k < unread.len() {
            k as int
        } else {
            unread.len() as int
        }),
        spec_step_at(user_id, unread, spec_next_after(unread.len() as int, 0, k)) == (if k
            < unread.len() {
            ReadAllStep::Insert(NewReadItem { user_id, item_id: unread[k as int] })
        } else {
            ReadAllStep::Finish(Ok(()))
        }),
{
    lemma_next_after(unread.len() as int, 0, k);
}

proof fn lemma_next_after(len: int, next: int, k: nat)
    requires
        0 <= next <= len,
    ensures
        spec_next_after(len, next, k) == (if next + k < len {
            next + k
        } else {
            len
        }),
    decreases k,
{
    if k > 0 {
        lemma_next_after(len, spec_next_after_insert(len, next), (k - 1) as nat);
    }
}


/// The rows that the lookup of a get-or-create of `read_item` selects.
pub open spec fn get_or_create_selects(read_item: NewReadItem) -> spec_fn(ReadItem) -> bool {
    |row: ReadItem| spec_get_or_create(read_item).selects(row)
}

/// Asking twice to get-or-create the same read mark (as `read` does), when every database call
/// succeeds and the table held at most one such row: the second asking gives
/// the row the first gave and leaves the table as the first left it, so at
/// most one row is added, whichever matching row each lookup answers.
pub proof fn lemma_get_or_create_twice(
    read_item: NewReadItem,
    table: Seq<ReadItem>,
    first_answer: Option<ReadItem>,
    first_insert: ReadItem,
    second_answer: Option<ReadItem>,
    second_insert: ReadItem,
)
    requires
        read_item.stored_as(first_insert),
        at_most_one_selected(table, get_or_create_selects(read_item)),
        is_lookup_answer(table, get_or_create_selects(read_item), first_answer),
        is_lookup_answer(
            run_get_or_create(table, first_answer, first_insert).0,
            get_or_create_selects(read_item),
            second_answer,
        ),
    ensures
        ({
            let (t1, a) = run_get_or_create(table, first_answer, first_insert);
            let (t2, b) = run_get_or_create(t1, second_answer, second_insert);
            &&& t2 == t1
            &&& b == a
            &&& at_most_one_selected(t1, get_or_create_selects(read_item))
        }),
{
    lemma_get_or_create_finds_inserted(read_item, first_insert);
    lemma_run_get_or_create_twice(
        table,
        get_or_create_selects(read_item),
        first_answer,
        first_insert,
        second_answer,
        second_insert,
    );
}
/// Marking all read and then listing: when the never-read lookup of a
/// `ReadAll` answered the ids of the items that no read mark names (in any
/// order), and each read mark it asked for (one per id, for the user, see
/// `lemma_read_all_marks_each_unread`) was stored, then every row of any
/// user's item list over the new marks shows its item read.
pub proof fn lemma_read_all_then_all_read(
    user_id: i32,
    items: Seq<Item>,
    subscriptions: Seq<Subscription>,
    read_items: Seq<ReadItem>,
    unread: Seq<i32>,
    marks: Seq<ReadItem>,
    reader: i32,
    row: (Item, Option<ReadItem>),
)
    requires
        unread.to_multiset() == spec_unread_ids(items, read_items).to_multiset(),
        marks.len() == unread.len(),
        forall|k: int|
            0 <= k < marks.len() ==> (NewReadItem { user_id, item_id: unread[k] }).stored_as(
                #[trigger] marks[k],
            ),
        ItemQuery::SubscribedBy(reader).answers(row, items, subscriptions, read_items + marks),
    ensures
        spec_user_item(row).read,
{
    let all = read_items + marks;
    if row.1 is None {
        assert forall|k: int| 0 <= k < read_items.len() implies #[trigger] read_items[k].item_id
            != row.0.id by {
            assert(all[k] == read_items[k]);
        }
        lemma_unread_ids_contains(items, read_items, row.0);
        spec_unread_ids(items, read_items).to_multiset_ensures();
        unread.to_multiset_ensures();
        assert(spec_unread_ids(items, read_items).to_multiset().count(row.0.id) > 0);
        assert(unread.to_multiset().count(row.0.id) > 0);
        assert(unread.contains(row.0.id));
        let j = choose|j: int| 0 <= j < unread.len() && unread[j] == row.0.id;
        assert(all[read_items.len() + j] == marks[j]);
        assert(marks[j].item_id == row.0.id);
    }
}

/// Marking all read and then listing, over the whole list: under the
/// conditions of `lemma_read_all_then_all_read`, every row of any user's
/// list of items (`spec_subscribed_item_rows`, turned into what the user
/// sees by `crate::queries::items::user_items`) shows its item read.
pub proof fn lemma_read_all_then_list_all_read(
    user_id: i32,
    items: Seq<Item>,
    subscriptions: Seq<Subscription>,
    read_items: Seq<ReadItem>,
    unread: Seq<i32>,
    marks: Seq<ReadItem>,
    reader: i32,
)
    requires
        unread.to_multiset() == spec_unread_ids(items, read_items).to_multiset(),
        marks.len() == unread.len(),
        forall|k: int|
            0 <= k < marks.len() ==> (NewReadItem { user_id, item_id: unread[k] }).stored_as(
                #[trigger] marks[k],
            ),
    ensures
        forall|k: int|
            0 <= k < spec_subscribed_item_rows(items, subscriptions, read_items + marks, reader).len()
                ==> #[trigger] spec_user_item(
                spec_subscribed_item_rows(items, subscriptions, read_items + marks, reader)[k],
            ).read,
{
    let rows = spec_subscribed_item_rows(items, subscriptions, read_items + marks, reader);
    assert forall|k: int| 0 <= k < rows.len() implies #[trigger] spec_user_item(rows[k]).read by {
        assert forall|i: int| 0 <= i < items.len() implies items.contains(#[trigger] items[i]) by {}
        lemma_subscribed_item_rows_answer(items, items, subscriptions, read_items + marks, reader, k);
        lemma_read_all_then_all_read(
            user_id,
            items,
            subscriptions,
            read_items,
            unread,
            marks,
            reader,
            rows[k],
        );
    }
}

/// Marking an item read and then listing: after `read` of the item for a
/// user, when every database call succeeded (whichever matching mark the
/// lookup answered), the table of read marks holds a mark on the item, and
/// every row of any user's item list over it shows the item read.
pub proof fn lemma_read_then_listed_read(
    user_id: i32,
    item_id: i32,
    table: Seq<ReadItem>,
    answer: Option<ReadItem>,
    inserted: ReadItem,
    reader: i32,
    row: (Item, Option<ReadItem>),
    items: Seq<Item>,
    subscriptions: Seq<Subscription>,
)
    requires
        (NewReadItem { user_id, item_id }).stored_as(inserted),
        is_lookup_answer(table, get_or_create_selects(NewReadItem { user_id, item_id }), answer),
        row.0.id == item_id,
        ItemQuery::SubscribedBy(reader).answers(
            row,
            items,
            subscriptions,
            run_get_or_create(table, answer, inserted).0,
        ),
    ensures
        spec_user_item(row).read,
{
    let mark = NewReadItem { user_id, item_id };
    let selected = get_or_create_selects(mark);
    let (t1, a) = run_get_or_create(table, answer, inserted);
    lemma_get_or_create_finds_inserted(mark, inserted);
    lemma_run_get_or_create_row(table, selected, answer, inserted);
    assert(selected(a));
    lemma_read_shows_read(a.user_id, item_id, a, reader, row, items, subscriptions, t1);
}

} // verus!
