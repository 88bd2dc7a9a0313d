//! Queries on `items`.

use vstd::prelude::*;
use crate::models::{Item, NewItem, ReadItem, Subscription, UserItem};
use crate::queries::{DbError, Next, QueryResult, is_lookup_answer};

verus! {

/// A selection of rows of `items`.
#[derive(Clone, Copy, Debug, PartialEq)]
pub enum ItemQuery<'a> {
    /// The items with this guid.
    ByGuid(&'a str),
    /// The items of this channel with this title and description.
    ByContent { channel_id: i32, title: &'a str, description: &'a str },
    /// The items of the channels this user is subscribed to: `items` joined
    /// with `subscriptions` on the channel, kept where the subscription's user
    /// is this one, then left-joined with `read_items` on the item. Each answer
    /// row pairs an item with one read mark of it, or with none when nobody
    /// has read it (the answer is `spec_subscribed_item_rows`).
    SubscribedBy(i32),
    /// The items that nobody has marked read: `items` left-joined with
    /// `read_items` on the item, kept where no read mark joined. The marks of
    /// every user count, not those of one user.
    NeverRead,
}

impl<'a> ItemQuery<'a> {
    /// Whether the selection holds the item `i`, given the rows of
    /// `subscriptions` and `read_items`.
    pub open spec fn selects(
        self,
        i: Item,
        subscriptions: Seq<Subscription>,
        read_items: Seq<ReadItem>,
    ) -> bool {
        match self {
            ItemQuery::ByGuid(guid) => match i.guid {
                Some(g) => g@ == guid@,
                None => false,
            },
            ItemQuery::ByContent { channel_id, title, description } => i.channel_id == channel_id
                && i.title@ == title@ && i.description@ == description@,
            ItemQuery::SubscribedBy(user_id) => exists|k: int|
                0 <= k < subscriptions.len() && #[trigger] subscriptions[k].channel_id
                    == i.channel_id && subscriptions[k].user_id == user_id,
            ItemQuery::NeverRead => forall|k: int|
                0 <= k < read_items.len() ==> #[trigger] read_items[k].item_id != i.id,
        }
    }
}

impl<'a> ItemQuery<'a> {
    /// Whether `row` is a row of the database's answer to the query over
    /// these tables: a selected item, paired with a read mark of that item
    /// (by any user), or with nothing when the item has none.
    pub open spec fn answers(
        self,
        row: (Item, Option<ReadItem>),
        items: Seq<Item>,
        subscriptions: Seq<Subscription>,
        read_items: Seq<ReadItem>,
    ) -> bool {
        &&& items.contains(row.0)
        &&& self.selects(row.0, subscriptions, read_items)
        &&& match row.1 {
            Some(r) => read_items.contains(r) && r.item_id == row.0.id,
            None => forall|k: int|
                0 <= k < read_items.len() ==> #[trigger] read_items[k].item_id != row.0.id,
        }
    }
}

impl<'a> NewItem<'a> {
    /// Whether `i` is a row that holds these values (under any id).
    pub open spec fn stored_as(self, i: Item) -> bool {
        &&& i.channel_id == self.channel_id
        &&& i.title@ == self.title@
        &&& i.link@ == self.link@
        &&& i.description@ == self.description@
        &&& i.pub_date == self.pub_date
        &&& match (self.guid, i.guid) {
            (Some(a), Some(b)) => a@ == b@,
            (None, None) => true,
            _ => false,
        }
    }
}

/// Whether an existing row `row` is the same entry as the new `item`: with a
/// guid, a row with that very guid (whatever its title or description);
/// without one, a row of the same channel with the same title and
/// description.
pub open spec fn known_as(item: NewItem, row: Item) -> bool {
    match item.guid {
        Some(g) => row.guid matches Some(x) && x@ == g@,
        None => row.channel_id == item.channel_id && row.title@ == item.title@
            && row.description@ == item.description@,
    }
}

/// The lookup of an insert-if-new selects exactly the rows that are the same
/// entry: for an item with guid `g`, every row with guid `g` and no other
/// row; for one without a guid, the rows of its channel with its title and
/// description.
pub proof fn lemma_insert_if_new_selects_same_entry(
    item: NewItem,
    row: Item,
    subscriptions: Seq<Subscription>,
    read_items: Seq<ReadItem>,
)
    ensures
        item.guid matches Some(g) ==> (spec_insert_if_new(item).selects(
            row,
            subscriptions,
            read_items,
        ) <==> (row.guid matches Some(x) && x@ == g@)),
        item.guid is None ==> (spec_insert_if_new(item).selects(row, subscriptions, read_items) <==> (
        row.channel_id == item.channel_id && row.title@ == item.title@ && row.description@
            == item.description@)),
{
}

/// What the user sees of an answer row: its item, read exactly when a read
/// mark joined the row; a row that no read mark joined is unread.
pub proof fn lemma_user_item(row: (Item, Option<ReadItem>))
    ensures
        spec_user_item(row).item == row.0,
        spec_user_item(row).read <==> row.1 is Some,
        row.1 is None ==> !spec_user_item(row).read,
{
}

/// The lookup that starts an insert-if-new: an item with a guid is known by
/// its guid; one without is known by its channel, title and description.
pub open spec fn spec_insert_if_new<'a>(item: NewItem<'a>) -> ItemQuery<'a> {
    match item.guid {
        Some(guid) => ItemQuery::ByGuid(guid),
        None => ItemQuery::ByContent {
            channel_id: item.channel_id,
            title: item.title,
            description: item.description,
        },
    }
}

/// The lookup that starts an insert-if-new of `item`. Its answer goes to
/// `new_or_none`.
pub fn insert_if_new<'a>(item: &NewItem<'a>) -> (q: ItemQuery<'a>)
    ensures
        q == spec_insert_if_new(*item),
        forall|row: Item, subscriptions: Seq<Subscription>, read_items: Seq<ReadItem>|
            #[trigger] q.selects(row, subscriptions, read_items) <==> known_as(*item, row),
{
    match item.guid {
        Some(guid) => ItemQuery::ByGuid(guid),
        None => ItemQuery::ByContent {
            channel_id: item.channel_id,
            title: item.title,
            description: item.description,
        },
    }
}

/// The decision of an insert-if-new: a known item is not inserted again and
/// the result is `None`; an unknown one is inserted; a failed lookup ends
/// the operation with its error.
pub open spec fn spec_new_or_none(found: QueryResult<Option<Item>>) -> Next<Option<Item>> {
    match found {
        Ok(Some(_)) => Next::Done(Ok(None)),
        Ok(None) => Next::Insert,
        Err(e) => Next::Done(Err(e)),
    }
}

/// Decides an insert-if-new once its lookup has answered.
pub fn new_or_none(found: QueryResult<Option<Item>>) -> (next: Next<Option<Item>>)
    ensures
        next == spec_new_or_none(found),
{
    match found {
        Ok(Some(_)) => Next::Done(Ok(None)),
        Ok(None) => Next::Insert,
        Err(e) => Next::Done(Err(e)),
    }
}

/// The result of an insert-if-new once its insert has answered: the
/// inserted row, or the insert's error.
pub fn inserted(created: QueryResult<Item>) -> (r: QueryResult<Option<Item>>)
    ensures
        match created {
            Ok(row) => r == Ok::<Option<Item>, DbError>(Some(row)),
            Err(e) => r == Err::<Option<Item>, DbError>(e),
        },
{
    match created {
        Ok(row) => Ok(Some(row)),
        Err(e) => Err(e),
    }
}

/// The items of the user's channels; the answer goes to `user_items`.
pub fn get_all_for(user_id: i32) -> (q: ItemQuery<'static>)
    ensures
        q == ItemQuery::SubscribedBy(user_id),
{
    ItemQuery::SubscribedBy(user_id)
}

/// An answer row of `ItemQuery::SubscribedBy` as the user sees it: the item,
/// read when a read mark joined it.
pub open spec fn spec_user_item(row: (Item, Option<ReadItem>)) -> UserItem {
    UserItem { item: row.0, read: row.1 is Some }
}

/// The answer of `get_all_for` as the user sees it, row by row and in order.
pub fn user_items(rows: Vec<(Item, Option<ReadItem>)>) -> (r: Vec<UserItem>)
    ensures
        r@ == rows@.map_values(|row: (Item, Option<ReadItem>)| spec_user_item(row)),
        r@.len() == rows@.len(),
        forall|k: int|
            0 <= k < r@.len() ==> #[trigger] r@[k].item == rows@[k].0 && r@[k].read == (
            rows@[k].1 is Some),
{
    let ghost all = rows@;
    let mut r: Vec<UserItem> = Vec::new();
    for row in it: rows.into_iter()
        invariant
            it.seq() == all,
            r.len() == it.index(),
            forall|j: int| 0 <= j < r.len() ==> r@[j] == spec_user_item(#[trigger] all[j]),
    {
        let (item, read_mark) = row;
        r.push(UserItem { item, read: read_mark.is_some() });
    }
    assert(r@ =~= all.map_values(|row: (Item, Option<ReadItem>)| spec_user_item(row)));
    proof {
        assert forall|k: int| 0 <= k < r@.len() implies #[trigger] r@[k].item == rows@[k].0
            && r@[k].read == (rows@[k].1 is Some) by {
            lemma_user_item(all[k]);
        }
    }
    r
}

/// An item inserted by an insert-if-new is found by the next insert-if-new of
/// the same values, which then inserts nothing and answers `None`: feeding
/// the same entry twice stores it once.
pub proof fn lemma_insert_if_new_finds_inserted(
    item: NewItem,
    row: Item,
    subscriptions: Seq<Subscription>,
    read_items: Seq<ReadItem>,
)
    requires
        item.stored_as(row),
    ensures
        spec_insert_if_new(item).selects(row, subscriptions, read_items),
        spec_new_or_none(Ok(Some(row))) == Next::<Option<Item>>::Done(Ok(None)),
{
}

/// The rows that the lookup of an insert-if-new of `item` selects.
pub open spec fn insert_if_new_selects(item: NewItem) -> spec_fn(Item) -> bool {
    |row: Item| spec_insert_if_new(item).selects(row, Seq::empty(), Seq::empty())
}

/// An insert-if-new run against `items` whose database calls all succeed:
/// the table after it and what it gives, when its lookup answered `answer`.
/// An insert appends `inserted`, the row the database stores.
pub open spec fn run_insert_if_new(table: Seq<Item>, answer: Option<Item>, inserted: Item) -> (
    Seq<Item>,
    Option<Item>,
) {
    match spec_new_or_none(Ok(answer)) {
        Next::Done(Ok(r)) => (table, r),
        _ => (table.push(inserted), Some(inserted)),
    }
}

/// Feeding the same entry twice, when every database call succeeds: the
/// second insert-if-new gives `None` and leaves the table as the first left
/// it, so the entry is stored at most once, whichever matching row each
/// lookup answers.
pub proof fn lemma_insert_if_new_twice(
    item: NewItem,
    table: Seq<Item>,
    first_answer: Option<Item>,
    first_insert: Item,
    second_answer: Option<Item>,
    second_insert: Item,
)
    requires
        item.stored_as(first_insert),
        is_lookup_answer(table, insert_if_new_selects(item), first_answer),
        is_lookup_answer(
            run_insert_if_new(table, first_answer, first_insert).0,
            insert_if_new_selects(item),
            second_answer,
        ),
    ensures
        ({
            let (t1, a) = run_insert_if_new(table, first_answer, first_insert);
            let (t2, b) = run_insert_if_new(t1, second_answer, second_insert);
            t2 == t1 && b is None
        }),
{
    let selected = insert_if_new_selects(item);
    assert(selected(first_insert));
    if first_answer is Some {
        let r = first_answer->0;
        let i = choose|i: int| 0 <= i < table.len() && table[i] == r;
        assert(selected(table[i]));
    } else {
        let t1 = table.push(first_insert);
        assert(selected(t1[table.len() as int]));
    }
}

/// The answer of the never-read lookup, as the program reads it: the ids of
/// the items that no read mark names, in the table's order.
pub open spec fn spec_unread_ids(items: Seq<Item>, read_items: Seq<ReadItem>) -> Seq<i32>
    decreases items.len(),
{
    if items.len() == 0 {
        Seq::empty()
    } else {
        let rest = spec_unread_ids(items.drop_first(), read_items);
        if ItemQuery::NeverRead.selects(items[0], Seq::empty(), read_items) {
            seq![items[0].id] + rest
        } else {
            rest
        }
    }
}

/// Every item that no read mark names has its id in the never-read answer.
pub proof fn lemma_unread_ids_contains(items: Seq<Item>, read_items: Seq<ReadItem>, item: Item)
    requires
        items.contains(item),
        ItemQuery::NeverRead.selects(item, Seq::empty(), read_items),
    ensures
        spec_unread_ids(items, read_items).contains(item.id),
    decreases items.len(),
{
    let rest = spec_unread_ids(items.drop_first(), read_items);
    if items[0] == item {
        assert(spec_unread_ids(items, read_items)[0] == item.id);
    } else {
        let k = choose|k: int| 0 <= k < items.len() && items[k] == item;
        assert(items.drop_first()[k - 1] == item);
        lemma_unread_ids_contains(items.drop_first(), read_items, item);
        let j = choose|j: int| 0 <= j < rest.len() && rest[j] == item.id;
        if ItemQuery::NeverRead.selects(items[0], Seq::empty(), read_items) {
            assert(spec_unread_ids(items, read_items)[j + 1] == item.id);
        } else {
            assert(spec_unread_ids(items, read_items)[j] == item.id);
        }
    }
}

/// The answer rows of one item: the item paired with each read mark of it
/// (by any user), in table order, or once with nothing when it has none.
pub open spec fn spec_item_with_marks(item: Item, read_items: Seq<ReadItem>) -> Seq<
    (Item, Option<ReadItem>),
> {
    let marks = read_items.filter(|r: ReadItem| r.item_id == item.id);
    if marks.len() == 0 {
        seq![(item, None)]
    } else {
        marks.map_values(|r: ReadItem| (item, Some(r)))
    }
}

/// The answer rows of one item in a user's list: its rows with its marks,
/// once for each subscription of the user to the item's channel.
pub open spec fn spec_item_rows(
    item: Item,
    subscriptions: Seq<Subscription>,
    read_items: Seq<ReadItem>,
    user_id: i32,
) -> Seq<(Item, Option<ReadItem>)>
    decreases subscriptions.len(),
{
    if subscriptions.len() == 0 {
        Seq::empty()
    } else {
        let here = if subscriptions[0].channel_id == item.channel_id && subscriptions[0].user_id
            == user_id {
            spec_item_with_marks(item, read_items)
        } else {
            Seq::empty()
        };
        here + spec_item_rows(item, subscriptions.drop_first(), read_items, user_id)
    }
}

/// The answer of `ItemQuery::SubscribedBy(user_id)`: every item, in table
/// order, with its rows (see `spec_item_rows`). An item thus appears once per
/// subscription of the user to its channel and per read mark of it. The
/// database gives these rows, counted the same, in an order of its own.
pub open spec fn spec_subscribed_item_rows(
    items: Seq<Item>,
    subscriptions: Seq<Subscription>,
    read_items: Seq<ReadItem>,
    user_id: i32,
) -> Seq<(Item, Option<ReadItem>)>
    decreases items.len(),
{
    if items.len() == 0 {
        Seq::empty()
    } else {
        spec_item_rows(items[0], subscriptions, read_items, user_id) + spec_subscribed_item_rows(
            items.drop_first(),
            subscriptions,
            read_items,
            user_id,
        )
    }
}

proof fn lemma_item_with_marks_answers(
    item: Item,
    read_items: Seq<ReadItem>,
    k: int,
)
    requires
        0 <= k < spec_item_with_marks(item, read_items).len(),
    ensures
        spec_item_with_marks(item, read_items)[k].0 == item,
        match spec_item_with_marks(item, read_items)[k].1 {
            Some(r) => read_items.contains(r) && r.item_id == item.id,
            None => forall|j: int|
                0 <= j < read_items.len() ==> #[trigger] read_items[j].item_id != item.id,
        },
{
    let pred = |r: ReadItem| r.item_id == item.id;
    let marks = read_items.filter(pred);
    if marks.len() == 0 {
        assert forall|j: int| 0 <= j < read_items.len() implies #[trigger] read_items[j].item_id
            != item.id by {
            if read_items[j].item_id == item.id {
                read_items.lemma_filter_contains(pred, j);
            }
        }
    } else {
        read_items.lemma_filter_pred(pred, k);
        read_items.lemma_filter_contains_rev(pred, marks[k]);
    }
}

proof fn lemma_item_rows_answer(
    item: Item,
    items: Seq<Item>,
    subscriptions: Seq<Subscription>,
    all_subscriptions: Seq<Subscription>,
    read_items: Seq<ReadItem>,
    user_id: i32,
    k: int,
)
    requires
        items.contains(item),
        forall|i: int| 0 <= i < subscriptions.len() ==> all_subscriptions.contains(#[trigger] subscriptions[i]),
        0 <= k < spec_item_rows(item, subscriptions, read_items, user_id).len(),
    ensures
        ItemQuery::SubscribedBy(user_id).answers(
            spec_item_rows(item, subscriptions, read_items, user_id)[k],
            items,
            all_subscriptions,
            read_items,
        ),
    decreases subscriptions.len(),
{
    let rows = spec_item_rows(item, subscriptions, read_items, user_id);
    let here = if subscriptions[0].channel_id == item.channel_id && subscriptions[0].user_id == user_id {
        spec_item_with_marks(item, read_items)
    } else {
        Seq::empty()
    };
    let rest = spec_item_rows(item, subscriptions.drop_first(), read_items, user_id);
    assert(rows == here + rest);
    if k < here.len() {
        assert(rows[k] == here[k]);
        lemma_item_with_marks_answers(item, read_items, k);
        assert(all_subscriptions.contains(subscriptions[0]));
        let j = choose|j: int| 0 <= j < all_subscriptions.len() && all_subscriptions[j] == subscriptions[0];
        assert(all_subscriptions[j].channel_id == item.channel_id);
    } else {
        assert(rows[k] == rest[k - here.len()]);
        assert forall|i: int| 0 <= i < subscriptions.drop_first().len() implies all_subscriptions.contains(
            #[trigger] subscriptions.drop_first()[i],
        ) by {
            assert(subscriptions.drop_first()[i] == subscriptions[i + 1]);
        }
        lemma_item_rows_answer(
            item,
            items,
            subscriptions.drop_first(),
            all_subscriptions,
            read_items,
            user_id,
            k - here.len(),
        );
    }
}

/// Every row of the answer sequence of a user's items is an answer row: a
/// selected item of the table with one of its read marks, or with nothing
/// when it has none.
pub proof fn lemma_subscribed_item_rows_answer(
    items: Seq<Item>,
    all_items: Seq<Item>,
    subscriptions: Seq<Subscription>,
    read_items: Seq<ReadItem>,
    user_id: i32,
    k: int,
)
    requires
        forall|i: int| 0 <= i < items.len() ==> all_items.contains(#[trigger] items[i]),
        0 <= k < spec_subscribed_item_rows(items, subscriptions, read_items, user_id).len(),
    ensures
        ItemQuery::SubscribedBy(user_id).answers(
            spec_subscribed_item_rows(items, subscriptions, read_items, user_id)[k],
            all_items,
            subscriptions,
            read_items,
        ),
    decreases items.len(),
{
    let rows = spec_subscribed_item_rows(items, subscriptions, read_items, user_id);
    let first = spec_item_rows(items[0], subscriptions, read_items, user_id);
    let rest = spec_subscribed_item_rows(items.drop_first(), subscriptions, read_items, user_id);
    assert(rows == first + rest);
    if k < first.len() {
        assert(rows[k] == first[k]);
        assert(all_items.contains(items[0]));
        lemma_item_rows_answer(items[0], all_items, subscriptions, subscriptions, read_items, user_id, k);
    } else {
        assert(rows[k] == rest[k - first.len()]);
        assert forall|i: int| 0 <= i < items.drop_first().len() implies all_items.contains(
            #[trigger] items.drop_first()[i],
        ) by {
            assert(items.drop_first()[i] == items[i + 1]);
        }
        lemma_subscribed_item_rows_answer(
            items.drop_first(),
            all_items,
            subscriptions,
            read_items,
            user_id,
            k - first.len(),
        );
    }
}

} // verus!
