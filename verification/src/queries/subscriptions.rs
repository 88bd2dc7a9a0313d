//! Queries on `subscriptions`.

use vstd::prelude::*;
use crate::models::{Channel, Item, NewSubscription, ReadItem, Subscription};
use crate::queries::channels::ChannelQuery;
use crate::queries::items::ItemQuery;
use crate::queries::{at_most_one_selected, is_lookup_answer, lemma_run_get_or_create_twice, run_get_or_create};

verus! {

/// A selection of rows of `subscriptions`: those of this user to this
/// channel.
#[derive(Clone, Copy, Debug, PartialEq, Eq)]
pub struct SubscriptionQuery {
    pub user_id: i32,
    pub channel_id: i32,
}

impl SubscriptionQuery {
    /// Whether the selection holds the subscription `s`.
    pub open spec fn selects(self, s: Subscription) -> bool {
        s.user_id == self.user_id && s.channel_id == self.channel_id
    }
}

impl NewSubscription {
    /// Whether `s` is a row that holds these values (under any id).
    pub open spec fn stored_as(self, s: Subscription) -> bool {
        s.user_id == self.user_id && s.channel_id == self.channel_id
    }
}

/// The lookup that starts a get-or-create of a subscription: one per user
/// and channel. Its answer goes to `crate::queries::found_or_insert`.
pub open spec fn spec_get_or_create(subscription: NewSubscription) -> SubscriptionQuery {
    SubscriptionQuery { user_id: subscription.user_id, channel_id: subscription.channel_id }
}

/// The lookup that starts a get-or-create of `subscription`.
pub fn get_or_create(subscription: &NewSubscription) -> (q: SubscriptionQuery)
    ensures
        q == spec_get_or_create(*subscription),
{
    SubscriptionQuery { user_id: subscription.user_id, channel_id: subscription.channel_id }
}

/// A subscription inserted by a get-or-create is found by the next
/// get-or-create of the same user and channel.
pub proof fn lemma_get_or_create_finds_inserted(subscription: NewSubscription, row: Subscription)
    requires
        subscription.stored_as(row),
    ensures
        spec_get_or_create(subscription).selects(row),
{
}

/// Once a user's subscription to a channel is stored, the user's channels
/// (`crate::queries::channels::get_all_for`) hold that channel and the
/// user's items (`crate::queries::items::get_all_for`) hold every item of it.
pub proof fn lemma_subscribed_channel_is_listed(
    user_id: i32,
    channel: Channel,
    row: Subscription,
    subscriptions: Seq<Subscription>,
    item: Item,
    read_items: Seq<ReadItem>,
)
    requires
        (NewSubscription { user_id, channel_id: channel.id }).stored_as(row),
        subscriptions.contains(row),
    ensures
        ChannelQuery::SubscribedBy(user_id).selects(channel, subscriptions),
        item.channel_id == channel.id ==> ItemQuery::SubscribedBy(user_id).selects(
            item,
            subscriptions,
            read_items,
        ),
{
    let k = choose|k: int| 0 <= k < subscriptions.len() && subscriptions[k] == row;
    assert(subscriptions[k].channel_id == channel.id);
}


/// The rows that the lookup of a get-or-create of `subscription` selects.
pub open spec fn get_or_create_selects(subscription: NewSubscription) -> spec_fn(Subscription) -> bool {
    |row: Subscription| spec_get_or_create(subscription).selects(row)
}

/// Asking twice to get-or-create the same subscription, when every database call
/// succeeds and the table held at most one such row: the second asking gives
/// the row the first gave and leaves the table as the first left it, so at
/// most one row is added, whichever matching row each lookup answers.
pub proof fn lemma_get_or_create_twice(
    subscription: NewSubscription,
    table: Seq<Subscription>,
    first_answer: Option<Subscription>,
    first_insert: Subscription,
    second_answer: Option<Subscription>,
    second_insert: Subscription,
)
    requires
        subscription.stored_as(first_insert),
        at_most_one_selected(table, get_or_create_selects(subscription)),
        is_lookup_answer(table, get_or_create_selects(subscription), first_answer),
        is_lookup_answer(
            run_get_or_create(table, first_answer, first_insert).0,
            get_or_create_selects(subscription),
            second_answer,
        ),
    ensures
        ({
            let (t1, a) = run_get_or_create(table, first_answer, first_insert);
            let (t2, b) = run_get_or_create(t1, second_answer, second_insert);
            &&& t2 == t1
            &&& b == a
            &&& at_most_one_selected(t1, get_or_create_selects(subscription))
        }),
{
    lemma_get_or_create_finds_inserted(subscription, first_insert);
    lemma_run_get_or_create_twice(
        table,
        get_or_create_selects(subscription),
        first_answer,
        first_insert,
        second_answer,
        second_insert,
    );
}
} // verus!
