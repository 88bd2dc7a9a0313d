//! Queries on `channels`.

use vstd::prelude::*;
use crate::models::{Channel, NewChannel, Subscription};
use crate::queries::{at_most_one_selected, is_lookup_answer, lemma_run_get_or_create_twice, run_get_or_create};

verus! {

/// A selection of rows of `channels`.
#[derive(Clone, Copy, Debug, PartialEq)]
pub enum ChannelQuery<'a> {
    /// The channel with this id.
    ById(i32),
    /// The channels whose link is this one.
    ByLink(&'a str),
    /// The channels that this user is subscribed to: `channels` joined
    /// with `subscriptions` on the channel, kept where the subscription's
    /// user is this one (its answer is `spec_subscribed_channel_rows`).
    SubscribedBy(i32),
}

impl<'a> ChannelQuery<'a> {
    /// Whether the selection holds the channel `c`, given the rows of
    /// `subscriptions`.
    pub open spec fn selects(self, c: Channel, subscriptions: Seq<Subscription>) -> bool {
        match self {
            ChannelQuery::ById(id) => c.id == id,
            ChannelQuery::ByLink(link) => c.link@ == link@,
            ChannelQuery::SubscribedBy(user_id) => exists|i: int|
                0 <= i < subscriptions.len() && #[trigger] subscriptions[i].channel_id == c.id
                    && subscriptions[i].user_id == user_id,
        }
    }
}

impl<'a> NewChannel<'a> {
    /// Whether `c` is a row that holds these values (under any id).
    pub open spec fn stored_as(self, c: Channel) -> bool {
        &&& c.title@ == self.title@
        &&& c.link@ == self.link@
        &&& c.description@ == self.description@
        &&& c.source@ == self.source@
        &&& match (self.image, c.image) {
            (Some(a), Some(b)) => a@ == b@,
            (None, None) => true,
            _ => false,
        }
        &&& c.ttl == self.ttl
    }
}

/// The lookup of a channel by its id (the first such row, if any).
pub fn get(id: i32) -> (q: ChannelQuery<'static>)
    ensures
        q == ChannelQuery::ById(id),
{
    ChannelQuery::ById(id)
}

/// The lookup that starts a get-or-create of a channel: channels are the
/// same when their links are. Its answer goes to
/// `crate::queries::found_or_insert`.
pub open spec fn spec_get_or_create<'a>(channel: NewChannel<'a>) -> ChannelQuery<'a> {
    ChannelQuery::ByLink(channel.link)
}

/// The lookup that starts a get-or-create of `channel`.
pub fn get_or_create<'a>(channel: &NewChannel<'a>) -> (q: ChannelQuery<'a>)
    ensures
        q == spec_get_or_create(*channel),
{
    ChannelQuery::ByLink(channel.link)
}

/// The channels the user is subscribed to.
pub fn get_all_for(user_id: i32) -> (q: ChannelQuery<'static>)
    ensures
        q == ChannelQuery::SubscribedBy(user_id),
{
    ChannelQuery::SubscribedBy(user_id)
}

/// A channel inserted by a get-or-create is found by the next get-or-create
/// of the same values, whatever the other rows: asking twice adds one row.
pub proof fn lemma_get_or_create_finds_inserted(
    channel: NewChannel,
    row: Channel,
    subscriptions: Seq<Subscription>,
)
    requires
        channel.stored_as(row),
    ensures
        spec_get_or_create(channel).selects(row, subscriptions),
{
}


/// The rows that the lookup of a get-or-create of `channel` selects.
pub open spec fn get_or_create_selects(channel: NewChannel, subscriptions: Seq<Subscription>) -> spec_fn(Channel) -> bool {
    |row: Channel| spec_get_or_create(channel).selects(row, subscriptions)
}

/// Asking twice to get-or-create the same channel, when every database call
/// succeeds and the table held at most one such row: the second asking gives
/// the row the first gave and leaves the table as the first left it, so at
/// most one row is added, whichever matching row each lookup answers.
pub proof fn lemma_get_or_create_twice(
    channel: NewChannel, subscriptions: Seq<Subscription>,
    table: Seq<Channel>,
    first_answer: Option<Channel>,
    first_insert: Channel,
    second_answer: Option<Channel>,
    second_insert: Channel,
)
    requires
        channel.stored_as(first_insert),
        at_most_one_selected(table, get_or_create_selects(channel, subscriptions)),
        is_lookup_answer(table, get_or_create_selects(channel, subscriptions), first_answer),
        is_lookup_answer(
            run_get_or_create(table, first_answer, first_insert).0,
            get_or_create_selects(channel, subscriptions),
            second_answer,
        ),
    ensures
        ({
            let (t1, a) = run_get_or_create(table, first_answer, first_insert);
            let (t2, b) = run_get_or_create(t1, second_answer, second_insert);
            &&& t2 == t1
            &&& b == a
            &&& at_most_one_selected(t1, get_or_create_selects(channel, subscriptions))
        }),
{
    lemma_get_or_create_finds_inserted(channel, first_insert, subscriptions);
    lemma_run_get_or_create_twice(
        table,
        get_or_create_selects(channel, subscriptions),
        first_answer,
        first_insert,
        second_answer,
        second_insert,
    );
}
/// The answer rows of one channel in a user's list: the channel once for
/// each subscription of the user to it.
pub open spec fn spec_channel_rows(
    channel: Channel,
    subscriptions: Seq<Subscription>,
    user_id: i32,
) -> Seq<Channel>
    decreases subscriptions.len(),
{
    if subscriptions.len() == 0 {
        Seq::empty()
    } else {
        let here = if subscriptions[0].channel_id == channel.id && subscriptions[0].user_id
            == user_id {
            seq![channel]
        } else {
            Seq::empty()
        };
        here + spec_channel_rows(channel, subscriptions.drop_first(), user_id)
    }
}

/// The answer of `ChannelQuery::SubscribedBy(user_id)`: every channel, in
/// table order, once per subscription of the user to it. The database gives
/// these rows, counted the same, in an order of its own.
pub open spec fn spec_subscribed_channel_rows(
    channels: Seq<Channel>,
    subscriptions: Seq<Subscription>,
    user_id: i32,
) -> Seq<Channel>
    decreases channels.len(),
{
    if channels.len() == 0 {
        Seq::empty()
    } else {
        spec_channel_rows(channels[0], subscriptions, user_id) + spec_subscribed_channel_rows(
            channels.drop_first(),
            subscriptions,
            user_id,
        )
    }
}

proof fn lemma_channel_rows_selected(
    channel: Channel,
    subscriptions: Seq<Subscription>,
    all_subscriptions: Seq<Subscription>,
    user_id: i32,
    k: int,
)
    requires
        forall|i: int| 0 <= i < subscriptions.len() ==> all_subscriptions.contains(#[trigger] subscriptions[i]),
        0 <= k < spec_channel_rows(channel, subscriptions, user_id).len(),
    ensures
        spec_channel_rows(channel, subscriptions, user_id)[k] == channel,
        ChannelQuery::SubscribedBy(user_id).selects(channel, all_subscriptions),
    decreases subscriptions.len(),
{
    let rows = spec_channel_rows(channel, subscriptions, user_id);
    let matches = subscriptions[0].channel_id == channel.id && subscriptions[0].user_id == user_id;
    let here = if matches { seq![channel] } else { Seq::empty() };
    let rest = spec_channel_rows(channel, subscriptions.drop_first(), user_id);
    assert(rows == here + rest);
    if k < here.len() {
        assert(all_subscriptions.contains(subscriptions[0]));
        let j = choose|j: int| 0 <= j < all_subscriptions.len() && all_subscriptions[j] == subscriptions[0];
        assert(all_subscriptions[j].channel_id == channel.id);
    } else {
        assert(rows[k] == rest[k - here.len()]);
        assert forall|i: int| 0 <= i < subscriptions.drop_first().len() implies all_subscriptions.contains(
            #[trigger] subscriptions.drop_first()[i],
        ) by {
            assert(subscriptions.drop_first()[i] == subscriptions[i + 1]);
        }
        lemma_channel_rows_selected(channel, subscriptions.drop_first(), all_subscriptions, user_id, k - here.len());
    }
}

/// Every row of the answer sequence of a user's channels is a channel of the
/// table that the user is subscribed to.
pub proof fn lemma_subscribed_channel_rows_selected(
    channels: Seq<Channel>,
    all_channels: Seq<Channel>,
    subscriptions: Seq<Subscription>,
    user_id: i32,
    k: int,
)
    requires
        forall|i: int| 0 <= i < channels.len() ==> all_channels.contains(#[trigger] channels[i]),
        0 <= k < spec_subscribed_channel_rows(channels, subscriptions, user_id).len(),
    ensures
        all_channels.contains(spec_subscribed_channel_rows(channels, subscriptions, user_id)[k]),
        ChannelQuery::SubscribedBy(user_id).selects(
            spec_subscribed_channel_rows(channels, subscriptions, user_id)[k],
            subscriptions,
        ),
    decreases channels.len(),
{
    let rows = spec_subscribed_channel_rows(channels, subscriptions, user_id);
    let first = spec_channel_rows(channels[0], subscriptions, user_id);
    let rest = spec_subscribed_channel_rows(channels.drop_first(), subscriptions, user_id);
    assert(rows == first + rest);
    if k < first.len() {
        assert(rows[k] == first[k]);
        assert forall|i: int| 0 <= i < subscriptions.len() implies subscriptions.contains(#[trigger] subscriptions[i]) by {}
        lemma_channel_rows_selected(channels[0], subscriptions, subscriptions, user_id, k);
        assert(all_channels.contains(channels[0]));
    } else {
        assert(rows[k] == rest[k - first.len()]);
        assert forall|i: int| 0 <= i < channels.drop_first().len() implies all_channels.contains(
            #[trigger] channels.drop_first()[i],
        ) by {
            assert(channels.drop_first()[i] == channels[i + 1]);
        }
        lemma_subscribed_channel_rows_selected(
            channels.drop_first(),
            all_channels,
            subscriptions,
            user_id,
            k - first.len(),
        );
    }
}

} // verus!
