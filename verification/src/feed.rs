//! From a parsed RSS feed to the rows to insert: a new channel (what
//! `add_channel` subscribes to) and its new items (what `update_channels`
//! stores on each poll).

use vstd::prelude::*;
use crate::models::{Channel, Item, NewChannel, NewItem, NewSubscription, NewUser, Timestamp, User};
use crate::text::{parse_i32, parse_i32_spec};

verus! {

/// An RSS channel as the feed parser reads it.
#[derive(Clone, Debug, PartialEq)]
pub struct FeedChannel {
    pub title: String,
    pub link: String,
    pub description: String,
    /// The URL of the channel's image, when it has one.
    pub image: Option<String>,
    /// The `<ttl>` text, when there is one.
    pub ttl: Option<String>,
    pub items: Vec<FeedItem>,
}

/// An RSS item as the feed parser reads it.
#[derive(Clone, Debug, PartialEq)]
pub struct FeedItem {
    pub title: Option<String>,
    pub link: Option<String>,
    pub description: Option<String>,
    /// The value of the `<guid>`, when there is one.
    pub guid: Option<String>,
    /// The `<pubDate>` text, when there is one.
    pub pub_date: Option<String>,
}

/// What `rss::Channel::read_from` reads from a document: its channel, with
/// the fields that `FeedChannel` keeps, or nothing when the bytes are not an
/// RSS document.
pub uninterp spec fn rss_feed(bytes: Seq<u8>) -> Option<FeedChannel>;

/// Calls `rss::Channel::read_from` on the bytes of a document and moves the
/// fields that `FeedChannel` and `FeedItem` keep out of its channel. Trusted: the result is
/// `rss_feed` of the bytes, which says only that it depends on the bytes
/// alone; what the channel holds is not stated.
#[verifier::external_body]
pub fn parse_feed(bytes: &[u8]) -> (r: Option<FeedChannel>)
    ensures
        r == rss_feed(bytes@),
{
    let c = rss::Channel::read_from(bytes).ok()?;
    Some(FeedChannel {
        title: c.title, link: c.link, description: c.description,
        image: c.image.map(|i| i.url), ttl: c.ttl,
        items: c.items.into_iter().map(|it| FeedItem {
            title: it.title, link: it.link, description: it.description,
            guid: it.guid.map(|g| g.value), pub_date: it.pub_date,
        }).collect(),
    })
}

/// An optional borrowed text holds the same characters as an optional
/// owned one.
pub open spec fn same_text(a: Option<&str>, b: Option<String>) -> bool {
    match (a, b) {
        (Some(x), Some(y)) => x@ == y@,
        (None, None) => true,
        _ => false,
    }
}

fn as_text<'a>(s: &'a Option<String>) -> (r: Option<&'a str>)
    ensures
        same_text(r, *s),
{
    match s {
        Some(t) => Some(t.as_str()),
        None => None,
    }
}

/// The TTL of a channel: its `<ttl>` text read as an `i32`; `None` when the
/// text is not one.
pub open spec fn spec_ttl(ttl: Option<String>) -> Option<Option<i32>> {
    match ttl {
        None => Some(None),
        Some(t) => match parse_i32_spec(t@) {
            Some(v) => Some(Some(v)),
            None => None,
        },
    }
}

/// The channel to insert for the feed read from `source`. `None` when the
/// feed's `<ttl>` is not an `i32` (the feed is refused).
pub fn new_channel<'a>(feed: &'a FeedChannel, source: &'a str) -> (r: Option<NewChannel<'a>>)
    ensures
        r is Some <==> spec_ttl(feed.ttl) is Some,
        r matches Some(c) ==> {
            &&& c.title@ == feed.title@
            &&& c.link@ == feed.link@
            &&& c.description@ == feed.description@
            &&& c.source@ == source@
            &&& same_text(c.image, feed.image)
            &&& Some(c.ttl) == spec_ttl(feed.ttl)
        },
{
    let ttl = match &feed.ttl {
        None => None,
        Some(t) => match parse_i32(t.as_str()) {
            Some(v) => Some(v),
            None => {
                return None;
            },
        },
    };
    Some(
        NewChannel {
            title: feed.title.as_str(),
            link: feed.link.as_str(),
            description: feed.description.as_str(),
            source,
            image: as_text(&feed.image),
            ttl,
        },
    )
}

/// What `chrono::DateTime::parse_from_rfc2822` gives for a text: the instant
/// in UTC (seconds since the epoch and nanoseconds past that second), or
/// nothing when the text is not an RFC 2822 date.
pub uninterp spec fn rfc2822_utc(text: Seq<char>) -> Option<(i64, u32)>;

/// Calls `chrono::DateTime::<FixedOffset>::parse_from_rfc2822` and converts a
/// parsed date to its UTC seconds and nanoseconds. Trusted: the result is
/// `rfc2822_utc` of the text, which says only that it depends on the text
/// alone.
#[verifier::external_body]
fn parse_rfc2822(text: &str) -> (r: Option<(i64, u32)>)
    ensures
        r == rfc2822_utc(text@),
{
    match chrono::DateTime::<chrono::FixedOffset>::parse_from_rfc2822(text) {
        Ok(d) => Some((d.timestamp(), d.timestamp_subsec_nanos())),
        Err(_) => None,
    }
}

/// The publication date stored for an item: its `<pubDate>` when that is an
/// RFC 2822 date, taken in UTC; otherwise `now`.
pub open spec fn spec_pub_date(pub_date: Option<String>, now: Timestamp) -> Timestamp {
    match pub_date {
        Some(text) => spec_date_or_now(rfc2822_utc(text@), now),
        None => now,
    }
}

/// The date stored for an item whose `<pubDate>` parsed to `parsed`: that
/// instant, or `now` when there was no date.
pub open spec fn spec_date_or_now(parsed: Option<(i64, u32)>, now: Timestamp) -> Timestamp {
    match parsed {
        Some((secs, nanos)) => Timestamp { secs, nanos },
        None => now,
    }
}

/// The date stored for an item whose `<pubDate>` parsed to `parsed` (see
/// `spec_date_or_now`).
pub fn date_or_now(parsed: Option<(i64, u32)>, now: Timestamp) -> (t: Timestamp)
    ensures
        t == spec_date_or_now(parsed, now),
        parsed matches Some((secs, nanos)) ==> t == (Timestamp { secs, nanos }),
        parsed is None ==> t == now,
{
    match parsed {
        Some((secs, nanos)) => Timestamp { secs, nanos },
        None => now,
    }
}

/// An entry's parsed date is stored as it is, whatever the instant and
/// whatever the poll time; only an entry without a date, or with one that
/// does not parse, takes the poll time.
pub proof fn lemma_date_kept(secs: i64, nanos: u32, now: Timestamp, text: String)
    ensures
        spec_date_or_now(Some((secs, nanos)), now) == (Timestamp { secs, nanos }),
        spec_date_or_now(None, now) == now,
        spec_pub_date(None, now) == now,
        rfc2822_utc(text@) == Some((secs, nanos)) ==> spec_pub_date(Some(text), now) == (
        Timestamp { secs, nanos }),
        rfc2822_utc(text@) is None ==> spec_pub_date(Some(text), now) == now,
{
}

/// The publication date stored for an item (see `spec_pub_date`).
pub fn pub_date(text: &Option<String>, now: Timestamp) -> (t: Timestamp)
    ensures
        t == spec_pub_date(*text, now),
{
    match text {
        Some(t) => date_or_now(parse_rfc2822(t.as_str()), now),
        None => now,
    }
}

/// The item to insert into channel `channel_id` for a feed entry. `None`
/// when the entry lacks a title, a link or a description (it is skipped).
/// `now` is the time of the poll.
pub fn new_item<'a>(channel_id: i32, item: &'a FeedItem, now: Timestamp) -> (r: Option<NewItem<'a>>)
    ensures
        r is Some <==> (item.title is Some && item.link is Some && item.description is Some),
        r matches Some(n) ==> {
            &&& n.channel_id == channel_id
            &&& same_text(Some(n.title), item.title)
            &&& same_text(Some(n.link), item.link)
            &&& same_text(Some(n.description), item.description)
            &&& same_text(n.guid, item.guid)
            &&& n.pub_date == spec_pub_date(item.pub_date, now)
            &&& item.pub_date is None ==> n.pub_date == now
            &&& item.pub_date matches Some(text) ==> match rfc2822_utc(text@) {
                Some((secs, nanos)) => n.pub_date == (Timestamp { secs, nanos }),
                None => n.pub_date == now,
            }
        },
{
    let title = match &item.title {
        Some(t) => t.as_str(),
        None => {
            return None;
        },
    };
    let link = match &item.link {
        Some(l) => l.as_str(),
        None => {
            return None;
        },
    };
    let description = match &item.description {
        Some(d) => d.as_str(),
        None => {
            return None;
        },
    };
    Some(
        NewItem {
            channel_id,
            title,
            link,
            description,
            guid: as_text(&item.guid),
            pub_date: pub_date(&item.pub_date, now),
        },
    )
}

/// The running count of the items that a poll stored, once one more entry
/// went through insert-if-new: one more when that stored it. The count must
/// have room for one more.
pub fn count_inserted(count: i32, inserted: &Option<Item>) -> (c: i32)
    requires
        inserted is Some ==> count < i32::MAX,
    ensures
        c == (if inserted is Some {
            count + 1
        } else {
            count as int
        }),
{
    if inserted.is_some() {
        count + 1
    } else {
        count
    }
}

/// The user that a newly added channel is subscribed for (the same user the
/// server serves every request for).
pub fn owner() -> (u: NewUser<'static>)
    ensures
        u.name@ == "yuri"@,
{
    NewUser { name: "yuri" }
}

/// The subscription of `user` to `channel`.
pub fn subscription(user: &User, channel: &Channel) -> (s: NewSubscription)
    ensures
        s == (NewSubscription { user_id: user.id, channel_id: channel.id }),
{
    NewSubscription { user_id: user.id, channel_id: channel.id }
}

} // verus!
