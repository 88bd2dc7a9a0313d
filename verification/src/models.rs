//! The rows of the feeder database and the values inserted into it.
//!
//! Tables: `channels`, `items` (each belongs to a channel), `users`,
//! `subscriptions` (a user follows a channel) and `read_items` (a user has
//! read an item). Every table has an integer `id` that the database assigns.

use vstd::prelude::*;

verus! {

/// A point in time, as the database's `timestamp` column holds it: seconds
/// since 1970-01-01T00:00:00 (UTC, no zone) and the nanoseconds past that
/// second.
#[derive(Clone, Copy, Debug, PartialEq, Eq)]
pub struct Timestamp {
    pub secs: i64,
    pub nanos: u32,
}

/// A row of `channels`: a feed that the server polls.
#[derive(Clone, Debug, PartialEq)]
pub struct Channel {
    pub id: i32,
    pub title: String,
    pub link: String,
    pub description: String,
    /// The URL the feed is read from.
    pub source: String,
    pub image: Option<String>,
    pub ttl: Option<i32>,
}

/// The values of a channel to insert.
#[derive(Clone, Copy, Debug, PartialEq)]
pub struct NewChannel<'a> {
    pub title: &'a str,
    pub link: &'a str,
    pub description: &'a str,
    pub source: &'a str,
    pub image: Option<&'a str>,
    pub ttl: Option<i32>,
}

/// A row of `items`: one entry of a channel.
#[derive(Clone, Debug, PartialEq)]
pub struct Item {
    pub id: i32,
    pub channel_id: i32,
    pub title: String,
    pub link: String,
    pub description: String,
    pub pub_date: Timestamp,
    pub guid: Option<String>,
}

/// The values of an item to insert.
#[derive(Clone, Copy, Debug, PartialEq)]
pub struct NewItem<'a> {
    pub channel_id: i32,
    pub title: &'a str,
    pub link: &'a str,
    pub description: &'a str,
    pub pub_date: Timestamp,
    pub guid: Option<&'a str>,
}

/// An item as one user sees it: the item and whether it is marked read.
#[derive(Clone, Debug, PartialEq)]
pub struct UserItem {
    pub item: Item,
    pub read: bool,
}

/// A row of `users`.
#[derive(Clone, Debug, PartialEq)]
pub struct User {
    pub id: i32,
    pub name: String,
}

/// The values of a user to insert.
#[derive(Clone, Copy, Debug, PartialEq)]
pub struct NewUser<'a> {
    pub name: &'a str,
}

/// A row of `subscriptions`: the user follows the channel.
#[derive(Clone, Copy, Debug, PartialEq, Eq)]
pub struct Subscription {
    pub id: i32,
    pub user_id: i32,
    pub channel_id: i32,
}

/// The values of a subscription to insert.
#[derive(Clone, Copy, Debug, PartialEq, Eq)]
pub struct NewSubscription {
    pub user_id: i32,
    pub channel_id: i32,
}

/// A row of `read_items`: the user has read the item.
#[derive(Clone, Copy, Debug, PartialEq, Eq)]
pub struct ReadItem {
    pub id: i32,
    pub user_id: i32,
    pub item_id: i32,
}

/// The values of a read mark to insert.
#[derive(Clone, Copy, Debug, PartialEq, Eq)]
pub struct NewReadItem {
    pub user_id: i32,
    pub item_id: i32,
}

impl UserItem {
    /// The item's id (the `id` field of the GraphQL `UserItem` object).
    pub fn id(&self) -> (r: i32)
        ensures
            r == self.item.id,
    {
        self.item.id
    }

    /// The item's title (the `title` field of the GraphQL `UserItem` object).
    pub fn title(&self) -> (r: &str)
        ensures
            r@ == self.item.title@,
    {
        self.item.title.as_str()
    }

    /// Whether the item is read (the `read` field of the GraphQL `UserItem`
    /// object).
    pub fn is_read(&self) -> (r: bool)
        ensures
            r == self.read,
    {
        self.read
    }
}

} // verus!
