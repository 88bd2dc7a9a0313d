//! The messages of the database worker.

use vstd::prelude::*;
use crate::models::{NewReadItem, NewUser};
use crate::queries::channels::{self, ChannelQuery};
use crate::queries::items::{self, ItemQuery};
use crate::queries::read_items::{self, ReadAll};

verus! {

/// Get (or create) the user with this name.
#[derive(Clone, Debug, PartialEq)]
pub struct GetUser {
    pub name: String,
}

/// The channels of a user.
#[derive(Clone, Copy, Debug, PartialEq, Eq)]
pub struct GetChannels {
    pub user_id: i32,
}

/// The items of a user. The range fields come from the request's query
/// string; the user is the requester.
#[derive(Clone, Copy, Debug, PartialEq, Eq)]
pub struct GetItems {
    pub user_id: i32,
    pub from_id: i32,
    pub to_id: i32,
    pub max_items: i32,
}

/// Mark an item read for a user.
#[derive(Clone, Copy, Debug, PartialEq, Eq)]
pub struct ReadItem {
    pub item_id: i32,
    pub user_id: i32,
}

/// Mark every unread item read for a user.
#[derive(Clone, Copy, Debug, PartialEq, Eq)]
pub struct ReadAllItems {
    pub user_id: i32,
}

impl GetUser {
    /// The user the worker gets or creates: this name.
    pub fn new_user(&self) -> (u: NewUser<'_>)
        ensures
            u.name@ == self.name@,
    {
        NewUser { name: self.name.as_str() }
    }
}

impl GetChannels {
    /// The query the worker runs: the user's channels.
    pub fn query(&self) -> (q: ChannelQuery<'static>)
        ensures
            q == ChannelQuery::SubscribedBy(self.user_id),
    {
        channels::get_all_for(self.user_id)
    }
}

impl GetItems {
    /// The query the worker runs: the user's items (the range fields are not
    /// used).
    pub fn query(&self) -> (q: ItemQuery<'static>)
        ensures
            q == ItemQuery::SubscribedBy(self.user_id),
    {
        items::get_all_for(self.user_id)
    }
}

impl ReadItem {
    /// The read mark the worker gets or creates.
    pub fn mark(&self) -> (m: NewReadItem)
        ensures
            m == (NewReadItem { user_id: self.user_id, item_id: self.item_id }),
    {
        read_items::read(self.user_id, self.item_id)
    }
}

impl ReadAllItems {
    /// The marking of every unread item that the worker runs.
    pub fn start(&self) -> (r: ReadAll)
        ensures
            r.user_id == self.user_id,
            r.unread@ == Seq::<i32>::empty(),
            r.next == 0,
    {
        read_items::read_all(self.user_id)
    }
}

} // verus!
