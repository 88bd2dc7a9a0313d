//! The GraphQL schema's roots.

use vstd::prelude::*;
use crate::models::User;
use crate::queries::items::{ItemQuery, get_all_for};

verus! {

/// The query root.
#[derive(Clone, Copy, Debug, PartialEq, Eq)]
pub struct Query;

/// The mutation root; it has no fields.
#[derive(Clone, Copy, Debug, PartialEq, Eq)]
pub struct Mutation;

impl Query {
    /// The `items` field: the items of the requesting user's channels, each
    /// with its read flag (the answer goes to
    /// `crate::queries::items::user_items`).
    pub fn items(&self, user: &User) -> (q: ItemQuery<'static>)
        ensures
            q == ItemQuery::SubscribedBy(user.id),
    {
        get_all_for(user.id)
    }
}

} // verus!
