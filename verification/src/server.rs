//! The HTTP server's decisions: who the requester is, which request each
//! route sends to the database worker, and how each outcome is answered.

use vstd::prelude::*;
use crate::actors::msg::{GetChannels, GetItems, GetUser, ReadAllItems, ReadItem};
use crate::models::User;
use crate::queries::QueryResult;

verus! {

/// The user a request is made by.
#[derive(Clone, Debug, PartialEq)]
pub struct Identity {
    pub user: User,
}

/// An HTTP answer.
#[derive(Debug, PartialEq)]
pub enum Reply<T> {
    /// 200, with this value as a JSON body.
    Json(T),
    /// 200, with an empty body.
    Empty,
    /// 200, with this text as an `application/json` body.
    Body(String),
    /// 500, with an empty body.
    InternalServerError,
}

/// The name of the requester. The server does not read the
/// `X-Forwarded-User` header: every request is made by this user, who is
/// also the one that `add_channel` subscribes.
pub fn identity_name() -> (name: String)
    ensures
        name@ == "yuri"@,
{
    "yuri".to_owned()
}

/// The request that finds (or creates) the requester.
pub fn get_user(name: &str) -> (m: GetUser)
    ensures
        m.name@ == name@,
{
    GetUser { name: name.to_owned() }
}

/// The requester once the worker has answered: the user found, or the text
/// of the internal server error when the lookup failed.
pub fn identity(name: &str, found: QueryResult<User>) -> (r: Result<Identity, String>)
    ensures
        match found {
            Ok(user) => r == Ok::<Identity, String>(Identity { user }),
            Err(_) => r matches Err(text) && text@ == "Cannot find user "@ + name@,
        },
{
    match found {
        Ok(user) => Ok(Identity { user }),
        Err(_) => {
            let mut text = "Cannot find user ".to_owned();
            text.append(name);
            Err(text)
        },
    }
}

/// `GET /channels`: the requester's channels.
pub fn channels(identity: &Identity) -> (m: GetChannels)
    ensures
        m == (GetChannels { user_id: identity.user.id }),
{
    GetChannels { user_id: identity.user.id }
}

/// `GET /items`: the requester's items, whatever user the query string
/// named.
pub fn items(get_items: GetItems, identity: &Identity) -> (m: GetItems)
    ensures
        m == (GetItems { user_id: identity.user.id, ..get_items }),
{
    GetItems { user_id: identity.user.id, ..get_items }
}

/// `POST /read/{item_id}`: mark that item read for the requester.
pub fn read(item_id: i32, identity: &Identity) -> (m: ReadItem)
    ensures
        m == (ReadItem { item_id, user_id: identity.user.id }),
{
    ReadItem { item_id, user_id: identity.user.id }
}

/// `POST /read/all`: mark every unread item read for the requester.
pub fn read_all(identity: &Identity) -> (m: ReadAllItems)
    ensures
        m == (ReadAllItems { user_id: identity.user.id }),
{
    ReadAllItems { user_id: identity.user.id }
}

/// The answer to `GET /channels` and `GET /items`: the value as JSON, or 500
/// when the query failed.
pub fn json_reply<T>(r: QueryResult<T>) -> (reply: Reply<T>)
    ensures
        match r {
            Ok(v) => reply == Reply::Json(v),
            Err(_) => reply == Reply::<T>::InternalServerError,
        },
{
    match r {
        Ok(v) => Reply::Json(v),
        Err(_) => Reply::InternalServerError,
    }
}

/// The answer to `POST /read/...`: an empty 200, or 500 when marking failed.
pub fn empty_reply(r: QueryResult<()>) -> (reply: Reply<()>)
    ensures
        match r {
            Ok(_) => reply == Reply::<()>::Empty,
            Err(_) => reply == Reply::<()>::InternalServerError,
        },
{
    match r {
        Ok(_) => Reply::Empty,
        Err(_) => Reply::InternalServerError,
    }
}

/// The answer to `POST /graphql`: the executor's JSON text, or 500 when it
/// could not be produced.
pub fn graphql_reply<E>(r: Result<String, E>) -> (reply: Reply<String>)
    ensures
        match r {
            Ok(body) => reply == Reply::<String>::Body(body),
            Err(_) => reply == Reply::<String>::InternalServerError,
        },
{
    match r {
        Ok(body) => Reply::Body(body),
        Err(_) => Reply::InternalServerError,
    }
}

/// The GraphQL endpoint that the GraphiQL page queries.
pub fn graphiql_endpoint() -> (url: &'static str)
    ensures
        url@ == "http://127.0.0.1:8888/graphql"@,
{
    "http://127.0.0.1:8888/graphql"
}

} // verus!
