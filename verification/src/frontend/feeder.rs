//! The client's requests to the server.

use vstd::prelude::*;
use crate::frontend::BASE_URL;
use crate::text::{int_decimal, push_i32_decimal};

verus! {

/// The HTTP method of a request.
#[derive(Clone, Copy, Debug, PartialEq, Eq)]
pub enum Method {
    Get,
}

/// What a request fetches, and so how its JSON answer is read: a list of
/// channels or a list of items.
#[derive(Clone, Copy, Debug, PartialEq, Eq)]
pub enum Resource {
    Channels,
    Items,
}

/// A request to the server, with an empty body.
#[derive(Debug, PartialEq)]
pub struct Request {
    pub method: Method,
    pub url: String,
    pub resource: Resource,
}

impl Request {
    /// A copy of the request.
    pub fn copy(&self) -> (r: Request)
        ensures
            r == *self,
    {
        Request { method: self.method, url: self.url.clone(), resource: self.resource }
    }
}

/// The request for the list of channels: `GET {BASE_URL}/channels`.
pub open spec fn is_channels_request(r: Request) -> bool {
    &&& r.method == Method::Get
    &&& r.resource == Resource::Channels
    &&& r.url@ == BASE_URL@ + "/channels"@
}

/// The request for the items of channel `id`: `GET {BASE_URL}/items/{id}`.
pub open spec fn is_items_request(r: Request, id: i32) -> bool {
    &&& r.method == Method::Get
    &&& r.resource == Resource::Items
    &&& r.url@ == BASE_URL@ + "/items/"@ + int_decimal(id as int)
}

/// Builds the client's requests to the server.
#[derive(Debug, PartialEq)]
pub struct FeederService {}

impl FeederService {
    /// A new request builder.
    pub fn new() -> (s: Self)
        ensures
            s == (FeederService {  }),
    {
        FeederService {  }
    }

    /// The request for the list of channels.
    pub fn channels(&mut self) -> (r: Request)
        ensures
            is_channels_request(r),
            *final(self) == *old(self),
    {
        let mut url = BASE_URL.to_owned();
        url.append("/channels");
        Request { method: Method::Get, url, resource: Resource::Channels }
    }

    /// The request for the items of channel `id`.
    pub fn items(&mut self, id: i32) -> (r: Request)
        ensures
            is_items_request(r, id),
            *final(self) == *old(self),
    {
        let mut url = BASE_URL.to_owned();
        url.append("/items/");
        push_i32_decimal(id, &mut url);
        Request { method: Method::Get, url, resource: Resource::Items }
    }
}

} // verus!
