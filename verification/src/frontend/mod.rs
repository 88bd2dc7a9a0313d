//! The browser client: the records it receives from the server, the
//! requests it makes (`feeder`) and its page state machine (`app`).

use vstd::prelude::*;

pub mod app;
pub mod feeder;

verus! {

/// Where the server listens.
pub const BASE_URL: &'static str = "http://localhost:8888";

/// A channel as the server sends it.
#[derive(Clone, Debug, PartialEq)]
pub struct Channel {
    pub id: i32,
    pub title: String,
    pub link: String,
    pub description: String,
    pub source: String,
    pub language: Option<String>,
    pub copyright: Option<String>,
    pub pub_date: Option<String>,
    pub image: Option<String>,
    pub ttl: Option<i32>,
}

/// A category of a channel.
#[derive(Clone, Debug, PartialEq)]
pub struct Category {
    pub id: i32,
    pub name: String,
    pub domain: Option<String>,
    pub channel_id: i32,
}

/// An item as the server sends it.
#[derive(Clone, Debug, PartialEq)]
pub struct Item {
    pub id: i32,
    pub channel_id: i32,
    pub title: Option<String>,
    pub link: Option<String>,
    pub description: Option<String>,
    pub author: Option<String>,
    pub guid: Option<String>,
    pub pub_date: Option<String>,
}

} // verus!
