//! Feeder: a small RSS reader. This crate holds its verified core: the data
//! model, the decisions behind every database query, the server's replies,
//! the construction of channels and items from parsed feeds, and the
//! browser client's state machine and page layout.

pub mod text;
pub mod models;
pub mod queries;
pub mod feed;
pub mod frontend;
pub mod actors;
pub mod graphql;
pub mod server;
