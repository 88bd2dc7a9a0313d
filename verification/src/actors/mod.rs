//! The requests that the server's handlers send to its database worker.

pub mod msg;
