//! Debug archives of the client.

pub mod http;
