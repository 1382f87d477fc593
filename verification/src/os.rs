//! Platform support: packet batching and, for Windows, access control lists.

pub mod packet_buffer;
pub mod windows;
