//! The outcome of an HTTP request that a debug archive makes.

use vstd::prelude::*;

verus! {

/// What an HTTP request answered, as far as it got.
#[derive(Debug, Clone)]
pub struct HttpTask {
    pub body: Option<String>,
    pub error: Option<String>,
    pub header_content_type: Option<String>,
    pub header_date: Option<String>,
    pub http_version: Option<String>,
    pub status_code: Option<u16>,
}

impl HttpTask {
    /// A request that has not got anywhere yet.
    pub fn new() -> (r: Self)
        ensures
            r.body is None,
            r.error is None,
            r.header_content_type is None,
            r.header_date is None,
            r.http_version is None,
            r.status_code is None,
    {
        HttpTask {
            body: None,
            error: None,
            header_content_type: None,
            header_date: None,
            http_version: None,
            status_code: None,
        }
    }
}

} // verus!
