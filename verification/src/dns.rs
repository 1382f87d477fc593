//! Name resolution for API requests: from the cache of earlier resolutions when it has the name,
//! else by waiting for a fresh resolution.

use std::sync::Arc;
use vstd::prelude::*;

verus! {

/// Resolves names for API requests, with the client state `S` that holds the cache.
pub struct DnsResolver<S> {
    pub client_state: S,
}

impl<S> DnsResolver<S> {
    /// A resolver over `client_state`, to share between requests.
    pub fn new(client_state: S) -> (r: Arc<Self>)
        ensures
            r.client_state == client_state,
    {
        Arc::new(DnsResolver { client_state })
    }
}

/// Where the addresses of a resolution come from.
pub enum Resolution<A> {
    /// The cached addresses.
    Cached(Vec<A>),
    /// The cache has none: wait for the resolution that is under way.
    AwaitResolver,
}

/// The addresses to answer with: the cached ones if there are any; a fresh resolution runs either
/// way, to keep the cache current.
pub fn resolution_from_cache<A>(cached: Vec<A>) -> (r: Resolution<A>)
    ensures
        cached@.len() > 0 <==> r is Cached,
        r matches Resolution::Cached(addrs) ==> addrs@ == cached@,
{
    if cached.len() > 0 {
        Resolution::Cached(cached)
    } else {
        Resolution::AwaitResolver
    }
}

} // verus!
