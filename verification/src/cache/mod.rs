//! Cache layer: the keys under which content is cached, how long it stays, and the
//! cache-through decisions.
//!
//! Cache-through: check the cache first; on a miss, fetch from Sanity, store the
//! result with its time-to-live, and render it. The reads and writes themselves go
//! to Redis outside this library, which feeds each outcome back in as an event.
use vstd::prelude::*;

use crate::sanity::models::Post;

pub mod keys;

verus! {

/// Seconds that post listings (home page, tag pages, blog listing) stay cached.
pub const LISTING_TTL_SECONDS: u64 = 300;

/// Seconds that a single post stays cached.
pub const POST_TTL_SECONDS: u64 = 600;

/// What came back from the last outside step of a cached post listing.
pub enum CacheEvent {
    /// The cache was read: the cached listing, or `None` on a miss.
    Read(Option<Vec<Post>>),
    /// Sanity was asked for the listing.
    Fetched(Result<Vec<Post>, String>),
}

/// What a cached post listing does next.
pub enum CacheAction {
    /// Render these posts; nothing else to do.
    Render(Vec<Post>),
    /// Ask Sanity for the listing.
    Fetch,
    /// Store these posts in the cache (for `LISTING_TTL_SECONDS`) and render them.
    StoreAndRender(Vec<Post>),
}

/// The cache-through decision, as a relation between an event and the action taken:
/// a hit renders, a miss fetches, and whatever was fetched is stored and rendered; a
/// failed fetch counts as an empty listing.
pub open spec fn cache_step(event: CacheEvent, a: CacheAction) -> bool {
    match event {
        CacheEvent::Read(Some(p)) => a == CacheAction::Render(p),
        CacheEvent::Read(None) => a == CacheAction::Fetch,
        CacheEvent::Fetched(Ok(p)) => a == CacheAction::StoreAndRender(p),
        CacheEvent::Fetched(Err(_)) => a matches CacheAction::StoreAndRender(p) && p@.len() == 0,
    }
}

/// Decides the next step of a cached post listing.
pub fn cache_through_step(event: CacheEvent) -> (a: CacheAction)
    ensures
        match event {
            CacheEvent::Read(Some(p)) => a == CacheAction::Render(p),
            CacheEvent::Read(None) => a == CacheAction::Fetch,
            CacheEvent::Fetched(Ok(p)) => a == CacheAction::StoreAndRender(p),
            CacheEvent::Fetched(Err(_)) => a matches CacheAction::StoreAndRender(p) && p@.len() == 0,
        },
        cache_step(event, a),
{
    match event {
        CacheEvent::Read(Some(p)) => CacheAction::Render(p),
        CacheEvent::Read(None) => CacheAction::Fetch,
        CacheEvent::Fetched(Ok(p)) => CacheAction::StoreAndRender(p),
        CacheEvent::Fetched(Err(_)) => CacheAction::StoreAndRender(Vec::new()),
    }
}

/// A cached listing is fetched at most once per request: only a cache miss leads to a
/// fetch, and every fetch outcome is stored and rendered rather than fetched again.
pub proof fn lemma_fetch_at_most_once(
    cached: Option<Vec<Post>>,
    fetched: Result<Vec<Post>, String>,
    a1: CacheAction,
    a2: CacheAction,
)
    requires
        cache_step(CacheEvent::Read(cached), a1),
        cache_step(CacheEvent::Fetched(fetched), a2),
    ensures
        a1 is Fetch <==> cached is None,
        a2 is StoreAndRender,
        fetched matches Ok(p) ==> a2 == CacheAction::StoreAndRender(p),
{
}

} // verus!
