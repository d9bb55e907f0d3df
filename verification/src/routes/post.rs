//! Single post page.
use vstd::prelude::*;
use vstd::string::*;

use crate::portable_text::{render, render_spec, blocks_ok};
use crate::sanity::models::Post;

verus! {

/// The reactions shown under every post, in display order.
pub fn reaction_emojis() -> (names: Vec<&'static str>)
    ensures
        names@.len() == 5,
        names@[0]@ == "fire"@,
        names@[1]@ == "heart"@,
        names@[2]@ == "rocket"@,
        names@[3]@ == "bulb"@,
        names@[4]@ == "eyes"@,
{
    vec!["fire", "heart", "rocket", "bulb", "eyes"]
}

/// A reaction counter that was never set counts as zero.
pub fn reaction_count(stored: Option<i64>) -> (count: i64)
    ensures
        count == (match stored {
            Some(n) => n,
            None => 0,
        }),
{
    match stored {
        Some(n) => n,
        None => 0,
    }
}

/// The blocks of a post's body, none when it has no body.
pub open spec fn body_blocks(post: Post) -> Seq<crate::sanity::models::PtBlock> {
    match post.body {
        Some(b) => b@,
        None => seq![],
    }
}

/// The post's body as HTML; empty when the post has no body.
pub fn post_body_html(post: &Post, project_id: &str, dataset: &str) -> (html: String)
    requires
        blocks_ok(body_blocks(*post)),
    ensures
        html@ == render_spec(body_blocks(*post), project_id@, dataset@),
        post.body matches Some(blocks) ==> html@ == render_spec(blocks@, project_id@, dataset@),
        post.body is None ==> html@.len() == 0,
{
    match &post.body {
        Some(blocks) => render(blocks.as_slice(), project_id, dataset),
        None => String::new(),
    }
}

/// The page shown when no post has the requested slug.
pub fn not_found_html() -> (html: &'static str)
    ensures
        html@ == "<h1>404 — Post not found</h1>"@,
{
    "<h1>404 — Post not found</h1>"
}

/// The page shown when the post could not be fetched, with the error's text.
pub fn fetch_error_html(error: &str) -> (html: String)
    ensures
        html@ == "<h1>500 — Error fetching post</h1><pre>"@ + error@ + "</pre>"@,
{
    let mut html = String::new();
    html.append("<h1>500 — Error fetching post</h1><pre>");
    html.append(error);
    html.append("</pre>");
    html
}

/// What the post page shows after asking Sanity for a post that was not cached.
pub enum PostLookup {
    /// The post exists: cache it and render it.
    Found(Post),
    /// No post has the slug: answer "not found" with this page.
    Missing(String),
    /// The fetch failed: answer with this error page.
    Failed(String),
}

/// Decides the post page's answer from the outcome of fetching the post.
pub fn after_fetch(fetched: Result<Option<Post>, String>) -> (r: PostLookup)
    ensures
        match fetched {
            Ok(Some(p)) => r == PostLookup::Found(p),
            Ok(None) => r matches PostLookup::Missing(html) && html@ == "<h1>404 — Post not found</h1>"@,
            Err(e) => r matches PostLookup::Failed(html) && html@ == "<h1>500 — Error fetching post</h1><pre>"@
                + e@ + "</pre>"@,
        },
{
    match fetched {
        Ok(Some(p)) => PostLookup::Found(p),
        Ok(None) => PostLookup::Missing(String::from_str(not_found_html())),
        Err(e) => PostLookup::Failed(fetch_error_html(e.as_str())),
    }
}

} // verus!

verus! {

/// What came back from the last outside step of the post page.
pub enum PostCacheEvent {
    /// The cache was read: the cached post, or `None` on a miss.
    Read(Option<Post>),
    /// Sanity was asked for the post.
    Fetched(Result<Option<Post>, String>),
}

/// What the post page does next.
pub enum PostCacheAction {
    /// Render this post; nothing else to do.
    Render(Post),
    /// Ask Sanity for the post.
    Fetch,
    /// Store this post in the cache (for `POST_TTL_SECONDS`) and render it.
    StoreAndRender(Post),
    /// Answer "not found" with this page.
    NotFound(String),
    /// Answer "internal error" with this page.
    Failed(String),
}

/// Decides the post page's next step: a cached post renders, a miss fetches, a
/// fetched post is stored and rendered, and a missing post or a failed fetch is
/// answered with its page (nothing is cached then).
pub fn post_cache_step(event: PostCacheEvent) -> (a: PostCacheAction)
    ensures
        match event {
            PostCacheEvent::Read(Some(p)) => a == PostCacheAction::Render(p),
            PostCacheEvent::Read(None) => a == PostCacheAction::Fetch,
            PostCacheEvent::Fetched(Ok(Some(p))) => a == PostCacheAction::StoreAndRender(p),
            PostCacheEvent::Fetched(Ok(None)) => a matches PostCacheAction::NotFound(html) && html@
                == "<h1>404 — Post not found</h1>"@,
            PostCacheEvent::Fetched(Err(e)) => a matches PostCacheAction::Failed(html) && html@
                == "<h1>500 — Error fetching post</h1><pre>"@ + e@ + "</pre>"@,
        },
{
    match event {
        PostCacheEvent::Read(Some(p)) => PostCacheAction::Render(p),
        PostCacheEvent::Read(None) => PostCacheAction::Fetch,
        PostCacheEvent::Fetched(fetched) => match after_fetch(fetched) {
            PostLookup::Found(p) => PostCacheAction::StoreAndRender(p),
            PostLookup::Missing(html) => PostCacheAction::NotFound(html),
            PostLookup::Failed(html) => PostCacheAction::Failed(html),
        },
    }
}

} // verus!
