//! Blogs page — full post listing with search and tag filters.
use vstd::prelude::*;
use vstd::string::*;

use crate::sanity::models::{Post, TagRef};
use crate::text::{contains, contains_seq, occurs_at, lowercase, to_lowercase, str_eq};

verus! {

/// Query parameters of the blog listing.
pub struct BlogsParams {
    pub page: Option<u32>,
    pub q: Option<String>,
    pub tag: Option<String>,
}

/// How many posts the blog listing fetches.
pub const BLOGS_PER_PAGE: u32 = 100;

impl BlogsParams {
    /// The requested page, the first when none was given.
    pub fn page_number(&self) -> (p: u32)
        ensures
            p == (match self.page {
                Some(p) => p,
                None => 1,
            }),
    {
        match self.page {
            Some(p) => p,
            None => 1,
        }
    }

    /// The search text, empty when none was given.
    pub fn query_text(&self) -> (r: String)
        ensures
            r@ == (match self.q {
                Some(q) => q@,
                None => Seq::<char>::empty(),
            }),
    {
        match &self.q {
            Some(q) => q.clone(),
            None => String::new(),
        }
    }
}

/// The post carries a tag whose slug is `tag`.
pub open spec fn has_tag(post: Post, tag: Seq<char>) -> bool {
    match post.tags {
        Some(ts) => exists|i: int| 0 <= i < ts@.len() && (#[trigger] ts@[i]).slug.current@ == tag,
        None => false,
    }
}

/// The post's title contains the search text, ignoring case; every post matches an
/// empty search.
pub open spec fn matches_query(post: Post, query: Seq<char>) -> bool {
    query.len() == 0 || contains_seq(lowercase(post.title@), lowercase(query))
}

/// The post passes both filters of the listing.
pub open spec fn post_kept(post: Post, query: Seq<char>, tag: Option<Seq<char>>) -> bool {
    matches_query(post, query) && (tag matches Some(t) ==> has_tag(post, t))
}

/// The posts that pass both filters, in their original order.
pub open spec fn filter_spec(posts: Seq<Post>, query: Seq<char>, tag: Option<Seq<char>>) -> Seq<Post>
    decreases posts.len(),
{
    if posts.len() == 0 {
        seq![]
    } else if post_kept(posts[0], query, tag) {
        seq![posts[0]] + filter_spec(posts.drop_first(), query, tag)
    } else {
        filter_spec(posts.drop_first(), query, tag)
    }
}

/// The characters of an optional string.
pub open spec fn opt_view(s: Option<String>) -> Option<Seq<char>> {
    match s {
        Some(v) => Some(v@),
        None => None,
    }
}

/// Whether one of the tags has the slug `tag`.
fn any_tag_with_slug(tags: &Vec<TagRef>, tag: &str) -> (r: bool)
    ensures
        r == exists|i: int| 0 <= i < tags@.len() && (#[trigger] tags@[i]).slug.current@ == tag@,
{
    let mut i: usize = 0;
    while i < tags.len()
        invariant
            i <= tags@.len(),
            forall|j: int| 0 <= j < i ==> (#[trigger] tags@[j]).slug.current@ != tag@,
        decreases tags.len() - i,
    {
        if str_eq(tags[i].slug.current.as_str(), tag) {
            return true;
        }
        i = i + 1;
    }
    false
}

/// Whether a post passes the listing's filters, given its title and the search text
/// already lowercased: the lowered title must contain the lowered search text when
/// `search` is set, and the post must carry the active tag when there is one.
pub fn keep_post_lowered(
    post: &Post,
    lowered_title: &str,
    lowered_query: &str,
    search: bool,
    active_tag: &Option<String>,
) -> (keep: bool)
    ensures
        keep == ((!search || contains_seq(lowered_title@, lowered_query@)) && (opt_view(*active_tag) matches Some(t) ==> has_tag(*post, t))),
        keep == ((!search || contains_seq(lowered_title@, lowered_query@)) && (match *active_tag { Some(t) => match post.tags { Some(ts) => exists|i: int| 0 <= i < ts@.len() && #[trigger] ts@[i].slug.current@ == t@, None => false }, None => true })),
{
    let title_ok = if search {
        contains(lowered_title, lowered_query)
    } else {
        true
    };
    let tag_ok = match active_tag {
        Some(t) => match &post.tags {
            Some(tags) => any_tag_with_slug(tags, t.as_str()),
            None => false,
        },
        None => true,
    };
    title_ok && tag_ok
}

/// The post's title, lowercased, contains the lowercased search text (any title
/// does when the search text is empty).
pub open spec fn title_contains_query(post: Post, query: Seq<char>) -> bool {
    query.len() == 0 || exists|i: int| #[trigger]
        occurs_at(lowercase(post.title@), lowercase(query), i)
}

/// When a tag is active, one of the post's tags — at any position — has that slug.
pub open spec fn carries_active_tag(post: Post, active_tag: Option<String>) -> bool {
    match active_tag {
        Some(t) => match post.tags {
            Some(ts) => exists|i: int| 0 <= i < ts@.len() && #[trigger] ts@[i].slug.current@ == t@,
            None => false,
        },
        None => true,
    }
}

/// The listing keeps exactly the posts whose lowercased title contains the lowercased
/// search text and that carry the active tag: each kept post comes from the input and
/// passes both, and each input post that passes both is kept.
pub proof fn lemma_filter_membership(posts: Seq<Post>, query: Seq<char>, active_tag: Option<String>)
    ensures
        forall|p: Post| #[trigger] filter_spec(posts, query, opt_view(active_tag)).contains(p) ==> posts.contains(p)
            && (query.len() == 0 || exists|i: int| #[trigger] occurs_at(lowercase(p.title@), lowercase(query), i)) && (match active_tag { Some(t) => match p.tags { Some(ts) => exists|i: int| 0 <= i < ts@.len() && #[trigger] ts@[i].slug.current@ == t@, None => false }, None => true }),
        forall|p: Post|
            posts.contains(p) && (query.len() == 0 || exists|i: int| #[trigger] occurs_at(lowercase(p.title@), lowercase(query), i)) && (match active_tag { Some(t) => match p.tags { Some(ts) => exists|i: int| 0 <= i < ts@.len() && #[trigger] ts@[i].slug.current@ == t@, None => false }, None => true })
                ==> #[trigger] filter_spec(posts, query, opt_view(active_tag)).contains(p),
    decreases posts.len(),
{
    let tag = opt_view(active_tag);
    if posts.len() > 0 {
        lemma_filter_membership(posts.drop_first(), query, active_tag);
        let rest = filter_spec(posts.drop_first(), query, tag);
        let f = filter_spec(posts, query, tag);
        assert(posts =~= seq![posts[0]] + posts.drop_first());
        assert forall|p: Post| #[trigger] f.contains(p) implies posts.contains(p) && title_contains_query(p, query)
            && carries_active_tag(p, active_tag) by {
            let k = choose|k: int| 0 <= k < f.len() && f[k] == p;
            if post_kept(posts[0], query, tag) && k == 0 {
                assert(posts[0] == p);
                assert(posts.contains(p));
            } else {
                if post_kept(posts[0], query, tag) {
                    assert(rest[k - 1] == p);
                    assert(rest.contains(p));
                } else {
                    assert(rest[k] == p);
                    assert(rest.contains(p));
                }
                let m = choose|m: int| 0 <= m < posts.drop_first().len() && posts.drop_first()[m] == p;
                assert(posts[m + 1] == p);
            }
        }
        assert forall|p: Post|
            posts.contains(p) && title_contains_query(p, query) && carries_active_tag(p, active_tag)
            implies #[trigger] f.contains(p) by {
            let m = choose|m: int| 0 <= m < posts.len() && posts[m] == p;
            assert(post_kept(p, query, tag));
            if m == 0 {
                assert(f[0] == p);
            } else {
                assert(posts.drop_first()[m - 1] == p);
                assert(posts.drop_first().contains(p));
                assert(rest.contains(p));
                let k = choose|k: int| 0 <= k < rest.len() && rest[k] == p;
                if post_kept(posts[0], query, tag) {
                    assert(f[k + 1] == p);
                } else {
                    assert(f[k] == p);
                }
            }
        }
    }
}

/// Keeps the posts whose title contains `query` (ignoring case; skipped when `query`
/// is empty) and, when a tag is active, that carry it.
pub fn filter_posts(all_posts: Vec<Post>, query: &str, active_tag: &Option<String>) -> (r: Vec<Post>)
    ensures
        r@ == filter_spec(all_posts@, query@, opt_view(*active_tag)),
        forall|p: Post| #[trigger] r@.contains(p) ==> all_posts@.contains(p) && (query@.len() == 0 || exists|i: int| #[trigger] occurs_at(lowercase(p.title@), lowercase(query@), i))
            && (match *active_tag { Some(t) => match p.tags { Some(ts) => exists|i: int| 0 <= i < ts@.len() && #[trigger] ts@[i].slug.current@ == t@, None => false }, None => true }),
        forall|p: Post|
            all_posts@.contains(p) && (query@.len() == 0 || exists|i: int| #[trigger] occurs_at(lowercase(p.title@), lowercase(query@), i)) && (match *active_tag { Some(t) => match p.tags { Some(ts) => exists|i: int| 0 <= i < ts@.len() && #[trigger] ts@[i].slug.current@ == t@, None => false }, None => true })
                ==> #[trigger] r@.contains(p),
{
    proof {
        lemma_filter_membership(all_posts@, query@, *active_tag);
    }
    let search = !query.is_empty();
    let q = to_lowercase(query);
    let ghost tag = opt_view(*active_tag);
    let ghost all = all_posts@;
    let mut rest = all_posts;
    let mut kept: Vec<Post> = Vec::new();
    while rest.len() > 0
        invariant
            search == (query@.len() != 0),
            q@ == lowercase(query@),
            tag == opt_view(*active_tag),
            filter_spec(all, query@, tag) == kept@ + filter_spec(rest@, query@, tag),
        decreases rest.len(),
    {
        let ghost before = rest@;
        let p = rest.remove(0);
        assert(rest@ =~= before.drop_first());
        let title = if search {
            to_lowercase(p.title.as_str())
        } else {
            String::new()
        };
        let keep = keep_post_lowered(&p, title.as_str(), q.as_str(), search, active_tag);
        assert(keep == post_kept(p, query@, tag));
        if keep {
            let ghost k = kept@;
            kept.push(p);
            assert(k + (seq![p] + filter_spec(rest@, query@, tag)) =~= kept@ + filter_spec(rest@, query@, tag));
        }
    }
    assert(kept@ + filter_spec(rest@, query@, tag) =~= kept@);
    kept
}

/// Every post the listing keeps passes both filters.
pub proof fn lemma_filter_sound(posts: Seq<Post>, query: Seq<char>, tag: Option<Seq<char>>)
    ensures
        forall|i: int|
            0 <= i < filter_spec(posts, query, tag).len() ==> post_kept(
                #[trigger] filter_spec(posts, query, tag)[i],
                query,
                tag,
            ),
    decreases posts.len(),
{
    if posts.len() > 0 {
        lemma_filter_sound(posts.drop_first(), query, tag);
        let rest = filter_spec(posts.drop_first(), query, tag);
        if post_kept(posts[0], query, tag) {
            assert forall|i: int| 0 <= i < filter_spec(posts, query, tag).len() implies post_kept(
                #[trigger] filter_spec(posts, query, tag)[i],
                query,
                tag,
            ) by {
                if i > 0 {
                    assert(filter_spec(posts, query, tag)[i] == rest[i - 1]);
                }
            }
        }
    }
}

/// Filtering the filtered listing again changes nothing.
pub proof fn lemma_filter_idempotent(posts: Seq<Post>, query: Seq<char>, tag: Option<Seq<char>>)
    ensures
        filter_spec(filter_spec(posts, query, tag), query, tag) == filter_spec(posts, query, tag),
    decreases posts.len(),
{
    if posts.len() > 0 {
        lemma_filter_idempotent(posts.drop_first(), query, tag);
        if post_kept(posts[0], query, tag) {
            let f = filter_spec(posts, query, tag);
            assert(f[0] == posts[0]);
            assert(f.drop_first() =~= filter_spec(posts.drop_first(), query, tag));
        }
    }
}

} // verus!
