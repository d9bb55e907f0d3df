//! Cache key generators. Consistent naming enables targeted invalidation.
use vstd::prelude::*;
use vstd::string::*;

use crate::text::{decimal, u64_to_decimal, lemma_decimal_injective};

verus! {

/// The key of one page of the post listing.
pub open spec fn posts_page_key(page: nat) -> Seq<char> {
    "blog:posts:page:"@ + decimal(page)
}

/// The key of a single post.
pub open spec fn post_key(slug: Seq<char>) -> Seq<char> {
    "blog:post:"@ + slug
}

/// The key of the posts under a tag.
pub open spec fn tag_key(slug: Seq<char>) -> Seq<char> {
    "blog:tag:"@ + slug
}

/// The key of the total post count.
pub open spec fn post_count_key() -> Seq<char> {
    "blog:post_count"@
}

/// The key of the post count under a tag.
pub open spec fn post_count_tag_key(tag: Seq<char>) -> Seq<char> {
    "blog:post_count:tag:"@ + tag
}

/// The key of one emoji's reaction counter on a post.
pub open spec fn reaction_key(post_slug: Seq<char>, emoji: Seq<char>) -> Seq<char> {
    "blog:react:"@ + post_slug + ":"@ + emoji
}

/// `blog:posts:page:{page}`.
pub fn posts_page(page: u32) -> (k: String)
    ensures
        k@ == posts_page_key(page as nat),
{
    let mut k = String::new();
    k.append("blog:posts:page:");
    let n = u64_to_decimal(page as u64);
    k.append(n.as_str());
    k
}

/// `blog:post:{slug}`.
pub fn post(slug: &str) -> (k: String)
    ensures
        k@ == post_key(slug@),
{
    let mut k = String::new();
    k.append("blog:post:");
    k.append(slug);
    k
}

/// `blog:tag:{slug}`.
pub fn tag(slug: &str) -> (k: String)
    ensures
        k@ == tag_key(slug@),
{
    let mut k = String::new();
    k.append("blog:tag:");
    k.append(slug);
    k
}

/// `blog:post_count`.
pub fn post_count() -> (k: String)
    ensures
        k@ == post_count_key(),
{
    String::from_str("blog:post_count")
}

/// `blog:post_count:tag:{tag}`.
pub fn post_count_tag(tag: &str) -> (k: String)
    ensures
        k@ == post_count_tag_key(tag@),
{
    let mut k = String::new();
    k.append("blog:post_count:tag:");
    k.append(tag);
    k
}

/// `blog:react:{post_slug}:{emoji}`.
pub fn reaction(post_slug: &str, emoji: &str) -> (k: String)
    ensures
        k@ == reaction_key(post_slug@, emoji@),
{
    let mut k = String::new();
    k.append("blog:react:");
    k.append(post_slug);
    k.append(":");
    k.append(emoji);
    k
}

/// Two keys that share a prefix of the same length are equal only if their suffixes are.
proof fn lemma_same_prefix(p: Seq<char>, a: Seq<char>, b: Seq<char>)
    ensures
        p + a == p + b ==> a == b,
{
    if p + a == p + b {
        assert(a =~= (p + a).skip(p.len() as int));
        assert(b =~= (p + b).skip(p.len() as int));
    }
}

/// Each key family names each of its items by its own key: different pages, posts,
/// tags or reactions never share a key.
pub proof fn lemma_keys_injective(
    page1: nat,
    page2: nat,
    slug1: Seq<char>,
    slug2: Seq<char>,
    emoji1: Seq<char>,
    emoji2: Seq<char>,
)
    ensures
        posts_page_key(page1) == posts_page_key(page2) ==> page1 == page2,
        post_key(slug1) == post_key(slug2) ==> slug1 == slug2,
        tag_key(slug1) == tag_key(slug2) ==> slug1 == slug2,
        post_count_tag_key(slug1) == post_count_tag_key(slug2) ==> slug1 == slug2,
        reaction_key(slug1, emoji1) == reaction_key(slug1, emoji2) ==> emoji1 == emoji2,
        reaction_key(slug1, emoji1) == reaction_key(slug2, emoji1) ==> slug1 == slug2,
{
    lemma_same_prefix("blog:posts:page:"@, decimal(page1), decimal(page2));
    lemma_decimal_injective(page1, page2);
    lemma_same_prefix("blog:post:"@, slug1, slug2);
    lemma_same_prefix("blog:tag:"@, slug1, slug2);
    lemma_same_prefix("blog:post_count:tag:"@, slug1, slug2);
    lemma_same_prefix("blog:react:"@ + slug1 + ":"@, emoji1, emoji2);
    assert(reaction_key(slug1, emoji1) =~= ("blog:react:"@ + slug1 + ":"@) + emoji1);
    assert(reaction_key(slug1, emoji2) =~= ("blog:react:"@ + slug1 + ":"@) + emoji2);
    if reaction_key(slug1, emoji1) == reaction_key(slug2, emoji1) {
        reveal_strlit(":");
        let k = reaction_key(slug1, emoji1);
        let n = k.len() - emoji1.len() - 1;
        assert(k.take(n) =~= "blog:react:"@ + slug1);
        assert(reaction_key(slug2, emoji1).take(n) =~= "blog:react:"@ + slug2);
        lemma_same_prefix("blog:react:"@, slug1, slug2);
    }
}

/// Keys of different families never collide, so invalidating one kind of entry
/// leaves the others alone.
pub proof fn lemma_key_families_disjoint(page: nat, s1: Seq<char>, s2: Seq<char>, e: Seq<char>)
    ensures
        posts_page_key(page) != post_key(s1),
        posts_page_key(page) != tag_key(s1),
        posts_page_key(page) != post_count_key(),
        posts_page_key(page) != post_count_tag_key(s1),
        posts_page_key(page) != reaction_key(s1, e),
        post_key(s1) != tag_key(s2),
        post_key(s1) != post_count_key(),
        post_key(s1) != post_count_tag_key(s2),
        post_key(s1) != reaction_key(s2, e),
        tag_key(s1) != post_count_key(),
        tag_key(s1) != post_count_tag_key(s2),
        tag_key(s1) != reaction_key(s2, e),
        post_count_key() != post_count_tag_key(s1),
        post_count_key() != reaction_key(s1, e),
        post_count_tag_key(s1) != reaction_key(s2, e),
{
    reveal_strlit("blog:posts:page:");
    reveal_strlit("blog:post:");
    reveal_strlit("blog:tag:");
    reveal_strlit("blog:post_count");
    reveal_strlit("blog:post_count:tag:");
    reveal_strlit("blog:react:");
    reveal_strlit(":");
    assert(posts_page_key(page)[9] == 's');
    assert(post_key(s1)[9] == ':');
    assert(post_key(s1)[5] == 'p');
    assert(tag_key(s1)[5] == 't');
    assert(tag_key(s2)[5] == 't');
    assert(posts_page_key(page)[5] == 'p');
    assert(post_count_key()[9] == '_');
    assert(post_count_tag_key(s1)[9] == '_');
    assert(post_count_tag_key(s2)[9] == '_');
    assert(post_count_tag_key(s1)[5] == 'p');
    assert(post_count_tag_key(s2)[5] == 'p');
    assert(reaction_key(s1, e)[5] == 'r');
    assert(reaction_key(s2, e)[5] == 'r');
    assert(post_count_key().len() == 15);
    assert(post_count_tag_key(s1).len() >= 20);
}

} // verus!

verus! {

/// The slug holds no `:`.
pub open spec fn colon_free(s: Seq<char>) -> bool {
    forall|i: int| 0 <= i < s.len() ==> s[i] != ':'
}

/// For slugs without `:`, a reaction key names exactly one post and one emoji: equal
/// keys come from the same slug and the same emoji.
pub proof fn lemma_reaction_key_injective(s1: Seq<char>, e1: Seq<char>, s2: Seq<char>, e2: Seq<char>)
    requires
        colon_free(s1),
        colon_free(s2),
    ensures
        reaction_key(s1, e1) == reaction_key(s2, e2) ==> s1 == s2 && e1 == e2,
{
    reveal_strlit("blog:react:");
    reveal_strlit(":");
    let p = "blog:react:"@;
    let k1 = reaction_key(s1, e1);
    let k2 = reaction_key(s2, e2);
    assert(k1 =~= p + s1 + seq![':'] + e1);
    assert(k2 =~= p + s2 + seq![':'] + e2);
    if k1 == k2 {
        if s1.len() < s2.len() {
            assert(k1[(p.len() + s1.len()) as int] == ':');
            assert(k2[(p.len() + s1.len()) as int] == s2[s1.len() as int]);
        } else if s2.len() < s1.len() {
            assert(k2[(p.len() + s2.len()) as int] == ':');
            assert(k1[(p.len() + s2.len()) as int] == s1[s2.len() as int]);
        } else {
            let n: int = (p.len() + s1.len()) as int;
            assert(k1.subrange(p.len() as int, n) =~= s1);
            assert(k2.subrange(p.len() as int, n) =~= s2);
            assert(k1.skip(n + 1) =~= e1);
            assert(k2.skip(n + 1) =~= e2);
        }
    }
}

} // verus!
