use blog::sanity::models::{Post, Slug};
use blog::cache::{cache_through_step, CacheAction, CacheEvent};
use blog::cache::keys;

#[test]
fn key_formats() {
    assert_eq!(keys::posts_page(1), "blog:posts:page:1");
    assert_eq!(keys::posts_page(0), "blog:posts:page:0");
    assert_eq!(keys::posts_page(4294967295), "blog:posts:page:4294967295");
    assert_eq!(keys::post("hello"), "blog:post:hello");
    assert_eq!(keys::tag("rust"), "blog:tag:rust");
    assert_eq!(keys::post_count(), "blog:post_count");
    assert_eq!(keys::post_count_tag("rust"), "blog:post_count:tag:rust");
    assert_eq!(keys::reaction("hello", "fire"), "blog:react:hello:fire");
}

#[test]
fn key_families_differ() {
    assert_ne!(keys::post("x"), keys::tag("x"));
    assert_ne!(keys::post("_count"), keys::post_count());
    assert_ne!(keys::reaction("a", "b"), keys::reaction("a", "c"));
    assert_ne!(keys::posts_page(10), keys::posts_page(1));
}

#[test]
fn reaction_keys_differ_across_slugs_and_emojis() {
    assert_ne!(keys::reaction("ab", "c"), keys::reaction("a", "bc"));
    assert_ne!(keys::reaction("post", "fire"), keys::reaction("post", "heart"));
}

#[test]
fn cache_through_steps() {
    let post = Post {
        title: "T".to_string(),
        slug: Slug { current: "t".to_string() },
        excerpt: None,
        body: None,
        tags: None,
        published_at: None,
        main_image: None,
    };
    match cache_through_step(CacheEvent::Read(Some(vec![post.clone()]))) {
        CacheAction::Render(p) => assert_eq!(p.len(), 1),
        _ => panic!("a hit renders"),
    }
    assert!(matches!(cache_through_step(CacheEvent::Read(None)), CacheAction::Fetch));
    match cache_through_step(CacheEvent::Fetched(Ok(vec![post.clone(), post]))) {
        CacheAction::StoreAndRender(p) => assert_eq!(p.len(), 2),
        _ => panic!("a fetch is stored"),
    }
    match cache_through_step(CacheEvent::Fetched(Err("down".to_string()))) {
        CacheAction::StoreAndRender(p) => assert!(p.is_empty()),
        _ => panic!("a failed fetch stores an empty listing"),
    }
}
