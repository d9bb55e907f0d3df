use blog::routes::blogs::{filter_posts, keep_post_lowered, BlogsParams};
use blog::routes::post::{after_fetch, post_cache_step, PostCacheAction, PostCacheEvent, fetch_error_html, not_found_html, post_body_html, reaction_count, reaction_emojis, PostLookup};
use blog::routes::react::{display_emoji, reaction_button, ReactParams};
use blog::routes::search::SearchParams;
use blog::routes::tag::ViewParams;
use blog::sanity::models::{Post, PtBlock, PtChild, Slug, TagRef};

fn post(title: &str, tags: Option<&[&str]>) -> Post {
    Post {
        title: title.to_string(),
        slug: Slug { current: title.to_lowercase().replace(' ', "-") },
        excerpt: None,
        body: None,
        tags: tags.map(|ts| {
            ts.iter()
                .map(|t| TagRef { title: t.to_string(), slug: Slug { current: t.to_string() } })
                .collect()
        }),
        published_at: None,
        main_image: None,
    }
}

fn titles(posts: &[Post]) -> Vec<String> {
    posts.iter().map(|p| p.title.clone()).collect()
}

#[test]
fn filter_by_title_ignores_case() {
    let posts = vec![post("Hello World", None), post("Rust Tips", None), post("Say HELLO", None)];
    let r = filter_posts(posts, "hello", &None);
    assert_eq!(titles(&r), vec!["Hello World", "Say HELLO"]);
}

#[test]
fn filter_empty_query_keeps_all() {
    let posts = vec![post("A", None), post("B", None)];
    assert_eq!(titles(&filter_posts(posts, "", &None)), vec!["A", "B"]);
}

#[test]
fn filter_by_tag() {
    let posts = vec![
        post("A", Some(&["rust", "web"])),
        post("B", None),
        post("C", Some(&["go"])),
        post("D", Some(&["rust"])),
    ];
    let r = filter_posts(posts, "", &Some("rust".to_string()));
    assert_eq!(titles(&r), vec!["A", "D"]);
}

#[test]
fn filter_by_title_and_tag() {
    let posts = vec![post("Rust async", Some(&["rust"])), post("Rust traits", Some(&["go"])), post("Go", Some(&["rust"]))];
    let r = filter_posts(posts, "RUST", &Some("rust".to_string()));
    assert_eq!(titles(&r), vec!["Rust async"]);
}

#[test]
fn emoji_names() {
    assert_eq!(display_emoji("fire"), "🔥");
    assert_eq!(display_emoji("heart"), "❤️");
    assert_eq!(display_emoji("rocket"), "🚀");
    assert_eq!(display_emoji("bulb"), "💡");
    assert_eq!(display_emoji("eyes"), "👀");
    assert_eq!(display_emoji("cat"), "👍");
}

#[test]
fn reaction_button_html() {
    let p = ReactParams { slug: "hello".to_string(), emoji: "rocket".to_string() };
    assert_eq!(
        reaction_button(&p, 7),
        r#"<button class="reaction-btn" hx-post="/api/react" hx-vals='{"slug":"hello","emoji":"rocket"}' hx-target="this" hx-swap="outerHTML"><span class="reaction-emoji">🚀</span> <span class="reaction-count">7</span></button>"#
    );
    let html = reaction_button(&p, -12);
    assert!(html.contains(r#"<span class="reaction-count">-12</span>"#));
    let html = reaction_button(&p, i64::MIN);
    assert!(html.contains("-9223372036854775808"));
}

#[test]
fn post_page_pieces() {
    assert_eq!(reaction_emojis(), vec!["fire", "heart", "rocket", "bulb", "eyes"]);
    assert_eq!(reaction_count(None), 0);
    assert_eq!(reaction_count(Some(5)), 5);
    assert_eq!(not_found_html(), "<h1>404 — Post not found</h1>");
    assert_eq!(fetch_error_html("boom"), "<h1>500 — Error fetching post</h1><pre>boom</pre>");
}

#[test]
fn post_lookup_outcomes() {
    match after_fetch(Ok(Some(post("X", None)))) {
        PostLookup::Found(p) => assert_eq!(p.title, "X"),
        _ => panic!("expected the post"),
    }
    match after_fetch(Ok(None)) {
        PostLookup::Missing(html) => assert_eq!(html, "<h1>404 — Post not found</h1>"),
        _ => panic!("expected not found"),
    }
    match after_fetch(Err("HTTP 500".to_string())) {
        PostLookup::Failed(html) => assert_eq!(html, "<h1>500 — Error fetching post</h1><pre>HTTP 500</pre>"),
        _ => panic!("expected an error page"),
    }
}

#[test]
fn post_body_renders_blocks() {
    let mut p = post("X", None);
    assert_eq!(post_body_html(&p, "a", "b"), "");
    p.body = Some(vec![PtBlock {
        _type: "block".to_string(),
        style: None,
        children: Some(vec![PtChild { _type: "span".to_string(), text: Some("body".to_string()), marks: None }]),
        mark_defs: None,
        asset: None,
        alt: None,
    }]);
    assert_eq!(post_body_html(&p, "a", "b"), "<p>body</p>");
}

#[test]
fn params_defaults() {
    let v = ViewParams { view: None };
    assert_eq!(v.view_mode(), "list");
    let v = ViewParams { view: Some("grid".to_string()) };
    assert_eq!(v.view_mode(), "grid");
    let s = SearchParams { q: None, view: None };
    assert_eq!(s.query_text(), "");
    assert_eq!(s.view_mode(), "list");
    let s = SearchParams { q: Some("rust".to_string()), view: Some("grid".to_string()) };
    assert_eq!(s.query_text(), "rust");
    assert_eq!(s.view_mode(), "grid");
    let b = BlogsParams { page: None, q: None, tag: None };
    assert_eq!(b.page_number(), 1);
    assert_eq!(b.query_text(), "");
    let b = BlogsParams { page: Some(3), q: Some("x".to_string()), tag: None };
    assert_eq!(b.page_number(), 3);
    assert_eq!(b.query_text(), "x");
}

#[test]
fn keep_post_with_lowered_text() {
    let p = post("Ignored Title", Some(&["rust"]));
    assert!(keep_post_lowered(&p, "hello world", "lo w", true, &None));
    assert!(!keep_post_lowered(&p, "hello world", "xyz", true, &None));
    assert!(keep_post_lowered(&p, "anything", "xyz", false, &None));
    assert!(keep_post_lowered(&p, "a", "", true, &Some("rust".to_string())));
    assert!(!keep_post_lowered(&p, "a", "", true, &Some("go".to_string())));
}

#[test]
fn post_cache_steps() {
    match post_cache_step(PostCacheEvent::Read(Some(post("C", None)))) {
        PostCacheAction::Render(p) => assert_eq!(p.title, "C"),
        _ => panic!("a hit renders"),
    }
    assert!(matches!(post_cache_step(PostCacheEvent::Read(None)), PostCacheAction::Fetch));
    match post_cache_step(PostCacheEvent::Fetched(Ok(Some(post("F", None))))) {
        PostCacheAction::StoreAndRender(p) => assert_eq!(p.title, "F"),
        _ => panic!("a fetched post is stored"),
    }
    match post_cache_step(PostCacheEvent::Fetched(Ok(None))) {
        PostCacheAction::NotFound(html) => assert_eq!(html, "<h1>404 — Post not found</h1>"),
        _ => panic!("expected not found"),
    }
    match post_cache_step(PostCacheEvent::Fetched(Err("e".to_string()))) {
        PostCacheAction::Failed(html) => assert_eq!(html, "<h1>500 — Error fetching post</h1><pre>e</pre>"),
        _ => panic!("expected an error page"),
    }
}
