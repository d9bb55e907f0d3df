use blog::sanity::reply::{body_excerpt, http_error_message, parse_error_message};
use blog::sanity::groq::groq_escape;
use blog::sanity::models::{MainImage, Post, PostQueryParams, PtAsset, Slug};
use blog::sanity::SanityClient;

fn post_with_image(reference: Option<&str>) -> Post {
    Post {
        title: "Hello".to_string(),
        slug: Slug { current: "hello".to_string() },
        excerpt: None,
        body: None,
        tags: None,
        published_at: Some("2024-05-01T12:00:00Z".to_string()),
        main_image: Some(MainImage { asset: Some(PtAsset { _ref: reference.map(|r| r.to_string()) }) }),
    }
}

#[test]
fn main_image_url_from_reference() {
    let p = post_with_image(Some("image-Tb9Ew8CXIwaY6R1kjMvI0uRR-2000x3000-jpg"));
    assert_eq!(
        p.main_image_url("abc", "production"),
        Some("https://cdn.sanity.io/images/abc/production/Tb9Ew8CXIwaY6R1kjMvI0uRR-2000x3000.jpg".to_string())
    );
}

#[test]
fn main_image_url_missing_parts() {
    assert_eq!(post_with_image(None).main_image_url("a", "b"), None);
    let mut p = post_with_image(None);
    p.main_image = None;
    assert_eq!(p.main_image_url("a", "b"), None);
    p.main_image = Some(MainImage { asset: None });
    assert_eq!(p.main_image_url("a", "b"), None);
}

#[test]
fn slug_displays_its_current_value() {
    let s = Slug { current: "my-post".to_string() };
    assert_eq!(s.to_string(), "my-post");
}

#[test]
fn post_query_params_default() {
    let p = PostQueryParams::default();
    assert_eq!(p.page, 1);
    assert_eq!(p.per_page, 10);
}

#[test]
fn query_url_and_accessors() {
    let c = SanityClient::new("proj".to_string(), "production".to_string(), "v1".to_string());
    assert_eq!(c.project_id(), "proj");
    assert_eq!(c.dataset(), "production");
    assert_eq!(c.query_url(), "https://proj.api.sanity.io/v1/data/query/production");
}

#[test]
fn groq_queries() {
    let c = SanityClient::new("p".to_string(), "d".to_string(), "v1".to_string());
    assert_eq!(
        c.get_posts_query(3, 6),
        r#"*[_type == "post"] | order(publishedAt desc)[12...18] {title, slug, excerpt, publishedAt, mainImage, tags[]->{title, slug}}"#
    );
    assert_eq!(
        c.get_posts_query(1, 100),
        r#"*[_type == "post"] | order(publishedAt desc)[0...100] {title, slug, excerpt, publishedAt, mainImage, tags[]->{title, slug}}"#
    );
    assert_eq!(
        c.get_post_query("hello"),
        r#"*[_type == "post" && slug.current == "hello"][0] {title, slug, excerpt, body, publishedAt, mainImage, tags[]->{title, slug}}"#
    );
    assert_eq!(
        c.get_posts_by_tag_query("rust"),
        r#"*[_type == "post" && "rust" in tags[]->slug.current] | order(publishedAt desc) {title, slug, excerpt, publishedAt, mainImage, tags[]->{title, slug}}"#
    );
    assert_eq!(
        c.search_posts_query("ax"),
        r#"*[_type == "post" && (title match "ax*" || excerpt match "ax*")] | order(publishedAt desc) {title, slug, excerpt, publishedAt, mainImage, tags[]->{title, slug}}"#
    );
    assert_eq!(
        c.get_tags_query(),
        r#"*[_type == "tag"] | order(title asc) {title, "slug": slug.current, description}"#
    );
    assert_eq!(c.count_posts_query(), r#"count(*[_type == "post"])"#);
    assert_eq!(
        c.count_posts_by_tag_query("rust"),
        r#"count(*[_type == "post" && "rust" in tags[]->slug.current])"#
    );
}

#[test]
fn groq_queries_escape_user_text() {
    let c = SanityClient::new("p".to_string(), "d".to_string(), "v1".to_string());
    assert_eq!(
        c.get_post_query(r#"a"b"#),
        r#"*[_type == "post" && slug.current == "a\"b"][0] {title, slug, excerpt, body, publishedAt, mainImage, tags[]->{title, slug}}"#
    );
    assert_eq!(
        c.count_posts_by_tag_query(r#"x\"#),
        r#"count(*[_type == "post" && "x\\" in tags[]->slug.current])"#
    );
    assert!(c.search_posts_query(r#"" || true || ""#).contains(r#"title match "\" || true || \"*""#));
    assert!(c.get_posts_by_tag_query(r#"r"s"#).contains(r#""r\"s" in tags"#));
}

#[test]
fn groq_escape_values() {
    assert_eq!(groq_escape("plain"), "plain");
    assert_eq!(groq_escape(r#"say "hi""#), r#"say \"hi\""#);
    assert_eq!(groq_escape(r#"a\b"#), r#"a\\b"#);
    assert_eq!(groq_escape(""), "");
}

#[test]
fn reply_error_messages() {
    assert_eq!(http_error_message("404 Not Found", "nope"), "HTTP 404 Not Found: nope");
    assert_eq!(parse_error_message("bad", "{x"), "JSON parse failed: bad | body: {x");
    let long = "a".repeat(600);
    assert_eq!(body_excerpt(&long), "a".repeat(500));
    // 499 ASCII bytes then a two-byte character: byte 500 splits it, so it is left out.
    let split = format!("{}é tail", "a".repeat(499));
    assert_eq!(body_excerpt(&split), "a".repeat(499));
    let fits = format!("{}é", "a".repeat(498));
    assert_eq!(body_excerpt(&fits), fits);
    assert_eq!(body_excerpt(""), "");
}
