use blog::portable_text::{escape_html, render, render_block, render_child, render_image, render_text_block};
use blog::sanity::models::{PtAsset, PtBlock, PtChild, PtMarkDef};

fn child(text: Option<&str>, marks: &[&str]) -> PtChild {
    PtChild {
        _type: "span".to_string(),
        text: text.map(|t| t.to_string()),
        marks: if marks.is_empty() { None } else { Some(marks.iter().map(|m| m.to_string()).collect()) },
    }
}

fn text_block(style: Option<&str>, children: Vec<PtChild>, defs: Vec<PtMarkDef>) -> PtBlock {
    PtBlock {
        _type: "block".to_string(),
        style: style.map(|s| s.to_string()),
        children: Some(children),
        mark_defs: Some(defs),
        asset: None,
        alt: None,
    }
}

fn image_block(reference: Option<&str>, alt: Option<&str>) -> PtBlock {
    PtBlock {
        _type: "image".to_string(),
        style: None,
        children: None,
        mark_defs: None,
        asset: Some(PtAsset { _ref: reference.map(|r| r.to_string()) }),
        alt: alt.map(|a| a.to_string()),
    }
}

fn link_def(key: Option<&str>, href: Option<&str>) -> PtMarkDef {
    PtMarkDef {
        _type: "link".to_string(),
        _key: key.map(|k| k.to_string()),
        href: href.map(|h| h.to_string()),
    }
}

#[test]
fn test_escape_html() {
    assert_eq!(escape_html("<script>"), "&lt;script&gt;");
    assert_eq!(escape_html("a & b"), "a &amp; b");
}

#[test]
fn escape_html_quotes_and_plain_text() {
    assert_eq!(escape_html(r#"say "hi""#), "say &quot;hi&quot;");
    assert_eq!(escape_html("plain ünïcode"), "plain ünïcode");
    assert_eq!(escape_html(""), "");
    assert_eq!(escape_html("&lt;"), "&amp;lt;");
}

#[test]
fn child_with_marks_applies_them_in_order() {
    let c = child(Some("hi"), &["strong", "em"]);
    assert_eq!(render_child(&c, &[]), "<em><strong>hi</strong></em>");
    let c = child(Some("x"), &["underline", "strike-through", "code", "unknown"]);
    assert_eq!(render_child(&c, &[]), "<code><s><u>x</u></s></code>");
}

#[test]
fn child_without_text_renders_nothing() {
    assert_eq!(render_child(&child(None, &["strong"]), &[]), "");
    assert_eq!(render_child(&child(Some(""), &["strong"]), &[]), "");
}

#[test]
fn child_text_is_escaped() {
    assert_eq!(render_child(&child(Some("a<b"), &[]), &[]), "a&lt;b");
}

#[test]
fn link_mark_resolves_first_definition() {
    let defs = vec![
        link_def(Some("k1"), Some("https://a.example/?q=\"x\"")),
        link_def(Some("k2"), Some("https://b.example")),
    ];
    let c = child(Some("go"), &["link-k1"]);
    assert_eq!(
        render_child(&c, &defs),
        r#"<a href="https://a.example/?q=&quot;x&quot;">go</a>"#
    );
    // Unknown key: unchanged.
    let c = child(Some("go"), &["link-zz"]);
    assert_eq!(render_child(&c, &defs), "go");
    // The first definition with the key has no href: no link, even if a later one has.
    let defs = vec![link_def(Some("k"), None), link_def(Some("k"), Some("https://c.example"))];
    let c = child(Some("go"), &["link-k"]);
    assert_eq!(render_child(&c, &defs), "go");
}

#[test]
fn text_block_uses_style_element() {
    let b = text_block(Some("h2"), vec![child(Some("Title"), &[])], vec![]);
    assert_eq!(render_text_block(&b), "<h2>Title</h2>");
    let b = text_block(Some("blockquote"), vec![child(Some("q"), &[])], vec![]);
    assert_eq!(render_text_block(&b), "<blockquote>q</blockquote>");
    let b = text_block(Some("normal"), vec![child(Some("a"), &[]), child(Some("b"), &["em"])], vec![]);
    assert_eq!(render_text_block(&b), "<p>a<em>b</em></p>");
    let b = text_block(None, vec![], vec![]);
    assert_eq!(render_text_block(&b), "<p></p>");
}

#[test]
fn image_block_builds_cdn_url() {
    let b = image_block(Some("image-abc123-800x600-jpg"), Some("A cat"));
    assert_eq!(
        render_image(&b, "proj", "production"),
        r#"<img src="https://cdn.sanity.io/images/proj/production/abc123-800x600.jpg" alt="A cat" loading="lazy" class="rounded-lg" />"#
    );
}

#[test]
fn image_block_without_reference_has_empty_source() {
    let b = image_block(None, None);
    assert_eq!(
        render_image(&b, "proj", "ds"),
        r#"<img src="" alt="" loading="lazy" class="rounded-lg" />"#
    );
    let b = image_block(Some("image-nodash"), None);
    assert_eq!(
        render_image(&b, "p", "d"),
        r#"<img src="https://cdn.sanity.io/images/p/d/nodash" alt="" loading="lazy" class="rounded-lg" />"#
    );
}

#[test]
fn unknown_block_types_render_nothing() {
    let mut b = text_block(None, vec![child(Some("x"), &[])], vec![]);
    b._type = "code".to_string();
    assert_eq!(render_block(&b, "p", "d"), "");
}

#[test]
fn render_joins_blocks() {
    let a = text_block(Some("h1"), vec![child(Some("Hi"), &[])], vec![]);
    let b = image_block(Some("image-h-1x1-png"), Some("dot"));
    let html = render(&[a.clone(), b.clone()], "p", "d");
    assert_eq!(
        html,
        format!("{}{}", render_block(&a, "p", "d"), render_block(&b, "p", "d"))
    );
    assert_eq!(
        html,
        r#"<h1>Hi</h1><img src="https://cdn.sanity.io/images/p/d/h-1x1.png" alt="dot" loading="lazy" class="rounded-lg" />"#
    );
    assert_eq!(render(&[], "p", "d"), "");
}

#[test]
fn image_reference_prefix_is_cut_by_bytes() {
    // "ñ" takes two bytes, so the first six bytes are "ñimag".
    let b = image_block(Some("ñimage-x"), None);
    assert_eq!(
        render_image(&b, "p", "d"),
        r#"<img src="https://cdn.sanity.io/images/p/d/e.x" alt="" loading="lazy" class="rounded-lg" />"#
    );
}
