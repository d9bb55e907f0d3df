//! Portable Text → HTML renderer.
//!
//! Sanity stores rich text as a JSON array of typed blocks (Portable Text).
//! This module traverses that structure and produces HTML.
use vstd::prelude::*;
use vstd::string::*;

use crate::sanity::models::{
    Post, PtBlock, PtChild, PtMarkDef, image_url, main_image_ref, ref_sliceable, cdn_image_url,
};
use crate::text::{chars_of, push_char, str_eq, starts_with, suffix_from, has_prefix, contains_seq, occurs_at};

verus! {

/// The HTML escape of one character.
pub open spec fn escape_char(c: char) -> Seq<char> {
    if c == '&' {
        seq!['&', 'a', 'm', 'p', ';']
    } else if c == '<' {
        seq!['&', 'l', 't', ';']
    } else if c == '>' {
        seq!['&', 'g', 't', ';']
    } else if c == '"' {
        seq!['&', 'q', 'u', 'o', 't', ';']
    } else {
        seq![c]
    }
}

/// `s` with `&`, `<`, `>` and `"` replaced by their HTML entities.
pub open spec fn escape_spec(s: Seq<char>) -> Seq<char>
    decreases s.len(),
{
    if s.len() == 0 {
        seq![]
    } else {
        escape_spec(s.drop_last()) + escape_char(s.last())
    }
}

/// Escape HTML special characters to prevent XSS injection from user-authored content.
pub fn escape_html(s: &str) -> (r: String)
    ensures
        r@ == escape_spec(s@),
{
    let v = chars_of(s);
    let mut out = String::new();
    let mut i: usize = 0;
    while i < v.len()
        invariant
            v@ == s@,
            i <= v.len(),
            out@ == escape_spec(s@.take(i as int)),
        decreases v.len() - i,
    {
        let c = v[i];
        let ghost before = out@;
        if c == '&' {
            push_char(&mut out, '&');
            push_char(&mut out, 'a');
            push_char(&mut out, 'm');
            push_char(&mut out, 'p');
            push_char(&mut out, ';');
        } else if c == '<' {
            push_char(&mut out, '&');
            push_char(&mut out, 'l');
            push_char(&mut out, 't');
            push_char(&mut out, ';');
        } else if c == '>' {
            push_char(&mut out, '&');
            push_char(&mut out, 'g');
            push_char(&mut out, 't');
            push_char(&mut out, ';');
        } else if c == '"' {
            push_char(&mut out, '&');
            push_char(&mut out, 'q');
            push_char(&mut out, 'u');
            push_char(&mut out, 'o');
            push_char(&mut out, 't');
            push_char(&mut out, ';');
        } else {
            push_char(&mut out, c);
        }
        assert(out@ =~= before + escape_char(c));
        assert(s@.take(i + 1).drop_last() =~= s@.take(i as int));
        i = i + 1;
    }
    assert(s@.take(v.len() as int) =~= s@);
    out
}

} // verus!

verus! {

/// The definition carries the mark key `key`.
pub open spec fn key_matches(def: PtMarkDef, key: Seq<char>) -> bool {
    def._key matches Some(k) && k@ == key
}

/// Index of the first definition whose key is `key`, or -1 when none is.
pub open spec fn first_def_index(defs: Seq<PtMarkDef>, key: Seq<char>) -> int
    decreases defs.len(),
{
    if defs.len() == 0 {
        -1
    } else if key_matches(defs[0], key) {
        0
    } else {
        let r = first_def_index(defs.drop_first(), key);
        if r < 0 {
            -1
        } else {
            r + 1
        }
    }
}

/// `first_def_index` points at a matching definition, and none before it matches.
pub proof fn lemma_first_def_index(defs: Seq<PtMarkDef>, key: Seq<char>)
    ensures
        -1 <= first_def_index(defs, key) < defs.len(),
        first_def_index(defs, key) >= 0 ==> key_matches(defs[first_def_index(defs, key)], key),
        forall|j: int|
            0 <= j < defs.len() && (first_def_index(defs, key) < 0 || j < first_def_index(defs, key))
                ==> !key_matches(#[trigger] defs[j], key),
    decreases defs.len(),
{
    if defs.len() > 0 && !key_matches(defs[0], key) {
        lemma_first_def_index(defs.drop_first(), key);
        assert forall|j: int|
            0 <= j < defs.len() && (first_def_index(defs, key) < 0 || j < first_def_index(defs, key))
            implies !key_matches(#[trigger] defs[j], key) by {
            if j > 0 {
                assert(defs.drop_first()[j - 1] == defs[j]);
            }
        }
    }
}

/// The HTML that one formatting mark wraps around `html`.
pub open spec fn apply_mark(html: Seq<char>, mark: Seq<char>, defs: Seq<PtMarkDef>) -> Seq<char> {
    if mark == "strong"@ {
        "<strong>"@ + html + "</strong>"@
    } else if mark == "em"@ {
        "<em>"@ + html + "</em>"@
    } else if mark == "underline"@ {
        "<u>"@ + html + "</u>"@
    } else if mark == "strike-through"@ {
        "<s>"@ + html + "</s>"@
    } else if mark == "code"@ {
        "<code>"@ + html + "</code>"@
    } else if has_prefix(mark, "link-"@) {
        let i = first_def_index(defs, mark.skip("link-"@.len() as int));
        if i >= 0 && defs[i].href is Some {
            "<a href=\""@ + escape_spec(defs[i].href->0@) + "\">"@ + html + "</a>"@
        } else {
            html
        }
    } else {
        html
    }
}

/// The marks applied in order, the first one innermost.
pub open spec fn apply_marks(html: Seq<char>, marks: Seq<String>, defs: Seq<PtMarkDef>) -> Seq<char>
    decreases marks.len(),
{
    if marks.len() == 0 {
        html
    } else {
        apply_mark(apply_marks(html, marks.drop_last(), defs), marks.last()@, defs)
    }
}

/// The text of an inline node, empty when it has none.
pub open spec fn child_text(child: PtChild) -> Seq<char> {
    match child.text {
        Some(t) => t@,
        None => seq![],
    }
}

/// The marks of an inline node, none when it has none.
pub open spec fn child_marks(child: PtChild) -> Seq<String> {
    match child.marks {
        Some(m) => m@,
        None => seq![],
    }
}

/// The HTML of an inline text node: nothing for empty text, otherwise the escaped
/// text wrapped in its marks.
pub open spec fn child_html(child: PtChild, defs: Seq<PtMarkDef>) -> Seq<char> {
    if child_text(child).len() == 0 {
        seq![]
    } else {
        apply_marks(escape_spec(child_text(child)), child_marks(child), defs)
    }
}

/// Finds the first mark definition with the given key.
fn find_mark_def(defs: &[PtMarkDef], key: &str) -> (r: Option<usize>)
    ensures
        match r {
            Some(i) => i == first_def_index(defs@, key@),
            None => first_def_index(defs@, key@) == -1,
        },
{
    let mut i: usize = 0;
    proof {
        assert(defs@.skip(0) =~= defs@);
    }
    while i < defs.len()
        invariant
            i <= defs@.len(),
            first_def_index(defs@, key@) == (if first_def_index(defs@.skip(i as int), key@) < 0 {
                -1
            } else {
                first_def_index(defs@.skip(i as int), key@) + i
            }),
        decreases defs.len() - i,
    {
        let matched = match &defs[i]._key {
            Some(k) => str_eq(k.as_str(), key),
            None => false,
        };
        assert(defs@.skip(i as int)[0] == defs@[i as int]);
        if matched {
            return Some(i);
        }
        assert(defs@.skip(i as int).drop_first() =~= defs@.skip(i + 1));
        i = i + 1;
    }
    None
}

/// Applies one mark to `html`.
fn apply_one_mark(html: String, mark: &str, mark_defs: &[PtMarkDef]) -> (r: String)
    ensures
        r@ == apply_mark(html@, mark@, mark_defs@),
{
    if str_eq(mark, "strong") {
        let mut r = String::new();
        r.append("<strong>");
        r.append(html.as_str());
        r.append("</strong>");
        r
    } else if str_eq(mark, "em") {
        let mut r = String::new();
        r.append("<em>");
        r.append(html.as_str());
        r.append("</em>");
        r
    } else if str_eq(mark, "underline") {
        let mut r = String::new();
        r.append("<u>");
        r.append(html.as_str());
        r.append("</u>");
        r
    } else if str_eq(mark, "strike-through") {
        let mut r = String::new();
        r.append("<s>");
        r.append(html.as_str());
        r.append("</s>");
        r
    } else if str_eq(mark, "code") {
        let mut r = String::new();
        r.append("<code>");
        r.append(html.as_str());
        r.append("</code>");
        r
    } else if starts_with(mark, "link-") {
        proof {
            reveal_strlit("link-");
        }
        let key = suffix_from(mark, 5);
        match find_mark_def(mark_defs, key.as_str()) {
            Some(i) => {
                proof {
                    lemma_first_def_index(mark_defs@, key@);
                }
                match &mark_defs[i].href {
                    Some(href) => {
                        let mut r = String::new();
                        r.append("<a href=\"");
                        let escaped = escape_html(href.as_str());
                        r.append(escaped.as_str());
                        r.append("\">");
                        r.append(html.as_str());
                        r.append("</a>");
                        r
                    },
                    None => html,
                }
            },
            None => html,
        }
    } else {
        html
    }
}

/// Render an inline text node, applying formatting marks (bold, italic, links, etc.).
///
/// Marks are identified by string keys:
///   "strong"       → `<strong>`
///   "em"           → `<em>`
///   "code"         → `<code>`
///   "link-{key}"   → `<a>` (resolved via `mark_defs`)
pub fn render_child(child: &PtChild, mark_defs: &[PtMarkDef]) -> (r: String)
    ensures
        r@ == child_html(*child, mark_defs@),
{
    let text: &str = match &child.text {
        Some(t) => t.as_str(),
        None => "",
    };
    proof {
        reveal_strlit("");
    }
    if text.is_empty() {
        return String::new();
    }
    let mut html = escape_html(text);
    match &child.marks {
        Some(marks) => {
            let mut i: usize = 0;
            while i < marks.len()
                invariant
                    i <= marks@.len(),
                    child_marks(*child) == marks@,
                    html@ == apply_marks(escape_spec(child_text(*child)), marks@.take(i as int), mark_defs@),
                decreases marks.len() - i,
            {
                html = apply_one_mark(html, marks[i].as_str(), mark_defs);
                assert(marks@.take(i + 1).drop_last() =~= marks@.take(i as int));
                i = i + 1;
            }
            assert(marks@.take(marks@.len() as int) =~= marks@);
        },
        None => {},
    }
    html
}

} // verus!

verus! {

/// The HTML element of a text block's style; paragraphs for unknown or missing styles.
pub open spec fn style_tag(style: Option<String>) -> Seq<char> {
    match style {
        Some(s) => if s@ == "h1"@ {
            "h1"@
        } else if s@ == "h2"@ {
            "h2"@
        } else if s@ == "h3"@ {
            "h3"@
        } else if s@ == "h4"@ {
            "h4"@
        } else if s@ == "h5"@ {
            "h5"@
        } else if s@ == "h6"@ {
            "h6"@
        } else if s@ == "blockquote"@ {
            "blockquote"@
        } else {
            "p"@
        },
        None => "p"@,
    }
}

/// The inline nodes rendered one after another.
pub open spec fn children_html(children: Seq<PtChild>, defs: Seq<PtMarkDef>) -> Seq<char>
    decreases children.len(),
{
    if children.len() == 0 {
        seq![]
    } else {
        children_html(children.drop_last(), defs) + child_html(children.last(), defs)
    }
}

/// The inline nodes of a block, none when it has none.
pub open spec fn block_children(block: PtBlock) -> Seq<PtChild> {
    match block.children {
        Some(c) => c@,
        None => seq![],
    }
}

/// The mark definitions of a block, none when it has none.
pub open spec fn block_mark_defs(block: PtBlock) -> Seq<PtMarkDef> {
    match block.mark_defs {
        Some(d) => d@,
        None => seq![],
    }
}

/// The HTML of a text block: its children inside the element of its style.
pub open spec fn text_block_html(block: PtBlock) -> Seq<char> {
    let tag = style_tag(block.style);
    "<"@ + tag + ">"@ + children_html(block_children(block), block_mark_defs(block)) + "</"@ + tag
        + ">"@
}

/// The asset reference of an image block, when it has one.
pub open spec fn block_image_ref(block: PtBlock) -> Option<Seq<char>> {
    match block.asset {
        Some(asset) => match asset._ref {
            Some(r) => Some(r@),
            None => None,
        },
        None => None,
    }
}

/// An image block can be rendered: its reference, if any, can lose its `image-` prefix.
pub open spec fn image_block_ok(block: PtBlock) -> bool {
    block_image_ref(block) matches Some(r) ==> ref_sliceable(r)
}

/// The `<img>` element of an image block; the source is empty without an asset reference.
pub open spec fn image_html(block: PtBlock, project_id: Seq<char>, dataset: Seq<char>) -> Seq<char> {
    let alt = match block.alt {
        Some(a) => a@,
        None => seq![],
    };
    let src = match block_image_ref(block) {
        Some(r) => image_url(project_id, dataset, r),
        None => seq![],
    };
    "<img src=\""@ + src + "\" alt=\""@ + alt + "\" loading=\"lazy\" class=\"rounded-lg\" />"@
}

/// The HTML of one block, chosen by its `_type`; unknown types render to nothing.
pub open spec fn block_html(block: PtBlock, project_id: Seq<char>, dataset: Seq<char>) -> Seq<char> {
    if block._type@ == "block"@ {
        text_block_html(block)
    } else if block._type@ == "image"@ {
        image_html(block, project_id, dataset)
    } else {
        seq![]
    }
}

/// A block can be rendered: image blocks need a well-formed reference.
pub open spec fn block_ok(block: PtBlock) -> bool {
    block._type@ == "image"@ ==> image_block_ok(block)
}

/// Every block of the list can be rendered.
pub open spec fn blocks_ok(blocks: Seq<PtBlock>) -> bool {
    forall|i: int| 0 <= i < blocks.len() ==> block_ok(#[trigger] blocks[i])
}

/// The blocks rendered one after another.
pub open spec fn render_spec(blocks: Seq<PtBlock>, project_id: Seq<char>, dataset: Seq<char>) -> Seq<char>
    decreases blocks.len(),
{
    if blocks.len() == 0 {
        seq![]
    } else {
        render_spec(blocks.drop_last(), project_id, dataset) + block_html(blocks.last(), project_id, dataset)
    }
}

/// The styles that have an element of their own name.
pub open spec fn heading_or_quote(s: Seq<char>) -> bool {
    s == "h1"@ || s == "h2"@ || s == "h3"@ || s == "h4"@ || s == "h5"@ || s == "h6"@ || s == "blockquote"@
}

/// A style names its own element when it is a heading or a block quote; any other
/// style, or none, is a paragraph.
pub open spec fn element_for_style(style: Option<String>) -> Seq<char> {
    match style {
        Some(s) => if heading_or_quote(s@) {
            s@
        } else {
            "p"@
        },
        None => "p"@,
    }
}

/// A text block is wrapped in the element its style names: a heading or block quote
/// style `s` gives `<s>…</s>`, every other style and a missing style give `<p>…</p>`.
pub proof fn lemma_text_block_element(block: PtBlock)
    ensures
        style_tag(block.style) == element_for_style(block.style),
        text_block_html(block) == "<"@ + element_for_style(block.style) + ">"@ + children_html(
            block_children(block),
            block_mark_defs(block),
        ) + "</"@ + element_for_style(block.style) + ">"@,
        block.style matches Some(st) ==> (st@ == "h1"@ || st@ == "h2"@ || st@ == "h3"@ || st@ == "h4"@ || st@ == "h5"@ || st@ == "h6"@
            || st@ == "blockquote"@ ==> has_prefix(
            text_block_html(block),
            "<"@ + st@ + ">"@,
        ) && text_block_html(block).skip(text_block_html(block).len() - (st@.len() + 3)) == "</"@ + st@
            + ">"@),
        !(block.style matches Some(st) && (st@ == "h1"@ || st@ == "h2"@ || st@ == "h3"@ || st@ == "h4"@
            || st@ == "h5"@ || st@ == "h6"@ || st@ == "blockquote"@)) ==> has_prefix(text_block_html(block), "<p>"@)
            && text_block_html(block).skip(text_block_html(block).len() - 4) == "</p>"@,
{
    reveal_strlit("<p>");
    reveal_strlit("</p>");
    reveal_strlit("p");
    reveal_strlit("<");
    reveal_strlit(">");
    reveal_strlit("</");
    let e = element_for_style(block.style);
    let open = "<"@ + e + ">"@;
    let close = "</"@ + e + ">"@;
    let mid = children_html(block_children(block), block_mark_defs(block));
    let h = text_block_html(block);
    assert(h =~= open + mid + close);
    assert(h.take(open.len() as int) =~= open);
    assert(h.skip(h.len() - close.len()) =~= close);
    if e == "p"@ {
        assert(open =~= "<p>"@);
        assert(close =~= "</p>"@);
    }
}

/// The element name for a text block's style.
fn style_tag_of(style: &Option<String>) -> (tag: &'static str)
    ensures
        tag@ == style_tag(*style),
        tag@ == element_for_style(*style),
{
    match style {
        Some(s) => {
            let s = s.as_str();
            if str_eq(s, "h1") {
                "h1"
            } else if str_eq(s, "h2") {
                "h2"
            } else if str_eq(s, "h3") {
                "h3"
            } else if str_eq(s, "h4") {
                "h4"
            } else if str_eq(s, "h5") {
                "h5"
            } else if str_eq(s, "h6") {
                "h6"
            } else if str_eq(s, "blockquote") {
                "blockquote"
            } else {
                "p"
            }
        },
        None => "p",
    }
}

/// Render a text block (paragraph, heading, blockquote, etc.).
pub fn render_text_block(block: &PtBlock) -> (r: String)
    ensures
        r@ == text_block_html(*block),
        r@ == "<"@ + element_for_style(block.style) + ">"@ + children_html(
            match block.children {
                Some(c) => c@,
                None => Seq::<PtChild>::empty(),
            },
            match block.mark_defs {
                Some(d) => d@,
                None => Seq::<PtMarkDef>::empty(),
            },
        ) + "</"@ + element_for_style(block.style) + ">"@,
        block.style matches Some(st) ==> (st@ == "h1"@ || st@ == "h2"@ || st@ == "h3"@ || st@ == "h4"@ || st@ == "h5"@ || st@ == "h6"@
            || st@ == "blockquote"@ ==> has_prefix(r@, "<"@ + st@ + ">"@)
            && r@.skip(r@.len() - (st@.len() + 3)) == "</"@ + st@ + ">"@),
        !(block.style matches Some(st) && (st@ == "h1"@ || st@ == "h2"@ || st@ == "h3"@ || st@ == "h4"@
            || st@ == "h5"@ || st@ == "h6"@ || st@ == "blockquote"@)) ==> has_prefix(r@, "<p>"@)
            && r@.skip(r@.len() - 4) == "</p>"@,
{
    proof {
        lemma_text_block_element(*block);
    }
    let tag = style_tag_of(&block.style);
    let no_children: Vec<PtChild> = Vec::new();
    let no_defs: Vec<PtMarkDef> = Vec::new();
    let children: &Vec<PtChild> = match &block.children {
        Some(c) => c,
        None => &no_children,
    };
    let mark_defs: &Vec<PtMarkDef> = match &block.mark_defs {
        Some(d) => d,
        None => &no_defs,
    };
    assert(children@ == block_children(*block));
    assert(mark_defs@ == block_mark_defs(*block));
    let mut inner = String::new();
    let mut i: usize = 0;
    while i < children.len()
        invariant
            i <= children@.len(),
            children@ == block_children(*block),
            mark_defs@ == block_mark_defs(*block),
            inner@ == children_html(children@.take(i as int), mark_defs@),
        decreases children.len() - i,
    {
        let child_html = render_child(&children[i], mark_defs.as_slice());
        inner.append(child_html.as_str());
        assert(children@.take(i + 1).drop_last() =~= children@.take(i as int));
        i = i + 1;
    }
    assert(children@.take(children@.len() as int) =~= children@);
    let mut r = String::new();
    r.append("<");
    r.append(tag);
    r.append(">");
    r.append(inner.as_str());
    r.append("</");
    r.append(tag);
    r.append(">");
    r
}

/// Render an image block, resolving Sanity asset references to CDN URLs.
pub fn render_image(block: &PtBlock, project_id: &str, dataset: &str) -> (r: String)
    requires
        image_block_ok(*block),
    ensures
        r@ == image_html(*block, project_id@, dataset@),
{
    let alt: &str = match &block.alt {
        Some(a) => a.as_str(),
        None => "",
    };
    proof {
        reveal_strlit("");
    }
    let src: String = match &block.asset {
        Some(asset) => match &asset._ref {
            Some(reference) => cdn_image_url(reference.as_str(), project_id, dataset),
            None => String::new(),
        },
        None => String::new(),
    };
    let mut r = String::new();
    r.append("<img src=\"");
    r.append(src.as_str());
    r.append("\" alt=\"");
    r.append(alt);
    r.append("\" loading=\"lazy\" class=\"rounded-lg\" />");
    r
}

/// Dispatch a single block to the appropriate renderer by its `_type`.
pub fn render_block(block: &PtBlock, project_id: &str, dataset: &str) -> (r: String)
    requires
        block_ok(*block),
    ensures
        r@ == block_html(*block, project_id@, dataset@),
{
    if str_eq(block._type.as_str(), "block") {
        render_text_block(block)
    } else if str_eq(block._type.as_str(), "image") {
        render_image(block, project_id, dataset)
    } else {
        String::new()
    }
}

/// Render a list of Portable Text blocks into an HTML string.
pub fn render(blocks: &[PtBlock], project_id: &str, dataset: &str) -> (html: String)
    requires
        blocks_ok(blocks@),
    ensures
        html@ == render_spec(blocks@, project_id@, dataset@),
{
    let mut html = String::new();
    let mut i: usize = 0;
    while i < blocks.len()
        invariant
            i <= blocks@.len(),
            blocks_ok(blocks@),
            html@ == render_spec(blocks@.take(i as int), project_id@, dataset@),
        decreases blocks.len() - i,
    {
        let b = render_block(&blocks[i], project_id, dataset);
        html.append(b.as_str());
        assert(blocks@.take(i + 1).drop_last() =~= blocks@.take(i as int));
        i = i + 1;
    }
    assert(blocks@.take(blocks@.len() as int) =~= blocks@);
    html
}

} // verus!

verus! {

/// Escaping distributes over concatenation.
pub proof fn lemma_escape_concat(a: Seq<char>, b: Seq<char>)
    ensures
        escape_spec(a + b) == escape_spec(a) + escape_spec(b),
    decreases b.len(),
{
    if b.len() == 0 {
        assert(a + b =~= a);
    } else {
        lemma_escape_concat(a, b.drop_last());
        assert((a + b).drop_last() =~= a + b.drop_last());
        assert((a + b).last() == b.last());
    }
}

/// Escaping a sequence is escaping its first character, then the rest.
pub proof fn lemma_escape_first(s: Seq<char>)
    requires
        s.len() > 0,
    ensures
        escape_spec(s) == escape_char(s[0]) + escape_spec(s.drop_first()),
{
    lemma_escape_concat(seq![s[0]], s.drop_first());
    assert(seq![s[0]] + s.drop_first() =~= s);
    assert(seq![s[0]].drop_last() =~= Seq::<char>::empty());
    reveal_with_fuel(escape_spec, 2);
    assert(escape_spec(seq![s[0]]) =~= escape_char(s[0]));
}

/// Escaped text holds no `<`, `>` or `"`: it cannot open or close an element or
/// leave an attribute value.
pub proof fn lemma_escape_no_markup(s: Seq<char>)
    ensures
        forall|i: int|
            0 <= i < escape_spec(s).len() ==> {
                let c = #[trigger] escape_spec(s)[i];
                c != '<' && c != '>' && c != '"'
            },
    decreases s.len(),
{
    if s.len() > 0 {
        lemma_escape_no_markup(s.drop_last());
        let prev = escape_spec(s.drop_last());
        let tail = escape_char(s.last());
        assert forall|i: int| 0 <= i < escape_spec(s).len() implies {
            let c = #[trigger] escape_spec(s)[i];
            c != '<' && c != '>' && c != '"'
        } by {
            if i < prev.len() {
                assert(escape_spec(s)[i] == prev[i]);
            } else {
                assert(escape_spec(s)[i] == tail[i - prev.len()]);
            }
        }
    }
}

/// Decodes the four entities that `escape_spec` produces; every other character
/// stands for itself.
pub open spec fn unescape_spec(t: Seq<char>) -> Seq<char>
    decreases t.len(),
{
    if t.len() == 0 {
        seq![]
    } else if has_prefix(t, seq!['&', 'a', 'm', 'p', ';']) {
        seq!['&'] + unescape_spec(t.skip(5))
    } else if has_prefix(t, seq!['&', 'l', 't', ';']) {
        seq!['<'] + unescape_spec(t.skip(4))
    } else if has_prefix(t, seq!['&', 'g', 't', ';']) {
        seq!['>'] + unescape_spec(t.skip(4))
    } else if has_prefix(t, seq!['&', 'q', 'u', 'o', 't', ';']) {
        seq!['"'] + unescape_spec(t.skip(6))
    } else {
        seq![t[0]] + unescape_spec(t.drop_first())
    }
}

proof fn lemma_unescape_step(c: char, rest: Seq<char>)
    ensures
        unescape_spec(escape_char(c) + rest) == seq![c] + unescape_spec(rest),
{
    let e = escape_char(c);
    let t = e + rest;
    assert(t.len() > 0);
    assert(t[0] == e[0]);
    let amp = seq!['&', 'a', 'm', 'p', ';'];
    let lt = seq!['&', 'l', 't', ';'];
    let gt = seq!['&', 'g', 't', ';'];
    let quot = seq!['&', 'q', 'u', 'o', 't', ';'];
    if c == '&' {
        assert(t.take(5) =~= amp);
        assert(t.skip(5) =~= rest);
    } else if c == '<' {
        assert(t[1] == 'l');
        if has_prefix(t, amp) {
            assert(t.take(5)[1] == t[1]);
        }
        assert(t.take(4) =~= lt);
        assert(t.skip(4) =~= rest);
    } else if c == '>' {
        assert(t[1] == 'g');
        if has_prefix(t, amp) {
            assert(t.take(5)[1] == t[1]);
        }
        if has_prefix(t, lt) {
            assert(t.take(4)[1] == t[1]);
        }
        assert(t.take(4) =~= gt);
        assert(t.skip(4) =~= rest);
    } else if c == '"' {
        assert(t[1] == 'q');
        if has_prefix(t, amp) {
            assert(t.take(5)[1] == t[1]);
        }
        if has_prefix(t, lt) {
            assert(t.take(4)[1] == t[1]);
        }
        if has_prefix(t, gt) {
            assert(t.take(4)[1] == t[1]);
        }
        assert(t.take(6) =~= quot);
        assert(t.skip(6) =~= rest);
    } else {
        if has_prefix(t, amp) {
            assert(t.take(5)[0] == amp[0]);
        }
        if has_prefix(t, lt) {
            assert(t.take(4)[0] == lt[0]);
        }
        if has_prefix(t, gt) {
            assert(t.take(4)[0] == gt[0]);
        }
        if has_prefix(t, quot) {
            assert(t.take(6)[0] == quot[0]);
        }
        assert(t.drop_first() =~= rest);
    }
}

/// Escaping loses nothing: decoding the entities gives back the escaped text.
pub proof fn lemma_unescape_escape(s: Seq<char>)
    ensures
        unescape_spec(escape_spec(s)) == s,
    decreases s.len(),
{
    if s.len() == 0 {
    } else {
        lemma_escape_first(s);
        lemma_unescape_step(s[0], escape_spec(s.drop_first()));
        lemma_unescape_escape(s.drop_first());
        assert(seq![s[0]] + s.drop_first() =~= s);
    }
}

/// Different texts escape differently.
pub proof fn lemma_escape_injective(a: Seq<char>, b: Seq<char>)
    ensures
        escape_spec(a) == escape_spec(b) ==> a == b,
{
    lemma_unescape_escape(a);
    lemma_unescape_escape(b);
}

/// Rendering a list of blocks is rendering each part and joining the results.
pub proof fn lemma_render_concat(a: Seq<PtBlock>, b: Seq<PtBlock>, project_id: Seq<char>, dataset: Seq<char>)
    ensures
        render_spec(a + b, project_id, dataset) == render_spec(a, project_id, dataset) + render_spec(
            b,
            project_id,
            dataset,
        ),
    decreases b.len(),
{
    if b.len() == 0 {
        assert(a + b =~= a);
    } else {
        lemma_render_concat(a, b.drop_last(), project_id, dataset);
        assert((a + b).drop_last() =~= a + b.drop_last());
        assert((a + b).last() == b.last());
    }
}

/// An inline node's text appears escaped in its HTML: a node without marks renders
/// to exactly its escaped text.
pub proof fn lemma_unmarked_child(child: PtChild, defs: Seq<PtMarkDef>)
    requires
        child_marks(child).len() == 0,
    ensures
        child_html(child, defs) == escape_spec(child_text(child)),
{
}

} // verus!

verus! {

/// An image in a post's body and the post's main image that share an asset
/// reference are served from the same CDN URL: the body's `<img>` source is the URL
/// that `Post::main_image_url` gives.
pub proof fn lemma_body_image_matches_main_image(
    post: Post,
    block: PtBlock,
    project_id: Seq<char>,
    dataset: Seq<char>,
)
    requires
        block._type@ == "image"@,
        main_image_ref(post) is Some,
        block_image_ref(block) == main_image_ref(post),
    ensures
        block_html(block, project_id, dataset) == "<img src=\""@ + image_url(
            project_id,
            dataset,
            main_image_ref(post)->0,
        ) + "\" alt=\""@ + (match block.alt {
            Some(a) => a@,
            None => Seq::<char>::empty(),
        }) + "\" loading=\"lazy\" class=\"rounded-lg\" />"@,
{
    reveal_strlit("block");
    reveal_strlit("image");
    assert("block"@[0] != "image"@[0]);
    assert(block._type@ != "block"@);
}

} // verus!

verus! {

/// Rendering joined lists of inline nodes is joining their renderings.
pub proof fn lemma_children_html_concat(a: Seq<PtChild>, b: Seq<PtChild>, defs: Seq<PtMarkDef>)
    ensures
        children_html(a + b, defs) == children_html(a, defs) + children_html(b, defs),
    decreases b.len(),
{
    if b.len() == 0 {
        assert(a + b =~= a);
    } else {
        lemma_children_html_concat(a, b.drop_last(), defs);
        assert((a + b).drop_last() =~= a + b.drop_last());
        assert((a + b).last() == b.last());
    }
}

/// A node whose only mark is `link-{key}` becomes a link to the `href` of the first
/// definition carrying `key`.
pub proof fn lemma_link_child(child: PtChild, defs: Seq<PtMarkDef>, key: Seq<char>, j: int)
    requires
        child.text is Some,
        child.text->0@.len() > 0,
        child.marks is Some,
        child.marks->0@.len() == 1,
        child.marks->0@[0]@ == "link-"@ + key,
        0 <= j < defs.len(),
        defs[j]._key is Some,
        defs[j]._key->0@ == key,
        defs[j].href is Some,
        forall|k: int| 0 <= k < j ==> !(defs[k]._key is Some && defs[k]._key->0@ == key),
    ensures
        child_html(child, defs) == "<a href=\""@ + escape_spec(defs[j].href->0@) + "\">"@ + escape_spec(
            child.text->0@,
        ) + "</a>"@,
{
    reveal_strlit("link-");
    reveal_strlit("strong");
    reveal_strlit("em");
    reveal_strlit("underline");
    reveal_strlit("strike-through");
    reveal_strlit("code");
    let ms = child.marks->0@;
    let m = ms[0]@;
    let html = escape_spec(child.text->0@);
    assert(ms.drop_last() =~= Seq::<String>::empty());
    assert(apply_marks(html, ms.drop_last(), defs) == html);
    assert(m[0] == 'l');
    assert(m != "strong"@) by { assert("strong"@[0] == 's'); }
    assert(m != "em"@) by { assert("em"@[0] == 'e'); }
    assert(m != "underline"@) by { assert("underline"@[0] == 'u'); }
    assert(m != "strike-through"@) by { assert("strike-through"@[0] == 's'); }
    assert(m != "code"@) by { assert("code"@[0] == 'c'); }
    assert(m.take(5) =~= "link-"@);
    assert(has_prefix(m, "link-"@));
    assert(m.skip("link-"@.len() as int) =~= key);
    lemma_first_def_index(defs, key);
    let r = first_def_index(defs, key);
    assert(key_matches(defs[j], key));
    if r != j {
        if r < 0 {
            assert(!key_matches(defs[j], key));
        } else if r < j {
            assert(key_matches(defs[r], key));
        } else {
            assert(!key_matches(defs[j], key));
        }
    }
}

/// In a text block, a node marked `link-{key}` whose key is defined among the block's
/// own mark definitions with an `href` shows up as a link: the block's HTML contains
/// `<a href="{escaped href}">{escaped text}</a>`.
pub proof fn lemma_block_link_anchor(block: PtBlock, i: int, key: Seq<char>, j: int)
    requires
        block.children is Some,
        0 <= i < block.children->0@.len(),
        block.children->0@[i].text is Some,
        block.children->0@[i].text->0@.len() > 0,
        block.children->0@[i].marks is Some,
        block.children->0@[i].marks->0@.len() == 1,
        block.children->0@[i].marks->0@[0]@ == "link-"@ + key,
        block.mark_defs is Some,
        0 <= j < block.mark_defs->0@.len(),
        block.mark_defs->0@[j]._key is Some,
        block.mark_defs->0@[j]._key->0@ == key,
        block.mark_defs->0@[j].href is Some,
        forall|k: int|
            0 <= k < j ==> !(block.mark_defs->0@[k]._key is Some && block.mark_defs->0@[k]._key->0@ == key),
    ensures
        contains_seq(
            text_block_html(block),
            "<a href=\""@ + escape_spec(block.mark_defs->0@[j].href->0@) + "\">"@ + escape_spec(
                block.children->0@[i].text->0@,
            ) + "</a>"@,
        ),
{
    let cs = block.children->0@;
    let defs = block.mark_defs->0@;
    let c = cs[i];
    lemma_link_child(c, defs, key, j);
    let anchor = child_html(c, defs);
    let before = cs.take(i);
    let after = cs.skip(i + 1);
    assert(cs =~= before + (seq![c] + after));
    lemma_children_html_concat(before, seq![c] + after, defs);
    lemma_children_html_concat(seq![c], after, defs);
    assert(seq![c].drop_last() =~= Seq::<PtChild>::empty());
    assert(children_html(seq![c], defs) == anchor) by {
        reveal_with_fuel(children_html, 2);
        assert(seq![c].last() == c);
        assert(children_html(Seq::<PtChild>::empty(), defs) =~= Seq::<char>::empty());
        assert(children_html(seq![c], defs) =~= children_html(seq![c].drop_last(), defs) + anchor);
    }
    let mid = children_html(cs, defs);
    assert(mid == children_html(before, defs) + anchor + children_html(after, defs));
    let tag = style_tag(block.style);
    let prefix = "<"@ + tag + ">"@ + children_html(before, defs);
    let h = text_block_html(block);
    assert(h =~= prefix + anchor + (children_html(after, defs) + "</"@ + tag + ">"@));
    assert(h.subrange(prefix.len() as int, (prefix.len() + anchor.len()) as int) =~= anchor);
    assert(occurs_at(h, anchor, prefix.len() as int));
}

} // verus!

verus! {

/// A single block renders to that block's HTML.
pub proof fn lemma_render_single(block: PtBlock, project_id: Seq<char>, dataset: Seq<char>)
    ensures
        render_spec(seq![block], project_id, dataset) == block_html(block, project_id, dataset),
{
    reveal_with_fuel(render_spec, 2);
    assert(seq![block].drop_last() =~= Seq::<PtBlock>::empty());
    assert(render_spec(Seq::<PtBlock>::empty(), project_id, dataset) =~= Seq::<char>::empty());
    assert(render_spec(seq![block], project_id, dataset) =~= Seq::<char>::empty() + block_html(
        block,
        project_id,
        dataset,
    ));
}

/// Every block of a body is rendered, in order: the HTML of a list is the first
/// block's HTML followed by the HTML of the rest.
pub proof fn lemma_render_first(blocks: Seq<PtBlock>, project_id: Seq<char>, dataset: Seq<char>)
    requires
        blocks.len() > 0,
    ensures
        render_spec(blocks, project_id, dataset) == block_html(blocks[0], project_id, dataset) + render_spec(
            blocks.drop_first(),
            project_id,
            dataset,
        ),
{
    assert(blocks =~= seq![blocks[0]] + blocks.drop_first());
    lemma_render_concat(seq![blocks[0]], blocks.drop_first(), project_id, dataset);
    lemma_render_single(blocks[0], project_id, dataset);
}

/// Two blocks render to the first one's HTML followed by the second one's.
pub proof fn lemma_render_pair(a: PtBlock, b: PtBlock, project_id: Seq<char>, dataset: Seq<char>)
    ensures
        render_spec(seq![a, b], project_id, dataset) == block_html(a, project_id, dataset) + block_html(
            b,
            project_id,
            dataset,
        ),
{
    assert(seq![a, b] =~= seq![a] + seq![b]);
    lemma_render_concat(seq![a], seq![b], project_id, dataset);
    lemma_render_single(a, project_id, dataset);
    lemma_render_single(b, project_id, dataset);
}

} // verus!
