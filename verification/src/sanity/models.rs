//! Data models for Sanity content.
//!
//! Each struct maps to a Sanity document type or nested structure.
use vstd::prelude::*;
use vstd::string::*;
use vstd::utf8::*;

use crate::text::{last_index_of, lemma_last_index_of, rfind, chars_of, substring};

verus! {

/// A published blog post.
#[derive(Debug, Clone)]
pub struct Post {
    pub title: String,
    pub slug: Slug,
    pub excerpt: Option<String>,
    /// Portable Text blocks — Sanity's structured rich text format.
    pub body: Option<Vec<PtBlock>>,
    pub tags: Option<Vec<TagRef>>,
    /// The publication time as an RFC 3339 timestamp.
    pub published_at: Option<String>,
    pub main_image: Option<MainImage>,
}

/// Sanity main image — an object with an asset reference.
#[derive(Debug, Clone)]
pub struct MainImage {
    pub asset: Option<PtAsset>,
}

/// Sanity slug — an object with a `current` field containing the URL-safe string.
#[derive(Debug, Clone)]
pub struct Slug {
    pub current: String,
}

/// Inline reference to a tag (resolved via GROQ `->` dereference).
#[derive(Debug, Clone)]
pub struct TagRef {
    pub title: String,
    pub slug: Slug,
}

/// Standalone tag document.
#[derive(Debug, Clone)]
pub struct Tag {
    pub title: String,
    pub slug: String,
    pub description: Option<String>,
}

/// Portable Text block — a single node in Sanity's rich text tree.
///
/// Block types: "block" (text), "image", or custom types.
/// Text blocks contain inline `children` with optional formatting `marks`.
#[derive(Debug, Clone)]
pub struct PtBlock {
    pub _type: String,
    pub style: Option<String>,
    pub children: Option<Vec<PtChild>>,
    pub mark_defs: Option<Vec<PtMarkDef>>,
    pub asset: Option<PtAsset>,
    pub alt: Option<String>,
}

/// Inline text node within a Portable Text block.
#[derive(Debug, Clone)]
pub struct PtChild {
    pub _type: String,
    pub text: Option<String>,
    /// Formatting marks: "strong", "em", "code", "underline", "link-{key}".
    pub marks: Option<Vec<String>>,
}

/// Mark definition — associates a mark key with data (e.g., a link's URL).
#[derive(Debug, Clone)]
pub struct PtMarkDef {
    pub _type: String,
    pub _key: Option<String>,
    pub href: Option<String>,
}

/// Reference to a Sanity-hosted asset (image, file).
#[derive(Debug, Clone)]
pub struct PtAsset {
    pub _ref: Option<String>,
}

/// Pagination parameters for post listing queries.
#[derive(Debug, Clone)]
pub struct PostQueryParams {
    pub page: u32,
    pub per_page: u32,
}

impl Default for PostQueryParams {
    /// The first page, ten posts per page.
    fn default() -> (r: Self)
        ensures
            r.page == 1,
            r.per_page == 10,
    {
        PostQueryParams { page: 1, per_page: 10 }
    }
}

impl Slug {
    /// The slug's display form: its `current` string.
    pub fn to_string(&self) -> (r: String)
        ensures
            r@ == self.current@,
    {
        self.current.clone()
    }
}

/// An asset reference can have its `image-` prefix cut off: byte 6 of its UTF-8
/// encoding exists and starts a character.
pub open spec fn ref_sliceable(reference: Seq<char>) -> bool {
    is_char_boundary(encode_utf8(reference), 6)
}

/// The characters that follow the first six bytes of the reference's UTF-8 encoding
/// (the reference with its `image-` prefix removed).
pub open spec fn asset_path(reference: Seq<char>) -> Seq<char> {
    decode_utf8(encode_utf8(reference).subrange(6, encode_utf8(reference).len() as int))
}

/// `{hash}-{dims}-{ext}` becomes `{hash}-{dims}.{ext}`: the last dash turns into a dot.
pub open spec fn dotted_extension(path: Seq<char>) -> Seq<char> {
    let k = last_index_of(path, '-');
    if k < 0 {
        path
    } else {
        path.take(k) + seq!['.'] + path.skip(k + 1)
    }
}

/// The Sanity CDN URL of an image asset reference.
pub open spec fn image_url(project_id: Seq<char>, dataset: Seq<char>, reference: Seq<char>) -> Seq<char> {
    "https://cdn.sanity.io/images/"@ + project_id + "/"@ + dataset + "/"@ + dotted_extension(asset_path(reference))
}

/// Builds the CDN URL of an image from its asset reference
/// (`image-{hash}-{dims}-{ext}` → `…/{hash}-{dims}.{ext}`).
pub fn cdn_image_url(reference: &str, project_id: &str, dataset: &str) -> (url: String)
    requires
        ref_sliceable(reference@),
    ensures
        url@ == image_url(project_id@, dataset@, reference@),
{
    let (_, path) = reference.split_at(6);
    proof {
        broadcast use encode_utf8_decode_utf8;
        assert(path@ == decode_utf8(encode_utf8(path@)));
    }
    let chars = chars_of(path);
    proof {
        lemma_last_index_of(chars@, '-');
    }
    let url_path = match rfind(&chars, '-') {
        Some(pos) => {
            let mut p = substring(&chars, 0, pos);
            p.append(".");
            let rest = substring(&chars, pos + 1, chars.len());
            p.append(rest.as_str());
            proof {
                reveal_strlit(".");
                assert(chars@.subrange(0, pos as int) =~= path@.take(pos as int));
                assert(chars@.subrange(pos + 1, chars@.len() as int) =~= path@.skip(pos + 1));
            }
            p
        },
        None => substring(&chars, 0, chars.len()),
    };
    proof {
        assert(chars@.subrange(0, chars@.len() as int) =~= path@);
    }
    let mut url = String::new();
    url.append("https://cdn.sanity.io/images/");
    url.append(project_id);
    url.append("/");
    url.append(dataset);
    url.append("/");
    url.append(url_path.as_str());
    url
}

/// The main image's asset reference, when the post has one.
pub open spec fn main_image_ref(post: Post) -> Option<Seq<char>> {
    match post.main_image {
        Some(img) => match img.asset {
            Some(asset) => match asset._ref {
                Some(r) => Some(r@),
                None => None,
            },
            None => None,
        },
        None => None,
    }
}

impl Post {
    /// Build a Sanity CDN URL from the main image's asset reference.
    /// Format: https://cdn.sanity.io/images/{project}/{dataset}/{ref}-{width}x{height}.{ext}
    pub fn main_image_url(&self, project_id: &str, dataset: &str) -> (r: Option<String>)
        requires
            main_image_ref(*self) matches Some(reference) ==> ref_sliceable(reference),
        ensures
            match main_image_ref(*self) {
                Some(reference) => r matches Some(url) && url@ == image_url(project_id@, dataset@, reference),
                None => r is None,
            },
    {
        let img = match &self.main_image {
            Some(img) => img,
            None => return None,
        };
        let asset = match &img.asset {
            Some(asset) => asset,
            None => return None,
        };
        let reference = match &asset._ref {
            Some(reference) => reference,
            None => return None,
        };
        Some(cdn_image_url(reference.as_str(), project_id, dataset))
    }
}

} // verus!
