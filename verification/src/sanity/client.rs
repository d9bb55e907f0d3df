//! Sanity Content Lake query building.
//!
//! Sanity exposes a REST API at:
//!   GET https://{projectId}.api.sanity.io/v{version}/data/query/{dataset}?query={groq}
//!
//! This module builds that endpoint's URL and the GROQ queries that the blog sends;
//! sending them and decoding the replies happens over HTTP outside the library.
use vstd::prelude::*;
use vstd::string::*;

use crate::sanity::groq::{groq_escape, groq_escape_spec};
use crate::text::{decimal, u64_to_decimal};

verus! {

/// Connection settings for Sanity's Content Lake.
#[derive(Clone)]
pub struct SanityClient {
    project_id: String,
    dataset: String,
    api_version: String,
}

/// The first index of a page of posts (pages count from 1); the page's range holds
/// the indices from here up to, but not including, `page_end`.
pub open spec fn page_offset(page: nat, per_page: nat) -> nat {
    ((page - 1) * per_page) as nat
}

/// The first index after a page of posts.
pub open spec fn page_end(page: nat, per_page: nat) -> nat {
    page * per_page
}

/// The fields fetched for each post in a listing.
pub open spec fn listing_projection() -> Seq<char> {
    r#" {title, slug, excerpt, publishedAt, mainImage, tags[]->{title, slug}}"#@
}

impl SanityClient {
    pub closed spec fn project_id_view(&self) -> Seq<char> {
        self.project_id@
    }

    pub closed spec fn dataset_view(&self) -> Seq<char> {
        self.dataset@
    }

    pub closed spec fn api_version_view(&self) -> Seq<char> {
        self.api_version@
    }

    pub fn new(project_id: String, dataset: String, api_version: String) -> (r: Self)
        ensures
            r.project_id_view() == project_id@,
            r.dataset_view() == dataset@,
            r.api_version_view() == api_version@,
    {
        Self { project_id, dataset, api_version }
    }

    pub fn project_id(&self) -> (r: &str)
        ensures
            r@ == self.project_id_view(),
    {
        self.project_id.as_str()
    }

    pub fn dataset(&self) -> (r: &str)
        ensures
            r@ == self.dataset_view(),
    {
        self.dataset.as_str()
    }

    /// The query endpoint: `https://{project}.api.sanity.io/{version}/data/query/{dataset}`.
    pub fn query_url(&self) -> (url: String)
        ensures
            url@ == "https://"@ + self.project_id_view() + ".api.sanity.io/"@ + self.api_version_view()
                + "/data/query/"@ + self.dataset_view(),
    {
        let mut url = String::new();
        url.append("https://");
        url.append(self.project_id.as_str());
        url.append(".api.sanity.io/");
        url.append(self.api_version.as_str());
        url.append("/data/query/");
        url.append(self.dataset.as_str());
        url
    }

    /// Paginated posts ordered by publication date (newest first). The GROQ slice
    /// `[offset...end]` excludes its end, so a page holds at most `per_page` posts.
    pub fn get_posts_query(&self, page: u32, per_page: u32) -> (groq: String)
        requires
            page >= 1,
            page * per_page <= u32::MAX,
        ensures
            groq@ == r#"*[_type == "post"] | order(publishedAt desc)["#@ + decimal(
                page_offset(page as nat, per_page as nat),
            ) + "..."@ + decimal(page_end(page as nat, per_page as nat)) + "]"@ + listing_projection(),
    {
        assert((page - 1) * per_page <= page * per_page) by (nonlinear_arith)
            requires
                page >= 1,
        ;
        let offset: u32 = (page - 1) * per_page;
        let end: u32 = page * per_page;
        let mut groq = String::new();
        groq.append(r#"*[_type == "post"] | order(publishedAt desc)["#);
        let o = u64_to_decimal(offset as u64);
        groq.append(o.as_str());
        groq.append("...");
        let e = u64_to_decimal(end as u64);
        groq.append(e.as_str());
        groq.append("]");
        groq.append(r#" {title, slug, excerpt, publishedAt, mainImage, tags[]->{title, slug}}"#);
        groq
    }

    /// A single post by its slug, with its body.
    pub fn get_post_query(&self, slug: &str) -> (groq: String)
        ensures
            groq@ == r#"*[_type == "post" && slug.current == ""#@ + groq_escape_spec(slug@)
                + r#""][0] {title, slug, excerpt, body, publishedAt, mainImage, tags[]->{title, slug}}"#@,
    {
        let mut groq = String::new();
        groq.append(r#"*[_type == "post" && slug.current == ""#);
        let slug = groq_escape(slug);
        groq.append(slug.as_str());
        groq.append(
            r#""][0] {title, slug, excerpt, body, publishedAt, mainImage, tags[]->{title, slug}}"#,
        );
        groq
    }

    /// All posts tagged with the given tag slug, newest first.
    pub fn get_posts_by_tag_query(&self, tag: &str) -> (groq: String)
        ensures
            groq@ == r#"*[_type == "post" && ""#@ + groq_escape_spec(tag@)
                + r#"" in tags[]->slug.current] | order(publishedAt desc)"#@ + listing_projection(),
    {
        let mut groq = String::new();
        groq.append(r#"*[_type == "post" && ""#);
        let tag = groq_escape(tag);
        groq.append(tag.as_str());
        groq.append(r#"" in tags[]->slug.current] | order(publishedAt desc)"#);
        groq.append(r#" {title, slug, excerpt, publishedAt, mainImage, tags[]->{title, slug}}"#);
        groq
    }

    /// Full-text search across post titles and excerpts, newest first.
    pub fn search_posts_query(&self, query: &str) -> (groq: String)
        ensures
            groq@ == r#"*[_type == "post" && (title match ""#@ + groq_escape_spec(query@)
                + r#"*" || excerpt match ""#@ + groq_escape_spec(query@) + r#"*")] | order(publishedAt desc)"#@ + listing_projection(),
    {
        let mut groq = String::new();
        let query = groq_escape(query);
        groq.append(r#"*[_type == "post" && (title match ""#);
        groq.append(query.as_str());
        groq.append(r#"*" || excerpt match ""#);
        groq.append(query.as_str());
        groq.append(r#"*")] | order(publishedAt desc)"#);
        groq.append(r#" {title, slug, excerpt, publishedAt, mainImage, tags[]->{title, slug}}"#);
        groq
    }

    /// All tags ordered by title.
    pub fn get_tags_query(&self) -> (groq: &'static str)
        ensures
            groq@ == r#"*[_type == "tag"] | order(title asc) {title, "slug": slug.current, description}"#@,
    {
        r#"*[_type == "tag"] | order(title asc) {title, "slug": slug.current, description}"#
    }

    /// The number of published posts.
    pub fn count_posts_query(&self) -> (groq: &'static str)
        ensures
            groq@ == r#"count(*[_type == "post"])"#@,
    {
        r#"count(*[_type == "post"])"#
    }

    /// The number of posts under a tag.
    pub fn count_posts_by_tag_query(&self, tag: &str) -> (groq: String)
        ensures
            groq@ == r#"count(*[_type == "post" && ""#@ + groq_escape_spec(tag@) + r#"" in tags[]->slug.current])"#@,
    {
        let mut groq = String::new();
        groq.append(r#"count(*[_type == "post" && ""#);
        let tag = groq_escape(tag);
        groq.append(tag.as_str());
        groq.append(r#"" in tags[]->slug.current])"#);
        groq
    }
}

/// Consecutive pages adjoin without overlap: each page's range (its end excluded)
/// stops where the next one starts, and holds exactly `per_page` indices.
pub proof fn lemma_pages_adjoin(page: nat, per_page: nat)
    requires
        page >= 1,
    ensures
        page_end(page, per_page) == page_offset(page + 1, per_page),
        page_offset(page, per_page) + per_page == page_end(page, per_page),
{
    assert(page * per_page == ((page + 1) - 1) * per_page);
    assert((page - 1) * per_page + per_page == page * per_page) by (nonlinear_arith);
}

} // verus!
