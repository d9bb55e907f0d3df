//! Emoji reaction endpoint.
use vstd::prelude::*;
use vstd::string::*;

use crate::text::{signed_decimal, i64_to_decimal, str_eq};

verus! {

/// Form fields of a reaction.
pub struct ReactParams {
    pub slug: String,
    pub emoji: String,
}

/// The emoji shown for a reaction name; a thumbs-up for unknown names.
pub open spec fn display_emoji_spec(emoji: Seq<char>) -> Seq<char> {
    if emoji == "fire"@ {
        "🔥"@
    } else if emoji == "heart"@ {
        "❤️"@
    } else if emoji == "rocket"@ {
        "🚀"@
    } else if emoji == "bulb"@ {
        "💡"@
    } else if emoji == "eyes"@ {
        "👀"@
    } else {
        "👍"@
    }
}

/// The emoji shown for a reaction name; a thumbs-up for unknown names.
pub fn display_emoji(emoji: &str) -> (r: &'static str)
    ensures
        r@ == display_emoji_spec(emoji@),
{
    if str_eq(emoji, "fire") {
        "🔥"
    } else if str_eq(emoji, "heart") {
        "❤️"
    } else if str_eq(emoji, "rocket") {
        "🚀"
    } else if str_eq(emoji, "bulb") {
        "💡"
    } else if str_eq(emoji, "eyes") {
        "👀"
    } else {
        "👍"
    }
}

/// The reaction button after a reaction, showing the new count.
pub open spec fn reaction_button_html(slug: Seq<char>, emoji: Seq<char>, count: int) -> Seq<char> {
    r#"<button class="reaction-btn" hx-post="/api/react" hx-vals='{"slug":""#@ + slug + r#"","emoji":""#@
        + emoji + r#""}' hx-target="this" hx-swap="outerHTML"><span class="reaction-emoji">"#@
        + display_emoji_spec(emoji) + r#"</span> <span class="reaction-count">"#@ + signed_decimal(count)
        + "</span></button>"@
}

/// Renders the updated reaction button that replaces the one that was pressed.
pub fn reaction_button(params: &ReactParams, new_count: i64) -> (html: String)
    ensures
        html@ == reaction_button_html(params.slug@, params.emoji@, new_count as int),
{
    let mut html = String::new();
    html.append(r#"<button class="reaction-btn" hx-post="/api/react" hx-vals='{"slug":""#);
    html.append(params.slug.as_str());
    html.append(r#"","emoji":""#);
    html.append(params.emoji.as_str());
    html.append(
        r#""}' hx-target="this" hx-swap="outerHTML"><span class="reaction-emoji">"#,
    );
    html.append(display_emoji(params.emoji.as_str()));
    html.append(r#"</span> <span class="reaction-count">"#);
    let count = i64_to_decimal(new_count);
    html.append(count.as_str());
    html.append("</span></button>");
    html
}

} // verus!
