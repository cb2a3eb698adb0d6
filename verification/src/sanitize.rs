//! HTML sanitisation for email body rendering.
//!
//! Email HTML is untrusted. Bodies are cleaned with ammonia's default
//! whitelist (scripts, event handlers, `javascript:` URLs and the like are
//! stripped), plus:
//! - `src` and `srcset` are removed from `<img>`, so tracking pixels never
//!   phone home when an email is opened;
//! - every `<a href>` that is not an in-page anchor is rewritten to the
//!   sentinel form `#inboxly-ext:<original-url>`, so the webview treats a
//!   click as an in-page anchor and never navigates away; the click
//!   handler recovers the URL with [`extract_ext_url`].

use std::borrow::Cow;

use vstd::prelude::*;
use vstd::string::StrSliceExecFns;

use crate::text::{chars_of, chars_start_with, is_prefix, owned, push_str, str_eq, strip_prefix_spec};

verus! {

/// Sentinel prefix injected into rewritten `<a href>` URLs.
pub const EXT_URL_SENTINEL: &'static str = "#inboxly-ext:";

/// How an attribute value is rewritten: an `<a href>` that does not start
/// with `#` gets the sentinel prefix; every other value is kept.
pub open spec fn rewritten(element: Seq<char>, attribute: Seq<char>, value: Seq<char>) -> Seq<char> {
    if element == "a"@ && attribute == "href"@ && !(value.len() > 0 && value[0] == '#') {
        "#inboxly-ext:"@ + value
    } else {
        value
    }
}

/// The attribute filter applied to every attribute ammonia keeps.
pub fn rewrite_attribute(element: &str, attribute: &str, value: &str) -> (r: Option<String>)
    ensures
        r matches Some(v) && v@ == rewritten(element@, attribute@, value@),
{
    let v = chars_of(value);
    if str_eq(element, "a") && str_eq(attribute, "href") {
        if v.len() > 0 && v[0] == '#' {
            return Some(owned(value));
        }
        let mut s = owned(EXT_URL_SENTINEL);
        push_str(&mut s, value);
        return Some(s);
    }
    Some(owned(value))
}

/// The text ammonia produces for `raw` with its default whitelist, the
/// attributes named in `removed` dropped from the element `tag`, and every
/// kept attribute passed through [`rewrite_attribute`].
pub uninterp spec fn ammonia_clean(raw: Seq<char>, tag: Seq<char>, removed: Seq<Seq<char>>) -> Seq<char>;

/// `ammonia::Builder::clean` on the default builder, with
/// `rm_tag_attributes(tag, removed)` and [`rewrite_attribute`] as its
/// attribute filter.
#[verifier::external_body]
fn clean_with_ammonia(raw: &str, tag: &str, removed: &[&str]) -> (r: String)
    ensures
        r@ == ammonia_clean(raw@, tag@, removed@.map_values(|a: &str| a@)),
{
    let mut builder = ammonia::Builder::default();
    builder.rm_tag_attributes(tag, removed);
    builder.attribute_filter(|element, attribute, value| {
        rewrite_attribute(element, attribute, value).map(Cow::Owned)
    });
    builder.clean(raw).to_string()
}

/// The sanitised text of an HTML body: image sources dropped, links
/// rewritten, everything else as ammonia's default whitelist leaves it.
pub open spec fn sanitized(raw: Seq<char>) -> Seq<char> {
    ammonia_clean(raw, "img"@, seq!["src"@, "srcset"@])
}

/// Sanitise an HTML email body for safe rendering.
pub fn sanitize_html(raw: &str) -> (r: String)
    ensures
        r@ == sanitized(raw@),
{
    let removed: [&str; 2] = ["src", "srcset"];
    proof {
        assert(removed@.map_values(|a: &str| a@) =~= seq!["src"@, "srcset"@]);
    }
    clean_with_ammonia(raw, "img", &removed)
}

/// Extract the real URL from a sentinel-prefixed href, or `None` if the
/// href doesn't have the sentinel form.
pub fn extract_ext_url(href: &str) -> (r: Option<&str>)
    ensures
        match r {
            Some(u) => strip_prefix_spec(href@, "#inboxly-ext:"@) == Some(u@),
            None => strip_prefix_spec(href@, "#inboxly-ext:"@) is None,
        },
{
    let v = chars_of(href);
    let p = chars_of(EXT_URL_SENTINEL);
    proof {
        reveal_strlit("#inboxly-ext:");
    }
    if chars_start_with(v.as_slice(), p.as_slice()) {
        let n = href.unicode_len();
        Some(href.substring_char(13, n))
    } else {
        None
    }
}

/// A rewritten link hands back exactly its original URL to the click
/// handler; an in-page anchor is left alone and is not taken for one.
pub proof fn law_sentinel_round_trip(value: Seq<char>)
    ensures
        !(value.len() > 0 && value[0] == '#') ==> strip_prefix_spec(
            rewritten("a"@, "href"@, value),
            "#inboxly-ext:"@,
        ) == Some(value),
        (value.len() > 0 && value[0] == '#') ==> rewritten("a"@, "href"@, value) == value,
{
    reveal_strlit("#inboxly-ext:");
    let s = "#inboxly-ext:"@ + value;
    assert(s.subrange(0, 13) =~= "#inboxly-ext:"@);
    assert(s.subrange(13, s.len() as int) =~= value);
}

} // verus!
