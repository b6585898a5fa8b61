//! Recognising links to a post: `http(s)://<host>/profile/<account>/post/<record key>`.
use vstd::prelude::*;
use crate::text::same_text;

verus! {

/// The scheme and path segments of the absolute URL that `s` parses to
/// (no segments where the URL cannot be a base); `None` where `s` does
/// not parse as an absolute URL.
pub uninterp spec fn parsed_url(s: Seq<char>) -> Option<(Seq<char>, Seq<Seq<char>>)>;

/// Relies on `url::Url::parse`, `Url::scheme` and `Url::path_segments`:
/// the scheme and path segments of the parsed URL, an empty list of
/// segments standing for a URL that cannot be a base.
#[verifier::external_body]
fn parse_url_parts(s: &str) -> (r: Option<(String, Vec<String>)>)
    ensures
        r.deep_view() == parsed_url(s@),
{
    let url = url::Url::parse(s).ok()?;
    let segments: Vec<String> = url
        .path_segments()
        .map(|parts| parts.map(|part| part.to_string()).collect())
        .unwrap_or_default();
    Some((url.scheme().to_string(), segments))
}

/// The (account, record key) that a URL with this scheme and these path
/// segments points to, if it is a link to a post.
pub open spec fn post_ref_of(scheme: Seq<char>, segments: Seq<Seq<char>>) -> Option<
    (Seq<char>, Seq<char>),
> {
    if (scheme == "http"@ || scheme == "https"@) && segments.len() >= 4 && segments[0]
        == "profile"@ && segments[2] == "post"@ {
        Some((segments[1], segments[3]))
    } else {
        None
    }
}

/// The (account, record key) of the post that the text `s` links to, if any.
pub open spec fn post_ref(s: Seq<char>) -> Option<(Seq<char>, Seq<char>)> {
    match parsed_url(s) {
        Some(parts) => post_ref_of(parts.0, parts.1),
        None => None,
    }
}

/// The (account, record key) that a URL with this scheme and these path
/// segments points to, if it is a link to a post.
pub fn post_ref_from_parts(scheme: &str, segments: &Vec<String>) -> (r: Option<(String, String)>)
    ensures
        r.deep_view() == post_ref_of(scheme@, segments.deep_view()),
{
    if !same_text(scheme, "http") && !same_text(scheme, "https") {
        return None;
    }
    if segments.len() < 4 || !same_text(segments[0].as_str(), "profile") || !same_text(
        segments[2].as_str(),
        "post",
    ) {
        return None;
    }
    Some((segments[1].clone(), segments[3].clone()))
}

/// The (account, record key) of the post that `url_str` links to, if it is
/// an `http` or `https` URL whose path is `/profile/<account>/post/<key>`.
pub fn parse_bsky_post_url(url_str: &str) -> (r: Option<(String, String)>)
    ensures
        r.deep_view() == post_ref(url_str@),
{
    match parse_url_parts(url_str) {
        Some(parts) => post_ref_from_parts(parts.0.as_str(), &parts.1),
        None => None,
    }
}

} // verus!
