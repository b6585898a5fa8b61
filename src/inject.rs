//! Building meta tags and splicing them into the page at fixed anchors.
use vstd::prelude::*;
use crate::text::{
    chars_of, contains, contains_seq, occurs_at, replace_first, replace_first_occurrence,
    starts_with,
};

verus! {

/// The anchor after which the robots tag goes.
pub const META_CHARSET_LINE: &'static str = "<meta charset=\"UTF-8\">";

/// The anchor after which the Open Graph tags go.
pub const TITLE_CLOSE: &'static str = "</title>";

/// The tag that keeps pages with a query string out of search indexes.
pub const ROBOTS_TAG: &'static str = "<meta name=\"robots\" content=\"noindex, nofollow\">";

/// What stands between an anchor and the robots tag put after it.
pub const ROBOTS_INDENT: &'static str = "\n  ";

/// What stands between the title anchor and the tags put after it, and
/// between two such tags.
pub const NEWLINE: &'static str = "\n";

/// The start of an `og:title` tag, up to its content.
pub const OG_TITLE_OPEN: &'static str = "  <meta property=\"og:title\" content=\"";

/// The start of an `og:description` tag, up to its content.
pub const OG_DESCRIPTION_OPEN: &'static str = "  <meta property=\"og:description\" content=\"";

/// The end of a meta tag, after its content.
pub const TAG_CLOSE: &'static str = "\">";

/// The title of a post's preview, before the author's handle.
pub const POST_TITLE_PREFIX: &'static str = "Skythread \u{e2}\u{20ac}\u{a2} Post by @";

/// The user-agent prefix that every common browser sends.
pub const BROWSER_PREFIX: &'static str = "Mozilla/5.0";

/// A post as the remote service returns it: its author's handle and its text.
pub struct PostView {
    pub handle: String,
    pub text: String,
}

/// What one character becomes inside a double-quoted attribute value.
pub open spec fn escape_char(c: char) -> Seq<char> {
    if c == '&' {
        seq!['&', 'a', 'm', 'p', ';']
    } else if c == '"' {
        seq!['&', 'q', 'u', 'o', 't', ';']
    } else if c == '<' {
        seq!['&', 'l', 't', ';']
    } else if c == '>' {
        seq!['&', 'g', 't', ';']
    } else {
        seq![c]
    }
}

/// `s` escaped for a double-quoted attribute value, character by character.
pub open spec fn escape_seq(s: Seq<char>) -> Seq<char>
    decreases s.len(),
{
    if s.len() == 0 {
        Seq::empty()
    } else {
        escape_seq(s.drop_last()) + escape_char(s.last())
    }
}

/// `s` with each line feed and carriage return turned into a space.
pub open spec fn normalize_seq(s: Seq<char>) -> Seq<char> {
    s.map_values(|c: char| if c == '\n' || c == '\r' { ' ' } else { c })
}

/// Whether a user agent looks like an ordinary browser rather than a
/// link-preview crawler (crawlers tend to name a contact URL).
pub open spec fn is_browser_agent(ua: Seq<char>) -> bool {
    occurs_at(ua, BROWSER_PREFIX@, 0) && !contains_seq(ua, "http:"@) && !contains_seq(ua, "https:"@)
        && !contains_seq(ua, "mailto:"@)
}

/// The page with the robots tag put after the charset anchor.
pub open spec fn with_robots(html: Seq<char>) -> Seq<char> {
    replace_first(html, META_CHARSET_LINE@, META_CHARSET_LINE@ + ROBOTS_INDENT@ + ROBOTS_TAG@)
}

/// The page with `meta` put on its own line after the title anchor.
pub open spec fn with_meta_after_title(html: Seq<char>, meta: Seq<char>) -> Seq<char> {
    replace_first(html, TITLE_CLOSE@, TITLE_CLOSE@ + NEWLINE@ + meta)
}

/// An `og:title` tag whose content is `text`, escaped.
pub open spec fn og_title_tag(text: Seq<char>) -> Seq<char> {
    OG_TITLE_OPEN@ + escape_seq(text) + TAG_CLOSE@
}

/// An `og:description` tag whose content is `text`, escaped.
pub open spec fn og_description_tag(text: Seq<char>) -> Seq<char> {
    OG_DESCRIPTION_OPEN@ + escape_seq(text) + TAG_CLOSE@
}

/// The two tags that describe a post: its title, naming the author, and
/// its text on one line.
pub open spec fn post_meta(handle: Seq<char>, text: Seq<char>) -> Seq<char> {
    og_title_tag(POST_TITLE_PREFIX@ + handle) + NEWLINE@ + og_description_tag(normalize_seq(text))
}

/// Escapes `&`, `"`, `<` and `>` for a double-quoted attribute value.
pub fn escape_html_attr(text: &str) -> (r: String)
    ensures
        r@ == escape_seq(text@),
{
    let cs = chars_of(text);
    let mut r = String::new();
    let mut i: usize = 0;
    while i < cs.len()
        invariant
            i <= cs.len(),
            cs@ == text@,
            r@ == escape_seq(cs@.subrange(0, i as int)),
        decreases cs.len() - i,
    {
        let c = cs[i];
        proof {
            reveal_strlit("&amp;");
            reveal_strlit("&quot;");
            reveal_strlit("&lt;");
            reveal_strlit("&gt;");
        }
        if c == '&' {
            r.append("&amp;");
        } else if c == '"' {
            r.append("&quot;");
        } else if c == '<' {
            r.append("&lt;");
        } else if c == '>' {
            r.append("&gt;");
        } else {
            r.push(c);
        }
        assert(cs@.subrange(0, i + 1).drop_last() =~= cs@.subrange(0, i as int));
        assert(r@ =~= escape_seq(cs@.subrange(0, i + 1)));
        i = i + 1;
    }
    assert(cs@.subrange(0, cs.len() as int) =~= cs@);
    r
}

/// Turns each line feed and carriage return into a space, so that
/// multi-line text reads as one line.
pub fn normalize_text(text: &str) -> (r: String)
    ensures
        r@ == normalize_seq(text@),
{
    let cs = chars_of(text);
    let mut r = String::new();
    let mut i: usize = 0;
    while i < cs.len()
        invariant
            i <= cs.len(),
            cs@ == text@,
            r@ =~= normalize_seq(cs@.subrange(0, i as int)),
        decreases cs.len() - i,
    {
        let c = cs[i];
        if c == '\n' || c == '\r' {
            r.push(' ');
        } else {
            r.push(c);
        }
        i = i + 1;
    }
    assert(cs@.subrange(0, cs.len() as int) =~= cs@);
    r
}

/// Whether the user agent looks like an ordinary browser: it starts with
/// `Mozilla/5.0` and names no `http:`, `https:` or `mailto:` address.
pub fn is_likely_normal_browser(user_agent: &str) -> (r: bool)
    ensures
        r == is_browser_agent(user_agent@),
{
    starts_with(user_agent, BROWSER_PREFIX) && !contains(user_agent, "http:") && !contains(
        user_agent,
        "https:",
    ) && !contains(user_agent, "mailto:")
}

/// Puts the robots tag on its own line after the first charset anchor;
/// the page is unchanged where the anchor does not occur.
pub fn add_meta_robots(html: &str) -> (r: String)
    ensures
        r@ == with_robots(html@),
{
    let mut insert = META_CHARSET_LINE.to_string();
    insert.append(ROBOTS_INDENT);
    insert.append(ROBOTS_TAG);
    replace_first_occurrence(html, META_CHARSET_LINE, insert.as_str())
}

/// Puts `meta` on its own line after the first title anchor; the page is
/// unchanged where the anchor does not occur.
pub fn add_meta_after_title(html: &str, meta: &str) -> (r: String)
    ensures
        r@ == with_meta_after_title(html@, meta@),
{
    let mut insert = TITLE_CLOSE.to_string();
    insert.append(NEWLINE);
    insert.append(meta);
    replace_first_occurrence(html, TITLE_CLOSE, insert.as_str())
}

/// An `og:title` tag whose content is `text`, escaped.
pub fn og_title(text: &str) -> (r: String)
    ensures
        r@ == og_title_tag(text@),
{
    let mut r = OG_TITLE_OPEN.to_string();
    let escaped = escape_html_attr(text);
    r.append(escaped.as_str());
    r.append(TAG_CLOSE);
    r
}

/// An `og:description` tag whose content is `text`, escaped.
pub fn og_description(text: &str) -> (r: String)
    ensures
        r@ == og_description_tag(text@),
{
    let mut r = OG_DESCRIPTION_OPEN.to_string();
    let escaped = escape_html_attr(text);
    r.append(escaped.as_str());
    r.append(TAG_CLOSE);
    r
}

/// Puts a post's title and description tags, in that order, after the
/// title anchor.
pub fn add_post_meta(html: &str, post: &PostView) -> (r: String)
    ensures
        r@ == with_meta_after_title(html@, post_meta(post.handle@, post.text@)),
{
    let mut title = POST_TITLE_PREFIX.to_string();
    title.append(post.handle.as_str());
    let mut meta = og_title(title.as_str());
    meta.append(NEWLINE);
    let text = normalize_text(post.text.as_str());
    let description = og_description(text.as_str());
    meta.append(description.as_str());
    add_meta_after_title(html, meta.as_str())
}

} // verus!
