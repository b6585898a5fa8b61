//! Laws that relate the library's functions, proved over their models.
use vstd::prelude::*;
use crate::handler::{
    finished_page, hashtag_description, page_description_of, plan_for_request, quotes_description,
    serve, PlanModel, STATUS_NOT_FOUND,
};
use crate::query::{form_pairs, last_value};
use crate::inject::{
    escape_char, escape_seq, is_browser_agent, og_description_tag, og_title_tag, post_meta,
    with_meta_after_title, with_robots, PostView, META_CHARSET_LINE, NEWLINE, OG_DESCRIPTION_OPEN,
    OG_TITLE_OPEN, ROBOTS_INDENT, ROBOTS_TAG, TAG_CLOSE, TITLE_CLOSE,
};
use crate::text::{contains_seq, first_match, lemma_find_from, occurs_at};

verus! {

/// Whether an escaped character entity (`&amp;`, `&quot;`, `&lt;` or
/// `&gt;`) starts at position `i` of `s`.
pub open spec fn entity_at(s: Seq<char>, i: int) -> bool {
    occurs_at(s, seq!['&', 'a', 'm', 'p', ';'], i) || occurs_at(
        s,
        seq!['&', 'q', 'u', 'o', 't', ';'],
        i,
    ) || occurs_at(s, seq!['&', 'l', 't', ';'], i) || occurs_at(s, seq!['&', 'g', 't', ';'], i)
}

/// Whether `s` may stand inside a double-quoted attribute value as it is:
/// it holds no `<`, `>` or `"`, and each `&` starts an entity.
pub open spec fn attribute_safe(s: Seq<char>) -> bool {
    forall|i: int|
        0 <= i < s.len() ==> s[i] != '<' && s[i] != '>' && s[i] != '"' && (s[i] == '&'
            ==> entity_at(s, i))
}

/// What one character becomes may stand inside an attribute value.
proof fn lemma_escape_char_safe(c: char)
    ensures
        attribute_safe(escape_char(c)),
{
    let e = escape_char(c);
    assert forall|i: int| 0 <= i < e.len() && e[i] == '&' implies entity_at(e, i) by {
        assert(i == 0);
        assert(e.subrange(0, e.len() as int) =~= e);
    }
}

/// An occurrence in a part of a sequence is one in the whole.
proof fn lemma_occurs_in_concat(a: Seq<char>, b: Seq<char>, p: Seq<char>, i: int)
    ensures
        occurs_at(a, p, i) ==> occurs_at(a + b, p, i),
        occurs_at(b, p, i) ==> occurs_at(a + b, p, a.len() + i),
{
    if occurs_at(a, p, i) {
        assert((a + b).subrange(i, i + p.len()) =~= a.subrange(i, i + p.len()));
    }
    if occurs_at(b, p, i) {
        assert((a + b).subrange(a.len() + i, a.len() + i + p.len()) =~= b.subrange(
            i,
            i + p.len(),
        ));
    }
}

/// Escaped text may stand inside a double-quoted attribute value: it holds
/// no `<`, `>` or `"`, and each `&` in it starts an entity.
pub proof fn law_escape_is_attribute_safe(s: Seq<char>)
    ensures
        attribute_safe(escape_seq(s)),
    decreases s.len(),
{
    if s.len() > 0 {
        let a = escape_seq(s.drop_last());
        let b = escape_char(s.last());
        law_escape_is_attribute_safe(s.drop_last());
        lemma_escape_char_safe(s.last());
        assert(escape_seq(s) == a + b);
        assert forall|i: int| 0 <= i < (a + b).len() && (a + b)[i] == '&' implies entity_at(
            a + b,
            i,
        ) by {
            if i < a.len() {
                assert(entity_at(a, i));
                lemma_occurs_in_concat(a, b, seq!['&', 'a', 'm', 'p', ';'], i);
                lemma_occurs_in_concat(a, b, seq!['&', 'q', 'u', 'o', 't', ';'], i);
                lemma_occurs_in_concat(a, b, seq!['&', 'l', 't', ';'], i);
                lemma_occurs_in_concat(a, b, seq!['&', 'g', 't', ';'], i);
            } else {
                let j = i - a.len();
                assert(b[j] == '&');
                assert(entity_at(b, j));
                lemma_occurs_in_concat(a, b, seq!['&', 'a', 'm', 'p', ';'], j);
                lemma_occurs_in_concat(a, b, seq!['&', 'q', 'u', 'o', 't', ';'], j);
                lemma_occurs_in_concat(a, b, seq!['&', 'l', 't', ';'], j);
                lemma_occurs_in_concat(a, b, seq!['&', 'g', 't', ';'], j);
            }
        }
        assert forall|i: int| 0 <= i < (a + b).len() implies (a + b)[i] != '<' && (a + b)[i]
            != '>' && (a + b)[i] != '"' by {
            if i >= a.len() {
                assert((a + b)[i] == b[i - a.len()]);
            }
        }
    }
}

/// The characters of the robots tag and of what precedes it.
proof fn lemma_robots_chars()
    ensures
        ROBOTS_TAG@.len() > 1,
        ROBOTS_TAG@[0] == '<',
        forall|k: int| 0 < k < ROBOTS_TAG@.len() ==> ROBOTS_TAG@[k] != '<',
        ROBOTS_TAG@[ROBOTS_TAG@.len() - 1] == '>',
        ROBOTS_INDENT@ == seq!['\n', ' ', ' '],
{
    reveal_strlit("<meta name=\"robots\" content=\"noindex, nofollow\">");
    reveal_strlit("\n  ");
    assert(ROBOTS_INDENT@ =~= seq!['\n', ' ', ' ']);
}

/// Whether `page` holds the robots tag exactly once, right after a charset
/// anchor and the line break that follows it.
pub open spec fn robots_once_after_charset(page: Seq<char>) -> bool {
    exists|p: int|
        #![trigger occurs_at(page, META_CHARSET_LINE@ + ROBOTS_INDENT@ + ROBOTS_TAG@, p)]
        occurs_at(page, META_CHARSET_LINE@ + ROBOTS_INDENT@ + ROBOTS_TAG@, p) && forall|j: int|
            j != p + META_CHARSET_LINE@.len() + ROBOTS_INDENT@.len() ==> !occurs_at(
                page,
                ROBOTS_TAG@,
                j,
            )
}

/// Where the page holds the charset anchor and no robots tag, putting the
/// robots tag in leaves exactly one, right after the first anchor and its
/// line break.
pub proof fn law_robots_tag_once_after_charset(template: Seq<char>)
    requires
        contains_seq(template, META_CHARSET_LINE@),
        !contains_seq(template, ROBOTS_TAG@),
    ensures
        robots_once_after_charset(with_robots(template)),
{
    let c = META_CHARSET_LINE@;
    let ind = ROBOTS_INDENT@;
    let tag = ROBOTS_TAG@;
    lemma_robots_chars();
    lemma_find_from(template, c, 0);
    let i = first_match(template, c)->0;
    assert(occurs_at(template, c, i));
    let pre = template.subrange(0, i + c.len());
    let post = template.subrange(i + c.len(), template.len() as int);
    let r = with_robots(template);
    assert(template.subrange(0, i) + c == pre);
    assert(r =~= pre + ind + tag + post);
    let p0: int = (pre.len() + ind.len()) as int;
    assert(r.subrange(p0, p0 + tag.len()) =~= tag);
    assert(r.subrange(i, i + (c + ind + tag).len()) =~= c + ind + tag);
    assert forall|j: int| j != p0 implies !occurs_at(r, tag, j) by {
        if occurs_at(r, tag, j) {
            let n: int = tag.len() as int;
            assert(r.subrange(j, j + n)[0] == r[j]);
            if j + n <= pre.len() {
                assert(template.subrange(j, j + n) =~= r.subrange(j, j + n));
                assert(occurs_at(template, tag, j));
            } else if j >= p0 + n {
                let k = j - (p0 + n) + i + c.len();
                assert(template.subrange(k, k + n) =~= r.subrange(j, j + n));
                assert(occurs_at(template, tag, k));
            } else if j > p0 {
                assert(r.subrange(j, j + n)[0] == tag[0]);
                assert(r[j] == tag[j - p0]);
            } else if j + n > p0 {
                assert(r.subrange(j, j + n)[p0 - j] == r[p0]);
                assert(r[p0] == tag[0]);
            } else {
                assert(r.subrange(j, j + n)[n - 1] == r[j + n - 1]);
                assert(r[j + n - 1] == ind[j + n - 1 - pre.len()]);
            }
        }
    }
    assert(occurs_at(r, c + ind + tag, i));
}

/// Occurrences of a pattern away from the point where `y` is put into `h`
/// are those of `h`, shifted by the length of `y` past that point.
proof fn lemma_insert_occurrences(h: Seq<char>, q: int, y: Seq<char>, w: Seq<char>)
    requires
        0 <= q <= h.len(),
    ensures
        forall|p: int|
            #![trigger occurs_at(h, w, p)]
            occurs_at(h, w, p) && p + w.len() <= q ==> occurs_at(
                h.subrange(0, q) + y + h.subrange(q, h.len() as int),
                w,
                p,
            ),
        forall|p: int|
            #![trigger occurs_at(h, w, p)]
            occurs_at(h, w, p) && p >= q ==> occurs_at(
                h.subrange(0, q) + y + h.subrange(q, h.len() as int),
                w,
                p + y.len(),
            ),
        forall|j: int|
            #![trigger occurs_at(h.subrange(0, q) + y + h.subrange(q, h.len() as int), w, j)]
            occurs_at(h.subrange(0, q) + y + h.subrange(q, h.len() as int), w, j) && j + w.len()
                <= q ==> occurs_at(h, w, j),
        forall|j: int|
            #![trigger occurs_at(h.subrange(0, q) + y + h.subrange(q, h.len() as int), w, j)]
            occurs_at(h.subrange(0, q) + y + h.subrange(q, h.len() as int), w, j) && j >= q
                + y.len() ==> occurs_at(h, w, j - y.len()),
{
    let r = h.subrange(0, q) + y + h.subrange(q, h.len() as int);
    assert forall|p: int| occurs_at(h, w, p) && p + w.len() <= q implies occurs_at(r, w, p) by {
        assert(r.subrange(p, p + w.len()) =~= h.subrange(p, p + w.len()));
    }
    assert forall|p: int| occurs_at(h, w, p) && p >= q implies occurs_at(r, w, p + y.len()) by {
        assert(r.subrange(p + y.len(), p + y.len() + w.len()) =~= h.subrange(p, p + w.len()));
    }
    assert forall|j: int| occurs_at(r, w, j) && j + w.len() <= q implies occurs_at(h, w, j) by {
        assert(r.subrange(j, j + w.len()) =~= h.subrange(j, j + w.len()));
    }
    assert forall|j: int| occurs_at(r, w, j) && j >= q + y.len() implies occurs_at(
        h,
        w,
        j - y.len(),
    ) by {
        assert(r.subrange(j, j + w.len()) =~= h.subrange(j - y.len(), j - y.len() + w.len()));
    }
}

/// The robots tag holds no line break, and `n` where `name` starts.
proof fn lemma_robots_tag_line_free()
    ensures
        ROBOTS_TAG@.len() > 6,
        ROBOTS_TAG@[0] == '<',
        ROBOTS_TAG@[6] == 'n',
        forall|k: int| 0 <= k < ROBOTS_TAG@.len() ==> ROBOTS_TAG@[k] != '\n',
{
    reveal_strlit("<meta name=\"robots\" content=\"noindex, nofollow\">");
}

/// The characters of the anchors that matter where the two insertions
/// could meet.
proof fn lemma_anchor_chars()
    ensures
        META_CHARSET_LINE@.len() == 22,
        META_CHARSET_LINE@[14] == '"',
        forall|x: int|
            0 <= x < (META_CHARSET_LINE@ + ROBOTS_INDENT@ + ROBOTS_TAG@).len() - 1 && (
            META_CHARSET_LINE@ + ROBOTS_INDENT@ + ROBOTS_TAG@)[x] == '>' ==> x == 21,
        TITLE_CLOSE@.len() == 8,
        TITLE_CLOSE@[0] == '<',
        TITLE_CLOSE@[7] == '>',
        NEWLINE@ == seq!['\n'],
{
    reveal_strlit("<meta charset=\"UTF-8\">");
    reveal_strlit("\n  ");
    reveal_strlit("<meta name=\"robots\" content=\"noindex, nofollow\">");
    reveal_strlit("</title>");
    reveal_strlit("\n");
    assert(NEWLINE@ =~= seq!['\n']);
}

/// Whether no occurrence of the robots tag can start inside `m`: each `<`
/// in it is followed, where the robots tag has the `n` of `name`, by
/// something else.
pub open spec fn opens_no_robots_tag(m: Seq<char>) -> bool {
    forall|k: int| 0 <= k < m.len() && #[trigger] m[k] == '<' ==> k + 6 < m.len() && m[k + 6] != 'n'
}

/// Putting a fragment that opens no robots tag after the title anchor
/// keeps the single robots tag after the charset anchor.
proof fn lemma_title_insert_keeps_robots(h: Seq<char>, m: Seq<char>)
    requires
        robots_once_after_charset(h),
        opens_no_robots_tag(m),
    ensures
        robots_once_after_charset(with_meta_after_title(h, m)),
{
    let t = TITLE_CLOSE@;
    let c = META_CHARSET_LINE@;
    let ind = ROBOTS_INDENT@;
    let tag = ROBOTS_TAG@;
    let w = c + ind + tag;
    lemma_robots_tag_line_free();
    lemma_anchor_chars();
    lemma_find_from(h, t, 0);
    if let Some(k) = first_match(h, t) {
        assert(occurs_at(h, t, k));
        let q = k + t.len();
        let y = NEWLINE@ + m;
        let res = with_meta_after_title(h, m);
        assert(h.subrange(0, k) + t =~= h.subrange(0, q)) by {
            assert(h.subrange(k, q) == t);
        }
        assert(res =~= h.subrange(0, q) + y + h.subrange(q, h.len() as int));
        let p = choose|p: int|
            #![trigger occurs_at(h, w, p)]
            occurs_at(h, w, p) && forall|j: int|
                j != p + c.len() + ind.len() ==> !occurs_at(h, tag, j);
        lemma_insert_occurrences(h, q, y, w);
        lemma_insert_occurrences(h, q, y, tag);
        assert(p + w.len() <= q || p >= q) by {
            if p < q && q < p + w.len() {
                assert(h.subrange(p, p + w.len())[q - 1 - p] == h[q - 1]);
                assert(h.subrange(k, q)[7] == h[q - 1]);
                assert(h.subrange(p, p + w.len())[q - 8 - p] == h[q - 8]);
                assert(h.subrange(k, q)[0] == h[q - 8]);
            }
        }
        let p2 = if p >= q {
            p + y.len()
        } else {
            p
        };
        assert(occurs_at(res, w, p2));
        assert forall|j: int| j != p2 + c.len() + ind.len() implies !occurs_at(res, tag, j) by {
            if occurs_at(res, tag, j) {
                let n: int = tag.len() as int;
                if j + n <= q {
                    assert(occurs_at(h, tag, j));
                } else if j >= q + y.len() {
                    assert(occurs_at(h, tag, j - y.len()));
                } else if j <= q {
                    assert(res.subrange(j, j + n)[q - j] == res[q]);
                    assert(res[q] == y[0]);
                } else {
                    assert(res.subrange(j, j + n)[0] == res[j]);
                    assert(res[j] == m[j - q - 1]);
                    assert(res.subrange(j, j + n)[6] == res[j + 6]);
                    assert(res[j + 6] == m[j - q + 5]);
                }
            }
        }
    }
}

/// Two fragments that open no robots tag, joined, open none.
proof fn lemma_opens_no_robots_concat(a: Seq<char>, b: Seq<char>)
    requires
        opens_no_robots_tag(a),
        opens_no_robots_tag(b),
    ensures
        opens_no_robots_tag(a + b),
{
    assert forall|k: int| 0 <= k < (a + b).len() && #[trigger] (a + b)[k] == '<' implies k + 6 < (
    a + b).len() && (a + b)[k + 6] != 'n' by {
        if k >= a.len() {
            assert(b[k - a.len()] == '<');
        } else {
            assert(a[k] == '<');
        }
    }
}

/// The fixed parts of the Open Graph tags open no robots tag.
proof fn lemma_tag_parts_open_no_robots()
    ensures
        opens_no_robots_tag(OG_TITLE_OPEN@),
        opens_no_robots_tag(OG_DESCRIPTION_OPEN@),
        opens_no_robots_tag(TAG_CLOSE@),
        opens_no_robots_tag(NEWLINE@),
{
    reveal_strlit("  <meta property=\"og:title\" content=\"");
    reveal_strlit("  <meta property=\"og:description\" content=\"");
    reveal_strlit("\">");
    reveal_strlit("\n");
}

/// Escaped text opens no tag at all.
proof fn lemma_escaped_opens_no_robots(s: Seq<char>)
    ensures
        opens_no_robots_tag(escape_seq(s)),
{
    law_escape_is_attribute_safe(s);
    let e = escape_seq(s);
    assert forall|k: int| 0 <= k < e.len() && #[trigger] e[k] == '<' implies k + 6 < e.len()
        && e[k + 6] != 'n' by {
        assert(e[k] != '<');
    }
}

/// An `og:description` tag opens no robots tag.
proof fn lemma_description_tag_safe(text: Seq<char>)
    ensures
        opens_no_robots_tag(og_description_tag(text)),
{
    lemma_tag_parts_open_no_robots();
    lemma_escaped_opens_no_robots(text);
    lemma_opens_no_robots_concat(OG_DESCRIPTION_OPEN@, escape_seq(text));
    lemma_opens_no_robots_concat(OG_DESCRIPTION_OPEN@ + escape_seq(text), TAG_CLOSE@);
}

/// The tags of a post open no robots tag.
proof fn lemma_post_meta_safe(handle: Seq<char>, text: Seq<char>)
    ensures
        opens_no_robots_tag(post_meta(handle, text)),
{
    let title = crate::inject::POST_TITLE_PREFIX@ + handle;
    lemma_tag_parts_open_no_robots();
    lemma_escaped_opens_no_robots(title);
    lemma_opens_no_robots_concat(OG_TITLE_OPEN@, escape_seq(title));
    lemma_opens_no_robots_concat(OG_TITLE_OPEN@ + escape_seq(title), TAG_CLOSE@);
    lemma_opens_no_robots_concat(og_title_tag(title), NEWLINE@);
    lemma_description_tag_safe(crate::inject::normalize_seq(text));
    lemma_opens_no_robots_concat(
        og_title_tag(title) + NEWLINE@,
        og_description_tag(crate::inject::normalize_seq(text)),
    );
}

/// Where the template holds the charset anchor and no robots tag, every
/// page served for `GET /` with a query string holds the robots tag exactly
/// once, right after the charset anchor: whether it is served at once or
/// after a post lookup, whatever the lookup found.
pub proof fn law_query_page_has_robots_once(
    template: Seq<char>,
    query: Seq<char>,
    user_agent: Seq<char>,
    post: Option<PostView>,
)
    requires
        contains_seq(template, META_CHARSET_LINE@),
        !contains_seq(template, ROBOTS_TAG@),
    ensures
        match plan_for_request(template, "GET"@, "/"@, Some(query), user_agent) {
            PlanModel::Respond(_, body) => robots_once_after_charset(body),
            PlanModel::Fetch(html, _, _, purpose) => robots_once_after_charset(
                finished_page(html, purpose, post),
            ),
        },
{
    law_robots_tag_once_after_charset(template);
    let h = with_robots(template);
    let pairs = form_pairs(query);
    if let Some(tag) = last_value(pairs, "hash"@) {
        lemma_description_tag_safe(hashtag_description(tag));
        lemma_title_insert_keeps_robots(h, og_description_tag(hashtag_description(tag)));
    }
    if let Some(page) = last_value(pairs, "page"@) {
        if let Some(d) = page_description_of(page, last_value(pairs, "mode"@)) {
            lemma_description_tag_safe(d);
            lemma_title_insert_keeps_robots(h, og_description_tag(d));
        }
    }
    if let Some(p) = post {
        lemma_post_meta_safe(p.handle@, p.text@);
        lemma_title_insert_keeps_robots(h, post_meta(p.handle@, p.text@));
        lemma_description_tag_safe(quotes_description(p.text@));
        lemma_title_insert_keeps_robots(h, og_description_tag(quotes_description(p.text@)));
    }
}

/// A request without a query string gets the template as it is.
pub proof fn law_no_query_serves_template(template: Seq<char>, user_agent: Seq<char>)
    ensures
        plan_for_request(template, "GET"@, "/"@, None, user_agent) == serve(template),
{
}

/// A browser's request with a query string gets the page with the robots
/// tag and nothing more, with no remote lookup.
pub proof fn law_browser_gets_robots_only(
    template: Seq<char>,
    query: Seq<char>,
    user_agent: Seq<char>,
)
    requires
        is_browser_agent(user_agent),
    ensures
        plan_for_request(template, "GET"@, "/"@, Some(query), user_agent) == serve(
            with_robots(template),
        ),
{
}

/// Any method but `GET` and any path but `/` get an empty "not found"
/// response, whatever the query and the user agent.
pub proof fn law_other_requests_not_found(
    template: Seq<char>,
    method: Seq<char>,
    path: Seq<char>,
    query: Option<Seq<char>>,
    user_agent: Seq<char>,
)
    requires
        method != "GET"@ || path != "/"@,
    ensures
        plan_for_request(template, method, path, query, user_agent) == PlanModel::Respond(
            STATUS_NOT_FOUND,
            Seq::empty(),
        ),
{
}

} // verus!
