//! Request handling: which page a request gets, and when a remote post
//! lookup is needed first.
use vstd::prelude::*;
use crate::inject::{
    add_meta_after_title, add_meta_robots, add_post_meta, is_browser_agent,
    is_likely_normal_browser, normalize_seq, normalize_text, og_description, og_description_tag,
    post_meta, with_meta_after_title, with_robots, PostView,
};
use crate::post_url::{parse_bsky_post_url, post_ref};
use crate::query::{form_pairs, last_value, param_value, parse_query_params};
use crate::text::same_text;

verus! {

/// The status of a page that is served.
pub const STATUS_OK: u16 = 200;

/// The status of a request for anything but the page.
pub const STATUS_NOT_FOUND: u16 = 404;

/// The start of the description of a hashtag's page.
pub const HASHTAG_PREFIX: &'static str = "Posts tagged with #";

/// The start of the description of the page of a post's quotes.
pub const QUOTES_PREFIX: &'static str = "Quotes of: \"";

/// The end of the description of the page of a post's quotes.
pub const QUOTES_SUFFIX: &'static str = "\"";

/// A response: its status and its body (HTML where the status is 200).
pub struct Response {
    pub status: u16,
    pub body: String,
}

impl View for Response {
    type V = (u16, Seq<char>);

    open spec fn view(&self) -> (u16, Seq<char>) {
        (self.status, self.body@)
    }
}

/// What a fetched post is shown as.
#[derive(Clone, Copy, PartialEq, Eq, Structural)]
pub enum PostUse {
    /// The post itself: its title and description.
    Preview,
    /// The page of the post's quotes: a description that cites it.
    Quotes,
}

/// How a request is answered.
pub enum Plan {
    /// With this response, at once.
    Respond(Response),
    /// After a lookup of post `rkey` of `handle`: `finish_request` then
    /// puts what was found into `html`.
    Fetch { html: String, handle: String, rkey: String, purpose: PostUse },
}

/// The mathematical form of a `Plan`.
pub enum PlanModel {
    Respond(u16, Seq<char>),
    Fetch(Seq<char>, Seq<char>, Seq<char>, PostUse),
}

impl View for Plan {
    type V = PlanModel;

    open spec fn view(&self) -> PlanModel {
        match self {
            Plan::Respond(resp) => PlanModel::Respond(resp.status, resp.body@),
            Plan::Fetch { html, handle, rkey, purpose } => PlanModel::Fetch(
                html@,
                handle@,
                rkey@,
                *purpose,
            ),
        }
    }
}

/// The description of an app page, chosen by `page` and `mode`.
pub open spec fn page_description_of(page: Seq<char>, mode: Option<Seq<char>>) -> Option<Seq<char>> {
    if page == "search"@ {
        if mode == Some("likes"@) {
            Some("Archive search"@)
        } else {
            Some("Timeline search"@)
        }
    } else if page == "posting_stats"@ {
        Some("Posting stats"@)
    } else if page == "like_stats"@ {
        Some("Like stats"@)
    } else {
        None
    }
}

/// The description of a hashtag's page.
pub open spec fn hashtag_description(tag: Seq<char>) -> Seq<char> {
    HASHTAG_PREFIX@ + tag
}

/// The description of the page of the quotes of a post with this text.
pub open spec fn quotes_description(text: Seq<char>) -> Seq<char> {
    QUOTES_PREFIX@ + normalize_seq(text) + QUOTES_SUFFIX@
}

/// A plan that serves `html` as it is.
pub open spec fn serve(html: Seq<char>) -> PlanModel {
    PlanModel::Respond(STATUS_OK, html)
}

/// A plan that first looks up the post that `link` points to, where it
/// points to one, and else serves `html` as it is.
pub open spec fn fetch_linked(html: Seq<char>, link: Seq<char>, purpose: PostUse) -> PlanModel {
    match post_ref(link) {
        Some(r) => PlanModel::Fetch(html, r.0, r.1, purpose),
        None => serve(html),
    }
}

/// How a request with these query parameters is answered, from the page
/// `html` that already holds the robots tag: the first of `q`, `author`
/// with `post`, `hash`, `quotes` and `page` that is present decides.
pub open spec fn plan_for_params(html: Seq<char>, pairs: Seq<(Seq<char>, Seq<char>)>) -> PlanModel {
    let q = last_value(pairs, "q"@);
    let author = last_value(pairs, "author"@);
    let post = last_value(pairs, "post"@);
    let hash = last_value(pairs, "hash"@);
    let quotes = last_value(pairs, "quotes"@);
    let page = last_value(pairs, "page"@);
    if q is Some {
        fetch_linked(html, q->0, PostUse::Preview)
    } else if author is Some && post is Some {
        PlanModel::Fetch(html, author->0, post->0, PostUse::Preview)
    } else if hash is Some {
        serve(with_meta_after_title(html, og_description_tag(hashtag_description(hash->0))))
    } else if quotes is Some {
        fetch_linked(html, quotes->0, PostUse::Quotes)
    } else if page is Some {
        match page_description_of(page->0, last_value(pairs, "mode"@)) {
            Some(d) => serve(with_meta_after_title(html, og_description_tag(d))),
            None => serve(html),
        }
    } else {
        serve(html)
    }
}

/// How a request is answered: anything but `GET /` is not found; without
/// a query string the template is served as it is; with one, the page
/// gets the robots tag, and for a user agent that is not a browser the
/// query parameters decide what more.
pub open spec fn plan_for_request(
    template: Seq<char>,
    method: Seq<char>,
    path: Seq<char>,
    query: Option<Seq<char>>,
    user_agent: Seq<char>,
) -> PlanModel {
    if method != "GET"@ || path != "/"@ {
        PlanModel::Respond(STATUS_NOT_FOUND, Seq::empty())
    } else {
        match query {
            None => serve(template),
            Some(q) => if is_browser_agent(user_agent) {
                serve(with_robots(template))
            } else {
                plan_for_params(with_robots(template), form_pairs(q))
            },
        }
    }
}

/// The page that a lookup planned with `html` and `purpose` ends in: the
/// post's tags where a post was found, `html` as it is otherwise.
pub open spec fn finished_page(html: Seq<char>, purpose: PostUse, post: Option<PostView>) -> Seq<
    char,
> {
    match post {
        Some(p) => match purpose {
            PostUse::Preview => with_meta_after_title(html, post_meta(p.handle@, p.text@)),
            PostUse::Quotes => with_meta_after_title(
                html,
                og_description_tag(quotes_description(p.text@)),
            ),
        },
        None => html,
    }
}

/// The description of an app page: `search` is an archive search in mode
/// `likes` and a timeline search otherwise; `posting_stats` and
/// `like_stats` have their own; any other page has none.
pub fn page_description(page: &str, mode: &Option<String>) -> (r: Option<&'static str>)
    ensures
        r matches Some(d) ==> page_description_of(page@, mode.deep_view()) == Some(d@),
        r is None ==> page_description_of(page@, mode.deep_view()) is None,
{
    if same_text(page, "search") {
        let likes = match mode {
            Some(m) => same_text(m.as_str(), "likes"),
            None => false,
        };
        if likes {
            Some("Archive search")
        } else {
            Some("Timeline search")
        }
    } else if same_text(page, "posting_stats") {
        Some("Posting stats")
    } else if same_text(page, "like_stats") {
        Some("Like stats")
    } else {
        None
    }
}

/// Serves `html` with status 200.
fn serve_page(html: String) -> (r: Plan)
    ensures
        r@ == serve(html@),
{
    Plan::Respond(Response { status: STATUS_OK, body: html })
}

/// Plans a lookup of the post that `link` points to, or serves `html`
/// where it points to none.
fn plan_linked(html: String, link: &str, purpose: PostUse) -> (r: Plan)
    ensures
        r@ == fetch_linked(html@, link@, purpose),
{
    match parse_bsky_post_url(link) {
        Some(found) => Plan::Fetch { html, handle: found.0, rkey: found.1, purpose },
        None => serve_page(html),
    }
}

/// How a request with these query parameters is answered, from the page
/// `html` that already holds the robots tag.
pub fn plan_with_params(html: String, pairs: &Vec<(String, String)>) -> (r: Plan)
    ensures
        r@ == plan_for_params(html@, pairs.deep_view()),
{
    let q = param_value(pairs, "q");
    if let Some(link) = q {
        return plan_linked(html, link.as_str(), PostUse::Preview);
    }
    let author = param_value(pairs, "author");
    let post = param_value(pairs, "post");
    if author.is_some() && post.is_some() {
        return Plan::Fetch {
            html,
            handle: author.unwrap(),
            rkey: post.unwrap(),
            purpose: PostUse::Preview,
        };
    }
    let hash = param_value(pairs, "hash");
    if let Some(tag) = hash {
        let mut description = HASHTAG_PREFIX.to_string();
        description.append(tag.as_str());
        let meta = og_description(description.as_str());
        return serve_page(add_meta_after_title(html.as_str(), meta.as_str()));
    }
    let quotes = param_value(pairs, "quotes");
    if let Some(link) = quotes {
        return plan_linked(html, link.as_str(), PostUse::Quotes);
    }
    let page = param_value(pairs, "page");
    if let Some(name) = page {
        let mode = param_value(pairs, "mode");
        return match page_description(name.as_str(), &mode) {
            Some(d) => {
                let meta = og_description(d);
                serve_page(add_meta_after_title(html.as_str(), meta.as_str()))
            },
            None => serve_page(html),
        };
    }
    serve_page(html)
}

/// How a request is answered, from the page template, the request's
/// method, path, query string (if it has one) and user agent (empty where
/// it sends none).
pub fn plan_request(
    template: &str,
    method: &str,
    path: &str,
    query: Option<&str>,
    user_agent: &str,
) -> (r: Plan)
    ensures
        r@ == plan_for_request(
            template@,
            method@,
            path@,
            match query {
                Some(q) => Some(q@),
                None => None,
            },
            user_agent@,
        ),
{
    if !same_text(method, "GET") || !same_text(path, "/") {
        return Plan::Respond(Response { status: STATUS_NOT_FOUND, body: String::new() });
    }
    match query {
        None => serve_page(template.to_string()),
        Some(q) => {
            let html = add_meta_robots(template);
            if is_likely_normal_browser(user_agent) {
                return serve_page(html);
            }
            let pairs = parse_query_params(q);
            plan_with_params(html, &pairs)
        },
    }
}

/// The response to a request whose plan was a lookup: status 200, and the
/// post's tags put into `html` where a post was found.
pub fn finish_request(html: &str, purpose: PostUse, post: Option<PostView>) -> (r: Response)
    ensures
        r@ == (STATUS_OK, finished_page(html@, purpose, post)),
{
    match post {
        Some(p) => match purpose {
            PostUse::Preview => Response { status: STATUS_OK, body: add_post_meta(html, &p) },
            PostUse::Quotes => {
                let mut description = QUOTES_PREFIX.to_string();
                let text = normalize_text(p.text.as_str());
                description.append(text.as_str());
                description.append(QUOTES_SUFFIX);
                let meta = og_description(description.as_str());
                Response { status: STATUS_OK, body: add_meta_after_title(html, meta.as_str()) }
            },
        },
        None => Response { status: STATUS_OK, body: html.to_string() },
    }
}

} // verus!
