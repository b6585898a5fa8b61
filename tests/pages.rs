use og_server::fetch::{
    fetch_start, fetch_step, is_account_id, is_success_status, posts_request_url,
    resolve_request_url, FetchAction, FetchEvent, FetchState,
};
use og_server::handler::{
    finish_request, page_description, plan_request, plan_with_params, Plan, PostUse,
};
use og_server::inject::{
    add_meta_after_title, add_meta_robots, add_post_meta, escape_html_attr,
    is_likely_normal_browser, normalize_text, PostView,
};
use og_server::post_url::{parse_bsky_post_url, post_ref_from_parts};
use og_server::query::{param_value, parse_query_params};

const TEMPLATE: &str = "<!DOCTYPE html>\n<html>\n<head>\n  <meta charset=\"UTF-8\">\n  <title>Skythread</title>\n</head>\n<body></body>\n</html>\n";

const ROBOTS: &str = "<meta name=\"robots\" content=\"noindex, nofollow\">";

const CRAWLER: &str = "Mozilla/5.0 (compatible; Bot/1.0; +https://example.com/bot)";

const BROWSER: &str = "Mozilla/5.0 (X11; Linux x86_64; rv:120.0) Gecko/20100101 Firefox/120.0";

fn robots_page() -> String {
    TEMPLATE.replacen(
        "<meta charset=\"UTF-8\">",
        "<meta charset=\"UTF-8\">\n  <meta name=\"robots\" content=\"noindex, nofollow\">",
        1,
    )
}

fn served_body(plan: Plan) -> String {
    match plan {
        Plan::Respond(response) => {
            assert_eq!(response.status, 200);
            response.body
        }
        Plan::Fetch { .. } => panic!("expected a page, not a lookup"),
    }
}

fn pairs(list: &[(&str, &str)]) -> Vec<(String, String)> {
    list.iter().map(|(k, v)| (k.to_string(), v.to_string())).collect()
}

#[test]
fn normalize_text_joins_lines() {
    assert_eq!(normalize_text("a\nb\rc"), "a b c");
    assert_eq!(normalize_text("a\r\nb"), "a  b");
    assert_eq!(normalize_text(""), "");
}

#[test]
fn escape_script_leaves_no_markup() {
    let escaped = escape_html_attr("<script>\"&\"</script>");
    assert_eq!(escaped, "&lt;script&gt;&quot;&amp;&quot;&lt;/script&gt;");
    assert!(!escaped.contains('<'));
    assert!(!escaped.contains('>'));
    assert!(!escaped.contains('"'));
    for (i, _) in escaped.match_indices('&') {
        let rest = &escaped[i..];
        assert!(
            rest.starts_with("&amp;")
                || rest.starts_with("&quot;")
                || rest.starts_with("&lt;")
                || rest.starts_with("&gt;")
        );
    }
}

#[test]
fn escape_keeps_plain_text() {
    assert_eq!(escape_html_attr("caf\u{e9} ok"), "caf\u{e9} ok");
    assert_eq!(escape_html_attr(""), "");
}

#[test]
fn parse_post_url_profile_post() {
    assert_eq!(
        parse_bsky_post_url("https://example.com/profile/alice.test/post/3abc123"),
        Some(("alice.test".to_string(), "3abc123".to_string()))
    );
    assert_eq!(
        parse_bsky_post_url("http://bsky.app/profile/did:plc:xyz/post/3k"),
        Some(("did:plc:xyz".to_string(), "3k".to_string()))
    );
}

#[test]
fn parse_post_url_rejects_other_shapes() {
    assert_eq!(parse_bsky_post_url("https://example.com/profile/alice"), None);
    assert_eq!(parse_bsky_post_url("https://example.com/user/alice/post/3abc"), None);
    assert_eq!(parse_bsky_post_url("ftp://example.com/profile/alice/post/3abc"), None);
    assert_eq!(parse_bsky_post_url("not a url"), None);
}

#[test]
fn post_ref_from_parts_checks_segments() {
    let segments: Vec<String> =
        vec!["profile".into(), "bob".into(), "post".into(), "k1".into(), "extra".into()];
    assert_eq!(
        post_ref_from_parts("https", &segments),
        Some(("bob".to_string(), "k1".to_string()))
    );
    assert_eq!(post_ref_from_parts("mailto", &segments), None);
    let short: Vec<String> = vec!["profile".into(), "bob".into(), "post".into()];
    assert_eq!(post_ref_from_parts("http", &short), None);
}

#[test]
fn page_descriptions() {
    assert_eq!(page_description("search", &Some("likes".to_string())), Some("Archive search"));
    assert_eq!(page_description("search", &None), Some("Timeline search"));
    assert_eq!(page_description("search", &Some("posts".to_string())), Some("Timeline search"));
    assert_eq!(page_description("posting_stats", &None), Some("Posting stats"));
    assert_eq!(page_description("like_stats", &Some("x".to_string())), Some("Like stats"));
    assert_eq!(page_description("unknown", &None), None);
}

#[test]
fn page_param_injects_description() {
    let html = robots_page();
    let body = served_body(plan_with_params(
        html.clone(),
        &pairs(&[("page", "search"), ("mode", "likes")]),
    ));
    assert!(body.contains(
        "</title>\n  <meta property=\"og:description\" content=\"Archive search\">"
    ));
    let body = served_body(plan_with_params(html.clone(), &pairs(&[("page", "search")])));
    assert!(body.contains("content=\"Timeline search\""));
    let body = served_body(plan_with_params(html.clone(), &pairs(&[("page", "unknown")])));
    assert_eq!(body, html);
}

#[test]
fn hash_param_is_escaped() {
    let body = served_body(plan_with_params(robots_page(), &pairs(&[("hash", "a\"<b>")])));
    assert!(body.contains(
        "</title>\n  <meta property=\"og:description\" content=\"Posts tagged with #a&quot;&lt;b&gt;\">"
    ));
}

#[test]
fn params_keep_last_occurrence() {
    let parsed = parse_query_params("a=1&b=x%20y+z&a=2&&c");
    assert_eq!(param_value(&parsed, "a"), Some("2".to_string()));
    assert_eq!(param_value(&parsed, "b"), Some("x y z".to_string()));
    assert_eq!(param_value(&parsed, "c"), Some(String::new()));
    assert_eq!(param_value(&parsed, "d"), None);
    assert!(parse_query_params("").is_empty());
}

#[test]
fn param_priority_q_before_author() {
    let plan = plan_with_params(
        robots_page(),
        &pairs(&[
            ("author", "bob.test"),
            ("post", "k2"),
            ("q", "https://bsky.app/profile/alice.test/post/k1"),
        ]),
    );
    match plan {
        Plan::Fetch { handle, rkey, purpose, .. } => {
            assert_eq!(handle, "alice.test");
            assert_eq!(rkey, "k1");
            assert!(purpose == PostUse::Preview);
        }
        Plan::Respond(_) => panic!("expected a lookup"),
    }
}

#[test]
fn unparsable_q_serves_robots_page() {
    let html = robots_page();
    let body = served_body(plan_with_params(
        html.clone(),
        &pairs(&[("q", "https://example.com/profile/alice"), ("hash", "x")]),
    ));
    assert_eq!(body, html);
}

#[test]
fn quotes_param_plans_quotes_lookup() {
    let plan = plan_with_params(
        robots_page(),
        &pairs(&[("quotes", "https://bsky.app/profile/alice.test/post/k1")]),
    );
    match plan {
        Plan::Fetch { handle, rkey, purpose, .. } => {
            assert_eq!(handle, "alice.test");
            assert_eq!(rkey, "k1");
            assert!(purpose == PostUse::Quotes);
        }
        Plan::Respond(_) => panic!("expected a lookup"),
    }
}

#[test]
fn no_query_serves_template_verbatim() {
    let body = served_body(plan_request(TEMPLATE, "GET", "/", None, CRAWLER));
    assert_eq!(body, TEMPLATE);
    let body = served_body(plan_request(TEMPLATE, "GET", "/", None, ""));
    assert_eq!(body, TEMPLATE);
}

#[test]
fn query_adds_robots_once_after_charset() {
    for query in ["x=1", "", "page=search", "hash=a"] {
        let body = served_body(plan_request(TEMPLATE, "GET", "/", Some(query), CRAWLER));
        assert_eq!(body.matches(ROBOTS).count(), 1);
        assert!(body.contains("<meta charset=\"UTF-8\">\n  <meta name=\"robots\""));
    }
}

#[test]
fn browser_gets_robots_only() {
    let query = "author=alice.test&post=3abc123";
    let body = served_body(plan_request(TEMPLATE, "GET", "/", Some(query), BROWSER));
    assert_eq!(body, robots_page());
    let body = served_body(plan_request(TEMPLATE, "GET", "/", Some("hash=x"), BROWSER));
    assert_eq!(body, robots_page());
}

#[test]
fn browser_heuristic() {
    assert!(is_likely_normal_browser(BROWSER));
    assert!(!is_likely_normal_browser(CRAWLER));
    assert!(!is_likely_normal_browser("Mozilla/5.0 (compatible; http://x)"));
    assert!(!is_likely_normal_browser("Mozilla/5.0 mailto:a@b.c"));
    assert!(!is_likely_normal_browser("curl/8.0"));
    assert!(!is_likely_normal_browser(""));
}

#[test]
fn other_requests_not_found() {
    for (method, path) in [("POST", "/"), ("GET", "/other"), ("PUT", "/x")] {
        match plan_request(TEMPLATE, method, path, Some("q=1"), BROWSER) {
            Plan::Respond(response) => {
                assert_eq!(response.status, 404);
                assert_eq!(response.body, "");
            }
            Plan::Fetch { .. } => panic!("expected not found"),
        }
    }
}

#[test]
fn missing_anchors_leave_page_unchanged() {
    assert_eq!(add_meta_robots("<html></html>"), "<html></html>");
    assert_eq!(add_meta_after_title("<html></html>", "x"), "<html></html>");
    assert_eq!(add_meta_after_title("<title>a</title><title>b</title>", "M"),
        "<title>a</title>\nM<title>b</title>");
}

#[test]
fn post_meta_tags() {
    let post = PostView { handle: "bob.test".to_string(), text: "line one\nline \"two\"".to_string() };
    let body = add_post_meta("<title>t</title>", &post);
    assert_eq!(
        body,
        "<title>t</title>\n  <meta property=\"og:title\" content=\"Skythread \u{e2}\u{20ac}\u{a2} Post by @bob.test\">\n  <meta property=\"og:description\" content=\"line one line &quot;two&quot;\">"
    );
}

#[test]
fn request_urls() {
    assert_eq!(
        resolve_request_url("alice.test"),
        "https://public.api.bsky.app/xrpc/com.atproto.identity.resolveHandle?handle=alice.test"
    );
    assert_eq!(
        resolve_request_url("a b&c"),
        "https://public.api.bsky.app/xrpc/com.atproto.identity.resolveHandle?handle=a+b%26c"
    );
    assert_eq!(
        posts_request_url("did:plc:abc", "3abc123"),
        "https://public.api.bsky.app/xrpc/app.bsky.feed.getPosts?uris=at%3A%2F%2Fdid%3Aplc%3Aabc%2Fapp.bsky.feed.post%2F3abc123"
    );
    assert!(is_account_id("did:plc:abc"));
    assert!(!is_account_id("alice.test"));
    assert!(is_success_status(200) && is_success_status(299));
    assert!(!is_success_status(199) && !is_success_status(300) && !is_success_status(404));
}

#[test]
fn did_skips_resolution() {
    match fetch_start("did:plc:abc", "k1") {
        FetchAction::Get(FetchState::AwaitingPosts, url) => {
            assert_eq!(url, posts_request_url("did:plc:abc", "k1"));
        }
        _ => panic!("expected the post lookup"),
    }
}

fn expect_get(action: FetchAction) -> (FetchState, String) {
    match action {
        FetchAction::Get(state, url) => (state, url),
        _ => panic!("expected a request"),
    }
}

fn expect_read(action: FetchAction) -> FetchState {
    match action {
        FetchAction::ReadBody(state) => state,
        _ => panic!("expected a body read"),
    }
}

fn crawler_lookup_plan() -> (String, String, String, PostUse) {
    let plan = plan_request(TEMPLATE, "GET", "/", Some("author=alice.test&post=3abc123"), CRAWLER);
    match plan {
        Plan::Fetch { html, handle, rkey, purpose } => (html, handle, rkey, purpose),
        Plan::Respond(_) => panic!("expected a lookup"),
    }
}

#[test]
fn end_to_end_author_post_found() {
    let (html, handle, rkey, purpose) = crawler_lookup_plan();
    assert_eq!(html, robots_page());
    assert_eq!(handle, "alice.test");
    assert_eq!(rkey, "3abc123");
    let (state, url) = expect_get(fetch_start(&handle, &rkey));
    assert_eq!(url, resolve_request_url("alice.test"));
    let state = expect_read(fetch_step(state, FetchEvent::Status(200)));
    let (state, url) =
        expect_get(fetch_step(state, FetchEvent::Resolved("did:plc:abc".to_string())));
    assert_eq!(url, posts_request_url("did:plc:abc", "3abc123"));
    let state = expect_read(fetch_step(state, FetchEvent::Status(200)));
    let posts = vec![
        PostView { handle: "alice.test".to_string(), text: "Hi\n<all> & you".to_string() },
        PostView { handle: "other.test".to_string(), text: "second".to_string() },
    ];
    let post = match fetch_step(state, FetchEvent::Posts(posts)) {
        FetchAction::Found(post) => post,
        _ => panic!("expected a post"),
    };
    assert_eq!(post.handle, "alice.test");
    let response = finish_request(&html, purpose, Some(post));
    assert_eq!(response.status, 200);
    let body = response.body;
    let title = "</title>\n  <meta property=\"og:title\" content=\"Skythread \u{e2}\u{20ac}\u{a2} Post by @alice.test\">\n  <meta property=\"og:description\" content=\"Hi &lt;all&gt; &amp; you\">";
    assert!(body.contains(title));
    assert_eq!(body.matches(ROBOTS).count(), 1);
}

#[test]
fn end_to_end_fetch_failure_keeps_robots_only() {
    let (html, handle, rkey, purpose) = crawler_lookup_plan();
    let (state, _) = expect_get(fetch_start(&handle, &rkey));
    let state = expect_read(fetch_step(state, FetchEvent::Status(200)));
    let (state, _) =
        expect_get(fetch_step(state, FetchEvent::Resolved("did:plc:abc".to_string())));
    let post = match fetch_step(state, FetchEvent::Status(500)) {
        FetchAction::Failed => None,
        _ => panic!("expected failure"),
    };
    let response = finish_request(&html, purpose, post);
    assert_eq!(response.status, 200);
    assert!(response.body.contains(ROBOTS));
    assert!(!response.body.contains("og:title"));
    assert!(!response.body.contains("og:description"));
}

#[test]
fn lookup_failures() {
    let (state, _) = expect_get(fetch_start("alice.test", "k"));
    assert!(matches!(fetch_step(state, FetchEvent::Failed), FetchAction::Failed));
    let (state, _) = expect_get(fetch_start("alice.test", "k"));
    assert!(matches!(fetch_step(state, FetchEvent::Status(404)), FetchAction::Failed));
    let (state, _) = expect_get(fetch_start("did:plc:x", "k"));
    let state = expect_read(fetch_step(state, FetchEvent::Status(204)));
    assert!(matches!(fetch_step(state, FetchEvent::Posts(Vec::new())), FetchAction::Failed));
    let (state, _) = expect_get(fetch_start("did:plc:x", "k"));
    let state = expect_read(fetch_step(state, FetchEvent::Status(200)));
    assert!(matches!(fetch_step(state, FetchEvent::Failed), FetchAction::Failed));
}

#[test]
fn quotes_description_page() {
    let post = PostView { handle: "a.test".to_string(), text: "x\ny \"z\"".to_string() };
    let response = finish_request("<title>t</title>", PostUse::Quotes, Some(post));
    assert_eq!(
        response.body,
        "<title>t</title>\n  <meta property=\"og:description\" content=\"Quotes of: &quot;x y &quot;z&quot;&quot;\">"
    );
}
