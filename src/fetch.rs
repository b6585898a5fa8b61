//! The remote post lookup as a state machine: resolve a handle to an
//! account identifier (unless one is given), then fetch the post.
//!
//! The caller performs each action and reports what came of it; every
//! failure of either call ends the lookup without a post.
use vstd::prelude::*;
use crate::inject::PostView;
use crate::text::starts_with;

verus! {

/// The prefix of an account identifier that needs no resolution.
pub const DID_PREFIX: &'static str = "did:";

/// The handle-resolution endpoint, up to the encoded handle.
pub const RESOLVE_HANDLE_URL: &'static str =
    "https://public.api.bsky.app/xrpc/com.atproto.identity.resolveHandle?handle=";

/// The post-lookup endpoint, up to the encoded record URI.
pub const GET_POSTS_URL: &'static str =
    "https://public.api.bsky.app/xrpc/app.bsky.feed.getPosts?uris=";

/// The scheme of a record URI.
pub const AT_URI_SCHEME: &'static str = "at://";

/// The collection of posts, between the account and the record key of a
/// record URI.
pub const POST_COLLECTION: &'static str = "/app.bsky.feed.post/";

/// The `application/x-www-form-urlencoded` form of the UTF-8 bytes of `s`.
pub uninterp spec fn form_encoded(s: Seq<char>) -> Seq<char>;

/// Relies on `url::form_urlencoded::byte_serialize`: the pieces it yields
/// for the bytes of `s`, joined.
#[verifier::external_body]
fn form_encode(s: &str) -> (r: String)
    ensures
        r@ == form_encoded(s@),
{
    url::form_urlencoded::byte_serialize(s.as_bytes()).collect()
}

/// Whether `s` is already an account identifier.
pub open spec fn is_did(s: Seq<char>) -> bool {
    s.len() >= DID_PREFIX@.len() && s.subrange(0, DID_PREFIX@.len() as int) == DID_PREFIX@
}

/// The URL that resolves `handle` to an account identifier.
pub open spec fn resolve_url(handle: Seq<char>) -> Seq<char> {
    RESOLVE_HANDLE_URL@ + form_encoded(handle)
}

/// The URI of the post `rkey` of account `did`.
pub open spec fn post_uri(did: Seq<char>, rkey: Seq<char>) -> Seq<char> {
    AT_URI_SCHEME@ + did + POST_COLLECTION@ + rkey
}

/// The URL that fetches the post `rkey` of account `did`.
pub open spec fn posts_url(did: Seq<char>, rkey: Seq<char>) -> Seq<char> {
    GET_POSTS_URL@ + form_encoded(post_uri(did, rkey))
}

/// Whether an HTTP status code reports success (`200..=299`).
pub open spec fn is_success(status: u16) -> bool {
    200 <= status < 300
}

/// Where a lookup stands between two actions.
pub enum FetchState {
    /// The handle lookup was sent; `rkey` waits for the second call.
    AwaitingResolve { rkey: String },
    /// The handle lookup succeeded; its body is to be read.
    ReadingResolve { rkey: String },
    /// The post lookup was sent.
    AwaitingPosts,
    /// The post lookup succeeded; its body is to be read.
    ReadingPosts,
}

/// What came of the last action.
pub enum FetchEvent {
    /// The call failed in transport or timed out, or its body did not decode.
    Failed,
    /// The call was answered with this HTTP status.
    Status(u16),
    /// The handle lookup's body named this account identifier.
    Resolved(String),
    /// The post lookup's body listed these posts.
    Posts(Vec<PostView>),
}

/// What the caller is to do next.
pub enum FetchAction {
    /// Send a GET request to the URL, report `Failed` or `Status`, and go on
    /// from the state.
    Get(FetchState, String),
    /// Read and decode the answer's body, report `Resolved` or `Posts` (or
    /// `Failed`), and go on from the state.
    ReadBody(FetchState),
    /// The lookup found this post.
    Found(PostView),
    /// The lookup failed.
    Failed,
}

/// The action that `fetch_step` takes on `event` in `state`.
pub open spec fn step_spec(state: FetchState, event: FetchEvent, r: FetchAction) -> bool {
    match state {
        FetchState::AwaitingResolve { rkey } => match event {
            FetchEvent::Status(code) => if is_success(code) {
                r == FetchAction::ReadBody(FetchState::ReadingResolve { rkey })
            } else {
                r is Failed
            },
            _ => r is Failed,
        },
        FetchState::ReadingResolve { rkey } => match event {
            FetchEvent::Resolved(did) => r matches FetchAction::Get(
                FetchState::AwaitingPosts,
                url,
            ) && url@ == posts_url(did@, rkey@),
            _ => r is Failed,
        },
        FetchState::AwaitingPosts => match event {
            FetchEvent::Status(code) => if is_success(code) {
                r == FetchAction::ReadBody(FetchState::ReadingPosts)
            } else {
                r is Failed
            },
            _ => r is Failed,
        },
        FetchState::ReadingPosts => match event {
            FetchEvent::Posts(posts) => if posts.len() > 0 {
                r == FetchAction::Found(posts[0])
            } else {
                r is Failed
            },
            _ => r is Failed,
        },
    }
}

/// Whether an HTTP status code reports success (`200..=299`).
pub fn is_success_status(status: u16) -> (r: bool)
    ensures
        r == is_success(status),
{
    200 <= status && status < 300
}

/// The URL that resolves `handle` to an account identifier.
pub fn resolve_request_url(handle: &str) -> (r: String)
    ensures
        r@ == resolve_url(handle@),
{
    let mut url = RESOLVE_HANDLE_URL.to_string();
    let encoded = form_encode(handle);
    url.append(encoded.as_str());
    url
}

/// The URI of the post `rkey` of account `did`.
pub fn post_at_uri(did: &str, rkey: &str) -> (r: String)
    ensures
        r@ == post_uri(did@, rkey@),
{
    let mut uri = AT_URI_SCHEME.to_string();
    uri.append(did);
    uri.append(POST_COLLECTION);
    uri.append(rkey);
    uri
}

/// The URL that fetches the post `rkey` of account `did`.
pub fn posts_request_url(did: &str, rkey: &str) -> (r: String)
    ensures
        r@ == posts_url(did@, rkey@),
{
    let mut url = GET_POSTS_URL.to_string();
    let uri = post_at_uri(did, rkey);
    let encoded = form_encode(uri.as_str());
    url.append(encoded.as_str());
    url
}

/// Whether `s` is already an account identifier (it starts with `did:`).
pub fn is_account_id(s: &str) -> (r: bool)
    ensures
        r == is_did(s@),
{
    starts_with(s, DID_PREFIX)
}

/// The first action of a lookup of post `rkey` of `handle_or_did`: an
/// account identifier is used as it is, a handle is resolved first.
pub fn fetch_start(handle_or_did: &str, rkey: &str) -> (r: FetchAction)
    ensures
        is_did(handle_or_did@) ==> (r matches FetchAction::Get(FetchState::AwaitingPosts, url)
            && url@ == posts_url(handle_or_did@, rkey@)),
        !is_did(handle_or_did@) ==> (r matches FetchAction::Get(
            FetchState::AwaitingResolve { rkey: k },
            url,
        ) && k@ == rkey@ && url@ == resolve_url(handle_or_did@)),
{
    if is_account_id(handle_or_did) {
        FetchAction::Get(FetchState::AwaitingPosts, posts_request_url(handle_or_did, rkey))
    } else {
        FetchAction::Get(
            FetchState::AwaitingResolve { rkey: rkey.to_string() },
            resolve_request_url(handle_or_did),
        )
    }
}

/// The next action of a lookup in `state` once `event` has come: a
/// success status leads to reading the body, an identifier to the post
/// lookup, a non-empty list of posts to its first post, and anything else
/// to failure.
pub fn fetch_step(state: FetchState, event: FetchEvent) -> (r: FetchAction)
    ensures
        step_spec(state, event, r),
{
    match state {
        FetchState::AwaitingResolve { rkey } => match event {
            FetchEvent::Status(code) => if is_success_status(code) {
                FetchAction::ReadBody(FetchState::ReadingResolve { rkey })
            } else {
                FetchAction::Failed
            },
            _ => FetchAction::Failed,
        },
        FetchState::ReadingResolve { rkey } => match event {
            FetchEvent::Resolved(did) => FetchAction::Get(
                FetchState::AwaitingPosts,
                posts_request_url(did.as_str(), rkey.as_str()),
            ),
            _ => FetchAction::Failed,
        },
        FetchState::AwaitingPosts => match event {
            FetchEvent::Status(code) => if is_success_status(code) {
                FetchAction::ReadBody(FetchState::ReadingPosts)
            } else {
                FetchAction::Failed
            },
            _ => FetchAction::Failed,
        },
        FetchState::ReadingPosts => match event {
            FetchEvent::Posts(mut posts) => if posts.len() > 0 {
                FetchAction::Found(posts.swap_remove(0))
            } else {
                FetchAction::Failed
            },
            _ => FetchAction::Failed,
        },
    }
}

} // verus!
