//! The decision, for one response, whether and how to follow a redirect.
use vstd::prelude::*;

use crate::error::{redirect, Error, Kind, Source};
use crate::location::{allowed_scheme, joined, validate, Url, UrlView};
use crate::request::{
    copy_bytes, copy_headers, find_header, first_named, headers_view, strip_credentials,
    is_credential, without_credentials, Header, HeaderView, Method, Request, RequestView,
};
use crate::status::StatusCode;

verus! {

/// The hop cap of the default policy.
pub const DEFAULT_MAX_REDIRECTS: usize = 10;

/// How redirects are followed.
#[derive(Clone, Copy, Debug, PartialEq, Eq, Structural)]
pub enum Policy {
    /// Follow at most this many hops; one more is an error.
    Limited(usize),
    /// Never follow: a redirect response is the final response.
    Never,
    /// Ask the caller's own decision, made from the attempt count and the
    /// URLs visited so far, whether to follow or stop.
    Custom,
}

impl Policy {
    /// Follows at most `max` hops.
    pub fn limited(max: usize) -> (r: Policy)
        ensures
            r == Policy::Limited(max),
    {
        Policy::Limited(max)
    }

    /// Leaves each hop to the caller's decision.
    pub fn custom() -> (r: Policy)
        ensures
            r == Policy::Custom,
    {
        Policy::Custom
    }

    /// Follows no redirect.
    pub fn none() -> (r: Policy)
        ensures
            r == Policy::Never,
    {
        Policy::Never
    }
}

impl Default for Policy {
    /// Follows at most ten hops.
    fn default() -> (r: Policy)
        ensures
            r == Policy::Limited(10),
    {
        Policy::Limited(DEFAULT_MAX_REDIRECTS)
    }
}

/// What to do after a response.
#[derive(Debug)]
pub enum Hop {
    /// The response is the final one.
    Stop,
    /// Issue this request next.
    Follow(Request),
    /// Issue this request next if the caller's decision says so; else the
    /// response is the final one.
    Ask(Request),
    /// The call fails.
    Fail(Error),
}

/// What to do after a response, as a value of the model.
pub enum Outcome {
    Stop,
    Follow(RequestView),
    Ask(RequestView),
    /// A redirect error with this cause and this URL.
    Fail(Source, UrlView),
}

/// Whether the status code asks for a redirect that is followed.
pub open spec fn redirect_code(code: u16) -> bool {
    code == 301 || code == 302 || code == 303 || code == 307 || code == 308
}

/// The method of the request after a redirect with status `code`.
pub open spec fn method_after(code: u16, m: Method) -> Method {
    if code == 307 || code == 308 {
        m
    } else if code != 303 && m == Method::Head {
        Method::Head
    } else {
        Method::Get
    }
}

/// Whether the body goes with the request after a redirect with status `code`.
pub open spec fn body_kept(code: u16) -> bool {
    code == 307 || code == 308
}

/// The request that follows `prev` to `target` after status `code`.
pub open spec fn next_request(prev: RequestView, code: u16, target: UrlView) -> RequestView {
    RequestView {
        method: method_after(code, prev.method),
        url: target,
        headers: if prev.url.same_origin(target) {
            prev.headers
        } else {
            without_credentials(prev.headers)
        },
        body: if body_kept(code) {
            prev.body
        } else {
            None
        },
        timeout_ms: prev.timeout_ms,
    }
}

/// What follows a response with status `code` and headers `headers` to
/// request `prev`, after `hops` hops under `policy`.
pub open spec fn hop_outcome(
    prev: RequestView,
    code: u16,
    headers: Seq<HeaderView>,
    policy: Policy,
    hops: nat,
) -> Outcome {
    if !redirect_code(code) {
        Outcome::Stop
    } else {
        match first_named(headers, "location"@) {
            None => Outcome::Stop,
            Some(loc) => match joined(prev.url.href, loc) {
                None => Outcome::Fail(Source::InvalidUrl, prev.url),
                Some(target) => if !allowed_scheme(target.scheme) {
                    Outcome::Fail(Source::BadScheme, target)
                } else {
                    match policy {
                        Policy::Never => Outcome::Stop,
                        Policy::Custom => if hops >= usize::MAX {
                            Outcome::Fail(Source::TooManyRedirects, target)
                        } else {
                            Outcome::Ask(next_request(prev, code, target))
                        },
                        Policy::Limited(max) => if hops >= max {
                            Outcome::Fail(Source::TooManyRedirects, target)
                        } else {
                            Outcome::Follow(next_request(prev, code, target))
                        },
                    }
                },
            },
        }
    }
}

/// Whether a decision is the one of the model.
pub open spec fn hop_matches(h: Hop, o: Outcome) -> bool {
    match o {
        Outcome::Stop => h is Stop,
        Outcome::Follow(v) => match h {
            Hop::Follow(q) => q@ == v,
            _ => false,
        },
        Outcome::Ask(v) => match h {
            Hop::Ask(q) => q@ == v,
            _ => false,
        },
        Outcome::Fail(s, u) => match h {
            Hop::Fail(e) => e.kind() == Kind::Redirect && e.source_spec() == Some(s)
                && e.url_spec() == Some(u),
            _ => false,
        },
    }
}

/// Decides what follows the response with `status` and `headers` to `prev`,
/// after `hops` hops under `policy`.
///
/// A response with status 301, 302, 303, 307 or 308 and a `Location`
/// header is a redirect; any other is final. The first `Location` is read
/// against the URL of `prev`. A target that cannot be read, or whose scheme
/// is not allowed, and a hop past the cap, fail with a redirect error. On 301
/// and 302 the method becomes GET unless it was HEAD, on 303 it becomes GET,
/// and in these cases the body is dropped; 307 and 308 keep both. A target
/// of another origin gets no `Authorization` or `Cookie` header. Under a
/// custom policy the request that would follow is handed to the caller's
/// decision instead of being followed.
pub fn next_hop(prev: &Request, status: StatusCode, headers: &Vec<Header>, policy: &Policy, hops: usize) -> (r: Hop)
    ensures
        hop_matches(r, hop_outcome(prev@, status.code(), headers_view(headers@), *policy, hops as nat)),
{
    let code = status.as_u16();
    if !(code == 301 || code == 302 || code == 303 || code == 307 || code == 308) {
        return Hop::Stop;
    }
    let loc = match find_header(headers, "location") {
        Some(l) => l,
        None => return Hop::Stop,
    };
    let target = match prev.url().join(loc.as_str()) {
        Ok(t) => t,
        Err(_) => return Hop::Fail(redirect(Source::InvalidUrl, prev.url().duplicate())),
    };
    if validate(&target).is_err() {
        return Hop::Fail(redirect(Source::BadScheme, target));
    }
    match policy {
        Policy::Never => Hop::Stop,
        Policy::Custom => {
            if hops == usize::MAX {
                Hop::Fail(redirect(Source::TooManyRedirects, target))
            } else {
                Hop::Ask(follow_request(prev, code, target))
            }
        },
        Policy::Limited(max) => {
            if hops >= *max {
                Hop::Fail(redirect(Source::TooManyRedirects, target))
            } else {
                Hop::Follow(follow_request(prev, code, target))
            }
        },
    }
}

/// The request that follows `prev` to `target` after status `code`.
fn follow_request(prev: &Request, code: u16, target: Url) -> (r: Request)
    requires
        redirect_code(code),
    ensures
        r@ == next_request(prev@, code, target@),
{
    let method = if code == 307 || code == 308 {
        prev.method()
    } else if code != 303 && prev.method() == Method::Head {
        Method::Head
    } else {
        Method::Get
    };
    let next_headers = if prev.url().same_origin(&target) {
        copy_headers(prev.headers())
    } else {
        strip_credentials(prev.headers())
    };
    let body = if code == 307 || code == 308 {
        match prev.body() {
            Some(b) => Some(copy_bytes(b)),
            None => None,
        }
    } else {
        None
    };
    Request::new(method, target, next_headers, body, prev.timeout_ms())
}

/// A 307 or 308 redirect that is followed, or offered to the caller's
/// decision, keeps the method and the body bytes of
/// the request exactly.
pub proof fn lemma_preserving_redirect(
    prev: RequestView,
    code: u16,
    headers: Seq<HeaderView>,
    policy: Policy,
    hops: nat,
    next: RequestView,
)
    requires
        code == 307 || code == 308,
        hop_outcome(prev, code, headers, policy, hops) == Outcome::Follow(next) || hop_outcome(
            prev,
            code,
            headers,
            policy,
            hops,
        ) == Outcome::Ask(next),
    ensures
        next.method == prev.method,
        next.body == prev.body,
{
}

/// A 301, 302 or 303 redirect that is followed, or offered to the caller's
/// decision, drops the body; 303 always switches
/// to GET, and 301 and 302 switch every method but HEAD to GET.
pub proof fn lemma_rewriting_redirect(
    prev: RequestView,
    code: u16,
    headers: Seq<HeaderView>,
    policy: Policy,
    hops: nat,
    next: RequestView,
)
    requires
        code == 301 || code == 302 || code == 303,
        hop_outcome(prev, code, headers, policy, hops) == Outcome::Follow(next) || hop_outcome(
            prev,
            code,
            headers,
            policy,
            hops,
        ) == Outcome::Ask(next),
    ensures
        next.body is None,
        code == 303 ==> next.method == Method::Get,
        prev.method != Method::Head ==> next.method == Method::Get,
        code != 303 && prev.method == Method::Head ==> next.method == Method::Head,
{
}

/// A redirect that is followed, or offered to the caller's decision, to
/// another origin carries no `Authorization` or `Cookie`
/// header; one to the same origin keeps every header as it was.
pub proof fn lemma_credentials_follow_origin(
    prev: RequestView,
    code: u16,
    headers: Seq<HeaderView>,
    policy: Policy,
    hops: nat,
    next: RequestView,
)
    requires
        hop_outcome(prev, code, headers, policy, hops) == Outcome::Follow(next) || hop_outcome(
            prev,
            code,
            headers,
            policy,
            hops,
        ) == Outcome::Ask(next),
    ensures
        !prev.url.same_origin(next.url) ==> forall|i: int|
            0 <= i < next.headers.len() ==> !is_credential(#[trigger] next.headers[i].0),
        prev.url.same_origin(next.url) ==> next.headers == prev.headers,
{
    crate::request::lemma_no_credentials_left(prev.headers);
}

/// Under a cap of `max` hops, a redirect after `max` hops fails with a
/// redirect error that carries the target that was not followed; before
/// that, every redirect to an allowed target is followed.
pub proof fn lemma_hop_cap(
    prev: RequestView,
    code: u16,
    headers: Seq<HeaderView>,
    max: usize,
    hops: nat,
    loc: Seq<char>,
    target: UrlView,
)
    requires
        redirect_code(code),
        first_named(headers, "location"@) == Some(loc),
        joined(prev.url.href, loc) == Some(target),
        allowed_scheme(target.scheme),
    ensures
        hops >= max ==> hop_outcome(prev, code, headers, Policy::Limited(max), hops)
            == Outcome::Fail(Source::TooManyRedirects, target),
        hops < max ==> hop_outcome(prev, code, headers, Policy::Limited(max), hops)
            == Outcome::Follow(next_request(prev, code, target)),
{
}

} // verus!
