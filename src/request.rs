//! Requests, responses and their header lists.
use vstd::prelude::*;

use crate::location::{Url, UrlView};
use crate::status::StatusCode;
use crate::text::{same_ignoring_case, same_text_ignoring_case};
use crate::version::Version;

verus! {

/// A request method.
#[derive(Clone, Copy, Debug, PartialEq, Eq, Structural)]
pub enum Method {
    Options,
    Get,
    Post,
    Put,
    Delete,
    Head,
    Trace,
    Connect,
    Patch,
}

/// One header line: a name and a value.
#[derive(Clone, Debug)]
pub struct Header {
    pub name: String,
    pub value: String,
}

/// A header as a pair of texts.
pub type HeaderView = (Seq<char>, Seq<char>);

/// The view of a list of headers.
pub open spec fn headers_view(h: Seq<Header>) -> Seq<HeaderView> {
    h.map_values(|x: Header| (x.name@, x.value@))
}

/// The value of the first header at or after position `i` whose name is
/// `name`, up to the case of ASCII letters.
pub open spec fn first_named_from(h: Seq<HeaderView>, name: Seq<char>, i: int) -> Option<Seq<char>>
    decreases h.len() - i,
{
    if i < 0 || i >= h.len() {
        None
    } else if same_ignoring_case(h[i].0, name) {
        Some(h[i].1)
    } else {
        first_named_from(h, name, i + 1)
    }
}

/// The value of the first header named `name`, up to the case of ASCII letters.
pub open spec fn first_named(h: Seq<HeaderView>, name: Seq<char>) -> Option<Seq<char>> {
    first_named_from(h, name, 0)
}

/// Whether a header carries credentials bound to an origin.
pub open spec fn is_credential(name: Seq<char>) -> bool {
    same_ignoring_case(name, "authorization"@) || same_ignoring_case(name, "cookie"@)
}

/// The headers without those that carry credentials, in their order.
pub open spec fn without_credentials(h: Seq<HeaderView>) -> Seq<HeaderView>
    decreases h.len(),
{
    if h.len() == 0 {
        h
    } else {
        let rest = without_credentials(h.drop_last());
        if is_credential(h.last().0) {
            rest
        } else {
            rest.push(h.last())
        }
    }
}

/// No header that carries credentials is left after they are stripped.
pub proof fn lemma_no_credentials_left(h: Seq<HeaderView>)
    ensures
        forall|i: int|
            0 <= i < without_credentials(h).len() ==> !is_credential(
                #[trigger] without_credentials(h)[i].0,
            ),
    decreases h.len(),
{
    if h.len() > 0 {
        let rest = without_credentials(h.drop_last());
        lemma_no_credentials_left(h.drop_last());
        assert forall|i: int| 0 <= i < without_credentials(h).len() implies !is_credential(
            #[trigger] without_credentials(h)[i].0,
        ) by {
            if i < rest.len() {
                assert(without_credentials(h)[i] == rest[i]);
            }
        }
    }
}

/// A copy of a header.
pub fn copy_header(h: &Header) -> (r: Header)
    ensures
        r.name@ == h.name@,
        r.value@ == h.value@,
{
    Header { name: h.name.clone(), value: h.value.clone() }
}

/// A copy of a header list.
pub fn copy_headers(h: &Vec<Header>) -> (r: Vec<Header>)
    ensures
        headers_view(r@) == headers_view(h@),
{
    let mut out: Vec<Header> = Vec::new();
    let mut i: usize = 0;
    while i < h.len()
        invariant
            i <= h@.len(),
            out@.len() == i,
            forall|j: int| 0 <= j < i ==> out@[j].name@ == h@[j].name@ && out@[j].value@ == h@[j].value@,
        decreases h@.len() - i,
    {
        out.push(copy_header(&h[i]));
        i = i + 1;
    }
    assert(headers_view(out@) =~= headers_view(h@));
    out
}

/// The value of the first header named `name`, up to the case of ASCII letters.
pub fn find_header<'a>(h: &'a Vec<Header>, name: &str) -> (r: Option<&'a String>)
    ensures
        match r {
            Some(v) => first_named(headers_view(h@), name@) == Some(v@),
            None => first_named(headers_view(h@), name@) is None,
        },
{
    let ghost hv = headers_view(h@);
    let mut i: usize = 0;
    while i < h.len()
        invariant
            i <= h@.len(),
            hv == headers_view(h@),
            first_named(hv, name@) == first_named_from(hv, name@, i as int),
        decreases h@.len() - i,
    {
        if same_text_ignoring_case(h[i].name.as_str(), name) {
            return Some(&h[i].value);
        }
        i = i + 1;
    }
    None
}

/// A copy of a header list without the headers that carry credentials.
pub fn strip_credentials(h: &Vec<Header>) -> (r: Vec<Header>)
    ensures
        headers_view(r@) == without_credentials(headers_view(h@)),
{
    let ghost hv = headers_view(h@);
    let mut out: Vec<Header> = Vec::new();
    let mut i: usize = 0;
    while i < h.len()
        invariant
            i <= h@.len(),
            hv == headers_view(h@),
            headers_view(out@) == without_credentials(hv.subrange(0, i as int)),
        decreases h@.len() - i,
    {
        let name = h[i].name.as_str();
        let credential = same_text_ignoring_case(name, "authorization")
            || same_text_ignoring_case(name, "cookie");
        assert(hv.subrange(0, i + 1).drop_last() =~= hv.subrange(0, i as int));
        if !credential {
            let ghost before = out@;
            out.push(copy_header(&h[i]));
            assert(headers_view(out@) =~= headers_view(before).push(hv[i as int]));
        }
        i = i + 1;
    }
    assert(hv.subrange(0, h@.len() as int) =~= hv);
    out
}

/// A copy of a byte sequence.
pub fn copy_bytes(b: &Vec<u8>) -> (r: Vec<u8>)
    ensures
        r@ == b@,
{
    let mut out: Vec<u8> = Vec::new();
    let mut i: usize = 0;
    while i < b.len()
        invariant
            i <= b@.len(),
            out@ =~= b@.subrange(0, i as int),
        decreases b@.len() - i,
    {
        out.push(b[i]);
        i = i + 1;
    }
    assert(out@ =~= b@);
    out
}

/// What a request consists of.
pub struct RequestView {
    pub method: Method,
    pub url: UrlView,
    pub headers: Seq<HeaderView>,
    pub body: Option<Seq<u8>>,
    pub timeout_ms: Option<u64>,
}

/// One attempt at an HTTP exchange. It does not change once built.
#[derive(Debug)]
pub struct Request {
    method: Method,
    url: Url,
    headers: Vec<Header>,
    body: Option<Vec<u8>>,
    timeout_ms: Option<u64>,
}

impl View for Request {
    type V = RequestView;

    closed spec fn view(&self) -> RequestView {
        RequestView {
            method: self.method,
            url: self.url@,
            headers: headers_view(self.headers@),
            body: match self.body {
                Some(b) => Some(b@),
                None => None,
            },
            timeout_ms: self.timeout_ms,
        }
    }
}

impl Request {
    /// A request from its parts.
    pub fn new(
        method: Method,
        url: Url,
        headers: Vec<Header>,
        body: Option<Vec<u8>>,
        timeout_ms: Option<u64>,
    ) -> (r: Request)
        ensures
            r@ == (RequestView {
                method,
                url: url@,
                headers: headers_view(headers@),
                body: match body {
                    Some(b) => Some(b@),
                    None => None,
                },
                timeout_ms,
            }),
    {
        Request { method, url, headers, body, timeout_ms }
    }

    /// The method.
    pub fn method(&self) -> (r: Method)
        ensures
            r == self@.method,
    {
        self.method
    }

    /// The URL.
    pub fn url(&self) -> (r: &Url)
        ensures
            r@ == self@.url,
    {
        &self.url
    }

    /// The headers, in their order.
    pub fn headers(&self) -> (r: &Vec<Header>)
        ensures
            headers_view(r@) == self@.headers,
    {
        &self.headers
    }

    /// The body, where there is one.
    pub fn body(&self) -> (r: Option<&Vec<u8>>)
        ensures
            match r {
                Some(b) => self@.body == Some(b@),
                None => self@.body is None,
            },
    {
        self.body.as_ref()
    }

    /// The total deadline of this request in milliseconds, where it
    /// overrides the client's.
    pub fn timeout_ms(&self) -> (r: Option<u64>)
        ensures
            r == self@.timeout_ms,
    {
        self.timeout_ms
    }
}

/// What a response consists of.
pub struct ResponseView {
    pub status: StatusCode,
    pub version: Version,
    pub headers: Seq<HeaderView>,
    pub url: UrlView,
    pub body: Seq<u8>,
}

/// A response with its body read in full.
#[derive(Debug)]
pub struct Response {
    status: StatusCode,
    version: Version,
    headers: Vec<Header>,
    url: Url,
    body: Vec<u8>,
}

impl View for Response {
    type V = ResponseView;

    closed spec fn view(&self) -> ResponseView {
        ResponseView {
            status: self.status,
            version: self.version,
            headers: headers_view(self.headers@),
            url: self.url@,
            body: self.body@,
        }
    }
}

impl Response {
    /// A response from its parts.
    pub fn new(status: StatusCode, version: Version, headers: Vec<Header>, url: Url, body: Vec<u8>) -> (r: Response)
        ensures
            r@ == (ResponseView {
                status,
                version,
                headers: headers_view(headers@),
                url: url@,
                body: body@,
            }),
    {
        Response { status, version, headers, url, body }
    }

    /// The status code.
    pub fn status(&self) -> (r: StatusCode)
        ensures
            r == self@.status,
    {
        self.status
    }

    /// The protocol version.
    pub fn version(&self) -> (r: Version)
        ensures
            r == self@.version,
    {
        self.version
    }

    /// The headers, in their order.
    pub fn headers(&self) -> (r: &Vec<Header>)
        ensures
            headers_view(r@) == self@.headers,
    {
        &self.headers
    }

    /// The URL that answered.
    pub fn url(&self) -> (r: &Url)
        ensures
            r@ == self@.url,
    {
        &self.url
    }

    /// The body.
    pub fn body(&self) -> (r: &Vec<u8>)
        ensures
            r@ == self@.body,
    {
        &self.body
    }

    /// The same response, as answered by `url`.
    pub fn with_url(self, url: Url) -> (r: Response)
        ensures
            r@ == (ResponseView { url: url@, ..self@ }),
    {
        let mut r = self;
        r.url = url;
        r
    }
}

} // verus!
