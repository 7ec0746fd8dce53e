//! Client configuration and the builders of clients and requests.
use vstd::prelude::*;

use crate::error::{builder, Error, Kind, Source};
use crate::execution::{deadline_from, fails_with, Execution, ExecutionView, Step};
use crate::location::{allowed_scheme, parsed, Url, UrlView};
use crate::redirect::Policy;
use crate::request::{copy_headers, headers_view, Header, HeaderView, Method, Request, RequestView};

verus! {

/// Whether `http::header::HeaderName::from_bytes` accepts the bytes of `name`.
pub uninterp spec fn header_name_accepted(name: Seq<char>) -> bool;

/// Whether a character may stand in a header value: a tab, or any character
/// from the space on but DEL. Characters beyond ASCII are encoded as bytes
/// of at least 128, which are all allowed.
pub open spec fn value_char_ok(c: char) -> bool {
    c == '\t' || (c as u32 >= 32 && c as u32 != 127)
}

/// Whether a text may be a header value.
pub open spec fn header_value_ok(v: Seq<char>) -> bool {
    forall|i: int| 0 <= i < v.len() ==> value_char_ok(#[trigger] v[i])
}

/// Relies on `http::header::HeaderName::from_bytes`: whether it accepts the
/// bytes of `name` as a header name.
#[verifier::external_body]
fn check_header_name(name: &str) -> (r: bool)
    ensures
        r == header_name_accepted(name@),
{
    http::header::HeaderName::from_bytes(name.as_bytes()).is_ok()
}

/// Relies on `http::header::HeaderValue::from_str`, which accepts a text
/// exactly when each of its bytes is a tab, or at least 32 and not 127.
#[verifier::external_body]
fn check_header_value(value: &str) -> (r: bool)
    ensures
        r == header_value_ok(value@),
{
    http::header::HeaderValue::from_str(value).is_ok()
}

/// The cause for which a header is refused, where it is.
pub open spec fn header_fault(name: Seq<char>, value: Seq<char>) -> Option<Source> {
    if !header_name_accepted(name) {
        Some(Source::InvalidHeaderName)
    } else if !header_value_ok(value) {
        Some(Source::InvalidHeaderValue)
    } else {
        None
    }
}

/// The cause for which a header is refused, where it is.
pub fn check_header(name: &str, value: &str) -> (r: Option<Source>)
    ensures
        r == header_fault(name@, value@),
{
    if !check_header_name(name) {
        Some(Source::InvalidHeaderName)
    } else if !check_header_value(value) {
        Some(Source::InvalidHeaderValue)
    } else {
        None
    }
}

/// Checks a header; a refused name or value is a builder error.
pub fn make_header(name: &str, value: &str) -> (r: Result<Header, Error>)
    ensures
        match header_fault(name@, value@) {
            None => r matches Ok(h) && h.name@ == name@ && h.value@ == value@,
            Some(s) => r matches Err(e) && e.kind() == Kind::Builder && e.source_spec()
                == Some(s) && e.url_spec() is None,
        },
{
    match check_header(name, value) {
        Some(s) => Err(builder(s)),
        None => Ok(Header { name: String::from_str(name), value: String::from_str(value) }),
    }
}

/// The configuration of a client.
pub struct ConfigView {
    pub headers: Seq<HeaderView>,
    pub policy: Policy,
    pub timeout_ms: Option<u64>,
    pub connect_timeout_ms: Option<u64>,
    pub cookie_store: bool,
}

/// The configuration a client starts from: no default headers, at most ten
/// redirect hops, no timeouts, no cookie store.
pub open spec fn default_config() -> ConfigView {
    ConfigView {
        headers: Seq::empty(),
        policy: Policy::Limited(10),
        timeout_ms: None,
        connect_timeout_ms: None,
        cookie_store: false,
    }
}

/// A client: a configuration that does not change once built, shared by
/// the requests made with it.
#[derive(Clone, Debug)]
pub struct Client {
    default_headers: Vec<Header>,
    policy: Policy,
    timeout_ms: Option<u64>,
    connect_timeout_ms: Option<u64>,
    cookie_store: bool,
}

impl View for Client {
    type V = ConfigView;

    closed spec fn view(&self) -> ConfigView {
        ConfigView {
            headers: headers_view(self.default_headers@),
            policy: self.policy,
            timeout_ms: self.timeout_ms,
            connect_timeout_ms: self.connect_timeout_ms,
            cookie_store: self.cookie_store,
        }
    }
}

/// A client builder: the configuration so far, and the cause of the first
/// option that was refused.
pub struct ClientBuilderView {
    pub config: ConfigView,
    pub fault: Option<Source>,
}

/// Builds a `Client`; a refused option makes `build` fail.
#[derive(Debug)]
pub struct ClientBuilder {
    default_headers: Vec<Header>,
    policy: Policy,
    timeout_ms: Option<u64>,
    connect_timeout_ms: Option<u64>,
    cookie_store: bool,
    fault: Option<Source>,
}

impl View for ClientBuilder {
    type V = ClientBuilderView;

    closed spec fn view(&self) -> ClientBuilderView {
        ClientBuilderView {
            config: ConfigView {
                headers: headers_view(self.default_headers@),
                policy: self.policy,
                timeout_ms: self.timeout_ms,
                connect_timeout_ms: self.connect_timeout_ms,
                cookie_store: self.cookie_store,
            },
            fault: self.fault,
        }
    }
}

impl ClientBuilder {
    /// A builder with the default configuration.
    pub fn new() -> (r: ClientBuilder)
        ensures
            r@ == (ClientBuilderView { config: default_config(), fault: None }),
    {
        let b = ClientBuilder {
            default_headers: Vec::new(),
            policy: Policy::Limited(crate::redirect::DEFAULT_MAX_REDIRECTS),
            timeout_ms: None,
            connect_timeout_ms: None,
            cookie_store: false,
            fault: None,
        };
        assert(headers_view(b.default_headers@) =~= Seq::empty());
        b
    }

    /// Adds a header sent with every request. A refused name or value is
    /// recorded, where no option was refused before.
    pub fn default_header(self, name: &str, value: &str) -> (r: ClientBuilder)
        ensures
            self@.fault is Some ==> r@ == self@,
            self@.fault is None ==> match header_fault(name@, value@) {
                None => r@ == (ClientBuilderView {
                    config: ConfigView { headers: self@.config.headers.push((name@, value@)), ..self@.config },
                    ..self@
                }),
                Some(s) => r@ == (ClientBuilderView { fault: Some(s), ..self@ }),
            },
    {
        let mut b = self;
        if b.fault.is_some() {
            return b;
        }
        match check_header(name, value) {
            None => {
                let ghost before = b.default_headers@;
                b.default_headers.push(Header { name: String::from_str(name), value: String::from_str(value) });
                assert(headers_view(b.default_headers@) =~= headers_view(before).push((name@, value@)));
            },
            Some(s) => {
                b.fault = Some(s);
            },
        }
        b
    }

    /// Sets the total deadline of each call, over all its hops.
    pub fn timeout(self, ms: u64) -> (r: ClientBuilder)
        ensures
            r@ == (ClientBuilderView { config: ConfigView { timeout_ms: Some(ms), ..self@.config }, ..self@ }),
    {
        let mut b = self;
        b.timeout_ms = Some(ms);
        b
    }

    /// Sets the bound on establishing each connection.
    pub fn connect_timeout(self, ms: u64) -> (r: ClientBuilder)
        ensures
            r@ == (ClientBuilderView {
                config: ConfigView { connect_timeout_ms: Some(ms), ..self@.config },
                ..self@
            }),
    {
        let mut b = self;
        b.connect_timeout_ms = Some(ms);
        b
    }

    /// Sets the redirect policy.
    pub fn redirect(self, policy: Policy) -> (r: ClientBuilder)
        ensures
            r@ == (ClientBuilderView { config: ConfigView { policy, ..self@.config }, ..self@ }),
    {
        let mut b = self;
        b.policy = policy;
        b
    }

    /// Turns the shared cookie store on or off.
    pub fn cookie_store(self, enable: bool) -> (r: ClientBuilder)
        ensures
            r@ == (ClientBuilderView { config: ConfigView { cookie_store: enable, ..self@.config }, ..self@ }),
    {
        let mut b = self;
        b.cookie_store = enable;
        b
    }

    /// The client, or the builder error of the first refused option.
    pub fn build(self) -> (r: Result<Client, Error>)
        ensures
            match self@.fault {
                None => r matches Ok(c) && c@ == self@.config,
                Some(s) => r matches Err(e) && e.kind() == Kind::Builder && e.source_spec() == Some(s),
            },
    {
        match self.fault {
            Some(s) => Err(builder(s)),
            None => Ok(Client {
                default_headers: self.default_headers,
                policy: self.policy,
                timeout_ms: self.timeout_ms,
                connect_timeout_ms: self.connect_timeout_ms,
                cookie_store: self.cookie_store,
            }),
        }
    }
}

impl Client {
    /// A client with the default configuration.
    pub fn new() -> (r: Client)
        ensures
            r@ == default_config(),
    {
        let c = Client {
            default_headers: Vec::new(),
            policy: Policy::Limited(crate::redirect::DEFAULT_MAX_REDIRECTS),
            timeout_ms: None,
            connect_timeout_ms: None,
            cookie_store: false,
        };
        assert(headers_view(c.default_headers@) =~= Seq::empty());
        c
    }

    /// A builder with the default configuration.
    pub fn builder() -> (r: ClientBuilder)
        ensures
            r@ == (ClientBuilderView { config: default_config(), fault: None }),
    {
        ClientBuilder::new()
    }

    /// Whether the shared cookie store is on.
    pub fn cookie_store(&self) -> (r: bool)
        ensures
            r == self@.cookie_store,
    {
        self.cookie_store
    }

    /// Starts a request with `method` to the URL written `url`, seeded with
    /// the default headers. A URL that cannot be parsed is a builder error
    /// that `RequestBuilder::build` reports.
    pub fn request(&self, method: Method, url: &str) -> (r: RequestBuilder)
        ensures
            r@ == (RequestBuilderView {
                method,
                url: parsed(url@),
                headers: self@.headers,
                body: None,
                timeout_ms: None,
                fault: if parsed(url@) is Some {
                    None
                } else {
                    Some(Source::InvalidUrl)
                },
            }),
    {
        let headers = copy_headers(&self.default_headers);
        let (parsed_url, fault) = match Url::parse(url) {
            Ok(u) => (Some(u), None),
            Err(_) => (None, Some(Source::InvalidUrl)),
        };
        RequestBuilder { method, url: parsed_url, headers, body: None, timeout_ms: None, fault }
    }

    /// Starts a GET request.
    pub fn get(&self, url: &str) -> (r: RequestBuilder)
        ensures
            r@ == self.request_spec(Method::Get, url@),
    {
        self.request(Method::Get, url)
    }

    /// Starts a POST request.
    pub fn post(&self, url: &str) -> (r: RequestBuilder)
        ensures
            r@ == self.request_spec(Method::Post, url@),
    {
        self.request(Method::Post, url)
    }

    /// Starts a PUT request.
    pub fn put(&self, url: &str) -> (r: RequestBuilder)
        ensures
            r@ == self.request_spec(Method::Put, url@),
    {
        self.request(Method::Put, url)
    }

    /// Starts a PATCH request.
    pub fn patch(&self, url: &str) -> (r: RequestBuilder)
        ensures
            r@ == self.request_spec(Method::Patch, url@),
    {
        self.request(Method::Patch, url)
    }

    /// Starts a DELETE request.
    pub fn delete(&self, url: &str) -> (r: RequestBuilder)
        ensures
            r@ == self.request_spec(Method::Delete, url@),
    {
        self.request(Method::Delete, url)
    }

    /// Starts a HEAD request.
    pub fn head(&self, url: &str) -> (r: RequestBuilder)
        ensures
            r@ == self.request_spec(Method::Head, url@),
    {
        self.request(Method::Head, url)
    }

    /// The builder that `request` returns.
    pub open spec fn request_spec(self, method: Method, url: Seq<char>) -> RequestBuilderView {
        RequestBuilderView {
            method,
            url: parsed(url),
            headers: self@.headers,
            body: None,
            timeout_ms: None,
            fault: if parsed(url) is Some {
                None
            } else {
                Some(Source::InvalidUrl)
            },
        }
    }

    /// Starts the call of `request` at time `now` under this client's
    /// redirect policy and timeouts.
    pub fn start(&self, request: Request, now: u64) -> (r: (Execution, Step))
        ensures
            r.0.wf(),
            r.0@ == (ExecutionView {
                current: request@,
                deadline: deadline_from(now, request@.timeout_ms, self@.timeout_ms),
                connect_timeout_ms: self@.connect_timeout_ms,
                policy: self@.policy,
                hops: 0,
                visited: Seq::empty(),
                pending: None,
            }),
            allowed_scheme(request@.url.scheme) ==> r.1 is Send,
            !allowed_scheme(request@.url.scheme) ==> fails_with(
                r.1,
                Kind::Builder,
                Some(Source::BadScheme),
                Some(request@.url),
            ),
    {
        Execution::start(request, self.policy, self.timeout_ms, self.connect_timeout_ms, now)
    }
}

/// A request under construction, and the cause of the first refused part.
pub struct RequestBuilderView {
    pub method: Method,
    pub url: Option<UrlView>,
    pub headers: Seq<HeaderView>,
    pub body: Option<Seq<u8>>,
    pub timeout_ms: Option<u64>,
    pub fault: Option<Source>,
}

/// Builds a `Request`.
#[derive(Debug)]
pub struct RequestBuilder {
    method: Method,
    url: Option<Url>,
    headers: Vec<Header>,
    body: Option<Vec<u8>>,
    timeout_ms: Option<u64>,
    fault: Option<Source>,
}

impl View for RequestBuilder {
    type V = RequestBuilderView;

    closed spec fn view(&self) -> RequestBuilderView {
        RequestBuilderView {
            method: self.method,
            url: match self.url {
                Some(u) => Some(u@),
                None => None,
            },
            headers: headers_view(self.headers@),
            body: match self.body {
                Some(b) => Some(b@),
                None => None,
            },
            timeout_ms: self.timeout_ms,
            fault: self.fault,
        }
    }
}

impl RequestBuilder {
    /// Adds a header. A refused name or value is recorded, where no part was
    /// refused before.
    pub fn header(self, name: &str, value: &str) -> (r: RequestBuilder)
        ensures
            self@.fault is Some ==> r@ == self@,
            self@.fault is None ==> match header_fault(name@, value@) {
                None => r@ == (RequestBuilderView { headers: self@.headers.push((name@, value@)), ..self@ }),
                Some(s) => r@ == (RequestBuilderView { fault: Some(s), ..self@ }),
            },
    {
        let mut b = self;
        if b.fault.is_some() {
            return b;
        }
        match check_header(name, value) {
            None => {
                let ghost before = b.headers@;
                b.headers.push(Header { name: String::from_str(name), value: String::from_str(value) });
                assert(headers_view(b.headers@) =~= headers_view(before).push((name@, value@)));
            },
            Some(s) => {
                b.fault = Some(s);
            },
        }
        b
    }

    /// Sets the body.
    pub fn body(self, bytes: Vec<u8>) -> (r: RequestBuilder)
        ensures
            r@ == (RequestBuilderView { body: Some(bytes@), ..self@ }),
    {
        let mut b = self;
        b.body = Some(bytes);
        b
    }

    /// Sets the total deadline of this call, over all its hops, in place of
    /// the client's.
    pub fn timeout(self, ms: u64) -> (r: RequestBuilder)
        ensures
            r@ == (RequestBuilderView { timeout_ms: Some(ms), ..self@ }),
    {
        let mut b = self;
        b.timeout_ms = Some(ms);
        b
    }

    /// The request, or the builder error of the first refused part.
    pub fn build(self) -> (r: Result<Request, Error>)
        ensures
            match (self@.fault, self@.url) {
                (Some(s), _) => r matches Err(e) && e.kind() == Kind::Builder && e.source_spec() == Some(s),
                (None, None) => r matches Err(e) && e.kind() == Kind::Builder && e.source_spec() == Some(
                    Source::InvalidUrl,
                ),
                (None, Some(u)) => r matches Ok(q) && q@ == (RequestView {
                    method: self@.method,
                    url: u,
                    headers: self@.headers,
                    body: self@.body,
                    timeout_ms: self@.timeout_ms,
                }),
            },
    {
        match self.fault {
            Some(s) => Err(builder(s)),
            None => match self.url {
                None => Err(builder(Source::InvalidUrl)),
                Some(u) => Ok(Request::new(self.method, u, self.headers, self.body, self.timeout_ms)),
            },
        }
    }
}

} // verus!
