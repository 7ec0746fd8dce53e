//! The closed taxonomy of failures.
use vstd::prelude::*;

use crate::location::{Url, UrlView};
use crate::request::{Response, ResponseView};
use crate::status::StatusCode;

verus! {

/// The category of a failure.
#[derive(Clone, Copy, Debug, PartialEq, Eq, Structural)]
pub enum Kind {
    Builder,
    Request,
    Redirect,
    Status(StatusCode),
    Body,
    Decode,
    Serialization,
}

/// The local cause of a failure. It is not carried across the isolation
/// boundary, except for the fact that it was a timeout.
#[derive(Debug)]
pub enum Source {
    /// The deadline of the call passed.
    TimedOut,
    /// A URL had a scheme other than `http` or `https`.
    BadScheme,
    /// A text could not be read as a URL.
    InvalidUrl,
    /// A redirect chain went past its hop cap.
    TooManyRedirects,
    /// A header name was refused.
    InvalidHeaderName,
    /// A header value was refused.
    InvalidHeaderValue,
    /// Any other failure, by its description.
    Message(String),
    /// A failure of this library, wrapped by another one.
    Wrapped(Box<Error>),
}

#[derive(Debug)]
struct Inner {
    kind: Kind,
    source: Option<Source>,
    url: Option<Url>,
}

/// A failure while processing a request.
///
/// An error may carry the full URL of the request; strip it with
/// `without_url` where it holds sensitive data.
#[derive(Debug)]
pub struct Error {
    inner: Box<Inner>,
}

/// What an error amounts to once its cause chain is left aside.
pub struct ErrorView {
    pub kind: Kind,
    pub url: Option<UrlView>,
    pub timed_out: bool,
}

/// The view of an optional URL.
pub open spec fn opt_url_view(u: Option<Url>) -> Option<UrlView> {
    match u {
        Some(x) => Some(x@),
        None => None,
    }
}

/// The fixed description of a cause that is not itself an error of this library.
pub open spec fn plain_source_text(s: Source) -> Seq<char> {
    match s {
        Source::TimedOut => "operation timed out"@,
        Source::BadScheme => "URL scheme is not allowed"@,
        Source::InvalidUrl => "invalid URL"@,
        Source::TooManyRedirects => "too many redirects"@,
        Source::InvalidHeaderName => "invalid HTTP header name"@,
        Source::InvalidHeaderValue => "failed to parse header value"@,
        Source::Message(m) => m@,
        Source::Wrapped(_) => Seq::empty(),
    }
}

/// The text of one decimal digit.
pub open spec fn digit_text(d: nat) -> Seq<char> {
    if d == 0 {
        "0"@
    } else if d == 1 {
        "1"@
    } else if d == 2 {
        "2"@
    } else if d == 3 {
        "3"@
    } else if d == 4 {
        "4"@
    } else if d == 5 {
        "5"@
    } else if d == 6 {
        "6"@
    } else if d == 7 {
        "7"@
    } else if d == 8 {
        "8"@
    } else {
        "9"@
    }
}

/// The decimal notation of `n`, without leading zeros.
pub open spec fn decimal(n: nat) -> Seq<char>
    decreases n,
{
    if n < 10 {
        digit_text(n)
    } else {
        decimal(n / 10) + digit_text(n % 10)
    }
}

/// The description of a kind.
pub open spec fn kind_text(k: Kind) -> Seq<char> {
    match k {
        Kind::Builder => "builder error"@,
        Kind::Request => "error sending request"@,
        Kind::Body => "request or response body error"@,
        Kind::Decode => "error decoding response body"@,
        Kind::Redirect => "error following redirect"@,
        Kind::Serialization => "error while serialising body"@,
        Kind::Status(s) => if 400 <= s.code() <= 499 {
            "HTTP status client error ("@ + decimal(s.code() as nat) + ")"@
        } else {
            "HTTP status server error ("@ + decimal(s.code() as nat) + ")"@
        },
    }
}

/// The status code that a kind carries.
pub open spec fn status_of(k: Kind) -> Option<StatusCode> {
    match k {
        Kind::Status(s) => Some(s),
        _ => None,
    }
}

/// One for a predicate that holds, zero for one that does not.
pub open spec fn count(b: bool) -> int {
    if b {
        1
    } else {
        0
    }
}

/// How many of the kind predicates hold of `k`.
pub open spec fn kinds_answered(k: Kind) -> int {
    count(k is Builder) + count(k is Request) + count(k is Redirect) + count(k is Status)
        + count(k is Body) + count(k is Decode) + count(k is Serialization)
}

/// Every error answers exactly one of the kind predicates `is_builder`,
/// `is_request`, `is_redirect`, `is_status`, `is_body`, `is_decode` and
/// `is_serialization`, and `status` returns a code exactly when it answers
/// `is_status`.
pub proof fn lemma_one_kind(e: Error)
    ensures
        kinds_answered(e.kind()) == 1,
        status_of(e.kind()) is Some <==> e.kind() is Status,
{
}

fn digit_str(d: u16) -> (r: &'static str)
    requires
        d < 10,
    ensures
        r@ == digit_text(d as nat),
{
    if d == 0 {
        "0"
    } else if d == 1 {
        "1"
    } else if d == 2 {
        "2"
    } else if d == 3 {
        "3"
    } else if d == 4 {
        "4"
    } else if d == 5 {
        "5"
    } else if d == 6 {
        "6"
    } else if d == 7 {
        "7"
    } else if d == 8 {
        "8"
    } else {
        "9"
    }
}

/// Appends the decimal notation of `n`.
fn push_decimal(out: &mut String, n: u16)
    ensures
        final(out)@ == old(out)@ + decimal(n as nat),
    decreases n,
{
    if n >= 10 {
        push_decimal(out, n / 10);
    }
    out.append(digit_str(n % 10));
    proof {
        assert(decimal(n as nat) == if n < 10 {
            digit_text(n as nat)
        } else {
            decimal((n / 10) as nat) + digit_text((n % 10) as nat)
        });
    }
}

fn kind_string(k: &Kind) -> (r: String)
    ensures
        r@ == kind_text(*k),
{
    match k {
        Kind::Builder => String::from_str("builder error"),
        Kind::Request => String::from_str("error sending request"),
        Kind::Body => String::from_str("request or response body error"),
        Kind::Decode => String::from_str("error decoding response body"),
        Kind::Redirect => String::from_str("error following redirect"),
        Kind::Serialization => String::from_str("error while serialising body"),
        Kind::Status(s) => {
            let mut out = if s.is_client_error() {
                String::from_str("HTTP status client error (")
            } else {
                String::from_str("HTTP status server error (")
            };
            push_decimal(&mut out, s.as_u16());
            out.append(")");
            out
        },
    }
}

impl Error {
    /// The error's kind.
    pub closed spec fn kind(self) -> Kind {
        self.inner.kind
    }

    /// The URL attached to the error.
    pub closed spec fn url_spec(self) -> Option<UrlView> {
        opt_url_view(self.inner.url)
    }

    /// The local cause.
    pub closed spec fn source_spec(self) -> Option<Source> {
        self.inner.source
    }

    /// Whether the timeout marker stands anywhere in the cause chain.
    pub open spec fn timed_out(self) -> bool
        decreases self,
    {
        match self.source_spec() {
            Some(Source::TimedOut) => true,
            Some(Source::Wrapped(e)) => e.timed_out(),
            _ => false,
        }
    }

    /// The description of the error: its kind, its URL and its causes.
    pub open spec fn text(self) -> Seq<char>
        decreases self,
    {
        let head = kind_text(self.kind());
        let with_url = match self.url_spec() {
            Some(u) => head + " for url ("@ + u.href + ")"@,
            None => head,
        };
        match self.source_spec() {
            Some(Source::Wrapped(e)) => with_url + ": "@ + e.text(),
            Some(s) => with_url + ": "@ + plain_source_text(s),
            None => with_url,
        }
    }

    /// Makes an error of the given kind and cause, without a URL.
    pub fn new(kind: Kind, source: Option<Source>) -> (r: Error)
        ensures
            r.kind() == kind,
            r.url_spec() is None,
            r.source_spec() == source,
    {
        Error { inner: Box::new(Inner { kind, source, url: None }) }
    }

    /// The URL related to this error, if any.
    pub fn url(&self) -> (r: Option<&Url>)
        ensures
            match r {
                Some(u) => self.url_spec() == Some(u@),
                None => self.url_spec() is None,
            },
    {
        self.inner.url.as_ref()
    }

    /// A mutable reference to the URL related to this error, so that parts
    /// of it can be removed without removing it entirely.
    pub fn url_mut(&mut self) -> (r: Option<&mut Url>)
        ensures
            match r {
                Some(u) => {
                    &&& old(self).url_spec() == Some((*u)@)
                    &&& final(self).url_spec() == Some((*final(u))@)
                },
                None => old(self).url_spec() is None && final(self).url_spec() is None,
            },
            final(self).kind() == old(self).kind(),
            final(self).source_spec() == old(self).source_spec(),
    {
        self.inner.url.as_mut()
    }

    /// Attaches a URL, replacing any that was attached.
    pub fn with_url(self, url: Url) -> (r: Error)
        ensures
            r.kind() == self.kind(),
            r.source_spec() == self.source_spec(),
            r.url_spec() == Some(url@),
    {
        let mut e = self;
        e.inner.url = Some(url);
        e
    }

    /// Removes the attached URL, for example where it holds sensitive data.
    pub fn without_url(self) -> (r: Error)
        ensures
            r.kind() == self.kind(),
            r.source_spec() == self.source_spec(),
            r.url_spec() is None,
    {
        let mut e = self;
        e.inner.url = None;
        e
    }

    /// Whether the error comes from building a client or a request.
    pub fn is_builder(&self) -> (r: bool)
        ensures
            r == (self.kind() is Builder),
    {
        matches!(self.inner.kind, Kind::Builder)
    }

    /// Whether the error comes from following redirects.
    pub fn is_redirect(&self) -> (r: bool)
        ensures
            r == (self.kind() is Redirect),
    {
        matches!(self.inner.kind, Kind::Redirect)
    }

    /// Whether the error stands for an error status of a response.
    pub fn is_status(&self) -> (r: bool)
        ensures
            r == (self.kind() is Status),
    {
        matches!(self.inner.kind, Kind::Status(_))
    }

    /// Whether the error is related to a timeout: the timeout marker stands
    /// somewhere in its cause chain.
    pub fn is_timeout(&self) -> (r: bool)
        ensures
            r == self.timed_out(),
        decreases self,
    {
        match &self.inner.source {
            Some(Source::TimedOut) => true,
            Some(Source::Wrapped(e)) => e.is_timeout(),
            _ => false,
        }
    }

    /// Whether the error is related to sending the request.
    pub fn is_request(&self) -> (r: bool)
        ensures
            r == (self.kind() is Request),
    {
        matches!(self.inner.kind, Kind::Request)
    }

    /// Whether the error is related to the request or response body.
    pub fn is_body(&self) -> (r: bool)
        ensures
            r == (self.kind() is Body),
    {
        matches!(self.inner.kind, Kind::Body)
    }

    /// Whether the error is related to serialising the body.
    pub fn is_serialization(&self) -> (r: bool)
        ensures
            r == (self.kind() is Serialization),
    {
        matches!(self.inner.kind, Kind::Serialization)
    }

    /// Whether the error is related to decoding the response's body.
    pub fn is_decode(&self) -> (r: bool)
        ensures
            r == (self.kind() is Decode),
    {
        matches!(self.inner.kind, Kind::Decode)
    }

    /// The status code, where the error stands for an error status.
    pub fn status(&self) -> (r: Option<StatusCode>)
        ensures
            r == status_of(self.kind()),
    {
        match self.inner.kind {
            Kind::Status(s) => Some(s),
            _ => None,
        }
    }

    /// The description of the error: a text for its kind, then
    /// ` for url (<url>)` where a URL is attached, then `: <cause>` where a
    /// cause is attached.
    pub fn describe(&self) -> (r: String)
        ensures
            r@ == self.text(),
        decreases self,
    {
        let mut out = kind_string(&self.inner.kind);
        match &self.inner.url {
            Some(u) => {
                out.append(" for url (");
                out.append(u.as_str());
                out.append(")");
            },
            None => {},
        }
        match &self.inner.source {
            Some(Source::Wrapped(e)) => {
                out.append(": ");
                let inner = e.describe();
                out.append(inner.as_str());
            },
            Some(s) => {
                out.append(": ");
                out.append(source_str(s));
            },
            None => {},
        }
        out
    }
}

impl View for Error {
    type V = ErrorView;

    open spec fn view(&self) -> ErrorView {
        ErrorView { kind: self.kind(), url: self.url_spec(), timed_out: self.timed_out() }
    }
}

impl Clone for Error {
    /// A copy of the kind and the URL; the local cause is not copied.
    fn clone(&self) -> (r: Error)
        ensures
            r.kind() == self.kind(),
            r.url_spec() == self.url_spec(),
            r.source_spec() is None,
    {
        let url = match &self.inner.url {
            Some(u) => Some(u.duplicate()),
            None => None,
        };
        Error { inner: Box::new(Inner { kind: self.inner.kind, source: None, url }) }
    }
}

/// The form of an error that crosses the isolation boundary: its kind, its
/// URL and whether it was a timeout. No other cause crosses.
#[derive(Clone, Debug)]
pub struct WireError {
    pub kind: Kind,
    pub url: Option<Url>,
    pub timed_out: bool,
}

impl View for WireError {
    type V = ErrorView;

    open spec fn view(&self) -> ErrorView {
        ErrorView { kind: self.kind, url: opt_url_view(self.url), timed_out: self.timed_out }
    }
}

/// The cause that an error gets back when it arrives from the boundary.
pub open spec fn restored_source(timed_out: bool) -> Option<Source> {
    if timed_out {
        Some(Source::TimedOut)
    } else {
        None
    }
}

impl Error {
    /// The form of this error that crosses the isolation boundary.
    pub fn to_wire(&self) -> (r: WireError)
        ensures
            r@ == self@,
    {
        let url = match &self.inner.url {
            Some(u) => Some(u.duplicate()),
            None => None,
        };
        WireError { kind: self.inner.kind, url, timed_out: self.is_timeout() }
    }

    /// The error that arrives from the isolation boundary.
    pub fn from_wire(w: WireError) -> (r: Error)
        ensures
            r@ == w@,
            r.source_spec() == restored_source(w.timed_out),
    {
        let source = if w.timed_out {
            Some(Source::TimedOut)
        } else {
            None
        };
        Error { inner: Box::new(Inner { kind: w.kind, source, url: w.url }) }
    }
}

/// An error sent across the boundary and taken back keeps its kind, its URL
/// and whether it was a timeout; of its cause nothing else is left.
pub proof fn lemma_wire_round_trip(e: Error, w: WireError, back: Error)
    requires
        w@ == e@,
        back@ == w@,
        back.source_spec() == restored_source(w.timed_out),
    ensures
        back.kind() == e.kind(),
        back.url_spec() == e.url_spec(),
        back.timed_out() == e.timed_out(),
        back.source_spec() is None || back.source_spec() == Some(Source::TimedOut),
{
}

/// The outcome of a call in the form that crosses the isolation boundary.
#[derive(Debug)]
pub struct ResponseResult {
    result: Result<Response, WireError>,
}

impl ResponseResult {
    /// Whether the outcome is a response.
    pub closed spec fn is_response(self) -> bool {
        self.result is Ok
    }

    /// The response it carries.
    pub closed spec fn response(self) -> ResponseView {
        self.result->Ok_0@
    }

    /// The error it carries.
    pub closed spec fn error(self) -> ErrorView {
        self.result->Err_0@
    }

    /// Puts the outcome of a call into its boundary form: a response as it
    /// is, an error as its kind, URL and timeout flag.
    pub fn new(outcome: Result<Response, Error>) -> (r: ResponseResult)
        ensures
            r.is_response() == outcome is Ok,
            outcome matches Ok(resp) ==> r.response() == resp@,
            outcome matches Err(e) ==> r.error() == e@,
    {
        match outcome {
            Ok(resp) => ResponseResult { result: Ok(resp) },
            Err(e) => ResponseResult { result: Err(e.to_wire()) },
        }
    }

    /// Takes the outcome back from its boundary form.
    pub fn into_result(self) -> (r: Result<Response, Error>)
        ensures
            r is Ok == self.is_response(),
            r matches Ok(resp) ==> resp@ == self.response(),
            r matches Err(e) ==> e@ == self.error() && e.source_spec() == restored_source(
                self.error().timed_out,
            ),
    {
        match self.result {
            Ok(resp) => Ok(resp),
            Err(w) => Err(Error::from_wire(w)),
        }
    }
}

// constructors

/// A failure in building a client or a request.
pub fn builder(source: Source) -> (r: Error)
    ensures
        r.kind() == Kind::Builder,
        r.source_spec() == Some(source),
        r.url_spec() is None,
{
    Error::new(Kind::Builder, Some(source))
}

/// A failure in serialising a body.
pub fn serialization(source: Source) -> (r: Error)
    ensures
        r.kind() == Kind::Serialization,
        r.source_spec() == Some(source),
        r.url_spec() is None,
{
    Error::new(Kind::Serialization, Some(source))
}

/// A failure in a request or response body.
pub fn body(source: Source) -> (r: Error)
    ensures
        r.kind() == Kind::Body,
        r.source_spec() == Some(source),
        r.url_spec() is None,
{
    Error::new(Kind::Body, Some(source))
}

/// A failure in decoding a response body.
pub fn decode(source: Source) -> (r: Error)
    ensures
        r.kind() == Kind::Decode,
        r.source_spec() == Some(source),
        r.url_spec() is None,
{
    Error::new(Kind::Decode, Some(source))
}

/// A failure in sending a request.
pub fn request(source: Source) -> (r: Error)
    ensures
        r.kind() == Kind::Request,
        r.source_spec() == Some(source),
        r.url_spec() is None,
{
    Error::new(Kind::Request, Some(source))
}

/// The deadline of a call passed while `url` was being requested.
pub fn timeout(url: Url) -> (r: Error)
    ensures
        r.kind() == Kind::Request,
        r.source_spec() == Some(Source::TimedOut),
        r.url_spec() == Some(url@),
        r.timed_out(),
{
    Error::new(Kind::Request, Some(Source::TimedOut)).with_url(url)
}

/// A failure in following a redirect to `url`.
pub fn redirect(source: Source, url: Url) -> (r: Error)
    ensures
        r.kind() == Kind::Redirect,
        r.source_spec() == Some(source),
        r.url_spec() == Some(url@),
{
    Error::new(Kind::Redirect, Some(source)).with_url(url)
}

/// The response from `url` had an error status.
pub fn status_code(url: Url, status: StatusCode) -> (r: Error)
    ensures
        r.kind() == Kind::Status(status),
        r.source_spec() is None,
        r.url_spec() == Some(url@),
{
    Error::new(Kind::Status(status), None).with_url(url)
}

/// `url` has a scheme that is not allowed.
pub fn url_bad_scheme(url: Url) -> (r: Error)
    ensures
        r.kind() == Kind::Builder,
        r.source_spec() == Some(Source::BadScheme),
        r.url_spec() == Some(url@),
{
    Error::new(Kind::Builder, Some(Source::BadScheme)).with_url(url)
}

fn source_str(s: &Source) -> (r: &str)
    requires
        !(s is Wrapped),
    ensures
        r@ == plain_source_text(*s),
{
    match s {
        Source::TimedOut => "operation timed out",
        Source::BadScheme => "URL scheme is not allowed",
        Source::InvalidUrl => "invalid URL",
        Source::TooManyRedirects => "too many redirects",
        Source::InvalidHeaderName => "invalid HTTP header name",
        Source::InvalidHeaderValue => "failed to parse header value",
        Source::Message(m) => m.as_str(),
        Source::Wrapped(_) => "",
    }
}

} // verus!
