//! URLs, parsed by the `url` crate and held here as plain values.
use vstd::prelude::*;

use crate::error::{url_bad_scheme, Error, Kind, Source};
use crate::text::same_text;

verus! {

/// What a parsed URL consists of, as far as this library reads it.
pub struct UrlView {
    /// The whole URL in its normalised serialisation.
    pub href: Seq<char>,
    /// The scheme, lower case.
    pub scheme: Seq<char>,
    /// The host, where the URL has one.
    pub host: Option<Seq<char>>,
    /// The explicit port, or the scheme's default port where it has one.
    pub port: Option<u16>,
}

impl UrlView {
    /// Two URLs have the same origin when scheme, host and port agree.
    pub open spec fn same_origin(self, other: UrlView) -> bool {
        self.scheme == other.scheme && self.host == other.host && self.port == other.port
    }
}

/// What `url::Url::parse` makes of a text, `None` where it refuses it.
pub uninterp spec fn parsed(input: Seq<char>) -> Option<UrlView>;

/// What `url::Url::join` makes of a reference read against the base URL
/// whose serialisation is `base`, `None` where it refuses it.
pub uninterp spec fn joined(base: Seq<char>, input: Seq<char>) -> Option<UrlView>;

#[verifier::external_type_specification]
#[verifier::external_body]
pub struct ExParseError(url::ParseError);

/// A parsed URL.
#[derive(Clone, Debug)]
pub struct Url {
    href: String,
    scheme: String,
    host: Option<String>,
    port: Option<u16>,
}

impl View for Url {
    type V = UrlView;

    closed spec fn view(&self) -> UrlView {
        UrlView {
            href: self.href@,
            scheme: self.scheme@,
            host: match self.host {
                Some(h) => Some(h@),
                None => None,
            },
            port: self.port,
        }
    }
}

/// Relies on `url::Url::parse` to parse `input`, and on its accessors
/// `as_str`, `scheme`, `host_str` and `port_or_known_default` to read the result.
#[verifier::external_body]
fn parse_with_url_crate(input: &str) -> (r: Result<Url, url::ParseError>)
    ensures
        match r {
            Ok(u) => parsed(input@) == Some(u@),
            Err(_) => parsed(input@) is None,
        },
{
    let u = url::Url::parse(input)?;
    Ok(Url {
        href: u.as_str().to_string(),
        scheme: u.scheme().to_string(),
        host: u.host_str().map(|h| h.to_string()),
        port: u.port_or_known_default(),
    })
}

/// Relies on `url::Url::join` to read `input` against the URL serialised as
/// `base`, and on the same accessors as `parse_with_url_crate`.
#[verifier::external_body]
fn join_with_url_crate(base: &str, input: &str) -> (r: Result<Url, url::ParseError>)
    ensures
        match r {
            Ok(u) => joined(base@, input@) == Some(u@),
            Err(_) => joined(base@, input@) is None,
        },
{
    let u = url::Url::parse(base)?.join(input)?;
    Ok(Url {
        href: u.as_str().to_string(),
        scheme: u.scheme().to_string(),
        host: u.host_str().map(|h| h.to_string()),
        port: u.port_or_known_default(),
    })
}

/// Copies an optional text.
fn copy_opt_string(s: &Option<String>) -> (r: Option<String>)
    ensures
        r == *s,
{
    match s {
        Some(t) => Some(t.clone()),
        None => None,
    }
}

impl Url {
    /// Parses an absolute URL.
    pub fn parse(input: &str) -> (r: Result<Url, url::ParseError>)
        ensures
            match r {
                Ok(u) => parsed(input@) == Some(u@),
                Err(_) => parsed(input@) is None,
            },
    {
        parse_with_url_crate(input)
    }

    /// Reads `input` as a reference relative to this URL.
    pub fn join(&self, input: &str) -> (r: Result<Url, url::ParseError>)
        ensures
            match r {
                Ok(u) => joined(self@.href, input@) == Some(u@),
                Err(_) => joined(self@.href, input@) is None,
            },
    {
        join_with_url_crate(self.href.as_str(), input)
    }

    /// The whole URL as text.
    pub fn as_str(&self) -> (r: &str)
        ensures
            r@ == self@.href,
    {
        self.href.as_str()
    }

    /// The scheme.
    pub fn scheme(&self) -> (r: &str)
        ensures
            r@ == self@.scheme,
    {
        self.scheme.as_str()
    }

    /// The host, where there is one.
    pub fn host_str(&self) -> (r: Option<&str>)
        ensures
            match r {
                Some(h) => self@.host == Some(h@),
                None => self@.host is None,
            },
    {
        match &self.host {
            Some(h) => Some(h.as_str()),
            None => None,
        }
    }

    /// The explicit port, or the scheme's default port.
    pub fn port_or_known_default(&self) -> (r: Option<u16>)
        ensures
            r == self@.port,
    {
        self.port
    }

    /// A copy of this URL.
    pub fn duplicate(&self) -> (r: Url)
        ensures
            r@ == self@,
    {
        Url {
            href: self.href.clone(),
            scheme: self.scheme.clone(),
            host: copy_opt_string(&self.host),
            port: self.port,
        }
    }

    /// Whether both URLs have the same scheme, host and port.
    pub fn same_origin(&self, other: &Url) -> (r: bool)
        ensures
            r == self@.same_origin(other@),
    {
        let same_host = match &self.host {
            Some(a) => match &other.host {
                Some(b) => a.eq(b),
                None => false,
            },
            None => other.host.is_none(),
        };
        let same_port = match self.port {
            Some(p) => match other.port {
                Some(q) => p == q,
                None => false,
            },
            None => other.port.is_none(),
        };
        self.scheme.eq(&other.scheme) && same_host && same_port
    }
}

} // verus!

verus! {

/// Whether requests may be made to URLs of the scheme `s`.
pub open spec fn allowed_scheme(s: Seq<char>) -> bool {
    s == "http"@ || s == "https"@
}

/// Accepts a URL whose scheme is `http` or `https`; refuses any other with
/// a builder error that carries the URL and the bad-scheme cause.
pub fn validate(url: &Url) -> (r: Result<(), Error>)
    ensures
        r is Ok <==> allowed_scheme(url@.scheme),
        r matches Err(e) ==> e.kind() == Kind::Builder && e.url_spec() == Some(url@)
            && e.source_spec() == Some(Source::BadScheme),
{
    if same_text(url.scheme(), "http") || same_text(url.scheme(), "https") {
        Ok(())
    } else {
        Err(url_bad_scheme(url.duplicate()))
    }
}

} // verus!
