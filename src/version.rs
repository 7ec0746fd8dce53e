//! HTTP protocol versions, carried as an opaque tag.
use vstd::prelude::*;

verus! {

/// The protocol versions that can be told apart.
#[derive(Clone, Copy, Debug, PartialEq, Eq, Structural, PartialOrd, Ord, Hash)]
pub enum Http {
    Http09,
    Http10,
    Http11,
    H2,
    H3,
}

/// A version of the HTTP protocol.
#[derive(Clone, Copy, Debug, PartialEq, Eq, Structural, PartialOrd, Ord, Hash)]
pub struct Version(pub Http);

impl Version {
    /// `HTTP/0.9`
    pub fn http_09() -> (r: Version)
        ensures
            r == Version(Http::Http09),
    {
        Version(Http::Http09)
    }

    /// `HTTP/1.0`
    pub fn http_10() -> (r: Version)
        ensures
            r == Version(Http::Http10),
    {
        Version(Http::Http10)
    }

    /// `HTTP/1.1`
    pub fn http_11() -> (r: Version)
        ensures
            r == Version(Http::Http11),
    {
        Version(Http::Http11)
    }

    /// `HTTP/2.0`
    pub fn http_2() -> (r: Version)
        ensures
            r == Version(Http::H2),
    {
        Version(Http::H2)
    }

    /// `HTTP/3.0`
    pub fn http_3() -> (r: Version)
        ensures
            r == Version(Http::H3),
    {
        Version(Http::H3)
    }

    /// The version's name as written in a status line.
    pub open spec fn spec_name(self) -> Seq<char> {
        match self.0 {
            Http::Http09 => "HTTP/0.9"@,
            Http::Http10 => "HTTP/1.0"@,
            Http::Http11 => "HTTP/1.1"@,
            Http::H2 => "HTTP/2.0"@,
            Http::H3 => "HTTP/3.0"@,
        }
    }

    /// The version's name as written in a status line.
    pub fn name(&self) -> (r: &'static str)
        ensures
            r@ == self.spec_name(),
    {
        match self.0 {
            Http::Http09 => "HTTP/0.9",
            Http::Http10 => "HTTP/1.0",
            Http::Http11 => "HTTP/1.1",
            Http::H2 => "HTTP/2.0",
            Http::H3 => "HTTP/3.0",
        }
    }
}

impl Default for Version {
    fn default() -> (r: Version)
        ensures
            r == Version(Http::Http11),
    {
        Version::http_11()
    }
}

} // verus!
