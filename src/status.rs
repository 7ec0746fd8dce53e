//! HTTP status codes.
use vstd::prelude::*;

verus! {

/// Whether `code` is a three-digit status code.
pub open spec fn valid_code(code: u16) -> bool {
    100 <= code <= 999
}

/// An HTTP status code, always in `100..=999`.
#[derive(Clone, Copy, Debug, PartialEq, Eq, Structural)]
pub struct StatusCode {
    code: u16,
}

/// The error for a number that is no three-digit status code.
#[derive(Clone, Copy, Debug, PartialEq, Eq, Structural)]
pub struct InvalidStatusCode;

impl StatusCode {
    /// The numeric code.
    pub closed spec fn code(self) -> u16 {
        self.code
    }

    #[verifier::type_invariant]
    spec fn three_digits(self) -> bool {
        valid_code(self.code)
    }

    /// Makes a status code from a number; numbers outside `100..=999` are refused.
    pub fn from_u16(code: u16) -> (r: Result<StatusCode, InvalidStatusCode>)
        ensures
            r is Ok <==> valid_code(code),
            r matches Ok(s) ==> s.code() == code,
    {
        if 100 <= code && code <= 999 {
            Ok(StatusCode { code })
        } else {
            Err(InvalidStatusCode)
        }
    }

    /// The numeric code.
    pub fn as_u16(&self) -> (r: u16)
        ensures
            r == self.code(),
            valid_code(r),
    {
        proof {
            use_type_invariant(self);
        }
        self.code
    }

    /// Whether the code is in the 3xx class.
    pub fn is_redirection(&self) -> (r: bool)
        ensures
            r == (300 <= self.code() <= 399),
    {
        300 <= self.code && self.code <= 399
    }

    /// Whether the code is in the 4xx class.
    pub fn is_client_error(&self) -> (r: bool)
        ensures
            r == (400 <= self.code() <= 499),
    {
        400 <= self.code && self.code <= 499
    }

    /// Whether the code is in the 5xx class.
    pub fn is_server_error(&self) -> (r: bool)
        ensures
            r == (500 <= self.code() <= 599),
    {
        500 <= self.code && self.code <= 599
    }
}

} // verus!
